//! The quick-xml backend, normalized into canonical events.
//!
//! This backend keys on byte names decoded per the document's encoding and
//! is configured to expand self-closing tags and trim surrounding
//! whitespace in text.  The same verified loop as for the primary backend
//! filters what remains: backend-only events and text runs left empty by
//! trimming never reach the engine.  Adjacent text and CDATA runs are
//! delivered as separate text events by this backend.

use super::xmlrs::{canonical, keep_event};
use super::{GenericEventReader, GenericXmlAttribute, GenericXmlEvent, GenericXmlName};
use crate::error::Error;
use quick_xml::events::Event;
use vstd::prelude::*;

verus! {

#[verifier::external_type_specification]
#[verifier::external_body]
pub struct ExDecoder(quick_xml::encoding::Decoder);

#[verifier::external_type_specification]
#[verifier::external_body]
pub struct ExBytesStart<'a>(quick_xml::events::BytesStart<'a>);

#[verifier::external_type_specification]
#[verifier::external_body]
pub struct ExBytesEnd<'a>(quick_xml::events::BytesEnd<'a>);

#[verifier::external_type_specification]
#[verifier::external_body]
pub struct ExBytesText<'a>(quick_xml::events::BytesText<'a>);

#[verifier::external_type_specification]
#[verifier::external_body]
pub struct ExBytesCData<'a>(quick_xml::events::BytesCData<'a>);

/// The configured backend parser over an owned byte source.  Its one field
/// is a `quick_xml::reader::Reader`, held opaque like the primary
/// backend's.
#[verifier::external_body]
struct QuickBackend {
    reader: quick_xml::reader::Reader<std::io::Cursor<Vec<u8>>>,
}

/// A reader normalizing the quick-xml pull parser into canonical events.
/// The ghost `events` field names the raw converted events the backend
/// will deliver; the canonical stream is what is left after filtering.
pub struct QuickXmlReader {
    backend: QuickBackend,
    events: Ghost<Seq<GenericXmlEvent>>,
}

/// Relies on `quick_xml::encoding::Decoder::decode`: name bytes decoded
/// per the document's encoding.
#[verifier::external_body]
fn decode_name(decoder: quick_xml::encoding::Decoder, bytes: &[u8]) -> Result<
    GenericXmlName,
    Error,
> {
    match decoder.decode(bytes) {
        Ok(s) => Ok(GenericXmlName { local_name: s.into_owned() }),
        Err(e) => Err(Error::Parse { message: e.to_string() }),
    }
}

#[verifier::external_type_specification]
#[verifier::external_body]
pub struct ExAttribute<'a>(quick_xml::events::attributes::Attribute<'a>);

/// Relies on `Attribute::decode_and_unescape_value` and `QName::local_name`:
/// one attribute's local name and its flat text value.
#[verifier::external_body]
fn convert_attr(
    decoder: quick_xml::encoding::Decoder,
    attr: &quick_xml::events::attributes::Attribute,
) -> Result<GenericXmlAttribute, Error> {
    let value = attr.decode_and_unescape_value(decoder).map_err(
        |err| Error::Parse { message: err.to_string() },
    )?;
    let name = decode_name(decoder, attr.key.local_name().as_ref())?;
    Ok(GenericXmlAttribute { name, value: value.into_owned() })
}

/// Relies on `BytesStart::local_name` and `BytesStart::attributes`: the
/// start tag's local name and its attributes, in document order.
#[verifier::external_body]
fn convert_start(
    decoder: quick_xml::encoding::Decoder,
    e: &quick_xml::events::BytesStart,
) -> Result<GenericXmlEvent, Error> {
    let name = decode_name(decoder, e.local_name().as_ref())?;
    let mut attributes: Vec<GenericXmlAttribute> = Vec::new();
    for attr in e.attributes() {
        let attr = attr.map_err(|err| Error::Parse { message: err.to_string() })?;
        attributes.push(convert_attr(decoder, &attr)?);
    }
    Ok(GenericXmlEvent::StartElement { name, attributes })
}

/// Relies on `BytesEnd::local_name`: the end tag's local name.
#[verifier::external_body]
fn convert_end(
    decoder: quick_xml::encoding::Decoder,
    e: &quick_xml::events::BytesEnd,
) -> Result<GenericXmlEvent, Error> {
    match decode_name(decoder, e.local_name().as_ref()) {
        Ok(name) => Ok(GenericXmlEvent::EndElement { name }),
        Err(err) => Err(err),
    }
}

/// Relies on `BytesText::unescape`: the text run with character and entity
/// references resolved.
#[verifier::external_body]
fn convert_text(e: &quick_xml::events::BytesText) -> Result<GenericXmlEvent, Error> {
    match e.unescape() {
        Ok(s) => Ok(GenericXmlEvent::Characters(s.into_owned())),
        Err(err) => Err(Error::Parse { message: err.to_string() }),
    }
}

/// Relies on `quick_xml::encoding::Decoder::decode`: CDATA content is
/// carried over as ordinary text, unescaped of nothing.
#[verifier::external_body]
fn convert_cdata(
    decoder: quick_xml::encoding::Decoder,
    e: &quick_xml::events::BytesCData,
) -> Result<GenericXmlEvent, Error> {
    match decoder.decode(e.as_ref()) {
        Ok(s) => Ok(GenericXmlEvent::Characters(s.into_owned())),
        Err(err) => Err(Error::Parse { message: err.to_string() }),
    }
}

/// Relies on `quick_xml::reader::Reader::from_reader` and its
/// configuration: self-closing tags are expanded into a start and an end
/// tag, and surrounding whitespace in text is trimmed.
#[verifier::external_body]
fn make_quick_backend(source: Vec<u8>) -> QuickBackend {
    let mut reader = quick_xml::reader::Reader::from_reader(std::io::Cursor::new(source));
    reader.config_mut().expand_empty_elements = true;
    reader.config_mut().trim_text(true);
    QuickBackend { reader }
}

impl QuickXmlReader {
    /// Wraps an owned byte source in a configured backend parser.
    pub fn new(source: Vec<u8>) -> (r: QuickXmlReader) {
        let ghost delivered: Seq<GenericXmlEvent> = arbitrary();
        QuickXmlReader { backend: make_quick_backend(source), events: Ghost(delivered) }
    }

    /// Relies on `quick_xml::reader::Reader::read_event_into` for one
    /// backend event, converted to the canonical shape; `None` stands for
    /// a backend-only event.  The ghost `events` field names the raw
    /// converted events the backend will deliver.
    #[verifier::external_body]
    fn raw_next(&mut self) -> (r: Result<Option<GenericXmlEvent>, Error>)
        ensures
            r matches Ok(Some(e)) ==> old(self).events@.len() > 0 && e == old(self).events@[0]
                && final(self).events@ == old(self).events@.skip(1),
            r matches Ok(o) ==> (o is None ==> final(self).events@ == old(self).events@),
            r is Err ==> final(self).events@ == old(self).events@,
    {
        let mut buf: Vec<u8> = Vec::new();
        let decoder = self.backend.reader.decoder();
        match self.backend.reader.read_event_into(&mut buf) {
            Ok(Event::Eof) => Ok(Some(GenericXmlEvent::EndDocument)),
            Ok(Event::Start(e)) => convert_start(decoder, &e).map(Some),
            Ok(Event::End(e)) => convert_end(decoder, &e).map(Some),
            Ok(Event::Text(e)) => convert_text(&e).map(Some),
            Ok(Event::CData(e)) => convert_cdata(decoder, &e).map(Some),
            Ok(_) => Ok(None),
            Err(e) => Err(Error::Parse { message: e.to_string() }),
        }
    }
}

impl GenericEventReader for QuickXmlReader {
    closed spec fn remaining(&self) -> Seq<GenericXmlEvent> {
        canonical(self.events@)
    }

    closed spec fn infallible(&self) -> bool {
        false
    }

    fn next(&mut self) -> (r: Result<GenericXmlEvent, Error>) {
        let mut fuel: u64 = 0xffff_ffff;
        while fuel > 0
            invariant
                canonical(self.events@) == canonical(old(self).events@),
            decreases fuel,
        {
            let ghost pre = self.events@;
            match self.raw_next() {
                Ok(Some(e)) => {
                    let deliver: bool = match &e {
                        GenericXmlEvent::Characters(text) => !text.as_str().is_empty(),
                        _ => true,
                    };
                    if deliver {
                        proof {
                            assert(canonical(pre).skip(1) =~= canonical(self.events@));
                        }
                        return Ok(e);
                    }
                },
                Ok(None) => {},
                Err(err) => {
                    return Err(err);
                },
            }
            fuel = fuel - 1;
        }
        Err(Error::Parse { message: "too many backend events were filtered in a row".to_owned() })
    }
}

} // verus!
