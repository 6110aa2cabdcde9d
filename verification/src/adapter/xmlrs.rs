//! The xml-rs backend, normalized into canonical events.
//!
//! The backend parser is configured to trim surrounding whitespace, turn
//! whitespace and CDATA into ordinary text, drop comments and coalesce
//! adjacent text runs.  A verified loop filters what remains: backend-only
//! events and text runs left empty by trimming never reach the engine.

use super::{chars_of, GenericEventReader, GenericXmlAttribute, GenericXmlEvent, GenericXmlName};
use crate::error::Error;
use vstd::prelude::*;
use xml::reader::XmlEvent;

verus! {

/// Whether a raw backend event belongs in the canonical stream: text runs
/// left empty by whitespace trimming are dropped.
pub open spec fn keep_event(e: GenericXmlEvent) -> bool {
    !(e is Characters && chars_of(e).len() == 0)
}

/// The canonical stream distilled from a raw backend event sequence.
pub open spec fn canonical(evs: Seq<GenericXmlEvent>) -> Seq<GenericXmlEvent>
    decreases evs.len(),
{
    if evs.len() == 0 {
        Seq::empty()
    } else if keep_event(evs[0]) {
        seq![evs[0]] + canonical(evs.skip(1))
    } else {
        canonical(evs.skip(1))
    }
}

#[verifier::external_type_specification]
#[verifier::external_body]
pub struct ExOwnedName(xml::name::OwnedName);

#[verifier::external_type_specification]
#[verifier::external_body]
pub struct ExOwnedAttribute(xml::attribute::OwnedAttribute);

#[verifier::external_type_specification]
#[verifier::external_body]
pub struct ExXmlEvent(xml::reader::XmlEvent);

/// The configured backend parser over an owned byte source.  Its one field
/// is an `xml::reader::EventReader`, whose type parameter carries a bound
/// the verifier cannot encode, so the struct is held opaque.
#[verifier::external_body]
struct Backend {
    reader: xml::reader::EventReader<std::io::Cursor<Vec<u8>>>,
}

/// A reader normalizing the xml-rs pull parser into canonical events.  The
/// ghost `events` field names the raw converted events the backend will
/// deliver; the canonical stream is what is left of them after filtering.
pub struct XmlReader {
    backend: Backend,
    events: Ghost<Seq<GenericXmlEvent>>,
}

/// Relies on `OwnedName`'s public `local_name` field: the local,
/// namespace-stripped part of the name.
#[verifier::external_body]
fn name_of(n: xml::name::OwnedName) -> GenericXmlName {
    GenericXmlName { local_name: n.local_name }
}

/// Relies on `OwnedAttribute`'s public `name` and `value` fields; order is
/// preserved as the backend emitted it.
#[verifier::external_body]
fn attrs_of(attrs: Vec<xml::attribute::OwnedAttribute>) -> Vec<GenericXmlAttribute> {
    attrs.into_iter().map(
        |a|
            GenericXmlAttribute {
                name: GenericXmlName { local_name: a.name.local_name },
                value: a.value,
            },
    ).collect()
}

/// Relies on `xml::reader::XmlEvent`: one arm per variant, moving fields;
/// backend-only variants (document start, processing instructions,
/// comments, whitespace, doctype) become `None`.
#[verifier::external_body]
fn convert_event(e: XmlEvent) -> Option<GenericXmlEvent> {
    match e {
        XmlEvent::EndDocument => Some(GenericXmlEvent::EndDocument),
        XmlEvent::StartElement { name, attributes, namespace: _ } => Some(
            GenericXmlEvent::StartElement { name: name_of(name), attributes: attrs_of(attributes) },
        ),
        XmlEvent::EndElement { name } => Some(
            GenericXmlEvent::EndElement { name: name_of(name) },
        ),
        XmlEvent::Characters(text) => Some(GenericXmlEvent::Characters(text)),
        _ => None,
    }
}

/// Relies on `xml::reader::EventReader::new_with_config`: a pull parser
/// over `source`, configured to trim whitespace, turn whitespace and CDATA
/// into text, drop comments and coalesce adjacent text runs.
#[verifier::external_body]
fn make_backend(source: Vec<u8>) -> Backend {
    let config = xml::reader::ParserConfig::new()
        .trim_whitespace(true)
        .whitespace_to_characters(true)
        .cdata_to_characters(true)
        .ignore_comments(true)
        .coalesce_characters(true);
    Backend {
        reader: xml::reader::EventReader::new_with_config(std::io::Cursor::new(source), config),
    }
}

impl XmlReader {
    /// Wraps an owned byte source in a configured backend parser.
    pub fn new(source: Vec<u8>) -> (r: XmlReader) {
        let ghost delivered: Seq<GenericXmlEvent> = arbitrary();
        XmlReader { backend: make_backend(source), events: Ghost(delivered) }
    }

    /// Relies on `xml::reader::EventReader::next` for one backend event,
    /// converted to the canonical shape; `None` stands for a backend-only
    /// event.  The ghost `events` field names the raw converted events the
    /// backend will deliver.
    #[verifier::external_body]
    fn raw_next(&mut self) -> (r: Result<Option<GenericXmlEvent>, Error>)
        ensures
            r matches Ok(Some(e)) ==> old(self).events@.len() > 0 && e == old(self).events@[0]
                && final(self).events@ == old(self).events@.skip(1),
            r matches Ok(o) ==> (o is None ==> final(self).events@ == old(self).events@),
            r is Err ==> final(self).events@ == old(self).events@,
    {
        match self.backend.reader.next() {
            Ok(e) => Ok(convert_event(e)),
            Err(e) => Err(Error::Parse { message: e.to_string() }),
        }
    }
}

impl GenericEventReader for XmlReader {
    closed spec fn remaining(&self) -> Seq<GenericXmlEvent> {
        canonical(self.events@)
    }

    closed spec fn infallible(&self) -> bool {
        false
    }

    fn next(&mut self) -> (r: Result<GenericXmlEvent, Error>) {
        let mut fuel: u64 = 0xffff_ffff;
        while fuel > 0
            invariant
                canonical(self.events@) == canonical(old(self).events@),
            decreases fuel,
        {
            let ghost pre = self.events@;
            match self.raw_next() {
                Ok(Some(e)) => {
                    let deliver: bool = match &e {
                        GenericXmlEvent::Characters(text) => !text.as_str().is_empty(),
                        _ => true,
                    };
                    if deliver {
                        proof {
                            assert(canonical(pre).skip(1) =~= canonical(self.events@));
                        }
                        return Ok(e);
                    }
                },
                Ok(None) => {},
                Err(err) => {
                    return Err(err);
                },
            }
            fuel = fuel - 1;
        }
        Err(Error::Parse { message: "too many backend events were filtered in a row".to_owned() })
    }
}

} // verus!
