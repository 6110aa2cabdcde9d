//! Record access: one element's attributes and child content presented as
//! an ordered collection of named entries.

use crate::adapter::{start_name_of, GenericEventReader, GenericXmlAttribute, GenericXmlEvent};
use crate::de::Deserializer;
use crate::error::Error;
use vstd::prelude::*;

verus! {

/// The key the upcoming event would contribute once every attribute has
/// been yielded: a nested element contributes its tag name (or the
/// reserved inline-value name if the record declares that field), bare
/// text contributes the reserved inline-value name, and a closing tag
/// ends the record.
pub open spec fn peeked_key(e: GenericXmlEvent, inner_value: bool) -> Option<Seq<char>> {
    match e {
        GenericXmlEvent::StartElement { .. } => if !inner_value {
            Some(start_name_of(e))
        } else {
            Some("$value"@)
        },
        GenericXmlEvent::Characters(..) => Some("$value"@),
        _ => None,
    }
}

/// The record-access state machine.  It owns the element's captured
/// attribute list and a cursor into it; the decoding cursor itself is
/// borrowed per call, so that the machine can never outlive or alias
/// another borrower of it.
pub struct MapAccess {
    attrs: Vec<GenericXmlAttribute>,
    pos: usize,
    next_value: Option<String>,
    inner_value: bool,
}

impl MapAccess {
    /// The element's attributes, in document order.
    pub closed spec fn attrs(&self) -> Seq<GenericXmlAttribute> {
        self.attrs@
    }

    /// How many attributes have been yielded as keys so far.
    pub closed spec fn pos(&self) -> int {
        self.pos as int
    }

    /// The attribute value staged by the last yielded attribute key.
    pub closed spec fn staged(&self) -> Option<Seq<char>> {
        match self.next_value {
            Some(v) => Some(v@),
            None => None,
        }
    }

    /// Whether the record declares the reserved inline-value field.
    pub closed spec fn inner_value(&self) -> bool {
        self.inner_value
    }

    /// The cursor has not run past the attribute list.
    pub closed spec fn wf(&self) -> bool {
        self.pos as int <= self.attrs@.len()
    }

    /// Builds record access over an element's captured attributes.
    pub fn new(attrs: Vec<GenericXmlAttribute>, inner_value: bool) -> (m: MapAccess)
        ensures
            m.wf(),
            m.attrs() == attrs@,
            m.pos() == 0,
            m.staged() is None,
            m.inner_value() == inner_value,
    {
        MapAccess { attrs, pos: 0, next_value: None, inner_value }
    }

    /// Yields the next entry's key, or `None` when the record is finished.
    /// Unread attributes are yielded first, in document order, each
    /// staging its value for the paired value read and leaving the event
    /// stream untouched; afterwards the upcoming event decides.
    pub fn next_key<E: GenericEventReader>(&mut self, de: &mut Deserializer<E>) -> (r: Result<
        Option<String>,
        Error,
    >)
        requires
            old(self).wf(),
            old(self).staged() is None,
        ensures
            final(self).wf(),
            final(self).attrs() == old(self).attrs(),
            final(self).inner_value() == old(self).inner_value(),
            final(de).remaining() == old(de).remaining(),
            final(de).depth() == old(de).depth(),
            final(de).pending() == old(de).pending(),
            final(de).infallible() == old(de).infallible(),
            old(self).pos() < old(self).attrs().len() ==> ({
                let attr = old(self).attrs()[old(self).pos()];
                &&& (r matches Ok(k) && k matches Some(name) && name@ == attr.name.local_name@)
                &&& final(self).staged() == Some(attr.value@)
                &&& final(self).pos() == old(self).pos() + 1
            }),
            old(self).pos() >= old(self).attrs().len() ==> final(self).pos() == old(self).pos()
                && final(self).staged() is None,
            old(self).pos() >= old(self).attrs().len() ==> (r matches Ok(k) ==> old(
                de,
            ).remaining().len() > 0 && ({
                let pk = peeked_key(old(de).remaining()[0], old(self).inner_value());
                &&& (k is Some <==> pk is Some)
                &&& (k matches Some(name) ==> pk matches Some(v) && name@ == v)
            })),
            old(self).pos() >= old(self).attrs().len() && old(de).infallible() && old(
                de,
            ).remaining().len() > 0 ==> r is Ok,
    {
        if self.pos < self.attrs.len() {
            let name = self.attrs[self.pos].name.local_name.clone();
            let value = self.attrs[self.pos].value.clone();
            self.next_value = Some(value);
            self.pos = self.pos + 1;
            Ok(Some(name))
        } else {
            match de.peek() {
                Ok(e) => match e {
                    GenericXmlEvent::StartElement { name, .. } => {
                        if !self.inner_value {
                            Ok(Some(name.local_name.clone()))
                        } else {
                            Ok(Some(String::from_str("$value")))
                        }
                    },
                    GenericXmlEvent::Characters(..) => Ok(Some(String::from_str("$value"))),
                    _ => Ok(None),
                },
                Err(err) => Err(err),
            }
        }
    }

    /// Prepares the value read paired with the last key.  A staged
    /// attribute value is handed back as flat text to be decoded directly;
    /// `None` means the value must be decoded recursively from the event
    /// stream, with the pending-inline signal set when a nested element
    /// supplies it.
    pub fn next_value<E: GenericEventReader>(&mut self, de: &mut Deserializer<E>) -> (r: Result<
        Option<String>,
        Error,
    >)
        ensures
            final(self).wf() == old(self).wf(),
            final(self).attrs() == old(self).attrs(),
            final(self).pos() == old(self).pos(),
            final(self).inner_value() == old(self).inner_value(),
            final(self).staged() is None,
            final(de).remaining() == old(de).remaining(),
            final(de).depth() == old(de).depth(),
            final(de).infallible() == old(de).infallible(),
            old(self).staged() matches Some(v) ==> (r matches Ok(k) && k matches Some(text)
                && text@ == v && final(de).pending() == old(de).pending()),
            old(self).staged() is None ==> (r matches Ok(k) ==> k is None),
            old(self).staged() is None && !old(self).inner_value() ==> (r is Ok
                ==> (final(de).pending() <==> (old(de).pending() || (old(de).remaining().len() > 0
                && old(de).remaining()[0] is StartElement)))),
            old(self).staged() is None && old(self).inner_value() ==> final(de).pending() == old(
                de,
            ).pending(),
            old(self).staged() is None && old(self).inner_value() ==> (r matches Ok(k)
                && k is None),
            old(self).staged() is None && !old(self).inner_value() && old(de).infallible() && old(
                de,
            ).remaining().len() > 0 ==> r is Ok,
    {
        match self.next_value.take() {
            Some(value) => Ok(Some(value)),
            None => {
                if !self.inner_value {
                    match de.peek() {
                        Ok(e) => {
                            let is_start = match e {
                                GenericXmlEvent::StartElement { .. } => true,
                                _ => false,
                            };
                            if is_start {
                                de.set_map_value();
                            }
                        },
                        Err(err) => {
                            return Err(err);
                        },
                    }
                }
                Ok(None)
            },
        }
    }

    /// An upper bound on the entries still to come: the attributes not yet
    /// yielded.
    pub fn size_hint(&self) -> (n: Option<usize>)
        requires
            self.wf(),
        ensures
            n == Some((self.attrs().len() - self.pos()) as usize),
    {
        Some(self.attrs.len() - self.pos)
    }
}

} // verus!
