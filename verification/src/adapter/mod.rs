//! The canonical event model, and the contract every backend reader meets.

pub mod quickxml;
pub mod xmlrs;

use crate::error::Error;
use vstd::prelude::*;

verus! {

/// A local, namespace-stripped element or attribute name.  Equality is exact
/// comparison of the local name.
#[derive(Debug, PartialEq, Eq, Hash)]
pub struct GenericXmlName {
    pub local_name: String,
}

/// One attribute of an element: its name and its flat text value, in the
/// order the source document emitted it.
#[derive(Debug, PartialEq, Eq, Hash)]
pub struct GenericXmlAttribute {
    pub name: GenericXmlName,
    pub value: String,
}

/// The canonical event shape every backend is normalized into.  Backend-only
/// events (comments, processing instructions, whitespace-only text) never
/// appear here.
#[derive(Debug, PartialEq)]
pub enum GenericXmlEvent {
    EndDocument,
    StartElement { name: GenericXmlName, attributes: Vec<GenericXmlAttribute> },
    EndElement { name: GenericXmlName },
    Characters(String),
}

impl GenericXmlEvent {
    /// The category of this event.
    pub fn kind(&self) -> (k: crate::error::EventKind)
        ensures
            k == event_kind(*self),
    {
        match self {
            GenericXmlEvent::EndDocument => crate::error::EventKind::EndDocument,
            GenericXmlEvent::StartElement { .. } => crate::error::EventKind::StartElement,
            GenericXmlEvent::EndElement { .. } => crate::error::EventKind::EndElement,
            GenericXmlEvent::Characters(..) => crate::error::EventKind::Characters,
        }
    }
}

impl Clone for GenericXmlName {
    fn clone(&self) -> (res: Self)
        ensures
            res == *self,
    {
        GenericXmlName { local_name: self.local_name.clone() }
    }
}

impl Clone for GenericXmlAttribute {
    fn clone(&self) -> (res: Self)
        ensures
            res == *self,
    {
        GenericXmlAttribute { name: self.name.clone(), value: self.value.clone() }
    }
}

/// The category of a canonical event.
pub open spec fn event_kind(e: GenericXmlEvent) -> crate::error::EventKind {
    match e {
        GenericXmlEvent::EndDocument => crate::error::EventKind::EndDocument,
        GenericXmlEvent::StartElement { .. } => crate::error::EventKind::StartElement,
        GenericXmlEvent::EndElement { .. } => crate::error::EventKind::EndElement,
        GenericXmlEvent::Characters(..) => crate::error::EventKind::Characters,
    }
}

/// The local name carried by a `StartElement`.
pub open spec fn start_name_of(e: GenericXmlEvent) -> Seq<char>
    recommends
        e is StartElement,
{
    match e {
        GenericXmlEvent::StartElement { name, .. } => name.local_name@,
        _ => Seq::empty(),
    }
}

/// The attributes carried by a `StartElement`.
pub open spec fn start_attrs_of(e: GenericXmlEvent) -> Seq<GenericXmlAttribute>
    recommends
        e is StartElement,
{
    match e {
        GenericXmlEvent::StartElement { attributes, .. } => attributes@,
        _ => Seq::empty(),
    }
}

/// The local name carried by an `EndElement`.
pub open spec fn end_name_of(e: GenericXmlEvent) -> Seq<char>
    recommends
        e is EndElement,
{
    match e {
        GenericXmlEvent::EndElement { name } => name.local_name@,
        _ => Seq::empty(),
    }
}

/// The text carried by a `Characters` event.
pub open spec fn chars_of(e: GenericXmlEvent) -> Seq<char>
    recommends
        e is Characters,
{
    match e {
        GenericXmlEvent::Characters(text) => text@,
        _ => Seq::empty(),
    }
}

/// How consuming one event changes the nesting depth.
pub open spec fn depth_delta(e: GenericXmlEvent) -> int {
    match e {
        GenericXmlEvent::StartElement { .. } => 1,
        GenericXmlEvent::EndElement { .. } => -1,
        _ => 0,
    }
}

/// A normalized XML pull parser: one call, one canonical event.
///
/// `remaining` is the stream of canonical events the reader will deliver,
/// and `infallible` says whether delivery is guaranteed: a reader working
/// through a backend that can reject malformed input reports `false`, and
/// may then answer any call with a parse error instead of an event.
pub trait GenericEventReader {
    spec fn remaining(&self) -> Seq<GenericXmlEvent>;

    spec fn infallible(&self) -> bool;

    fn next(&mut self) -> (r: Result<GenericXmlEvent, Error>)
        ensures
            r matches Ok(e) ==> old(self).remaining().len() > 0 && e == old(self).remaining()[0]
                && final(self).remaining() == old(self).remaining().skip(1),
            r is Err ==> final(self).remaining() == old(self).remaining(),
            final(self).infallible() == old(self).infallible(),
            old(self).infallible() && old(self).remaining().len() > 0 ==> r is Ok,
    ;
}

/// A reader that replays an already materialized event sequence.  It stores
/// the events in reverse so that delivering one is a pop from the back.
pub struct VecEventReader {
    reversed: Vec<GenericXmlEvent>,
}

impl VecEventReader {
    /// Builds a reader that will deliver `events` in order.
    pub fn new(events: Vec<GenericXmlEvent>) -> (r: VecEventReader)
        ensures
            r.remaining() == events@,
            r.infallible(),
    {
        let mut events = events;
        let mut reversed: Vec<GenericXmlEvent> = Vec::new();
        let ghost orig = events@;
        proof {
            assert(orig =~= events@ + reversed@.reverse());
        }
        while events.len() != 0
            invariant
                orig == events@ + reversed@.reverse(),
            decreases events@.len(),
        {
            match events.pop() {
                Some(e) => {
                    reversed.push(e);
                    proof {
                        assert(orig =~= events@ + reversed@.reverse());
                    }
                },
                None => {
                    proof {
                        assert(false);
                    }
                },
            }
        }
        proof {
            assert(orig =~= reversed@.reverse());
        }
        VecEventReader { reversed }
    }
}

impl GenericEventReader for VecEventReader {
    closed spec fn remaining(&self) -> Seq<GenericXmlEvent> {
        self.reversed@.reverse()
    }

    closed spec fn infallible(&self) -> bool {
        true
    }

    fn next(&mut self) -> (r: Result<GenericXmlEvent, Error>)
        ensures
            old(self).remaining().len() == 0 ==> r is Err,
    {
        match self.reversed.pop() {
            Some(e) => {
                proof {
                    assert(self.reversed@.reverse() =~= old(self).reversed@.reverse().skip(1));
                }
                Ok(e)
            },
            None => Err(
                Error::Parse { message: "no more events in the source".to_owned() },
            ),
        }
    }
}

} // verus!
