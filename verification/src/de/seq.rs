//! Sequence access: consecutive sibling elements sharing one tag name
//! presented as a homogeneous sequence, with an optional maximum length.

use crate::adapter::{start_name_of, GenericEventReader, GenericXmlEvent};
use crate::de::{complete_value, lemma_skip_complete_value, skip_steps, Deserializer};
use crate::error::{Error, EventKind};
use vstd::prelude::*;

verus! {

/// How many consecutive complete elements bearing `name` stand at the
/// head of the stream: the length of the sibling run a keyed sequence
/// decode walks through.
pub open spec fn run_count(evs: Seq<GenericXmlEvent>, name: Seq<char>) -> nat
    decreases evs.len(),
{
    if evs.len() == 0 || !(evs[0] is StartElement && start_name_of(evs[0]) == name) {
        0
    } else {
        match skip_steps(evs, 0, 0) {
            Some(n) => if 1 <= n <= evs.len() {
                (1 + run_count(evs.skip(n as int), name)) as nat
            } else {
                1
            },
            None => 0,
        }
    }
}

/// Whether the upcoming event continues the sequence.  With a repetition
/// key only a start tag of exactly that name continues it; without one
/// (tuple-style decode of fixed positions) anything but a closing tag or
/// the document end does.
pub open spec fn seq_continues(e: GenericXmlEvent, expected: Option<Seq<char>>) -> bool {
    match expected {
        Some(n) => e is StartElement && start_name_of(e) == n,
        None => !(e is EndElement) && !(e is EndDocument),
    }
}

/// The sequence-access state machine: the remaining-count budget, when
/// bounded, and the repetition key, when one is tracked.
pub struct SeqAccess {
    max_size: Option<usize>,
    expected_name: Option<String>,
}

impl SeqAccess {
    /// The remaining-count budget, `None` when unbounded.
    pub closed spec fn budget(&self) -> Option<usize> {
        self.max_size
    }

    /// The repetition key delimiting the run, `None` when untracked.
    pub closed spec fn expected(&self) -> Option<Seq<char>> {
        match self.expected_name {
            Some(n) => Some(n@),
            None => None,
        }
    }

    /// Builds sequence access.  When the pending-inline signal is set at
    /// entry, the tag name of the upcoming start element is captured as
    /// the repetition key; otherwise no key is tracked.
    pub fn new<E: GenericEventReader>(de: &mut Deserializer<E>, max_size: Option<usize>) -> (r:
        Result<SeqAccess, Error>)
        ensures
            final(de).remaining() == old(de).remaining(),
            final(de).depth() == old(de).depth(),
            final(de).infallible() == old(de).infallible(),
            !final(de).pending(),
            r matches Ok(s) ==> s.budget() == max_size,
            !old(de).pending() ==> (r matches Ok(s) && s.expected() is None),
            old(de).pending() ==> (r matches Ok(s) ==> old(de).remaining().len() > 0 && old(
                de,
            ).remaining()[0] is StartElement && s.expected() == Some(
                start_name_of(old(de).remaining()[0]),
            )),
            old(de).pending() && old(de).infallible() ==> (r is Ok <==> old(de).remaining().len()
                > 0 && old(de).remaining()[0] is StartElement),
    {
        let expected_name: Option<String> = if de.unset_map_value() {
            match de.peek()? {
                GenericXmlEvent::StartElement { name, .. } => Some(name.local_name.clone()),
                other => {
                    return Err(
                        Error::UnexpectedToken {
                            required: EventKind::StartElement,
                            observed: other.kind(),
                        },
                    );
                },
            }
        } else {
            None
        };
        Ok(SeqAccess { max_size, expected_name })
    }

    /// Decides whether one more element is to be decoded.  An exhausted
    /// budget ends the sequence at once; otherwise the upcoming event is
    /// compared against the repetition key, and a continuing keyed element
    /// propagates the pending-inline signal to its decode.
    pub fn next_element<E: GenericEventReader>(&mut self, de: &mut Deserializer<E>) -> (r: Result<
        bool,
        Error,
    >)
        ensures
            final(self).expected() == old(self).expected(),
            final(de).remaining() == old(de).remaining(),
            final(de).depth() == old(de).depth(),
            final(de).infallible() == old(de).infallible(),
            old(self).budget() == Some(0usize) ==> (r matches Ok(more) && !more
                && final(self).budget() == old(self).budget() && final(de).pending() == old(
                de,
            ).pending()),
            old(self).budget() matches Some(m) ==> (m > 0 ==> final(self).budget() == Some(
                (m - 1) as usize,
            )),
            old(self).budget() is None ==> final(self).budget() is None,
            old(self).budget() != Some(0usize) ==> (r matches Ok(more) ==> old(
                de,
            ).remaining().len() > 0 && more == seq_continues(
                old(de).remaining()[0],
                old(self).expected(),
            ) && (more && old(self).expected() is Some ==> final(de).pending()) && (!(more && old(
                self,
            ).expected() is Some) ==> final(de).pending() == old(de).pending())),
            old(self).budget() != Some(0usize) && old(de).infallible() && old(
                de,
            ).remaining().len() > 0 ==> r is Ok,
            r is Err ==> final(de).pending() == old(de).pending(),
    {
        let exhausted: bool = match &self.max_size {
            Some(m) => *m == 0,
            None => false,
        };
        if exhausted {
            return Ok(false);
        }
        match &mut self.max_size {
            Some(m) => {
                *m = *m - 1;
            },
            None => {},
        }
        let more: bool = match &self.expected_name {
            Some(expected) => match de.peek()? {
                GenericXmlEvent::StartElement { name, .. } => name.local_name == *expected,
                _ => false,
            },
            None => match de.peek()? {
                GenericXmlEvent::EndElement { .. } => false,
                GenericXmlEvent::EndDocument => false,
                _ => true,
            },
        };
        if more && self.expected_name.is_some() {
            de.set_map_value();
        }
        Ok(more)
    }

    /// The remaining-count budget, as an upper bound on what is to come.
    pub fn size_hint(&self) -> (n: Option<usize>)
        ensures
            n == self.budget(),
    {
        self.max_size
    }
}

/// Law, induction step for a keyed run: with one complete same-tag member
/// at the head, the continue decision holds there, and decoding the
/// member — which consumes exactly its complete subtree — leaves a run
/// exactly one shorter.  An unbounded sequence decode therefore yields one
/// value per member of the run, in document order.
pub proof fn lemma_sequence_member_step(
    member: Seq<GenericXmlEvent>,
    rest: Seq<GenericXmlEvent>,
    name: Seq<char>,
)
    requires
        complete_value(member),
        member[0] is StartElement,
        start_name_of(member[0]) == name,
        member.len() + rest.len() <= u64::MAX,
    ensures
        seq_continues((member + rest)[0], Some(name)),
        run_count(member + rest, name) == 1 + run_count(rest, name),
{
    let joined = member + rest;
    lemma_skip_complete_value(member, rest, 0);
    assert(joined[0] == member[0]);
    assert(joined.skip(member.len() as int) =~= rest);
}

/// Law, stopping case for a keyed run: at any event that is not a start
/// tag bearing the repetition key — a differently named sibling, a
/// closing tag, or the document end — the run is over and the decision is
/// to stop, leaving that event and everything after it unconsumed for
/// further decode.
pub proof fn lemma_sequence_stop(evs: Seq<GenericXmlEvent>, name: Seq<char>)
    requires
        evs.len() > 0,
        !(evs[0] is StartElement && start_name_of(evs[0]) == name),
    ensures
        !seq_continues(evs[0], Some(name)),
        run_count(evs, name) == 0,
{
}

} // verus!
