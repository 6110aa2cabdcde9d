//! The core decoding engine: a cursor over the canonical event stream.
//!
//! The cursor owns the backend reader, a one-event lookahead buffer, the
//! nesting-depth counter and the single-use pending-inline signal.  Exactly
//! one access state machine (or the top-level decode call) holds it at any
//! instant; every structural operation is expressed over the model functions
//! `remaining`, `depth` and `pending`.

pub mod map;
pub mod seq;
pub mod var;

use crate::adapter::{
    chars_of, depth_delta, end_name_of, event_kind, start_attrs_of, start_name_of,
    GenericEventReader, GenericXmlAttribute, GenericXmlEvent, GenericXmlName,
};
use crate::error::{Error, EventKind};
use vstd::prelude::*;

verus! {

/// What reading one scalar text value does to the stream: `Some((text,
/// consumed))` when it succeeds after consuming that many events, `None`
/// when it fails.  With the pending-inline signal set (or a start tag up
/// next) the text is framed by the element's start and end tags; otherwise
/// a bare `Characters` event supplies it, and an immediately following end
/// tag supplies the empty string.
pub open spec fn string_value_outcome(pending: bool, evs: Seq<GenericXmlEvent>, d: int) -> Option<
    (Seq<char>, nat),
> {
    let inline = pending || (evs.len() > 0 && evs[0] is StartElement);
    if evs.len() == 0 {
        None
    } else if !inline {
        if evs[0] is Characters {
            Some((chars_of(evs[0]), 1nat))
        } else if evs[0] is EndElement {
            Some((Seq::empty(), 0nat))
        } else {
            None
        }
    } else {
        if !(evs[0] is StartElement) || d == u64::MAX {
            None
        } else if evs.len() >= 2 && evs[1] is EndElement && end_name_of(evs[1]) == start_name_of(
            evs[0],
        ) {
            Some((Seq::empty(), 2nat))
        } else if evs.len() >= 3 && evs[1] is Characters && evs[2] is EndElement && end_name_of(
            evs[2],
        ) == start_name_of(evs[0]) {
            Some((chars_of(evs[1]), 3nat))
        } else {
            None
        }
    }
}

/// What decoding a unit value does to the stream: the number of consumed
/// events on success, `None` on failure.  A unit value is an element with
/// no content at all: either the enclosing end tag is already up next, or
/// the framed element closes immediately.
pub open spec fn unit_value_outcome(pending: bool, evs: Seq<GenericXmlEvent>, d: int) -> Option<
    nat,
> {
    let inline = pending || (evs.len() > 0 && evs[0] is StartElement);
    if evs.len() == 0 {
        None
    } else if !inline {
        if evs[0] is EndElement {
            Some(0nat)
        } else {
            None
        }
    } else {
        if !(evs[0] is StartElement) || d == u64::MAX {
            None
        } else if evs.len() >= 2 && evs[1] is EndElement && end_name_of(evs[1]) == start_name_of(
            evs[0],
        ) {
            Some(2nat)
        } else {
            None
        }
    }
}

/// How many events a skip starting at depth `cur` must consume before the
/// depth returns to `entry`, or `None` if the stream ends, underflows depth
/// zero, or overflows the depth counter first.
pub open spec fn skip_steps(evs: Seq<GenericXmlEvent>, entry: int, cur: int) -> Option<nat>
    decreases evs.len(),
{
    if evs.len() == 0 {
        None
    } else if evs[0] is EndElement && cur == 0 {
        None
    } else if evs[0] is StartElement && cur == u64::MAX {
        None
    } else {
        let cur2 = cur + depth_delta(evs[0]);
        if cur2 == entry {
            Some(1nat)
        } else {
            match skip_steps(evs.skip(1), entry, cur2) {
                Some(n) => Some((n + 1) as nat),
                None => None,
            }
        }
    }
}

/// How a value with no fixed shape expectation is decoded, judged from the
/// upcoming event.
#[derive(Clone, Copy, Debug, PartialEq, Eq, Structural)]
pub enum AnyShape {
    /// A nested element: decode as a record.
    Record,
    /// The enclosing element closes here: decode as an empty unit value.
    Unit,
    /// Anything else: decode as text.
    Text,
}

/// `o` with `k` more consumed events counted in.
pub open spec fn shifted(o: Option<nat>, k: nat) -> Option<nat> {
    match o {
        Some(n) => Some((n + k) as nat),
        None => None,
    }
}

/// The net depth change of consuming a whole event sequence.
pub open spec fn delta_sum(evs: Seq<GenericXmlEvent>) -> int
    decreases evs.len(),
{
    if evs.len() == 0 {
        0
    } else {
        depth_delta(evs[0]) + delta_sum(evs.skip(1))
    }
}

/// `evs` forms exactly one complete value: a single text or document-end
/// event, or one element subtree whose nesting opens at the first event
/// and closes only at the last.
pub open spec fn complete_value(evs: Seq<GenericXmlEvent>) -> bool {
    &&& evs.len() >= 1
    &&& delta_sum(evs) == 0
    &&& forall|k: int| 1 <= k < evs.len() ==> delta_sum(#[trigger] evs.take(k)) > 0
}

proof fn lemma_delta_sum_cons(e: GenericXmlEvent, s: Seq<GenericXmlEvent>)
    ensures
        delta_sum(seq![e] + s) == depth_delta(e) + delta_sum(s),
{
    let joined = seq![e] + s;
    assert(joined[0] == e);
    assert(joined.skip(1) =~= s);
}

proof fn lemma_skip_steps_closes(
    evs: Seq<GenericXmlEvent>,
    tail: Seq<GenericXmlEvent>,
    entry: int,
    cur: int,
)
    requires
        evs.len() >= 1,
        cur + delta_sum(evs) == entry,
        forall|k: int| 1 <= k < evs.len() ==> cur + delta_sum(#[trigger] evs.take(k)) > entry,
        0 <= entry <= cur,
        cur + evs.len() <= u64::MAX,
    ensures
        skip_steps(evs + tail, entry, cur) == Some(evs.len() as nat),
    decreases evs.len(),
{
    let joined = evs + tail;
    let e = evs[0];
    assert(joined[0] == e);
    assert(evs =~= seq![e] + evs.skip(1));
    lemma_delta_sum_cons(e, evs.skip(1));
    if evs.len() == 1 {
        assert(delta_sum(evs.skip(1)) == 0);
        assert(depth_delta(e) == entry - cur);
        if e is EndElement {
            assert(cur == entry + 1);
        }
        assert(cur + depth_delta(e) == entry);
    } else {
        assert(evs.take(1) =~= seq![e]);
        assert(delta_sum(seq![e] + Seq::<GenericXmlEvent>::empty()) == depth_delta(e)) by {
            lemma_delta_sum_cons(e, Seq::<GenericXmlEvent>::empty());
        }
        assert(seq![e] + Seq::<GenericXmlEvent>::empty() =~= seq![e]);
        assert(cur + depth_delta(e) > entry);
        let cur2 = cur + depth_delta(e);
        let rest = evs.skip(1);
        assert(joined.skip(1) =~= rest + tail);
        assert(cur2 + delta_sum(rest) == entry);
        assert forall|k: int| 1 <= k < rest.len() implies cur2 + delta_sum(
            #[trigger] rest.take(k),
        ) > entry by {
            assert(evs.take(k + 1) =~= seq![e] + rest.take(k));
            lemma_delta_sum_cons(e, rest.take(k));
            assert(cur + delta_sum(evs.take(k + 1)) > entry);
        }
        lemma_skip_steps_closes(rest, tail, entry, cur2);
    }
}

/// Law: a well-formed element whose shape matches a requested scalar —
/// a start tag, its embedded text, and the matching end tag — always
/// decodes successfully, to exactly that text, consuming exactly those
/// three events; together with the scalar decode contracts, such a decode
/// returns the depth to its entry value.
pub proof fn lemma_matching_scalar_succeeds(
    e0: GenericXmlEvent,
    e1: GenericXmlEvent,
    e2: GenericXmlEvent,
    tail: Seq<GenericXmlEvent>,
    pending: bool,
    d: int,
)
    requires
        e0 is StartElement,
        e1 is Characters,
        e2 is EndElement,
        end_name_of(e2) == start_name_of(e0),
        0 <= d < u64::MAX,
    ensures
        string_value_outcome(pending, seq![e0, e1, e2] + tail, d) == Some((chars_of(e1), 3nat)),
{
    let evs = seq![e0, e1, e2] + tail;
    assert(evs[0] == e0);
    assert(evs[1] == e1);
    assert(evs[2] == e2);
}

/// Law: a complete value followed by anything is skipped in exactly its
/// own length: from any entry depth with room for its nesting, the
/// structural skip consumes the whole subtree, nothing after it, and the
/// depth comes back to its entry value (as [`Deserializer::skip_value`]'s
/// contract then states over these steps).
pub proof fn lemma_skip_complete_value(
    evs: Seq<GenericXmlEvent>,
    tail: Seq<GenericXmlEvent>,
    d: int,
)
    requires
        complete_value(evs),
        0 <= d,
        d + evs.len() <= u64::MAX,
    ensures
        skip_steps(evs + tail, d, d) == Some(evs.len() as nat),
{
    lemma_skip_steps_closes(evs, tail, d, d);
}

/// Law: the nesting depth is never negative — it counts how many consumed
/// start tags are still unclosed, and an end tag at depth zero is refused
/// rather than counted.
pub proof fn lemma_depth_nonnegative<E: GenericEventReader>(de: &Deserializer<E>)
    ensures
        de.depth() >= 0,
{
}

/// The decoding cursor.
pub struct Deserializer<E: GenericEventReader> {
    depth: u64,
    reader: E,
    peeked: Option<GenericXmlEvent>,
    is_map_value: bool,
}

impl<E: GenericEventReader> Deserializer<E> {
    /// The canonical events still to be consumed: the buffered one, if any,
    /// followed by everything the reader will deliver.
    pub closed spec fn remaining(&self) -> Seq<GenericXmlEvent> {
        match self.peeked {
            Some(e) => seq![e] + self.reader.remaining(),
            None => self.reader.remaining(),
        }
    }

    /// How many consumed start tags are still unclosed.
    pub closed spec fn depth(&self) -> int {
        self.depth as int
    }

    /// The single-use pending-inline signal: the next value must be decoded
    /// by descending into a nested element rather than from attribute text.
    pub closed spec fn pending(&self) -> bool {
        self.is_map_value
    }

    /// Whether the backend is guaranteed to deliver every remaining event.
    pub closed spec fn infallible(&self) -> bool {
        self.reader.infallible()
    }

    /// Wraps a reader into a cursor positioned before its first event.
    pub fn new(reader: E) -> (d: Deserializer<E>)
        ensures
            d.remaining() == reader.remaining(),
            d.depth() == 0,
            !d.pending(),
            d.infallible() == reader.infallible(),
    {
        Deserializer { depth: 0, reader, peeked: None, is_map_value: false }
    }

    /// The current nesting depth.
    pub fn current_depth(&self) -> (d: u64)
        ensures
            d as int == self.depth(),
    {
        self.depth
    }

    /// Returns the upcoming event without consuming it, pulling one from the
    /// reader into the lookahead buffer if the buffer is empty.
    pub fn peek(&mut self) -> (r: Result<&GenericXmlEvent, Error>)
        ensures
            final(self).remaining() == old(self).remaining(),
            final(self).depth() == old(self).depth(),
            final(self).pending() == old(self).pending(),
            final(self).infallible() == old(self).infallible(),
            r matches Ok(e) ==> old(self).remaining().len() > 0 && *e == old(self).remaining()[0],
            old(self).infallible() && old(self).remaining().len() > 0 ==> r is Ok,
    {
        if self.peeked.is_none() {
            match self.reader.next() {
                Ok(e) => {
                    proof {
                        assert(seq![e] + self.reader.remaining() =~= old(self).remaining());
                    }
                    self.peeked = Some(e);
                },
                Err(err) => {
                    return Err(err);
                },
            }
        }
        match &self.peeked {
            Some(e) => Ok(e),
            None => unreached(),
        }
    }

    /// The category of the upcoming event.
    pub fn peek_kind(&mut self) -> (r: Result<EventKind, Error>)
        ensures
            final(self).remaining() == old(self).remaining(),
            final(self).depth() == old(self).depth(),
            final(self).pending() == old(self).pending(),
            final(self).infallible() == old(self).infallible(),
            r matches Ok(k) ==> old(self).remaining().len() > 0 && k == event_kind(
                old(self).remaining()[0],
            ),
            old(self).infallible() && old(self).remaining().len() > 0 ==> r is Ok,
    {
        match self.peek() {
            Ok(e) => Ok(e.kind()),
            Err(err) => Err(err),
        }
    }

    /// Consumes and returns one event, taking the buffered one if present.
    /// Consuming a start tag deepens the nesting by one, consuming an end
    /// tag closes one level; an end tag at depth zero, or nesting beyond
    /// what the counter can hold, is refused as malformed.
    pub fn next(&mut self) -> (r: Result<GenericXmlEvent, Error>)
        ensures
            final(self).pending() == old(self).pending(),
            final(self).infallible() == old(self).infallible(),
            r matches Ok(e) ==> old(self).remaining().len() > 0 && e == old(self).remaining()[0]
                && final(self).remaining() == old(self).remaining().skip(1)
                && final(self).depth() == old(self).depth() + depth_delta(e)
                && (e is EndElement ==> old(self).depth() > 0)
                && (e is StartElement ==> old(self).depth() < u64::MAX),
            r is Err ==> final(self).depth() == old(self).depth(),
            old(self).infallible() && old(self).remaining().len() > 0 && (old(
                self,
            ).remaining()[0] is EndElement ==> old(self).depth() > 0) && (old(
                self,
            ).remaining()[0] is StartElement ==> old(self).depth() < u64::MAX) ==> r is Ok,
    {
        let e: GenericXmlEvent = match self.peeked.take() {
            Some(e) => {
                proof {
                    assert(old(self).remaining().skip(1) =~= self.reader.remaining());
                }
                e
            },
            None => match self.reader.next() {
                Ok(e) => e,
                Err(err) => {
                    return Err(err);
                },
            },
        };
        match &e {
            GenericXmlEvent::StartElement { .. } => {
                if self.depth == u64::MAX {
                    return Err(Error::Parse { message: "element nesting too deep".to_owned() });
                }
                self.depth = self.depth + 1;
            },
            GenericXmlEvent::EndElement { .. } => {
                if self.depth == 0 {
                    return Err(
                        Error::Parse { message: "end tag without a matching start tag".to_owned() },
                    );
                }
                self.depth = self.depth - 1;
            },
            _ => {},
        }
        Ok(e)
    }

    /// Marks that the next value must be decoded from a nested element.
    pub(crate) fn set_map_value(&mut self)
        ensures
            final(self).remaining() == old(self).remaining(),
            final(self).depth() == old(self).depth(),
            final(self).infallible() == old(self).infallible(),
            final(self).pending(),
    {
        self.is_map_value = true;
    }

    /// Reads and clears the pending-inline signal in one step.
    pub fn unset_map_value(&mut self) -> (was: bool)
        ensures
            final(self).remaining() == old(self).remaining(),
            final(self).depth() == old(self).depth(),
            final(self).infallible() == old(self).infallible(),
            !final(self).pending(),
            was == old(self).pending(),
    {
        let was = self.is_map_value;
        self.is_map_value = false;
        was
    }

    /// Consumes one event and requires it to be the end tag matching
    /// `start_name`; an end tag of any other name is a tag mismatch that
    /// names both tags.
    pub fn expect_end_element(&mut self, start_name: GenericXmlName) -> (r: Result<(), Error>)
        ensures
            final(self).pending() == old(self).pending(),
            final(self).infallible() == old(self).infallible(),
            r is Ok ==> old(self).remaining().len() > 0
                && old(self).remaining()[0] is EndElement
                && end_name_of(old(self).remaining()[0]) == start_name.local_name@
                && old(self).depth() > 0
                && final(self).remaining() == old(self).remaining().skip(1)
                && final(self).depth() == old(self).depth() - 1,
            old(self).infallible() ==> (r is Ok <==> old(self).remaining().len() > 0
                && old(self).remaining()[0] is EndElement
                && end_name_of(old(self).remaining()[0]) == start_name.local_name@
                && old(self).depth() > 0),
            old(self).infallible() && old(self).remaining().len() > 0
                && old(self).remaining()[0] is EndElement
                && end_name_of(old(self).remaining()[0]) != start_name.local_name@
                && old(self).depth() > 0 ==> (r matches Err(e)
                && e matches Error::TagMismatch { expected, found }
                && expected@ == start_name.local_name@
                && found@ == end_name_of(old(self).remaining()[0])
                && final(self).remaining() == old(self).remaining().skip(1)
                && final(self).depth() == old(self).depth() - 1),
            old(self).infallible() && old(self).remaining().len() > 0
                && !(old(self).remaining()[0] is EndElement)
                && (old(self).remaining()[0] is StartElement ==> old(self).depth()
                < u64::MAX) ==> (r matches Err(e)
                && e matches Error::UnexpectedToken { required, observed }
                && required == EventKind::EndElement
                && observed == event_kind(old(self).remaining()[0])
                && final(self).remaining() == old(self).remaining().skip(1)
                && final(self).depth() == old(self).depth() + depth_delta(
                old(self).remaining()[0],
            )),
    {
        match self.next()? {
            GenericXmlEvent::EndElement { name } => {
                if name.local_name == start_name.local_name {
                    Ok(())
                } else {
                    Err(
                        Error::TagMismatch {
                            expected: start_name.local_name,
                            found: name.local_name,
                        },
                    )
                }
            },
            other => Err(
                Error::UnexpectedToken {
                    required: EventKind::EndElement,
                    observed: other.kind(),
                },
            ),
        }
    }

    /// Opens the inline-value frame.  When the pending-inline signal is set
    /// the next event must be a start tag; it is consumed and its name is
    /// returned so that [`Self::end_inner_value`] can check the matching end
    /// tag.  When the signal is clear there is no frame to open.
    pub fn begin_inner_value(&mut self) -> (r: Result<Option<GenericXmlName>, Error>)
        ensures
            !final(self).pending(),
            final(self).infallible() == old(self).infallible(),
            !old(self).pending() ==> (r matches Ok(o) && o is None && final(self).remaining()
                == old(self).remaining() && final(self).depth() == old(self).depth()),
            old(self).pending() ==> (r matches Ok(o) ==> o is Some),
            r matches Ok(Some(n)) ==> old(self).pending() && old(self).remaining().len() > 0
                && old(self).remaining()[0] is StartElement
                && n.local_name@ == start_name_of(old(self).remaining()[0])
                && final(self).remaining() == old(self).remaining().skip(1)
                && final(self).depth() == old(self).depth() + 1
                && old(self).depth() < u64::MAX,
            old(self).infallible() && old(self).pending() ==> (r matches Ok(o) && o is Some <==> old(
                self,
            ).remaining().len() > 0 && old(self).remaining()[0] is StartElement && old(
                self,
            ).depth() < u64::MAX),
            old(self).infallible() && old(self).pending() && old(self).remaining().len() > 0 && !(
            old(self).remaining()[0] is StartElement) && (old(
                self,
            ).remaining()[0] is EndElement ==> old(self).depth() > 0) ==> (r matches Err(e)
                && e matches Error::UnexpectedToken { required, observed }
                && required == EventKind::StartElement
                && observed == event_kind(old(self).remaining()[0])),
    {
        if self.unset_map_value() {
            match self.next()? {
                GenericXmlEvent::StartElement { name, attributes: _ } => Ok(Some(name)),
                other => Err(
                    Error::UnexpectedToken {
                        required: EventKind::StartElement,
                        observed: other.kind(),
                    },
                ),
            }
        } else {
            Ok(None)
        }
    }

    /// Closes the inline-value frame opened by [`Self::begin_inner_value`]:
    /// with a framed name the matching end tag is consumed and checked,
    /// without one there is nothing to do.
    pub fn end_inner_value(&mut self, frame: Option<GenericXmlName>) -> (r: Result<(), Error>)
        ensures
            final(self).pending() == old(self).pending(),
            final(self).infallible() == old(self).infallible(),
            frame is None ==> r is Ok && final(self).remaining() == old(self).remaining()
                && final(self).depth() == old(self).depth(),
            frame matches Some(n) ==> (r is Ok ==> old(self).remaining().len() > 0
                && old(self).remaining()[0] is EndElement
                && end_name_of(old(self).remaining()[0]) == n.local_name@
                && old(self).depth() > 0
                && final(self).remaining() == old(self).remaining().skip(1)
                && final(self).depth() == old(self).depth() - 1),
            frame matches Some(n) ==> (old(self).infallible() ==> (r is Ok <==> old(
                self,
            ).remaining().len() > 0 && old(self).remaining()[0] is EndElement && end_name_of(
                old(self).remaining()[0],
            ) == n.local_name@ && old(self).depth() > 0)),
            frame matches Some(n) ==> (old(self).infallible() && old(self).remaining().len() > 0
                && old(self).remaining()[0] is EndElement
                && end_name_of(old(self).remaining()[0]) != n.local_name@
                && old(self).depth() > 0 ==> (r matches Err(e)
                && e matches Error::TagMismatch { expected, found }
                && expected@ == n.local_name@
                && found@ == end_name_of(old(self).remaining()[0])
                && final(self).remaining() == old(self).remaining().skip(1)
                && final(self).depth() == old(self).depth() - 1)),
    {
        match frame {
            Some(name) => self.expect_end_element(name),
            None => Ok(()),
        }
    }

    /// Opens the frame around a tagged-choice value: like
    /// [`Self::begin_inner_value`], but an upcoming start tag raises the
    /// pending-inline signal first.  A choice value is thereby always the
    /// content of its element: selection then sees either the element's
    /// bare text (`<Color>Red</Color>` selects `Red`) or a nested
    /// element-tag variant (`<choice><Red/></choice>`).  Deliberately, a
    /// bare empty element is no choice on its own: its frame opens onto
    /// the closing tag, and selection fails there.
    pub fn begin_variant(&mut self) -> (r: Result<Option<GenericXmlName>, Error>)
        ensures
            r is Ok ==> !final(self).pending(),
            final(self).infallible() == old(self).infallible(),
            r matches Ok(o) ==> ({
                let inline = old(self).pending() || (old(self).remaining().len() > 0 && old(
                    self,
                ).remaining()[0] is StartElement);
                &&& (o is Some <==> inline)
                &&& (o is None ==> final(self).remaining() == old(self).remaining()
                    && final(self).depth() == old(self).depth())
            }),
            r matches Ok(Some(n)) ==> old(self).remaining().len() > 0
                && old(self).remaining()[0] is StartElement
                && n.local_name@ == start_name_of(old(self).remaining()[0])
                && final(self).remaining() == old(self).remaining().skip(1)
                && final(self).depth() == old(self).depth() + 1
                && old(self).depth() < u64::MAX,
            old(self).infallible() ==> (r is Ok <==> old(self).remaining().len() > 0 && (old(
                self,
            ).remaining()[0] is StartElement ==> old(self).depth() < u64::MAX) && (!(old(
                self,
            ).remaining()[0] is StartElement) ==> !old(self).pending())),
    {
        let k = self.peek_kind()?;
        if k == EventKind::StartElement {
            self.set_map_value();
        }
        self.begin_inner_value()
    }

    /// Consumes the root start tag and hands back its name and attributes
    /// so that record decoding can begin; the pending-inline signal is
    /// spent, the name is owed back to [`Self::expect_end_element`] once
    /// every entry of the record has been decoded.
    pub fn begin_record(&mut self) -> (r: Result<(GenericXmlName, Vec<GenericXmlAttribute>), Error>)
        ensures
            !final(self).pending(),
            final(self).infallible() == old(self).infallible(),
            r matches Ok(na) ==> old(self).remaining().len() > 0
                && old(self).remaining()[0] is StartElement
                && na.0.local_name@ == start_name_of(old(self).remaining()[0])
                && na.1@ == start_attrs_of(old(self).remaining()[0])
                && final(self).remaining() == old(self).remaining().skip(1)
                && final(self).depth() == old(self).depth() + 1
                && old(self).depth() < u64::MAX,
            old(self).infallible() ==> (r is Ok <==> old(self).remaining().len() > 0
                && old(self).remaining()[0] is StartElement && old(self).depth() < u64::MAX),
            old(self).infallible() && old(self).remaining().len() > 0 && !(old(
                self,
            ).remaining()[0] is StartElement) && (old(
                self,
            ).remaining()[0] is EndElement ==> old(self).depth() > 0) ==> (r matches Err(e)
                && e matches Error::UnexpectedToken { required, observed }
                && required == EventKind::StartElement
                && observed == event_kind(old(self).remaining()[0])),
    {
        self.unset_map_value();
        match self.next()? {
            GenericXmlEvent::StartElement { name, attributes } => Ok((name, attributes)),
            other => Err(
                Error::UnexpectedToken {
                    required: EventKind::StartElement,
                    observed: other.kind(),
                },
            ),
        }
    }

    /// Reads one scalar text value, transparently descending into a nested
    /// element when the pending-inline signal (or an upcoming start tag)
    /// says the value is element-framed; an element with no embedded text
    /// yields the empty string.
    pub fn read_string_value(&mut self) -> (r: Result<String, Error>)
        ensures
            r is Ok ==> !final(self).pending(),
            final(self).infallible() == old(self).infallible(),
            r is Ok ==> final(self).depth() == old(self).depth(),
            old(self).infallible() ==> ({
                let outcome = string_value_outcome(
                    old(self).pending(),
                    old(self).remaining(),
                    old(self).depth(),
                );
                &&& (outcome matches Some(tc) ==> (r matches Ok(s) && s@ == tc.0
                    && final(self).remaining() == old(self).remaining().skip(tc.1 as int)))
                &&& (outcome is None ==> r is Err)
            }),
    {
        let k = self.peek_kind()?;
        if k == EventKind::StartElement {
            self.set_map_value();
        }
        let frame = self.begin_inner_value()?;
        let k2 = self.peek_kind()?;
        let s: String;
        if k2 == EventKind::EndElement {
            s = String::new();
        } else {
            match self.next()? {
                GenericXmlEvent::Characters(text) => {
                    s = text;
                },
                other => {
                    return Err(
                        Error::UnexpectedToken {
                            required: EventKind::Characters,
                            observed: other.kind(),
                        },
                    );
                },
            }
        }
        self.end_inner_value(frame)?;
        proof {
            let evs = old(self).remaining();
            assert(evs.skip(0) =~= evs);
            if evs.len() >= 2 {
                assert(evs.skip(1).skip(1) =~= evs.skip(2));
            }
            if evs.len() >= 3 {
                assert(evs.skip(1).skip(1).skip(1) =~= evs.skip(3));
            }
        }
        Ok(s)
    }

    /// Decodes a unit value: the element carries no content, so either the
    /// enclosing end tag is already up next, or the framed element closes
    /// immediately.  Nothing beyond the frame is consumed.
    pub fn read_unit_value(&mut self) -> (r: Result<(), Error>)
        ensures
            r is Ok ==> !final(self).pending(),
            final(self).infallible() == old(self).infallible(),
            r is Ok ==> final(self).depth() == old(self).depth(),
            old(self).infallible() ==> ({
                let outcome = unit_value_outcome(
                    old(self).pending(),
                    old(self).remaining(),
                    old(self).depth(),
                );
                &&& (outcome matches Some(consumed) ==> (r is Ok && final(self).remaining() == old(
                    self,
                ).remaining().skip(consumed as int)))
                &&& (outcome is None ==> r is Err)
            }),
            old(self).infallible() && !old(self).pending() && old(self).remaining().len() > 0
                && !(old(self).remaining()[0] is StartElement)
                && !(old(self).remaining()[0] is EndElement) ==> (r matches Err(e)
                && e matches Error::UnexpectedToken { required, observed }
                && required == EventKind::EndElement
                && observed == event_kind(old(self).remaining()[0])),
            old(self).infallible() && old(self).remaining().len() >= 2
                && old(self).remaining()[0] is StartElement && old(self).depth() < u64::MAX && !(
            old(self).remaining()[1] is EndElement) ==> (r matches Err(e)
                && e matches Error::UnexpectedToken { required, observed }
                && required == EventKind::EndElement
                && observed == event_kind(old(self).remaining()[1])),
            old(self).infallible() && old(self).remaining().len() >= 2
                && old(self).remaining()[0] is StartElement && old(self).depth() < u64::MAX && old(
                self,
            ).remaining()[1] is EndElement && end_name_of(old(self).remaining()[1])
                != start_name_of(old(self).remaining()[0]) ==> (r matches Err(e)
                && e matches Error::TagMismatch { expected, found }
                && expected@ == start_name_of(old(self).remaining()[0])
                && found@ == end_name_of(old(self).remaining()[1])),
    {
        let k = self.peek_kind()?;
        if k == EventKind::StartElement {
            self.set_map_value();
        }
        let frame = self.begin_inner_value()?;
        let k2 = self.peek_kind()?;
        if k2 != EventKind::EndElement {
            return Err(
                Error::UnexpectedToken { required: EventKind::EndElement, observed: k2 },
            );
        }
        self.end_inner_value(frame)?;
        proof {
            assert(old(self).remaining().skip(0) =~= old(self).remaining());
            if old(self).remaining().len() >= 2 {
                assert(old(self).remaining().skip(1).skip(1) =~= old(self).remaining().skip(2));
            }
        }
        Ok(())
    }

    /// Decides how to decode a value with no fixed shape expectation:
    /// a start tag means a record, an end tag an empty unit value, and
    /// anything else text.  Nothing is consumed.
    pub fn any_shape(&mut self) -> (r: Result<AnyShape, Error>)
        ensures
            final(self).remaining() == old(self).remaining(),
            final(self).depth() == old(self).depth(),
            final(self).pending() == old(self).pending(),
            final(self).infallible() == old(self).infallible(),
            r matches Ok(shape) ==> old(self).remaining().len() > 0 && shape == (match event_kind(
                old(self).remaining()[0],
            ) {
                EventKind::StartElement => AnyShape::Record,
                EventKind::EndElement => AnyShape::Unit,
                _ => AnyShape::Text,
            }),
            old(self).infallible() && old(self).remaining().len() > 0 ==> r is Ok,
    {
        match self.peek_kind()? {
            EventKind::StartElement => Ok(AnyShape::Record),
            EventKind::EndElement => Ok(AnyShape::Unit),
            _ => Ok(AnyShape::Text),
        }
    }

    /// Decides whether an optional value is absent: it is exactly when the
    /// next token already closes the enclosing element.  Nothing is
    /// consumed.
    pub fn option_is_absent(&mut self) -> (r: Result<bool, Error>)
        ensures
            final(self).remaining() == old(self).remaining(),
            final(self).depth() == old(self).depth(),
            final(self).pending() == old(self).pending(),
            final(self).infallible() == old(self).infallible(),
            r matches Ok(absent) ==> old(self).remaining().len() > 0 && (absent <==> old(
                self,
            ).remaining()[0] is EndElement),
            old(self).infallible() && old(self).remaining().len() > 0 ==> r is Ok,
    {
        match self.peek_kind()? {
            EventKind::EndElement => Ok(true),
            _ => Ok(false),
        }
    }

    /// Decodes a boolean: one scalar text value, which must read exactly
    /// `true` or `false`.
    pub fn decode_bool(&mut self) -> (r: Result<bool, Error>)
        ensures
            r is Ok ==> !final(self).pending() && final(self).depth() == old(self).depth(),
            final(self).infallible() == old(self).infallible(),
            old(self).infallible() ==> ({
                let outcome = string_value_outcome(
                    old(self).pending(),
                    old(self).remaining(),
                    old(self).depth(),
                );
                &&& (outcome matches Some(tc) ==> match crate::text::bool_text_value(tc.0) {
                    Some(b) => (r matches Ok(rb) && rb == b && final(self).remaining() == old(
                        self,
                    ).remaining().skip(tc.1 as int)),
                    None => (r matches Err(e) && e matches Error::TypeConversion { value }
                        && value@ == tc.0),
                })
                &&& (outcome is None ==> r is Err)
            }),
    {
        let s = self.read_string_value()?;
        crate::text::parse_bool_text(s.as_str())
    }

    /// Decodes a signed 64-bit integer from one scalar text value.
    pub fn decode_i64(&mut self) -> (r: Result<i64, Error>)
        ensures
            r is Ok ==> !final(self).pending() && final(self).depth() == old(self).depth(),
            final(self).infallible() == old(self).infallible(),
            old(self).infallible() ==> ({
                let outcome = string_value_outcome(
                    old(self).pending(),
                    old(self).remaining(),
                    old(self).depth(),
                );
                &&& (outcome matches Some(tc) ==> match crate::text::i64_text_value(tc.0) {
                    Some(v) => (r matches Ok(rv) && rv == v && final(self).remaining() == old(
                        self,
                    ).remaining().skip(tc.1 as int)),
                    None => (r matches Err(e) && e matches Error::TypeConversion { value }
                        && value@ == tc.0),
                })
                &&& (outcome is None ==> r is Err)
            }),
    {
        let s = self.read_string_value()?;
        crate::text::parse_i64_text(s.as_str())
    }

    /// Decodes an unsigned 64-bit integer from one scalar text value.
    pub fn decode_u64(&mut self) -> (r: Result<u64, Error>)
        ensures
            r is Ok ==> !final(self).pending() && final(self).depth() == old(self).depth(),
            final(self).infallible() == old(self).infallible(),
            old(self).infallible() ==> ({
                let outcome = string_value_outcome(
                    old(self).pending(),
                    old(self).remaining(),
                    old(self).depth(),
                );
                &&& (outcome matches Some(tc) ==> match crate::text::u64_text_value(tc.0) {
                    Some(v) => (r matches Ok(rv) && rv == v && final(self).remaining() == old(
                        self,
                    ).remaining().skip(tc.1 as int)),
                    None => (r matches Err(e) && e matches Error::TypeConversion { value }
                        && value@ == tc.0),
                })
                &&& (outcome is None ==> r is Err)
            }),
    {
        let s = self.read_string_value()?;
        crate::text::parse_u64_text(s.as_str())
    }

    /// Discards one whole value: events are consumed until the depth
    /// returns to its entry value, skipping an entire subtree including
    /// nested structures.
    pub fn skip_value(&mut self) -> (r: Result<(), Error>)
        ensures
            !final(self).pending(),
            final(self).infallible() == old(self).infallible(),
            r is Ok ==> final(self).depth() == old(self).depth(),
            old(self).infallible() ==> ({
                let steps = skip_steps(
                    old(self).remaining(),
                    old(self).depth(),
                    old(self).depth(),
                );
                &&& (steps matches Some(n) ==> (r is Ok && final(self).remaining() == old(
                    self,
                ).remaining().skip(n as int)))
                &&& (steps is None ==> r is Err)
            }),
    {
        self.unset_map_value();
        let entry: u64 = self.depth;
        let ghost evs0 = old(self).remaining();
        let ghost d0 = old(self).depth();
        let ghost mut consumed: nat = 0nat;
        proof {
            assert(evs0.skip(0) =~= evs0);
        }
        loop
            invariant_except_break
                skip_steps(evs0, d0, d0) == shifted(
                    skip_steps(self.remaining(), d0, self.depth()),
                    consumed,
                ),
            invariant
                evs0 == old(self).remaining(),
                d0 == old(self).depth(),
                self.infallible() == old(self).infallible(),
                !self.pending(),
                entry as int == d0,
                self.remaining() == evs0.skip(consumed as int),
                consumed <= evs0.len(),
            ensures
                self.depth() == d0,
                skip_steps(evs0, d0, d0) == Some(consumed),
                self.remaining() == evs0.skip(consumed as int),
            decreases evs0.len() - consumed,
        {
            let ghost pre_remaining = self.remaining();
            let ghost pre_depth = self.depth();
            match self.next() {
                Ok(e) => {
                    proof {
                        consumed = consumed + 1;
                        assert(pre_remaining.skip(1) =~= evs0.skip(consumed as int));
                    }
                },
                Err(err) => {
                    proof {
                        if old(self).infallible() {
                            assert(skip_steps(pre_remaining, d0, pre_depth) is None);
                        }
                    }
                    return Err(err);
                },
            }
            if self.depth == entry {
                proof {
                    assert(skip_steps(pre_remaining, d0, pre_depth) == Some(1nat));
                }
                break;
            }
        }
        Ok(())
    }
}

} // verus!
