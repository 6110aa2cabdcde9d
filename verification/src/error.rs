//! The error taxonomy of the decoding engine.

use vstd::prelude::*;

verus! {

/// The category of a canonical event, as named in error reports.
#[derive(Clone, Copy, Debug, PartialEq, Eq, Structural)]
pub enum EventKind {
    EndDocument,
    StartElement,
    EndElement,
    Characters,
}

/// Every way a decode can fail.  A failure at any depth aborts the whole
/// top-level decode; no error is retried and no partial value is returned.
#[derive(Debug)]
pub enum Error {
    /// Malformed source XML, reported by the backend parser.
    Parse { message: String },
    /// An end tag whose name differs from the start tag it closes; carries
    /// both local names.
    TagMismatch { expected: String, found: String },
    /// The engine required one event category but observed another.
    UnexpectedToken { required: EventKind, observed: EventKind },
    /// A variant declared to carry no payload observed attributes.
    InvalidPayload { expected_attributes: usize, found_attributes: usize },
    /// Text that does not parse as the requested primitive type; carries the
    /// offending text.
    TypeConversion { value: String },
}

} // verus!
