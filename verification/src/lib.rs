//! Decoding of XML parse events into statically shaped values.
//!
//! The crate normalizes a backend XML pull parser into one canonical event
//! shape ([`adapter::GenericXmlEvent`]) and drives a pull-based decoding
//! protocol over that stream: record fields, repeated sibling elements and
//! tagged choices are each handled by a small state machine that borrows the
//! central cursor ([`de::Deserializer`]) for the span of one decode call.

pub mod adapter;
pub mod de;
pub mod error;
pub mod text;

pub use adapter::{GenericEventReader, GenericXmlAttribute, GenericXmlEvent, GenericXmlName};
pub use de::Deserializer;
pub use error::{Error, EventKind};
