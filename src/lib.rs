//! Typed decoding of self-describing trace-event records.
//!
//! A [`Schema`] describes the fields of one event kind; a [`Parser`] extracts a named field
//! from an event's payload in a requested representation; an [`EventSerializer`] decodes
//! every field for structured output.
pub mod tdh_types;
pub mod handler;
pub mod event;
pub mod schema;
pub mod layout;
pub mod text;
pub mod values;
pub mod parser;
pub mod ser;

pub use event::{EventDescriptor, EventHeader, EventRecord, Guid};
pub use parser::{Parser, ParserError};
pub use schema::{DecodingSource, Schema, TraceEventInfo};
pub use ser::{EventSerializer, EventSerializerOptions, SerError};
pub use values::{FieldValue, Repr};
