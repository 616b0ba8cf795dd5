//! Forwarding of structured trace activity to a language client as leveled
//! log messages.
//!
//! The library is the logic of that bridge: the mapping from trace severity to
//! message kind, the rendering of fields into one message, the allocation of
//! span identifiers, the first-in-first-out relay of records, and the consumer
//! that ties them together. Talking to the client and plugging into a tracing
//! runtime happen outside it.
pub mod severity;
pub mod decimal;
pub mod fields;
pub mod span;
pub mod relay;
pub mod log;
