//! A verified core for a serverless send-message handler: it projects a
//! resolver event's message payload into a time-sortable identifier, a
//! single document-store record and a response object, with the validation,
//! projection and rendering rules stated as contracts.
//!
//! Everything that touches the outside world (the invocation runtime, the
//! credential loader, the store client and the logger) stays outside; the
//! library decides, and hands one plan per invocation to its caller.
pub mod codec;
pub mod handler;
pub mod json;
pub mod ksuid;
pub mod model;
