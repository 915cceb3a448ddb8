//! The event envelope and message payload types that the handler consumes
//! and produces.
use vstd::prelude::*;

verus! {

/// The arguments object of a resolver event; only `input` is consumed.
pub struct Arguments<T> {
    pub input: T,
}

/// The envelope delivered by the upstream field resolver.
pub struct ResolverInput<T> {
    pub arguments: Arguments<T>,
    pub field: String,
    pub source: Option<String>,
}

/// The caller-supplied chat message payload.
pub struct MessageInput {
    pub message_type: String,
    pub sender_id: String,
    pub receiver_id: String,
    pub text: Option<String>,
    pub image: Option<String>,
    pub read: bool,
}

/// The object returned to the caller when a message was stored.
pub struct MessageResponse {
    pub id: String,
    pub message_type: String,
    pub sender_id: String,
    pub receiver_id: String,
    pub text: Option<String>,
    pub read: bool,
    pub image: Option<String>,
    pub created_on: i64,
}

/// A generic content response shape kept alongside the message types.
pub struct Response {
    pub id: String,
    pub user_id: String,
    pub content: String,
    pub image_url: String,
    pub created_on: i64,
    pub updated_on: i64,
}

} // verus!
