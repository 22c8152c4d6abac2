//! A minimal chat-completion gateway, verified: it validates an inbound
//! request, resolves the timeout bound, translates the conversation into the
//! upstream provider's shape, and maps the outcome of the one outbound call
//! to a uniform response envelope. The outbound call itself, and the HTTP
//! surface, live outside the library and drive it with plain values.

pub mod envelope;
pub mod gateway;
pub mod health;
pub mod messages;
