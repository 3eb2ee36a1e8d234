//! A conversational quiz engine: an action router with one-shot per-user
//! continuations, and the handlers of the quiz conversation written as
//! transitions from what a turn knows to what it sends, stores and does next.
//!
//! A turn starts with an [`router::Event`]. The [`router::Router`] finds the
//! step that takes it, and the step returns a [`reply::Reply`]. The caller
//! applies the reply's change to the storage, hands the result to
//! [`reply::settle`], sends the messages, fetches the explanation that the
//! reply asks for, records the pending step and runs the step that follows,
//! until none does.

pub mod gemini;
pub mod handlers;
pub mod laws;
pub mod message;
pub mod models;
pub mod render;
pub mod reply;
pub mod route;
pub mod router;
pub mod serializers;
pub mod store;
