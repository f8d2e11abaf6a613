//! Request-handling core for origin integrations: named, origin-scoped
//! configuration records whose payload is encrypted before it is stored.
//!
//! Each operation (list names, create, delete) is a small state machine.
//! The caller runs it: it performs each `Action` that the handler asks for
//! (an origin access check, an encryption, a backend round trip) and hands
//! the outcome back as an `Event`, until the handler answers with a
//! `Response`.

mod json;

pub mod gateway;
pub mod laws;
pub mod message;
pub mod params;
pub mod status;
