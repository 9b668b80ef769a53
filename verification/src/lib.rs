//! Core of a relay that takes events from two upstream feeds, brings them
//! into one shape and hands them to every connected consumer.
//!
//! `types` holds the event model and `json` its wire encoding. `state` holds
//! the bus that every task shares. `websocket` and `chain` hold the two feed
//! adapters, `server` the consumer session. The adapters and the session do
//! no input or output of their own: the caller tells them what happened, and
//! they answer with what to do next.

pub mod chain;
pub mod json;
pub mod server;
pub mod state;
pub mod types;
pub mod websocket;
