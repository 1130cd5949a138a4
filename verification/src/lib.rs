//! Core of a minimal real-time chat service.
//!
//! The crate models the server side of a small chat system — the wire packet
//! envelope, the shared directory of connected users and the message log, a
//! broadcast bus distributing packets to every live connection, and the
//! per-connection handler state machine with its forwarding policy — together
//! with the client's roster mirror and input handling. Every state change is
//! specified by a contract and verified.

pub mod bus;
pub mod client_state;
pub mod directory;
pub mod editor;
pub mod handler;
pub mod packet;
pub mod rng;
pub mod text;
