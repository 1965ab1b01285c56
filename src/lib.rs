//! Request/response correlation and service dispatch above a SOME/IP style
//! publish/notify transport.
//!
//! The library holds the logic of the layer: the payload codec, the method
//! registry and its dispatch rules, the server runtime's offer and routing
//! decisions, and the client's request engine as a state machine. Running the
//! transport, threads and timers is left to the embedding program.
pub mod primitives;
pub mod message;
pub mod error;
pub mod codec;
pub mod registry;
pub mod dispatch;
pub mod config;
pub mod client;
pub mod runtime;
pub mod binding;
