//! A round-driven engine for a multi-party Schnorr-style aggregated-signature
//! protocol: a message-collection store, a state-machine contract with a
//! deterministic simulation executor and an asynchronous executor core, and
//! the three-round signing protocol that the executors drive.

pub mod async_protocol;
pub mod instance;
pub mod keys;
pub mod message_store;
pub mod rounds;
pub mod signature;
pub mod simulation;
pub mod state_machine;
