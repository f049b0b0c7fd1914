//! A minimal on-chain message-drop state machine.
//!
//! A single owner, recorded at instantiation, receives short text messages,
//! announces public messages, and publishes a public encryption key. Two
//! deployment policies exist: an escrowed one, where a submission parks the
//! message in a single pending slot and schedules a refund payment whose
//! settlement callback frees the slot, and a broadcast one, where a
//! submission only emits an event. The handlers here are pure: they take the
//! persistent record and the caller's identity as plain values and return the
//! record to commit together with the response to observe; the surrounding
//! runtime does the durable load and save.

pub mod error;
pub mod msg;
pub mod response;
pub mod state;
pub mod contract;
