//! Core of a group-buying backend: procurement campaigns that users join,
//! a user/balance ledger over an append-only transaction journal, chat and
//! notification records, payment records, and a realtime broadcast relay.
//!
//! The durable store is modelled in memory: [`store::Store`] plays the role
//! of the persistence gateway, and every engine operation is verified
//! against it. Amounts are exact decimals represented as integer minor
//! units; instants are epoch milliseconds. The surrounding process (HTTP
//! transport, the actual socket fan-out) lives outside this crate and hands
//! plain values in.
#![verifier::loop_isolation(false)]

pub mod chat;
pub mod clock;
pub mod errors;
pub mod laws;
pub mod payments;
pub mod present;
pub mod procure;
pub mod records;
pub mod relay;
pub mod store;
pub mod text;
pub mod users;
pub mod validate;
