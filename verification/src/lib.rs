//! Core of a periodic snapshot-to-broker relay.
//!
//! On a fixed interval the relay fetches a binary resource from an HTTP
//! endpoint, persists a local copy, and publishes the bytes to a message
//! broker topic. This crate holds the verified decision logic of that loop:
//! the configuration with its validity rules, the error taxonomy, the
//! per-tick sequence (fetch, then persist, then publish) as a state machine,
//! the scheduler state machine with its failure isolation, and a model of
//! the destination file. The surrounding process performs the actual HTTP,
//! filesystem and broker calls and feeds their results back in as events.
//!
//! Design choices recorded here: ticks are serialized (a tick's sequence
//! runs to completion before the next timer fire is taken), and within one
//! tick the persist step precedes the publish step; both steps act on the
//! one payload the tick fetched.

pub mod config;
pub mod errors;
pub mod fetch;
pub mod scheduler;
pub mod store;
pub mod tick;
