//! An append-only ledger of topic-tagged text messages.
//!
//! `contract` holds the work of one invocation on plain values: the counter
//! as read from the store and the stored messages in identifier order.
//! `ledger` is an in-memory store built on it, and `laws` states what holds
//! over sequences of its operations. `attributes` renders the report of an
//! append.

pub mod attributes;
pub mod contract;
pub mod error;
pub mod laws;
pub mod ledger;
pub mod msg;
pub mod state;
