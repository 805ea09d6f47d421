//! A pooled-balance ledger that sends value to many recipients in one call.
//!
//! The ledger itself never talks to the host: every entry point takes the
//! caller and the attached payment as plain values and answers with the
//! transfers to issue and the messages to emit.

pub mod account;
pub mod amount;
pub mod store;
pub mod batch;
pub mod dispatch;
pub mod multisender;
pub mod theorems;

pub use crate::amount::{ntoy, yton};
pub use crate::batch::{Operation, SendError};
pub use crate::multisender::{assert_self, is_promise_success, Multisender};
