//! Instruction dispatch and account validation for ledger-hosted programs.
//!
//! One invocation decodes an instruction buffer, looks its discriminator up
//! among the registered handlers, validates the supplied accounts against
//! the handler's schema, runs the handler, and reports a terminal outcome
//! together with the log lines the handler emitted.

pub mod address;
pub mod instruction;
pub mod account;
pub mod schema;
pub mod context;
pub mod validate;
pub mod outcome;
pub mod channel;
pub mod handler;
pub mod greet;
pub mod registry;
pub mod dispatch;
