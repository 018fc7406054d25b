//! Entrypoint dispatcher of the token-swap program.
//!
//! The host hands the program one invocation at a time: the program's
//! identity, the accounts the instruction names and the instruction's bytes.
//! [`entrypoint::process_instruction`] passes the three on to the processor
//! and reports what the host is owed: the processor's own outcome and, for a
//! failure, the line that describes it.

pub mod entrypoint;
pub mod host;
