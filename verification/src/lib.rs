//! Command dispatch, attach/validate bookkeeping, chip identification,
//! bytecode programs and attestation messages for a debug-probe operator
//! tool.
//!
//! Everything here is pure decision logic over plain values. The probe
//! transport, the firmware archive reader and the terminal live with the
//! caller: each state machine in this crate hands back an action to perform
//! and takes the outcome of that action as its next event.

pub mod error;
pub mod cli;
pub mod text;
pub mod chip;
pub mod attach;
pub mod flash;
pub mod hiffy;
pub mod sprocket;
pub mod context;
pub mod cmd;
pub mod repl;

pub use crate::cli::Cli;
pub use crate::cli::Subcommand;
pub use crate::context::ExecutionContext;
pub use crate::error::Error;
