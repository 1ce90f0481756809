//! What the command-line interface computes, apart from reading and
//! writing files and running processes.

pub mod strategy;
pub mod strategy_receipt;

pub use strategy::{
    StrategyClaimOutput, StrategyCommand, StrategyStateOptions, StrategyWorktreeInspection,
};
pub use strategy_receipt::{
    CapturedCommand, CapturedCommandStatus, CapturedStream, StrategyReceiptExecutionOptions,
};
