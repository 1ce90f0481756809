//! Lane/pass strategy contracts for DX worker orchestration: worker lane
//! ownership, pass continuity, subagent delegation, worktree metadata,
//! proof receipts and next-pass handoffs.

pub mod error;
pub mod text;
pub mod digest;
pub mod json;
pub mod strategy;
pub mod cli;
pub mod dx_config;

pub use error::{DrivenError, Result};

