//! Core logic for preparing a pending block's execution workload: deriving the
//! per-block execution context from chain parameters and beacon attributes,
//! normalizing signed transactions into execution descriptors, analyzing
//! contract bytecode into a jump table, and reconciling the outcomes of the
//! parallel or sequential execution engine.

pub mod account;
pub mod attributes;
pub mod block_env;
pub mod bytecode;
pub mod chain;
pub mod dispatch;
pub mod types;
pub mod tx_env;
pub mod u256;
