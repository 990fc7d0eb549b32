//! Per-owner collateral ledgers.
//!
//! Each ledger tracks how much value an owner has placed into custody and how
//! much of that value is currently pledged against an obligation. The core
//! guarantee is conservation: `total_balance == available_balance +
//! locked_balance` before and after every operation, maintained with
//! overflow-checked arithmetic only. Ledgers are bound to their owner and a
//! caller-chosen index through deterministic address derivation, so a ledger
//! presented by a caller can always be re-validated against the pair it
//! claims to belong to.

pub mod address;
pub mod errors;
pub mod events;
pub mod ops;
pub mod vault;
