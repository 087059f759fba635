//! An on-ledger atomic-swap escrow.
//!
//! Two counterparties exchange fungible assets without trusting each other:
//! the initializer locks assets into a custody account whose authority is the
//! offer record itself, derived deterministically from the swap terms, and the
//! taker releases them by paying the agreed counter-amount in the same
//! indivisible submission.

pub mod errors;
pub mod identity;
pub mod assoc;
pub mod records;
pub mod escrow;
pub mod laws;
