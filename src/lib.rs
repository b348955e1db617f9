//! Invariant checks of a collateralized lending ledger: the pre-transfer
//! validation of reserves and user accounts, the post-transfer reconciliation
//! of a reserve's vault with its accounting, referrer record validation and the
//! liquidation repay bound.

pub mod pubkey;
pub mod state;
pub mod lending_checks;
pub mod handler_redeem_reserve_collateral;
