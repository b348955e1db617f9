use vstd::prelude::*;

use crate::pubkey::Pubkey;

verus! {

/// Why a guarded operation was refused.
#[derive(Clone, Copy, Debug, PartialEq, Eq, Structural)]
pub enum LendingError {
    InvalidAccountInput,
    ReserveObsolete,
    ReserveDeprecated,
    FlashLoansDisabled,
    ReserveTokenBalanceMismatch,
    ReserveVaultBalanceMismatch,
    ReserveAccountingMismatch,
    MathOverflow,
    InsufficientRepayAmount,
    ReferrerAccountNotInitialized,
    ReferrerAccountMintMissmatch,
    ReferrerAccountWrongAddress,
    ReferrerAccountReferrerMissmatch,
    AddressDerivationFailed,
}

/// An error together with the two identities that disagreed, where there are any.
#[derive(Clone, Copy, Debug, PartialEq, Eq)]
pub struct ErrorReport {
    pub error: LendingError,
    pub expected: Option<Pubkey>,
    pub actual: Option<Pubkey>,
}

/// How a transfer is expected to change a reserve's vault and its accounting.
#[derive(Clone, Copy, Debug, PartialEq, Eq, Structural)]
pub enum LendingAction {
    Additive(u64),
    Subtractive(u64),
    SubtractiveSigned(i64),
}

#[derive(Clone, Copy, Debug, PartialEq, Eq, Structural)]
pub enum ReserveStatus {
    Active,
    Obsolete,
    Hidden,
}

/// The flash-loan fee value that marks flash loans as disabled.
pub const FLASH_LOANS_DISABLED_FEE_SF: u64 = 0xffff_ffff_ffff_ffff;

#[derive(Clone, Copy, Debug, PartialEq, Eq)]
pub struct ReserveFees {
    pub origination_fee_sf: u64,
    pub flash_loan_fee_sf: u64,
}

#[derive(Clone, Copy, Debug, PartialEq, Eq)]
pub struct ReserveConfig {
    pub status: ReserveStatus,
    pub fees: ReserveFees,
}

impl ReserveConfig {
    pub fn status(&self) -> (r: ReserveStatus)
        ensures
            r == self.status,
    {
        self.status
    }
}

#[derive(Clone, Copy, Debug, PartialEq, Eq)]
pub struct ReserveLiquidity {
    pub mint_pubkey: Pubkey,
    pub supply_vault: Pubkey,
    pub available_amount: u64,
}

#[derive(Clone, Copy, Debug, PartialEq, Eq)]
pub struct ReserveCollateral {
    pub mint_pubkey: Pubkey,
    pub supply_vault: Pubkey,
}

/// A per-asset pool.
#[derive(Clone, Copy, Debug, PartialEq, Eq)]
pub struct Reserve {
    pub version: u64,
    pub lending_market: Pubkey,
    pub liquidity: ReserveLiquidity,
    pub collateral: ReserveCollateral,
    pub config: ReserveConfig,
}

/// A borrower's position; only its lending market is read here.
#[derive(Clone, Copy, Debug, PartialEq, Eq)]
pub struct Obligation {
    pub lending_market: Pubkey,
}

/// A referrer's fee record for one reserve.
#[derive(Clone, Copy, Debug, PartialEq, Eq)]
pub struct ReferrerTokenState {
    pub referrer: Pubkey,
    pub mint: Pubkey,
    pub amount_unclaimed_sf: u128,
    pub amount_cumulative_sf: u128,
    pub bump: u64,
}

pub const MAX_REWARDS_TOKENS: usize = 10;

/// A user's stake in a farm.
#[derive(Debug, Eq, PartialEq)]
pub struct UserState {
    pub user_id: u64,
    pub farm_state: Pubkey,
    pub owner: Pubkey,
    pub is_farm_delegated: u8,
    pub _padding_0: [u8; 7],
    pub rewards_tally_scaled: [u128; MAX_REWARDS_TOKENS],
    pub rewards_issued_unclaimed: [u64; MAX_REWARDS_TOKENS],
    pub last_claim_ts: [u64; MAX_REWARDS_TOKENS],
    pub active_stake_scaled: u128,
    pub pending_deposit_stake_scaled: u128,
    pub pending_deposit_stake_ts: u64,
    pub pending_withdrawal_unstake_scaled: u128,
    pub pending_withdrawal_unstake_ts: u64,
    pub bump: u64,
    pub delegatee: Pubkey,
    pub last_stake_ts: u64,
    pub _padding_1: [u64; 50],
}

pub const MAX_ENTRIES_U16: u16 = 512;

pub const MAX_ENTRIES: usize = 512;

#[derive(Clone, Copy, Debug, Default)]
pub struct Price {
    pub value: u64,
    pub exp: u64,
}

#[derive(Debug)]
pub struct OraclePrices {
    pub prices: [Price; MAX_ENTRIES],
    pub timestamp: u64,
}

} // verus!
