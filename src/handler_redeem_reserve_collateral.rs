use vstd::prelude::*;

use crate::lending_checks::{
    redeem_reserve_collateral_checks, redeem_reserve_collateral_spec,
    RedeemReserveCollateralAccounts,
};
use crate::pubkey::Pubkey;
use crate::state::{LendingError, Reserve};

verus! {

/// The accounts of a collateral redemption.
pub struct RedeemReserveCollateral {
    pub owner: Pubkey,
    pub lending_market: Pubkey,
    pub reserve: Reserve,
    pub lending_market_authority: Pubkey,
    pub reserve_collateral_mint: Pubkey,
    pub reserve_liquidity_supply: Pubkey,
    pub user_source_collateral: Pubkey,
    pub user_destination_liquidity: Pubkey,
    pub token_program: Pubkey,
}

/// The transfer a redemption asks for: burn `collateral_amount` from the user's
/// collateral account and pay `withdraw_liquidity_amount` out of the reserve's
/// liquidity supply to the user.
#[derive(Clone, Copy, Debug, PartialEq, Eq)]
pub struct RedeemTransfer {
    pub reserve_collateral_mint: Pubkey,
    pub user_source_collateral: Pubkey,
    pub owner: Pubkey,
    pub reserve_liquidity_supply: Pubkey,
    pub user_destination_liquidity: Pubkey,
    pub lending_market_authority: Pubkey,
    pub collateral_amount: u64,
    pub withdraw_liquidity_amount: u64,
}

pub open spec fn redeem_accounts(ctx: RedeemReserveCollateral) -> RedeemReserveCollateralAccounts {
    RedeemReserveCollateralAccounts {
        reserve: ctx.reserve,
        user_source_collateral: ctx.user_source_collateral,
        user_destination_liquidity: ctx.user_destination_liquidity,
    }
}

/// Redeems `collateral_amount` of collateral. The reserve's checks run first;
/// `withdraw_liquidity_amount` is the liquidity the refreshed reserve pays for
/// that collateral, and `liquidity_extensions_valid` the verdict of the
/// token-extension validation of the liquidity mint and the user's destination.
pub fn process(
    ctx: &RedeemReserveCollateral,
    collateral_amount: u64,
    withdraw_liquidity_amount: u64,
    program_version: u64,
    liquidity_extensions_valid: bool,
) -> (r: Result<RedeemTransfer, LendingError>)
    ensures
        match redeem_reserve_collateral_spec(redeem_accounts(*ctx), program_version, liquidity_extensions_valid) {
            Err(e) => r == Err::<RedeemTransfer, LendingError>(e),
            Ok(_) => r == Ok::<RedeemTransfer, LendingError>(
                RedeemTransfer {
                    reserve_collateral_mint: ctx.reserve_collateral_mint,
                    user_source_collateral: ctx.user_source_collateral,
                    owner: ctx.owner,
                    reserve_liquidity_supply: ctx.reserve_liquidity_supply,
                    user_destination_liquidity: ctx.user_destination_liquidity,
                    lending_market_authority: ctx.lending_market_authority,
                    collateral_amount,
                    withdraw_liquidity_amount,
                },
            ),
        },
{
    let accounts = RedeemReserveCollateralAccounts {
        reserve: ctx.reserve,
        user_source_collateral: ctx.user_source_collateral,
        user_destination_liquidity: ctx.user_destination_liquidity,
    };
    match redeem_reserve_collateral_checks(&accounts, program_version, liquidity_extensions_valid) {
        Err(e) => Err(e),
        Ok(_) => Ok(
            RedeemTransfer {
                reserve_collateral_mint: ctx.reserve_collateral_mint,
                user_source_collateral: ctx.user_source_collateral,
                owner: ctx.owner,
                reserve_liquidity_supply: ctx.reserve_liquidity_supply,
                user_destination_liquidity: ctx.user_destination_liquidity,
                lending_market_authority: ctx.lending_market_authority,
                collateral_amount,
                withdraw_liquidity_amount,
            },
        ),
    }
}

} // verus!
