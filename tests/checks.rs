use klend_checks::handler_redeem_reserve_collateral::{process, RedeemReserveCollateral};
use klend_checks::lending_checks::{
    borrow_obligation_liquidity_checks, check_referrer_token_state, check_subtractive_signed,
    deposit_obligation_collateral_checks, deposit_reserve_liquidity_checks,
    flash_borrow_reserve_liquidity_checks, flash_repay_reserve_liquidity_checks,
    initial_liquidation_reserve_liquidity_available_amount, liquidate_obligation_checks,
    post_liquidate_repay_amount_check, post_transfer_vault_balance_liquidity_reserve_checks,
    redeem_reserve_collateral_checks, refresh_obligation_farms_for_reserve_checks,
    repay_obligation_liquidity_checks, validate_referrer_token_state,
    withdraw_obligation_collateral_checks, BorrowObligationLiquidity,
    DepositObligationCollateralAccounts, DepositReserveLiquidityAccounts,
    FlashBorrowReserveLiquidity, FlashRepayReserveLiquidity,
    LiquidateObligationAndRedeemReserveCollateral, RedeemReserveCollateralAccounts,
    RefreshObligationFarmsForReserveBase, RepayObligationLiquidity,
    WithdrawObligationCollateralAccounts,
};
use klend_checks::pubkey::{referrer_token_state_address, Pubkey};
use klend_checks::state::{
    LendingAction, LendingError, Obligation, ReferrerTokenState, Reserve, ReserveCollateral,
    ReserveConfig, ReserveFees, ReserveLiquidity, ReserveStatus, FLASH_LOANS_DISABLED_FEE_SF,
};

const VERSION: u64 = 1;

fn key(b: u8) -> Pubkey {
    Pubkey::new_from_array([b; 32])
}

fn reserve(status: ReserveStatus, version: u64) -> Reserve {
    Reserve {
        version,
        lending_market: key(9),
        liquidity: ReserveLiquidity { mint_pubkey: key(1), supply_vault: key(2), available_amount: 700 },
        collateral: ReserveCollateral { mint_pubkey: key(3), supply_vault: key(4) },
        config: ReserveConfig {
            status,
            fees: ReserveFees { origination_fee_sf: 0, flash_loan_fee_sf: 5 },
        },
    }
}

fn active() -> Reserve {
    reserve(ReserveStatus::Active, VERSION)
}

#[test]
fn additive_passes_and_vault_mismatch() {
    let a = LendingAction::Additive(50);
    assert_eq!(post_transfer_vault_balance_liquidity_reserve_checks(1050, 1050, 1000, 1000, a), Ok(()));
    assert_eq!(
        post_transfer_vault_balance_liquidity_reserve_checks(1040, 1050, 1000, 1000, a),
        Err(LendingError::ReserveTokenBalanceMismatch)
    );
    assert_eq!(
        post_transfer_vault_balance_liquidity_reserve_checks(1040, 1040, 1000, 1000, a),
        Err(LendingError::ReserveVaultBalanceMismatch)
    );
}

#[test]
fn subtractive_passes_and_accounting_mismatch() {
    let a = LendingAction::Subtractive(200);
    assert_eq!(post_transfer_vault_balance_liquidity_reserve_checks(800, 800, 1000, 1000, a), Ok(()));
    assert_eq!(
        post_transfer_vault_balance_liquidity_reserve_checks(810, 810, 1000, 1000, a),
        Err(LendingError::ReserveVaultBalanceMismatch)
    );
    // vault moved as declared, accounting did not: surplus changed too
    assert_eq!(
        post_transfer_vault_balance_liquidity_reserve_checks(800, 810, 1000, 1000, a),
        Err(LendingError::ReserveTokenBalanceMismatch)
    );
}

#[test]
fn subtractive_accounting_mismatch_with_surplus() {
    // surplus of 10 kept, vault right, accounting off by the same surplus
    assert_eq!(
        check_subtractive_signed(800, 790, 1000, 1000, 200),
        Err(LendingError::ReserveAccountingMismatch)
    );
    assert_eq!(
        klend_checks::lending_checks::check_subtractive(800, 810, 1000, 1000, 200),
        Err(LendingError::ReserveAccountingMismatch)
    );
}

#[test]
fn signed_negative_amount_adds() {
    let a = LendingAction::SubtractiveSigned(-30);
    assert_eq!(post_transfer_vault_balance_liquidity_reserve_checks(530, 530, 500, 500, a), Ok(()));
    assert_eq!(
        post_transfer_vault_balance_liquidity_reserve_checks(520, 520, 500, 500, a),
        Err(LendingError::ReserveVaultBalanceMismatch)
    );
}

#[test]
fn signed_result_out_of_range_overflows() {
    let a = LendingAction::SubtractiveSigned(501);
    assert_eq!(
        post_transfer_vault_balance_liquidity_reserve_checks(0, 0, 500, 500, a),
        Err(LendingError::MathOverflow)
    );
    let b = LendingAction::SubtractiveSigned(-1);
    assert_eq!(
        post_transfer_vault_balance_liquidity_reserve_checks(u64::MAX, u64::MAX, u64::MAX, u64::MAX, b),
        Err(LendingError::MathOverflow)
    );
}

#[test]
fn surplus_change_fails_for_every_action() {
    for a in [LendingAction::Additive(0), LendingAction::Subtractive(0), LendingAction::SubtractiveSigned(0)] {
        assert_eq!(
            post_transfer_vault_balance_liquidity_reserve_checks(1001, 1000, 1000, 1000, a),
            Err(LendingError::ReserveTokenBalanceMismatch)
        );
    }
}

#[test]
fn liquidation_bound() {
    assert_eq!(post_liquidate_repay_amount_check(100, 100), Ok(()));
    assert_eq!(post_liquidate_repay_amount_check(100, 101), Err(LendingError::InsufficientRepayAmount));
}

#[test]
fn aliasing_rejected_in_every_operation() {
    let r = active();
    let liq = r.liquidity.supply_vault;
    let col = r.collateral.supply_vault;
    let other = key(7);
    assert_eq!(
        borrow_obligation_liquidity_checks(&BorrowObligationLiquidity { borrow_reserve: r, user_destination_liquidity: liq }, VERSION, true),
        Err(LendingError::InvalidAccountInput)
    );
    assert_eq!(
        deposit_obligation_collateral_checks(&DepositObligationCollateralAccounts { deposit_reserve: r, user_source_collateral: col }, VERSION),
        Err(LendingError::InvalidAccountInput)
    );
    assert_eq!(
        deposit_reserve_liquidity_checks(&DepositReserveLiquidityAccounts { reserve: r, user_source_liquidity: other, user_destination_collateral: col }, VERSION, true),
        Err(LendingError::InvalidAccountInput)
    );
    assert_eq!(
        repay_obligation_liquidity_checks(&RepayObligationLiquidity { repay_reserve: r, user_source_liquidity: liq }, VERSION, true),
        Err(LendingError::InvalidAccountInput)
    );
    // aliasing is found before the stale version
    let stale = reserve(ReserveStatus::Active, VERSION - 1);
    assert_eq!(
        withdraw_obligation_collateral_checks(&WithdrawObligationCollateralAccounts { withdraw_reserve: stale, user_destination_collateral: col }, VERSION),
        Err(LendingError::InvalidAccountInput)
    );
    assert_eq!(
        redeem_reserve_collateral_checks(&RedeemReserveCollateralAccounts { reserve: r, user_source_collateral: other, user_destination_liquidity: liq }, VERSION, true),
        Err(LendingError::InvalidAccountInput)
    );
    assert_eq!(
        flash_repay_reserve_liquidity_checks(&FlashRepayReserveLiquidity { reserve: r, user_source_liquidity: liq }, VERSION),
        Err(LendingError::InvalidAccountInput)
    );
}

#[test]
fn liquidation_checks_both_reserves() {
    let mut w = active();
    w.liquidity.supply_vault = key(20);
    w.collateral.supply_vault = key(21);
    let ok = LiquidateObligationAndRedeemReserveCollateral {
        repay_reserve: active(),
        withdraw_reserve: w,
        user_source_liquidity: key(7),
        user_destination_collateral: key(8),
        user_destination_liquidity: key(6),
    };
    assert_eq!(liquidate_obligation_checks(&ok, VERSION, true, true), Ok(()));
    let aliased = LiquidateObligationAndRedeemReserveCollateral { user_destination_collateral: key(21), ..ok };
    assert_eq!(liquidate_obligation_checks(&aliased, VERSION, true, true), Err(LendingError::InvalidAccountInput));
    let mut stale_w = w;
    stale_w.version = VERSION + 1;
    let stale = LiquidateObligationAndRedeemReserveCollateral { withdraw_reserve: stale_w, ..ok };
    assert_eq!(liquidate_obligation_checks(&stale, VERSION, true, true), Err(LendingError::ReserveDeprecated));
    assert_eq!(liquidate_obligation_checks(&ok, VERSION, true, false), Err(LendingError::InvalidAccountInput));
    let dest_aliased = LiquidateObligationAndRedeemReserveCollateral { user_destination_liquidity: key(20), ..ok };
    assert_eq!(liquidate_obligation_checks(&dest_aliased, VERSION, true, true), Err(LendingError::InvalidAccountInput));
    let mut obsolete_w = w;
    obsolete_w.config.status = ReserveStatus::Obsolete;
    let obsolete = LiquidateObligationAndRedeemReserveCollateral { withdraw_reserve: obsolete_w, ..ok };
    assert_eq!(liquidate_obligation_checks(&obsolete, VERSION, true, true), Err(LendingError::ReserveObsolete));
}

#[test]
fn status_and_version_gating() {
    let obsolete = reserve(ReserveStatus::Obsolete, VERSION);
    let acc = BorrowObligationLiquidity { borrow_reserve: obsolete, user_destination_liquidity: key(7) };
    assert_eq!(borrow_obligation_liquidity_checks(&acc, VERSION, true), Err(LendingError::ReserveObsolete));
    let stale = reserve(ReserveStatus::Active, VERSION - 1);
    let acc = BorrowObligationLiquidity { borrow_reserve: stale, user_destination_liquidity: key(7) };
    assert_eq!(borrow_obligation_liquidity_checks(&acc, VERSION, true), Err(LendingError::ReserveDeprecated));
    let both = reserve(ReserveStatus::Obsolete, VERSION - 1);
    let acc = BorrowObligationLiquidity { borrow_reserve: both, user_destination_liquidity: key(7) };
    assert_eq!(borrow_obligation_liquidity_checks(&acc, VERSION, true), Err(LendingError::ReserveDeprecated));
    let acc = BorrowObligationLiquidity { borrow_reserve: active(), user_destination_liquidity: key(7) };
    assert_eq!(borrow_obligation_liquidity_checks(&acc, VERSION, true), Ok(()));
    assert_eq!(borrow_obligation_liquidity_checks(&acc, VERSION, false), Err(LendingError::InvalidAccountInput));
    let hidden = reserve(ReserveStatus::Hidden, VERSION);
    let acc = DepositObligationCollateralAccounts { deposit_reserve: hidden, user_source_collateral: key(7) };
    assert_eq!(deposit_obligation_collateral_checks(&acc, VERSION), Ok(()));
}

#[test]
fn withdraw_and_flash_repay_allowed_on_obsolete() {
    let obsolete = reserve(ReserveStatus::Obsolete, VERSION - 1);
    let acc = FlashRepayReserveLiquidity { reserve: obsolete, user_source_liquidity: key(7) };
    assert_eq!(flash_repay_reserve_liquidity_checks(&acc, VERSION), Ok(()));
    let obsolete = reserve(ReserveStatus::Obsolete, VERSION);
    let acc = WithdrawObligationCollateralAccounts { withdraw_reserve: obsolete, user_destination_collateral: key(7) };
    assert_eq!(withdraw_obligation_collateral_checks(&acc, VERSION), Ok(()));
}

#[test]
fn flash_loans_disabled_sentinel() {
    let mut r = active();
    r.config.fees.flash_loan_fee_sf = FLASH_LOANS_DISABLED_FEE_SF;
    let acc = FlashBorrowReserveLiquidity { reserve: r, user_destination_liquidity: key(7) };
    assert_eq!(flash_borrow_reserve_liquidity_checks(&acc, VERSION, true), Err(LendingError::FlashLoansDisabled));
    let mut o = r;
    o.config.status = ReserveStatus::Obsolete;
    let acc = FlashBorrowReserveLiquidity { reserve: o, user_destination_liquidity: key(7) };
    assert_eq!(flash_borrow_reserve_liquidity_checks(&acc, VERSION, true), Err(LendingError::ReserveObsolete));
    let acc = FlashBorrowReserveLiquidity { reserve: r, user_destination_liquidity: r.liquidity.supply_vault };
    assert_eq!(flash_borrow_reserve_liquidity_checks(&acc, VERSION, true), Err(LendingError::InvalidAccountInput));
    let acc = FlashBorrowReserveLiquidity { reserve: active(), user_destination_liquidity: key(7) };
    assert_eq!(flash_borrow_reserve_liquidity_checks(&acc, VERSION, true), Ok(()));
}

#[test]
fn refresh_farms_lending_market_mismatch_carries_keys() {
    let acc = RefreshObligationFarmsForReserveBase {
        obligation: Some(Obligation { lending_market: key(9) }),
        lending_market: key(10),
        reserve: active(),
    };
    let e = refresh_obligation_farms_for_reserve_checks(&acc, VERSION).unwrap_err();
    assert_eq!(e.error, LendingError::InvalidAccountInput);
    assert_eq!(e.expected, Some(key(9)));
    assert_eq!(e.actual, Some(key(10)));
    let acc = RefreshObligationFarmsForReserveBase { obligation: None, lending_market: key(10), reserve: reserve(ReserveStatus::Obsolete, VERSION) };
    assert_eq!(refresh_obligation_farms_for_reserve_checks(&acc, VERSION).unwrap_err().error, LendingError::ReserveObsolete);
    let acc = RefreshObligationFarmsForReserveBase { obligation: Some(Obligation { lending_market: key(10) }), lending_market: key(10), reserve: active() };
    assert_eq!(refresh_obligation_farms_for_reserve_checks(&acc, VERSION), Ok(()));
}

#[test]
fn liquidation_available_amounts() {
    let mut w = active();
    w.liquidity.available_amount = 42;
    assert_eq!(initial_liquidation_reserve_liquidity_available_amount(&active(), &w), (700, 42));
}

fn referrer_fixture() -> (Pubkey, Pubkey, ReferrerTokenState, Pubkey) {
    let program = anchor_lang::prelude::Pubkey::new_from_array([5; 32]);
    let referrer = key(11);
    let reserve_key = key(12);
    let (pda, bump) = anchor_lang::prelude::Pubkey::find_program_address(
        &[b"referrer_acc", &referrer.bytes, &reserve_key.bytes],
        &program,
    );
    let state = ReferrerTokenState {
        referrer,
        mint: key(1),
        amount_unclaimed_sf: 0,
        amount_cumulative_sf: 0,
        bump: bump as u64,
    };
    (Pubkey::new_from_array(program.to_bytes()), reserve_key, state, Pubkey::new_from_array(pda.to_bytes()))
}

#[test]
fn referrer_address_is_derived_from_content() {
    let (program, reserve_key, state, pda) = referrer_fixture();
    let got = referrer_token_state_address(&program, &state.referrer, &reserve_key, state.bump).unwrap();
    assert_eq!(got, pda);
    assert_ne!(got, state.referrer);
    assert_eq!(referrer_token_state_address(&program, &state.referrer, &reserve_key, 256), None);
}

#[test]
fn referrer_validation_order() {
    let (program, reserve_key, state, pda) = referrer_fixture();
    let mint = key(1);
    assert_eq!(validate_referrer_token_state(&program, &state, pda, mint, state.referrer, reserve_key), Ok(()));
    let mut uninit = state;
    uninit.mint = key(0);
    uninit.referrer = key(0);
    assert_eq!(
        validate_referrer_token_state(&program, &uninit, pda, key(0), key(0), reserve_key),
        Err(LendingError::ReferrerAccountNotInitialized)
    );
    assert_eq!(
        validate_referrer_token_state(&program, &state, pda, key(2), state.referrer, reserve_key),
        Err(LendingError::ReferrerAccountMintMissmatch)
    );
    assert_eq!(
        validate_referrer_token_state(&program, &state, key(13), mint, state.referrer, reserve_key),
        Err(LendingError::ReferrerAccountWrongAddress)
    );
    assert_eq!(
        validate_referrer_token_state(&program, &state, pda, mint, key(14), reserve_key),
        Err(LendingError::ReferrerAccountReferrerMissmatch)
    );
    let mut bad_bump = state;
    bad_bump.bump = 300;
    assert_eq!(
        validate_referrer_token_state(&program, &bad_bump, pda, mint, state.referrer, reserve_key),
        Err(LendingError::AddressDerivationFailed)
    );
}

#[test]
fn referrer_check_with_given_address() {
    let (_, _, state, pda) = referrer_fixture();
    assert_eq!(check_referrer_token_state(&state, &pda, &key(1), &state.referrer, Some(pda)), Ok(()));
    assert_eq!(
        check_referrer_token_state(&state, &pda, &key(1), &state.referrer, None),
        Err(LendingError::AddressDerivationFailed)
    );
}

#[test]
fn redeem_process_returns_transfer() {
    let ctx = RedeemReserveCollateral {
        owner: key(30),
        lending_market: key(9),
        reserve: active(),
        lending_market_authority: key(31),
        reserve_collateral_mint: key(3),
        reserve_liquidity_supply: key(2),
        user_source_collateral: key(32),
        user_destination_liquidity: key(33),
        token_program: key(34),
    };
    let t = process(&ctx, 10, 12, VERSION, true).unwrap();
    assert_eq!(t.collateral_amount, 10);
    assert_eq!(t.withdraw_liquidity_amount, 12);
    assert_eq!(t.user_destination_liquidity, key(33));
    assert_eq!(t.reserve_liquidity_supply, key(2));
    assert_eq!(process(&ctx, 10, 12, VERSION + 1, true), Err(LendingError::ReserveDeprecated));
    let aliased = RedeemReserveCollateral { user_destination_liquidity: key(2), ..ctx };
    assert_eq!(process(&aliased, 10, 12, VERSION, true), Err(LendingError::InvalidAccountInput));
}

#[test]
fn signed_subtraction_is_checked_in_i64() {
    // amount i64::MIN: the i64 subtraction overflows, though the exact result fits a u64
    let a = LendingAction::SubtractiveSigned(i64::MIN);
    let big = (1u64 << 63) + 1;
    assert_eq!(
        post_transfer_vault_balance_liquidity_reserve_checks(big, big, 1, 1, a),
        Err(LendingError::MathOverflow)
    );
    // an initial balance beyond i64 cannot enter the signed subtraction
    let b = LendingAction::SubtractiveSigned(1);
    let v = (1u64 << 63) + 5;
    assert_eq!(
        post_transfer_vault_balance_liquidity_reserve_checks(v - 1, v - 1, v, v, b),
        Err(LendingError::MathOverflow)
    );
    // largest balance the signed path accepts
    let m = i64::MAX as u64;
    assert_eq!(
        post_transfer_vault_balance_liquidity_reserve_checks(m, m - 10, m, m - 10, LendingAction::SubtractiveSigned(0)),
        Ok(())
    );
}

#[test]
fn desynchronised_balances_are_reported() {
    // the tracked amount above the vault, before or after
    assert_eq!(
        post_transfer_vault_balance_liquidity_reserve_checks(1000, 1000, 1000, 1010, LendingAction::Additive(0)),
        Err(LendingError::ReserveTokenBalanceMismatch)
    );
    assert_eq!(
        post_transfer_vault_balance_liquidity_reserve_checks(990, 1000, 1000, 1010, LendingAction::Subtractive(10)),
        Ok(())
    );
}

#[test]
fn repay_and_redeem_refuse_obsolete_reserve() {
    let obsolete = reserve(ReserveStatus::Obsolete, VERSION);
    assert_eq!(
        repay_obligation_liquidity_checks(&RepayObligationLiquidity { repay_reserve: obsolete, user_source_liquidity: key(7) }, VERSION, true),
        Err(LendingError::ReserveObsolete)
    );
    assert_eq!(
        redeem_reserve_collateral_checks(&RedeemReserveCollateralAccounts { reserve: obsolete, user_source_collateral: key(7), user_destination_liquidity: key(8) }, VERSION, true),
        Err(LendingError::ReserveObsolete)
    );
    assert_eq!(
        repay_obligation_liquidity_checks(&RepayObligationLiquidity { repay_reserve: active(), user_source_liquidity: key(7) }, VERSION, true),
        Ok(())
    );
}
