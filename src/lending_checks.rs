use vstd::prelude::*;

use crate::pubkey::{
    default_key, key_option_view, referrer_token_state_address, referrer_token_state_address_spec,
    Pubkey,
};
use crate::state::{
    ErrorReport, FLASH_LOANS_DISABLED_FEE_SF, LendingAction, LendingError, Obligation, ReferrerTokenState, Reserve, ReserveStatus};

verus! {

// ---------------------------------------------------------------------------
// Post-transfer reconciliation
// ---------------------------------------------------------------------------

/// The outcome of comparing one observed balance with the one expected.
pub open spec fn expect_eq(expected: int, observed: u64, e: LendingError) -> Result<(), LendingError> {
    if expected == observed as int {
        Ok(())
    } else {
        Err(e)
    }
}

pub open spec fn first_failure(a: Result<(), LendingError>, b: Result<(), LendingError>) -> Result<(), LendingError> {
    match a {
        Err(e) => Err(e),
        Ok(_) => b,
    }
}

/// Expected vault and available amount move up by `amount`.
pub open spec fn additive_spec(fv: u64, fa: u64, iv: u64, ia: u64, amount: u64) -> Result<(), LendingError> {
    first_failure(
        expect_eq(iv + amount, fv, LendingError::ReserveVaultBalanceMismatch),
        expect_eq(ia + amount, fa, LendingError::ReserveAccountingMismatch),
    )
}

/// Expected vault and available amount move down by `amount`.
pub open spec fn subtractive_spec(fv: u64, fa: u64, iv: u64, ia: u64, amount: u64) -> Result<(), LendingError> {
    first_failure(
        expect_eq(iv - amount, fv, LendingError::ReserveVaultBalanceMismatch),
        expect_eq(ia - amount, fa, LendingError::ReserveAccountingMismatch),
    )
}

pub open spec fn fits_u64(x: int) -> bool {
    0 <= x <= u64::MAX
}

pub open spec fn fits_i64(x: int) -> bool {
    i64::MIN <= x <= i64::MAX
}

/// Whether the checked signed subtraction `initial - amount` succeeds and
/// yields a balance: `initial` is an `i64`, and so is the difference, which is
/// not negative.
pub open spec fn signed_in_range(initial: u64, amount: i64) -> bool {
    fits_i64(initial as int) && fits_i64(initial - amount) && initial - amount >= 0
}

/// One signed expectation: the checked signed subtraction of `amount` from the
/// balance must succeed and give a balance, equal to the observed one.
pub open spec fn signed_expect(initial: u64, amount: i64, observed: u64, e: LendingError) -> Result<(), LendingError> {
    if !signed_in_range(initial, amount) {
        Err(LendingError::MathOverflow)
    } else {
        expect_eq(initial - amount, observed, e)
    }
}

/// Expected vault and available amount move down by a signed `amount`.
pub open spec fn subtractive_signed_spec(fv: u64, fa: u64, iv: u64, ia: u64, amount: i64) -> Result<(), LendingError> {
    first_failure(
        signed_expect(iv, amount, fv, LendingError::ReserveVaultBalanceMismatch),
        signed_expect(ia, amount, fa, LendingError::ReserveAccountingMismatch),
    )
}

/// The result of reconciling a reserve's balances across a transfer.
pub open spec fn reconcile_spec(fv: u64, fa: u64, iv: u64, ia: u64, action: LendingAction) -> Result<(), LendingError> {
    if iv - ia != fv - fa {
        Err(LendingError::ReserveTokenBalanceMismatch)
    } else {
        match action {
            LendingAction::Additive(a) => additive_spec(fv, fa, iv, ia, a),
            LendingAction::Subtractive(a) => subtractive_spec(fv, fa, iv, ia, a),
            LendingAction::SubtractiveSigned(a) => subtractive_signed_spec(fv, fa, iv, ia, a),
        }
    }
}

/// The inputs on which reconciliation is defined: an unsigned expectation that
/// is computed neither overflows nor underflows.
pub open spec fn reconcile_defined(fv: u64, fa: u64, iv: u64, ia: u64, action: LendingAction) -> bool {
    iv - ia == fv - fa ==> match action {
        LendingAction::Additive(a) => fits_u64(iv + a) && (iv + a == fv ==> fits_u64(ia + a)),
        LendingAction::Subtractive(a) => fits_u64(iv - a) && (iv - a == fv ==> fits_u64(ia - a)),
        LendingAction::SubtractiveSigned(_) => true,
    }
}

pub fn check_additive(fv: u64, fa: u64, iv: u64, ia: u64, amount: u64) -> (r: Result<(), LendingError>)
    requires
        fits_u64(iv + amount),
        iv + amount == fv ==> fits_u64(ia + amount),
    ensures
        r == additive_spec(fv, fa, iv, ia, amount),
{
    if iv + amount != fv {
        return Err(LendingError::ReserveVaultBalanceMismatch);
    }
    if ia + amount != fa {
        return Err(LendingError::ReserveAccountingMismatch);
    }
    Ok(())
}

pub fn check_subtractive(fv: u64, fa: u64, iv: u64, ia: u64, amount: u64) -> (r: Result<(), LendingError>)
    requires
        fits_u64(iv - amount),
        iv - amount == fv ==> fits_u64(ia - amount),
    ensures
        r == subtractive_spec(fv, fa, iv, ia, amount),
{
    if iv - amount != fv {
        return Err(LendingError::ReserveVaultBalanceMismatch);
    }
    if ia - amount != fa {
        return Err(LendingError::ReserveAccountingMismatch);
    }
    Ok(())
}

/// `initial - amount` by checked `i64` subtraction, as a `u64`; `MathOverflow`
/// where `initial` is no `i64`, the subtraction overflows or the result is negative.
fn signed_expected(initial: u64, amount: i64) -> (r: Result<u64, LendingError>)
    ensures
        signed_in_range(initial, amount) ==> r == Ok::<u64, LendingError>((initial - amount) as u64),
        !signed_in_range(initial, amount) ==> r == Err::<u64, LendingError>(LendingError::MathOverflow),
{
    if initial > i64::MAX as u64 {
        return Err(LendingError::MathOverflow);
    }
    let x: i128 = initial as i128 - amount as i128;
    if x < 0 || x > i64::MAX as i128 {
        Err(LendingError::MathOverflow)
    } else {
        Ok(x as u64)
    }
}

pub fn check_subtractive_signed(fv: u64, fa: u64, iv: u64, ia: u64, amount: i64) -> (r: Result<(), LendingError>)
    ensures
        r == subtractive_signed_spec(fv, fa, iv, ia, amount),
{
    match signed_expected(iv, amount) {
        Err(e) => {
            return Err(e);
        },
        Ok(v) => {
            if v != fv {
                return Err(LendingError::ReserveVaultBalanceMismatch);
            }
        },
    }
    match signed_expected(ia, amount) {
        Err(e) => Err(e),
        Ok(a) => {
            if a != fa {
                Err(LendingError::ReserveAccountingMismatch)
            } else {
                Ok(())
            }
        },
    }
}

/// Checks, after a transfer, that the vault's surplus over the tracked amount
/// is unchanged and that both moved exactly as `action_type` declares.
pub fn post_transfer_vault_balance_liquidity_reserve_checks(
    final_reserve_vault_balance: u64,
    final_reserve_available_liquidity: u64,
    initial_reserve_vault_balance: u64,
    initial_reserve_available_liquidity: u64,
    action_type: LendingAction,
) -> (r: Result<(), LendingError>)
    requires
        reconcile_defined(
            final_reserve_vault_balance,
            final_reserve_available_liquidity,
            initial_reserve_vault_balance,
            initial_reserve_available_liquidity,
            action_type,
        ),
    ensures
        r == reconcile_spec(
            final_reserve_vault_balance,
            final_reserve_available_liquidity,
            initial_reserve_vault_balance,
            initial_reserve_available_liquidity,
            action_type,
        ),
{
    // The surpluses `iv - ia` and `fv - fa` are equal exactly when `iv + fa == fv + ia`,
    // which needs no subtraction that could underflow.
    let pre_side: u128 = initial_reserve_vault_balance as u128 + final_reserve_available_liquidity as u128;
    let post_side: u128 = final_reserve_vault_balance as u128 + initial_reserve_available_liquidity as u128;
    if pre_side != post_side {
        return Err(LendingError::ReserveTokenBalanceMismatch);
    }
    match action_type {
        LendingAction::Additive(amount) => check_additive(
            final_reserve_vault_balance,
            final_reserve_available_liquidity,
            initial_reserve_vault_balance,
            initial_reserve_available_liquidity,
            amount,
        ),
        LendingAction::Subtractive(amount) => check_subtractive(
            final_reserve_vault_balance,
            final_reserve_available_liquidity,
            initial_reserve_vault_balance,
            initial_reserve_available_liquidity,
            amount,
        ),
        LendingAction::SubtractiveSigned(amount) => check_subtractive_signed(
            final_reserve_vault_balance,
            final_reserve_available_liquidity,
            initial_reserve_vault_balance,
            initial_reserve_available_liquidity,
            amount,
        ),
    }
}

/// A transfer that passes reconciliation leaves the vault's surplus over the
/// tracked amount unchanged, whatever the action; and a change of that surplus
/// is reported as `ReserveTokenBalanceMismatch`, whatever the action.
pub proof fn lemma_diff_conservation(fv: u64, fa: u64, iv: u64, ia: u64, action: LendingAction)
    ensures
        reconcile_spec(fv, fa, iv, ia, action) is Ok ==> iv - ia == fv - fa,
        iv - ia != fv - fa ==> reconcile_spec(fv, fa, iv, ia, action) == Err::<(), LendingError>(
            LendingError::ReserveTokenBalanceMismatch,
        ),
{
}

/// Checks that a liquidator repaid no more than the computed maximum.
pub fn post_liquidate_repay_amount_check(max_repay: u64, actual_repay: u64) -> (r: Result<(), LendingError>)
    ensures
        r == (if actual_repay <= max_repay {
            Ok::<(), LendingError>(())
        } else {
            Err(LendingError::InsufficientRepayAmount)
        }),
{
    if max_repay >= actual_repay {
        Ok(())
    } else {
        Err(LendingError::InsufficientRepayAmount)
    }
}

// ---------------------------------------------------------------------------
// Referrer validation
// ---------------------------------------------------------------------------

/// The outcome of validating a referrer token state, given the address derived
/// from its content (`None` where none could be derived).
pub open spec fn referrer_check_spec(
    state: ReferrerTokenState,
    key: Seq<u8>,
    mint: Seq<u8>,
    owner_referrer: Seq<u8>,
    derived: Option<Seq<u8>>,
) -> Result<(), LendingError> {
    if state.mint@ == default_key() || state.referrer@ == default_key() {
        Err(LendingError::ReferrerAccountNotInitialized)
    } else if state.mint@ != mint {
        Err(LendingError::ReferrerAccountMintMissmatch)
    } else {
        match derived {
            None => Err(LendingError::AddressDerivationFailed),
            Some(a) => if key != a {
                Err(LendingError::ReferrerAccountWrongAddress)
            } else if state.referrer@ != owner_referrer {
                Err(LendingError::ReferrerAccountReferrerMissmatch)
            } else {
                Ok(())
            },
        }
    }
}

/// Validates a referrer token state against the address `derived` from its
/// referrer, its reserve and its bump.
pub fn check_referrer_token_state(
    referrer_token_state: &ReferrerTokenState,
    referrer_token_state_key: &Pubkey,
    mint: &Pubkey,
    owner_referrer: &Pubkey,
    derived: Option<Pubkey>,
) -> (r: Result<(), LendingError>)
    ensures
        r == referrer_check_spec(
            *referrer_token_state,
            referrer_token_state_key@,
            mint@,
            owner_referrer@,
            key_option_view(derived),
        ),
{
    if referrer_token_state.mint.is_default() || referrer_token_state.referrer.is_default() {
        return Err(LendingError::ReferrerAccountNotInitialized);
    }
    if !referrer_token_state.mint.key_eq(mint) {
        return Err(LendingError::ReferrerAccountMintMissmatch);
    }
    match derived {
        None => Err(LendingError::AddressDerivationFailed),
        Some(a) => {
            if !referrer_token_state_key.key_eq(&a) {
                Err(LendingError::ReferrerAccountWrongAddress)
            } else if !referrer_token_state.referrer.key_eq(owner_referrer) {
                Err(LendingError::ReferrerAccountReferrerMissmatch)
            } else {
                Ok(())
            }
        },
    }
}

/// Validates a referrer token state: initialized, of the expected mint, stored
/// at the address derived from its content, and owned by `owner_referrer`.
pub fn validate_referrer_token_state(
    program_id: &Pubkey,
    referrer_token_state: &ReferrerTokenState,
    referrer_token_state_key: Pubkey,
    mint: Pubkey,
    owner_referrer: Pubkey,
    reserve_key: Pubkey,
) -> (r: Result<(), LendingError>)
    ensures
        r == referrer_check_spec(
            *referrer_token_state,
            referrer_token_state_key@,
            mint@,
            owner_referrer@,
            referrer_token_state_address_spec(
                program_id@,
                referrer_token_state.referrer@,
                reserve_key@,
                referrer_token_state.bump,
            ),
        ),
        referrer_token_state.mint@ == default_key() || referrer_token_state.referrer@ == default_key()
            ==> r == Err::<(), LendingError>(LendingError::ReferrerAccountNotInitialized),
{
    let derived = referrer_token_state_address(
        program_id,
        &referrer_token_state.referrer,
        &reserve_key,
        referrer_token_state.bump,
    );
    check_referrer_token_state(
        referrer_token_state,
        &referrer_token_state_key,
        &mint,
        &owner_referrer,
        derived,
    )
}

// ---------------------------------------------------------------------------
// Pre-transfer checks
// ---------------------------------------------------------------------------

/// A reserve's own vault may not stand in for the user's account.
pub open spec fn alias_gate(vault: Pubkey, user: Pubkey) -> Result<(), LendingError> {
    if vault@ == user@ {
        Err(LendingError::InvalidAccountInput)
    } else {
        Ok(())
    }
}

pub open spec fn version_gate(reserve: Reserve, program_version: u64) -> Result<(), LendingError> {
    if reserve.version != program_version {
        Err(LendingError::ReserveDeprecated)
    } else {
        Ok(())
    }
}

pub open spec fn status_gate(reserve: Reserve) -> Result<(), LendingError> {
    if reserve.config.status == ReserveStatus::Obsolete {
        Err(LendingError::ReserveObsolete)
    } else {
        Ok(())
    }
}

/// The verdict of the token-extension validation of a mint and a user account.
pub open spec fn extensions_gate(extensions_valid: bool) -> Result<(), LendingError> {
    if extensions_valid {
        Ok(())
    } else {
        Err(LendingError::InvalidAccountInput)
    }
}

fn check_not_aliased(vault: &Pubkey, user: &Pubkey) -> (r: Result<(), LendingError>)
    ensures
        r == alias_gate(*vault, *user),
{
    if vault.key_eq(user) {
        Err(LendingError::InvalidAccountInput)
    } else {
        Ok(())
    }
}

fn check_version(reserve: &Reserve, program_version: u64) -> (r: Result<(), LendingError>)
    ensures
        r == version_gate(*reserve, program_version),
{
    if reserve.version != program_version {
        Err(LendingError::ReserveDeprecated)
    } else {
        Ok(())
    }
}

fn check_not_obsolete(reserve: &Reserve) -> (r: Result<(), LendingError>)
    ensures
        r == status_gate(*reserve),
{
    if reserve.config.status() == ReserveStatus::Obsolete {
        Err(LendingError::ReserveObsolete)
    } else {
        Ok(())
    }
}

fn check_extensions(extensions_valid: bool) -> (r: Result<(), LendingError>)
    ensures
        r == extensions_gate(extensions_valid),
{
    if extensions_valid {
        Ok(())
    } else {
        Err(LendingError::InvalidAccountInput)
    }
}

pub struct BorrowObligationLiquidity {
    pub borrow_reserve: Reserve,
    pub user_destination_liquidity: Pubkey,
}

pub open spec fn borrow_checks_spec(a: BorrowObligationLiquidity, v: u64, ext: bool) -> Result<(), LendingError> {
    first_failure(alias_gate(a.borrow_reserve.liquidity.supply_vault, a.user_destination_liquidity),
    first_failure(version_gate(a.borrow_reserve, v),
    first_failure(status_gate(a.borrow_reserve), extensions_gate(ext))))
}

/// Checks before a borrow. `liquidity_extensions_valid` is the verdict of the
/// token-extension validation of the liquidity mint and the user's destination.
pub fn borrow_obligation_liquidity_checks(
    accounts: &BorrowObligationLiquidity,
    program_version: u64,
    liquidity_extensions_valid: bool,
) -> (r: Result<(), LendingError>)
    ensures
        r == borrow_checks_spec(*accounts, program_version, liquidity_extensions_valid),
        accounts.borrow_reserve.liquidity.supply_vault@ == accounts.user_destination_liquidity@
            ==> r == Err::<(), LendingError>(LendingError::InvalidAccountInput),
{
    let r = check_not_aliased(&accounts.borrow_reserve.liquidity.supply_vault, &accounts.user_destination_liquidity);
    if r.is_err() {
        return r;
    }
    let r = check_version(&accounts.borrow_reserve, program_version);
    if r.is_err() {
        return r;
    }
    let r = check_not_obsolete(&accounts.borrow_reserve);
    if r.is_err() {
        return r;
    }
    check_extensions(liquidity_extensions_valid)
}

pub open spec fn flash_fee_gate(reserve: Reserve) -> Result<(), LendingError> {
    if reserve.config.fees.flash_loan_fee_sf == FLASH_LOANS_DISABLED_FEE_SF {
        Err(LendingError::FlashLoansDisabled)
    } else {
        Ok(())
    }
}

fn check_flash_loans_enabled(reserve: &Reserve) -> (r: Result<(), LendingError>)
    ensures
        r == flash_fee_gate(*reserve),
{
    if reserve.config.fees.flash_loan_fee_sf == FLASH_LOANS_DISABLED_FEE_SF {
        Err(LendingError::FlashLoansDisabled)
    } else {
        Ok(())
    }
}

pub struct DepositObligationCollateralAccounts {
    pub deposit_reserve: Reserve,
    pub user_source_collateral: Pubkey,
}

pub open spec fn deposit_obligation_collateral_spec(a: DepositObligationCollateralAccounts, v: u64) -> Result<(), LendingError> {
    first_failure(alias_gate(a.deposit_reserve.collateral.supply_vault, a.user_source_collateral),
    first_failure(version_gate(a.deposit_reserve, v),
    status_gate(a.deposit_reserve)))
}

/// Checks before collateral is deposited into an obligation.
pub fn deposit_obligation_collateral_checks(
    accounts: &DepositObligationCollateralAccounts,
    program_version: u64,
) -> (r: Result<(), LendingError>)
    ensures
        r == deposit_obligation_collateral_spec(*accounts, program_version),
        accounts.deposit_reserve.collateral.supply_vault@ == accounts.user_source_collateral@
            ==> r == Err::<(), LendingError>(LendingError::InvalidAccountInput),
{
    let r = check_not_aliased(&accounts.deposit_reserve.collateral.supply_vault, &accounts.user_source_collateral);
    if r.is_err() {
        return r;
    }
    let r = check_version(&accounts.deposit_reserve, program_version);
    if r.is_err() {
        return r;
    }
    check_not_obsolete(&accounts.deposit_reserve)
}

pub struct DepositReserveLiquidityAccounts {
    pub reserve: Reserve,
    pub user_source_liquidity: Pubkey,
    pub user_destination_collateral: Pubkey,
}

pub open spec fn deposit_reserve_liquidity_spec(a: DepositReserveLiquidityAccounts, v: u64, ext: bool) -> Result<(), LendingError> {
    first_failure(alias_gate(a.reserve.liquidity.supply_vault, a.user_source_liquidity),
    first_failure(alias_gate(a.reserve.collateral.supply_vault, a.user_destination_collateral),
    first_failure(version_gate(a.reserve, v),
    first_failure(status_gate(a.reserve),
    extensions_gate(ext)))))
}

/// Checks before liquidity is deposited into a reserve.
pub fn deposit_reserve_liquidity_checks(
    accounts: &DepositReserveLiquidityAccounts,
    program_version: u64,
    liquidity_extensions_valid: bool,
) -> (r: Result<(), LendingError>)
    ensures
        r == deposit_reserve_liquidity_spec(*accounts, program_version, liquidity_extensions_valid),
        accounts.reserve.liquidity.supply_vault@ == accounts.user_source_liquidity@
            || accounts.reserve.collateral.supply_vault@ == accounts.user_destination_collateral@
            ==> r == Err::<(), LendingError>(LendingError::InvalidAccountInput),
{
    let r = check_not_aliased(&accounts.reserve.liquidity.supply_vault, &accounts.user_source_liquidity);
    if r.is_err() {
        return r;
    }
    let r = check_not_aliased(&accounts.reserve.collateral.supply_vault, &accounts.user_destination_collateral);
    if r.is_err() {
        return r;
    }
    let r = check_version(&accounts.reserve, program_version);
    if r.is_err() {
        return r;
    }
    let r = check_not_obsolete(&accounts.reserve);
    if r.is_err() {
        return r;
    }
    check_extensions(liquidity_extensions_valid)
}

pub struct DepositReserveLiquidityAndObligationCollateralAccounts {
    pub reserve: Reserve,
    pub user_source_liquidity: Pubkey,
}

pub open spec fn deposit_reserve_liquidity_and_obligation_collateral_spec(a: DepositReserveLiquidityAndObligationCollateralAccounts, v: u64, ext: bool) -> Result<(), LendingError> {
    first_failure(alias_gate(a.reserve.liquidity.supply_vault, a.user_source_liquidity),
    first_failure(version_gate(a.reserve, v),
    first_failure(status_gate(a.reserve),
    extensions_gate(ext))))
}

/// Checks before liquidity is deposited and its collateral put into an obligation.
pub fn deposit_reserve_liquidity_and_obligation_collateral_checks(
    accounts: &DepositReserveLiquidityAndObligationCollateralAccounts,
    program_version: u64,
    liquidity_extensions_valid: bool,
) -> (r: Result<(), LendingError>)
    ensures
        r == deposit_reserve_liquidity_and_obligation_collateral_spec(*accounts, program_version, liquidity_extensions_valid),
        accounts.reserve.liquidity.supply_vault@ == accounts.user_source_liquidity@
            ==> r == Err::<(), LendingError>(LendingError::InvalidAccountInput),
{
    let r = check_not_aliased(&accounts.reserve.liquidity.supply_vault, &accounts.user_source_liquidity);
    if r.is_err() {
        return r;
    }
    let r = check_version(&accounts.reserve, program_version);
    if r.is_err() {
        return r;
    }
    let r = check_not_obsolete(&accounts.reserve);
    if r.is_err() {
        return r;
    }
    check_extensions(liquidity_extensions_valid)
}

pub struct LiquidateObligationAndRedeemReserveCollateral {
    pub repay_reserve: Reserve,
    pub withdraw_reserve: Reserve,
    pub user_source_liquidity: Pubkey,
    pub user_destination_collateral: Pubkey,
    pub user_destination_liquidity: Pubkey,
}

pub open spec fn liquidate_obligation_spec(a: LiquidateObligationAndRedeemReserveCollateral, v: u64, ext: bool, ext2: bool) -> Result<(), LendingError> {
    first_failure(alias_gate(a.repay_reserve.liquidity.supply_vault, a.user_source_liquidity),
    first_failure(alias_gate(a.repay_reserve.collateral.supply_vault, a.user_destination_collateral),
    first_failure(alias_gate(a.withdraw_reserve.liquidity.supply_vault, a.user_source_liquidity),
    first_failure(alias_gate(a.withdraw_reserve.collateral.supply_vault, a.user_destination_collateral),
    first_failure(alias_gate(a.withdraw_reserve.liquidity.supply_vault, a.user_destination_liquidity),
    first_failure(version_gate(a.repay_reserve, v),
    first_failure(version_gate(a.withdraw_reserve, v),
    first_failure(status_gate(a.repay_reserve),
    first_failure(status_gate(a.withdraw_reserve),
    first_failure(extensions_gate(ext),
    extensions_gate(ext2)))))))))))
}

/// Checks before a liquidation, on the repay and the withdraw reserve alike. The two
/// verdicts are those of the token-extension validation of the repay mint with the
/// user's source and of the withdraw mint with the user's destination.
pub fn liquidate_obligation_checks(
    accounts: &LiquidateObligationAndRedeemReserveCollateral,
    program_version: u64,
    repay_liquidity_extensions_valid: bool,
    withdraw_liquidity_extensions_valid: bool,
) -> (r: Result<(), LendingError>)
    ensures
        r == liquidate_obligation_spec(*accounts, program_version, repay_liquidity_extensions_valid, withdraw_liquidity_extensions_valid),
        accounts.repay_reserve.liquidity.supply_vault@ == accounts.user_source_liquidity@
            || accounts.repay_reserve.collateral.supply_vault@ == accounts.user_destination_collateral@
            || accounts.withdraw_reserve.liquidity.supply_vault@ == accounts.user_source_liquidity@
            || accounts.withdraw_reserve.collateral.supply_vault@ == accounts.user_destination_collateral@
            || accounts.withdraw_reserve.liquidity.supply_vault@ == accounts.user_destination_liquidity@
            ==> r == Err::<(), LendingError>(LendingError::InvalidAccountInput),
{
    let r = check_not_aliased(&accounts.repay_reserve.liquidity.supply_vault, &accounts.user_source_liquidity);
    if r.is_err() {
        return r;
    }
    let r = check_not_aliased(&accounts.repay_reserve.collateral.supply_vault, &accounts.user_destination_collateral);
    if r.is_err() {
        return r;
    }
    let r = check_not_aliased(&accounts.withdraw_reserve.liquidity.supply_vault, &accounts.user_source_liquidity);
    if r.is_err() {
        return r;
    }
    let r = check_not_aliased(&accounts.withdraw_reserve.collateral.supply_vault, &accounts.user_destination_collateral);
    if r.is_err() {
        return r;
    }
    let r = check_not_aliased(&accounts.withdraw_reserve.liquidity.supply_vault, &accounts.user_destination_liquidity);
    if r.is_err() {
        return r;
    }
    let r = check_version(&accounts.repay_reserve, program_version);
    if r.is_err() {
        return r;
    }
    let r = check_version(&accounts.withdraw_reserve, program_version);
    if r.is_err() {
        return r;
    }
    let r = check_not_obsolete(&accounts.repay_reserve);
    if r.is_err() {
        return r;
    }
    let r = check_not_obsolete(&accounts.withdraw_reserve);
    if r.is_err() {
        return r;
    }
    let r = check_extensions(repay_liquidity_extensions_valid);
    if r.is_err() {
        return r;
    }
    check_extensions(withdraw_liquidity_extensions_valid)
}

pub struct RedeemReserveCollateralAccounts {
    pub reserve: Reserve,
    pub user_source_collateral: Pubkey,
    pub user_destination_liquidity: Pubkey,
}

pub open spec fn redeem_reserve_collateral_spec(a: RedeemReserveCollateralAccounts, v: u64, ext: bool) -> Result<(), LendingError> {
    first_failure(alias_gate(a.reserve.collateral.supply_vault, a.user_source_collateral),
    first_failure(alias_gate(a.reserve.liquidity.supply_vault, a.user_destination_liquidity),
    first_failure(version_gate(a.reserve, v),
    first_failure(status_gate(a.reserve),
    extensions_gate(ext)))))
}

/// Checks before collateral is redeemed for liquidity.
pub fn redeem_reserve_collateral_checks(
    accounts: &RedeemReserveCollateralAccounts,
    program_version: u64,
    liquidity_extensions_valid: bool,
) -> (r: Result<(), LendingError>)
    ensures
        r == redeem_reserve_collateral_spec(*accounts, program_version, liquidity_extensions_valid),
        accounts.reserve.collateral.supply_vault@ == accounts.user_source_collateral@
            || accounts.reserve.liquidity.supply_vault@ == accounts.user_destination_liquidity@
            ==> r == Err::<(), LendingError>(LendingError::InvalidAccountInput),
{
    let r = check_not_aliased(&accounts.reserve.collateral.supply_vault, &accounts.user_source_collateral);
    if r.is_err() {
        return r;
    }
    let r = check_not_aliased(&accounts.reserve.liquidity.supply_vault, &accounts.user_destination_liquidity);
    if r.is_err() {
        return r;
    }
    let r = check_version(&accounts.reserve, program_version);
    if r.is_err() {
        return r;
    }
    let r = check_not_obsolete(&accounts.reserve);
    if r.is_err() {
        return r;
    }
    check_extensions(liquidity_extensions_valid)
}

pub struct WithdrawObligationCollateralAndRedeemReserveCollateralAccounts {
    pub withdraw_reserve: Reserve,
    pub user_destination_liquidity: Pubkey,
}

pub open spec fn withdraw_obligation_collateral_and_redeem_reserve_collateral_spec(a: WithdrawObligationCollateralAndRedeemReserveCollateralAccounts, v: u64, ext: bool) -> Result<(), LendingError> {
    first_failure(alias_gate(a.withdraw_reserve.liquidity.supply_vault, a.user_destination_liquidity),
    first_failure(version_gate(a.withdraw_reserve, v),
    extensions_gate(ext)))
}

/// Checks before collateral is withdrawn from an obligation and redeemed.
pub fn withdraw_obligation_collateral_and_redeem_reserve_collateral_checks(
    accounts: &WithdrawObligationCollateralAndRedeemReserveCollateralAccounts,
    program_version: u64,
    liquidity_extensions_valid: bool,
) -> (r: Result<(), LendingError>)
    ensures
        r == withdraw_obligation_collateral_and_redeem_reserve_collateral_spec(*accounts, program_version, liquidity_extensions_valid),
        accounts.withdraw_reserve.liquidity.supply_vault@ == accounts.user_destination_liquidity@
            ==> r == Err::<(), LendingError>(LendingError::InvalidAccountInput),
{
    let r = check_not_aliased(&accounts.withdraw_reserve.liquidity.supply_vault, &accounts.user_destination_liquidity);
    if r.is_err() {
        return r;
    }
    let r = check_version(&accounts.withdraw_reserve, program_version);
    if r.is_err() {
        return r;
    }
    check_extensions(liquidity_extensions_valid)
}

pub struct RepayObligationLiquidity {
    pub repay_reserve: Reserve,
    pub user_source_liquidity: Pubkey,
}

pub open spec fn repay_obligation_liquidity_spec(a: RepayObligationLiquidity, v: u64, ext: bool) -> Result<(), LendingError> {
    first_failure(alias_gate(a.repay_reserve.liquidity.supply_vault, a.user_source_liquidity),
    first_failure(version_gate(a.repay_reserve, v),
    first_failure(status_gate(a.repay_reserve),
    extensions_gate(ext))))
}

/// Checks before a borrow is repaid.
pub fn repay_obligation_liquidity_checks(
    accounts: &RepayObligationLiquidity,
    program_version: u64,
    liquidity_extensions_valid: bool,
) -> (r: Result<(), LendingError>)
    ensures
        r == repay_obligation_liquidity_spec(*accounts, program_version, liquidity_extensions_valid),
        accounts.repay_reserve.liquidity.supply_vault@ == accounts.user_source_liquidity@
            ==> r == Err::<(), LendingError>(LendingError::InvalidAccountInput),
{
    let r = check_not_aliased(&accounts.repay_reserve.liquidity.supply_vault, &accounts.user_source_liquidity);
    if r.is_err() {
        return r;
    }
    let r = check_version(&accounts.repay_reserve, program_version);
    if r.is_err() {
        return r;
    }
    let r = check_not_obsolete(&accounts.repay_reserve);
    if r.is_err() {
        return r;
    }
    check_extensions(liquidity_extensions_valid)
}

pub struct WithdrawObligationCollateralAccounts {
    pub withdraw_reserve: Reserve,
    pub user_destination_collateral: Pubkey,
}

pub open spec fn withdraw_obligation_collateral_spec(a: WithdrawObligationCollateralAccounts, v: u64) -> Result<(), LendingError> {
    first_failure(alias_gate(a.withdraw_reserve.collateral.supply_vault, a.user_destination_collateral),
    version_gate(a.withdraw_reserve, v))
}

/// Checks before collateral is withdrawn from an obligation; an obsolete reserve
/// still lets its collateral go.
pub fn withdraw_obligation_collateral_checks(
    accounts: &WithdrawObligationCollateralAccounts,
    program_version: u64,
) -> (r: Result<(), LendingError>)
    ensures
        r == withdraw_obligation_collateral_spec(*accounts, program_version),
        accounts.withdraw_reserve.collateral.supply_vault@ == accounts.user_destination_collateral@
            ==> r == Err::<(), LendingError>(LendingError::InvalidAccountInput),
{
    let r = check_not_aliased(&accounts.withdraw_reserve.collateral.supply_vault, &accounts.user_destination_collateral);
    if r.is_err() {
        return r;
    }
    check_version(&accounts.withdraw_reserve, program_version)
}

pub struct FlashBorrowReserveLiquidity {
    pub reserve: Reserve,
    pub user_destination_liquidity: Pubkey,
}

pub open spec fn flash_borrow_reserve_liquidity_spec(a: FlashBorrowReserveLiquidity, v: u64, ext: bool) -> Result<(), LendingError> {
    first_failure(alias_gate(a.reserve.liquidity.supply_vault, a.user_destination_liquidity),
    first_failure(version_gate(a.reserve, v),
    first_failure(status_gate(a.reserve),
    first_failure(flash_fee_gate(a.reserve),
    extensions_gate(ext)))))
}

/// Checks before a flash borrow.
pub fn flash_borrow_reserve_liquidity_checks(
    accounts: &FlashBorrowReserveLiquidity,
    program_version: u64,
    liquidity_extensions_valid: bool,
) -> (r: Result<(), LendingError>)
    ensures
        r == flash_borrow_reserve_liquidity_spec(*accounts, program_version, liquidity_extensions_valid),
        accounts.reserve.liquidity.supply_vault@ == accounts.user_destination_liquidity@
            ==> r == Err::<(), LendingError>(LendingError::InvalidAccountInput),
        accounts.reserve.liquidity.supply_vault@ != accounts.user_destination_liquidity@
            && accounts.reserve.version == program_version
            && accounts.reserve.config.status != ReserveStatus::Obsolete
            && accounts.reserve.config.fees.flash_loan_fee_sf == FLASH_LOANS_DISABLED_FEE_SF
            ==> r == Err::<(), LendingError>(LendingError::FlashLoansDisabled),
{
    let r = check_not_aliased(&accounts.reserve.liquidity.supply_vault, &accounts.user_destination_liquidity);
    if r.is_err() {
        return r;
    }
    let r = check_version(&accounts.reserve, program_version);
    if r.is_err() {
        return r;
    }
    let r = check_not_obsolete(&accounts.reserve);
    if r.is_err() {
        return r;
    }
    let r = check_flash_loans_enabled(&accounts.reserve);
    if r.is_err() {
        return r;
    }
    check_extensions(liquidity_extensions_valid)
}

pub struct FlashRepayReserveLiquidity {
    pub reserve: Reserve,
    pub user_source_liquidity: Pubkey,
}

pub open spec fn flash_repay_reserve_liquidity_spec(a: FlashRepayReserveLiquidity, v: u64) -> Result<(), LendingError> {
    alias_gate(a.reserve.liquidity.supply_vault, a.user_source_liquidity)
}

/// Checks before a flash loan is repaid: a loan once taken can always be repaid,
/// whatever the reserve's version or status.
pub fn flash_repay_reserve_liquidity_checks(
    accounts: &FlashRepayReserveLiquidity,
    program_version: u64,
) -> (r: Result<(), LendingError>)
    ensures
        r == flash_repay_reserve_liquidity_spec(*accounts, program_version),
        accounts.reserve.liquidity.supply_vault@ == accounts.user_source_liquidity@
            ==> r == Err::<(), LendingError>(LendingError::InvalidAccountInput),
{
    check_not_aliased(&accounts.reserve.liquidity.supply_vault, &accounts.user_source_liquidity)
}

pub struct RefreshObligationFarmsForReserveBase {
    /// The obligation, where its account holds data.
    pub obligation: Option<Obligation>,
    pub lending_market: Pubkey,
    pub reserve: Reserve,
}

pub open spec fn bare(r: Result<(), LendingError>) -> Result<(), ErrorReport> {
    match r {
        Ok(_) => Ok(()),
        Err(e) => Err(ErrorReport { error: e, expected: None, actual: None }),
    }
}

pub open spec fn refresh_obligation_farms_for_reserve_spec(
    a: RefreshObligationFarmsForReserveBase,
    v: u64,
) -> Result<(), ErrorReport> {
    match a.obligation {
        Some(o) if o.lending_market@ != a.lending_market@ => Err(
            ErrorReport {
                error: LendingError::InvalidAccountInput,
                expected: Some(o.lending_market),
                actual: Some(a.lending_market),
            },
        ),
        _ => bare(first_failure(version_gate(a.reserve, v), status_gate(a.reserve))),
    }
}

fn report(r: Result<(), LendingError>) -> (out: Result<(), ErrorReport>)
    ensures
        out == bare(r),
{
    match r {
        Ok(_) => Ok(()),
        Err(e) => Err(ErrorReport { error: e, expected: None, actual: None }),
    }
}

/// Checks before an obligation's farms are refreshed for a reserve. A mismatch
/// of lending markets reports the obligation's market as `expected` and the one
/// supplied as `actual`.
pub fn refresh_obligation_farms_for_reserve_checks(
    accounts: &RefreshObligationFarmsForReserveBase,
    program_version: u64,
) -> (r: Result<(), ErrorReport>)
    ensures
        r == refresh_obligation_farms_for_reserve_spec(*accounts, program_version),
{
    if let Some(obligation) = &accounts.obligation {
        if !obligation.lending_market.key_eq(&accounts.lending_market) {
            return Err(
                ErrorReport {
                    error: LendingError::InvalidAccountInput,
                    expected: Some(obligation.lending_market),
                    actual: Some(accounts.lending_market),
                },
            );
        }
    }
    let r = check_version(&accounts.reserve, program_version);
    if r.is_err() {
        return report(r);
    }
    report(check_not_obsolete(&accounts.reserve))
}

/// The tracked liquidity of the repay and the withdraw reserve before a liquidation.
pub fn initial_liquidation_reserve_liquidity_available_amount(
    repay_reserve: &Reserve,
    withdraw_reserve: &Reserve,
) -> (r: (u64, u64))
    ensures
        r == (repay_reserve.liquidity.available_amount, withdraw_reserve.liquidity.available_amount),
{
    (repay_reserve.liquidity.available_amount, withdraw_reserve.liquidity.available_amount)
}

} // verus!
