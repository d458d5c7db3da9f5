use secure_wrap_token::admin::initialize;
use secure_wrap_token::error::{EngineError, SecureWrapTokenError};
use secure_wrap_token::freeze::{freeze, immediate_thaw, permanent_freeze, thaw};
use secure_wrap_token::global_state::GlobalState;
use secure_wrap_token::ledger::{Pubkey, TokenAccount};
use secure_wrap_token::secure_wrap_token_state::SecureWrapTokenState;
use secure_wrap_token::user_token_state::UserTokenState;

fn authority() -> Pubkey {
    Pubkey { id: 7 }
}

fn setup() -> (GlobalState, SecureWrapTokenState) {
    let gs = initialize(authority());
    let st = SecureWrapTokenState {
        original_token_mint: Pubkey { id: 100 },
        secure_wrap_token_mint: Pubkey { id: 101 },
        permanently_frozen_token_supply: 0,
        redistributed_token_supply: 0,
    };
    (gs, st)
}

fn swt_account(amount: u64) -> TokenAccount {
    TokenAccount { key: Pubkey { id: 11 }, owner: Pubkey { id: 1 }, amount, frozen: false }
}

#[test]
fn freeze_sets_thaw_eligible_timestamp() {
    let (gs, st) = setup();
    let mut acct = swt_account(500);
    let mut uts = UserTokenState::default();
    let now = 1_000_000;
    let r = freeze(&gs, &st, authority(), &mut acct, &mut uts, now, 86_400);
    assert_eq!(r, Ok(()));
    assert!(acct.frozen);
    assert!(uts.initialized);
    assert_eq!(uts.secure_wrap_token_account, acct.key);
    assert_eq!(uts.thaw_eligible_timestamp, now + 86_400);
}

#[test]
fn freeze_requires_authority() {
    let (gs, st) = setup();
    let mut acct = swt_account(500);
    let mut uts = UserTokenState::default();
    let r = freeze(&gs, &st, Pubkey { id: 8 }, &mut acct, &mut uts, 1_000_000, 60);
    assert_eq!(r, Err(EngineError::Unauthorized));
    assert!(!acct.frozen);
    assert!(!uts.initialized);
}

#[test]
fn freeze_rejects_frozen_account() {
    let (gs, st) = setup();
    let mut acct = swt_account(500);
    acct.frozen = true;
    let mut uts = UserTokenState::default();
    let r = freeze(&gs, &st, authority(), &mut acct, &mut uts, 1_000_000, 60);
    assert_eq!(
        r,
        Err(EngineError::Token(SecureWrapTokenError::IneligibleFreezeError))
    );
}

#[test]
fn freeze_period_maximum_is_fourteen_days() {
    let (gs, st) = setup();
    let mut acct = swt_account(500);
    let mut uts = UserTokenState::default();
    let r = freeze(&gs, &st, authority(), &mut acct, &mut uts, 1_000_000, 1_209_601);
    assert_eq!(
        r,
        Err(EngineError::Token(SecureWrapTokenError::FreezePeriodMaximumExceeded))
    );
    let r2 = freeze(&gs, &st, authority(), &mut acct, &mut uts, 1_000_000, 1_209_600);
    assert_eq!(r2, Ok(()));
}

#[test]
fn freeze_rebinding_to_other_account_rejected() {
    let (gs, st) = setup();
    let mut acct = swt_account(500);
    let mut uts = UserTokenState::default();
    assert_eq!(
        freeze(&gs, &st, authority(), &mut acct, &mut uts, 1_000_000, 60),
        Ok(())
    );
    let mut other = TokenAccount {
        key: Pubkey { id: 55 },
        owner: Pubkey { id: 2 },
        amount: 0,
        frozen: false,
    };
    let r = freeze(&gs, &st, authority(), &mut other, &mut uts, 5_000_000, 60);
    assert_eq!(
        r,
        Err(EngineError::Token(SecureWrapTokenError::InvalidUserTokenStateAccount))
    );
}

#[test]
fn thaw_succeeds_exactly_at_eligible_time() {
    let (gs, st) = setup();
    let mut acct = swt_account(500);
    let mut uts = UserTokenState::default();
    let now = 1_000_000;
    assert_eq!(
        freeze(&gs, &st, authority(), &mut acct, &mut uts, now, 3_600),
        Ok(())
    );
    // Anyone may call thaw; at now == thaw_eligible_timestamp it succeeds.
    let r = thaw(&st, &mut acct, &mut uts, now + 3_600);
    assert_eq!(r, Ok(()));
    assert!(!acct.frozen);
    assert_eq!(uts.thawed_at_timestamp, now + 3_600);
}

#[test]
fn thaw_one_second_early_is_premature() {
    let (gs, st) = setup();
    let mut acct = swt_account(500);
    let mut uts = UserTokenState::default();
    let now = 1_000_000;
    assert_eq!(
        freeze(&gs, &st, authority(), &mut acct, &mut uts, now, 3_600),
        Ok(())
    );
    let r = thaw(&st, &mut acct, &mut uts, now + 3_599);
    assert_eq!(r, Err(EngineError::Token(SecureWrapTokenError::PrematureThaw)));
    assert!(acct.frozen);
}

#[test]
fn thaw_of_unfrozen_account_is_invalid() {
    let (_gs, st) = setup();
    let mut acct = swt_account(500);
    let mut uts = UserTokenState::default();
    let r = thaw(&st, &mut acct, &mut uts, 1_000_000);
    assert_eq!(r, Err(EngineError::Token(SecureWrapTokenError::InvalidThaw)));
}

#[test]
fn refreeze_exactly_three_days_after_thaw_succeeds() {
    let (gs, st) = setup();
    let mut acct = swt_account(500);
    let mut uts = UserTokenState::default();
    let now = 1_000_000;
    assert_eq!(
        freeze(&gs, &st, authority(), &mut acct, &mut uts, now, 3_600),
        Ok(())
    );
    assert_eq!(thaw(&st, &mut acct, &mut uts, now + 3_600), Ok(()));
    let thawed_at = now + 3_600;
    // Exactly 259,200 seconds after the recorded thaw: eligible again.
    let r = freeze(
        &gs,
        &st,
        authority(),
        &mut acct,
        &mut uts,
        thawed_at + 259_200,
        60,
    );
    assert_eq!(r, Ok(()));
}

#[test]
fn refreeze_one_second_early_is_ineligible() {
    let (gs, st) = setup();
    let mut acct = swt_account(500);
    let mut uts = UserTokenState::default();
    let now = 1_000_000;
    assert_eq!(
        freeze(&gs, &st, authority(), &mut acct, &mut uts, now, 3_600),
        Ok(())
    );
    assert_eq!(thaw(&st, &mut acct, &mut uts, now + 3_600), Ok(()));
    let thawed_at = now + 3_600;
    let r = freeze(
        &gs,
        &st,
        authority(),
        &mut acct,
        &mut uts,
        thawed_at + 259_199,
        60,
    );
    assert_eq!(
        r,
        Err(EngineError::Token(SecureWrapTokenError::IneligibleFreezeError))
    );
}

#[test]
fn immediate_thaw_bypasses_waiting_period() {
    let (gs, st) = setup();
    let mut acct = swt_account(500);
    let mut uts = UserTokenState::default();
    let now = 1_000_000;
    assert_eq!(
        freeze(&gs, &st, authority(), &mut acct, &mut uts, now, 1_209_600),
        Ok(())
    );
    // One second after the freeze, the ordinary thaw is premature ...
    assert_eq!(
        thaw(&st, &mut acct, &mut uts, now + 1),
        Err(EngineError::Token(SecureWrapTokenError::PrematureThaw))
    );
    // ... but the authority may thaw at once.
    let r = immediate_thaw(&gs, &st, authority(), &mut acct, &mut uts, now + 1);
    assert_eq!(r, Ok(()));
    assert!(!acct.frozen);
    assert_eq!(uts.thaw_eligible_timestamp, 0);
    assert_eq!(uts.thawed_at_timestamp, now + 1);
}

#[test]
fn immediate_thaw_requires_authority() {
    let (gs, st) = setup();
    let mut acct = swt_account(500);
    let mut uts = UserTokenState::default();
    assert_eq!(
        freeze(&gs, &st, authority(), &mut acct, &mut uts, 1_000_000, 60),
        Ok(())
    );
    let r = immediate_thaw(&gs, &st, Pubkey { id: 8 }, &mut acct, &mut uts, 1_000_001);
    assert_eq!(r, Err(EngineError::Unauthorized));
    assert!(acct.frozen);
}

#[test]
fn permanent_freeze_requires_both_accounts_frozen() {
    let (gs, _st) = setup();
    let mut st = SecureWrapTokenState {
        original_token_mint: Pubkey { id: 100 },
        secure_wrap_token_mint: Pubkey { id: 101 },
        permanently_frozen_token_supply: 0,
        redistributed_token_supply: 0,
    };
    let mut acct = swt_account(500);
    acct.frozen = true;
    let orig_acct = TokenAccount {
        key: Pubkey { id: 12 },
        owner: Pubkey { id: 1 },
        amount: 0,
        frozen: false,
    };
    let mut uts = UserTokenState::default();
    uts.initialized = true;
    uts.secure_wrap_token_account = acct.key;
    let r = permanent_freeze(&gs, &mut st, authority(), &orig_acct, &acct, &mut uts);
    assert_eq!(
        r,
        Err(EngineError::Token(SecureWrapTokenError::InvalidPermanentFreeze))
    );
    assert!(!uts.permanently_frozen);
    assert_eq!(st.permanently_frozen_token_supply, 0);
}

#[test]
fn permanent_freeze_captures_balance_and_is_terminal() {
    let (gs, _ignored) = setup();
    let mut st = SecureWrapTokenState {
        original_token_mint: Pubkey { id: 100 },
        secure_wrap_token_mint: Pubkey { id: 101 },
        permanently_frozen_token_supply: 0,
        redistributed_token_supply: 0,
    };
    let mut acct = swt_account(500);
    acct.frozen = true;
    let mut orig_acct = TokenAccount {
        key: Pubkey { id: 12 },
        owner: Pubkey { id: 1 },
        amount: 0,
        frozen: true,
    };
    let mut uts = UserTokenState::default();
    uts.initialized = true;
    uts.secure_wrap_token_account = acct.key;
    let r = permanent_freeze(&gs, &mut st, authority(), &orig_acct, &acct, &mut uts);
    assert_eq!(r, Ok(()));
    assert!(uts.permanently_frozen);
    assert_eq!(st.permanently_frozen_token_supply, 500);

    // Thereafter thaw, immediate thaw and freeze all fail.
    assert_eq!(
        thaw(&st, &mut acct, &mut uts, 99_000_000),
        Err(EngineError::Token(SecureWrapTokenError::AccountPermanentlyFrozen))
    );
    assert_eq!(
        immediate_thaw(&gs, &st, authority(), &mut acct, &mut uts, 99_000_000),
        Err(EngineError::Token(SecureWrapTokenError::AccountPermanentlyFrozen))
    );
    assert_eq!(
        freeze(&gs, &st, authority(), &mut acct, &mut uts, 99_000_000, 60),
        Err(EngineError::Token(SecureWrapTokenError::IneligibleFreezeError))
    );
    assert!(uts.permanently_frozen);
    assert!(acct.frozen);
    // The flag never reverts, and the original account's state was not
    // consulted again.
    orig_acct.frozen = false;
    assert!(uts.permanently_frozen);
}
