use secure_wrap_token::admin::{
    create_secure_wrapped_token, halt_unwrap, initialize, resume_unwrap, set_unwrap_delay,
};
use secure_wrap_token::error::{EngineError, SecureWrapTokenError};
use secure_wrap_token::freeze::{freeze, permanent_freeze, redistribute_frozen_funds};
use secure_wrap_token::global_state::GlobalState;
use secure_wrap_token::ledger::{Mint, Pubkey, TokenAccount};
use secure_wrap_token::order::Side;
use secure_wrap_token::secure_wrap_token_state::SecureWrapTokenState;
use secure_wrap_token::user_token_state::UserTokenState;
use secure_wrap_token::wrap::wrap;

fn authority() -> Pubkey {
    Pubkey { id: 7 }
}

fn owner() -> Pubkey {
    Pubkey { id: 1 }
}

fn setup() -> (GlobalState, SecureWrapTokenState) {
    let gs = initialize(authority());
    let st = create_secure_wrapped_token(&gs, authority(), Pubkey { id: 100 }, Pubkey { id: 101 })
        .unwrap();
    (gs, st)
}

fn account(key: u64, owner: Pubkey, amount: u64) -> TokenAccount {
    TokenAccount { key: Pubkey { id: key }, owner, amount, frozen: false }
}

// A permanently frozen user with a captured balance of 500, reached
// through the engine's own operations.
fn frozen_user_with_500(
) -> (GlobalState, SecureWrapTokenState, Mint, TokenAccount, TokenAccount, UserTokenState) {
    let (gs, mut st) = setup();
    let mut m = Mint { supply: 0 };
    let mut t = account(10, owner(), 500);
    let mut s = account(11, owner(), 0);
    let mut co = account(20, Pubkey { id: 90 }, 0);
    assert_eq!(wrap(&st, &mut m, &mut t, &mut s, &mut co, owner(), 500), Ok(()));
    let mut uts = UserTokenState::default();
    assert_eq!(
        freeze(&gs, &st, authority(), &mut s, &mut uts, 1_000_000, 60),
        Ok(())
    );
    t.frozen = true;
    assert_eq!(
        permanent_freeze(&gs, &mut st, authority(), &t, &s, &mut uts),
        Ok(())
    );
    assert_eq!(st.permanently_frozen_token_supply, 500);
    (gs, st, m, s, co, uts)
}

#[test]
fn redistribution_beyond_captured_balance_rejected() {
    let (gs, mut st, mut m, s, _co, mut uts) = frozen_user_with_500();
    let mut receiving = account(40, Pubkey { id: 3 }, 0);
    let r = redistribute_frozen_funds(
        &gs,
        &mut st,
        authority(),
        &mut uts,
        &s,
        &mut receiving,
        &mut m,
        600,
    );
    assert_eq!(
        r,
        Err(EngineError::Token(SecureWrapTokenError::FrozenFundDistributionExceeded))
    );
    assert_eq!(st.redistributed_token_supply, 0);
    assert_eq!(receiving.amount, 0);
}

#[test]
fn cumulative_redistributions_bounded_by_captured_balance() {
    let (gs, mut st, mut m, s, co, mut uts) = frozen_user_with_500();
    let mut receiving = account(40, Pubkey { id: 3 }, 0);
    // 300 passes ...
    let r = redistribute_frozen_funds(
        &gs,
        &mut st,
        authority(),
        &mut uts,
        &s,
        &mut receiving,
        &mut m,
        300,
    );
    assert_eq!(r, Ok(()));
    assert_eq!(receiving.amount, 300);
    assert_eq!(st.redistributed_token_supply, 300);
    // ... then 250 fails: 300 + 250 = 550 > 500.
    let r = redistribute_frozen_funds(
        &gs,
        &mut st,
        authority(),
        &mut uts,
        &s,
        &mut receiving,
        &mut m,
        250,
    );
    assert_eq!(
        r,
        Err(EngineError::Token(SecureWrapTokenError::FrozenFundDistributionExceeded))
    );
    assert_eq!(st.redistributed_token_supply, 300);
    // The supply invariant holds throughout: supply equals custody plus
    // redistributed, and redistributed stays below the captured supply.
    assert_eq!(m.supply, co.amount + st.redistributed_token_supply);
    assert!(st.redistributed_token_supply <= st.permanently_frozen_token_supply);
}

#[test]
fn redistribution_requires_nonzero_amount() {
    let (gs, mut st, mut m, s, _co, mut uts) = frozen_user_with_500();
    let mut receiving = account(40, Pubkey { id: 3 }, 0);
    let r = redistribute_frozen_funds(
        &gs,
        &mut st,
        authority(),
        &mut uts,
        &s,
        &mut receiving,
        &mut m,
        0,
    );
    assert_eq!(
        r,
        Err(EngineError::Token(SecureWrapTokenError::InvalidTokenAmount))
    );
}

#[test]
fn redistribution_requires_permanent_freeze() {
    let (gs, st) = setup();
    let mut st = st;
    let mut m = Mint { supply: 0 };
    let mut s = account(11, owner(), 500);
    s.frozen = true;
    let mut uts = UserTokenState::default();
    uts.initialized = true;
    uts.secure_wrap_token_account = s.key;
    let mut receiving = account(40, Pubkey { id: 3 }, 0);
    let r = redistribute_frozen_funds(
        &gs,
        &mut st,
        authority(),
        &mut uts,
        &s,
        &mut receiving,
        &mut m,
        100,
    );
    assert_eq!(
        r,
        Err(EngineError::Token(SecureWrapTokenError::InvalidFrozenFundDistribution))
    );
}

#[test]
fn redistribution_requires_authority() {
    let (gs, mut st, mut m, s, _co, mut uts) = frozen_user_with_500();
    let mut receiving = account(40, Pubkey { id: 3 }, 0);
    let r = redistribute_frozen_funds(
        &gs,
        &mut st,
        owner(),
        &mut uts,
        &s,
        &mut receiving,
        &mut m,
        100,
    );
    assert_eq!(r, Err(EngineError::Unauthorized));
}

#[test]
fn initialize_opens_every_gate_with_maximum_delay() {
    let gs = initialize(authority());
    assert_eq!(gs.upgrade_authority, authority());
    assert_eq!(gs.unwrap_delay_seconds, 86_400);
    assert!(gs.unwrap_allowed);
    assert!(gs.orders_allowed);
    assert!(gs.wrap_orders_allowed);
}

#[test]
fn create_secure_wrapped_token_requires_authority() {
    let gs = initialize(authority());
    let r = create_secure_wrapped_token(&gs, owner(), Pubkey { id: 100 }, Pubkey { id: 101 });
    assert_eq!(r, Err(EngineError::Unauthorized));
    let st = create_secure_wrapped_token(&gs, authority(), Pubkey { id: 100 }, Pubkey { id: 101 })
        .unwrap();
    assert_eq!(st.original_token_mint, Pubkey { id: 100 });
    assert_eq!(st.secure_wrap_token_mint, Pubkey { id: 101 });
    assert_eq!(st.permanently_frozen_token_supply, 0);
    assert_eq!(st.redistributed_token_supply, 0);
}

#[test]
fn set_unwrap_delay_enforces_maximum() {
    let mut gs = initialize(authority());
    assert_eq!(
        set_unwrap_delay(&mut gs, authority(), 86_401),
        Err(EngineError::Token(SecureWrapTokenError::SetUnwrapDelayMaximumExceeded))
    );
    assert_eq!(
        set_unwrap_delay(&mut gs, authority(), u64::MAX),
        Err(EngineError::Token(SecureWrapTokenError::MathOverflow))
    );
    assert_eq!(set_unwrap_delay(&mut gs, authority(), 3_600), Ok(()));
    assert_eq!(gs.unwrap_delay_seconds, 3_600);
    assert_eq!(
        set_unwrap_delay(&mut gs, owner(), 60),
        Err(EngineError::Unauthorized)
    );
    assert_eq!(gs.unwrap_delay_seconds, 3_600);
}

#[test]
fn halt_and_resume_unwrap_toggle_the_gate() {
    let mut gs = initialize(authority());
    assert_eq!(halt_unwrap(&mut gs, owner()), Err(EngineError::Unauthorized));
    assert!(gs.unwrap_allowed);
    assert_eq!(halt_unwrap(&mut gs, authority()), Ok(()));
    assert!(!gs.unwrap_allowed);
    assert_eq!(resume_unwrap(&mut gs, authority()), Ok(()));
    assert!(gs.unwrap_allowed);
}

#[test]
fn side_seed_values() {
    assert_eq!(Side::Wrap.to_seed(), Ok([1u8]));
    assert_eq!(Side::Unwrap.to_seed(), Ok([2u8]));
    assert_eq!(
        Side::Unspecified.to_seed(),
        Err(SecureWrapTokenError::OrderSideInvalid)
    );
}

#[test]
fn permanent_freeze_overflow_of_captured_supply() {
    let (gs, st) = setup();
    let mut st = st;
    st.permanently_frozen_token_supply = u64::MAX;
    let mut s = account(11, owner(), 1);
    s.frozen = true;
    let t = TokenAccount { key: Pubkey { id: 10 }, owner: owner(), amount: 0, frozen: true };
    let mut uts = UserTokenState::default();
    uts.initialized = true;
    uts.secure_wrap_token_account = s.key;
    let r = permanent_freeze(&gs, &mut st, authority(), &t, &s, &mut uts);
    assert_eq!(r, Err(EngineError::Token(SecureWrapTokenError::MathOverflow)));
    assert!(!uts.permanently_frozen);
}
