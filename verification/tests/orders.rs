use secure_wrap_token::admin::{halt_orders, halt_wrap_orders, initialize};
use secure_wrap_token::error::{EngineError, SecureWrapTokenError};
use secure_wrap_token::global_state::GlobalState;
use secure_wrap_token::ledger::{Mint, Pubkey, TokenAccount};
use secure_wrap_token::order::Side;
use secure_wrap_token::orders::{
    cancel_order, cancel_order_program, fill_order, fill_order_program, place_order,
};
use secure_wrap_token::secure_wrap_token_state::SecureWrapTokenState;
use secure_wrap_token::user_token_state::UserTokenState;
use secure_wrap_token::wrap::wrap;

fn authority() -> Pubkey {
    Pubkey { id: 7 }
}

fn maker() -> Pubkey {
    Pubkey { id: 1 }
}

fn filler() -> Pubkey {
    Pubkey { id: 2 }
}

fn setup() -> (GlobalState, SecureWrapTokenState) {
    let gs = initialize(authority());
    let st = SecureWrapTokenState {
        original_token_mint: Pubkey { id: 100 },
        secure_wrap_token_mint: Pubkey { id: 101 },
        permanently_frozen_token_supply: 0,
        redistributed_token_supply: 0,
    };
    (gs, st)
}

fn account(key: u64, owner: Pubkey, amount: u64) -> TokenAccount {
    TokenAccount { key: Pubkey { id: key }, owner, amount, frozen: false }
}

#[test]
fn unwrap_order_discount_direction_enforced() {
    let (gs, st) = setup();
    let mut t = account(10, maker(), 1_000);
    let mut s = account(11, maker(), 1_000);
    let mut co = account(20, Pubkey { id: 90 }, 0);
    let mut cw = account(21, Pubkey { id: 91 }, 0);
    // amount_in > amount_out: admitted.
    let r = place_order(
        &gs, &st, maker(), &mut t, &mut s, &mut co, &mut cw, Side::Unwrap, 100, 90,
    );
    assert!(r.is_ok());
    // amount_in < amount_out: rejected.
    let r = place_order(
        &gs, &st, maker(), &mut t, &mut s, &mut co, &mut cw, Side::Unwrap, 90, 100,
    );
    assert_eq!(
        r,
        Err(EngineError::Token(SecureWrapTokenError::InvalidOrderAmount))
    );
}

#[test]
fn wrap_order_discount_direction_enforced() {
    let (gs, st) = setup();
    let mut t = account(10, maker(), 1_000);
    let mut s = account(11, maker(), 1_000);
    let mut co = account(20, Pubkey { id: 90 }, 0);
    let mut cw = account(21, Pubkey { id: 91 }, 0);
    // For the wrap side the inequality reverses: amount_out > amount_in.
    let r = place_order(
        &gs, &st, maker(), &mut t, &mut s, &mut co, &mut cw, Side::Wrap, 90, 100,
    );
    assert!(r.is_ok());
    let r = place_order(
        &gs, &st, maker(), &mut t, &mut s, &mut co, &mut cw, Side::Wrap, 100, 90,
    );
    assert_eq!(
        r,
        Err(EngineError::Token(SecureWrapTokenError::InvalidOrderAmount))
    );
}

#[test]
fn order_side_and_amounts_validated() {
    let (gs, st) = setup();
    let mut t = account(10, maker(), 1_000);
    let mut s = account(11, maker(), 1_000);
    let mut co = account(20, Pubkey { id: 90 }, 0);
    let mut cw = account(21, Pubkey { id: 91 }, 0);
    let r = place_order(
        &gs, &st, maker(), &mut t, &mut s, &mut co, &mut cw, Side::Unspecified, 100, 90,
    );
    assert_eq!(
        r,
        Err(EngineError::Token(SecureWrapTokenError::OrderSideInvalid))
    );
    let r = place_order(
        &gs, &st, maker(), &mut t, &mut s, &mut co, &mut cw, Side::Unwrap, 0, 90,
    );
    assert_eq!(
        r,
        Err(EngineError::Token(SecureWrapTokenError::InvalidTokenAmount))
    );
    let r = place_order(
        &gs, &st, maker(), &mut t, &mut s, &mut co, &mut cw, Side::Unwrap, 100, 0,
    );
    assert_eq!(
        r,
        Err(EngineError::Token(SecureWrapTokenError::InvalidTokenAmount))
    );
}

#[test]
fn place_unwrap_order_escrows_wrapped_tokens() {
    let (gs, st) = setup();
    let mut t = account(10, maker(), 0);
    let mut s = account(11, maker(), 1_000);
    let mut co = account(20, Pubkey { id: 90 }, 0);
    let mut cw = account(21, Pubkey { id: 91 }, 0);
    let order = place_order(
        &gs, &st, maker(), &mut t, &mut s, &mut co, &mut cw, Side::Unwrap, 1_000, 950,
    )
    .unwrap();
    assert_eq!(s.amount, 0);
    assert_eq!(cw.amount, 1_000);
    assert_eq!(order.owner, maker());
    assert_eq!(order.amount_in, 1_000);
    assert_eq!(order.amount_out, 950);
    assert_eq!(order.side, Side::Unwrap);
    assert_eq!(order.token_account, t.key);
    assert_eq!(order.secure_wrap_token_account, s.key);
}

#[test]
fn end_to_end_wrap_place_fill() {
    let (gs, st) = setup();
    let mut m = Mint { supply: 0 };
    // User A's accounts.
    let mut a_orig = account(10, maker(), 1_000);
    let mut a_swt = account(11, maker(), 0);
    // Custody accounts of the pair.
    let mut co = account(20, Pubkey { id: 90 }, 0);
    let mut cw = account(21, Pubkey { id: 91 }, 0);

    // A wraps 1,000.
    assert_eq!(
        wrap(&st, &mut m, &mut a_orig, &mut a_swt, &mut co, maker(), 1_000),
        Ok(())
    );
    // A places an unwrap order: 1,000 wrapped in, 950 original out.
    let order = place_order(
        &gs, &st, maker(), &mut a_orig, &mut a_swt, &mut co, &mut cw, Side::Unwrap, 1_000, 950,
    )
    .unwrap();

    // User B fills it from their own funds.
    let mut b_orig = account(30, filler(), 2_000);
    let mut b_swt = account(31, filler(), 0);
    let r = fill_order(
        &gs,
        &st,
        &order,
        filler(),
        &mut b_orig,
        &mut b_swt,
        &mut a_orig,
        &mut a_swt,
        &mut co,
        &mut cw,
        Side::Unwrap,
    );
    assert_eq!(r, Ok(()));
    // B paid 950 original straight to A and received the escrowed 1,000
    // wrapped; the order record is then destroyed by the storage layer.
    assert_eq!(b_orig.amount, 1_050);
    assert_eq!(b_swt.amount, 1_000);
    assert_eq!(a_orig.amount, 950);
    assert_eq!(a_swt.amount, 0);
    assert_eq!(cw.amount, 0);
    // The supply invariant holds: supply == custody + redistributed.
    assert_eq!(m.supply, 1_000);
    assert_eq!(co.amount, 1_000);
    assert_eq!(st.redistributed_token_supply, 0);
}

#[test]
fn fill_against_frozen_maker_rejected() {
    let (gs, st) = setup();
    let mut t = account(10, maker(), 0);
    let mut s = account(11, maker(), 1_000);
    let mut co = account(20, Pubkey { id: 90 }, 0);
    let mut cw = account(21, Pubkey { id: 91 }, 0);
    let order = place_order(
        &gs, &st, maker(), &mut t, &mut s, &mut co, &mut cw, Side::Unwrap, 1_000, 950,
    )
    .unwrap();
    s.frozen = true;
    let mut b_orig = account(30, filler(), 2_000);
    let mut b_swt = account(31, filler(), 0);
    let r = fill_order(
        &gs,
        &st,
        &order,
        filler(),
        &mut b_orig,
        &mut b_swt,
        &mut t,
        &mut s,
        &mut co,
        &mut cw,
        Side::Unwrap,
    );
    assert_eq!(
        r,
        Err(EngineError::Token(SecureWrapTokenError::FillOrderFrozenAccountError))
    );
    assert_eq!(b_orig.amount, 2_000);
}

#[test]
fn halted_orders_block_placement() {
    let (mut gs, st) = setup();
    assert_eq!(halt_orders(&mut gs, authority()), Ok(()));
    let mut t = account(10, maker(), 1_000);
    let mut s = account(11, maker(), 1_000);
    let mut co = account(20, Pubkey { id: 90 }, 0);
    let mut cw = account(21, Pubkey { id: 91 }, 0);
    let r = place_order(
        &gs, &st, maker(), &mut t, &mut s, &mut co, &mut cw, Side::Unwrap, 100, 90,
    );
    assert_eq!(r, Err(EngineError::Token(SecureWrapTokenError::OrdersHalted)));
}

#[test]
fn halted_wrap_orders_block_only_wrap_side() {
    let (mut gs, st) = setup();
    assert_eq!(halt_wrap_orders(&mut gs, authority()), Ok(()));
    let mut t = account(10, maker(), 1_000);
    let mut s = account(11, maker(), 1_000);
    let mut co = account(20, Pubkey { id: 90 }, 0);
    let mut cw = account(21, Pubkey { id: 91 }, 0);
    let r = place_order(
        &gs, &st, maker(), &mut t, &mut s, &mut co, &mut cw, Side::Wrap, 90, 100,
    );
    assert_eq!(
        r,
        Err(EngineError::Token(SecureWrapTokenError::WrapOrdersHalted))
    );
    let r = place_order(
        &gs, &st, maker(), &mut t, &mut s, &mut co, &mut cw, Side::Unwrap, 100, 90,
    );
    assert!(r.is_ok());
}

#[test]
fn fill_order_program_pays_from_custody_and_burns() {
    let (gs, st) = setup();
    let mut m = Mint { supply: 0 };
    let mut a_orig = account(10, maker(), 1_000);
    let mut a_swt = account(11, maker(), 0);
    let mut co = account(20, Pubkey { id: 90 }, 0);
    let mut cw = account(21, Pubkey { id: 91 }, 0);
    assert_eq!(
        wrap(&st, &mut m, &mut a_orig, &mut a_swt, &mut co, maker(), 1_000),
        Ok(())
    );
    let order = place_order(
        &gs, &st, maker(), &mut a_orig, &mut a_swt, &mut co, &mut cw, Side::Unwrap, 1_000, 950,
    )
    .unwrap();
    let mut credit = account(40, authority(), 0);
    let r = fill_order_program(
        &gs,
        &st,
        &order,
        authority(),
        &mut a_orig,
        &a_swt,
        &mut credit,
        &mut co,
        &mut cw,
        &mut m,
        Side::Unwrap,
    );
    assert_eq!(r, Ok(()));
    // The maker got 950 original from custody; the spread of 50 wrapped
    // went to the credited account; 950 wrapped were burned.
    assert_eq!(a_orig.amount, 950);
    assert_eq!(co.amount, 50);
    assert_eq!(credit.amount, 50);
    assert_eq!(cw.amount, 0);
    assert_eq!(m.supply, 50);
    // The supply invariant holds: supply == custody + redistributed.
    assert_eq!(m.supply, co.amount + st.redistributed_token_supply);
}

#[test]
fn fill_order_program_rejects_wrap_side() {
    let (gs, st) = setup();
    let mut m = Mint { supply: 0 };
    let mut t = account(10, maker(), 1_000);
    let mut s = account(11, maker(), 0);
    let mut co = account(20, Pubkey { id: 90 }, 0);
    let mut cw = account(21, Pubkey { id: 91 }, 0);
    let order = place_order(
        &gs, &st, maker(), &mut t, &mut s, &mut co, &mut cw, Side::Wrap, 90, 100,
    )
    .unwrap();
    let mut credit = account(40, authority(), 0);
    let r = fill_order_program(
        &gs,
        &st,
        &order,
        authority(),
        &mut t,
        &s,
        &mut credit,
        &mut co,
        &mut cw,
        &mut m,
        Side::Wrap,
    );
    assert_eq!(
        r,
        Err(EngineError::Token(SecureWrapTokenError::ProgramCannotFillWrapOrders))
    );
}

#[test]
fn cancel_order_returns_escrow() {
    let (gs, st) = setup();
    let mut t = account(10, maker(), 1_000);
    let mut s = account(11, maker(), 1_000);
    let mut co = account(20, Pubkey { id: 90 }, 0);
    let mut cw = account(21, Pubkey { id: 91 }, 0);
    let order = place_order(
        &gs, &st, maker(), &mut t, &mut s, &mut co, &mut cw, Side::Unwrap, 100, 90,
    )
    .unwrap();
    assert_eq!(s.amount, 900);
    let r = cancel_order(&st, &order, maker(), &mut t, &mut s, &mut co, &mut cw, Side::Unwrap);
    assert_eq!(r, Ok(()));
    assert_eq!(s.amount, 1_000);
    assert_eq!(cw.amount, 0);
}

#[test]
fn cancel_order_requires_owner() {
    let (gs, st) = setup();
    let mut t = account(10, maker(), 1_000);
    let mut s = account(11, maker(), 1_000);
    let mut co = account(20, Pubkey { id: 90 }, 0);
    let mut cw = account(21, Pubkey { id: 91 }, 0);
    let order = place_order(
        &gs, &st, maker(), &mut t, &mut s, &mut co, &mut cw, Side::Unwrap, 100, 90,
    )
    .unwrap();
    let r = cancel_order(&st, &order, filler(), &mut t, &mut s, &mut co, &mut cw, Side::Unwrap);
    assert_eq!(r, Err(EngineError::Unauthorized));
    assert_eq!(cw.amount, 100);
}

#[test]
fn program_cancel_order_limited_to_frozen_unwrap_makers() {
    let (gs, st) = setup();
    let mut st = st;
    let mut t = account(10, maker(), 1_000);
    let mut s = account(11, maker(), 1_000);
    let mut co = account(20, Pubkey { id: 90 }, 0);
    let mut cw = account(21, Pubkey { id: 91 }, 0);
    let order = place_order(
        &gs, &st, maker(), &mut t, &mut s, &mut co, &mut cw, Side::Unwrap, 100, 90,
    )
    .unwrap();
    let mut uts = UserTokenState::default();
    uts.initialized = true;
    uts.secure_wrap_token_account = s.key;
    // Not permanently frozen: rejected.
    let r = cancel_order_program(
        &gs,
        &mut st,
        authority(),
        maker(),
        &uts,
        &order,
        &mut s,
        &mut cw,
        Side::Unwrap,
    );
    assert_eq!(
        r,
        Err(EngineError::Token(SecureWrapTokenError::ProgramCancelOrderError))
    );
    // Permanently frozen: the escrow goes back into the frozen account
    // and is captured.
    uts.permanently_frozen = true;
    s.frozen = true;
    let r = cancel_order_program(
        &gs,
        &mut st,
        authority(),
        maker(),
        &uts,
        &order,
        &mut s,
        &mut cw,
        Side::Unwrap,
    );
    assert_eq!(r, Ok(()));
    assert!(s.frozen);
    assert_eq!(s.amount, 1_000);
    assert_eq!(cw.amount, 0);
    assert_eq!(st.permanently_frozen_token_supply, 100);
}
