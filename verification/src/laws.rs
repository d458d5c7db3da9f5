//! The engine's cross-cutting laws, stated and proved against the same
//! spec functions that the operations' own contracts use.
//!
//! Laws about a single operation stand as `ensures` clauses on that
//! operation; this module holds the laws that relate several operations
//! or span a whole exchange of calls.

use crate::error::{EngineError, SecureWrapTokenError};
use crate::freeze::{freeze_op_result, immediate_thaw_result, thaw_op_result};
use crate::global_state::GlobalState;
use crate::ledger::{Mint, Pubkey, TokenAccount};
use crate::order::{order_params_result, Side};
use crate::pending_unwrap::PendingUnwrap;
use crate::secure_wrap_token_state::SecureWrapTokenState;
use crate::unwrap::{release_unwrap_result, unwrap_result};
use crate::user_token_state::{
    distribution_result, freeze_result, thaw_result, UserTokenState, THREE_DAYS_SECONDS,
};
use crate::wrap::wrap_result;
use vstd::prelude::*;

verus! {

/// The supply invariant of a mint pair: every outstanding wrapped token
/// is backed one-for-one by original asset held in custody, except for
/// the tokens minted again as redistribution out of permanently frozen
/// accounts.  It holds between operations whenever no wrap-side order is
/// open: such an order parks its original-asset escrow in the same
/// custody account from placement until its fill or cancellation takes
/// the escrow out again (`lemma_wrap_order_escrow_round_trip`).
pub open spec fn supply_backed(
    secure_wrap_token_mint: Mint,
    program_original_token_account: TokenAccount,
    st: SecureWrapTokenState,
) -> bool {
    secure_wrap_token_mint.supply == program_original_token_account.amount
        + st.redistributed_token_supply
}

/// The counter invariant of a mint pair: redistributed supply never
/// exceeds the supply captured in permanently frozen accounts.
pub open spec fn counters_ordered(st: SecureWrapTokenState) -> bool {
    st.redistributed_token_supply <= st.permanently_frozen_token_supply
}

/// A wrap preserves the supply invariant: it adds the same amount to the
/// wrapped supply and to the custody balance.
pub proof fn lemma_wrap_preserves_supply_backed(
    pre_mint: Mint,
    post_mint: Mint,
    pre_custody: TokenAccount,
    post_custody: TokenAccount,
    st: SecureWrapTokenState,
    amount: u64,
)
    requires
        post_mint.supply == pre_mint.supply + amount,
        post_custody.amount == pre_custody.amount + amount,
        supply_backed(pre_mint, pre_custody, st),
    ensures
        supply_backed(post_mint, post_custody, st),
{
}

/// A release (and equally a program fill) preserves the supply
/// invariant: it burns exactly as much wrapped supply as original asset
/// leaves custody.
pub proof fn lemma_release_preserves_supply_backed(
    pre_mint: Mint,
    post_mint: Mint,
    pre_custody: TokenAccount,
    post_custody: TokenAccount,
    st: SecureWrapTokenState,
    amount: u64,
)
    requires
        post_mint.supply == pre_mint.supply - amount,
        post_custody.amount == pre_custody.amount - amount,
        supply_backed(pre_mint, pre_custody, st),
    ensures
        supply_backed(post_mint, post_custody, st),
{
}

/// A redistribution preserves both invariants: the newly minted supply
/// is matched by the redistributed counter, and the per-user cumulative
/// bound keeps that counter below the captured supply.  The two linking
/// hypotheses — the counter agrees with the user's record, and the
/// frozen balance is covered by the captured supply — hold of every
/// state reached through `permanent_freeze` and the engine's own
/// operations on a pair with one permanently frozen user.
pub proof fn lemma_redistribute_preserves_supply_invariant(
    pre_mint: Mint,
    post_mint: Mint,
    custody: TokenAccount,
    pre_st: SecureWrapTokenState,
    post_st: SecureWrapTokenState,
    pre_uts: UserTokenState,
    post_uts: UserTokenState,
    frozen_account: TokenAccount,
    amount: u64,
)
    requires
        distribution_result(pre_uts, frozen_account, amount) is Ok,
        post_uts == (UserTokenState {
            distribute_frozen_funds: (pre_uts.distribute_frozen_funds + amount) as u64,
            ..pre_uts
        }),
        post_st == (SecureWrapTokenState {
            redistributed_token_supply: (pre_st.redistributed_token_supply + amount) as u64,
            ..pre_st
        }),
        post_mint.supply == pre_mint.supply + amount,
        supply_backed(pre_mint, custody, pre_st),
        counters_ordered(pre_st),
        pre_st.redistributed_token_supply == pre_uts.distribute_frozen_funds,
        frozen_account.amount <= pre_st.permanently_frozen_token_supply,
    ensures
        supply_backed(post_mint, custody, post_st),
        counters_ordered(post_st),
        post_st.redistributed_token_supply == post_uts.distribute_frozen_funds,
{
}

/// Capturing supply (a permanent freeze, or the compound send into a
/// frozen account) only grows the permanently-frozen counter, so the
/// counter invariant is preserved.
pub proof fn lemma_capture_preserves_counters_ordered(
    pre_st: SecureWrapTokenState,
    post_st: SecureWrapTokenState,
    captured: u64,
)
    requires
        post_st == (SecureWrapTokenState {
            permanently_frozen_token_supply: (pre_st.permanently_frozen_token_supply
                + captured) as u64,
            ..pre_st
        }),
        pre_st.permanently_frozen_token_supply + captured <= u64::MAX,
        counters_ordered(pre_st),
    ensures
        counters_ordered(post_st),
{
}

/// A wrap-side order's escrow leaves the supply invariant where it found
/// it: placement parks `amount_in` of original asset in custody, and the
/// fill or cancellation that destroys the order releases the same amount,
/// so the backing relation that held before the placement holds again
/// after the settlement.
pub proof fn lemma_wrap_order_escrow_round_trip(
    m: Mint,
    pre_custody: TokenAccount,
    escrowed_custody: TokenAccount,
    post_custody: TokenAccount,
    st: SecureWrapTokenState,
    amount_in: u64,
)
    requires
        escrowed_custody.amount == pre_custody.amount + amount_in,
        post_custody.amount == escrowed_custody.amount - amount_in,
        supply_backed(m, pre_custody, st),
    ensures
        supply_backed(m, post_custody, st),
{
}

/// Round trip: a wrap of `amount`, an unwrap request of the same amount,
/// and the release of the resulting pending record return every balance
/// — the user's two accounts, both custody accounts and the wrapped
/// supply — to its pre-wrap value.  One-for-one, no fee.
pub proof fn lemma_wrap_unwrap_release_round_trip(
    gs: GlobalState,
    st: SecureWrapTokenState,
    owner: Pubkey,
    amount: u64,
    now1: i64,
    now2: i64,
    t0: TokenAccount,
    s0: TokenAccount,
    m0: Mint,
    co0: TokenAccount,
    cw0: TokenAccount,
    t1: TokenAccount,
    s1: TokenAccount,
    m1: Mint,
    co1: TokenAccount,
    s2: TokenAccount,
    cw2: TokenAccount,
    pending: PendingUnwrap,
    t3: TokenAccount,
    m3: Mint,
    co3: TokenAccount,
    cw3: TokenAccount,
)
    requires
        // The wrap ran to completion ...
        wrap_result(owner, m0, t0, s0, co0, amount) is Ok,
        t1 == (TokenAccount { amount: (t0.amount - amount) as u64, ..t0 }),
        co1 == (TokenAccount { amount: (co0.amount + amount) as u64, ..co0 }),
        m1.supply == m0.supply + amount,
        s1 == (TokenAccount { amount: (s0.amount + amount) as u64, ..s0 }),
        // ... then the unwrap request ...
        unwrap_result(gs, st, owner, t1, s1, cw0, now1, amount) == Ok::<
            PendingUnwrap,
            EngineError,
        >(pending),
        s2 == (TokenAccount { amount: (s1.amount - amount) as u64, ..s1 }),
        cw2 == (TokenAccount { amount: (cw0.amount + amount) as u64, ..cw0 }),
        // ... then the release of the pending record.
        release_unwrap_result(gs, pending, owner, m1, t1, s2, co1, cw2, now2) is Ok,
        m3.supply == m1.supply - pending.amount,
        cw3 == (TokenAccount { amount: (cw2.amount - pending.amount) as u64, ..cw2 }),
        co3 == (TokenAccount { amount: (co1.amount - pending.amount) as u64, ..co1 }),
        t3 == (TokenAccount { amount: (t1.amount + pending.amount) as u64, ..t1 }),
    ensures
        pending.amount == amount,
        t3.amount == t0.amount,
        s2.amount == s0.amount,
        m3.supply == m0.supply,
        co3.amount == co0.amount,
        cw3.amount == cw0.amount,
{
}

/// Permanent freeze is terminal: against a permanently frozen record
/// whose account is ledger-frozen, `freeze`, `thaw` and `immediate_thaw`
/// all fail, whoever calls them.  That no operation ever resets the flag
/// is stated on each mutating operation: every one of them ensures
/// `old(..).permanently_frozen ==> final(..).permanently_frozen`.
pub proof fn lemma_permanently_frozen_is_terminal(
    gs: GlobalState,
    uts: UserTokenState,
    account: TokenAccount,
    authority: Pubkey,
    freeze_period_seconds: u64,
    now: i64,
)
    requires
        uts.permanently_frozen,
        account.frozen,
    ensures
        freeze_op_result(gs, uts, account, authority, freeze_period_seconds, now) is Err,
        thaw_result(uts, account, now) == Err::<(), SecureWrapTokenError>(
            SecureWrapTokenError::AccountPermanentlyFrozen,
        ),
        thaw_op_result(uts, account, now) is Err,
        immediate_thaw_result(gs, uts, account, authority) is Err,
{
}

/// Thaw time boundary: with the account frozen and not permanently so,
/// a thaw at exactly the thaw-eligible time succeeds, and one a second
/// earlier fails as premature.
pub proof fn lemma_thaw_time_boundary(uts: UserTokenState, account: TokenAccount)
    requires
        account.frozen,
        !uts.permanently_frozen,
        uts.wf(),
    ensures
        thaw_result(uts, account, uts.thaw_eligible_timestamp) is Ok,
        uts.thaw_eligible_timestamp > 0 ==> thaw_result(
            uts,
            account,
            (uts.thaw_eligible_timestamp - 1) as i64,
        ) == Err::<(), SecureWrapTokenError>(SecureWrapTokenError::PrematureThaw),
{
}

/// Freeze re-eligibility boundary: with the account unfrozen and the
/// period within bounds, a freeze exactly three days after the last
/// thaw succeeds, and one a second earlier is ineligible.
pub proof fn lemma_freeze_eligibility_boundary(
    uts: UserTokenState,
    account: TokenAccount,
    freeze_period_seconds: u64,
)
    requires
        !account.frozen,
        uts.wf(),
        freeze_period_seconds <= crate::user_token_state::MAX_FREEZE_PERIOD_SECONDS,
        uts.thawed_at_timestamp + THREE_DAYS_SECONDS + freeze_period_seconds <= i64::MAX,
    ensures
        freeze_result(
            uts,
            account,
            freeze_period_seconds,
            (uts.thawed_at_timestamp + THREE_DAYS_SECONDS) as i64,
        ) is Ok,
        freeze_result(
            uts,
            account,
            freeze_period_seconds,
            (uts.thawed_at_timestamp + THREE_DAYS_SECONDS - 1) as i64,
        ) == Err::<(), SecureWrapTokenError>(SecureWrapTokenError::IneligibleFreezeError),
{
}

/// Order discount law: an unwrap order is admitted exactly when it gives
/// more wrapped than it asks original, a wrap order exactly when it asks
/// more wrapped than it gives original; the reversed inequality is
/// rejected as an invalid order amount.
pub proof fn lemma_order_discount_direction(amount_in: u64, amount_out: u64)
    requires
        amount_in > 0,
        amount_out > 0,
    ensures
        order_params_result(Side::Unwrap, amount_in, amount_out) is Ok <==> amount_in
            > amount_out,
        amount_in <= amount_out ==> order_params_result(Side::Unwrap, amount_in, amount_out)
            == Err::<(), SecureWrapTokenError>(SecureWrapTokenError::InvalidOrderAmount),
        order_params_result(Side::Wrap, amount_in, amount_out) is Ok <==> amount_out > amount_in,
        amount_out <= amount_in ==> order_params_result(Side::Wrap, amount_in, amount_out)
            == Err::<(), SecureWrapTokenError>(SecureWrapTokenError::InvalidOrderAmount),
{
}

/// Halt law: with `unwrap_allowed` false, a request and a release both
/// fail with the halt error, however the accounts stand.  The owner's
/// cancellation ignores the switch: `cancel_unwrap_result` does not even
/// take the global configuration.
pub proof fn lemma_unwrap_halt_gates(
    gs: GlobalState,
    st: SecureWrapTokenState,
    pending: PendingUnwrap,
    owner: Pubkey,
    m: Mint,
    token_account: TokenAccount,
    secure_wrap_token_account: TokenAccount,
    co: TokenAccount,
    cw: TokenAccount,
    now: i64,
    amount: u64,
)
    requires
        !gs.unwrap_allowed,
        amount != 0,
        token_account.owner == owner,
        secure_wrap_token_account.owner == owner,
        pending.owner == owner,
        token_account.key == pending.token_account,
        secure_wrap_token_account.key == pending.secure_wrap_token_account,
    ensures
        unwrap_result(gs, st, owner, token_account, secure_wrap_token_account, cw, now, amount)
            == Err::<PendingUnwrap, EngineError>(
            EngineError::Token(SecureWrapTokenError::UnwrapHalted),
        ),
        release_unwrap_result(
            gs,
            pending,
            owner,
            m,
            token_account,
            secure_wrap_token_account,
            co,
            cw,
            now,
        ) == Err::<(), EngineError>(EngineError::Token(SecureWrapTokenError::UnwrapHalted)),
{
}

} // verus!
