//! The freeze/thaw lifecycle operations and the frozen-fund
//! redistribution path.
//!
//! The authority freezes a wrapped-token account for a bounded period;
//! anyone may thaw it once the period has passed; the authority may thaw
//! it at once, or freeze it permanently when both of the user's accounts
//! are already frozen.  Funds leave a permanently frozen account only
//! through `redistribute_frozen_funds`, which mints replacement wrapped
//! tokens to a chosen account under a cumulative bound.

use crate::error::{EngineError, SecureWrapTokenError};
use crate::global_state::GlobalState;
use crate::ledger::{check_mint, mint_result, Mint, Pubkey, TokenAccount};
use crate::secure_wrap_token_state::SecureWrapTokenState;
use crate::user_token_state::{
    distribution_result, freeze_result, thaw_result, UserTokenState, MAX_FREEZE_PERIOD_SECONDS,
};
use vstd::prelude::*;

verus! {

/// What a freeze returns: the caller must hold the authority key, an
/// already-bound record must match the account, and the freeze admission
/// (not frozen, three days since last thaw, period within fourteen days,
/// representable thaw time) must pass.
pub open spec fn freeze_op_result(
    gs: GlobalState,
    uts: UserTokenState,
    account: TokenAccount,
    authority: Pubkey,
    freeze_period_seconds: u64,
    now: i64,
) -> Result<(), EngineError> {
    if authority != gs.upgrade_authority {
        Err(EngineError::Unauthorized)
    } else if uts.initialized && uts.secure_wrap_token_account != account.key {
        Err(EngineError::Token(SecureWrapTokenError::InvalidUserTokenStateAccount))
    } else {
        match freeze_result(uts, account, freeze_period_seconds, now) {
            Err(e) => Err(EngineError::Token(e)),
            Ok(()) => Ok(()),
        }
    }
}

/// Freezes a user's wrapped-token account for `freeze_period_seconds`:
/// binds the freeze record on first use, records the thaw-eligible time
/// (each freeze overwrites the previous one), and locks the account on
/// the ledger.  All-or-nothing: a rejected freeze changes nothing.
pub fn freeze(
    global_state: &GlobalState,
    secure_wrap_token_state: &SecureWrapTokenState,
    authority: Pubkey,
    account_to_freeze: &mut TokenAccount,
    user_token_state: &mut UserTokenState,
    now: i64,
    freeze_period_seconds: u64,
) -> (r: Result<(), EngineError>)
    requires
        old(user_token_state).wf(),
        now > 0,
    ensures
        r == freeze_op_result(
            *global_state,
            *old(user_token_state),
            *old(account_to_freeze),
            authority,
            freeze_period_seconds,
            now,
        ),
        r is Ok ==> *final(account_to_freeze) == (TokenAccount {
            frozen: true,
            ..*old(account_to_freeze)
        }),
        r is Ok ==> *final(user_token_state) == (UserTokenState {
            secure_wrap_token_account: old(account_to_freeze).key,
            thaw_eligible_timestamp: (now + freeze_period_seconds) as i64,
            initialized: true,
            ..*old(user_token_state)
        }),
        r is Err ==> *final(account_to_freeze) == *old(account_to_freeze)
            && *final(user_token_state) == *old(user_token_state),
        final(user_token_state).wf(),
        old(user_token_state).permanently_frozen ==> final(user_token_state).permanently_frozen,
{
    if !(authority == global_state.upgrade_authority) {
        return Err(EngineError::Unauthorized);
    }
    if user_token_state.initialized && !(user_token_state.secure_wrap_token_account
        == account_to_freeze.key) {
        return Err(EngineError::Token(SecureWrapTokenError::InvalidUserTokenStateAccount));
    }
    match user_token_state.validate_freeze_eligibility(account_to_freeze, now) {
        Err(e) => return Err(EngineError::Token(e)),
        Ok(()) => {},
    }
    if freeze_period_seconds > MAX_FREEZE_PERIOD_SECONDS {
        return Err(EngineError::Token(SecureWrapTokenError::FreezePeriodMaximumExceeded));
    }
    if now > i64::MAX - (freeze_period_seconds as i64) {
        return Err(EngineError::Token(SecureWrapTokenError::MathOverflow));
    }
    match user_token_state.validate_initialization(account_to_freeze.key) {
        Err(e) => return Err(EngineError::Token(e)),
        Ok(()) => {},
    }
    match user_token_state.freeze(account_to_freeze, freeze_period_seconds, now) {
        Err(e) => return Err(EngineError::Token(e)),
        Ok(()) => {},
    }
    match secure_wrap_token_state.freeze_account(account_to_freeze) {
        Err(e) => return Err(EngineError::Ledger(e)),
        Ok(()) => {},
    }
    Ok(())
}

/// What a thaw or an immediate thaw demands of the record first: an
/// already-bound freeze record must be the one bound to the account.
pub open spec fn record_binding_result(uts: UserTokenState, account: TokenAccount) -> Result<
    (),
    EngineError,
> {
    if uts.initialized && uts.secure_wrap_token_account != account.key {
        Err(EngineError::AccountMismatch)
    } else {
        Ok(())
    }
}

/// What a thaw returns: the record must be bound to the account, and the
/// thaw admission (frozen, not permanently, time elapsed) must pass.
pub open spec fn thaw_op_result(uts: UserTokenState, account: TokenAccount, now: i64) -> Result<
    (),
    EngineError,
> {
    match record_binding_result(uts, account) {
        Err(e) => Err(e),
        Ok(()) => match thaw_result(uts, account, now) {
            Err(e) => Err(EngineError::Token(e)),
            Ok(()) => Ok(()),
        },
    }
}

/// Thaws a frozen account once its thaw-eligible time has passed.
/// Callable by anyone, not only the owner: progression is caller-driven
/// and third-party automation is welcome to submit the thaw.
pub fn thaw(
    secure_wrap_token_state: &SecureWrapTokenState,
    account_to_thaw: &mut TokenAccount,
    user_token_state: &mut UserTokenState,
    now: i64,
) -> (r: Result<(), EngineError>)
    requires
        now > 0,
    ensures
        r == thaw_op_result(*old(user_token_state), *old(account_to_thaw), now),
        r is Ok ==> *final(account_to_thaw) == (TokenAccount {
            frozen: false,
            ..*old(account_to_thaw)
        }),
        r is Ok ==> *final(user_token_state) == (UserTokenState {
            thawed_at_timestamp: now,
            ..*old(user_token_state)
        }),
        r is Err ==> *final(account_to_thaw) == *old(account_to_thaw) && *final(user_token_state)
            == *old(user_token_state),
        old(user_token_state).wf() ==> final(user_token_state).wf(),
        old(user_token_state).permanently_frozen ==> final(user_token_state).permanently_frozen,
{
    if user_token_state.initialized && !(user_token_state.secure_wrap_token_account
        == account_to_thaw.key) {
        return Err(EngineError::AccountMismatch);
    }
    secure_wrap_token_state.thaw_account(account_to_thaw, user_token_state, now)
}

/// What an immediate thaw returns: the caller must hold the authority
/// key, the record must be bound to the account, and the account must be
/// frozen but not permanently so.
pub open spec fn immediate_thaw_result(
    gs: GlobalState,
    uts: UserTokenState,
    account: TokenAccount,
    authority: Pubkey,
) -> Result<(), EngineError> {
    if authority != gs.upgrade_authority {
        Err(EngineError::Unauthorized)
    } else if uts.initialized && uts.secure_wrap_token_account != account.key {
        Err(EngineError::AccountMismatch)
    } else if !account.frozen {
        Err(EngineError::Token(SecureWrapTokenError::InvalidThaw))
    } else if uts.permanently_frozen {
        Err(EngineError::Token(SecureWrapTokenError::AccountPermanentlyFrozen))
    } else {
        Ok(())
    }
}

/// Emergency thaw by the authority: discards the thaw-eligible time and
/// thaws the account at once.  All-or-nothing.
pub fn immediate_thaw(
    global_state: &GlobalState,
    secure_wrap_token_state: &SecureWrapTokenState,
    authority: Pubkey,
    account_to_thaw: &mut TokenAccount,
    user_token_state: &mut UserTokenState,
    now: i64,
) -> (r: Result<(), EngineError>)
    requires
        now > 0,
    ensures
        r == immediate_thaw_result(
            *global_state,
            *old(user_token_state),
            *old(account_to_thaw),
            authority,
        ),
        r is Ok ==> *final(account_to_thaw) == (TokenAccount {
            frozen: false,
            ..*old(account_to_thaw)
        }),
        r is Ok ==> *final(user_token_state) == (UserTokenState {
            thaw_eligible_timestamp: 0,
            thawed_at_timestamp: now,
            ..*old(user_token_state)
        }),
        r is Err ==> *final(account_to_thaw) == *old(account_to_thaw) && *final(user_token_state)
            == *old(user_token_state),
        old(user_token_state).wf() ==> final(user_token_state).wf(),
        old(user_token_state).permanently_frozen ==> final(user_token_state).permanently_frozen,
{
    if !(authority == global_state.upgrade_authority) {
        return Err(EngineError::Unauthorized);
    }
    if user_token_state.initialized && !(user_token_state.secure_wrap_token_account
        == account_to_thaw.key) {
        return Err(EngineError::AccountMismatch);
    }
    match user_token_state.immediate_thaw(account_to_thaw) {
        Err(e) => return Err(EngineError::Token(e)),
        Ok(()) => {},
    }
    secure_wrap_token_state.thaw_account(account_to_thaw, user_token_state, now)
}

/// What a permanent freeze returns: the caller must hold the authority
/// key, the record must be bound to the account, the original-asset
/// account must belong to the same owner, the captured-supply counter
/// must stay representable, and both the wrapped and the original token
/// account must already be frozen.
pub open spec fn permanent_freeze_result(
    gs: GlobalState,
    st: SecureWrapTokenState,
    uts: UserTokenState,
    original_token_account: TokenAccount,
    account_to_freeze: TokenAccount,
    authority: Pubkey,
) -> Result<(), EngineError> {
    if authority != gs.upgrade_authority {
        Err(EngineError::Unauthorized)
    } else if uts.secure_wrap_token_account != account_to_freeze.key
        || original_token_account.owner != account_to_freeze.owner {
        Err(EngineError::AccountMismatch)
    } else if st.permanently_frozen_token_supply + account_to_freeze.amount > u64::MAX {
        Err(EngineError::Token(SecureWrapTokenError::MathOverflow))
    } else if !(account_to_freeze.frozen && original_token_account.frozen) {
        Err(EngineError::Token(SecureWrapTokenError::InvalidPermanentFreeze))
    } else {
        Ok(())
    }
}

/// Permanently freezes a user: marks the record irreversibly and captures
/// the account's current wrapped balance into the permanently-frozen
/// supply counter.  Requires both of the user's accounts to already be
/// ledger-frozen.  All-or-nothing.
pub fn permanent_freeze(
    global_state: &GlobalState,
    secure_wrap_token_state: &mut SecureWrapTokenState,
    authority: Pubkey,
    original_token_account: &TokenAccount,
    account_to_freeze: &TokenAccount,
    user_token_state: &mut UserTokenState,
) -> (r: Result<(), EngineError>)
    ensures
        r == permanent_freeze_result(
            *global_state,
            *old(secure_wrap_token_state),
            *old(user_token_state),
            *original_token_account,
            *account_to_freeze,
            authority,
        ),
        r is Ok ==> *final(secure_wrap_token_state) == (SecureWrapTokenState {
            permanently_frozen_token_supply: (old(secure_wrap_token_state).permanently_frozen_token_supply + account_to_freeze.amount) as u64,
            ..*old(secure_wrap_token_state)
        }),
        r is Ok ==> *final(user_token_state) == (UserTokenState {
            permanently_frozen: true,
            ..*old(user_token_state)
        }),
        r is Err ==> *final(secure_wrap_token_state) == *old(secure_wrap_token_state)
            && *final(user_token_state) == *old(user_token_state),
        old(user_token_state).permanently_frozen ==> final(user_token_state).permanently_frozen,
        // Redistributed supply never overtakes permanently frozen supply.
        old(secure_wrap_token_state).redistributed_token_supply <= old(secure_wrap_token_state).permanently_frozen_token_supply ==> final(secure_wrap_token_state).redistributed_token_supply <= final(secure_wrap_token_state).permanently_frozen_token_supply,
{
    if !(authority == global_state.upgrade_authority) {
        return Err(EngineError::Unauthorized);
    }
    if !(user_token_state.secure_wrap_token_account == account_to_freeze.key) || !(
    original_token_account.owner == account_to_freeze.owner) {
        return Err(EngineError::AccountMismatch);
    }
    if secure_wrap_token_state.permanently_frozen_token_supply > u64::MAX
        - account_to_freeze.amount {
        return Err(EngineError::Token(SecureWrapTokenError::MathOverflow));
    }
    if !(account_to_freeze.frozen && original_token_account.frozen) {
        return Err(EngineError::Token(SecureWrapTokenError::InvalidPermanentFreeze));
    }
    match secure_wrap_token_state.add_permanently_frozen_tokens(account_to_freeze.amount) {
        Err(e) => return Err(EngineError::Token(e)),
        Ok(()) => {},
    }
    match user_token_state.permanent_freeze(original_token_account, account_to_freeze) {
        Err(e) => return Err(EngineError::Token(e)),
        Ok(()) => {},
    }
    Ok(())
}

/// What a redistribution returns: the caller must hold the authority key,
/// the record must be bound to the frozen account, the amount must be
/// non-zero, the per-user cumulative bound must admit it, the
/// redistributed counter must stay representable, and the replacement
/// mint must go through.
pub open spec fn redistribute_result(
    gs: GlobalState,
    st: SecureWrapTokenState,
    uts: UserTokenState,
    permanently_frozen_account: TokenAccount,
    receiving_account: TokenAccount,
    secure_wrap_token_mint: Mint,
    authority: Pubkey,
    amount: u64,
) -> Result<(), EngineError> {
    if authority != gs.upgrade_authority {
        Err(EngineError::Unauthorized)
    } else if uts.secure_wrap_token_account != permanently_frozen_account.key {
        Err(EngineError::AccountMismatch)
    } else if amount == 0 {
        Err(EngineError::Token(SecureWrapTokenError::InvalidTokenAmount))
    } else {
        match distribution_result(uts, permanently_frozen_account, amount) {
            Err(e) => Err(EngineError::Token(e)),
            Ok(()) => if st.redistributed_token_supply + amount > u64::MAX {
                Err(EngineError::Token(SecureWrapTokenError::MathOverflow))
            } else {
                match mint_result(secure_wrap_token_mint, receiving_account, amount) {
                    Err(e) => Err(EngineError::Ledger(e)),
                    Ok(()) => Ok(()),
                }
            },
        }
    }
}

/// Redistributes `amount` out of a permanently frozen account: records it
/// against the per-user cumulative bound, adds it to the redistributed
/// supply, and mints an equal amount of wrapped asset to the receiving
/// account — a controlled economic transfer that never thaws the frozen
/// account.  All-or-nothing.
pub fn redistribute_frozen_funds(
    global_state: &GlobalState,
    secure_wrap_token_state: &mut SecureWrapTokenState,
    authority: Pubkey,
    user_token_state: &mut UserTokenState,
    permanently_frozen_account: &TokenAccount,
    receiving_account: &mut TokenAccount,
    secure_wrap_token_mint: &mut Mint,
    amount: u64,
) -> (r: Result<(), EngineError>)
    ensures
        r == redistribute_result(
            *global_state,
            *old(secure_wrap_token_state),
            *old(user_token_state),
            *permanently_frozen_account,
            *old(receiving_account),
            *old(secure_wrap_token_mint),
            authority,
            amount,
        ),
        r is Ok ==> *final(user_token_state) == (UserTokenState {
            distribute_frozen_funds: (old(user_token_state).distribute_frozen_funds
                + amount) as u64,
            ..*old(user_token_state)
        }),
        r is Ok ==> *final(secure_wrap_token_state) == (SecureWrapTokenState {
            redistributed_token_supply: (old(secure_wrap_token_state).redistributed_token_supply
                + amount) as u64,
            ..*old(secure_wrap_token_state)
        }),
        r is Ok ==> final(secure_wrap_token_mint).supply == old(secure_wrap_token_mint).supply
            + amount,
        r is Ok ==> *final(receiving_account) == (TokenAccount {
            amount: (old(receiving_account).amount + amount) as u64,
            ..*old(receiving_account)
        }),
        r is Err ==> *final(secure_wrap_token_state) == *old(secure_wrap_token_state)
            && *final(user_token_state) == *old(user_token_state)
            && *final(receiving_account) == *old(receiving_account)
            && *final(secure_wrap_token_mint) == *old(secure_wrap_token_mint),
        old(user_token_state).permanently_frozen ==> final(user_token_state).permanently_frozen,
        // The newly minted supply is matched by the redistributed counter.
        r is Ok ==> final(secure_wrap_token_mint).supply - final(secure_wrap_token_state).redistributed_token_supply == old(secure_wrap_token_mint).supply - old(secure_wrap_token_state).redistributed_token_supply,
        // Redistributed supply never overtakes permanently frozen supply:
        // the per-user bound keeps the global counters ordered.
        (r is Ok && old(secure_wrap_token_state).redistributed_token_supply == old(user_token_state).distribute_frozen_funds && permanently_frozen_account.amount <= old(secure_wrap_token_state).permanently_frozen_token_supply) ==> final(secure_wrap_token_state).redistributed_token_supply <= final(secure_wrap_token_state).permanently_frozen_token_supply,
{
    if !(authority == global_state.upgrade_authority) {
        return Err(EngineError::Unauthorized);
    }
    if !(user_token_state.secure_wrap_token_account == permanently_frozen_account.key) {
        return Err(EngineError::AccountMismatch);
    }
    if amount == 0 {
        return Err(EngineError::Token(SecureWrapTokenError::InvalidTokenAmount));
    }
    // The whole admission runs before the first mutation, so that a
    // rejected operation changes nothing.
    if !(user_token_state.permanently_frozen && permanently_frozen_account.frozen) {
        return Err(EngineError::Token(SecureWrapTokenError::InvalidFrozenFundDistribution));
    }
    if user_token_state.distribute_frozen_funds > u64::MAX - amount {
        return Err(EngineError::Token(SecureWrapTokenError::MathOverflow));
    }
    if user_token_state.distribute_frozen_funds + amount > permanently_frozen_account.amount {
        return Err(EngineError::Token(SecureWrapTokenError::FrozenFundDistributionExceeded));
    }
    if secure_wrap_token_state.redistributed_token_supply > u64::MAX - amount {
        return Err(EngineError::Token(SecureWrapTokenError::MathOverflow));
    }
    match check_mint(secure_wrap_token_mint, receiving_account, amount) {
        Err(e) => return Err(EngineError::Ledger(e)),
        Ok(()) => {},
    }
    match user_token_state.record_frozen_fund_distribution(permanently_frozen_account, amount) {
        Err(e) => return Err(EngineError::Token(e)),
        Ok(()) => {},
    }
    match secure_wrap_token_state.add_redistributed_tokens(amount) {
        Err(e) => return Err(EngineError::Token(e)),
        Ok(()) => {},
    }
    match secure_wrap_token_state.mint_wrapped_token(secure_wrap_token_mint, receiving_account,
        amount) {
        Err(e) => return Err(EngineError::Ledger(e)),
        Ok(()) => {},
    }
    Ok(())
}

} // verus!
