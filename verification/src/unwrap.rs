//! The time-delayed unwrap queue: request, release, and the two
//! cancellation paths.
//!
//! An unwrap request escrows the wrapped amount and creates a single-slot
//! pending record whose release time snapshots the global delay.  The
//! release burns the escrow and returns an equal amount of original asset;
//! either cancellation returns the escrowed wrapped asset instead.

use crate::error::{EngineError, SecureWrapTokenError};
use crate::global_state::GlobalState;
use crate::ledger::{
    burn_result, check_burn, check_transfer, transfer_result, transfer_tokens, Mint, Pubkey,
    TokenAccount,
};
use crate::pending_unwrap::{release_check_result, PendingUnwrap};
use crate::secure_wrap_token_state::{send_to_frozen_result, SecureWrapTokenState};
use crate::user_token_state::UserTokenState;
use vstd::prelude::*;

verus! {

/// What an unwrap request of `amount` returns: the caller must own both
/// accounts, the amount must be non-zero, the unwrap gate must be open,
/// the release time must stay representable, and the escrow transfer must
/// go through.  On success, the single-slot pending record it creates.
pub open spec fn unwrap_result(
    gs: GlobalState,
    st: SecureWrapTokenState,
    owner: Pubkey,
    token_account: TokenAccount,
    secure_wrap_token_account: TokenAccount,
    program_wrapped_token_account: TokenAccount,
    now: i64,
    amount: u64,
) -> Result<PendingUnwrap, EngineError> {
    if token_account.owner != owner || secure_wrap_token_account.owner != owner {
        Err(EngineError::AccountMismatch)
    } else if amount == 0 {
        Err(EngineError::Token(SecureWrapTokenError::InvalidTokenAmount))
    } else if !gs.unwrap_allowed {
        Err(EngineError::Token(SecureWrapTokenError::UnwrapHalted))
    } else if now + gs.unwrap_delay_seconds > i64::MAX {
        Err(EngineError::Token(SecureWrapTokenError::MathOverflow))
    } else {
        match transfer_result(secure_wrap_token_account, program_wrapped_token_account, amount) {
            Err(e) => Err(EngineError::Ledger(e)),
            Ok(()) => Ok(
                PendingUnwrap {
                    owner,
                    secure_wrap_token_mint: st.secure_wrap_token_mint,
                    secure_wrap_token_account: secure_wrap_token_account.key,
                    token_account: token_account.key,
                    release_timestamp: (now + gs.unwrap_delay_seconds) as i64,
                    amount,
                    initialized: true,
                },
            ),
        }
    }
}

/// Requests an unwrap of `amount`: escrows the caller's wrapped tokens
/// under program custody and returns the pending record to store.  The
/// storage layer keeps at most one such record live per mint pair and
/// user.  All-or-nothing: a rejected request moves nothing.
pub fn unwrap(
    global_state: &GlobalState,
    secure_wrap_token_state: &SecureWrapTokenState,
    owner: Pubkey,
    token_account: &TokenAccount,
    secure_wrap_token_account: &mut TokenAccount,
    program_wrapped_token_account: &mut TokenAccount,
    now: i64,
    amount: u64,
) -> (r: Result<PendingUnwrap, EngineError>)
    requires
        global_state.wf(),
        now > 0,
    ensures
        r == unwrap_result(
            *global_state,
            *secure_wrap_token_state,
            owner,
            *token_account,
            *old(secure_wrap_token_account),
            *old(program_wrapped_token_account),
            now,
            amount,
        ),
        r is Ok ==> *final(secure_wrap_token_account) == (TokenAccount {
            amount: (old(secure_wrap_token_account).amount - amount) as u64,
            ..*old(secure_wrap_token_account)
        }),
        r is Ok ==> *final(program_wrapped_token_account) == (TokenAccount {
            amount: (old(program_wrapped_token_account).amount + amount) as u64,
            ..*old(program_wrapped_token_account)
        }),
        r is Err ==> *final(secure_wrap_token_account) == *old(secure_wrap_token_account)
            && *final(program_wrapped_token_account) == *old(program_wrapped_token_account),
{
    if !(token_account.owner == owner) || !(secure_wrap_token_account.owner == owner) {
        return Err(EngineError::AccountMismatch);
    }
    if amount == 0 {
        return Err(EngineError::Token(SecureWrapTokenError::InvalidTokenAmount));
    }
    match global_state.validate_unwrap_allowed() {
        Err(e) => return Err(EngineError::Token(e)),
        Ok(()) => {},
    }
    let release_timestamp = match global_state.compute_unwrap_release_timestamp(now) {
        Err(e) => return Err(EngineError::Token(e)),
        Ok(t) => t,
    };
    // Transfer the user's wrapped tokens into escrow.
    match transfer_tokens(secure_wrap_token_account, program_wrapped_token_account, amount) {
        Err(e) => return Err(EngineError::Ledger(e)),
        Ok(()) => {},
    }
    let mut pending_unwrap = PendingUnwrap::default();
    pending_unwrap.initialize(
        owner,
        secure_wrap_token_state.secure_wrap_token_mint,
        secure_wrap_token_account.key,
        token_account.key,
        release_timestamp,
        amount,
    );
    Ok(pending_unwrap)
}

/// What a release returns: the caller must be the pending record's owner
/// and supply its bound accounts, the unwrap gate must be open, the
/// record's own admission (no frozen account, time elapsed) must pass,
/// and the burn and payout must go through.
pub open spec fn release_unwrap_result(
    gs: GlobalState,
    pending: PendingUnwrap,
    owner: Pubkey,
    secure_wrap_token_mint: Mint,
    token_account: TokenAccount,
    secure_wrap_token_account: TokenAccount,
    program_original_token_account: TokenAccount,
    program_wrapped_token_account: TokenAccount,
    now: i64,
) -> Result<(), EngineError> {
    if pending.owner != owner {
        Err(EngineError::Unauthorized)
    } else if token_account.key != pending.token_account || secure_wrap_token_account.key
        != pending.secure_wrap_token_account || token_account.owner != owner
        || secure_wrap_token_account.owner != owner {
        Err(EngineError::AccountMismatch)
    } else if !gs.unwrap_allowed {
        Err(EngineError::Token(SecureWrapTokenError::UnwrapHalted))
    } else {
        match release_check_result(pending, token_account, secure_wrap_token_account, now) {
            Err(e) => Err(EngineError::Token(e)),
            Ok(()) => match burn_result(
                secure_wrap_token_mint,
                program_wrapped_token_account,
                pending.amount,
            ) {
                Err(e) => Err(EngineError::Ledger(e)),
                Ok(()) => match transfer_result(
                    program_original_token_account,
                    token_account,
                    pending.amount,
                ) {
                    Err(e) => Err(EngineError::Ledger(e)),
                    Ok(()) => Ok(()),
                },
            },
        }
    }
}

/// Releases a pending unwrap after its delay: burns the escrowed wrapped
/// amount and sends an equal amount of original asset from custody back
/// to the user.  On success the caller destroys the pending record.
/// All-or-nothing: a rejected release moves nothing.
pub fn release_unwrap(
    global_state: &GlobalState,
    secure_wrap_token_state: &SecureWrapTokenState,
    pending_unwrap: &PendingUnwrap,
    owner: Pubkey,
    secure_wrap_token_mint: &mut Mint,
    token_account: &mut TokenAccount,
    secure_wrap_token_account: &TokenAccount,
    program_original_token_account: &mut TokenAccount,
    program_wrapped_token_account: &mut TokenAccount,
    now: i64,
) -> (r: Result<(), EngineError>)
    ensures
        r == release_unwrap_result(
            *global_state,
            *pending_unwrap,
            owner,
            *old(secure_wrap_token_mint),
            *old(token_account),
            *secure_wrap_token_account,
            *old(program_original_token_account),
            *old(program_wrapped_token_account),
            now,
        ),
        r is Ok ==> final(secure_wrap_token_mint).supply == old(secure_wrap_token_mint).supply
            - pending_unwrap.amount,
        r is Ok ==> *final(program_wrapped_token_account) == (TokenAccount {
            amount: (old(program_wrapped_token_account).amount - pending_unwrap.amount) as u64,
            ..*old(program_wrapped_token_account)
        }),
        r is Ok ==> *final(program_original_token_account) == (TokenAccount {
            amount: (old(program_original_token_account).amount - pending_unwrap.amount) as u64,
            ..*old(program_original_token_account)
        }),
        r is Ok ==> *final(token_account) == (TokenAccount {
            amount: (old(token_account).amount + pending_unwrap.amount) as u64,
            ..*old(token_account)
        }),
        r is Err ==> *final(secure_wrap_token_mint) == *old(secure_wrap_token_mint)
            && *final(token_account) == *old(token_account)
            && *final(program_original_token_account) == *old(program_original_token_account)
            && *final(program_wrapped_token_account) == *old(program_wrapped_token_account),
        // The supply stays backed: burned wrapped equals released original.
        r is Ok ==> final(secure_wrap_token_mint).supply
            - final(program_original_token_account).amount
            == old(secure_wrap_token_mint).supply - old(program_original_token_account).amount,
{
    if !(pending_unwrap.owner == owner) {
        return Err(EngineError::Unauthorized);
    }
    if !(token_account.key == pending_unwrap.token_account) || !(secure_wrap_token_account.key
        == pending_unwrap.secure_wrap_token_account) || !(token_account.owner == owner) || !(
    secure_wrap_token_account.owner == owner) {
        return Err(EngineError::AccountMismatch);
    }
    match global_state.validate_unwrap_allowed() {
        Err(e) => return Err(EngineError::Token(e)),
        Ok(()) => {},
    }
    match pending_unwrap.validate_release(token_account, secure_wrap_token_account, now) {
        Err(e) => return Err(EngineError::Token(e)),
        Ok(()) => {},
    }
    match check_burn(secure_wrap_token_mint, program_wrapped_token_account, pending_unwrap.amount) {
        Err(e) => return Err(EngineError::Ledger(e)),
        Ok(()) => {},
    }
    match check_transfer(program_original_token_account, token_account, pending_unwrap.amount) {
        Err(e) => return Err(EngineError::Ledger(e)),
        Ok(()) => {},
    }
    // Burn the released amount out of the wrapped escrow.
    match secure_wrap_token_state.burn_wrapped_token(
        secure_wrap_token_mint,
        program_wrapped_token_account,
        pending_unwrap.amount,
    ) {
        Err(e) => return Err(EngineError::Ledger(e)),
        Ok(()) => {},
    }
    // Release the original tokens back to the user.
    match secure_wrap_token_state.send_original_token(
        token_account,
        program_original_token_account,
        pending_unwrap.amount,
    ) {
        Err(e) => return Err(EngineError::Ledger(e)),
        Ok(()) => {},
    }
    Ok(())
}

/// What an owner cancellation returns: the caller must be the record's
/// owner and supply its bound wrapped account, and the escrow refund must
/// go through.  Cancellation is not gated by the unwrap halt switch.
pub open spec fn cancel_unwrap_result(
    pending: PendingUnwrap,
    owner: Pubkey,
    secure_wrap_token_account: TokenAccount,
    program_wrapped_token_account: TokenAccount,
) -> Result<(), EngineError> {
    if pending.owner != owner {
        Err(EngineError::Unauthorized)
    } else if secure_wrap_token_account.key != pending.secure_wrap_token_account
        || secure_wrap_token_account.owner != owner {
        Err(EngineError::AccountMismatch)
    } else {
        match transfer_result(
            program_wrapped_token_account,
            secure_wrap_token_account,
            pending.amount,
        ) {
            Err(e) => Err(EngineError::Ledger(e)),
            Ok(()) => Ok(()),
        }
    }
}

/// Cancels the caller's own pending unwrap: returns the escrowed wrapped
/// tokens.  On success the caller destroys the pending record.
pub fn cancel_unwrap(
    secure_wrap_token_state: &SecureWrapTokenState,
    pending_unwrap: &PendingUnwrap,
    owner: Pubkey,
    secure_wrap_token_account: &mut TokenAccount,
    program_wrapped_token_account: &mut TokenAccount,
) -> (r: Result<(), EngineError>)
    ensures
        r == cancel_unwrap_result(
            *pending_unwrap,
            owner,
            *old(secure_wrap_token_account),
            *old(program_wrapped_token_account),
        ),
        r is Ok ==> *final(program_wrapped_token_account) == (TokenAccount {
            amount: (old(program_wrapped_token_account).amount - pending_unwrap.amount) as u64,
            ..*old(program_wrapped_token_account)
        }),
        r is Ok ==> *final(secure_wrap_token_account) == (TokenAccount {
            amount: (old(secure_wrap_token_account).amount + pending_unwrap.amount) as u64,
            ..*old(secure_wrap_token_account)
        }),
        r is Err ==> *final(secure_wrap_token_account) == *old(secure_wrap_token_account)
            && *final(program_wrapped_token_account) == *old(program_wrapped_token_account),
{
    if !(pending_unwrap.owner == owner) {
        return Err(EngineError::Unauthorized);
    }
    if !(secure_wrap_token_account.key == pending_unwrap.secure_wrap_token_account) || !(
    secure_wrap_token_account.owner == owner) {
        return Err(EngineError::AccountMismatch);
    }
    match secure_wrap_token_state.send_wrapped_token(
        secure_wrap_token_account,
        program_wrapped_token_account,
        pending_unwrap.amount,
    ) {
        Err(e) => return Err(EngineError::Ledger(e)),
        Ok(()) => {},
    }
    Ok(())
}

/// What an authority cancellation returns: the caller must hold the
/// authority key, the supplied accounts must be the record's bound ones,
/// the user must be permanently frozen, and the compound send into the
/// frozen account must go through.
pub open spec fn cancel_unwrap_program_result(
    gs: GlobalState,
    st: SecureWrapTokenState,
    authority: Pubkey,
    permanently_frozen_user: Pubkey,
    uts: UserTokenState,
    pending: PendingUnwrap,
    secure_wrap_token_account: TokenAccount,
    program_wrapped_token_account: TokenAccount,
) -> Result<(), EngineError> {
    if authority != gs.upgrade_authority {
        Err(EngineError::Unauthorized)
    } else if pending.owner != permanently_frozen_user || secure_wrap_token_account.key
        != pending.secure_wrap_token_account || secure_wrap_token_account.owner
        != permanently_frozen_user || uts.secure_wrap_token_account
        != secure_wrap_token_account.key {
        Err(EngineError::AccountMismatch)
    } else if !uts.permanently_frozen {
        Err(EngineError::Token(SecureWrapTokenError::ProgramCancelUnwrapError))
    } else {
        send_to_frozen_result(st, program_wrapped_token_account, secure_wrap_token_account,
            pending.amount)
    }
}

/// Cancels a permanently frozen user's pending unwrap on the authority's
/// behalf: the escrowed wrapped tokens go back into the frozen account
/// through the compound thaw-send-refreeze step, and are recorded as
/// newly captured supply.  On success the caller destroys the record.
pub fn cancel_unwrap_program(
    global_state: &GlobalState,
    secure_wrap_token_state: &mut SecureWrapTokenState,
    authority: Pubkey,
    permanently_frozen_user: Pubkey,
    user_token_state: &UserTokenState,
    pending_unwrap: &PendingUnwrap,
    secure_wrap_token_account: &mut TokenAccount,
    program_wrapped_token_account: &mut TokenAccount,
) -> (r: Result<(), EngineError>)
    ensures
        r == cancel_unwrap_program_result(
            *global_state,
            *old(secure_wrap_token_state),
            authority,
            permanently_frozen_user,
            *user_token_state,
            *pending_unwrap,
            *old(secure_wrap_token_account),
            *old(program_wrapped_token_account),
        ),
        r is Ok ==> *final(secure_wrap_token_account) == (TokenAccount {
            amount: (old(secure_wrap_token_account).amount + pending_unwrap.amount) as u64,
            ..*old(secure_wrap_token_account)
        }),
        r is Ok ==> *final(program_wrapped_token_account) == (TokenAccount {
            amount: (old(program_wrapped_token_account).amount - pending_unwrap.amount) as u64,
            ..*old(program_wrapped_token_account)
        }),
        r is Ok ==> *final(secure_wrap_token_state) == (SecureWrapTokenState {
            permanently_frozen_token_supply: (old(
                secure_wrap_token_state,
            ).permanently_frozen_token_supply + pending_unwrap.amount) as u64,
            ..*old(secure_wrap_token_state)
        }),
        r is Err ==> *final(secure_wrap_token_state) == *old(secure_wrap_token_state)
            && *final(secure_wrap_token_account) == *old(secure_wrap_token_account)
            && *final(program_wrapped_token_account) == *old(program_wrapped_token_account),
        final(secure_wrap_token_account).frozen == old(secure_wrap_token_account).frozen,
{
    if !(authority == global_state.upgrade_authority) {
        return Err(EngineError::Unauthorized);
    }
    if !(pending_unwrap.owner == permanently_frozen_user) || !(secure_wrap_token_account.key
        == pending_unwrap.secure_wrap_token_account) || !(secure_wrap_token_account.owner
        == permanently_frozen_user) || !(user_token_state.secure_wrap_token_account
        == secure_wrap_token_account.key) {
        return Err(EngineError::AccountMismatch);
    }
    if !user_token_state.permanently_frozen {
        return Err(EngineError::Token(SecureWrapTokenError::ProgramCancelUnwrapError));
    }
    secure_wrap_token_state.send_swt_to_frozen_account(
        program_wrapped_token_account,
        secure_wrap_token_account,
        pending_unwrap.amount,
    )
}

} // verus!
