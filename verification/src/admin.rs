//! Deployment and authority-restricted administration: creating the two
//! singleton records, the circuit breakers, and the unwrap delay.

use crate::error::{EngineError, SecureWrapTokenError};
use crate::global_state::GlobalState;
use crate::ledger::Pubkey;
use crate::secure_wrap_token_state::SecureWrapTokenState;
use vstd::prelude::*;

verus! {

/// Creates the global configuration singleton at deployment: the given
/// upgrade authority, every gate open, and the unwrap delay at its
/// twenty-four-hour maximum.  The storage layer ensures it is created
/// only once.
pub fn initialize(upgrade_authority: Pubkey) -> (r: GlobalState)
    ensures
        r.upgrade_authority == upgrade_authority,
        r.unwrap_delay_seconds == crate::global_state::MAX_UNWRAP_DELAY_SECONDS,
        r.unwrap_allowed && r.orders_allowed && r.wrap_orders_allowed,
        r.wf(),
{
    let mut global_state = GlobalState::default();
    global_state.initialize(upgrade_authority);
    global_state
}

/// Creates the supply-tracking record of a new mint pair, with both
/// accounting counters at zero.  Authority-restricted; the storage layer
/// ensures at most one record per pair.
pub fn create_secure_wrapped_token(
    global_state: &GlobalState,
    authority: Pubkey,
    original_token_mint: Pubkey,
    secure_wrap_token_mint: Pubkey,
) -> (r: Result<SecureWrapTokenState, EngineError>)
    ensures
        r is Ok <==> authority == global_state.upgrade_authority,
        r matches Ok(st) ==> st == (SecureWrapTokenState {
            original_token_mint,
            secure_wrap_token_mint,
            permanently_frozen_token_supply: 0,
            redistributed_token_supply: 0,
        }),
        r is Err ==> r == Err::<SecureWrapTokenState, EngineError>(EngineError::Unauthorized),
{
    if !(authority == global_state.upgrade_authority) {
        return Err(EngineError::Unauthorized);
    }
    let mut secure_wrap_token_state = SecureWrapTokenState::default();
    secure_wrap_token_state.initialize(original_token_mint, secure_wrap_token_mint);
    Ok(secure_wrap_token_state)
}

/// Halts the whole order book.  Authority-restricted.
pub fn halt_orders(global_state: &mut GlobalState, authority: Pubkey) -> (r: Result<
    (),
    EngineError,
>)
    ensures
        r is Ok <==> authority == old(global_state).upgrade_authority,
        r is Ok ==> *final(global_state) == (GlobalState {
            orders_allowed: false,
            ..*old(global_state)
        }),
        r is Err ==> r == Err::<(), EngineError>(EngineError::Unauthorized) && *final(global_state) == *old(global_state),
{
    if !(authority == global_state.upgrade_authority) {
        return Err(EngineError::Unauthorized);
    }
    global_state.halt_orders();
    Ok(())
}

/// Reopens the whole order book.  Authority-restricted.
pub fn resume_orders(global_state: &mut GlobalState, authority: Pubkey) -> (r: Result<
    (),
    EngineError,
>)
    ensures
        r is Ok <==> authority == old(global_state).upgrade_authority,
        r is Ok ==> *final(global_state) == (GlobalState {
            orders_allowed: true,
            ..*old(global_state)
        }),
        r is Err ==> r == Err::<(), EngineError>(EngineError::Unauthorized) && *final(global_state) == *old(global_state),
{
    if !(authority == global_state.upgrade_authority) {
        return Err(EngineError::Unauthorized);
    }
    global_state.resume_orders();
    Ok(())
}

/// Halts only the wrap side of the order book.  Authority-restricted.
pub fn halt_wrap_orders(global_state: &mut GlobalState, authority: Pubkey) -> (r: Result<
    (),
    EngineError,
>)
    ensures
        r is Ok <==> authority == old(global_state).upgrade_authority,
        r is Ok ==> *final(global_state) == (GlobalState {
            wrap_orders_allowed: false,
            ..*old(global_state)
        }),
        r is Err ==> r == Err::<(), EngineError>(EngineError::Unauthorized) && *final(global_state) == *old(global_state),
{
    if !(authority == global_state.upgrade_authority) {
        return Err(EngineError::Unauthorized);
    }
    global_state.halt_wrap_orders();
    Ok(())
}

/// Reopens the wrap side of the order book.  Authority-restricted.
pub fn resume_wrap_orders(global_state: &mut GlobalState, authority: Pubkey) -> (r: Result<
    (),
    EngineError,
>)
    ensures
        r is Ok <==> authority == old(global_state).upgrade_authority,
        r is Ok ==> *final(global_state) == (GlobalState {
            wrap_orders_allowed: true,
            ..*old(global_state)
        }),
        r is Err ==> r == Err::<(), EngineError>(EngineError::Unauthorized) && *final(global_state) == *old(global_state),
{
    if !(authority == global_state.upgrade_authority) {
        return Err(EngineError::Unauthorized);
    }
    global_state.resume_wrap_orders();
    Ok(())
}

/// Halts the delayed-unwrap queue: no request and no release.
/// Authority-restricted.
pub fn halt_unwrap(global_state: &mut GlobalState, authority: Pubkey) -> (r: Result<
    (),
    EngineError,
>)
    ensures
        r is Ok <==> authority == old(global_state).upgrade_authority,
        r is Ok ==> *final(global_state) == (GlobalState {
            unwrap_allowed: false,
            ..*old(global_state)
        }),
        r is Err ==> r == Err::<(), EngineError>(EngineError::Unauthorized) && *final(global_state) == *old(global_state),
{
    if !(authority == global_state.upgrade_authority) {
        return Err(EngineError::Unauthorized);
    }
    global_state.halt_unwrap();
    Ok(())
}

/// Reopens the delayed-unwrap queue.  Authority-restricted.
pub fn resume_unwrap(global_state: &mut GlobalState, authority: Pubkey) -> (r: Result<
    (),
    EngineError,
>)
    ensures
        r is Ok <==> authority == old(global_state).upgrade_authority,
        r is Ok ==> *final(global_state) == (GlobalState {
            unwrap_allowed: true,
            ..*old(global_state)
        }),
        r is Err ==> r == Err::<(), EngineError>(EngineError::Unauthorized) && *final(global_state) == *old(global_state),
{
    if !(authority == global_state.upgrade_authority) {
        return Err(EngineError::Unauthorized);
    }
    global_state.resume_unwrap();
    Ok(())
}

/// Replaces the unwrap delay, within its twenty-four-hour maximum.
/// Authority-restricted.
pub fn set_unwrap_delay(
    global_state: &mut GlobalState,
    authority: Pubkey,
    unwrap_delay_seconds: u64,
) -> (r: Result<(), EngineError>)
    ensures
        r == if authority != old(global_state).upgrade_authority {
            Err::<(), EngineError>(EngineError::Unauthorized)
        } else if unwrap_delay_seconds > i64::MAX {
            Err::<(), EngineError>(EngineError::Token(SecureWrapTokenError::MathOverflow))
        } else if unwrap_delay_seconds > crate::global_state::MAX_UNWRAP_DELAY_SECONDS {
            Err::<(), EngineError>(
                EngineError::Token(SecureWrapTokenError::SetUnwrapDelayMaximumExceeded),
            )
        } else {
            Ok::<(), EngineError>(())
        },
        r is Ok ==> *final(global_state) == (GlobalState {
            unwrap_delay_seconds: unwrap_delay_seconds as i64,
            ..*old(global_state)
        }),
        r is Ok ==> final(global_state).wf(),
        r is Err ==> *final(global_state) == *old(global_state),
{
    if !(authority == global_state.upgrade_authority) {
        return Err(EngineError::Unauthorized);
    }
    match global_state.set_unwrap_delay_seconds(unwrap_delay_seconds) {
        Err(e) => return Err(EngineError::Token(e)),
        Ok(()) => {},
    }
    Ok(())
}

} // verus!
