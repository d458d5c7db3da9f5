//! The singleton circuit-breaker and parameter store.
//!
//! Holds the upgrade authority's key, the delay a pending unwrap must wait
//! before release, and three independent gates: `unwrap_allowed` halts the
//! delayed-unwrap queue, `orders_allowed` halts the whole order book, and
//! `wrap_orders_allowed` additionally halts only the wrap side.  All
//! mutation is authority-restricted; the checks stand in `crate::admin`.

use crate::error::SecureWrapTokenError;
use crate::ledger::{Pubkey, TokenAccount};
use crate::order::Side;
use vstd::prelude::*;

verus! {

/// The unwrap delay never exceeds twenty-four hours.
pub const MAX_UNWRAP_DELAY_SECONDS: i64 = 86400;

#[derive(Clone, Copy, PartialEq, Eq, Structural, Debug)]
pub struct GlobalState {
    pub upgrade_authority: Pubkey,
    pub unwrap_delay_seconds: i64,
    pub unwrap_allowed: bool,
    pub orders_allowed: bool,
    pub wrap_orders_allowed: bool,
}

/// What admitting an order-book operation returns: the book must be open,
/// the wrap side additionally so for wrap orders, and neither of the
/// maker's two accounts may be frozen.
pub open spec fn order_allowed_result(
    gs: GlobalState,
    side: Side,
    order_token_account: TokenAccount,
    order_secure_wrap_token_account: TokenAccount,
) -> Result<(), SecureWrapTokenError> {
    if !gs.orders_allowed {
        Err(SecureWrapTokenError::OrdersHalted)
    } else if side is Wrap && !gs.wrap_orders_allowed {
        Err(SecureWrapTokenError::WrapOrdersHalted)
    } else if order_token_account.frozen || order_secure_wrap_token_account.frozen {
        Err(SecureWrapTokenError::FillOrderFrozenAccountError)
    } else {
        Ok(())
    }
}

impl GlobalState {
    /// The configured delay is always between zero and the maximum.
    pub open spec fn wf(self) -> bool {
        0 <= self.unwrap_delay_seconds <= MAX_UNWRAP_DELAY_SECONDS
    }

    /// Sets up the singleton: the given authority, all gates open, and the
    /// unwrap delay at its twenty-four-hour maximum.
    pub fn initialize(&mut self, upgrade_authority: Pubkey)
        ensures
            *final(self) == (GlobalState {
                upgrade_authority,
                unwrap_delay_seconds: MAX_UNWRAP_DELAY_SECONDS,
                unwrap_allowed: true,
                orders_allowed: true,
                wrap_orders_allowed: true,
            }),
            final(self).wf(),
    {
        self.upgrade_authority = upgrade_authority;
        self.unwrap_delay_seconds = MAX_UNWRAP_DELAY_SECONDS;
        self.unwrap_allowed = true;
        self.orders_allowed = true;
        self.wrap_orders_allowed = true;
    }

    /// Replaces the unwrap delay; rejects one that does not fit a signed
    /// timestamp or exceeds the twenty-four-hour maximum.
    pub fn set_unwrap_delay_seconds(&mut self, unwrap_delay_seconds: u64) -> (r: Result<
        (),
        SecureWrapTokenError,
    >)
        ensures
            r == if unwrap_delay_seconds > i64::MAX {
                Err::<(), SecureWrapTokenError>(SecureWrapTokenError::MathOverflow)
            } else if unwrap_delay_seconds > MAX_UNWRAP_DELAY_SECONDS {
                Err::<(), SecureWrapTokenError>(
                    SecureWrapTokenError::SetUnwrapDelayMaximumExceeded,
                )
            } else {
                Ok::<(), SecureWrapTokenError>(())
            },
            r is Ok ==> *final(self) == (GlobalState {
                unwrap_delay_seconds: unwrap_delay_seconds as i64,
                ..*old(self)
            }),
            r is Ok ==> final(self).wf(),
            r is Err ==> *final(self) == *old(self),
    {
        if unwrap_delay_seconds > i64::MAX as u64 {
            return Err(SecureWrapTokenError::MathOverflow);
        }
        let new_unwrap_delay_seconds = unwrap_delay_seconds as i64;
        if new_unwrap_delay_seconds > MAX_UNWRAP_DELAY_SECONDS {
            return Err(SecureWrapTokenError::SetUnwrapDelayMaximumExceeded);
        }
        self.unwrap_delay_seconds = new_unwrap_delay_seconds;
        Ok(())
    }

    /// The timestamp at which an unwrap requested now may release.  The
    /// delay in force at request time is snapshotted into the pending
    /// record; later changes do not affect it.
    pub fn compute_unwrap_release_timestamp(&self, now: i64) -> (r: Result<
        i64,
        SecureWrapTokenError,
    >)
        requires
            self.wf(),
            now > 0,
        ensures
            now + self.unwrap_delay_seconds <= i64::MAX ==> r == Ok::<i64, SecureWrapTokenError>(
                (now + self.unwrap_delay_seconds) as i64,
            ),
            now + self.unwrap_delay_seconds > i64::MAX ==> r == Err::<i64, SecureWrapTokenError>(
                SecureWrapTokenError::MathOverflow,
            ),
    {
        if now > i64::MAX - self.unwrap_delay_seconds {
            Err(SecureWrapTokenError::MathOverflow)
        } else {
            Ok(now + self.unwrap_delay_seconds)
        }
    }

    /// Admits or rejects an order-book operation against the gates and the
    /// maker's two accounts.
    pub fn validate_order_allowed(
        &self,
        side: Side,
        order_token_account: &TokenAccount,
        order_secure_wrap_token_account: &TokenAccount,
    ) -> (r: Result<(), SecureWrapTokenError>)
        ensures
            r == order_allowed_result(
                *self,
                side,
                *order_token_account,
                *order_secure_wrap_token_account,
            ),
    {
        if !self.orders_allowed {
            return Err(SecureWrapTokenError::OrdersHalted);
        }
        if matches!(side, Side::Wrap) && !self.wrap_orders_allowed {
            return Err(SecureWrapTokenError::WrapOrdersHalted);
        }
        if order_token_account.frozen || order_secure_wrap_token_account.frozen {
            return Err(SecureWrapTokenError::FillOrderFrozenAccountError);
        }
        Ok(())
    }

    /// Admits or rejects a delayed-unwrap operation against the unwrap gate.
    pub fn validate_unwrap_allowed(&self) -> (r: Result<(), SecureWrapTokenError>)
        ensures
            r is Ok <==> self.unwrap_allowed,
            r is Err ==> r == Err::<(), SecureWrapTokenError>(SecureWrapTokenError::UnwrapHalted),
    {
        if !self.unwrap_allowed {
            return Err(SecureWrapTokenError::UnwrapHalted);
        }
        Ok(())
    }

    /// Halts the whole order book, both sides.
    pub fn halt_orders(&mut self)
        ensures
            *final(self) == (GlobalState { orders_allowed: false, ..*old(self) }),
    {
        self.orders_allowed = false;
    }

    /// Reopens the order book.
    pub fn resume_orders(&mut self)
        ensures
            *final(self) == (GlobalState { orders_allowed: true, ..*old(self) }),
    {
        self.orders_allowed = true;
    }

    /// Halts only the wrap side of the order book.
    pub fn halt_wrap_orders(&mut self)
        ensures
            *final(self) == (GlobalState { wrap_orders_allowed: false, ..*old(self) }),
    {
        self.wrap_orders_allowed = false;
    }

    /// Reopens the wrap side of the order book.
    pub fn resume_wrap_orders(&mut self)
        ensures
            *final(self) == (GlobalState { wrap_orders_allowed: true, ..*old(self) }),
    {
        self.wrap_orders_allowed = true;
    }

    /// Halts the delayed-unwrap queue: no request and no release.
    pub fn halt_unwrap(&mut self)
        ensures
            *final(self) == (GlobalState { unwrap_allowed: false, ..*old(self) }),
    {
        self.unwrap_allowed = false;
    }

    /// Reopens the delayed-unwrap queue.
    pub fn resume_unwrap(&mut self)
        ensures
            *final(self) == (GlobalState { unwrap_allowed: true, ..*old(self) }),
    {
        self.unwrap_allowed = true;
    }
}

impl Default for GlobalState {
    /// The zeroed record a fresh storage slot holds before `initialize`.
    fn default() -> (r: GlobalState)
        ensures
            r == (GlobalState {
                upgrade_authority: Pubkey { id: 0 },
                unwrap_delay_seconds: 0,
                unwrap_allowed: false,
                orders_allowed: false,
                wrap_orders_allowed: false,
            }),
    {
        GlobalState {
            upgrade_authority: Pubkey { id: 0 },
            unwrap_delay_seconds: 0,
            unwrap_allowed: false,
            orders_allowed: false,
            wrap_orders_allowed: false,
        }
    }
}

} // verus!
