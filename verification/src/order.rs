//! Open offer records of the discounted order book.
//!
//! An order is a maker's standing offer to trade `amount_in` of one asset
//! for `amount_out` of the other, at a price favorable to whoever fills it.
//! An unwrap-side order escrows wrapped tokens and asks for fewer original
//! tokens back; a wrap-side order escrows original tokens and asks for more
//! wrapped tokens back.  Either way the filler keeps the spread.

use crate::error::SecureWrapTokenError;
use crate::ledger::Pubkey;
use vstd::prelude::*;

verus! {

/// The direction of an order.  `Unspecified` is the null value a record
/// holds before it is initialized; no live order carries it.
#[derive(Clone, Copy, PartialEq, Eq, Structural, Debug)]
pub enum Side {
    Unspecified,
    Wrap,
    Unwrap,
}

impl Side {
    /// The one-byte storage-key seed of each live side.
    pub fn to_seed(&self) -> (r: Result<[u8; 1], SecureWrapTokenError>)
        ensures
            self is Unspecified <==> r == Err::<[u8; 1], SecureWrapTokenError>(
                SecureWrapTokenError::OrderSideInvalid,
            ),
            self is Wrap ==> r == Ok::<[u8; 1], SecureWrapTokenError>([1u8]),
            self is Unwrap ==> r == Ok::<[u8; 1], SecureWrapTokenError>([2u8]),
    {
        match self {
            Side::Unspecified => Err(SecureWrapTokenError::OrderSideInvalid),
            Side::Wrap => Ok([1u8]),
            Side::Unwrap => Ok([2u8]),
        }
    }
}

/// What validating an order's parameters returns: the side must be a live
/// one, both amounts must be non-zero, and the discount must run in the
/// side's direction — an unwrap order gives more wrapped than it takes
/// original, a wrap order asks more wrapped than it gives original.
pub open spec fn order_params_result(side: Side, amount_in: u64, amount_out: u64) -> Result<
    (),
    SecureWrapTokenError,
> {
    if side is Unspecified {
        Err(SecureWrapTokenError::OrderSideInvalid)
    } else if amount_in == 0 || amount_out == 0 {
        Err(SecureWrapTokenError::InvalidTokenAmount)
    } else if side is Unwrap && amount_in <= amount_out {
        Err(SecureWrapTokenError::InvalidOrderAmount)
    } else if side is Wrap && amount_out <= amount_in {
        Err(SecureWrapTokenError::InvalidOrderAmount)
    } else {
        Ok(())
    }
}

/// A token swap order specific to one mint pair and user.
#[derive(Clone, Copy, PartialEq, Eq, Structural, Debug)]
pub struct Order {
    pub owner: Pubkey,
    pub secure_wrap_token_mint: Pubkey,
    pub token_account: Pubkey,
    pub secure_wrap_token_account: Pubkey,
    pub amount_in: u64,
    pub amount_out: u64,
    pub side: Side,
}

impl Order {
    /// A live order: its side is set, its amounts are non-zero and its
    /// discount runs in the side's direction.
    pub open spec fn wf(self) -> bool {
        &&& self.side !is Unspecified
        &&& self.amount_in > 0
        &&& self.amount_out > 0
        &&& self.side is Unwrap ==> self.amount_in > self.amount_out
        &&& self.side is Wrap ==> self.amount_out > self.amount_in
    }

    /// Fills in a fresh order record after validating its parameters.
    pub fn initialize(
        &mut self,
        side: Side,
        owner: Pubkey,
        secure_wrap_token_mint: Pubkey,
        token_account: Pubkey,
        secure_wrap_token_account: Pubkey,
        amount_in: u64,
        amount_out: u64,
    ) -> (r: Result<(), SecureWrapTokenError>)
        ensures
            r == order_params_result(side, amount_in, amount_out),
            r is Ok ==> *final(self) == (Order {
                owner,
                secure_wrap_token_mint,
                token_account,
                secure_wrap_token_account,
                amount_in,
                amount_out,
                side,
            }),
            r is Ok ==> final(self).wf(),
            r is Err ==> *final(self) == *old(self),
    {
        if matches!(side, Side::Unspecified) {
            return Err(SecureWrapTokenError::OrderSideInvalid);
        }
        if amount_in == 0 || amount_out == 0 {
            return Err(SecureWrapTokenError::InvalidTokenAmount);
        }
        if matches!(side, Side::Unwrap) {
            if amount_in <= amount_out {
                return Err(SecureWrapTokenError::InvalidOrderAmount);
            }
        } else {
            if amount_out <= amount_in {
                return Err(SecureWrapTokenError::InvalidOrderAmount);
            }
        }
        self.side = side;
        self.owner = owner;
        self.secure_wrap_token_mint = secure_wrap_token_mint;
        self.token_account = token_account;
        self.secure_wrap_token_account = secure_wrap_token_account;
        self.amount_in = amount_in;
        self.amount_out = amount_out;
        Ok(())
    }

    /// The maker's account that the escrow was taken from.
    pub fn originating_token_account(&self) -> (r: Pubkey)
        ensures
            r == if self.side is Unwrap {
                self.secure_wrap_token_account
            } else {
                self.token_account
            },
    {
        if matches!(self.side, Side::Unwrap) {
            self.secure_wrap_token_account
        } else {
            self.token_account
        }
    }

    /// The maker's account that a fill pays `amount_out` into.
    pub fn token_account_to_fill(&self) -> (r: Pubkey)
        ensures
            r == if self.side is Unwrap {
                self.token_account
            } else {
                self.secure_wrap_token_account
            },
    {
        if matches!(self.side, Side::Unwrap) {
            self.token_account
        } else {
            self.secure_wrap_token_account
        }
    }
}

impl Default for Order {
    /// The zeroed record a fresh storage slot holds before `initialize`.
    fn default() -> (r: Order)
        ensures
            r == (Order {
                owner: Pubkey { id: 0 },
                secure_wrap_token_mint: Pubkey { id: 0 },
                token_account: Pubkey { id: 0 },
                secure_wrap_token_account: Pubkey { id: 0 },
                amount_in: 0,
                amount_out: 0,
                side: Side::Unspecified,
            }),
    {
        Order {
            owner: Pubkey { id: 0 },
            secure_wrap_token_mint: Pubkey { id: 0 },
            token_account: Pubkey { id: 0 },
            secure_wrap_token_account: Pubkey { id: 0 },
            amount_in: 0,
            amount_out: 0,
            side: Side::Unspecified,
        }
    }
}

} // verus!
