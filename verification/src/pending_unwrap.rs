//! The single-slot delayed-unwrap record.
//!
//! At most one pending unwrap is live per mint pair and user: the storage
//! layer refuses a second one while the first exists.  The record holds the
//! escrowed amount and the release time snapshotted from the global delay
//! at request time; it is destroyed when released or cancelled.

use crate::error::SecureWrapTokenError;
use crate::ledger::{Pubkey, TokenAccount};
use vstd::prelude::*;

verus! {

#[derive(Clone, Copy, PartialEq, Eq, Structural, Debug)]
pub struct PendingUnwrap {
    pub owner: Pubkey,
    pub secure_wrap_token_mint: Pubkey,
    pub secure_wrap_token_account: Pubkey,
    pub token_account: Pubkey,
    pub release_timestamp: i64,
    pub amount: u64,
    pub initialized: bool,
}

/// What admitting a release returns: neither of the user's two accounts
/// may be frozen, and the release time must have passed.
pub open spec fn release_check_result(
    pending: PendingUnwrap,
    original_token_account: TokenAccount,
    swt_account: TokenAccount,
    now: i64,
) -> Result<(), SecureWrapTokenError> {
    if original_token_account.frozen || swt_account.frozen {
        Err(SecureWrapTokenError::UnwrapFrozenAccountError)
    } else if now < pending.release_timestamp {
        Err(SecureWrapTokenError::PrematurePendingUnwrap)
    } else {
        Ok(())
    }
}

impl PendingUnwrap {
    /// Fills in a fresh pending-unwrap record.
    pub fn initialize(
        &mut self,
        owner: Pubkey,
        secure_wrap_token_mint: Pubkey,
        secure_wrap_token_account: Pubkey,
        token_account: Pubkey,
        release_timestamp: i64,
        amount: u64,
    )
        ensures
            *final(self) == (PendingUnwrap {
                owner,
                secure_wrap_token_mint,
                secure_wrap_token_account,
                token_account,
                release_timestamp,
                amount,
                initialized: true,
            }),
    {
        self.owner = owner;
        self.secure_wrap_token_mint = secure_wrap_token_mint;
        self.secure_wrap_token_account = secure_wrap_token_account;
        self.token_account = token_account;
        self.release_timestamp = release_timestamp;
        self.amount = amount;
        self.initialized = true;
    }

    /// Admits or rejects the release of this pending unwrap.
    pub fn validate_release(
        &self,
        original_token_account: &TokenAccount,
        swt_account: &TokenAccount,
        now: i64,
    ) -> (r: Result<(), SecureWrapTokenError>)
        ensures
            r == release_check_result(*self, *original_token_account, *swt_account, now),
    {
        if original_token_account.frozen || swt_account.frozen {
            return Err(SecureWrapTokenError::UnwrapFrozenAccountError);
        }
        if now < self.release_timestamp {
            return Err(SecureWrapTokenError::PrematurePendingUnwrap);
        }
        Ok(())
    }
}

impl Default for PendingUnwrap {
    /// The zeroed record a fresh storage slot holds before `initialize`.
    fn default() -> (r: PendingUnwrap)
        ensures
            r == (PendingUnwrap {
                owner: Pubkey { id: 0 },
                secure_wrap_token_mint: Pubkey { id: 0 },
                secure_wrap_token_account: Pubkey { id: 0 },
                token_account: Pubkey { id: 0 },
                release_timestamp: 0,
                amount: 0,
                initialized: false,
            }),
    {
        PendingUnwrap {
            owner: Pubkey { id: 0 },
            secure_wrap_token_mint: Pubkey { id: 0 },
            secure_wrap_token_account: Pubkey { id: 0 },
            token_account: Pubkey { id: 0 },
            release_timestamp: 0,
            amount: 0,
            initialized: false,
        }
    }
}

} // verus!
