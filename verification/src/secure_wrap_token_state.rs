//! The per-mint-pair supply tracker and custody-operation dispatcher.
//!
//! One record exists per (original asset, wrapped asset) pair.  It is the
//! capability through which every custody operation runs: sending from the
//! two custody accounts, minting and burning the wrapped asset, and
//! freezing and thawing wrapped-token accounts.  It also keeps the two
//! monotonic accounting counters: the supply captured in permanently
//! frozen accounts, and the supply minted again as redistribution.

use crate::error::{EngineError, LedgerError, SecureWrapTokenError};
use crate::ledger::{
    burn_result, burn_tokens, freeze_token_account, mint_result, mint_tokens, thaw_token_account,
    transfer_result, transfer_tokens, Mint, Pubkey, TokenAccount,
};
use crate::user_token_state::{thaw_result, UserTokenState};
use vstd::prelude::*;

verus! {

#[derive(Clone, Copy, PartialEq, Eq, Structural, Debug)]
pub struct SecureWrapTokenState {
    pub original_token_mint: Pubkey,
    pub secure_wrap_token_mint: Pubkey,
    /// Wrapped supply captured in permanently frozen accounts: the balance
    /// at each permanent freeze, plus everything later sent into such an
    /// account.  Never decremented.
    pub permanently_frozen_token_supply: u64,
    /// Wrapped supply minted again as redistribution out of permanently
    /// frozen accounts.  Never decremented.
    pub redistributed_token_supply: u64,
}

/// What the compound send into a permanently frozen account returns: the
/// target must be frozen (it is thawed, credited and refrozen in one
/// step), the custody transfer must go through, and the captured-supply
/// counter must stay representable.
pub open spec fn send_to_frozen_result(
    st: SecureWrapTokenState,
    program_wrapped_token_account: TokenAccount,
    frozen_account: TokenAccount,
    amount: u64,
) -> Result<(), EngineError> {
    if !frozen_account.frozen {
        Err(EngineError::Ledger(LedgerError::InvalidAccountState))
    } else if program_wrapped_token_account.frozen {
        Err(EngineError::Ledger(LedgerError::AccountFrozen))
    } else if program_wrapped_token_account.amount < amount {
        Err(EngineError::Ledger(LedgerError::InsufficientFunds))
    } else if frozen_account.amount + amount > u64::MAX {
        Err(EngineError::Ledger(LedgerError::MathOverflow))
    } else if st.permanently_frozen_token_supply + amount > u64::MAX {
        Err(EngineError::Token(SecureWrapTokenError::MathOverflow))
    } else {
        Ok(())
    }
}

impl SecureWrapTokenState {
    /// Fills in a fresh mint-pair record with both counters at zero.
    pub fn initialize(&mut self, original_token_mint: Pubkey, secure_wrap_token_mint: Pubkey)
        ensures
            *final(self) == (SecureWrapTokenState {
                original_token_mint,
                secure_wrap_token_mint,
                permanently_frozen_token_supply: 0,
                redistributed_token_supply: 0,
            }),
    {
        self.original_token_mint = original_token_mint;
        self.secure_wrap_token_mint = secure_wrap_token_mint;
        self.permanently_frozen_token_supply = 0;
        self.redistributed_token_supply = 0;
    }

    /// Sends `amount` of the original asset out of custody under the
    /// pair's delegated authority.
    pub fn send_original_token(
        &self,
        receiving_account: &mut TokenAccount,
        program_original_token_account: &mut TokenAccount,
        amount: u64,
    ) -> (r: Result<(), LedgerError>)
        ensures
            r == transfer_result(
                *old(program_original_token_account),
                *old(receiving_account),
                amount,
            ),
            r is Ok ==> *final(program_original_token_account) == (TokenAccount {
                amount: (old(program_original_token_account).amount - amount) as u64,
                ..*old(program_original_token_account)
            }),
            r is Ok ==> *final(receiving_account) == (TokenAccount {
                amount: (old(receiving_account).amount + amount) as u64,
                ..*old(receiving_account)
            }),
            r is Err ==> *final(program_original_token_account) == *old(program_original_token_account) && *final(receiving_account) == *old(receiving_account),
    {
        transfer_tokens(program_original_token_account, receiving_account, amount)
    }

    /// Sends `amount` of the wrapped asset out of the custody escrow under
    /// the pair's delegated authority.
    pub fn send_wrapped_token(
        &self,
        receiving_account: &mut TokenAccount,
        program_wrapped_token_account: &mut TokenAccount,
        amount: u64,
    ) -> (r: Result<(), LedgerError>)
        ensures
            r == transfer_result(
                *old(program_wrapped_token_account),
                *old(receiving_account),
                amount,
            ),
            r is Ok ==> *final(program_wrapped_token_account) == (TokenAccount {
                amount: (old(program_wrapped_token_account).amount - amount) as u64,
                ..*old(program_wrapped_token_account)
            }),
            r is Ok ==> *final(receiving_account) == (TokenAccount {
                amount: (old(receiving_account).amount + amount) as u64,
                ..*old(receiving_account)
            }),
            r is Err ==> *final(program_wrapped_token_account) == *old(program_wrapped_token_account) && *final(receiving_account) == *old(receiving_account),
    {
        transfer_tokens(program_wrapped_token_account, receiving_account, amount)
    }

    /// Burns `amount` of the wrapped asset held in the custody escrow.
    pub fn burn_wrapped_token(
        &self,
        secure_wrap_token_mint: &mut Mint,
        program_wrapped_token_account: &mut TokenAccount,
        amount: u64,
    ) -> (r: Result<(), LedgerError>)
        ensures
            r == burn_result(
                *old(secure_wrap_token_mint),
                *old(program_wrapped_token_account),
                amount,
            ),
            r is Ok ==> final(secure_wrap_token_mint).supply == old(secure_wrap_token_mint).supply - amount,
            r is Ok ==> *final(program_wrapped_token_account) == (TokenAccount {
                amount: (old(program_wrapped_token_account).amount - amount) as u64,
                ..*old(program_wrapped_token_account)
            }),
            r is Err ==> *final(secure_wrap_token_mint) == *old(secure_wrap_token_mint) && *final(program_wrapped_token_account) == *old(program_wrapped_token_account),
    {
        burn_tokens(secure_wrap_token_mint, program_wrapped_token_account, amount)
    }

    /// Mints `amount` of the wrapped asset to `to` under the pair's
    /// delegated mint authority.
    pub fn mint_wrapped_token(
        &self,
        secure_wrap_token_mint: &mut Mint,
        to: &mut TokenAccount,
        amount: u64,
    ) -> (r: Result<(), LedgerError>)
        ensures
            r == mint_result(*old(secure_wrap_token_mint), *old(to), amount),
            r is Ok ==> final(secure_wrap_token_mint).supply == old(secure_wrap_token_mint).supply + amount,
            r is Ok ==> *final(to) == (TokenAccount {
                amount: (old(to).amount + amount) as u64,
                ..*old(to)
            }),
            r is Err ==> *final(secure_wrap_token_mint) == *old(secure_wrap_token_mint) && *final(to) == *old(to),
    {
        mint_tokens(secure_wrap_token_mint, to, amount)
    }

    /// Freezes a wrapped-token account under the pair's freeze authority.
    pub fn freeze_account(&self, account: &mut TokenAccount) -> (r: Result<(), LedgerError>)
        ensures
            r is Ok <==> !old(account).frozen,
            r is Err ==> r == Err::<(), LedgerError>(LedgerError::InvalidAccountState) && *final(account) == *old(account),
            r is Ok ==> *final(account) == (TokenAccount { frozen: true, ..*old(account) }),
    {
        freeze_token_account(account)
    }

    /// Thaws a wrapped-token account: admits the thaw against the user's
    /// freeze record, stamps the thaw time, then unlocks the account.
    /// All-or-nothing: a rejected thaw changes neither the record nor the
    /// account.
    pub fn thaw_account(
        &self,
        account_to_thaw: &mut TokenAccount,
        user_token_state: &mut UserTokenState,
        now: i64,
    ) -> (r: Result<(), EngineError>)
        requires
            now > 0,
        ensures
            r == match thaw_result(*old(user_token_state), *old(account_to_thaw), now) {
                Ok(()) => Ok::<(), EngineError>(()),
                Err(e) => Err::<(), EngineError>(EngineError::Token(e)),
            },
            r is Ok ==> *final(account_to_thaw) == (TokenAccount {
                frozen: false,
                ..*old(account_to_thaw)
            }),
            r is Ok ==> *final(user_token_state) == (UserTokenState {
                thawed_at_timestamp: now,
                ..*old(user_token_state)
            }),
            r is Err ==> *final(account_to_thaw) == *old(account_to_thaw) && *final(user_token_state) == *old(user_token_state),
            old(user_token_state).wf() ==> final(user_token_state).wf(),
            old(user_token_state).permanently_frozen ==> final(user_token_state).permanently_frozen,
    {
        match user_token_state.validate_thaw(account_to_thaw, now) {
            Err(e) => Err(EngineError::Token(e)),
            Ok(()) => match thaw_token_account(account_to_thaw) {
                Err(e) => Err(EngineError::Ledger(e)),
                Ok(()) => Ok(()),
            },
        }
    }

    /// Adds newly captured supply to the permanently-frozen counter.
    pub fn add_permanently_frozen_tokens(&mut self, amount: u64) -> (r: Result<
        (),
        SecureWrapTokenError,
    >)
        ensures
            r is Ok <==> old(self).permanently_frozen_token_supply + amount <= u64::MAX,
            r is Err ==> r == Err::<(), SecureWrapTokenError>(SecureWrapTokenError::MathOverflow)
                && *final(self) == *old(self),
            r is Ok ==> *final(self) == (SecureWrapTokenState {
                permanently_frozen_token_supply: (old(self).permanently_frozen_token_supply
                    + amount) as u64,
                ..*old(self)
            }),
            final(self).permanently_frozen_token_supply >= old(self).permanently_frozen_token_supply,
    {
        if self.permanently_frozen_token_supply > u64::MAX - amount {
            return Err(SecureWrapTokenError::MathOverflow);
        }
        self.permanently_frozen_token_supply = self.permanently_frozen_token_supply + amount;
        Ok(())
    }

    /// Adds newly minted redistribution to the redistributed counter.
    pub fn add_redistributed_tokens(&mut self, amount: u64) -> (r: Result<
        (),
        SecureWrapTokenError,
    >)
        ensures
            r is Ok <==> old(self).redistributed_token_supply + amount <= u64::MAX,
            r is Err ==> r == Err::<(), SecureWrapTokenError>(SecureWrapTokenError::MathOverflow)
                && *final(self) == *old(self),
            r is Ok ==> *final(self) == (SecureWrapTokenState {
                redistributed_token_supply: (old(self).redistributed_token_supply + amount) as u64,
                ..*old(self)
            }),
            final(self).redistributed_token_supply >= old(self).redistributed_token_supply,
    {
        if self.redistributed_token_supply > u64::MAX - amount {
            return Err(SecureWrapTokenError::MathOverflow);
        }
        self.redistributed_token_supply = self.redistributed_token_supply + amount;
        Ok(())
    }

    /// Moves `amount` of wrapped asset from the custody escrow into a
    /// permanently frozen account: thaw, transfer, refreeze, and record
    /// the amount as newly captured supply, in one all-or-nothing step.
    /// The account is frozen again on every exit path.
    pub fn send_swt_to_frozen_account(
        &mut self,
        program_wrapped_token_account: &mut TokenAccount,
        frozen_account: &mut TokenAccount,
        amount: u64,
    ) -> (r: Result<(), EngineError>)
        ensures
            r == send_to_frozen_result(
                *old(self),
                *old(program_wrapped_token_account),
                *old(frozen_account),
                amount,
            ),
            r is Ok ==> *final(frozen_account) == (TokenAccount {
                amount: (old(frozen_account).amount + amount) as u64,
                ..*old(frozen_account)
            }),
            r is Ok ==> *final(program_wrapped_token_account) == (TokenAccount {
                amount: (old(program_wrapped_token_account).amount - amount) as u64,
                ..*old(program_wrapped_token_account)
            }),
            r is Ok ==> *final(self) == (SecureWrapTokenState {
                permanently_frozen_token_supply: (old(self).permanently_frozen_token_supply
                    + amount) as u64,
                ..*old(self)
            }),
            r is Err ==> *final(self) == *old(self) && *final(program_wrapped_token_account)
                == *old(program_wrapped_token_account) && *final(frozen_account) == *old(frozen_account),
            final(frozen_account).frozen == old(frozen_account).frozen,
    {
        if !frozen_account.frozen {
            return Err(EngineError::Ledger(LedgerError::InvalidAccountState));
        }
        if program_wrapped_token_account.frozen {
            return Err(EngineError::Ledger(LedgerError::AccountFrozen));
        }
        if program_wrapped_token_account.amount < amount {
            return Err(EngineError::Ledger(LedgerError::InsufficientFunds));
        }
        if frozen_account.amount > u64::MAX - amount {
            return Err(EngineError::Ledger(LedgerError::MathOverflow));
        }
        if self.permanently_frozen_token_supply > u64::MAX - amount {
            return Err(EngineError::Token(SecureWrapTokenError::MathOverflow));
        }
        match thaw_token_account(frozen_account) {
            Err(e) => return Err(EngineError::Ledger(e)),
            Ok(()) => {},
        }
        match transfer_tokens(program_wrapped_token_account, frozen_account, amount) {
            Err(e) => return Err(EngineError::Ledger(e)),
            Ok(()) => {},
        }
        match freeze_token_account(frozen_account) {
            Err(e) => return Err(EngineError::Ledger(e)),
            Ok(()) => {},
        }
        match self.add_permanently_frozen_tokens(amount) {
            Err(e) => return Err(EngineError::Token(e)),
            Ok(()) => {},
        }
        Ok(())
    }
}

impl Default for SecureWrapTokenState {
    /// The zeroed record a fresh storage slot holds before `initialize`.
    fn default() -> (r: SecureWrapTokenState)
        ensures
            r == (SecureWrapTokenState {
                original_token_mint: Pubkey { id: 0 },
                secure_wrap_token_mint: Pubkey { id: 0 },
                permanently_frozen_token_supply: 0,
                redistributed_token_supply: 0,
            }),
    {
        SecureWrapTokenState {
            original_token_mint: Pubkey { id: 0 },
            secure_wrap_token_mint: Pubkey { id: 0 },
            permanently_frozen_token_supply: 0,
            redistributed_token_supply: 0,
        }
    }
}

} // verus!
