//! The per-user freeze/thaw lifecycle record.
//!
//! One record exists per mint pair and wrapped-token account, created
//! lazily on the first freeze and never destroyed: it remembers when the
//! account last thawed, which gates the next freeze.  The lifecycle runs
//! unfrozen, frozen until a thaw-eligible time, thaw-eligible, unfrozen
//! again — or ends in the terminal permanently-frozen state, from which no
//! operation ever returns.

use crate::error::SecureWrapTokenError;
use crate::ledger::{Pubkey, TokenAccount};
use vstd::prelude::*;

verus! {

/// An account is only eligible to be frozen again three days after its
/// last thaw, giving its owner time to offboard between freezes.
pub const THREE_DAYS_SECONDS: i64 = 259200;

/// The freeze period never exceeds fourteen days.
pub const MAX_FREEZE_PERIOD_SECONDS: u64 = 1209600;

#[derive(Clone, Copy, PartialEq, Eq, Structural, Debug)]
pub struct UserTokenState {
    /// The wrapped-token account this record is bound to, immutable once
    /// set by the first freeze.
    pub secure_wrap_token_account: Pubkey,
    pub thaw_eligible_timestamp: i64,
    pub thawed_at_timestamp: i64,
    /// Monotonic: once true, never false again.
    pub permanently_frozen: bool,
    /// Cumulative funds redistributed out of the permanently frozen
    /// account; monotonic and bounded by the account's balance.
    pub distribute_frozen_funds: u64,
    pub initialized: bool,
}

/// What admitting a freeze returns: the account must not be frozen
/// already, at least three days must have passed since the last thaw, the
/// period must not exceed the fourteen-day maximum, and the thaw-eligible
/// time must stay representable.
pub open spec fn freeze_result(
    uts: UserTokenState,
    account: TokenAccount,
    freeze_period_seconds: u64,
    now: i64,
) -> Result<(), SecureWrapTokenError> {
    if account.frozen {
        Err(SecureWrapTokenError::IneligibleFreezeError)
    } else if now - uts.thawed_at_timestamp < THREE_DAYS_SECONDS {
        Err(SecureWrapTokenError::IneligibleFreezeError)
    } else if freeze_period_seconds > MAX_FREEZE_PERIOD_SECONDS {
        Err(SecureWrapTokenError::FreezePeriodMaximumExceeded)
    } else if now + freeze_period_seconds > i64::MAX {
        Err(SecureWrapTokenError::MathOverflow)
    } else {
        Ok(())
    }
}

/// What admitting a thaw returns: the account must be frozen, must not be
/// permanently frozen, and its thaw-eligible time must have passed.
pub open spec fn thaw_result(uts: UserTokenState, account: TokenAccount, now: i64) -> Result<
    (),
    SecureWrapTokenError,
> {
    if !account.frozen {
        Err(SecureWrapTokenError::InvalidThaw)
    } else if uts.permanently_frozen {
        Err(SecureWrapTokenError::AccountPermanentlyFrozen)
    } else if now < uts.thaw_eligible_timestamp {
        Err(SecureWrapTokenError::PrematureThaw)
    } else {
        Ok(())
    }
}

/// What admitting a redistribution of `amount` returns: only out of a
/// permanently frozen, ledger-frozen account, and the cumulative total may
/// neither overflow nor exceed the account's balance.
pub open spec fn distribution_result(
    uts: UserTokenState,
    account: TokenAccount,
    amount: u64,
) -> Result<(), SecureWrapTokenError> {
    if !(uts.permanently_frozen && account.frozen) {
        Err(SecureWrapTokenError::InvalidFrozenFundDistribution)
    } else if uts.distribute_frozen_funds + amount > u64::MAX {
        Err(SecureWrapTokenError::MathOverflow)
    } else if uts.distribute_frozen_funds + amount > account.amount {
        Err(SecureWrapTokenError::FrozenFundDistributionExceeded)
    } else {
        Ok(())
    }
}

impl UserTokenState {
    /// Both recorded timestamps come from positive clock readings or are
    /// the zero placeholder.
    pub open spec fn wf(self) -> bool {
        &&& self.thaw_eligible_timestamp >= 0
        &&& self.thawed_at_timestamp >= 0
    }

    /// Binds a fresh record to its wrapped-token account, or checks an
    /// existing record against the account it was bound to.
    pub fn validate_initialization(&mut self, secure_wrap_token_account: Pubkey) -> (r: Result<
        (),
        SecureWrapTokenError,
    >)
        ensures
            r is Ok <==> (old(self).initialized ==> old(self).secure_wrap_token_account
                == secure_wrap_token_account),
            r is Err ==> r == Err::<(), SecureWrapTokenError>(
                SecureWrapTokenError::InvalidUserTokenStateAccount,
            ) && *final(self) == *old(self),
            r is Ok ==> *final(self) == (UserTokenState {
                secure_wrap_token_account,
                initialized: true,
                ..*old(self)
            }),
    {
        if self.initialized {
            if !(self.secure_wrap_token_account == secure_wrap_token_account) {
                return Err(SecureWrapTokenError::InvalidUserTokenStateAccount);
            }
        } else {
            self.initialized = true;
            self.secure_wrap_token_account = secure_wrap_token_account;
        }
        Ok(())
    }

    /// Admission check for a freeze's eligibility alone: the account must
    /// not already be frozen, and at least three days must have passed
    /// since the last thaw.
    pub(crate) fn validate_freeze_eligibility(&self, account: &TokenAccount, now: i64) -> (r:
        Result<(), SecureWrapTokenError>)
        requires
            self.wf(),
            now > 0,
        ensures
            r == if account.frozen {
                Err::<(), SecureWrapTokenError>(SecureWrapTokenError::IneligibleFreezeError)
            } else if now - self.thawed_at_timestamp < THREE_DAYS_SECONDS {
                Err::<(), SecureWrapTokenError>(SecureWrapTokenError::IneligibleFreezeError)
            } else {
                Ok::<(), SecureWrapTokenError>(())
            },
    {
        if account.frozen {
            return Err(SecureWrapTokenError::IneligibleFreezeError);
        }
        if now - self.thawed_at_timestamp < THREE_DAYS_SECONDS {
            return Err(SecureWrapTokenError::IneligibleFreezeError);
        }
        Ok(())
    }

    /// Admits a freeze of `account` for `freeze_period_seconds` and records
    /// the new thaw-eligible time.  Each freeze overwrites the previous
    /// thaw-eligible time.  The ledger freeze itself is the caller's next
    /// step.
    pub fn freeze(
        &mut self,
        account: &TokenAccount,
        freeze_period_seconds: u64,
        now: i64,
    ) -> (r: Result<(), SecureWrapTokenError>)
        requires
            old(self).wf(),
            now > 0,
        ensures
            r == freeze_result(*old(self), *account, freeze_period_seconds, now),
            r is Ok ==> *final(self) == (UserTokenState {
                thaw_eligible_timestamp: (now + freeze_period_seconds) as i64,
                ..*old(self)
            }),
            r is Err ==> *final(self) == *old(self),
            final(self).wf(),
            old(self).permanently_frozen ==> final(self).permanently_frozen,
    {
        if account.frozen {
            return Err(SecureWrapTokenError::IneligibleFreezeError);
        }
        if now - self.thawed_at_timestamp < THREE_DAYS_SECONDS {
            return Err(SecureWrapTokenError::IneligibleFreezeError);
        }
        if freeze_period_seconds > MAX_FREEZE_PERIOD_SECONDS {
            return Err(SecureWrapTokenError::FreezePeriodMaximumExceeded);
        }
        let period = freeze_period_seconds as i64;
        if now > i64::MAX - period {
            return Err(SecureWrapTokenError::MathOverflow);
        }
        self.thaw_eligible_timestamp = now + period;
        Ok(())
    }

    /// Admits an emergency thaw by discarding the thaw-eligible time, so
    /// that the ordinary thaw path passes at once.  Only for accounts that
    /// are frozen and not permanently so.
    pub fn immediate_thaw(&mut self, account: &TokenAccount) -> (r: Result<
        (),
        SecureWrapTokenError,
    >)
        ensures
            r == if !account.frozen {
                Err::<(), SecureWrapTokenError>(SecureWrapTokenError::InvalidThaw)
            } else if old(self).permanently_frozen {
                Err::<(), SecureWrapTokenError>(SecureWrapTokenError::AccountPermanentlyFrozen)
            } else {
                Ok::<(), SecureWrapTokenError>(())
            },
            r is Ok ==> *final(self) == (UserTokenState {
                thaw_eligible_timestamp: 0,
                ..*old(self)
            }),
            r is Err ==> *final(self) == *old(self),
            old(self).wf() ==> final(self).wf(),
            old(self).permanently_frozen ==> final(self).permanently_frozen,
    {
        if !account.frozen {
            return Err(SecureWrapTokenError::InvalidThaw);
        }
        if self.permanently_frozen {
            return Err(SecureWrapTokenError::AccountPermanentlyFrozen);
        }
        self.thaw_eligible_timestamp = 0;
        Ok(())
    }

    /// Admits a thaw of `account` and records the thaw time, which gates
    /// the next freeze.  The ledger thaw itself is the caller's next step.
    pub fn validate_thaw(&mut self, account: &TokenAccount, now: i64) -> (r: Result<
        (),
        SecureWrapTokenError,
    >)
        requires
            now > 0,
        ensures
            r == thaw_result(*old(self), *account, now),
            r is Ok ==> *final(self) == (UserTokenState {
                thawed_at_timestamp: now,
                ..*old(self)
            }),
            r is Err ==> *final(self) == *old(self),
            old(self).wf() ==> final(self).wf(),
            old(self).permanently_frozen ==> final(self).permanently_frozen,
    {
        if !account.frozen {
            return Err(SecureWrapTokenError::InvalidThaw);
        }
        if self.permanently_frozen {
            return Err(SecureWrapTokenError::AccountPermanentlyFrozen);
        }
        if now < self.thaw_eligible_timestamp {
            return Err(SecureWrapTokenError::PrematureThaw);
        }
        self.thawed_at_timestamp = now;
        Ok(())
    }

    /// Marks the record permanently frozen — irreversibly — provided both
    /// the wrapped and the original token account are already frozen.
    pub fn permanent_freeze(
        &mut self,
        original_token_account: &TokenAccount,
        swt_account: &TokenAccount,
    ) -> (r: Result<(), SecureWrapTokenError>)
        ensures
            r is Ok <==> swt_account.frozen && original_token_account.frozen,
            r is Err ==> r == Err::<(), SecureWrapTokenError>(
                SecureWrapTokenError::InvalidPermanentFreeze,
            ) && *final(self) == *old(self),
            r is Ok ==> *final(self) == (UserTokenState {
                permanently_frozen: true,
                ..*old(self)
            }),
            old(self).wf() ==> final(self).wf(),
            old(self).permanently_frozen ==> final(self).permanently_frozen,
    {
        if !(swt_account.frozen && original_token_account.frozen) {
            return Err(SecureWrapTokenError::InvalidPermanentFreeze);
        }
        self.permanently_frozen = true;
        Ok(())
    }

    /// Admits a redistribution of `amount` out of the permanently frozen
    /// account and adds it to the cumulative total, which never exceeds
    /// the account's balance.
    pub fn record_frozen_fund_distribution(&mut self, account: &TokenAccount, amount: u64) -> (r:
        Result<(), SecureWrapTokenError>)
        ensures
            r == distribution_result(*old(self), *account, amount),
            r is Ok ==> *final(self) == (UserTokenState {
                distribute_frozen_funds: (old(self).distribute_frozen_funds + amount) as u64,
                ..*old(self)
            }),
            r is Err ==> *final(self) == *old(self),
            old(self).wf() ==> final(self).wf(),
            old(self).permanently_frozen ==> final(self).permanently_frozen,
            final(self).distribute_frozen_funds >= old(self).distribute_frozen_funds,
    {
        if !(self.permanently_frozen && account.frozen) {
            return Err(SecureWrapTokenError::InvalidFrozenFundDistribution);
        }
        if self.distribute_frozen_funds > u64::MAX - amount {
            return Err(SecureWrapTokenError::MathOverflow);
        }
        let updated_distribute_frozen_funds = self.distribute_frozen_funds + amount;
        if updated_distribute_frozen_funds > account.amount {
            return Err(SecureWrapTokenError::FrozenFundDistributionExceeded);
        }
        self.distribute_frozen_funds = updated_distribute_frozen_funds;
        Ok(())
    }
}

impl Default for UserTokenState {
    /// The zeroed record a fresh storage slot holds before the first
    /// freeze binds it.
    fn default() -> (r: UserTokenState)
        ensures
            r == (UserTokenState {
                secure_wrap_token_account: Pubkey { id: 0 },
                thaw_eligible_timestamp: 0,
                thawed_at_timestamp: 0,
                permanently_frozen: false,
                distribute_frozen_funds: 0,
                initialized: false,
            }),
            r.wf(),
    {
        UserTokenState {
            secure_wrap_token_account: Pubkey { id: 0 },
            thaw_eligible_timestamp: 0,
            thawed_at_timestamp: 0,
            permanently_frozen: false,
            distribute_frozen_funds: 0,
            initialized: false,
        }
    }
}

} // verus!
