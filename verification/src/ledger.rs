//! Model of the external custody ledger.
//!
//! The engine delegates every balance mutation to an external token ledger
//! that offers atomic, authenticated transfer, mint, burn, freeze and thaw
//! primitives keyed by token-account identity.  This module states that
//! interface over plain values — a token account is a balance, a frozen
//! flag and its identity; a mint is its outstanding supply — and gives each
//! primitive an exact contract: which inputs it accepts, which error each
//! rejected input produces, and that a rejected call changes nothing.

use crate::error::LedgerError;
use vstd::prelude::*;

verus! {

/// An opaque account or key identity.  Only equality matters.
#[derive(Clone, Copy, PartialEq, Eq, Structural, Debug)]
pub struct Pubkey {
    pub id: u64,
}

/// A token account of the ledger: its identity, its owner's key, its
/// balance and whether it is currently frozen.
#[derive(Clone, Copy, PartialEq, Eq, Structural, Debug)]
pub struct TokenAccount {
    pub key: Pubkey,
    pub owner: Pubkey,
    pub amount: u64,
    pub frozen: bool,
}

/// A token mint: the outstanding supply of its token.
#[derive(Clone, Copy, PartialEq, Eq, Structural, Debug)]
pub struct Mint {
    pub supply: u64,
}

/// What a transfer of `amount` from `from` to `to` returns: frozen
/// accounts take no part, the source must hold the amount, and the
/// destination balance must stay representable.
pub open spec fn transfer_result(from: TokenAccount, to: TokenAccount, amount: u64) -> Result<
    (),
    LedgerError,
> {
    if from.frozen || to.frozen {
        Err(LedgerError::AccountFrozen)
    } else if from.amount < amount {
        Err(LedgerError::InsufficientFunds)
    } else if to.amount + amount > u64::MAX {
        Err(LedgerError::MathOverflow)
    } else {
        Ok(())
    }
}

/// Ledger transfer primitive: moves `amount` from `from` to `to`.
pub fn transfer_tokens(from: &mut TokenAccount, to: &mut TokenAccount, amount: u64) -> (r: Result<
    (),
    LedgerError,
>)
    ensures
        r == transfer_result(*old(from), *old(to), amount),
        r is Ok ==> *final(from) == (TokenAccount {
            amount: (old(from).amount - amount) as u64,
            ..*old(from)
        }),
        r is Ok ==> *final(to) == (TokenAccount {
            amount: (old(to).amount + amount) as u64,
            ..*old(to)
        }),
        r is Err ==> *final(from) == *old(from) && *final(to) == *old(to),
{
    if from.frozen || to.frozen {
        Err(LedgerError::AccountFrozen)
    } else if from.amount < amount {
        Err(LedgerError::InsufficientFunds)
    } else if to.amount > u64::MAX - amount {
        Err(LedgerError::MathOverflow)
    } else {
        from.amount = from.amount - amount;
        to.amount = to.amount + amount;
        Ok(())
    }
}

/// What minting `amount` to `to` returns: the destination must not be
/// frozen, and neither the supply nor the destination balance may overflow.
pub open spec fn mint_result(mint: Mint, to: TokenAccount, amount: u64) -> Result<
    (),
    LedgerError,
> {
    if to.frozen {
        Err(LedgerError::AccountFrozen)
    } else if mint.supply + amount > u64::MAX || to.amount + amount > u64::MAX {
        Err(LedgerError::MathOverflow)
    } else {
        Ok(())
    }
}

/// Ledger mint primitive: creates `amount` new tokens in `to`.
pub fn mint_tokens(mint: &mut Mint, to: &mut TokenAccount, amount: u64) -> (r: Result<
    (),
    LedgerError,
>)
    ensures
        r == mint_result(*old(mint), *old(to), amount),
        r is Ok ==> final(mint).supply == old(mint).supply + amount,
        r is Ok ==> *final(to) == (TokenAccount {
            amount: (old(to).amount + amount) as u64,
            ..*old(to)
        }),
        r is Err ==> *final(mint) == *old(mint) && *final(to) == *old(to),
{
    if to.frozen {
        Err(LedgerError::AccountFrozen)
    } else if mint.supply > u64::MAX - amount || to.amount > u64::MAX - amount {
        Err(LedgerError::MathOverflow)
    } else {
        mint.supply = mint.supply + amount;
        to.amount = to.amount + amount;
        Ok(())
    }
}

/// What burning `amount` from `from` returns: the account must not be
/// frozen and both the account and the supply must hold the amount.
pub open spec fn burn_result(mint: Mint, from: TokenAccount, amount: u64) -> Result<
    (),
    LedgerError,
> {
    if from.frozen {
        Err(LedgerError::AccountFrozen)
    } else if from.amount < amount || mint.supply < amount {
        Err(LedgerError::InsufficientFunds)
    } else {
        Ok(())
    }
}

/// Ledger burn primitive: destroys `amount` tokens held by `from`.
pub fn burn_tokens(mint: &mut Mint, from: &mut TokenAccount, amount: u64) -> (r: Result<
    (),
    LedgerError,
>)
    ensures
        r == burn_result(*old(mint), *old(from), amount),
        r is Ok ==> final(mint).supply == old(mint).supply - amount,
        r is Ok ==> *final(from) == (TokenAccount {
            amount: (old(from).amount - amount) as u64,
            ..*old(from)
        }),
        r is Err ==> *final(mint) == *old(mint) && *final(from) == *old(from),
{
    if from.frozen {
        Err(LedgerError::AccountFrozen)
    } else if from.amount < amount || mint.supply < amount {
        Err(LedgerError::InsufficientFunds)
    } else {
        mint.supply = mint.supply - amount;
        from.amount = from.amount - amount;
        Ok(())
    }
}

/// Admission check for a transfer: what `transfer_tokens` would return,
/// without moving anything.  Operations validate every step before they
/// dispatch the first custody call, so that a rejected operation changes
/// nothing.
pub fn check_transfer(from: &TokenAccount, to: &TokenAccount, amount: u64) -> (r: Result<
    (),
    LedgerError,
>)
    ensures
        r == transfer_result(*from, *to, amount),
{
    if from.frozen || to.frozen {
        Err(LedgerError::AccountFrozen)
    } else if from.amount < amount {
        Err(LedgerError::InsufficientFunds)
    } else if to.amount > u64::MAX - amount {
        Err(LedgerError::MathOverflow)
    } else {
        Ok(())
    }
}

/// Admission check for a mint: what `mint_tokens` would return, without
/// minting anything.
pub fn check_mint(mint: &Mint, to: &TokenAccount, amount: u64) -> (r: Result<(), LedgerError>)
    ensures
        r == mint_result(*mint, *to, amount),
{
    if to.frozen {
        Err(LedgerError::AccountFrozen)
    } else if mint.supply > u64::MAX - amount || to.amount > u64::MAX - amount {
        Err(LedgerError::MathOverflow)
    } else {
        Ok(())
    }
}

/// Admission check for a burn: what `burn_tokens` would return, without
/// burning anything.
pub fn check_burn(mint: &Mint, from: &TokenAccount, amount: u64) -> (r: Result<(), LedgerError>)
    ensures
        r == burn_result(*mint, *from, amount),
{
    if from.frozen {
        Err(LedgerError::AccountFrozen)
    } else if from.amount < amount || mint.supply < amount {
        Err(LedgerError::InsufficientFunds)
    } else {
        Ok(())
    }
}

/// Ledger freeze primitive: locks an account; fails on one already frozen.
pub fn freeze_token_account(account: &mut TokenAccount) -> (r: Result<(), LedgerError>)
    ensures
        r is Ok <==> !old(account).frozen,
        r is Err ==> r == Err::<(), LedgerError>(LedgerError::InvalidAccountState),
        r is Ok ==> *final(account) == (TokenAccount { frozen: true, ..*old(account) }),
        r is Err ==> *final(account) == *old(account),
{
    if account.frozen {
        Err(LedgerError::InvalidAccountState)
    } else {
        account.frozen = true;
        Ok(())
    }
}

/// Ledger thaw primitive: unlocks an account; fails on one not frozen.
pub fn thaw_token_account(account: &mut TokenAccount) -> (r: Result<(), LedgerError>)
    ensures
        r is Ok <==> old(account).frozen,
        r is Err ==> r == Err::<(), LedgerError>(LedgerError::InvalidAccountState),
        r is Ok ==> *final(account) == (TokenAccount { frozen: false, ..*old(account) }),
        r is Err ==> *final(account) == *old(account),
{
    if !account.frozen {
        Err(LedgerError::InvalidAccountState)
    } else {
        account.frozen = false;
        Ok(())
    }
}

} // verus!
