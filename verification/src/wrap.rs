//! Wrapping: escrow original asset, mint wrapped asset one-for-one.

use crate::error::{EngineError, SecureWrapTokenError};
use crate::ledger::{
    check_mint, check_transfer, mint_result, transfer_result, transfer_tokens, Mint, Pubkey,
    TokenAccount,
};
use crate::secure_wrap_token_state::SecureWrapTokenState;
use vstd::prelude::*;

verus! {

/// What a wrap of `amount` returns: the two accounts must belong to the
/// caller, the amount must be non-zero, the escrow transfer into custody
/// must go through, and the matching mint of wrapped asset must go
/// through.
pub open spec fn wrap_result(
    owner: Pubkey,
    secure_wrap_token_mint: Mint,
    token_account: TokenAccount,
    secure_wrap_token_account: TokenAccount,
    program_original_token_account: TokenAccount,
    amount: u64,
) -> Result<(), EngineError> {
    if token_account.owner != owner || secure_wrap_token_account.owner != owner {
        Err(EngineError::AccountMismatch)
    } else if amount == 0 {
        Err(EngineError::Token(SecureWrapTokenError::InvalidTokenAmount))
    } else {
        match transfer_result(token_account, program_original_token_account, amount) {
            Err(e) => Err(EngineError::Ledger(e)),
            Ok(()) => match mint_result(secure_wrap_token_mint, secure_wrap_token_account,
                amount) {
                Err(e) => Err(EngineError::Ledger(e)),
                Ok(()) => Ok(()),
            },
        }
    }
}

/// Wraps `amount`: sends the caller's original tokens into program custody
/// and mints an equal amount of wrapped tokens to the caller.
/// All-or-nothing: a rejected wrap moves nothing.
pub fn wrap(
    secure_wrap_token_state: &SecureWrapTokenState,
    secure_wrap_token_mint: &mut Mint,
    token_account: &mut TokenAccount,
    secure_wrap_token_account: &mut TokenAccount,
    program_original_token_account: &mut TokenAccount,
    owner: Pubkey,
    amount: u64,
) -> (r: Result<(), EngineError>)
    ensures
        r == wrap_result(
            owner,
            *old(secure_wrap_token_mint),
            *old(token_account),
            *old(secure_wrap_token_account),
            *old(program_original_token_account),
            amount,
        ),
        r is Ok ==> *final(token_account) == (TokenAccount {
            amount: (old(token_account).amount - amount) as u64,
            ..*old(token_account)
        }),
        r is Ok ==> *final(program_original_token_account) == (TokenAccount {
            amount: (old(program_original_token_account).amount + amount) as u64,
            ..*old(program_original_token_account)
        }),
        r is Ok ==> final(secure_wrap_token_mint).supply == old(secure_wrap_token_mint).supply
            + amount,
        r is Ok ==> *final(secure_wrap_token_account) == (TokenAccount {
            amount: (old(secure_wrap_token_account).amount + amount) as u64,
            ..*old(secure_wrap_token_account)
        }),
        r is Err ==> *final(secure_wrap_token_mint) == *old(secure_wrap_token_mint)
            && *final(token_account) == *old(token_account)
            && *final(secure_wrap_token_account) == *old(secure_wrap_token_account)
            && *final(program_original_token_account) == *old(program_original_token_account),
        // The supply stays backed: minted wrapped equals escrowed original.
        r is Ok ==> final(secure_wrap_token_mint).supply
            - final(program_original_token_account).amount
            == old(secure_wrap_token_mint).supply - old(program_original_token_account).amount,
{
    if !(token_account.owner == owner) || !(secure_wrap_token_account.owner == owner) {
        return Err(EngineError::AccountMismatch);
    }
    if amount == 0 {
        return Err(EngineError::Token(SecureWrapTokenError::InvalidTokenAmount));
    }
    match check_transfer(token_account, program_original_token_account, amount) {
        Err(e) => return Err(EngineError::Ledger(e)),
        Ok(()) => {},
    }
    match check_mint(secure_wrap_token_mint, secure_wrap_token_account, amount) {
        Err(e) => return Err(EngineError::Ledger(e)),
        Ok(()) => {},
    }
    // Send the user's tokens into program custody.
    match transfer_tokens(token_account, program_original_token_account, amount) {
        Err(e) => return Err(EngineError::Ledger(e)),
        Ok(()) => {},
    }
    // Mint an equal amount of wrapped tokens for the user.
    match secure_wrap_token_state.mint_wrapped_token(
        secure_wrap_token_mint,
        secure_wrap_token_account,
        amount,
    ) {
        Err(e) => return Err(EngineError::Ledger(e)),
        Ok(()) => {},
    }
    Ok(())
}

} // verus!
