//! The discounted order book: place, fill, and the cancellation paths.
//!
//! Each order is a maker's standing offer to trade `amount_in` of one
//! asset for `amount_out` of the other at a discount to the filler.  A
//! fill settles both legs in one step: the filler pays `amount_out`
//! straight to the maker and receives the escrowed `amount_in`.

use crate::error::{EngineError, SecureWrapTokenError};
use crate::global_state::{order_allowed_result, GlobalState};
use crate::ledger::{
    burn_result, check_transfer, transfer_result, transfer_tokens, Mint, Pubkey, TokenAccount,
};
use crate::order::{order_params_result, Order, Side};
use crate::secure_wrap_token_state::{send_to_frozen_result, SecureWrapTokenState};
use crate::user_token_state::UserTokenState;
use vstd::prelude::*;

verus! {

/// What placing an order returns: the maker must own both accounts, the
/// parameters must pass the side and discount validation, the book must
/// admit the side with neither maker account frozen, and the escrow
/// transfer must go through.  On success, the order record to store.
pub open spec fn place_order_result(
    gs: GlobalState,
    st: SecureWrapTokenState,
    owner: Pubkey,
    token_account: TokenAccount,
    secure_wrap_token_account: TokenAccount,
    program_original_token_account: TokenAccount,
    program_wrapped_token_account: TokenAccount,
    side: Side,
    amount_in: u64,
    amount_out: u64,
) -> Result<Order, EngineError> {
    if token_account.owner != owner || secure_wrap_token_account.owner != owner {
        Err(EngineError::AccountMismatch)
    } else {
        match order_params_result(side, amount_in, amount_out) {
            Err(e) => Err(EngineError::Token(e)),
            Ok(()) => match order_allowed_result(gs, side, token_account,
                secure_wrap_token_account) {
                Err(e) => Err(EngineError::Token(e)),
                Ok(()) => {
                    let escrow = if side is Unwrap {
                        transfer_result(
                            secure_wrap_token_account,
                            program_wrapped_token_account,
                            amount_in,
                        )
                    } else {
                        transfer_result(token_account, program_original_token_account, amount_in)
                    };
                    match escrow {
                        Err(e) => Err(EngineError::Ledger(e)),
                        Ok(()) => Ok(
                            Order {
                                owner,
                                secure_wrap_token_mint: st.secure_wrap_token_mint,
                                token_account: token_account.key,
                                secure_wrap_token_account: secure_wrap_token_account.key,
                                amount_in,
                                amount_out,
                                side,
                            },
                        ),
                    }
                },
            },
        }
    }
}

/// Places an order: validates the side, amounts and discount direction,
/// checks the gates and that neither maker account is frozen, escrows
/// `amount_in` from the side's originating account into custody, and
/// returns the order record to store.  The storage layer keeps at most
/// one order live per mint pair, user and side.  All-or-nothing.
pub fn place_order(
    global_state: &GlobalState,
    secure_wrap_token_state: &SecureWrapTokenState,
    owner: Pubkey,
    token_account: &mut TokenAccount,
    secure_wrap_token_account: &mut TokenAccount,
    program_original_token_account: &mut TokenAccount,
    program_wrapped_token_account: &mut TokenAccount,
    side: Side,
    amount_in: u64,
    amount_out: u64,
) -> (r: Result<Order, EngineError>)
    ensures
        r == place_order_result(
            *global_state,
            *secure_wrap_token_state,
            owner,
            *old(token_account),
            *old(secure_wrap_token_account),
            *old(program_original_token_account),
            *old(program_wrapped_token_account),
            side,
            amount_in,
            amount_out,
        ),
        r matches Ok(order) ==> order.wf(),
        r is Ok && side is Unwrap ==> *final(secure_wrap_token_account) == (TokenAccount {
            amount: (old(secure_wrap_token_account).amount - amount_in) as u64,
            ..*old(secure_wrap_token_account)
        }) && *final(program_wrapped_token_account) == (TokenAccount {
            amount: (old(program_wrapped_token_account).amount + amount_in) as u64,
            ..*old(program_wrapped_token_account)
        }) && *final(token_account) == *old(token_account)
            && *final(program_original_token_account) == *old(program_original_token_account),
        r is Ok && side is Wrap ==> *final(token_account) == (TokenAccount {
            amount: (old(token_account).amount - amount_in) as u64,
            ..*old(token_account)
        }) && *final(program_original_token_account) == (TokenAccount {
            amount: (old(program_original_token_account).amount + amount_in) as u64,
            ..*old(program_original_token_account)
        }) && *final(secure_wrap_token_account) == *old(secure_wrap_token_account)
            && *final(program_wrapped_token_account) == *old(program_wrapped_token_account),
        r is Err ==> *final(token_account) == *old(token_account)
            && *final(secure_wrap_token_account) == *old(secure_wrap_token_account)
            && *final(program_original_token_account) == *old(program_original_token_account)
            && *final(program_wrapped_token_account) == *old(program_wrapped_token_account),
{
    if !(token_account.owner == owner) || !(secure_wrap_token_account.owner == owner) {
        return Err(EngineError::AccountMismatch);
    }
    let mut order = Order::default();
    match order.initialize(
        side,
        owner,
        secure_wrap_token_state.secure_wrap_token_mint,
        token_account.key,
        secure_wrap_token_account.key,
        amount_in,
        amount_out,
    ) {
        Err(e) => return Err(EngineError::Token(e)),
        Ok(()) => {},
    }
    match global_state.validate_order_allowed(side, token_account, secure_wrap_token_account) {
        Err(e) => return Err(EngineError::Token(e)),
        Ok(()) => {},
    }
    if matches!(side, Side::Unwrap) {
        // The maker escrows wrapped tokens under program custody.
        match transfer_tokens(secure_wrap_token_account, program_wrapped_token_account, amount_in) {
            Err(e) => return Err(EngineError::Ledger(e)),
            Ok(()) => {},
        }
    } else {
        // The maker escrows original tokens under program custody.
        match transfer_tokens(token_account, program_original_token_account, amount_in) {
            Err(e) => return Err(EngineError::Ledger(e)),
            Ok(()) => {},
        }
    }
    Ok(order)
}

/// What filling an order returns: the filler must own their two accounts,
/// the supplied maker accounts must be the order's bound ones and the
/// side must match, the book must admit the side with neither maker
/// account frozen, and both settlement transfers must go through.
pub open spec fn fill_order_result(
    gs: GlobalState,
    order: Order,
    owner: Pubkey,
    token_account: TokenAccount,
    secure_wrap_token_account: TokenAccount,
    order_token_account: TokenAccount,
    order_secure_wrap_token_account: TokenAccount,
    program_original_token_account: TokenAccount,
    program_wrapped_token_account: TokenAccount,
    side: Side,
) -> Result<(), EngineError> {
    if token_account.owner != owner || secure_wrap_token_account.owner != owner {
        Err(EngineError::AccountMismatch)
    } else if order_token_account.key != order.token_account
        || order_secure_wrap_token_account.key != order.secure_wrap_token_account
        || order_token_account.owner != order.owner || order_secure_wrap_token_account.owner
        != order.owner || order.side != side {
        Err(EngineError::AccountMismatch)
    } else {
        match order_allowed_result(gs, side, order_token_account,
            order_secure_wrap_token_account) {
            Err(e) => Err(EngineError::Token(e)),
            Ok(()) => if order.side is Unwrap {
                match transfer_result(token_account, order_token_account, order.amount_out) {
                    Err(e) => Err(EngineError::Ledger(e)),
                    Ok(()) => match transfer_result(
                        program_wrapped_token_account,
                        secure_wrap_token_account,
                        order.amount_in,
                    ) {
                        Err(e) => Err(EngineError::Ledger(e)),
                        Ok(()) => Ok(()),
                    },
                }
            } else {
                match transfer_result(
                    secure_wrap_token_account,
                    order_secure_wrap_token_account,
                    order.amount_out,
                ) {
                    Err(e) => Err(EngineError::Ledger(e)),
                    Ok(()) => match transfer_result(
                        program_original_token_account,
                        token_account,
                        order.amount_in,
                    ) {
                        Err(e) => Err(EngineError::Ledger(e)),
                        Ok(()) => Ok(()),
                    },
                }
            },
        }
    }
}

/// Fills a maker's order with the filler's own funds: pays `amount_out`
/// straight to the maker's receiving account and releases the escrowed
/// `amount_in` from custody to the filler.  On success the caller
/// destroys the order record.  All-or-nothing.
pub fn fill_order(
    global_state: &GlobalState,
    secure_wrap_token_state: &SecureWrapTokenState,
    order: &Order,
    owner: Pubkey,
    token_account: &mut TokenAccount,
    secure_wrap_token_account: &mut TokenAccount,
    order_token_account: &mut TokenAccount,
    order_secure_wrap_token_account: &mut TokenAccount,
    program_original_token_account: &mut TokenAccount,
    program_wrapped_token_account: &mut TokenAccount,
    side: Side,
) -> (r: Result<(), EngineError>)
    ensures
        r == fill_order_result(
            *global_state,
            *order,
            owner,
            *old(token_account),
            *old(secure_wrap_token_account),
            *old(order_token_account),
            *old(order_secure_wrap_token_account),
            *old(program_original_token_account),
            *old(program_wrapped_token_account),
            side,
        ),
        r is Ok && order.side is Unwrap ==> *final(token_account) == (TokenAccount {
            amount: (old(token_account).amount - order.amount_out) as u64,
            ..*old(token_account)
        }) && *final(order_token_account) == (TokenAccount {
            amount: (old(order_token_account).amount + order.amount_out) as u64,
            ..*old(order_token_account)
        }) && *final(program_wrapped_token_account) == (TokenAccount {
            amount: (old(program_wrapped_token_account).amount - order.amount_in) as u64,
            ..*old(program_wrapped_token_account)
        }) && *final(secure_wrap_token_account) == (TokenAccount {
            amount: (old(secure_wrap_token_account).amount + order.amount_in) as u64,
            ..*old(secure_wrap_token_account)
        }) && *final(order_secure_wrap_token_account) == *old(order_secure_wrap_token_account)
            && *final(program_original_token_account) == *old(program_original_token_account),
        r is Ok && order.side is Wrap ==> *final(secure_wrap_token_account) == (TokenAccount {
            amount: (old(secure_wrap_token_account).amount - order.amount_out) as u64,
            ..*old(secure_wrap_token_account)
        }) && *final(order_secure_wrap_token_account) == (TokenAccount {
            amount: (old(order_secure_wrap_token_account).amount + order.amount_out) as u64,
            ..*old(order_secure_wrap_token_account)
        }) && *final(program_original_token_account) == (TokenAccount {
            amount: (old(program_original_token_account).amount - order.amount_in) as u64,
            ..*old(program_original_token_account)
        }) && *final(token_account) == (TokenAccount {
            amount: (old(token_account).amount + order.amount_in) as u64,
            ..*old(token_account)
        }) && *final(order_token_account) == *old(order_token_account)
            && *final(program_wrapped_token_account) == *old(program_wrapped_token_account),
        r is Err ==> *final(token_account) == *old(token_account)
            && *final(secure_wrap_token_account) == *old(secure_wrap_token_account)
            && *final(order_token_account) == *old(order_token_account)
            && *final(order_secure_wrap_token_account) == *old(order_secure_wrap_token_account)
            && *final(program_original_token_account) == *old(program_original_token_account)
            && *final(program_wrapped_token_account) == *old(program_wrapped_token_account),
{
    if !(token_account.owner == owner) || !(secure_wrap_token_account.owner == owner) {
        return Err(EngineError::AccountMismatch);
    }
    if !(order_token_account.key == order.token_account) || !(order_secure_wrap_token_account.key
        == order.secure_wrap_token_account) || !(order_token_account.owner == order.owner) || !(
    order_secure_wrap_token_account.owner == order.owner) || !(order.side == side) {
        return Err(EngineError::AccountMismatch);
    }
    match global_state.validate_order_allowed(
        side,
        order_token_account,
        order_secure_wrap_token_account,
    ) {
        Err(e) => return Err(EngineError::Token(e)),
        Ok(()) => {},
    }
    if matches!(order.side, Side::Unwrap) {
        match check_transfer(token_account, order_token_account, order.amount_out) {
            Err(e) => return Err(EngineError::Ledger(e)),
            Ok(()) => {},
        }
        match check_transfer(
            program_wrapped_token_account,
            secure_wrap_token_account,
            order.amount_in,
        ) {
            Err(e) => return Err(EngineError::Ledger(e)),
            Ok(()) => {},
        }
        // Pay the filler's original tokens straight to the maker.
        match transfer_tokens(token_account, order_token_account, order.amount_out) {
            Err(e) => return Err(EngineError::Ledger(e)),
            Ok(()) => {},
        }
        // Release the escrowed wrapped tokens to the filler.
        match secure_wrap_token_state.send_wrapped_token(
            secure_wrap_token_account,
            program_wrapped_token_account,
            order.amount_in,
        ) {
            Err(e) => return Err(EngineError::Ledger(e)),
            Ok(()) => {},
        }
    } else {
        match check_transfer(
            secure_wrap_token_account,
            order_secure_wrap_token_account,
            order.amount_out,
        ) {
            Err(e) => return Err(EngineError::Ledger(e)),
            Ok(()) => {},
        }
        match check_transfer(program_original_token_account, token_account, order.amount_in) {
            Err(e) => return Err(EngineError::Ledger(e)),
            Ok(()) => {},
        }
        // Pay the filler's wrapped tokens straight to the maker.
        match transfer_tokens(
            secure_wrap_token_account,
            order_secure_wrap_token_account,
            order.amount_out,
        ) {
            Err(e) => return Err(EngineError::Ledger(e)),
            Ok(()) => {},
        }
        // Release the escrowed original tokens to the filler.
        match secure_wrap_token_state.send_original_token(
            token_account,
            program_original_token_account,
            order.amount_in,
        ) {
            Err(e) => return Err(EngineError::Ledger(e)),
            Ok(()) => {},
        }
    }
    Ok(())
}

/// What a program fill returns: the caller must hold the authority key,
/// the maker accounts must be the order's bound ones with a matching
/// side, the book must admit the side, only the unwrap side may be
/// program-filled, and the payout, the spread credit and the burn must
/// all go through.
pub open spec fn fill_order_program_result(
    gs: GlobalState,
    order: Order,
    authority: Pubkey,
    order_token_account: TokenAccount,
    order_secure_wrap_token_account: TokenAccount,
    token_account_to_credit: TokenAccount,
    program_original_token_account: TokenAccount,
    program_wrapped_token_account: TokenAccount,
    secure_wrap_token_mint: Mint,
    side: Side,
) -> Result<(), EngineError> {
    if authority != gs.upgrade_authority {
        Err(EngineError::Unauthorized)
    } else if order_token_account.key != order.token_account
        || order_secure_wrap_token_account.key != order.secure_wrap_token_account
        || order_token_account.owner != order.owner || order_secure_wrap_token_account.owner
        != order.owner || order.side != side {
        Err(EngineError::AccountMismatch)
    } else {
        match order_allowed_result(gs, side, order_token_account,
            order_secure_wrap_token_account) {
            Err(e) => Err(EngineError::Token(e)),
            Ok(()) => if side !is Unwrap {
                Err(EngineError::Token(SecureWrapTokenError::ProgramCannotFillWrapOrders))
            } else {
                match transfer_result(
                    program_original_token_account,
                    order_token_account,
                    order.amount_out,
                ) {
                    Err(e) => Err(EngineError::Ledger(e)),
                    Ok(()) => if order.amount_in < order.amount_out {
                        Err(EngineError::Token(SecureWrapTokenError::MathOverflow))
                    } else {
                        let fill_profit = (order.amount_in - order.amount_out) as u64;
                        match transfer_result(
                            program_wrapped_token_account,
                            token_account_to_credit,
                            fill_profit,
                        ) {
                            Err(e) => Err(EngineError::Ledger(e)),
                            Ok(()) => match burn_result(
                                secure_wrap_token_mint,
                                TokenAccount {
                                    amount: (program_wrapped_token_account.amount
                                        - fill_profit) as u64,
                                    ..program_wrapped_token_account
                                },
                                order.amount_out,
                            ) {
                                Err(e) => Err(EngineError::Ledger(e)),
                                Ok(()) => Ok(()),
                            },
                        }
                    },
                }
            },
        }
    }
}

/// Fills a discounted unwrap order from program custody: pays the maker
/// `amount_out` of original asset out of custody, credits the spread
/// `amount_in - amount_out` of wrapped asset to a chosen account as
/// protocol revenue, and burns the `amount_out` of wrapped asset whose
/// original backing has left custody.  On success the caller destroys
/// the order record.  All-or-nothing.
pub fn fill_order_program(
    global_state: &GlobalState,
    secure_wrap_token_state: &SecureWrapTokenState,
    order: &Order,
    authority: Pubkey,
    order_token_account: &mut TokenAccount,
    order_secure_wrap_token_account: &TokenAccount,
    token_account_to_credit: &mut TokenAccount,
    program_original_token_account: &mut TokenAccount,
    program_wrapped_token_account: &mut TokenAccount,
    secure_wrap_token_mint: &mut Mint,
    side: Side,
) -> (r: Result<(), EngineError>)
    ensures
        r == fill_order_program_result(
            *global_state,
            *order,
            authority,
            *old(order_token_account),
            *order_secure_wrap_token_account,
            *old(token_account_to_credit),
            *old(program_original_token_account),
            *old(program_wrapped_token_account),
            *old(secure_wrap_token_mint),
            side,
        ),
        r is Ok ==> *final(program_original_token_account) == (TokenAccount {
            amount: (old(program_original_token_account).amount - order.amount_out) as u64,
            ..*old(program_original_token_account)
        }),
        r is Ok ==> *final(order_token_account) == (TokenAccount {
            amount: (old(order_token_account).amount + order.amount_out) as u64,
            ..*old(order_token_account)
        }),
        r is Ok ==> *final(program_wrapped_token_account) == (TokenAccount {
            amount: (old(program_wrapped_token_account).amount - order.amount_in) as u64,
            ..*old(program_wrapped_token_account)
        }),
        r is Ok ==> *final(token_account_to_credit) == (TokenAccount {
            amount: (old(token_account_to_credit).amount + (order.amount_in
                - order.amount_out)) as u64,
            ..*old(token_account_to_credit)
        }),
        r is Ok ==> final(secure_wrap_token_mint).supply == old(secure_wrap_token_mint).supply
            - order.amount_out,
        r is Err ==> *final(order_token_account) == *old(order_token_account)
            && *final(token_account_to_credit) == *old(token_account_to_credit)
            && *final(program_original_token_account) == *old(program_original_token_account)
            && *final(program_wrapped_token_account) == *old(program_wrapped_token_account)
            && *final(secure_wrap_token_mint) == *old(secure_wrap_token_mint),
        // The supply stays backed: burned wrapped equals the original
        // asset that left custody to settle the order.
        r is Ok ==> final(secure_wrap_token_mint).supply
            - final(program_original_token_account).amount
            == old(secure_wrap_token_mint).supply - old(program_original_token_account).amount,
{
    if !(authority == global_state.upgrade_authority) {
        return Err(EngineError::Unauthorized);
    }
    if !(order_token_account.key == order.token_account) || !(order_secure_wrap_token_account.key
        == order.secure_wrap_token_account) || !(order_token_account.owner == order.owner) || !(
    order_secure_wrap_token_account.owner == order.owner) || !(order.side == side) {
        return Err(EngineError::AccountMismatch);
    }
    match global_state.validate_order_allowed(
        side,
        order_token_account,
        order_secure_wrap_token_account,
    ) {
        Err(e) => return Err(EngineError::Token(e)),
        Ok(()) => {},
    }
    if !matches!(side, Side::Unwrap) {
        return Err(EngineError::Token(SecureWrapTokenError::ProgramCannotFillWrapOrders));
    }
    match check_transfer(program_original_token_account, order_token_account, order.amount_out) {
        Err(e) => return Err(EngineError::Ledger(e)),
        Ok(()) => {},
    }
    // The fill profit is amount_in - amount_out, in wrapped tokens.
    if order.amount_in < order.amount_out {
        return Err(EngineError::Token(SecureWrapTokenError::MathOverflow));
    }
    let fill_profit = order.amount_in - order.amount_out;
    match check_transfer(program_wrapped_token_account, token_account_to_credit, fill_profit) {
        Err(e) => return Err(EngineError::Ledger(e)),
        Ok(()) => {},
    }
    if program_wrapped_token_account.amount - fill_profit < order.amount_out
        || secure_wrap_token_mint.supply < order.amount_out {
        return Err(EngineError::Ledger(crate::error::LedgerError::InsufficientFunds));
    }
    // Send original tokens from custody to settle the order.
    match secure_wrap_token_state.send_original_token(
        order_token_account,
        program_original_token_account,
        order.amount_out,
    ) {
        Err(e) => return Err(EngineError::Ledger(e)),
        Ok(()) => {},
    }
    // Credit the spread to the chosen account as protocol revenue.
    match secure_wrap_token_state.send_wrapped_token(
        token_account_to_credit,
        program_wrapped_token_account,
        fill_profit,
    ) {
        Err(e) => return Err(EngineError::Ledger(e)),
        Ok(()) => {},
    }
    // Burn the wrapped tokens whose original backing has left custody.
    match secure_wrap_token_state.burn_wrapped_token(
        secure_wrap_token_mint,
        program_wrapped_token_account,
        order.amount_out,
    ) {
        Err(e) => return Err(EngineError::Ledger(e)),
        Ok(()) => {},
    }
    Ok(())
}

/// What a maker cancellation returns: the caller must be the order's
/// owner and supply its bound accounts with a matching side, and the
/// escrow refund must go through.  Cancellation is not gated by the halt
/// switches.
pub open spec fn cancel_order_result(
    order: Order,
    owner: Pubkey,
    token_account: TokenAccount,
    secure_wrap_token_account: TokenAccount,
    program_original_token_account: TokenAccount,
    program_wrapped_token_account: TokenAccount,
    side: Side,
) -> Result<(), EngineError> {
    if order.owner != owner {
        Err(EngineError::Unauthorized)
    } else if token_account.key != order.token_account || secure_wrap_token_account.key
        != order.secure_wrap_token_account || token_account.owner != owner
        || secure_wrap_token_account.owner != owner || order.side != side {
        Err(EngineError::AccountMismatch)
    } else {
        let refund = if order.side is Unwrap {
            transfer_result(program_wrapped_token_account, secure_wrap_token_account,
                order.amount_in)
        } else {
            transfer_result(program_original_token_account, token_account, order.amount_in)
        };
        match refund {
            Err(e) => Err(EngineError::Ledger(e)),
            Ok(()) => Ok(()),
        }
    }
}

/// Cancels the caller's own order: returns the escrowed `amount_in` from
/// custody to the account it came from.  On success the caller destroys
/// the order record.
pub fn cancel_order(
    secure_wrap_token_state: &SecureWrapTokenState,
    order: &Order,
    owner: Pubkey,
    token_account: &mut TokenAccount,
    secure_wrap_token_account: &mut TokenAccount,
    program_original_token_account: &mut TokenAccount,
    program_wrapped_token_account: &mut TokenAccount,
    side: Side,
) -> (r: Result<(), EngineError>)
    ensures
        r == cancel_order_result(
            *order,
            owner,
            *old(token_account),
            *old(secure_wrap_token_account),
            *old(program_original_token_account),
            *old(program_wrapped_token_account),
            side,
        ),
        r is Ok && order.side is Unwrap ==> *final(program_wrapped_token_account)
            == (TokenAccount {
            amount: (old(program_wrapped_token_account).amount - order.amount_in) as u64,
            ..*old(program_wrapped_token_account)
        }) && *final(secure_wrap_token_account) == (TokenAccount {
            amount: (old(secure_wrap_token_account).amount + order.amount_in) as u64,
            ..*old(secure_wrap_token_account)
        }) && *final(token_account) == *old(token_account)
            && *final(program_original_token_account) == *old(program_original_token_account),
        r is Ok && order.side is Wrap ==> *final(program_original_token_account)
            == (TokenAccount {
            amount: (old(program_original_token_account).amount - order.amount_in) as u64,
            ..*old(program_original_token_account)
        }) && *final(token_account) == (TokenAccount {
            amount: (old(token_account).amount + order.amount_in) as u64,
            ..*old(token_account)
        }) && *final(secure_wrap_token_account) == *old(secure_wrap_token_account)
            && *final(program_wrapped_token_account) == *old(program_wrapped_token_account),
        r is Err ==> *final(token_account) == *old(token_account)
            && *final(secure_wrap_token_account) == *old(secure_wrap_token_account)
            && *final(program_original_token_account) == *old(program_original_token_account)
            && *final(program_wrapped_token_account) == *old(program_wrapped_token_account),
{
    if !(order.owner == owner) {
        return Err(EngineError::Unauthorized);
    }
    if !(token_account.key == order.token_account) || !(secure_wrap_token_account.key
        == order.secure_wrap_token_account) || !(token_account.owner == owner) || !(
    secure_wrap_token_account.owner == owner) || !(order.side == side) {
        return Err(EngineError::AccountMismatch);
    }
    // Send the escrowed tokens back to the order's owner.
    if matches!(order.side, Side::Unwrap) {
        match secure_wrap_token_state.send_wrapped_token(
            secure_wrap_token_account,
            program_wrapped_token_account,
            order.amount_in,
        ) {
            Err(e) => return Err(EngineError::Ledger(e)),
            Ok(()) => {},
        }
    } else {
        match secure_wrap_token_state.send_original_token(
            token_account,
            program_original_token_account,
            order.amount_in,
        ) {
            Err(e) => return Err(EngineError::Ledger(e)),
            Ok(()) => {},
        }
    }
    Ok(())
}

/// What an authority cancellation returns: the caller must hold the
/// authority key, the supplied accounts must be the order's bound ones,
/// and only an unwrap-side order of a permanently frozen user may be
/// cancelled this way; the compound send into the frozen account must go
/// through.
pub open spec fn cancel_order_program_result(
    gs: GlobalState,
    st: SecureWrapTokenState,
    authority: Pubkey,
    permanently_frozen_user: Pubkey,
    uts: UserTokenState,
    order: Order,
    secure_wrap_token_account: TokenAccount,
    program_wrapped_token_account: TokenAccount,
    side: Side,
) -> Result<(), EngineError> {
    if authority != gs.upgrade_authority {
        Err(EngineError::Unauthorized)
    } else if order.owner != permanently_frozen_user || secure_wrap_token_account.key
        != order.secure_wrap_token_account || secure_wrap_token_account.owner
        != permanently_frozen_user || uts.secure_wrap_token_account
        != secure_wrap_token_account.key || order.side != side {
        Err(EngineError::AccountMismatch)
    } else if !(uts.permanently_frozen && side is Unwrap) {
        Err(EngineError::Token(SecureWrapTokenError::ProgramCancelOrderError))
    } else {
        send_to_frozen_result(st, program_wrapped_token_account, secure_wrap_token_account,
            order.amount_in)
    }
}

/// Cancels a permanently frozen user's unwrap-side order on the
/// authority's behalf: the escrowed wrapped tokens go back into the
/// frozen account through the compound thaw-send-refreeze step, and are
/// recorded as newly captured supply.  On success the caller destroys
/// the order record.
pub fn cancel_order_program(
    global_state: &GlobalState,
    secure_wrap_token_state: &mut SecureWrapTokenState,
    authority: Pubkey,
    permanently_frozen_user: Pubkey,
    user_token_state: &UserTokenState,
    order: &Order,
    secure_wrap_token_account: &mut TokenAccount,
    program_wrapped_token_account: &mut TokenAccount,
    side: Side,
) -> (r: Result<(), EngineError>)
    ensures
        r == cancel_order_program_result(
            *global_state,
            *old(secure_wrap_token_state),
            authority,
            permanently_frozen_user,
            *user_token_state,
            *order,
            *old(secure_wrap_token_account),
            *old(program_wrapped_token_account),
            side,
        ),
        r is Ok ==> *final(secure_wrap_token_account) == (TokenAccount {
            amount: (old(secure_wrap_token_account).amount + order.amount_in) as u64,
            ..*old(secure_wrap_token_account)
        }),
        r is Ok ==> *final(program_wrapped_token_account) == (TokenAccount {
            amount: (old(program_wrapped_token_account).amount - order.amount_in) as u64,
            ..*old(program_wrapped_token_account)
        }),
        r is Ok ==> *final(secure_wrap_token_state) == (SecureWrapTokenState {
            permanently_frozen_token_supply: (old(
                secure_wrap_token_state,
            ).permanently_frozen_token_supply + order.amount_in) as u64,
            ..*old(secure_wrap_token_state)
        }),
        r is Err ==> *final(secure_wrap_token_state) == *old(secure_wrap_token_state)
            && *final(secure_wrap_token_account) == *old(secure_wrap_token_account)
            && *final(program_wrapped_token_account) == *old(program_wrapped_token_account),
        final(secure_wrap_token_account).frozen == old(secure_wrap_token_account).frozen,
{
    if !(authority == global_state.upgrade_authority) {
        return Err(EngineError::Unauthorized);
    }
    if !(order.owner == permanently_frozen_user) || !(secure_wrap_token_account.key
        == order.secure_wrap_token_account) || !(secure_wrap_token_account.owner
        == permanently_frozen_user) || !(user_token_state.secure_wrap_token_account
        == secure_wrap_token_account.key) || !(order.side == side) {
        return Err(EngineError::AccountMismatch);
    }
    if !(user_token_state.permanently_frozen && matches!(side, Side::Unwrap)) {
        return Err(EngineError::Token(SecureWrapTokenError::ProgramCancelOrderError));
    }
    secure_wrap_token_state.send_swt_to_frozen_account(
        program_wrapped_token_account,
        secure_wrap_token_account,
        order.amount_in,
    )
}

} // verus!
