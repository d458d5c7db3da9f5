//! Error conditions surfaced by the engine.
//!
//! `SecureWrapTokenError` names the engine's own precondition failures.
//! `LedgerError` names the failures of the external token-ledger
//! primitives, as the ledger model in `crate::ledger` states them.
//! `EngineError` is the result type of a whole operation: it carries either
//! kind, or one of the two cross-cutting admission failures (a caller key
//! that does not match, or a supplied account that is not the one a record
//! is bound to).

use vstd::prelude::*;

verus! {

#[derive(Clone, Copy, PartialEq, Eq, Structural, Debug)]
pub enum SecureWrapTokenError {
    /// The current time reading is behind what an operation requires.
    ClockDriftError,
    /// Overflow in a checked arithmetic operation.
    MathOverflow,
    /// A user freeze record is bound to a different wrapped-token account.
    InvalidUserTokenStateAccount,
    /// Thaw requested before the thaw-eligible time.
    PrematureThaw,
    /// A permanently frozen account cannot be thawed.
    AccountPermanentlyFrozen,
    /// Thaw requested on an account that is not frozen.
    InvalidThaw,
    /// Permanent freeze requires both the wrapped and the original token
    /// account to already be frozen.
    InvalidPermanentFreeze,
    /// The account was recently frozen and is not yet eligible to freeze
    /// again.
    IneligibleFreezeError,
    /// The freeze period exceeds the fourteen-day maximum.
    FreezePeriodMaximumExceeded,
    /// Frozen funds can only be redistributed from a permanently frozen
    /// account.
    InvalidFrozenFundDistribution,
    /// Cumulative distributions cannot exceed the frozen account's balance.
    FrozenFundDistributionExceeded,
    /// A token amount must be non-zero.
    InvalidTokenAmount,
    /// An unwrap order must have `amount_in > amount_out`; a wrap order must
    /// have `amount_out > amount_in`.
    InvalidOrderAmount,
    /// Orders are currently halted.
    OrdersHalted,
    /// Wrap orders are currently halted.
    WrapOrdersHalted,
    /// The pending unwrap record was not initialized.
    PendingUnwrapNotInitialized,
    /// Release of a pending unwrap requested before its release time.
    PrematurePendingUnwrap,
    /// Funds cannot be unwrapped from a frozen account.
    UnwrapFrozenAccountError,
    /// Unwrap is currently halted.
    UnwrapHalted,
    /// The unwrap delay exceeds the twenty-four-hour maximum.
    SetUnwrapDelayMaximumExceeded,
    /// An order side must be either `Wrap` or `Unwrap`.
    OrderSideInvalid,
    /// Orders belonging to a frozen account cannot be filled.
    FillOrderFrozenAccountError,
    /// The program authority cannot fill wrap orders.
    ProgramCannotFillWrapOrders,
    /// The program authority can only cancel pending unwraps of permanently
    /// frozen users.
    ProgramCancelUnwrapError,
    /// The program authority can only cancel unwrap-side orders of
    /// permanently frozen users.
    ProgramCancelOrderError,
}

/// A failure of one of the external ledger primitives, as the model in
/// `crate::ledger` states them.
#[derive(Clone, Copy, PartialEq, Eq, Structural, Debug)]
pub enum LedgerError {
    /// A frozen token account took part in a transfer, mint or burn.
    AccountFrozen,
    /// The source account or the mint holds less than the requested amount.
    InsufficientFunds,
    /// A balance or the supply would exceed the representable maximum.
    MathOverflow,
    /// Freeze of an already-frozen account, or thaw of an unfrozen one.
    InvalidAccountState,
}

/// The failure of a whole engine operation.
#[derive(Clone, Copy, PartialEq, Eq, Structural, Debug)]
pub enum EngineError {
    /// A precondition of the engine itself failed.
    Token(SecureWrapTokenError),
    /// A delegated ledger primitive failed.
    Ledger(LedgerError),
    /// The caller's key does not match the key the operation requires.
    Unauthorized,
    /// A supplied account is not the account a record is bound to.
    AccountMismatch,
}

} // verus!
