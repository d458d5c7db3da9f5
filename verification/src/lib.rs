//! A custodial token-wrapping engine: users deposit an original fungible
//! asset into program custody and receive a 1:1 wrapped asset that carries
//! additional risk controls — time-locked account freezing, permanent
//! freezing with authority-mediated fund redistribution, a delayed-unwrap
//! queue, and a discounted bilateral order book.
//!
//! The underlying token ledger (atomic transfer, mint, burn, freeze and thaw
//! primitives), the clock, persistent record storage, address derivation and
//! caller authentication are external collaborators.  The `ledger` module
//! states their interface as a verified model over plain balances; every
//! operation of the engine is specified and proved against that model.

pub mod error;
pub mod ledger;

pub mod global_state;
pub mod order;
pub mod pending_unwrap;
pub mod secure_wrap_token_state;
pub mod user_token_state;

pub mod admin;
pub mod freeze;
pub mod laws;
pub mod orders;
pub mod unwrap;
pub mod wrap;

