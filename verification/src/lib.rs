//! A verified model of a two-party token swap escrow.
//!
//! A maker locks an amount of one token in a vault that only the program can
//! sign for, and names the amount of another token it wants in return. A
//! taker completes the swap in one step, or the maker withdraws the deposit.
//!
//! The model is a [`ledger::Ledger`] of native balances, mints, token
//! accounts and offer records. The three instructions of the program are in
//! [`escrow`]; each is put together from the account checks and the handler
//! in [`handlers`], which move tokens and close accounts by the rules of the
//! token program as the ledger has them. [`state`] holds the offer record,
//! its seeds and its bytes. What the instructions guarantee, taken alone and
//! one after another, is proved in [`laws`].
//!
//! Two things are taken on trust, both in [`address`]: the address that the
//! ledger's runtime derives for a program from a list of seeds, and the
//! search for a bump seed that goes with it.

pub mod address;
pub mod error;
pub mod escrow;
pub mod handlers;
pub mod laws;
pub mod ledger;
pub mod state;
pub mod table;
pub mod token;
