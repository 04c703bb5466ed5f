//! The two steps that every operation is made of: a checked transfer of
//! tokens, and the closure of a token account. Neither looks at the rules of
//! the escrow: what is moved, and for whom, is the caller's to decide.

use crate::address::Address;
use crate::error::{Error, TokenError};
use crate::ledger::{seeds_view, Ledger, LedgerView};
use crate::token::{AccountMeta, HoldingKey};
use vstd::prelude::*;

verus! {

/// Does an operation that ended with `done` and turned the ledger from
/// `before` into `after` agree with what was `expected` of it? On success
/// the ledger is the expected one; on failure the error is the expected one
/// and the ledger is what it was.
pub open spec fn agrees(
    done: Result<(), Error>,
    before: LedgerView,
    after: LedgerView,
    expected: Result<LedgerView, Error>,
) -> bool {
    match done {
        Ok(()) => expected == Ok::<LedgerView, Error>(after),
        Err(error) => expected == Err::<LedgerView, Error>(error) && after == before,
    }
}

/// What [`transfer_tokens`] does to a ledger: the token program moves
/// `amount` tokens of `mint`, at the precision that the mint declares, or
/// refuses.
pub open spec fn transfer_tokens_spec(
    pre: LedgerView,
    from: HoldingKey,
    to: HoldingKey,
    amount: u64,
    mint: Address,
    authority: AccountMeta,
    seeds: Option<Seq<Seq<u8>>>,
) -> Result<LedgerView, Error> {
    if !pre.mints.contains_key(mint) {
        Err(Error::Token(TokenError::InvalidMint))
    } else {
        let decimals = pre.mints[mint].decimals;
        match pre.transfer_failure(from, to, mint, authority, seeds, amount, decimals) {
            Some(error) => Err(Error::Token(error)),
            None => Ok(pre.transferred(from, to, amount)),
        }
    }
}

/// What [`close_token_account`] does to a ledger: the token program closes
/// `account` in favour of `destination`, or refuses.
pub open spec fn close_token_account_spec(
    pre: LedgerView,
    account: HoldingKey,
    authority: AccountMeta,
    destination: Address,
    seeds: Option<Seq<Seq<u8>>>,
) -> Result<LedgerView, Error> {
    match pre.close_failure(account, destination, authority, seeds) {
        Some(error) => Err(Error::Token(error)),
        None => Ok(pre.closed(account, destination)),
    }
}

/// Moves `amount` tokens of `mint` from the token account `from` to the
/// token account `to`, on the word of `authority`: its signature, or, where
/// `owning_pda_seeds` are given, the seeds that derive its address.
pub fn transfer_tokens(
    ledger: &mut Ledger,
    from: &HoldingKey,
    to: &HoldingKey,
    amount: &u64,
    mint: &Address,
    authority: &AccountMeta,
    owning_pda_seeds: Option<&Vec<Vec<u8>>>,
) -> (done: Result<(), Error>)
    ensures
        agrees(
            done,
            old(ledger)@,
            final(ledger)@,
            transfer_tokens_spec(
                old(ledger)@,
                *from,
                *to,
                *amount,
                *mint,
                *authority,
                seeds_view(owning_pda_seeds),
            ),
        ),
{
    let decimals = match ledger.mint(mint) {
        Some(minted) => minted.decimals,
        None => { return Err(Error::Token(TokenError::InvalidMint)); },
    };
    match ledger.transfer_checked(from, to, mint, authority, owning_pda_seeds, *amount, decimals) {
        Ok(()) => Ok(()),
        Err(error) => Err(Error::Token(error)),
    }
}

/// Closes the empty token account `account` on the word of `authority`, and
/// hands the account's native balance to `destination`.
pub fn close_token_account(
    ledger: &mut Ledger,
    account: &HoldingKey,
    authority: &AccountMeta,
    destination: &Address,
    owning_pda_seeds: Option<&Vec<Vec<u8>>>,
) -> (done: Result<(), Error>)
    ensures
        agrees(
            done,
            old(ledger)@,
            final(ledger)@,
            close_token_account_spec(
                old(ledger)@,
                *account,
                *authority,
                *destination,
                seeds_view(owning_pda_seeds),
            ),
        ),
{
    match ledger.close_account(account, destination, authority, owning_pda_seeds) {
        Ok(()) => Ok(()),
        Err(error) => Err(Error::Token(error)),
    }
}

} // verus!
