//! The program's instructions: Make, Take and Refund. Each checks its
//! accounts, runs its handler and closes what the handler has emptied, and
//! each either does all of that or leaves the ledger as it was.

use crate::address::{program_address, Address};
use crate::error::{Error, ErrorCode};
use crate::handlers;
use crate::handlers::make_offer::{make_offer_spec, MakeOffer, MakeOfferBumps};
use crate::handlers::refund_offer::{refund_offer_spec, RefundOffer};
use crate::handlers::shared::agrees;
use crate::handlers::take_offer::{take_offer_spec, TakeOffer};
use crate::laws::{
    lemma_make_effects, lemma_make_keeps_offers_sound, lemma_make_rejects, lemma_refund_effects,
    lemma_refund_rejects, lemma_take_effects, lemma_take_rejects,
};
use crate::ledger::{Ledger, LedgerView};
use crate::state::offer::signer_seeds;
use vstd::prelude::*;

verus! {

/// The ledger after the offer record at `address` was closed in favour of
/// `destination`, or why it cannot be closed.
pub open spec fn offer_closed(pre: LedgerView, address: Address, destination: Address) -> Result<
    LedgerView,
    Error,
> {
    match pre.close_offer_failure(address, destination) {
        Some(error) => Err(Error::System(error)),
        None => Ok(pre.without_offer(address, destination)),
    }
}

/// The ledger after a Make instruction, or why the instruction fails: the
/// accounts are checked and the record and the vault created, then the
/// handler runs.
pub open spec fn made(
    pre: LedgerView,
    accounts: MakeOffer,
    id: u64,
    token_a_amount_offered: u64,
    token_b_amount_wanted: u64,
) -> Result<LedgerView, Error> {
    match accounts.try_accounts_spec(pre, id) {
        Err(error) => Err(error),
        Ok((loaded, bumps)) => make_offer_spec(
            loaded,
            accounts,
            bumps,
            id,
            token_a_amount_offered,
            token_b_amount_wanted,
        ),
    }
}

/// The ledger after a Take instruction, or why the instruction fails: the
/// accounts are checked, the handler runs, then the offer record is closed
/// in favour of the maker.
pub open spec fn taken(pre: LedgerView, accounts: TakeOffer) -> Result<LedgerView, Error> {
    match accounts.try_accounts_spec(pre) {
        Err(error) => Err(error),
        Ok(loaded) => match take_offer_spec(loaded, accounts) {
            Err(error) => Err(error),
            Ok(swapped) => offer_closed(swapped, accounts.offer, accounts.maker),
        },
    }
}

/// The ledger after a Refund instruction, or why the instruction fails: the
/// accounts are checked, the handler runs, then the offer record is closed
/// in favour of the maker.
pub open spec fn refunded(pre: LedgerView, accounts: RefundOffer) -> Result<LedgerView, Error> {
    match accounts.try_accounts_spec(pre) {
        Err(error) => Err(error),
        Ok(loaded) => match refund_offer_spec(loaded, accounts) {
            Err(error) => Err(error),
            Ok(returned) => offer_closed(returned, accounts.offer, accounts.maker.key),
        },
    }
}

fn close_offer(ledger: &mut Ledger, address: &Address, destination: &Address) -> (done: Result<
    (),
    Error,
>)
    requires
        old(ledger)@.offers.contains_key(*address),
    ensures
        agrees(
            done,
            old(ledger)@,
            final(ledger)@,
            offer_closed(old(ledger)@, *address, *destination),
        ),
{
    match ledger.close_offer(address, destination) {
        Ok(()) => Ok(()),
        Err(error) => Err(Error::System(error)),
    }
}

/// Make: opens offer `id`, which gives `token_a_amount_offered` of one token
/// for `token_b_amount_wanted` of another.
///
/// What happens is [`made`], to the letter. In particular: on failure
/// nothing has changed. On success the record holds the given terms and a
/// bump seed that derives its address, the vault holds exactly the amount
/// offered, and the maker holds exactly that much less. An amount of zero
/// and an offer of a token for itself always fail; where the accounts pass
/// their checks, they fail with `InvalidAmount` and `InvalidTokenMint`.
pub fn make_offer(
    ledger: &mut Ledger,
    accounts: &MakeOffer,
    id: u64,
    token_a_amount_offered: u64,
    token_b_amount_wanted: u64,
) -> (done: Result<(), Error>)
    ensures
        agrees(
            done,
            old(ledger)@,
            final(ledger)@,
            made(old(ledger)@, *accounts, id, token_a_amount_offered, token_b_amount_wanted),
        ),
        old(ledger)@.inv() ==> final(ledger)@.inv(),
        done is Err ==> final(ledger)@ == old(ledger)@,
        done is Ok ==> final(ledger)@.offers.contains_key(accounts.offer),
        done is Ok ==> final(ledger)@.record(accounts.offer).id == id,
        done is Ok ==> final(ledger)@.record(accounts.offer).maker == accounts.maker.key,
        done is Ok ==> final(ledger)@.record(accounts.offer).token_mint_a == accounts.token_mint_a,
        done is Ok ==> final(ledger)@.record(accounts.offer).token_mint_b == accounts.token_mint_b,
        done is Ok ==> final(ledger)@.record(accounts.offer).token_b_amount_wanted
            == token_b_amount_wanted,
        done is Ok ==> program_address(
            signer_seeds(id, final(ledger)@.record(accounts.offer).bump),
            old(ledger)@.program_id@,
        ) == Some(accounts.offer@),
        done is Ok ==> final(ledger)@.holdings.contains_key(accounts.vault()),
        done is Ok ==> final(ledger)@.tokens(accounts.vault()) == token_a_amount_offered,
        done is Ok ==> final(ledger)@.tokens(accounts.maker_token_account_a())
            == old(ledger)@.tokens(accounts.maker_token_account_a()) - token_a_amount_offered,
        token_a_amount_offered == 0 || token_b_amount_wanted == 0
            || accounts.token_mint_a == accounts.token_mint_b ==> done is Err,
        accounts.try_accounts_spec(old(ledger)@, id) is Ok ==> (
            token_a_amount_offered == 0 || token_b_amount_wanted == 0
                <==> done == Err::<(), Error>(Error::Rule(ErrorCode::InvalidAmount))
        ),
        accounts.try_accounts_spec(old(ledger)@, id) is Ok ==> (
            token_a_amount_offered > 0 && token_b_amount_wanted > 0
                && accounts.token_mint_a == accounts.token_mint_b
                <==> done == Err::<(), Error>(Error::Rule(ErrorCode::InvalidTokenMint))
        ),
{
    let saved = ledger.snapshot();
    let done = match accounts.try_accounts(ledger, id) {
        Err(error) => Err(error),
        Ok(bumps) => handlers::make_offer::make_offer(
            ledger,
            accounts,
            &bumps,
            id,
            token_a_amount_offered,
            token_b_amount_wanted,
        ),
    };
    if done.is_err() {
        *ledger = saved;
    }
    proof {
        lemma_make_rejects(
            old(ledger)@,
            *accounts,
            MakeOfferBumps { offer: 0 },
            id,
            token_a_amount_offered,
            token_b_amount_wanted,
        );
        if done.is_ok() {
            lemma_make_effects(
                old(ledger)@,
                *accounts,
                id,
                token_a_amount_offered,
                token_b_amount_wanted,
                ledger@,
            );
            if old(ledger)@.inv() {
                lemma_make_keeps_offers_sound(
                    old(ledger)@,
                    *accounts,
                    id,
                    token_a_amount_offered,
                    token_b_amount_wanted,
                    ledger@,
                );
            }
        }
    }
    done
}

/// Take: swaps the vault of an offer against what its maker wants.
///
/// What happens is [`taken`], to the letter. In particular: on failure
/// nothing has changed. On success the record and the vault are gone; on a
/// ledger whose offers were in order, the taker has gained exactly what the
/// vault held, and where taker and maker are two, the maker has gained
/// exactly the amount wanted and the taker has paid it. Take fails where
/// there is no record, where the instruction names another maker or mint
/// than the record, and where the taker holds too little.
pub fn take_offer(ledger: &mut Ledger, accounts: &TakeOffer) -> (done: Result<(), Error>)
    ensures
        agrees(done, old(ledger)@, final(ledger)@, taken(old(ledger)@, *accounts)),
        old(ledger)@.inv() ==> final(ledger)@.inv(),
        done is Err ==> final(ledger)@ == old(ledger)@,
        done is Ok ==> !final(ledger)@.offers.contains_key(accounts.offer),
        done is Ok ==> !final(ledger)@.holdings.contains_key(accounts.vault()),
        done is Ok && old(ledger)@.inv() ==> final(ledger)@.tokens(accounts.taker_token_account_a())
            == old(ledger)@.tokens(accounts.taker_token_account_a())
            + old(ledger)@.tokens(accounts.vault()),
        done is Ok && old(ledger)@.inv() && accounts.taker.key != accounts.maker
            ==> final(ledger)@.tokens(accounts.maker_token_account_b())
            == old(ledger)@.tokens(accounts.maker_token_account_b())
            + old(ledger)@.record(accounts.offer).token_b_amount_wanted,
        done is Ok && old(ledger)@.inv() && accounts.taker.key != accounts.maker
            ==> final(ledger)@.tokens(accounts.taker_token_account_b())
            == old(ledger)@.tokens(accounts.taker_token_account_b())
            - old(ledger)@.record(accounts.offer).token_b_amount_wanted,
        !old(ledger)@.offers.contains_key(accounts.offer) ==> done is Err,
        old(ledger)@.offers.contains_key(accounts.offer)
            && !accounts.names(old(ledger)@.record(accounts.offer)) ==> done is Err,
        old(ledger)@.inv() && old(ledger)@.offers.contains_key(accounts.offer)
            && old(ledger)@.tokens(accounts.taker_token_account_b())
            < old(ledger)@.record(accounts.offer).token_b_amount_wanted ==> done is Err,
{
    let saved = ledger.snapshot();
    let done = match accounts.try_accounts(ledger) {
        Err(error) => Err(error),
        Ok(()) => match handlers::take_offer::take_offer(ledger, accounts) {
            Err(error) => Err(error),
            Ok(()) => close_offer(ledger, &accounts.offer, &accounts.maker),
        },
    };
    if done.is_err() {
        *ledger = saved;
    }
    proof {
        if old(ledger)@.offers.contains_key(accounts.offer) {
            lemma_take_rejects(old(ledger)@, *accounts);
        }
        if done.is_ok() && old(ledger)@.inv() {
            lemma_take_effects(old(ledger)@, *accounts, ledger@);
        }
    }
    done
}

/// Refund: hands the vault of an offer back to its maker.
///
/// What happens is [`refunded`], to the letter. In particular: on failure
/// nothing has changed. On success the record and the vault are gone; on a
/// ledger whose offers were in order, the maker has gained exactly what the
/// vault held, and the deposits of the vault and of the record. Refund
/// fails where there is no record, and for everyone but the maker that the
/// record names.
pub fn refund_offer(ledger: &mut Ledger, accounts: &RefundOffer) -> (done: Result<(), Error>)
    ensures
        agrees(done, old(ledger)@, final(ledger)@, refunded(old(ledger)@, *accounts)),
        old(ledger)@.inv() ==> final(ledger)@.inv(),
        done is Err ==> final(ledger)@ == old(ledger)@,
        done is Ok ==> !final(ledger)@.offers.contains_key(accounts.offer),
        done is Ok ==> !final(ledger)@.holdings.contains_key(accounts.vault()),
        done is Ok && old(ledger)@.inv() ==> final(ledger)@.tokens(accounts.maker_token_account_a())
            == old(ledger)@.tokens(accounts.maker_token_account_a())
            + old(ledger)@.tokens(accounts.vault()),
        done is Ok && old(ledger)@.inv() ==> final(ledger)@.balance(accounts.maker.key)
            == old(ledger)@.balance(accounts.maker.key)
            + old(ledger)@.holdings[accounts.vault()].lamports
            + old(ledger)@.offers[accounts.offer].lamports,
        !old(ledger)@.offers.contains_key(accounts.offer) ==> done is Err,
        !accounts.maker.is_signer ==> done is Err,
        old(ledger)@.offers.contains_key(accounts.offer)
            && !accounts.names(old(ledger)@.record(accounts.offer)) ==> done is Err,
{
    let saved = ledger.snapshot();
    let done = match accounts.try_accounts(ledger) {
        Err(error) => Err(error),
        Ok(()) => match handlers::refund_offer::refund_offer(ledger, accounts) {
            Err(error) => Err(error),
            Ok(()) => close_offer(ledger, &accounts.offer, &accounts.maker.key),
        },
    };
    if done.is_err() {
        *ledger = saved;
    }
    proof {
        if old(ledger)@.offers.contains_key(accounts.offer) {
            lemma_refund_rejects(old(ledger)@, *accounts);
        }
        if done.is_ok() && old(ledger)@.inv() {
            lemma_refund_effects(old(ledger)@, *accounts, ledger@);
        }
    }
    done
}

} // verus!
