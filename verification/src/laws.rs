//! What holds of Make, Take and Refund, proved from what they do to a
//! ledger.

use crate::address::{program_address, program_address_search, Address};
use crate::error::{Error, ErrorCode};
use crate::escrow::{made, refunded, taken};
use crate::handlers::make_offer::{make_offer_spec, MakeOffer, MakeOfferBumps};
use crate::handlers::refund_offer::RefundOffer;
use crate::handlers::take_offer::TakeOffer;
use crate::ledger::LedgerView;
use crate::state::offer::{offer_seeds, signer_seeds};
use crate::token::HoldingKey;
use vstd::prelude::*;

verus! {

/// Make that succeeds was given positive amounts and two different mints,
/// and found neither a record nor a vault in its way. Afterwards the record
/// exists with the given terms and the bump seed found for the identifier,
/// the vault holds exactly the amount offered, and the maker's token account
/// holds exactly that much less. The maker has paid the two deposits. No
/// other token account, record, native balance or mint has changed.
pub proof fn lemma_make_effects(
    pre: LedgerView,
    accounts: MakeOffer,
    id: u64,
    token_a_amount_offered: u64,
    token_b_amount_wanted: u64,
    post: LedgerView,
)
    requires
        made(pre, accounts, id, token_a_amount_offered, token_b_amount_wanted)
            == Ok::<LedgerView, Error>(post),
    ensures
        token_a_amount_offered > 0,
        token_b_amount_wanted > 0,
        accounts.token_mint_a != accounts.token_mint_b,
        accounts.maker.is_signer,
        !pre.offers.contains_key(accounts.offer),
        !pre.holdings.contains_key(accounts.vault()),
        post.offers.contains_key(accounts.offer),
        post.record(accounts.offer).id == id,
        post.record(accounts.offer).maker == accounts.maker.key,
        post.record(accounts.offer).token_mint_a == accounts.token_mint_a,
        post.record(accounts.offer).token_mint_b == accounts.token_mint_b,
        post.record(accounts.offer).token_b_amount_wanted == token_b_amount_wanted,
        program_address_search(offer_seeds(id), pre.program_id@)
            == Some((accounts.offer@, post.record(accounts.offer).bump)),
        post.offers[accounts.offer].lamports == pre.rent.offer,
        post.holdings.contains_key(accounts.vault()),
        post.holdings[accounts.vault()].amount == token_a_amount_offered,
        post.holdings[accounts.vault()].lamports == pre.rent.token_account,
        pre.holdings.contains_key(accounts.maker_token_account_a()),
        post.holdings.contains_key(accounts.maker_token_account_a()),
        post.holdings[accounts.maker_token_account_a()].amount
            == pre.holdings[accounts.maker_token_account_a()].amount - token_a_amount_offered,
        post.holdings[accounts.maker_token_account_a()].lamports
            == pre.holdings[accounts.maker_token_account_a()].lamports,
        post.balance(accounts.maker.key)
            == pre.balance(accounts.maker.key) - pre.rent.offer - pre.rent.token_account,
        forall|key: HoldingKey|
            key != accounts.vault() && key != accounts.maker_token_account_a()
                ==> post.holdings.contains_key(key) == pre.holdings.contains_key(key)
                && post.holdings[key] == pre.holdings[key],
        forall|address: Address|
            address != accounts.offer
                ==> post.offers.contains_key(address) == pre.offers.contains_key(address)
                && post.offers[address] == pre.offers[address],
        forall|address: Address|
            address != accounts.maker.key ==> post.balance(address) == pre.balance(address),
        post.mints == pre.mints,
        post.program_id == pre.program_id,
        post.rent == pre.rent,
{
}

/// Make refuses an amount of zero and an offer of a token for itself,
/// whatever else holds. Where its accounts pass their checks, it fails with
/// `InvalidAmount` exactly when an amount is zero, and with
/// `InvalidTokenMint` exactly when both amounts are positive and the two
/// mints are one. The handler alone does so on every ledger.
pub proof fn lemma_make_rejects(
    pre: LedgerView,
    accounts: MakeOffer,
    bumps: MakeOfferBumps,
    id: u64,
    token_a_amount_offered: u64,
    token_b_amount_wanted: u64,
)
    ensures
        token_a_amount_offered == 0 || token_b_amount_wanted == 0
            || accounts.token_mint_a == accounts.token_mint_b
            ==> made(pre, accounts, id, token_a_amount_offered, token_b_amount_wanted) is Err,
        token_a_amount_offered == 0 || token_b_amount_wanted == 0
            <==> make_offer_spec(
                pre,
                accounts,
                bumps,
                id,
                token_a_amount_offered,
                token_b_amount_wanted,
            ) == Err::<LedgerView, Error>(Error::Rule(ErrorCode::InvalidAmount)),
        token_a_amount_offered > 0 && token_b_amount_wanted > 0
            && accounts.token_mint_a == accounts.token_mint_b
            <==> make_offer_spec(
                pre,
                accounts,
                bumps,
                id,
                token_a_amount_offered,
                token_b_amount_wanted,
            ) == Err::<LedgerView, Error>(Error::Rule(ErrorCode::InvalidTokenMint)),
        accounts.try_accounts_spec(pre, id) is Ok ==> (
            token_a_amount_offered == 0 || token_b_amount_wanted == 0
                <==> made(pre, accounts, id, token_a_amount_offered, token_b_amount_wanted)
                == Err::<LedgerView, Error>(Error::Rule(ErrorCode::InvalidAmount))
        ),
        accounts.try_accounts_spec(pre, id) is Ok ==> (
            token_a_amount_offered > 0 && token_b_amount_wanted > 0
                && accounts.token_mint_a == accounts.token_mint_b
                <==> made(pre, accounts, id, token_a_amount_offered, token_b_amount_wanted)
                == Err::<LedgerView, Error>(Error::Rule(ErrorCode::InvalidTokenMint))
        ),
{
}

/// When Make succeeds: the terms keep the rules; the maker has signed and
/// is no offer's address; both mints exist; the maker holds the amount
/// offered; the offer's address is the one found for the identifier, and
/// neither a record nor a vault stands there; and the maker can pay the two
/// deposits.
pub proof fn lemma_make_succeeds(
    pre: LedgerView,
    accounts: MakeOffer,
    id: u64,
    token_a_amount_offered: u64,
    token_b_amount_wanted: u64,
)
    requires
        token_a_amount_offered > 0,
        token_b_amount_wanted > 0,
        accounts.token_mint_a != accounts.token_mint_b,
        accounts.maker.is_signer,
        !pre.offers.contains_key(accounts.maker.key),
        accounts.maker.key != accounts.offer,
        pre.mints.contains_key(accounts.token_mint_a),
        pre.mints.contains_key(accounts.token_mint_b),
        pre.holdings.contains_key(accounts.maker_token_account_a()),
        pre.holdings[accounts.maker_token_account_a()].amount >= token_a_amount_offered,
        program_address_search(offer_seeds(id), pre.program_id@) matches Some((address, bump))
            && address == accounts.offer@,
        !pre.offers.contains_key(accounts.offer),
        !pre.holdings.contains_key(accounts.vault()),
        pre.balance(accounts.maker.key) >= pre.rent.offer + pre.rent.token_account,
    ensures
        made(pre, accounts, id, token_a_amount_offered, token_b_amount_wanted) is Ok,
{
}

/// Make keeps every offer on the ledger in order, the new one included,
/// where the bump seed it found derives the address of the new record.
pub proof fn lemma_make_keeps_offers_sound(
    pre: LedgerView,
    accounts: MakeOffer,
    id: u64,
    token_a_amount_offered: u64,
    token_b_amount_wanted: u64,
    post: LedgerView,
)
    requires
        pre.inv(),
        made(pre, accounts, id, token_a_amount_offered, token_b_amount_wanted)
            == Ok::<LedgerView, Error>(post),
        program_address(signer_seeds(id, post.record(accounts.offer).bump), pre.program_id@)
            == Some(accounts.offer@),
    ensures
        post.inv(),
{
    lemma_make_effects(pre, accounts, id, token_a_amount_offered, token_b_amount_wanted, post);
    assert forall|address: Address| #[trigger] post.offers.contains_key(address) implies
        post.offer_is_sound(address) by {
        if address != accounts.offer {
            assert(pre.offers.contains_key(address));
            assert(pre.offer_is_sound(address));
        }
    }
}

/// Take that succeeds, on a ledger whose offers are in order, was signed by
/// the taker and names the maker and the mints of the record. Afterwards the
/// record and the vault are gone. The taker's balance of the offered token
/// has grown by exactly what the vault held. Where taker and maker are two,
/// the maker's balance of the wanted token has grown by exactly the amount
/// wanted and the taker's has shrunk by it; where they are one, that balance
/// is what it was. The maker has received the deposits of the vault and of
/// the record, and the taker has paid the deposit of each token account that
/// had to be created. No other token account, record, native balance or mint
/// has changed, and every offer left is in order.
pub proof fn lemma_take_effects(pre: LedgerView, accounts: TakeOffer, post: LedgerView)
    requires
        pre.inv(),
        taken(pre, accounts) == Ok::<LedgerView, Error>(post),
    ensures
        accounts.taker.is_signer,
        pre.offers.contains_key(accounts.offer),
        accounts.names(pre.record(accounts.offer)),
        accounts.taker.key != accounts.offer,
        !post.offers.contains_key(accounts.offer),
        !post.holdings.contains_key(accounts.vault()),
        post.tokens(accounts.taker_token_account_a())
            == pre.tokens(accounts.taker_token_account_a()) + pre.tokens(accounts.vault()),
        pre.tokens(accounts.taker_token_account_b())
            >= pre.record(accounts.offer).token_b_amount_wanted,
        accounts.taker.key != accounts.maker
            ==> post.tokens(accounts.maker_token_account_b())
            == pre.tokens(accounts.maker_token_account_b())
            + pre.record(accounts.offer).token_b_amount_wanted,
        accounts.taker.key != accounts.maker
            ==> post.tokens(accounts.taker_token_account_b())
            == pre.tokens(accounts.taker_token_account_b())
            - pre.record(accounts.offer).token_b_amount_wanted,
        accounts.taker.key == accounts.maker
            ==> post.tokens(accounts.taker_token_account_b())
            == pre.tokens(accounts.taker_token_account_b()),
        accounts.taker.key != accounts.maker
            ==> post.balance(accounts.maker) == pre.balance(accounts.maker)
            + pre.holdings[accounts.vault()].lamports + pre.offers[accounts.offer].lamports,
        accounts.taker.key != accounts.maker
            ==> post.balance(accounts.taker.key) == pre.balance(accounts.taker.key)
            - deposit_due(pre, accounts.taker_token_account_a())
            - deposit_due(pre, accounts.maker_token_account_b()),
        accounts.taker.key == accounts.maker
            ==> post.balance(accounts.maker) == pre.balance(accounts.maker)
            - deposit_due(pre, accounts.taker_token_account_a())
            + pre.holdings[accounts.vault()].lamports + pre.offers[accounts.offer].lamports,
        forall|address: Address|
            address != accounts.maker && address != accounts.taker.key
                ==> post.balance(address) == pre.balance(address),
        forall|key: HoldingKey|
            key != accounts.vault() && key != accounts.taker_token_account_a()
                && key != accounts.taker_token_account_b()
                && key != accounts.maker_token_account_b()
                ==> post.holdings.contains_key(key) == pre.holdings.contains_key(key)
                && post.holdings[key] == pre.holdings[key],
        forall|address: Address|
            address != accounts.offer
                ==> post.offers.contains_key(address) == pre.offers.contains_key(address)
                && post.offers[address] == pre.offers[address],
        post.mints == pre.mints,
        post.program_id == pre.program_id,
        post.rent == pre.rent,
        post.inv(),
{
    assert forall|address: Address| #[trigger] post.offers.contains_key(address) implies
        post.offer_is_sound(address) by {
        assert(pre.offers.contains_key(address));
        assert(pre.offer_is_sound(address));
    }
}

/// The deposit to pay for the token account `key`: nothing where the account
/// exists.
pub open spec fn deposit_due(ledger: LedgerView, key: HoldingKey) -> int {
    if ledger.holdings.contains_key(key) {
        0
    } else {
        ledger.rent.token_account as int
    }
}

/// Take fails where the maker or a mint of the instruction is not the one
/// that the record names. On a ledger whose offers are in order it fails
/// where the taker holds less of the wanted token than the record asks for.
pub proof fn lemma_take_rejects(pre: LedgerView, accounts: TakeOffer)
    requires
        pre.offers.contains_key(accounts.offer),
    ensures
        !accounts.names(pre.record(accounts.offer)) ==> taken(pre, accounts) is Err,
        pre.inv() && pre.tokens(accounts.taker_token_account_b())
            < pre.record(accounts.offer).token_b_amount_wanted ==> taken(pre, accounts) is Err,
{
}

/// When Take succeeds, on a ledger whose offers are in order: the record
/// exists and names the maker and the mints of the instruction; the taker
/// has signed, is no offer's address, holds the amount wanted and can pay
/// the deposit of each receiving token account that is missing; and no
/// balance that grows would exceed `u64::MAX`.
pub proof fn lemma_take_succeeds(pre: LedgerView, accounts: TakeOffer)
    requires
        pre.inv(),
        pre.offers.contains_key(accounts.offer),
        accounts.names(pre.record(accounts.offer)),
        accounts.taker.is_signer,
        !pre.offers.contains_key(accounts.taker.key),
        accounts.taker.key != accounts.maker,
        pre.holdings.contains_key(accounts.taker_token_account_b()),
        pre.holdings[accounts.taker_token_account_b()].amount
            >= pre.record(accounts.offer).token_b_amount_wanted,
        pre.balance(accounts.taker.key) >= deposit_due(pre, accounts.taker_token_account_a())
            + deposit_due(pre, accounts.maker_token_account_b()),
        pre.tokens(accounts.taker_token_account_a()) + pre.tokens(accounts.vault()) <= u64::MAX,
        pre.tokens(accounts.maker_token_account_b())
            + pre.record(accounts.offer).token_b_amount_wanted <= u64::MAX,
        pre.balance(accounts.maker) + pre.holdings[accounts.vault()].lamports
            + pre.offers[accounts.offer].lamports <= u64::MAX,
    ensures
        taken(pre, accounts) is Ok,
{
    assert(pre.offer_is_sound(accounts.offer));
}

/// Refund that succeeds, on a ledger whose offers are in order, was signed
/// by the maker that the record names. Afterwards the record and the vault
/// are gone, and the maker's balance of the offered token has grown by
/// exactly what the vault held. The maker has received the deposits of the
/// vault and of the record. No other token account, record, native balance
/// or mint has changed, and every offer left is in order.
pub proof fn lemma_refund_effects(pre: LedgerView, accounts: RefundOffer, post: LedgerView)
    requires
        pre.inv(),
        refunded(pre, accounts) == Ok::<LedgerView, Error>(post),
    ensures
        accounts.maker.is_signer,
        pre.offers.contains_key(accounts.offer),
        accounts.names(pre.record(accounts.offer)),
        !post.offers.contains_key(accounts.offer),
        !post.holdings.contains_key(accounts.vault()),
        post.tokens(accounts.maker_token_account_a())
            == pre.tokens(accounts.maker_token_account_a()) + pre.tokens(accounts.vault()),
        post.balance(accounts.maker.key) == pre.balance(accounts.maker.key)
            + pre.holdings[accounts.vault()].lamports + pre.offers[accounts.offer].lamports,
        forall|key: HoldingKey|
            key != accounts.vault() && key != accounts.maker_token_account_a()
                ==> post.holdings.contains_key(key) == pre.holdings.contains_key(key)
                && post.holdings[key] == pre.holdings[key],
        forall|address: Address|
            address != accounts.offer
                ==> post.offers.contains_key(address) == pre.offers.contains_key(address)
                && post.offers[address] == pre.offers[address],
        forall|address: Address|
            address != accounts.maker.key ==> post.balance(address) == pre.balance(address),
        post.mints == pre.mints,
        post.program_id == pre.program_id,
        post.rent == pre.rent,
        post.inv(),
{
    assert forall|address: Address| #[trigger] post.offers.contains_key(address) implies
        post.offer_is_sound(address) by {
        assert(pre.offers.contains_key(address));
        assert(pre.offer_is_sound(address));
    }
}

/// Refund fails where the maker or a mint of the instruction is not the one
/// that the record names, and where the maker has not signed.
pub proof fn lemma_refund_rejects(pre: LedgerView, accounts: RefundOffer)
    requires
        pre.offers.contains_key(accounts.offer),
    ensures
        !accounts.names(pre.record(accounts.offer)) ==> refunded(pre, accounts) is Err,
        !accounts.maker.is_signer ==> refunded(pre, accounts) is Err,
{
}

/// When Refund succeeds, on a ledger whose offers are in order: the record
/// exists and names the maker and the mints of the instruction; the maker
/// has signed and has a token account for the offered token; and no balance
/// that grows would exceed `u64::MAX`.
pub proof fn lemma_refund_succeeds(pre: LedgerView, accounts: RefundOffer)
    requires
        pre.inv(),
        pre.offers.contains_key(accounts.offer),
        accounts.names(pre.record(accounts.offer)),
        accounts.maker.is_signer,
        accounts.maker.key != accounts.offer,
        pre.holdings.contains_key(accounts.maker_token_account_a()),
        pre.holdings[accounts.maker_token_account_a()].amount + pre.tokens(accounts.vault())
            <= u64::MAX,
        pre.balance(accounts.maker.key) + pre.holdings[accounts.vault()].lamports
            + pre.offers[accounts.offer].lamports <= u64::MAX,
    ensures
        refunded(pre, accounts) is Ok,
{
    assert(pre.offer_is_sound(accounts.offer));
}

/// An offer made and then taken by someone else: the taker has gained
/// exactly the amount offered and paid exactly the amount wanted, the maker
/// has gained exactly the amount wanted and paid exactly the amount offered,
/// and the record and the vault are gone.
pub proof fn lemma_make_then_take(
    start: LedgerView,
    make: MakeOffer,
    id: u64,
    token_a_amount_offered: u64,
    token_b_amount_wanted: u64,
    open: LedgerView,
    take: TakeOffer,
    end: LedgerView,
)
    requires
        made(start, make, id, token_a_amount_offered, token_b_amount_wanted)
            == Ok::<LedgerView, Error>(open),
        taken(open, take) == Ok::<LedgerView, Error>(end),
        take.offer == make.offer,
        take.taker.key != make.maker.key,
    ensures
        take.maker == make.maker.key,
        take.token_mint_a == make.token_mint_a,
        take.token_mint_b == make.token_mint_b,
        end.tokens(take.taker_token_account_a())
            == start.tokens(take.taker_token_account_a()) + token_a_amount_offered,
        end.tokens(take.taker_token_account_b())
            == start.tokens(take.taker_token_account_b()) - token_b_amount_wanted,
        end.tokens(take.maker_token_account_b())
            == start.tokens(take.maker_token_account_b()) + token_b_amount_wanted,
        end.tokens(make.maker_token_account_a())
            == start.tokens(make.maker_token_account_a()) - token_a_amount_offered,
        !end.offers.contains_key(make.offer),
        !end.holdings.contains_key(make.vault()),
{
    lemma_make_effects(start, make, id, token_a_amount_offered, token_b_amount_wanted, open);
}

/// An offer made and then refunded: the maker's balance of the offered
/// token and the maker's native balance are what they were before Make, and
/// the record and the vault are gone. Every token account, record, mint and
/// native balance is what it was.
pub proof fn lemma_make_then_refund(
    start: LedgerView,
    make: MakeOffer,
    id: u64,
    token_a_amount_offered: u64,
    token_b_amount_wanted: u64,
    open: LedgerView,
    refund: RefundOffer,
    end: LedgerView,
)
    requires
        made(start, make, id, token_a_amount_offered, token_b_amount_wanted)
            == Ok::<LedgerView, Error>(open),
        refunded(open, refund) == Ok::<LedgerView, Error>(end),
        refund.offer == make.offer,
    ensures
        refund.maker.key == make.maker.key,
        end.tokens(make.maker_token_account_a()) == start.tokens(make.maker_token_account_a()),
        end.balance(make.maker.key) == start.balance(make.maker.key),
        !end.offers.contains_key(make.offer),
        !end.holdings.contains_key(make.vault()),
        end.holdings == start.holdings,
        end.offers == start.offers,
        end.mints == start.mints,
        forall|address: Address| end.balance(address) == start.balance(address),
{
    lemma_make_effects(start, make, id, token_a_amount_offered, token_b_amount_wanted, open);
    assert(end.holdings =~= start.holdings);
    assert(end.offers =~= start.offers);
}

/// No instruction rewrites a record: a record that is there before and
/// after Make, Take or Refund is what it was.
pub proof fn lemma_records_are_not_rewritten(
    pre: LedgerView,
    post: LedgerView,
    make: MakeOffer,
    id: u64,
    token_a_amount_offered: u64,
    token_b_amount_wanted: u64,
    take: TakeOffer,
    refund: RefundOffer,
)
    requires
        made(pre, make, id, token_a_amount_offered, token_b_amount_wanted)
            == Ok::<LedgerView, Error>(post)
            || taken(pre, take) == Ok::<LedgerView, Error>(post)
            || refunded(pre, refund) == Ok::<LedgerView, Error>(post),
    ensures
        forall|address: Address|
            pre.offers.contains_key(address) && post.offers.contains_key(address)
                ==> post.offers[address] == pre.offers[address],
{
}

/// Where no record stands at an address, Take and Refund of that address
/// fail.
pub proof fn lemma_no_record_no_take_no_refund(
    ledger: LedgerView,
    take: TakeOffer,
    refund: RefundOffer,
)
    requires
        !ledger.offers.contains_key(take.offer),
        !ledger.offers.contains_key(refund.offer),
    ensures
        taken(ledger, take) is Err,
        refunded(ledger, refund) is Err,
{
}

/// An offer that was taken cannot be taken again, nor refunded: whoever
/// asks, and whatever else the instruction names.
pub proof fn lemma_taken_once(
    pre: LedgerView,
    first: TakeOffer,
    post: LedgerView,
    take: TakeOffer,
    refund: RefundOffer,
)
    requires
        taken(pre, first) == Ok::<LedgerView, Error>(post),
        take.offer == first.offer,
        refund.offer == first.offer,
    ensures
        !post.offers.contains_key(first.offer),
        taken(post, take) is Err,
        refunded(post, refund) is Err,
{
}

/// An offer that was refunded cannot be refunded again, nor taken: whoever
/// asks, and whatever else the instruction names.
pub proof fn lemma_refunded_once(
    pre: LedgerView,
    first: RefundOffer,
    post: LedgerView,
    take: TakeOffer,
    refund: RefundOffer,
)
    requires
        refunded(pre, first) == Ok::<LedgerView, Error>(post),
        take.offer == first.offer,
        refund.offer == first.offer,
    ensures
        !post.offers.contains_key(first.offer),
        taken(post, take) is Err,
        refunded(post, refund) is Err,
{
}

} // verus!
