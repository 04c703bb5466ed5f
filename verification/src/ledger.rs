//! The ledger on which the escrow runs: native balances, mints, token
//! accounts and offer records, with the rules by which the ledger and its
//! token program create accounts, move tokens and close accounts.

use crate::address::{
    create_program_address, lemma_address_view_injective, program_address, Address,
};
use crate::error::{ConstraintError, SystemError, TokenError};
use crate::state::offer::{signer_seeds, Offer, OfferAccount};
use crate::table::Table;
use crate::token::{AccountMeta, HoldingKey, Mint, Rent, TokenAccount};
use vstd::prelude::*;

verus! {

/// What a ledger holds, as mathematical maps.
pub struct LedgerView {
    /// The address of the escrow program: derived addresses are its own.
    pub program_id: Address,
    /// The deposits taken for new accounts.
    pub rent: Rent,
    /// The mints, by address.
    pub mints: Map<Address, Mint>,
    /// The native balances that are not zero or were once credited, by address.
    pub wallets: Map<Address, u64>,
    /// The token accounts, by owner and mint.
    pub holdings: Map<HoldingKey, TokenAccount>,
    /// The offer records, by address.
    pub offers: Map<Address, OfferAccount>,
}

/// Does an operation that ended with `done` and turned the ledger from
/// `before` into `after` do what is expected of it? Where nothing makes it
/// fail, it succeeds and the ledger is the one expected; else it fails for
/// the expected reason and the ledger is what it was.
pub open spec fn outcome<E>(
    done: Result<(), E>,
    before: LedgerView,
    after: LedgerView,
    failure: Option<E>,
    effect: LedgerView,
) -> bool {
    match done {
        Ok(()) => failure is None && after == effect,
        Err(error) => failure == Some(error) && after == before,
    }
}

/// The seeds handed to an operation, as sequences of bytes.
pub open spec fn seeds_view(seeds: Option<&Vec<Vec<u8>>>) -> Option<Seq<Seq<u8>>> {
    match seeds {
        Some(seeds) => Some(seeds.deep_view()),
        None => None,
    }
}

impl LedgerView {
    /// A ledger without accounts.
    pub open spec fn empty(program_id: Address, rent: Rent) -> LedgerView {
        LedgerView {
            program_id,
            rent,
            mints: Map::empty(),
            wallets: Map::empty(),
            holdings: Map::empty(),
            offers: Map::empty(),
        }
    }

    /// The native balance of `address`.
    pub open spec fn balance(self, address: Address) -> u64 {
        if self.wallets.contains_key(address) {
            self.wallets[address]
        } else {
            0
        }
    }

    /// The tokens in the token account `key`; zero where there is none.
    pub open spec fn tokens(self, key: HoldingKey) -> u64 {
        if self.holdings.contains_key(key) {
            self.holdings[key].amount
        } else {
            0
        }
    }

    /// The terms of the offer recorded at `address`.
    pub open spec fn record(self, address: Address) -> Offer {
        self.offers[address].data
    }

    /// The vault of the offer recorded at `address`: the token account that
    /// the offer's address owns for the offered token.
    pub open spec fn vault_of(self, address: Address) -> HoldingKey {
        HoldingKey { owner: address, mint: self.record(address).token_mint_a }
    }

    /// The offer recorded at `address` is in order: the address is the one
    /// that the record's identifier and bump seed derive, the record asks
    /// for a positive amount of a token other than the one it offers, both
    /// mints exist, and the vault exists and is not empty.
    pub open spec fn offer_is_sound(self, address: Address) -> bool {
        let offer = self.record(address);
        &&& program_address(signer_seeds(offer.id, offer.bump), self.program_id@) == Some(address@)
        &&& offer.token_mint_a != offer.token_mint_b
        &&& offer.token_b_amount_wanted > 0
        &&& self.mints.contains_key(offer.token_mint_a)
        &&& self.mints.contains_key(offer.token_mint_b)
        &&& self.holdings.contains_key(self.vault_of(address))
        &&& self.holdings[self.vault_of(address)].amount > 0
    }

    /// Every offer on the ledger is in order. Make, Take and Refund keep it
    /// so, and so do the operations that set a ledger up.
    pub open spec fn inv(self) -> bool {
        forall|address: Address| #[trigger]
            self.offers.contains_key(address) ==> self.offer_is_sound(address)
    }

    /// Does `authority` stand behind an instruction? Without seeds it has to
    /// have signed, and the address of an offer record cannot sign: no key
    /// pair belongs to it. With seeds, the seeds have to derive its address
    /// for the program.
    pub open spec fn authorized(self, authority: AccountMeta, seeds: Option<Seq<Seq<u8>>>) -> bool {
        match seeds {
            None => authority.is_signer && !self.offers.contains_key(authority.key),
            Some(seeds) => program_address(seeds, self.program_id@) == Some(authority.key@),
        }
    }

    /// Why `lamports` cannot be added to the native balance of `address`;
    /// `None` where they can.
    pub open spec fn credit_failure(self, address: Address, lamports: u64) -> Option<SystemError> {
        if self.balance(address) + lamports > u64::MAX {
            Some(SystemError::LamportsOverflow)
        } else {
            None
        }
    }

    /// The ledger after `lamports` were added to the native balance of
    /// `address`.
    pub open spec fn credited(self, address: Address, lamports: u64) -> LedgerView {
        LedgerView {
            wallets: self.wallets.insert(address, (self.balance(address) + lamports) as u64),
            ..self
        }
    }

    /// Why `lamports` cannot be taken from the native balance of `address`;
    /// `None` where they can.
    pub open spec fn debit_failure(self, address: Address, lamports: u64) -> Option<SystemError> {
        if self.balance(address) < lamports {
            Some(SystemError::InsufficientLamports)
        } else {
            None
        }
    }

    /// The ledger after `lamports` were taken from the native balance of
    /// `address`.
    pub open spec fn debited(self, address: Address, lamports: u64) -> LedgerView {
        LedgerView {
            wallets: self.wallets.insert(address, (self.balance(address) - lamports) as u64),
            ..self
        }
    }

    /// Why the token program refuses to move `amount` tokens of `mint` from
    /// `from` to `to`; `None` where it moves them. Where more than one thing
    /// is wrong, the program names the first in the order in which it looks:
    /// the two accounts, the source's balance, the mint, the authority, the
    /// target's balance.
    pub open spec fn transfer_failure(
        self,
        from: HoldingKey,
        to: HoldingKey,
        mint: Address,
        authority: AccountMeta,
        seeds: Option<Seq<Seq<u8>>>,
        amount: u64,
        decimals: u8,
    ) -> Option<TokenError> {
        if !self.holdings.contains_key(from) || !self.holdings.contains_key(to) {
            Some(TokenError::UninitializedAccount)
        } else if self.holdings[from].amount < amount {
            Some(TokenError::InsufficientFunds)
        } else if from.mint != to.mint || from.mint != mint {
            Some(TokenError::MintMismatch)
        } else if !self.mints.contains_key(mint) {
            Some(TokenError::InvalidMint)
        } else if self.mints[mint].decimals != decimals {
            Some(TokenError::MintDecimalsMismatch)
        } else if authority.key != from.owner {
            Some(TokenError::OwnerMismatch)
        } else if !self.authorized(authority, seeds) {
            Some(TokenError::MissingRequiredSignature)
        } else if from != to && self.holdings[to].amount + amount > u64::MAX {
            Some(TokenError::Overflow)
        } else {
            None
        }
    }

    /// The ledger after `amount` tokens moved from `from` to `to`. A
    /// transfer from an account to itself changes nothing.
    pub open spec fn transferred(
        self,
        from: HoldingKey,
        to: HoldingKey,
        amount: u64,
    ) -> LedgerView {
        if from == to {
            self
        } else {
            LedgerView {
                holdings: self.holdings.insert(
                    from,
                    TokenAccount {
                        amount: (self.holdings[from].amount - amount) as u64,
                        lamports: self.holdings[from].lamports,
                    },
                ).insert(
                    to,
                    TokenAccount {
                        amount: (self.holdings[to].amount + amount) as u64,
                        lamports: self.holdings[to].lamports,
                    },
                ),
                ..self
            }
        }
    }

    /// Why the token program refuses to close the token account `account`;
    /// `None` where it closes it.
    pub open spec fn close_failure(
        self,
        account: HoldingKey,
        destination: Address,
        authority: AccountMeta,
        seeds: Option<Seq<Seq<u8>>>,
    ) -> Option<TokenError> {
        if !self.holdings.contains_key(account) {
            Some(TokenError::UninitializedAccount)
        } else if self.holdings[account].amount != 0 {
            Some(TokenError::NonNativeHasBalance)
        } else if authority.key != account.owner {
            Some(TokenError::OwnerMismatch)
        } else if !self.authorized(authority, seeds) {
            Some(TokenError::MissingRequiredSignature)
        } else if self.balance(destination) + self.holdings[account].lamports > u64::MAX {
            Some(TokenError::Overflow)
        } else {
            None
        }
    }

    /// The ledger after the token account `account` was closed: the account
    /// is gone, and its native balance has gone to `destination`.
    pub open spec fn closed(self, account: HoldingKey, destination: Address) -> LedgerView {
        LedgerView {
            holdings: self.holdings.remove(account),
            ..self.credited(destination, self.holdings[account].lamports)
        }
    }

    /// Why the ledger refuses to create a token account `key` paid by
    /// `payer`; `None` where it creates it.
    pub open spec fn create_token_account_failure(self, payer: Address, key: HoldingKey) -> Option<
        SystemError,
    > {
        if self.holdings.contains_key(key) {
            Some(SystemError::AccountAlreadyInUse)
        } else if self.balance(payer) < self.rent.token_account {
            Some(SystemError::InsufficientLamports)
        } else {
            None
        }
    }

    /// The ledger after `payer` paid for the new, empty token account `key`.
    pub open spec fn with_token_account(self, payer: Address, key: HoldingKey) -> LedgerView {
        LedgerView {
            holdings: self.holdings.insert(
                key,
                TokenAccount { amount: 0, lamports: self.rent.token_account },
            ),
            ..self.debited(payer, self.rent.token_account)
        }
    }

    /// The ledger in which the token account `key` exists: as it is where the
    /// account is there, and else after `payer` paid for a new one.
    pub open spec fn ensured_token_account(self, payer: Address, key: HoldingKey) -> Result<
        LedgerView,
        SystemError,
    > {
        if self.holdings.contains_key(key) {
            Ok(self)
        } else {
            match self.create_token_account_failure(payer, key) {
                Some(error) => Err(error),
                None => Ok(self.with_token_account(payer, key)),
            }
        }
    }

    /// Why the token program refuses to issue `amount` new tokens to the
    /// token account `key`; `None` where it issues them.
    pub open spec fn mint_to_failure(self, key: HoldingKey, amount: u64) -> Option<TokenError> {
        if !self.holdings.contains_key(key) {
            Some(TokenError::UninitializedAccount)
        } else if self.holdings[key].amount + amount > u64::MAX {
            Some(TokenError::Overflow)
        } else {
            None
        }
    }

    /// The ledger after `amount` new tokens were issued to the token account
    /// `key`.
    pub open spec fn minted_to(self, key: HoldingKey, amount: u64) -> LedgerView {
        LedgerView {
            holdings: self.holdings.insert(
                key,
                TokenAccount {
                    amount: (self.holdings[key].amount + amount) as u64,
                    lamports: self.holdings[key].lamports,
                },
            ),
            ..self
        }
    }

    /// Why the ledger refuses to create the mint `key`; `None` where it
    /// creates it.
    pub open spec fn create_mint_failure(self, key: Address) -> Option<SystemError> {
        if self.mints.contains_key(key) {
            Some(SystemError::AccountAlreadyInUse)
        } else {
            None
        }
    }

    /// The ledger with the new mint `key`.
    pub open spec fn with_mint(self, key: Address, decimals: u8) -> LedgerView {
        LedgerView { mints: self.mints.insert(key, Mint { decimals }), ..self }
    }

    /// Why the ledger refuses to create an offer record at `address` paid by
    /// `payer`; `None` where it creates it.
    pub open spec fn create_offer_failure(self, payer: Address, address: Address) -> Option<
        SystemError,
    > {
        if self.offers.contains_key(address) {
            Some(SystemError::AccountAlreadyInUse)
        } else if self.balance(payer) < self.rent.offer {
            Some(SystemError::InsufficientLamports)
        } else {
            None
        }
    }

    /// The ledger after `payer` paid for a new, blank offer record at
    /// `address`.
    pub open spec fn with_offer(self, payer: Address, address: Address) -> LedgerView {
        LedgerView {
            offers: self.offers.insert(
                address,
                OfferAccount { data: Offer::spec_blank(), lamports: self.rent.offer },
            ),
            ..self.debited(payer, self.rent.offer)
        }
    }

    /// Why the record at `address` cannot be filled; `None` where it can.
    pub open spec fn set_offer_failure(self, address: Address) -> Option<ConstraintError> {
        if !self.offers.contains_key(address) {
            Some(ConstraintError::AccountNotInitialized)
        } else {
            None
        }
    }

    /// The ledger after the record at `address` was filled with `data`.
    pub open spec fn with_offer_data(self, address: Address, data: Offer) -> LedgerView {
        LedgerView {
            offers: self.offers.insert(
                address,
                OfferAccount { data, lamports: self.offers[address].lamports },
            ),
            ..self
        }
    }

    /// Why the ledger refuses to close the offer record at `address`; `None`
    /// where it closes it.
    pub open spec fn close_offer_failure(self, address: Address, destination: Address) -> Option<
        SystemError,
    > {
        self.credit_failure(destination, self.offers[address].lamports)
    }

    /// The ledger after the offer record at `address` was closed: the record
    /// is gone, and its native balance has gone to `destination`.
    pub open spec fn without_offer(self, address: Address, destination: Address) -> LedgerView {
        LedgerView {
            offers: self.offers.remove(address),
            ..self.credited(destination, self.offers[address].lamports)
        }
    }
}

/// Offers stay in order where the program, the mints and the records stay
/// what they were, and no token account goes away or loses tokens.
pub proof fn lemma_inv_kept(pre: LedgerView, post: LedgerView)
    requires
        pre.inv(),
        post.program_id == pre.program_id,
        post.offers == pre.offers,
        forall|key: Address| pre.mints.contains_key(key) ==> post.mints.contains_key(key),
        forall|key: HoldingKey|
            pre.holdings.contains_key(key) ==> post.holdings.contains_key(key)
                && post.holdings[key].amount >= pre.holdings[key].amount,
    ensures
        post.inv(),
{
    assert forall|address: Address| #[trigger]
        post.offers.contains_key(address) implies post.offer_is_sound(address) by {
        assert(pre.offer_is_sound(address));
    }
}

/// The ledger.
pub struct Ledger {
    program_id: Address,
    rent: Rent,
    mints: Table<Address, Mint>,
    wallets: Table<Address, u64>,
    holdings: Table<HoldingKey, TokenAccount>,
    offers: Table<Address, OfferAccount>,
}

impl Ledger {
    /// What the ledger holds.
    pub closed spec fn view(&self) -> LedgerView {
        LedgerView {
            program_id: self.program_id,
            rent: self.rent,
            mints: self.mints@,
            wallets: self.wallets@,
            holdings: self.holdings@,
            offers: self.offers@,
        }
    }

    /// A ledger without accounts, for the escrow program at `program_id`.
    pub fn new(program_id: Address, rent: Rent) -> (ledger: Ledger)
        ensures
            ledger@ == LedgerView::empty(program_id, rent),
            ledger@.inv(),
    {
        Ledger {
            program_id,
            rent,
            mints: Table::new(),
            wallets: Table::new(),
            holdings: Table::new(),
            offers: Table::new(),
        }
    }

    /// A copy of the ledger.
    pub fn snapshot(&self) -> (copy: Ledger)
        ensures
            copy@ == self@,
    {
        Ledger {
            program_id: self.program_id,
            rent: self.rent,
            mints: self.mints.snapshot(),
            wallets: self.wallets.snapshot(),
            holdings: self.holdings.snapshot(),
            offers: self.offers.snapshot(),
        }
    }

    /// The address of the escrow program.
    pub fn program_id(&self) -> (program_id: Address)
        ensures
            program_id == self@.program_id,
    {
        self.program_id
    }

    /// The deposits taken for new accounts.
    pub fn rent(&self) -> (rent: Rent)
        ensures
            rent == self@.rent,
    {
        self.rent
    }

    /// The mint at `key`, if there is one.
    pub fn mint(&self, key: &Address) -> (mint: Option<Mint>)
        ensures
            mint == self@.mints.get(*key),
    {
        self.mints.get(key)
    }

    /// The native balance of `address`.
    pub fn lamports(&self, address: &Address) -> (lamports: u64)
        ensures
            lamports == self@.balance(*address),
    {
        match self.wallets.get(address) {
            Some(lamports) => lamports,
            None => 0,
        }
    }

    /// The token account of `key`, if there is one.
    pub fn token_account(&self, key: &HoldingKey) -> (account: Option<TokenAccount>)
        ensures
            account == self@.holdings.get(*key),
    {
        self.holdings.get(key)
    }

    /// The offer record at `address`, if there is one.
    pub fn offer(&self, address: &Address) -> (offer: Option<OfferAccount>)
        ensures
            offer == self@.offers.get(*address),
    {
        self.offers.get(address)
    }

    /// Does `authority` stand behind an instruction that comes with `seeds`?
    pub fn is_authorized(
        &self,
        authority: &AccountMeta,
        seeds: Option<&Vec<Vec<u8>>>,
    ) -> (authorized: bool)
        ensures
            authorized == self@.authorized(*authority, seeds_view(seeds)),
    {
        match seeds {
            None => authority.is_signer && !self.offers.contains_key(&authority.key),
            Some(seeds) => match create_program_address(seeds, &self.program_id) {
                Ok(derived) => {
                    proof {
                        lemma_address_view_injective(derived, authority.key);
                    }
                    derived == authority.key
                },
                Err(_) => false,
            },
        }
    }

    /// Adds `lamports` to the native balance of `address`.
    pub fn credit(&mut self, address: &Address, lamports: u64) -> (done: Result<(), SystemError>)
        ensures
            outcome(
                done,
                old(self)@,
                final(self)@,
                old(self)@.credit_failure(*address, lamports),
                old(self)@.credited(*address, lamports),
            ),
            old(self)@.inv() ==> final(self)@.inv(),
    {
        let balance = self.lamports(address);
        if balance > u64::MAX - lamports {
            return Err(SystemError::LamportsOverflow);
        }
        self.wallets.insert(*address, balance + lamports);
        proof {
            if old(self)@.inv() {
                lemma_inv_kept(old(self)@, self@);
            }
        }
        Ok(())
    }

    /// Takes `lamports` from the native balance of `address`.
    pub(crate) fn debit(&mut self, address: &Address, lamports: u64) -> (done: Result<
        (),
        SystemError,
    >)
        ensures
            outcome(
                done,
                old(self)@,
                final(self)@,
                old(self)@.debit_failure(*address, lamports),
                old(self)@.debited(*address, lamports),
            ),
    {
        let balance = self.lamports(address);
        if balance < lamports {
            return Err(SystemError::InsufficientLamports);
        }
        self.wallets.insert(*address, balance - lamports);
        Ok(())
    }

    /// Creates the mint `key`.
    pub fn create_mint(&mut self, key: &Address, decimals: u8) -> (done: Result<(), SystemError>)
        ensures
            outcome(
                done,
                old(self)@,
                final(self)@,
                old(self)@.create_mint_failure(*key),
                old(self)@.with_mint(*key, decimals),
            ),
            old(self)@.inv() ==> final(self)@.inv(),
    {
        if self.mints.contains_key(key) {
            return Err(SystemError::AccountAlreadyInUse);
        }
        self.mints.insert(*key, Mint { decimals });
        proof {
            if old(self)@.inv() {
                lemma_inv_kept(old(self)@, self@);
            }
        }
        Ok(())
    }

    /// Creates the empty token account `key`, for which `payer` pays the
    /// deposit.
    pub fn create_token_account(&mut self, payer: &Address, key: &HoldingKey) -> (done: Result<
        (),
        SystemError,
    >)
        ensures
            outcome(
                done,
                old(self)@,
                final(self)@,
                old(self)@.create_token_account_failure(*payer, *key),
                old(self)@.with_token_account(*payer, *key),
            ),
            old(self)@.inv() ==> final(self)@.inv(),
    {
        if self.holdings.contains_key(key) {
            return Err(SystemError::AccountAlreadyInUse);
        }
        let deposit = self.rent.token_account;
        match self.debit(payer, deposit) {
            Err(error) => Err(error),
            Ok(()) => {
                self.holdings.insert(*key, TokenAccount { amount: 0, lamports: deposit });
                proof {
                    if old(self)@.inv() {
                        lemma_inv_kept(old(self)@, self@);
                    }
                }
                Ok(())
            },
        }
    }

    /// Creates the empty token account `key` at the cost of `payer`, unless
    /// the account is there.
    pub(crate) fn ensure_token_account(&mut self, payer: &Address, key: &HoldingKey) -> (done:
        Result<(), SystemError>)
        ensures
            match done {
                Ok(()) => old(self)@.ensured_token_account(*payer, *key)
                    == Ok::<LedgerView, SystemError>(final(self)@),
                Err(error) => old(self)@.ensured_token_account(*payer, *key)
                    == Err::<LedgerView, SystemError>(error) && final(self)@ == old(self)@,
            },
    {
        if self.holdings.contains_key(key) {
            Ok(())
        } else {
            self.create_token_account(payer, key)
        }
    }

    /// Issues `amount` new tokens to the token account `key`.
    pub fn mint_to(&mut self, key: &HoldingKey, amount: u64) -> (done: Result<(), TokenError>)
        ensures
            outcome(
                done,
                old(self)@,
                final(self)@,
                old(self)@.mint_to_failure(*key, amount),
                old(self)@.minted_to(*key, amount),
            ),
            old(self)@.inv() ==> final(self)@.inv(),
    {
        match self.holdings.get(key) {
            None => Err(TokenError::UninitializedAccount),
            Some(account) => {
                if account.amount > u64::MAX - amount {
                    return Err(TokenError::Overflow);
                }
                self.holdings.insert(
                    *key,
                    TokenAccount { amount: account.amount + amount, lamports: account.lamports },
                );
                proof {
                    if old(self)@.inv() {
                        lemma_inv_kept(old(self)@, self@);
                    }
                }
                Ok(())
            },
        }
    }

    /// Creates a blank offer record at `address`, for which `payer` pays the
    /// deposit.
    pub(crate) fn create_offer(&mut self, payer: &Address, address: &Address) -> (done: Result<
        (),
        SystemError,
    >)
        ensures
            outcome(
                done,
                old(self)@,
                final(self)@,
                old(self)@.create_offer_failure(*payer, *address),
                old(self)@.with_offer(*payer, *address),
            ),
    {
        if self.offers.contains_key(address) {
            return Err(SystemError::AccountAlreadyInUse);
        }
        let deposit = self.rent.offer;
        match self.debit(payer, deposit) {
            Err(error) => Err(error),
            Ok(()) => {
                let blank = OfferAccount { data: Offer::blank(), lamports: deposit };
                self.offers.insert(*address, blank);
                Ok(())
            },
        }
    }

    /// Fills the offer record at `address` with `data`.
    pub(crate) fn set_offer(&mut self, address: &Address, data: Offer) -> (done: Result<
        (),
        ConstraintError,
    >)
        ensures
            outcome(
                done,
                old(self)@,
                final(self)@,
                old(self)@.set_offer_failure(*address),
                old(self)@.with_offer_data(*address, data),
            ),
    {
        match self.offers.get(address) {
            None => Err(ConstraintError::AccountNotInitialized),
            Some(account) => {
                self.offers.insert(*address, OfferAccount { data, lamports: account.lamports });
                Ok(())
            },
        }
    }

    /// Closes the offer record at `address` and hands its native balance to
    /// `destination`.
    pub(crate) fn close_offer(&mut self, address: &Address, destination: &Address) -> (done:
        Result<(), SystemError>)
        requires
            old(self)@.offers.contains_key(*address),
        ensures
            outcome(
                done,
                old(self)@,
                final(self)@,
                old(self)@.close_offer_failure(*address, *destination),
                old(self)@.without_offer(*address, *destination),
            ),
    {
        let lamports = match self.offers.get(address) {
            Some(account) => account.lamports,
            None => 0,
        };
        match self.credit(destination, lamports) {
            Err(error) => Err(error),
            Ok(()) => {
                self.offers.remove(address);
                Ok(())
            },
        }
    }

    /// What the token program does with a checked transfer: it moves
    /// `amount` tokens of `mint` from `from` to `to`, if `authority` owns
    /// `from` and stands behind the instruction, and `decimals` is the
    /// precision of the mint.
    pub fn transfer_checked(
        &mut self,
        from: &HoldingKey,
        to: &HoldingKey,
        mint: &Address,
        authority: &AccountMeta,
        signer_seeds: Option<&Vec<Vec<u8>>>,
        amount: u64,
        decimals: u8,
    ) -> (done: Result<(), TokenError>)
        ensures
            outcome(
                done,
                old(self)@,
                final(self)@,
                old(self)@.transfer_failure(
                    *from,
                    *to,
                    *mint,
                    *authority,
                    seeds_view(signer_seeds),
                    amount,
                    decimals,
                ),
                old(self)@.transferred(*from, *to, amount),
            ),
    {
        let source = match self.holdings.get(from) {
            Some(account) => account,
            None => { return Err(TokenError::UninitializedAccount); },
        };
        let target = match self.holdings.get(to) {
            Some(account) => account,
            None => { return Err(TokenError::UninitializedAccount); },
        };
        if source.amount < amount {
            return Err(TokenError::InsufficientFunds);
        }
        if !(from.mint == to.mint) || !(from.mint == *mint) {
            return Err(TokenError::MintMismatch);
        }
        let minted = match self.mints.get(mint) {
            Some(minted) => minted,
            None => { return Err(TokenError::InvalidMint); },
        };
        if minted.decimals != decimals {
            return Err(TokenError::MintDecimalsMismatch);
        }
        if !(authority.key == from.owner) {
            return Err(TokenError::OwnerMismatch);
        }
        if !self.is_authorized(authority, signer_seeds) {
            return Err(TokenError::MissingRequiredSignature);
        }
        if from.owner == to.owner {
            return Ok(());
        }
        if target.amount > u64::MAX - amount {
            return Err(TokenError::Overflow);
        }
        self.holdings.insert(
            *from,
            TokenAccount { amount: source.amount - amount, lamports: source.lamports },
        );
        self.holdings.insert(
            *to,
            TokenAccount { amount: target.amount + amount, lamports: target.lamports },
        );
        Ok(())
    }

    /// What the token program does with a closure: it removes the empty
    /// token account `account` and hands its native balance to
    /// `destination`, if `authority` owns the account and stands behind the
    /// instruction.
    pub fn close_account(
        &mut self,
        account: &HoldingKey,
        destination: &Address,
        authority: &AccountMeta,
        signer_seeds: Option<&Vec<Vec<u8>>>,
    ) -> (done: Result<(), TokenError>)
        ensures
            outcome(
                done,
                old(self)@,
                final(self)@,
                old(self)@.close_failure(
                    *account,
                    *destination,
                    *authority,
                    seeds_view(signer_seeds),
                ),
                old(self)@.closed(*account, *destination),
            ),
    {
        let closing = match self.holdings.get(account) {
            Some(closing) => closing,
            None => { return Err(TokenError::UninitializedAccount); },
        };
        if closing.amount != 0 {
            return Err(TokenError::NonNativeHasBalance);
        }
        if !(authority.key == account.owner) {
            return Err(TokenError::OwnerMismatch);
        }
        if !self.is_authorized(authority, signer_seeds) {
            return Err(TokenError::MissingRequiredSignature);
        }
        match self.credit(destination, closing.lamports) {
            Err(_) => Err(TokenError::Overflow),
            Ok(()) => {
                self.holdings.remove(account);
                Ok(())
            },
        }
    }
}

} // verus!
