//! Take: a taker pays what the maker wants and receives what the vault holds.

use super::shared::{
    agrees, close_token_account, close_token_account_spec, transfer_tokens, transfer_tokens_spec,
};
use crate::address::{
    create_program_address, lemma_address_view_injective, program_address, Address,
};
use crate::error::{ConstraintError, Error};
use crate::ledger::{Ledger, LedgerView};
use crate::state::offer::{signer_seeds, Offer};
use crate::token::{AccountMeta, HoldingKey};
use vstd::prelude::*;

verus! {

/// The accounts of a Take instruction.
#[derive(Clone, Copy, Debug, PartialEq, Eq)]
pub struct TakeOffer {
    /// Who takes the offer. The taker signs, and pays the deposit of each
    /// token account that has to be created.
    pub taker: AccountMeta,
    /// Who made the offer.
    pub maker: Address,
    /// The token offered.
    pub token_mint_a: Address,
    /// The token wanted.
    pub token_mint_b: Address,
    /// The address of the offer record.
    pub offer: Address,
}

impl TakeOffer {
    /// The taker's token account for the offered token.
    pub open spec fn spec_taker_token_account_a(&self) -> HoldingKey {
        HoldingKey { owner: self.taker.key, mint: self.token_mint_a }
    }

    /// The taker's token account for the offered token.
    #[verifier::when_used_as_spec(spec_taker_token_account_a)]
    pub fn taker_token_account_a(&self) -> (key: HoldingKey)
        ensures
            key == self.spec_taker_token_account_a(),
    {
        HoldingKey { owner: self.taker.key, mint: self.token_mint_a }
    }

    /// The taker's token account for the wanted token.
    pub open spec fn spec_taker_token_account_b(&self) -> HoldingKey {
        HoldingKey { owner: self.taker.key, mint: self.token_mint_b }
    }

    /// The taker's token account for the wanted token.
    #[verifier::when_used_as_spec(spec_taker_token_account_b)]
    pub fn taker_token_account_b(&self) -> (key: HoldingKey)
        ensures
            key == self.spec_taker_token_account_b(),
    {
        HoldingKey { owner: self.taker.key, mint: self.token_mint_b }
    }

    /// The maker's token account for the wanted token.
    pub open spec fn spec_maker_token_account_b(&self) -> HoldingKey {
        HoldingKey { owner: self.maker, mint: self.token_mint_b }
    }

    /// The maker's token account for the wanted token.
    #[verifier::when_used_as_spec(spec_maker_token_account_b)]
    pub fn maker_token_account_b(&self) -> (key: HoldingKey)
        ensures
            key == self.spec_maker_token_account_b(),
    {
        HoldingKey { owner: self.maker, mint: self.token_mint_b }
    }

    /// The vault: the offer's own token account for the offered token.
    pub open spec fn spec_vault(&self) -> HoldingKey {
        HoldingKey { owner: self.offer, mint: self.token_mint_a }
    }

    /// The vault: the offer's own token account for the offered token.
    #[verifier::when_used_as_spec(spec_vault)]
    pub fn vault(&self) -> (key: HoldingKey)
        ensures
            key == self.spec_vault(),
    {
        HoldingKey { owner: self.offer, mint: self.token_mint_a }
    }

    /// Does the instruction name the maker and the two mints of `offer`?
    pub open spec fn names(&self, offer: Offer) -> bool {
        &&& offer.maker == self.maker
        &&& offer.token_mint_a == self.token_mint_a
        &&& offer.token_mint_b == self.token_mint_b
    }

    /// Does the instruction name the maker and the two mints of `offer`?
    pub fn has_one(&self, offer: &Offer) -> (named: bool)
        ensures
            named == self.names(*offer),
    {
        offer.maker == self.maker && offer.token_mint_a == self.token_mint_a
            && offer.token_mint_b == self.token_mint_b
    }

    /// The offer's address as the authority over the vault. It signs by
    /// derivation only.
    pub open spec fn spec_custody(&self) -> AccountMeta {
        AccountMeta { key: self.offer, is_signer: false }
    }

    /// The offer's address as the authority over the vault. It signs by
    /// derivation only.
    #[verifier::when_used_as_spec(spec_custody)]
    pub fn custody(&self) -> (authority: AccountMeta)
        ensures
            authority == self.spec_custody(),
    {
        AccountMeta { key: self.offer, is_signer: false }
    }
}

impl TakeOffer {
    /// What checking the accounts of a Take instruction does to a ledger.
    /// The taker has signed; both mints exist; the offer record exists at
    /// the address that its own identifier and bump seed derive, and names
    /// the maker and the two mints of the instruction; the taker's token
    /// account for the wanted token and the vault exist. Then the taker's
    /// token account for the offered token and the maker's token account for
    /// the wanted token are created at the taker's cost, where they are
    /// missing.
    pub open spec fn try_accounts_spec(self, pre: LedgerView) -> Result<LedgerView, Error> {
        if !self.taker.is_signer {
            Err(Error::Constraint(ConstraintError::AccountNotSigner))
        } else if !pre.mints.contains_key(self.token_mint_a)
            || !pre.mints.contains_key(self.token_mint_b)
            || !pre.offers.contains_key(self.offer) {
            Err(Error::Constraint(ConstraintError::AccountNotInitialized))
        } else {
            let offer = pre.record(self.offer);
            if program_address(signer_seeds(offer.id, offer.bump), pre.program_id@)
                != Some(self.offer@) {
                Err(Error::Constraint(ConstraintError::ConstraintSeeds))
            } else if !self.names(offer) {
                Err(Error::Constraint(ConstraintError::ConstraintHasOne))
            } else if !pre.holdings.contains_key(self.taker_token_account_b())
                || !pre.holdings.contains_key(self.vault()) {
                Err(Error::Constraint(ConstraintError::AccountNotInitialized))
            } else {
                match pre.ensured_token_account(self.taker.key, self.taker_token_account_a()) {
                    Err(error) => Err(Error::System(error)),
                    Ok(opened) => match opened.ensured_token_account(
                        self.taker.key,
                        self.maker_token_account_b(),
                    ) {
                        Err(error) => Err(Error::System(error)),
                        Ok(loaded) => Ok(loaded),
                    },
                }
            }
        }
    }

    fn try_accounts_steps(&self, ledger: &mut Ledger) -> (loaded: Result<(), Error>)
        ensures
            match loaded {
                Ok(()) => self.try_accounts_spec(old(ledger)@)
                    == Ok::<LedgerView, Error>(final(ledger)@),
                Err(error) => self.try_accounts_spec(old(ledger)@)
                    == Err::<LedgerView, Error>(error),
            },
    {
        if !self.taker.is_signer {
            return Err(Error::Constraint(ConstraintError::AccountNotSigner));
        }
        if ledger.mint(&self.token_mint_a).is_none() || ledger.mint(&self.token_mint_b).is_none() {
            return Err(Error::Constraint(ConstraintError::AccountNotInitialized));
        }
        let offer = match ledger.offer(&self.offer) {
            Some(account) => account.data,
            None => { return Err(Error::Constraint(ConstraintError::AccountNotInitialized)); },
        };
        let program_id = ledger.program_id();
        match create_program_address(&Offer::signer_seeds(offer.id, offer.bump), &program_id) {
            Err(_) => { return Err(Error::Constraint(ConstraintError::ConstraintSeeds)); },
            Ok(address) => {
                proof {
                    lemma_address_view_injective(address, self.offer);
                }
                if !(address == self.offer) {
                    return Err(Error::Constraint(ConstraintError::ConstraintSeeds));
                }
            },
        }
        if !self.has_one(&offer) {
            return Err(Error::Constraint(ConstraintError::ConstraintHasOne));
        }
        if ledger.token_account(&self.taker_token_account_b()).is_none()
            || ledger.token_account(&self.vault()).is_none() {
            return Err(Error::Constraint(ConstraintError::AccountNotInitialized));
        }
        match ledger.ensure_token_account(&self.taker.key, &self.taker_token_account_a()) {
            Err(error) => { return Err(Error::System(error)); },
            Ok(()) => {},
        }
        match ledger.ensure_token_account(&self.taker.key, &self.maker_token_account_b()) {
            Err(error) => Err(Error::System(error)),
            Ok(()) => Ok(()),
        }
    }

    /// Checks the accounts of a Take instruction, and creates the two token
    /// accounts that receive, where they are missing. Where a check fails
    /// the ledger is left as it was.
    pub fn try_accounts(&self, ledger: &mut Ledger) -> (loaded: Result<(), Error>)
        ensures
            agrees(loaded, old(ledger)@, final(ledger)@, self.try_accounts_spec(old(ledger)@)),
    {
        let saved = ledger.snapshot();
        let loaded = self.try_accounts_steps(ledger);
        if loaded.is_err() {
            *ledger = saved;
        }
        loaded
    }
}

/// What [`take_offer`] does to a ledger that holds the offer record and the
/// vault. The vault's whole balance moves to the taker, signed for by the
/// seeds of the offer's address; the vault is closed in favour of the maker;
/// then the wanted amount moves from the taker to the maker under the
/// taker's signature. The first step that is refused ends the operation.
pub open spec fn take_offer_spec(pre: LedgerView, accounts: TakeOffer) -> Result<
    LedgerView,
    Error,
> {
    if !pre.offers.contains_key(accounts.offer) || !pre.holdings.contains_key(accounts.vault()) {
        Err(Error::Constraint(ConstraintError::AccountNotInitialized))
    } else {
        let offer = pre.record(accounts.offer);
        let seeds = Some(signer_seeds(offer.id, offer.bump));
        match transfer_tokens_spec(
            pre,
            accounts.vault(),
            accounts.taker_token_account_a(),
            pre.holdings[accounts.vault()].amount,
            accounts.token_mint_a,
            accounts.custody(),
            seeds,
        ) {
            Err(error) => Err(error),
            Ok(drained) => match close_token_account_spec(
                drained,
                accounts.vault(),
                accounts.custody(),
                accounts.maker,
                seeds,
            ) {
                Err(error) => Err(error),
                Ok(closed) => transfer_tokens_spec(
                    closed,
                    accounts.taker_token_account_b(),
                    accounts.maker_token_account_b(),
                    offer.token_b_amount_wanted,
                    accounts.token_mint_b,
                    accounts.taker,
                    None,
                ),
            },
        }
    }
}

fn take_offer_steps(ledger: &mut Ledger, accounts: &TakeOffer) -> (done: Result<(), Error>)
    ensures
        match done {
            Ok(()) => take_offer_spec(old(ledger)@, *accounts)
                == Ok::<LedgerView, Error>(final(ledger)@),
            Err(error) => take_offer_spec(old(ledger)@, *accounts)
                == Err::<LedgerView, Error>(error),
        },
{
    let offer = match ledger.offer(&accounts.offer) {
        Some(account) => account.data,
        None => { return Err(Error::Constraint(ConstraintError::AccountNotInitialized)); },
    };
    let vault = match ledger.token_account(&accounts.vault()) {
        Some(vault) => vault,
        None => { return Err(Error::Constraint(ConstraintError::AccountNotInitialized)); },
    };
    let seeds = Offer::signer_seeds(offer.id, offer.bump);
    let signer_seeds = Some(&seeds);

    transfer_tokens(
        ledger,
        &accounts.vault(),
        &accounts.taker_token_account_a(),
        &vault.amount,
        &accounts.token_mint_a,
        &accounts.custody(),
        signer_seeds,
    )?;

    close_token_account(
        ledger,
        &accounts.vault(),
        &accounts.custody(),
        &accounts.maker,
        signer_seeds,
    )?;

    transfer_tokens(
        ledger,
        &accounts.taker_token_account_b(),
        &accounts.maker_token_account_b(),
        &offer.token_b_amount_wanted,
        &accounts.token_mint_b,
        &accounts.taker,
        None,
    )
}

/// Takes an offer: the taker receives the vault's whole balance of the
/// offered token, the vault is closed, and the maker receives the wanted
/// amount of the wanted token from the taker. Either all of it happens or
/// nothing.
pub fn take_offer(ledger: &mut Ledger, accounts: &TakeOffer) -> (done: Result<(), Error>)
    ensures
        agrees(done, old(ledger)@, final(ledger)@, take_offer_spec(old(ledger)@, *accounts)),
{
    let saved = ledger.snapshot();
    let done = take_offer_steps(ledger, accounts);
    if done.is_err() {
        *ledger = saved;
    }
    done
}

} // verus!
