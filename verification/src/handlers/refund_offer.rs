//! Refund: the maker withdraws the offer and receives back what the vault
//! holds.

use super::shared::{
    agrees, close_token_account, close_token_account_spec, transfer_tokens, transfer_tokens_spec,
};
use crate::address::{
    create_program_address, lemma_address_view_injective, program_address, Address,
};
use crate::error::{ConstraintError, Error};
use crate::ledger::{Ledger, LedgerView};
use crate::state::offer::{signer_seeds, Offer};
use crate::token::{AccountMeta, HoldingKey};
use vstd::prelude::*;

verus! {

/// The accounts of a Refund instruction.
#[derive(Clone, Copy, Debug, PartialEq, Eq)]
pub struct RefundOffer {
    /// Who made the offer. Only the maker can withdraw it, and the maker
    /// signs.
    pub maker: AccountMeta,
    /// The token offered.
    pub token_mint_a: Address,
    /// The token wanted.
    pub token_mint_b: Address,
    /// The address of the offer record.
    pub offer: Address,
}

impl RefundOffer {
    /// The maker's token account for the offered token.
    pub open spec fn spec_maker_token_account_a(&self) -> HoldingKey {
        HoldingKey { owner: self.maker.key, mint: self.token_mint_a }
    }

    /// The maker's token account for the offered token.
    #[verifier::when_used_as_spec(spec_maker_token_account_a)]
    pub fn maker_token_account_a(&self) -> (key: HoldingKey)
        ensures
            key == self.spec_maker_token_account_a(),
    {
        HoldingKey { owner: self.maker.key, mint: self.token_mint_a }
    }

    /// The vault: the offer's own token account for the offered token.
    pub open spec fn spec_vault(&self) -> HoldingKey {
        HoldingKey { owner: self.offer, mint: self.token_mint_a }
    }

    /// The vault: the offer's own token account for the offered token.
    #[verifier::when_used_as_spec(spec_vault)]
    pub fn vault(&self) -> (key: HoldingKey)
        ensures
            key == self.spec_vault(),
    {
        HoldingKey { owner: self.offer, mint: self.token_mint_a }
    }

    /// Does the instruction name the maker and the two mints of `offer`?
    pub open spec fn names(&self, offer: Offer) -> bool {
        &&& offer.maker == self.maker.key
        &&& offer.token_mint_a == self.token_mint_a
        &&& offer.token_mint_b == self.token_mint_b
    }

    /// Does the instruction name the maker and the two mints of `offer`?
    pub fn has_one(&self, offer: &Offer) -> (named: bool)
        ensures
            named == self.names(*offer),
    {
        offer.maker == self.maker.key && offer.token_mint_a == self.token_mint_a
            && offer.token_mint_b == self.token_mint_b
    }

    /// The offer's address as the authority over the vault. It signs by
    /// derivation only.
    pub open spec fn spec_custody(&self) -> AccountMeta {
        AccountMeta { key: self.offer, is_signer: false }
    }

    /// The offer's address as the authority over the vault. It signs by
    /// derivation only.
    #[verifier::when_used_as_spec(spec_custody)]
    pub fn custody(&self) -> (authority: AccountMeta)
        ensures
            authority == self.spec_custody(),
    {
        AccountMeta { key: self.offer, is_signer: false }
    }
}

impl RefundOffer {
    /// What checking the accounts of a Refund instruction does to a ledger:
    /// nothing, but it can fail. The maker has signed; both mints exist; the
    /// offer record exists at the address that its own identifier and bump
    /// seed derive, and names the maker and the two mints of the
    /// instruction; the vault and the maker's token account for the offered
    /// token exist.
    pub open spec fn try_accounts_spec(self, pre: LedgerView) -> Result<LedgerView, Error> {
        if !self.maker.is_signer {
            Err(Error::Constraint(ConstraintError::AccountNotSigner))
        } else if !pre.mints.contains_key(self.token_mint_a)
            || !pre.mints.contains_key(self.token_mint_b)
            || !pre.offers.contains_key(self.offer) {
            Err(Error::Constraint(ConstraintError::AccountNotInitialized))
        } else {
            let offer = pre.record(self.offer);
            if program_address(signer_seeds(offer.id, offer.bump), pre.program_id@)
                != Some(self.offer@) {
                Err(Error::Constraint(ConstraintError::ConstraintSeeds))
            } else if !self.names(offer) {
                Err(Error::Constraint(ConstraintError::ConstraintHasOne))
            } else if !pre.holdings.contains_key(self.vault()) || !pre.holdings.contains_key(
                self.maker_token_account_a(),
            ) {
                Err(Error::Constraint(ConstraintError::AccountNotInitialized))
            } else {
                Ok(pre)
            }
        }
    }

    fn try_accounts_steps(&self, ledger: &mut Ledger) -> (loaded: Result<(), Error>)
        ensures
            match loaded {
                Ok(()) => self.try_accounts_spec(old(ledger)@)
                    == Ok::<LedgerView, Error>(final(ledger)@),
                Err(error) => self.try_accounts_spec(old(ledger)@)
                    == Err::<LedgerView, Error>(error),
            },
    {
        if !self.maker.is_signer {
            return Err(Error::Constraint(ConstraintError::AccountNotSigner));
        }
        if ledger.mint(&self.token_mint_a).is_none() || ledger.mint(&self.token_mint_b).is_none() {
            return Err(Error::Constraint(ConstraintError::AccountNotInitialized));
        }
        let offer = match ledger.offer(&self.offer) {
            Some(account) => account.data,
            None => { return Err(Error::Constraint(ConstraintError::AccountNotInitialized)); },
        };
        let program_id = ledger.program_id();
        match create_program_address(&Offer::signer_seeds(offer.id, offer.bump), &program_id) {
            Err(_) => { return Err(Error::Constraint(ConstraintError::ConstraintSeeds)); },
            Ok(address) => {
                proof {
                    lemma_address_view_injective(address, self.offer);
                }
                if !(address == self.offer) {
                    return Err(Error::Constraint(ConstraintError::ConstraintSeeds));
                }
            },
        }
        if !self.has_one(&offer) {
            return Err(Error::Constraint(ConstraintError::ConstraintHasOne));
        }
        if ledger.token_account(&self.vault()).is_none() || ledger.token_account(
            &self.maker_token_account_a(),
        ).is_none() {
            return Err(Error::Constraint(ConstraintError::AccountNotInitialized));
        }
        Ok(())
    }

    /// Checks the accounts of a Refund instruction. The ledger is left as it
    /// was.
    pub fn try_accounts(&self, ledger: &mut Ledger) -> (loaded: Result<(), Error>)
        ensures
            agrees(loaded, old(ledger)@, final(ledger)@, self.try_accounts_spec(old(ledger)@)),
    {
        let saved = ledger.snapshot();
        let loaded = self.try_accounts_steps(ledger);
        if loaded.is_err() {
            *ledger = saved;
        }
        loaded
    }
}

/// What [`refund_offer`] does to a ledger that holds the offer record and
/// the vault. The vault's whole balance moves back to the maker, signed for
/// by the seeds of the offer's address; then the vault is closed in favour
/// of the maker. The first step that is refused ends the operation.
pub open spec fn refund_offer_spec(pre: LedgerView, accounts: RefundOffer) -> Result<
    LedgerView,
    Error,
> {
    if !pre.offers.contains_key(accounts.offer) || !pre.holdings.contains_key(accounts.vault()) {
        Err(Error::Constraint(ConstraintError::AccountNotInitialized))
    } else {
        let offer = pre.record(accounts.offer);
        let seeds = Some(signer_seeds(offer.id, offer.bump));
        match transfer_tokens_spec(
            pre,
            accounts.vault(),
            accounts.maker_token_account_a(),
            pre.holdings[accounts.vault()].amount,
            accounts.token_mint_a,
            accounts.custody(),
            seeds,
        ) {
            Err(error) => Err(error),
            Ok(drained) => close_token_account_spec(
                drained,
                accounts.vault(),
                accounts.custody(),
                accounts.maker.key,
                seeds,
            ),
        }
    }
}

fn refund_offer_steps(ledger: &mut Ledger, accounts: &RefundOffer) -> (done: Result<(), Error>)
    ensures
        match done {
            Ok(()) => refund_offer_spec(old(ledger)@, *accounts)
                == Ok::<LedgerView, Error>(final(ledger)@),
            Err(error) => refund_offer_spec(old(ledger)@, *accounts)
                == Err::<LedgerView, Error>(error),
        },
{
    let offer = match ledger.offer(&accounts.offer) {
        Some(account) => account.data,
        None => { return Err(Error::Constraint(ConstraintError::AccountNotInitialized)); },
    };
    let vault = match ledger.token_account(&accounts.vault()) {
        Some(vault) => vault,
        None => { return Err(Error::Constraint(ConstraintError::AccountNotInitialized)); },
    };
    let seeds = Offer::signer_seeds(offer.id, offer.bump);
    let signer_seeds = Some(&seeds);

    transfer_tokens(
        ledger,
        &accounts.vault(),
        &accounts.maker_token_account_a(),
        &vault.amount,
        &accounts.token_mint_a,
        &accounts.custody(),
        signer_seeds,
    )?;

    close_token_account(
        ledger,
        &accounts.vault(),
        &accounts.custody(),
        &accounts.maker.key,
        signer_seeds,
    )
}

/// Refunds an offer: the maker receives back the vault's whole balance of
/// the offered token, and the vault is closed. Either all of it happens or
/// nothing.
pub fn refund_offer(ledger: &mut Ledger, accounts: &RefundOffer) -> (done: Result<(), Error>)
    ensures
        agrees(done, old(ledger)@, final(ledger)@, refund_offer_spec(old(ledger)@, *accounts)),
{
    let saved = ledger.snapshot();
    let done = refund_offer_steps(ledger, accounts);
    if done.is_err() {
        *ledger = saved;
    }
    done
}

} // verus!
