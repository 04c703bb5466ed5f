//! Make: the maker opens an offer and pays the offered tokens into its vault.

use super::shared::{agrees, transfer_tokens, transfer_tokens_spec};
use crate::address::{
    lemma_address_view_injective, program_address, program_address_search, Address,
};
use crate::error::{ConstraintError, Error, ErrorCode};
use crate::ledger::{Ledger, LedgerView};
use crate::state::offer::{offer_seeds, signer_seeds, Offer};
use crate::token::{AccountMeta, HoldingKey};
use vstd::prelude::*;

verus! {

/// The accounts of a Make instruction.
#[derive(Clone, Copy, Debug, PartialEq, Eq)]
pub struct MakeOffer {
    /// Who makes the offer. The maker signs, and pays the deposits of the
    /// offer record and of the vault.
    pub maker: AccountMeta,
    /// The token offered.
    pub token_mint_a: Address,
    /// The token wanted.
    pub token_mint_b: Address,
    /// Where the offer record goes: the address derived from the offer's
    /// identifier.
    pub offer: Address,
}

/// The bump seeds found while the accounts of a Make instruction were
/// checked.
#[derive(Clone, Copy, Debug, PartialEq, Eq)]
pub struct MakeOfferBumps {
    pub offer: u8,
}

impl MakeOffer {
    /// The maker's token account for the offered token.
    pub open spec fn spec_maker_token_account_a(&self) -> HoldingKey {
        HoldingKey { owner: self.maker.key, mint: self.token_mint_a }
    }

    /// The maker's token account for the offered token.
    #[verifier::when_used_as_spec(spec_maker_token_account_a)]
    pub fn maker_token_account_a(&self) -> (key: HoldingKey)
        ensures
            key == self.spec_maker_token_account_a(),
    {
        HoldingKey { owner: self.maker.key, mint: self.token_mint_a }
    }

    /// The vault: the offer's own token account for the offered token.
    pub open spec fn spec_vault(&self) -> HoldingKey {
        HoldingKey { owner: self.offer, mint: self.token_mint_a }
    }

    /// The vault: the offer's own token account for the offered token.
    #[verifier::when_used_as_spec(spec_vault)]
    pub fn vault(&self) -> (key: HoldingKey)
        ensures
            key == self.spec_vault(),
    {
        HoldingKey { owner: self.offer, mint: self.token_mint_a }
    }
}

impl MakeOffer {
    /// What checking the accounts of a Make instruction for offer `id` does
    /// to a ledger, and the bump seed it finds. The maker has signed; both
    /// mints and the maker's token account for the offered token exist; the
    /// offer's address is the one found for the identifier. Then a blank
    /// offer record and the empty vault are created at the maker's cost.
    pub open spec fn try_accounts_spec(self, pre: LedgerView, id: u64) -> Result<
        (LedgerView, MakeOfferBumps),
        Error,
    > {
        if !self.maker.is_signer {
            Err(Error::Constraint(ConstraintError::AccountNotSigner))
        } else if !pre.mints.contains_key(self.token_mint_a)
            || !pre.mints.contains_key(self.token_mint_b)
            || !pre.holdings.contains_key(self.maker_token_account_a()) {
            Err(Error::Constraint(ConstraintError::AccountNotInitialized))
        } else {
            match program_address_search(offer_seeds(id), pre.program_id@) {
                None => Err(Error::Constraint(ConstraintError::ConstraintSeeds)),
                Some((address, bump)) => if address != self.offer@ {
                    Err(Error::Constraint(ConstraintError::ConstraintSeeds))
                } else {
                    match pre.create_offer_failure(self.maker.key, self.offer) {
                        Some(error) => Err(Error::System(error)),
                        None => {
                            let recorded = pre.with_offer(self.maker.key, self.offer);
                            let payer = self.maker.key;
                            match recorded.create_token_account_failure(payer, self.vault()) {
                                Some(error) => Err(Error::System(error)),
                                None => Ok(
                                    (
                                        recorded.with_token_account(payer, self.vault()),
                                        MakeOfferBumps { offer: bump },
                                    ),
                                ),
                            }
                        },
                    }
                },
            }
        }
    }

    fn try_accounts_steps(&self, ledger: &mut Ledger, id: u64) -> (loaded: Result<
        MakeOfferBumps,
        Error,
    >)
        ensures
            match loaded {
                Ok(bumps) => self.try_accounts_spec(old(ledger)@, id) == Ok::<
                    (LedgerView, MakeOfferBumps),
                    Error,
                >((final(ledger)@, bumps)) && program_address(
                    signer_seeds(id, bumps.offer),
                    old(ledger)@.program_id@,
                ) == Some(self.offer@),
                Err(error) => self.try_accounts_spec(old(ledger)@, id) == Err::<
                    (LedgerView, MakeOfferBumps),
                    Error,
                >(error),
            },
    {
        if !self.maker.is_signer {
            return Err(Error::Constraint(ConstraintError::AccountNotSigner));
        }
        if ledger.mint(&self.token_mint_a).is_none() || ledger.mint(&self.token_mint_b).is_none()
            || ledger.token_account(&self.maker_token_account_a()).is_none() {
            return Err(Error::Constraint(ConstraintError::AccountNotInitialized));
        }
        let program_id = ledger.program_id();
        let bump = match Offer::find_address(&program_id, id) {
            None => { return Err(Error::Constraint(ConstraintError::ConstraintSeeds)); },
            Some((address, bump)) => {
                proof {
                    lemma_address_view_injective(address, self.offer);
                }
                if !(address == self.offer) {
                    return Err(Error::Constraint(ConstraintError::ConstraintSeeds));
                }
                bump
            },
        };
        match ledger.create_offer(&self.maker.key, &self.offer) {
            Err(error) => { return Err(Error::System(error)); },
            Ok(()) => {},
        }
        match ledger.create_token_account(&self.maker.key, &self.vault()) {
            Err(error) => { return Err(Error::System(error)); },
            Ok(()) => {},
        }
        Ok(MakeOfferBumps { offer: bump })
    }

    /// Checks the accounts of a Make instruction for offer `id`, and creates
    /// the offer record and the vault. Returns the bump seed of the offer's
    /// address. Where a check fails the ledger is left as it was.
    pub fn try_accounts(&self, ledger: &mut Ledger, id: u64) -> (loaded: Result<
        MakeOfferBumps,
        Error,
    >)
        ensures
            match loaded {
                Ok(bumps) => self.try_accounts_spec(old(ledger)@, id) == Ok::<
                    (LedgerView, MakeOfferBumps),
                    Error,
                >((final(ledger)@, bumps)) && program_address(
                    signer_seeds(id, bumps.offer),
                    old(ledger)@.program_id@,
                ) == Some(self.offer@),
                Err(error) => self.try_accounts_spec(old(ledger)@, id) == Err::<
                    (LedgerView, MakeOfferBumps),
                    Error,
                >(error) && final(ledger)@ == old(ledger)@,
            },
    {
        let saved = ledger.snapshot();
        let loaded = self.try_accounts_steps(ledger, id);
        if loaded.is_err() {
            *ledger = saved;
        }
        loaded
    }
}

/// The terms that Make writes into the offer record.
pub open spec fn offer_terms(
    accounts: MakeOffer,
    bumps: MakeOfferBumps,
    id: u64,
    token_b_amount_wanted: u64,
) -> Offer {
    Offer {
        id,
        maker: accounts.maker.key,
        token_mint_a: accounts.token_mint_a,
        token_mint_b: accounts.token_mint_b,
        token_b_amount_wanted,
        bump: bumps.offer,
    }
}

/// The rule that the terms of an offer break, if any: an amount of zero, or
/// else a wanted token that is the offered token.
pub open spec fn terms_failure(
    token_a_amount_offered: u64,
    token_b_amount_wanted: u64,
    token_mint_a: Address,
    token_mint_b: Address,
) -> Option<ErrorCode> {
    if token_a_amount_offered == 0 || token_b_amount_wanted == 0 {
        Some(ErrorCode::InvalidAmount)
    } else if token_mint_a == token_mint_b {
        Some(ErrorCode::InvalidTokenMint)
    } else {
        None
    }
}

/// Holds the terms of an offer to the rules: both amounts are positive, and
/// the two mints differ.
pub fn check_terms(
    token_a_amount_offered: u64,
    token_b_amount_wanted: u64,
    token_mint_a: &Address,
    token_mint_b: &Address,
) -> (checked: Result<(), ErrorCode>)
    ensures
        checked == match terms_failure(
            token_a_amount_offered,
            token_b_amount_wanted,
            *token_mint_a,
            *token_mint_b,
        ) {
            Some(error) => Err::<(), ErrorCode>(error),
            None => Ok::<(), ErrorCode>(()),
        },
{
    if token_a_amount_offered == 0 {
        return Err(ErrorCode::InvalidAmount);
    }
    if token_b_amount_wanted == 0 {
        return Err(ErrorCode::InvalidAmount);
    }
    if *token_mint_a == *token_mint_b {
        return Err(ErrorCode::InvalidTokenMint);
    }
    Ok(())
}

/// What [`make_offer`] does to a ledger. An amount of zero is refused, then
/// an offer of a token for itself. Then the terms are written into the
/// record that was created for them, and the offered amount moves from the
/// maker to the vault under the maker's signature.
pub open spec fn make_offer_spec(
    pre: LedgerView,
    accounts: MakeOffer,
    bumps: MakeOfferBumps,
    id: u64,
    token_a_amount_offered: u64,
    token_b_amount_wanted: u64,
) -> Result<LedgerView, Error> {
    if let Some(error) = terms_failure(
        token_a_amount_offered,
        token_b_amount_wanted,
        accounts.token_mint_a,
        accounts.token_mint_b,
    ) {
        Err(Error::Rule(error))
    } else if !pre.offers.contains_key(accounts.offer) {
        Err(Error::Constraint(ConstraintError::AccountNotInitialized))
    } else {
        transfer_tokens_spec(
            pre.with_offer_data(
                accounts.offer,
                offer_terms(accounts, bumps, id, token_b_amount_wanted),
            ),
            accounts.maker_token_account_a(),
            accounts.vault(),
            token_a_amount_offered,
            accounts.token_mint_a,
            accounts.maker,
            None,
        )
    }
}

fn make_offer_steps(
    ledger: &mut Ledger,
    accounts: &MakeOffer,
    bumps: &MakeOfferBumps,
    id: u64,
    token_a_amount_offered: u64,
    token_b_amount_wanted: u64,
) -> (done: Result<(), Error>)
    ensures
        match done {
            Ok(()) => make_offer_spec(
                old(ledger)@,
                *accounts,
                *bumps,
                id,
                token_a_amount_offered,
                token_b_amount_wanted,
            ) == Ok::<LedgerView, Error>(final(ledger)@),
            Err(error) => make_offer_spec(
                old(ledger)@,
                *accounts,
                *bumps,
                id,
                token_a_amount_offered,
                token_b_amount_wanted,
            ) == Err::<LedgerView, Error>(error),
        },
{
    match check_terms(
        token_a_amount_offered,
        token_b_amount_wanted,
        &accounts.token_mint_a,
        &accounts.token_mint_b,
    ) {
        Err(error) => { return Err(Error::Rule(error)); },
        Ok(()) => {},
    }
    let terms = Offer {
        id,
        maker: accounts.maker.key,
        token_mint_a: accounts.token_mint_a,
        token_mint_b: accounts.token_mint_b,
        token_b_amount_wanted,
        bump: bumps.offer,
    };
    match ledger.set_offer(&accounts.offer, terms) {
        Err(error) => { return Err(Error::Constraint(error)); },
        Ok(()) => {},
    }
    transfer_tokens(
        ledger,
        &accounts.maker_token_account_a(),
        &accounts.vault(),
        &token_a_amount_offered,
        &accounts.token_mint_a,
        &accounts.maker,
        None,
    )
}

/// Makes an offer: writes its terms into the record at `accounts.offer` and
/// moves `token_a_amount_offered` of the offered token from the maker's
/// token account into the vault. Either all of it happens or nothing.
pub fn make_offer(
    ledger: &mut Ledger,
    accounts: &MakeOffer,
    bumps: &MakeOfferBumps,
    id: u64,
    token_a_amount_offered: u64,
    token_b_amount_wanted: u64,
) -> (done: Result<(), Error>)
    ensures
        agrees(
            done,
            old(ledger)@,
            final(ledger)@,
            make_offer_spec(
                old(ledger)@,
                *accounts,
                *bumps,
                id,
                token_a_amount_offered,
                token_b_amount_wanted,
            ),
        ),
{
    let saved = ledger.snapshot();
    let done = make_offer_steps(
        ledger,
        accounts,
        bumps,
        id,
        token_a_amount_offered,
        token_b_amount_wanted,
    );
    if done.is_err() {
        *ledger = saved;
    }
    done
}

} // verus!
