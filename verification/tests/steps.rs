use escrow::address::Address;
use escrow::error::{ConstraintError, Error, ErrorCode, SystemError, TokenError};
use escrow::handlers::make_offer::{make_offer, MakeOffer, MakeOfferBumps};
use escrow::handlers::refund_offer::{refund_offer, RefundOffer};
use escrow::handlers::shared::{close_token_account, transfer_tokens};
use escrow::handlers::take_offer::{take_offer, TakeOffer};
use escrow::ledger::Ledger;
use escrow::state::offer::Offer;
use escrow::table::Table;
use escrow::token::{AccountMeta, HoldingKey, Mint, Rent, TokenAccount};

const RENT: u64 = 100;

fn address(byte: u8) -> Address {
    Address { bytes: [byte; 32] }
}

fn program() -> Address {
    address(9)
}

fn alice() -> Address {
    address(1)
}

fn bob() -> Address {
    address(2)
}

fn gold() -> Address {
    address(10)
}

fn silver() -> Address {
    address(11)
}

fn key(owner: Address, mint: Address) -> HoldingKey {
    HoldingKey { owner, mint }
}

fn signer(key: Address) -> AccountMeta {
    AccountMeta { key, is_signer: true }
}

fn tokens(ledger: &Ledger, owner: Address, mint: Address) -> Option<u64> {
    ledger.token_account(&key(owner, mint)).map(|account| account.amount)
}

/// A ledger on which Alice holds 1,000 gold and Bob holds 40 gold and an
/// empty silver account. Each has 1,000 lamports left.
fn ledger() -> Ledger {
    let mut ledger = Ledger::new(program(), Rent { offer: 10, token_account: RENT });
    ledger.create_mint(&gold(), 6).unwrap();
    ledger.create_mint(&silver(), 2).unwrap();
    ledger.credit(&alice(), 1_000 + RENT).unwrap();
    ledger.credit(&bob(), 1_000 + 2 * RENT).unwrap();
    ledger.create_token_account(&alice(), &key(alice(), gold())).unwrap();
    ledger.create_token_account(&bob(), &key(bob(), gold())).unwrap();
    ledger.create_token_account(&bob(), &key(bob(), silver())).unwrap();
    ledger.mint_to(&key(alice(), gold()), 1_000).unwrap();
    ledger.mint_to(&key(bob(), gold()), 40).unwrap();
    ledger
}

#[test]
fn a_new_ledger_is_empty() {
    let ledger = Ledger::new(program(), Rent { offer: 10, token_account: RENT });
    assert_eq!(ledger.program_id(), program());
    assert_eq!(ledger.rent(), Rent { offer: 10, token_account: RENT });
    assert_eq!(ledger.mint(&gold()), None);
    assert_eq!(ledger.lamports(&alice()), 0);
    assert_eq!(ledger.token_account(&key(alice(), gold())), None);
    assert_eq!(ledger.offer(&alice()), None);
}

#[test]
fn a_mint_is_created_once() {
    let mut ledger = ledger();
    assert_eq!(ledger.mint(&gold()), Some(Mint { decimals: 6 }));
    assert_eq!(ledger.mint(&silver()), Some(Mint { decimals: 2 }));
    assert_eq!(ledger.create_mint(&gold(), 0), Err(SystemError::AccountAlreadyInUse));
    assert_eq!(ledger.mint(&gold()), Some(Mint { decimals: 6 }));
}

#[test]
fn credit_adds_to_a_native_balance() {
    let mut ledger = ledger();
    assert_eq!(ledger.credit(&alice(), 5), Ok(()));
    assert_eq!(ledger.lamports(&alice()), 1_005);
    assert_eq!(ledger.lamports(&bob()), 1_000);
    assert_eq!(ledger.credit(&alice(), u64::MAX - 1_004), Err(SystemError::LamportsOverflow));
    assert_eq!(ledger.lamports(&alice()), 1_005);
    assert_eq!(ledger.credit(&alice(), u64::MAX - 1_005), Ok(()));
    assert_eq!(ledger.lamports(&alice()), u64::MAX);
}

#[test]
fn a_token_account_costs_its_deposit() {
    let mut ledger = ledger();
    assert_eq!(ledger.create_token_account(&alice(), &key(alice(), silver())), Ok(()));
    assert_eq!(
        ledger.token_account(&key(alice(), silver())),
        Some(TokenAccount { amount: 0, lamports: RENT })
    );
    assert_eq!(ledger.lamports(&alice()), 900);
    assert_eq!(
        ledger.create_token_account(&alice(), &key(alice(), silver())),
        Err(SystemError::AccountAlreadyInUse)
    );
    assert_eq!(
        ledger.create_token_account(&address(3), &key(address(3), gold())),
        Err(SystemError::InsufficientLamports)
    );
    assert_eq!(ledger.token_account(&key(address(3), gold())), None);
    assert_eq!(ledger.lamports(&alice()), 900);
}

#[test]
fn mint_to_issues_tokens() {
    let mut ledger = ledger();
    assert_eq!(ledger.mint_to(&key(bob(), gold()), 2), Ok(()));
    assert_eq!(tokens(&ledger, bob(), gold()), Some(42));
    assert_eq!(ledger.mint_to(&key(bob(), gold()), u64::MAX - 41), Err(TokenError::Overflow));
    assert_eq!(
        ledger.mint_to(&key(alice(), silver()), 1),
        Err(TokenError::UninitializedAccount)
    );
    assert_eq!(tokens(&ledger, bob(), gold()), Some(42));
    assert_eq!(ledger.mint_to(&key(bob(), gold()), u64::MAX - 42), Ok(()));
    assert_eq!(tokens(&ledger, bob(), gold()), Some(u64::MAX));
}

#[test]
fn a_snapshot_does_not_follow_the_ledger() {
    let mut ledger = ledger();
    let saved = ledger.snapshot();
    ledger.mint_to(&key(bob(), gold()), 2).unwrap();
    ledger.credit(&bob(), 1).unwrap();
    assert_eq!(tokens(&saved, bob(), gold()), Some(40));
    assert_eq!(saved.lamports(&bob()), 1_000);
    assert_eq!(saved.mint(&gold()), Some(Mint { decimals: 6 }));
    assert_eq!(saved.program_id(), program());
}

#[test]
fn transfer_tokens_moves_exactly_the_amount() {
    let mut ledger = ledger();
    let done = transfer_tokens(
        &mut ledger,
        &key(alice(), gold()),
        &key(bob(), gold()),
        &250,
        &gold(),
        &signer(alice()),
        None,
    );
    assert_eq!(done, Ok(()));
    assert_eq!(
        ledger.token_account(&key(alice(), gold())),
        Some(TokenAccount { amount: 750, lamports: RENT })
    );
    assert_eq!(
        ledger.token_account(&key(bob(), gold())),
        Some(TokenAccount { amount: 290, lamports: RENT })
    );
    assert_eq!(tokens(&ledger, bob(), silver()), Some(0));
}

#[test]
fn transfer_tokens_moves_nothing_and_everything() {
    let mut ledger = ledger();
    let from = key(alice(), gold());
    let to = key(bob(), gold());
    assert_eq!(transfer_tokens(&mut ledger, &from, &to, &0, &gold(), &signer(alice()), None), Ok(()));
    assert_eq!(tokens(&ledger, alice(), gold()), Some(1_000));
    assert_eq!(
        transfer_tokens(&mut ledger, &from, &to, &1_000, &gold(), &signer(alice()), None),
        Ok(())
    );
    assert_eq!(tokens(&ledger, alice(), gold()), Some(0));
    assert_eq!(tokens(&ledger, bob(), gold()), Some(1_040));
}

#[test]
fn transfer_tokens_to_the_same_account_changes_nothing() {
    let mut ledger = ledger();
    let account = key(alice(), gold());
    assert_eq!(
        transfer_tokens(&mut ledger, &account, &account, &600, &gold(), &signer(alice()), None),
        Ok(())
    );
    assert_eq!(tokens(&ledger, alice(), gold()), Some(1_000));
    assert_eq!(
        transfer_tokens(&mut ledger, &account, &account, &1_001, &gold(), &signer(alice()), None),
        Err(Error::Token(TokenError::InsufficientFunds))
    );
}

#[test]
fn transfer_tokens_names_what_is_wrong() {
    let mut ledger = ledger();
    let from = key(alice(), gold());
    let to = key(bob(), gold());
    let unsigned = AccountMeta { key: alice(), is_signer: false };
    let cases = [
        (key(alice(), silver()), to, silver(), signer(alice()), 1, TokenError::UninitializedAccount),
        (from, key(address(3), gold()), gold(), signer(alice()), 1, TokenError::UninitializedAccount),
        (from, to, address(12), signer(alice()), 1, TokenError::InvalidMint),
        (from, key(bob(), silver()), gold(), signer(alice()), 1, TokenError::MintMismatch),
        (from, to, silver(), signer(alice()), 1, TokenError::MintMismatch),
        (from, to, gold(), signer(bob()), 1, TokenError::OwnerMismatch),
        (from, to, gold(), unsigned, 1, TokenError::MissingRequiredSignature),
        (from, to, gold(), signer(alice()), 1_001, TokenError::InsufficientFunds),
    ];
    for (from, to, mint, authority, amount, error) in cases {
        assert_eq!(
            transfer_tokens(&mut ledger, &from, &to, &amount, &mint, &authority, None),
            Err(Error::Token(error))
        );
        assert_eq!(tokens(&ledger, alice(), gold()), Some(1_000));
        assert_eq!(tokens(&ledger, bob(), gold()), Some(40));
        assert_eq!(tokens(&ledger, bob(), silver()), Some(0));
    }
}

#[test]
fn transfer_tokens_does_not_overflow_a_balance() {
    let mut ledger = ledger();
    ledger.mint_to(&key(bob(), gold()), u64::MAX - 1_039).unwrap();
    let from = key(alice(), gold());
    let to = key(bob(), gold());
    assert_eq!(
        transfer_tokens(&mut ledger, &from, &to, &1_000, &gold(), &signer(alice()), None),
        Err(Error::Token(TokenError::Overflow))
    );
    assert_eq!(tokens(&ledger, alice(), gold()), Some(1_000));
    assert_eq!(
        transfer_tokens(&mut ledger, &from, &to, &999, &gold(), &signer(alice()), None),
        Ok(())
    );
    assert_eq!(tokens(&ledger, bob(), gold()), Some(u64::MAX));
    assert_eq!(tokens(&ledger, alice(), gold()), Some(1));
}

#[test]
fn transfer_tokens_takes_seeds_in_place_of_a_signature() {
    let mut ledger = ledger();
    let (custody, bump) = Offer::find_address(&program(), 7).unwrap();
    ledger.create_token_account(&alice(), &key(custody, gold())).unwrap();
    ledger.mint_to(&key(custody, gold()), 30).unwrap();
    let authority = AccountMeta { key: custody, is_signer: false };
    let from = key(custody, gold());
    let to = key(bob(), gold());

    assert_eq!(
        transfer_tokens(&mut ledger, &from, &to, &10, &gold(), &authority, None),
        Err(Error::Token(TokenError::MissingRequiredSignature))
    );
    let wrong = Offer::signer_seeds(8, bump);
    assert_eq!(
        transfer_tokens(&mut ledger, &from, &to, &10, &gold(), &authority, Some(&wrong)),
        Err(Error::Token(TokenError::MissingRequiredSignature))
    );
    let prefix = Offer::seeds(7);
    assert_eq!(
        transfer_tokens(&mut ledger, &from, &to, &10, &gold(), &authority, Some(&prefix)),
        Err(Error::Token(TokenError::MissingRequiredSignature))
    );
    assert_eq!(tokens(&ledger, custody, gold()), Some(30));

    let seeds = Offer::signer_seeds(7, bump);
    assert_eq!(
        transfer_tokens(&mut ledger, &from, &to, &10, &gold(), &authority, Some(&seeds)),
        Ok(())
    );
    assert_eq!(tokens(&ledger, custody, gold()), Some(20));
    assert_eq!(tokens(&ledger, bob(), gold()), Some(50));

    let from_alice = key(alice(), gold());
    assert_eq!(
        transfer_tokens(&mut ledger, &from_alice, &to, &10, &gold(), &signer(alice()), Some(&seeds)),
        Err(Error::Token(TokenError::MissingRequiredSignature))
    );
}

#[test]
fn close_token_account_hands_the_deposit_over() {
    let mut ledger = ledger();
    let done =
        close_token_account(&mut ledger, &key(bob(), silver()), &signer(bob()), &alice(), None);
    assert_eq!(done, Ok(()));
    assert_eq!(ledger.token_account(&key(bob(), silver())), None);
    assert_eq!(ledger.lamports(&alice()), 1_000 + RENT);
    assert_eq!(ledger.lamports(&bob()), 1_000);
    assert_eq!(tokens(&ledger, bob(), gold()), Some(40));
}

#[test]
fn close_token_account_names_what_is_wrong() {
    let mut ledger = ledger();
    let unsigned = AccountMeta { key: bob(), is_signer: false };
    let cases = [
        (key(alice(), silver()), signer(alice()), TokenError::UninitializedAccount),
        (key(bob(), gold()), signer(bob()), TokenError::NonNativeHasBalance),
        (key(bob(), silver()), signer(alice()), TokenError::OwnerMismatch),
        (key(bob(), silver()), unsigned, TokenError::MissingRequiredSignature),
    ];
    for (account, authority, error) in cases {
        assert_eq!(
            close_token_account(&mut ledger, &account, &authority, &alice(), None),
            Err(Error::Token(error))
        );
        assert_eq!(ledger.lamports(&alice()), 1_000);
        assert_eq!(tokens(&ledger, bob(), silver()), Some(0));
        assert_eq!(tokens(&ledger, bob(), gold()), Some(40));
    }
}

#[test]
fn close_token_account_does_not_overflow_a_native_balance() {
    let mut ledger = ledger();
    ledger.credit(&alice(), u64::MAX - 1_000 - RENT + 1).unwrap();
    assert_eq!(
        close_token_account(&mut ledger, &key(bob(), silver()), &signer(bob()), &alice(), None),
        Err(Error::Token(TokenError::Overflow))
    );
    assert_eq!(tokens(&ledger, bob(), silver()), Some(0));
    assert_eq!(ledger.lamports(&alice()), u64::MAX - RENT + 1);
}

#[test]
fn close_token_account_takes_seeds_in_place_of_a_signature() {
    let mut ledger = ledger();
    let (custody, bump) = Offer::find_address(&program(), 7).unwrap();
    ledger.create_token_account(&alice(), &key(custody, gold())).unwrap();
    let authority = AccountMeta { key: custody, is_signer: false };
    let seeds = Offer::signer_seeds(7, bump);
    assert_eq!(
        close_token_account(&mut ledger, &key(custody, gold()), &authority, &bob(), None),
        Err(Error::Token(TokenError::MissingRequiredSignature))
    );
    assert_eq!(
        close_token_account(&mut ledger, &key(custody, gold()), &authority, &bob(), Some(&seeds)),
        Ok(())
    );
    assert_eq!(ledger.token_account(&key(custody, gold())), None);
    assert_eq!(ledger.lamports(&bob()), 1_000 + RENT);
}

fn make_accounts(id: u64) -> MakeOffer {
    MakeOffer {
        maker: signer(alice()),
        token_mint_a: gold(),
        token_mint_b: silver(),
        offer: Offer::find_address(&program(), id).unwrap().0,
    }
}

#[test]
fn the_make_handler_refuses_broken_terms_on_any_ledger() {
    let mut ledger = Ledger::new(program(), Rent { offer: 0, token_account: 0 });
    let bumps = MakeOfferBumps { offer: 255 };
    assert_eq!(
        make_offer(&mut ledger, &make_accounts(7), &bumps, 7, 0, 5),
        Err(Error::Rule(ErrorCode::InvalidAmount))
    );
    assert_eq!(
        make_offer(&mut ledger, &make_accounts(7), &bumps, 7, 5, 0),
        Err(Error::Rule(ErrorCode::InvalidAmount))
    );
    let same = MakeOffer { token_mint_b: gold(), ..make_accounts(7) };
    assert_eq!(
        make_offer(&mut ledger, &same, &bumps, 7, 5, 5),
        Err(Error::Rule(ErrorCode::InvalidTokenMint))
    );
}

#[test]
fn the_make_handler_needs_the_record_that_was_created_for_it() {
    let mut ledger = ledger();
    let bumps = MakeOfferBumps { offer: 255 };
    assert_eq!(
        make_offer(&mut ledger, &make_accounts(7), &bumps, 7, 5, 5),
        Err(Error::Constraint(ConstraintError::AccountNotInitialized))
    );
    assert_eq!(tokens(&ledger, alice(), gold()), Some(1_000));
}

#[test]
fn the_make_handler_fills_the_record_and_the_vault() {
    let mut ledger = ledger();
    let accounts = make_accounts(7);
    let bumps = accounts.try_accounts(&mut ledger, 7).unwrap();
    assert_eq!(make_offer(&mut ledger, &accounts, &bumps, 7, 600, 5), Ok(()));
    assert_eq!(
        ledger.offer(&accounts.offer).unwrap().data,
        Offer {
            id: 7,
            maker: alice(),
            token_mint_a: gold(),
            token_mint_b: silver(),
            token_b_amount_wanted: 5,
            bump: bumps.offer,
        }
    );
    assert_eq!(tokens(&ledger, accounts.offer, gold()), Some(600));
    assert_eq!(tokens(&ledger, alice(), gold()), Some(400));
    assert_eq!(accounts.vault(), key(accounts.offer, gold()));
    assert_eq!(accounts.maker_token_account_a(), key(alice(), gold()));
}

#[test]
fn the_make_handler_leaves_the_blank_record_where_the_transfer_fails() {
    let mut ledger = ledger();
    let accounts = make_accounts(7);
    let bumps = accounts.try_accounts(&mut ledger, 7).unwrap();
    assert_eq!(
        make_offer(&mut ledger, &accounts, &bumps, 7, 1_001, 5),
        Err(Error::Token(TokenError::InsufficientFunds))
    );
    assert_eq!(ledger.offer(&accounts.offer).unwrap().data, Offer::blank());
    assert_eq!(tokens(&ledger, accounts.offer, gold()), Some(0));
    assert_eq!(tokens(&ledger, alice(), gold()), Some(1_000));
}

#[test]
fn the_take_handler_swaps_and_keeps_the_record() {
    let mut ledger = ledger();
    ledger.mint_to(&key(bob(), silver()), 9).unwrap();
    ledger.create_token_account(&alice(), &key(alice(), silver())).unwrap();
    let accounts = make_accounts(7);
    let bumps = accounts.try_accounts(&mut ledger, 7).unwrap();
    make_offer(&mut ledger, &accounts, &bumps, 7, 600, 5).unwrap();
    let take = TakeOffer {
        taker: signer(bob()),
        maker: alice(),
        token_mint_a: gold(),
        token_mint_b: silver(),
        offer: accounts.offer,
    };
    assert_eq!(take.vault(), key(accounts.offer, gold()));
    assert_eq!(take.taker_token_account_a(), key(bob(), gold()));
    assert_eq!(take.taker_token_account_b(), key(bob(), silver()));
    assert_eq!(take.maker_token_account_b(), key(alice(), silver()));
    assert_eq!(take.custody(), AccountMeta { key: accounts.offer, is_signer: false });
    let lamports = ledger.lamports(&alice());

    assert_eq!(take_offer(&mut ledger, &take), Ok(()));

    assert_eq!(tokens(&ledger, bob(), gold()), Some(640));
    assert_eq!(tokens(&ledger, bob(), silver()), Some(4));
    assert_eq!(tokens(&ledger, alice(), silver()), Some(5));
    assert_eq!(ledger.token_account(&take.vault()), None);
    assert_eq!(ledger.lamports(&alice()), lamports + RENT);
    assert!(ledger.offer(&accounts.offer).is_some());
}

#[test]
fn the_take_handler_undoes_its_first_steps_where_the_payment_fails() {
    let mut ledger = ledger();
    ledger.mint_to(&key(bob(), silver()), 4).unwrap();
    ledger.create_token_account(&alice(), &key(alice(), silver())).unwrap();
    let accounts = make_accounts(7);
    let bumps = accounts.try_accounts(&mut ledger, 7).unwrap();
    make_offer(&mut ledger, &accounts, &bumps, 7, 600, 5).unwrap();
    let take = TakeOffer {
        taker: signer(bob()),
        maker: alice(),
        token_mint_a: gold(),
        token_mint_b: silver(),
        offer: accounts.offer,
    };
    let lamports = ledger.lamports(&alice());
    assert_eq!(take_offer(&mut ledger, &take), Err(Error::Token(TokenError::InsufficientFunds)));
    assert_eq!(tokens(&ledger, bob(), gold()), Some(40));
    assert_eq!(tokens(&ledger, bob(), silver()), Some(4));
    assert_eq!(tokens(&ledger, alice(), silver()), Some(0));
    assert_eq!(tokens(&ledger, accounts.offer, gold()), Some(600));
    assert_eq!(ledger.lamports(&alice()), lamports);
}

#[test]
fn the_take_handler_needs_the_record_and_the_vault() {
    let mut ledger = ledger();
    let take = TakeOffer {
        taker: signer(bob()),
        maker: alice(),
        token_mint_a: gold(),
        token_mint_b: silver(),
        offer: Offer::find_address(&program(), 7).unwrap().0,
    };
    assert_eq!(
        take_offer(&mut ledger, &take),
        Err(Error::Constraint(ConstraintError::AccountNotInitialized))
    );
}

#[test]
fn the_refund_handler_returns_the_vault_and_keeps_the_record() {
    let mut ledger = ledger();
    let accounts = make_accounts(7);
    let bumps = accounts.try_accounts(&mut ledger, 7).unwrap();
    make_offer(&mut ledger, &accounts, &bumps, 7, 600, 5).unwrap();
    let refund = RefundOffer {
        maker: signer(alice()),
        token_mint_a: gold(),
        token_mint_b: silver(),
        offer: accounts.offer,
    };
    assert_eq!(refund.vault(), key(accounts.offer, gold()));
    assert_eq!(refund.maker_token_account_a(), key(alice(), gold()));
    assert_eq!(refund.custody(), AccountMeta { key: accounts.offer, is_signer: false });
    assert_eq!(refund.try_accounts(&mut ledger), Ok(()));
    let lamports = ledger.lamports(&alice());

    assert_eq!(refund_offer(&mut ledger, &refund), Ok(()));

    assert_eq!(tokens(&ledger, alice(), gold()), Some(1_000));
    assert_eq!(ledger.token_account(&refund.vault()), None);
    assert_eq!(ledger.lamports(&alice()), lamports + RENT);
    assert!(ledger.offer(&accounts.offer).is_some());
    assert_eq!(
        refund_offer(&mut ledger, &refund),
        Err(Error::Constraint(ConstraintError::AccountNotInitialized))
    );
}

#[test]
fn try_accounts_of_take_creates_the_accounts_that_receive() {
    let mut ledger = ledger();
    let accounts = make_accounts(7);
    let bumps = accounts.try_accounts(&mut ledger, 7).unwrap();
    make_offer(&mut ledger, &accounts, &bumps, 7, 600, 5).unwrap();
    let take = TakeOffer {
        taker: signer(bob()),
        maker: alice(),
        token_mint_a: gold(),
        token_mint_b: silver(),
        offer: accounts.offer,
    };
    assert_eq!(ledger.token_account(&key(alice(), silver())), None);
    assert_eq!(take.try_accounts(&mut ledger), Ok(()));
    assert_eq!(
        ledger.token_account(&key(alice(), silver())),
        Some(TokenAccount { amount: 0, lamports: RENT })
    );
    assert_eq!(tokens(&ledger, bob(), gold()), Some(40));
    assert_eq!(ledger.lamports(&bob()), 1_000 - RENT);
    assert_eq!(take.try_accounts(&mut ledger), Ok(()));
    assert_eq!(ledger.lamports(&bob()), 1_000 - RENT);
}

#[test]
fn a_table_keeps_one_value_per_key() {
    let mut table: Table<Address, u64> = Table::new();
    assert_eq!(table.get(&alice()), None);
    assert!(!table.contains_key(&alice()));
    table.insert(alice(), 1);
    table.insert(bob(), 2);
    table.insert(alice(), 3);
    assert_eq!(table.get(&alice()), Some(3));
    assert_eq!(table.get(&bob()), Some(2));
    assert!(table.contains_key(&bob()));
    table.remove(&alice());
    table.remove(&alice());
    assert_eq!(table.get(&alice()), None);
    assert_eq!(table.get(&bob()), Some(2));
    let copy = table.snapshot();
    table.remove(&bob());
    assert_eq!(copy.get(&bob()), Some(2));
    assert_eq!(table.get(&bob()), None);
}

#[test]
fn a_table_tells_token_accounts_apart_by_owner_and_mint() {
    let mut table: Table<HoldingKey, u64> = Table::new();
    table.insert(key(alice(), gold()), 1);
    table.insert(key(alice(), silver()), 2);
    table.insert(key(bob(), gold()), 3);
    assert_eq!(table.get(&key(alice(), gold())), Some(1));
    assert_eq!(table.get(&key(alice(), silver())), Some(2));
    assert_eq!(table.get(&key(bob(), gold())), Some(3));
    assert_eq!(table.get(&key(bob(), silver())), None);
}
