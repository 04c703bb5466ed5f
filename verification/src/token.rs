//! The plain values that accounts hold.

use crate::address::Address;
use crate::table::Key;
use vstd::prelude::*;

verus! {

/// An account as an instruction names it: its address, and whether its
/// owner signed the instruction.
#[derive(Clone, Copy, Debug, PartialEq, Eq)]
pub struct AccountMeta {
    pub key: Address,
    pub is_signer: bool,
}

/// A kind of token.
#[derive(Clone, Copy, Debug, PartialEq, Eq)]
pub struct Mint {
    /// The number of decimal places of an amount.
    pub decimals: u8,
}

/// What identifies a token account: there is one per owner and mint.
#[derive(Clone, Copy, Debug, PartialEq, Eq)]
pub struct HoldingKey {
    pub owner: Address,
    pub mint: Address,
}

/// A token account: a balance of one token for one owner.
#[derive(Clone, Copy, Debug, PartialEq, Eq)]
pub struct TokenAccount {
    /// The tokens held.
    pub amount: u64,
    /// The native balance: the deposit paid when the account was created.
    pub lamports: u64,
}

/// The deposits that the ledger takes for new accounts.
#[derive(Clone, Copy, Debug, PartialEq, Eq)]
pub struct Rent {
    /// The deposit of an offer record.
    pub offer: u64,
    /// The deposit of a token account.
    pub token_account: u64,
}

impl Key for Address {
    fn same(&self, other: &Address) -> (same: bool) {
        *self == *other
    }
}

impl Key for HoldingKey {
    fn same(&self, other: &HoldingKey) -> (same: bool) {
        self.owner == other.owner && self.mint == other.mint
    }
}

} // verus!
