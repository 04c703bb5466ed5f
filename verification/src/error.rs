//! Why an operation was rejected.

use vstd::prelude::*;

verus! {

/// A broken rule of the escrow itself.
#[derive(Clone, Copy, Debug, PartialEq, Eq, Structural)]
pub enum ErrorCode {
    /// An amount of zero was offered or asked for.
    InvalidAmount,
    /// The token asked for is the token offered.
    InvalidTokenMint,
}

impl ErrorCode {
    /// The text shown to the user.
    pub open spec fn spec_message(&self) -> Seq<char> {
        match self {
            ErrorCode::InvalidAmount => "Amount must be greater than zero"@,
            ErrorCode::InvalidTokenMint => "Invalid token mint - must be different from offered token"@,
        }
    }

    /// The text shown to the user.
    pub fn message(&self) -> (text: &'static str)
        ensures
            text@ == self.spec_message(),
    {
        match self {
            ErrorCode::InvalidAmount => "Amount must be greater than zero",
            ErrorCode::InvalidTokenMint => "Invalid token mint - must be different from offered token",
        }
    }
}

/// An account handed to an operation is not what the operation asks for.
#[derive(Clone, Copy, Debug, PartialEq, Eq, Structural)]
pub enum ConstraintError {
    /// A party that has to sign did not.
    AccountNotSigner,
    /// A mint, a token account or an offer that has to exist does not.
    AccountNotInitialized,
    /// The offer's address is not the one derived from its seeds.
    ConstraintSeeds,
    /// The maker or a mint differs from what the offer records.
    ConstraintHasOne,
}

/// The ledger cannot create or close an account.
#[derive(Clone, Copy, Debug, PartialEq, Eq, Structural)]
pub enum SystemError {
    /// There is an account already where one is to be created.
    AccountAlreadyInUse,
    /// The payer cannot afford the deposit of a new account.
    InsufficientLamports,
    /// A native balance would exceed `u64::MAX`.
    LamportsOverflow,
}

/// The token program refuses a transfer or a closure.
#[derive(Clone, Copy, Debug, PartialEq, Eq, Structural)]
pub enum TokenError {
    /// A token account named in the instruction does not exist.
    UninitializedAccount,
    /// The mint named in the instruction does not exist.
    InvalidMint,
    /// A token account holds another token than the mint named.
    MintMismatch,
    /// The precision given is not the precision of the mint.
    MintDecimalsMismatch,
    /// The authority is not the owner of the token account.
    OwnerMismatch,
    /// The authority has not signed, directly or by derivation.
    MissingRequiredSignature,
    /// The source holds less than the amount to move.
    InsufficientFunds,
    /// A balance would exceed `u64::MAX`.
    Overflow,
    /// The token account to close still holds tokens.
    NonNativeHasBalance,
}

/// The bytes of an account are not those of an offer record.
#[derive(Clone, Copy, Debug, PartialEq, Eq, Structural)]
pub enum AccountDataError {
    /// The bytes are too few to start with the record's tag.
    AccountDiscriminatorNotFound,
    /// The bytes start with another tag than the record's.
    AccountDiscriminatorMismatch,
    /// The bytes after the tag are too few for the record's fields.
    AccountDidNotDeserialize,
}

/// Every way in which an operation of the escrow fails.
#[derive(Clone, Copy, Debug, PartialEq, Eq, Structural)]
pub enum Error {
    Rule(ErrorCode),
    Constraint(ConstraintError),
    System(SystemError),
    Token(TokenError),
}

} // verus!
