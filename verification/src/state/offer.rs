//! The record of an open offer.

use crate::address::{
    lemma_address_view_injective, program_address, program_address_search,
    try_find_program_address, Address,
};
use crate::error::AccountDataError;
use vstd::array::array_fill_for_copy_types;
use vstd::bytes::{
    lemma_auto_spec_u64_to_from_le_bytes, spec_u64_from_le_bytes, spec_u64_to_le_bytes,
    u64_from_le_bytes, u64_to_le_bytes,
};
use vstd::prelude::*;
use vstd::slice::slice_subrange;

verus! {

/// The terms of an offer. The amount offered is not among them: it is the
/// balance of the offer's vault.
#[derive(Clone, Copy, Debug, PartialEq, Eq)]
pub struct Offer {
    /// The identifier that the maker chose.
    pub id: u64,
    /// Who made the offer, and receives the payment or the refund.
    pub maker: Address,
    /// The token offered.
    pub token_mint_a: Address,
    /// The token wanted.
    pub token_mint_b: Address,
    /// How much of the wanted token releases the vault.
    pub token_b_amount_wanted: u64,
    /// The bump seed of the offer's address.
    pub bump: u8,
}

/// An offer record as the ledger stores it.
#[derive(Clone, Copy, Debug, PartialEq, Eq)]
pub struct OfferAccount {
    pub data: Offer,
    /// The native balance: the deposit paid when the record was created.
    pub lamports: u64,
}

/// The number of bytes of the tag that starts an offer record.
pub const DISCRIMINATOR_LEN: usize = 8;

/// The number of bytes of an offer record's fields.
pub const INIT_SPACE: usize = 113;

/// The number of bytes of an offer record.
pub const SPACE: usize = DISCRIMINATOR_LEN + INIT_SPACE;

/// The tag that starts the bytes of every offer record: the first eight
/// bytes of the SHA-256 hash of `account:Offer`.
pub open spec fn discriminator() -> Seq<u8> {
    seq![215, 88, 60, 71, 170, 162, 73, 229]
}

/// Why `bytes` are not an offer record; `None` where they are one. Bytes
/// after the record do not matter.
pub open spec fn layout_failure(bytes: Seq<u8>) -> Option<AccountDataError> {
    if bytes.len() < DISCRIMINATOR_LEN {
        Some(AccountDataError::AccountDiscriminatorNotFound)
    } else if bytes.subrange(0, DISCRIMINATOR_LEN as int) != discriminator() {
        Some(AccountDataError::AccountDiscriminatorMismatch)
    } else if bytes.len() < SPACE {
        Some(AccountDataError::AccountDidNotDeserialize)
    } else {
        None
    }
}

/// The tag that starts the seeds of every offer: the bytes of `offer`.
pub open spec fn offer_tag() -> Seq<u8> {
    seq![0x6f, 0x66, 0x66, 0x65, 0x72]
}

/// The seeds from which the address of offer `id` is searched.
pub open spec fn offer_seeds(id: u64) -> Seq<Seq<u8>> {
    seq![offer_tag(), spec_u64_to_le_bytes(id)]
}

/// The seeds that derive the address of offer `id` with bump seed `bump`,
/// and by which the program signs for that address.
pub open spec fn signer_seeds(id: u64, bump: u8) -> Seq<Seq<u8>> {
    offer_seeds(id).push(seq![bump])
}

fn extend(bytes: &mut Vec<u8>, part: &Vec<u8>)
    ensures
        final(bytes)@ == old(bytes)@ + part@,
{
    let mut i: usize = 0;
    while i < part.len()
        invariant
            i <= part@.len(),
            bytes@ == old(bytes)@ + part@.subrange(0, i as int),
        decreases part@.len() - i,
    {
        bytes.push(part[i]);
        i += 1;
        proof {
            assert(bytes@ =~= old(bytes)@ + part@.subrange(0, i as int));
        }
    }
    proof {
        assert(part@.subrange(0, i as int) =~= part@);
    }
}

fn extend_with_address(bytes: &mut Vec<u8>, address: &Address)
    ensures
        final(bytes)@ == old(bytes)@ + address@,
{
    let mut i: usize = 0;
    while i < 32
        invariant
            i <= 32,
            bytes@ == old(bytes)@ + address@.subrange(0, i as int),
        decreases 32 - i,
    {
        bytes.push(address.bytes[i]);
        i += 1;
        proof {
            assert(bytes@ =~= old(bytes)@ + address@.subrange(0, i as int));
        }
    }
    proof {
        assert(address@.subrange(0, 32) =~= address@);
    }
}

fn read_address(bytes: &[u8], start: usize) -> (address: Address)
    requires
        start + 32 <= bytes@.len(),
    ensures
        address@ == bytes@.subrange(start as int, start + 32),
{
    let mut raw: [u8; 32] = array_fill_for_copy_types(0u8);
    let len: usize = bytes.len();
    let mut i: usize = 0;
    while i < 32
        invariant
            i <= 32,
            start + 32 <= bytes@.len(),
            bytes@.len() == len,
            forall|j: int| 0 <= j < i ==> raw@[j] == bytes@[start + j],
        decreases 32 - i,
    {
        raw[i] = bytes[start + i];
        i += 1;
    }
    let address = Address { bytes: raw };
    proof {
        assert(address@ =~= bytes@.subrange(start as int, start + 32));
    }
    address
}

impl Offer {
    /// The bytes of the record: the tag, then the fields in their order, the
    /// integers in little-endian.
    pub open spec fn spec_to_bytes(self) -> Seq<u8> {
        discriminator() + spec_u64_to_le_bytes(self.id) + self.maker@ + self.token_mint_a@
            + self.token_mint_b@ + spec_u64_to_le_bytes(self.token_b_amount_wanted)
            + seq![self.bump]
    }

    /// The bytes of the record.
    pub fn to_bytes(&self) -> (bytes: Vec<u8>)
        ensures
            bytes@ == self.spec_to_bytes(),
            bytes@.len() == SPACE,
    {
        let mut bytes: Vec<u8> = Vec::new();
        bytes.push(215);
        bytes.push(88);
        bytes.push(60);
        bytes.push(71);
        bytes.push(170);
        bytes.push(162);
        bytes.push(73);
        bytes.push(229);
        proof {
            assert(bytes@ =~= discriminator());
        }
        extend(&mut bytes, &u64_to_le_bytes(self.id));
        extend_with_address(&mut bytes, &self.maker);
        extend_with_address(&mut bytes, &self.token_mint_a);
        extend_with_address(&mut bytes, &self.token_mint_b);
        extend(&mut bytes, &u64_to_le_bytes(self.token_b_amount_wanted));
        bytes.push(self.bump);
        bytes
    }

    /// Reads a record from the bytes of an account. The record read is the
    /// one whose bytes the account starts with.
    pub fn try_from_bytes(bytes: &[u8]) -> (decoded: Result<Offer, AccountDataError>)
        ensures
            match decoded {
                Ok(offer) => layout_failure(bytes@) is None
                    && offer.spec_to_bytes() == bytes@.subrange(0, SPACE as int),
                Err(error) => layout_failure(bytes@) == Some(error),
            },
    {
        if bytes.len() < DISCRIMINATOR_LEN {
            return Err(AccountDataError::AccountDiscriminatorNotFound);
        }
        if bytes[0] != 215 || bytes[1] != 88 || bytes[2] != 60 || bytes[3] != 71 || bytes[4] != 170
            || bytes[5] != 162 || bytes[6] != 73 || bytes[7] != 229 {
            proof {
                let tag = bytes@.subrange(0, DISCRIMINATOR_LEN as int);
                assert(forall|i: int| 0 <= i < 8 ==> tag[i] == bytes@[i]);
            }
            return Err(AccountDataError::AccountDiscriminatorMismatch);
        }
        proof {
            assert(bytes@.subrange(0, DISCRIMINATOR_LEN as int) =~= discriminator());
        }
        if bytes.len() < SPACE {
            return Err(AccountDataError::AccountDidNotDeserialize);
        }
        let offer = Offer {
            id: u64_from_le_bytes(slice_subrange(bytes, 8, 16)),
            maker: read_address(bytes, 16),
            token_mint_a: read_address(bytes, 48),
            token_mint_b: read_address(bytes, 80),
            token_b_amount_wanted: u64_from_le_bytes(slice_subrange(bytes, 112, 120)),
            bump: bytes[120],
        };
        proof {
            lemma_auto_spec_u64_to_from_le_bytes();
            assert(spec_u64_to_le_bytes(offer.id) == bytes@.subrange(8, 16));
            assert(spec_u64_to_le_bytes(offer.token_b_amount_wanted) == bytes@.subrange(112, 120));
            assert(offer.spec_to_bytes() =~= bytes@.subrange(0, SPACE as int));
        }
        Ok(offer)
    }

    /// A record that has not been filled in.
    pub fn blank() -> (offer: Offer)
        ensures
            offer == Offer::spec_blank(),
    {
        let zero = Address::zero();
        Offer {
            id: 0,
            maker: zero,
            token_mint_a: zero,
            token_mint_b: zero,
            token_b_amount_wanted: 0,
            bump: 0,
        }
    }

    /// A record that has not been filled in.
    pub open spec fn spec_blank() -> Offer {
        let zero = Address::spec_zero();
        Offer {
            id: 0,
            maker: zero,
            token_mint_a: zero,
            token_mint_b: zero,
            token_b_amount_wanted: 0,
            bump: 0,
        }
    }

    /// The seeds from which the address of offer `id` is searched.
    pub fn seeds(id: u64) -> (seeds: Vec<Vec<u8>>)
        ensures
            seeds.deep_view() == offer_seeds(id),
    {
        let mut tag: Vec<u8> = Vec::new();
        tag.push(0x6f);
        tag.push(0x66);
        tag.push(0x66);
        tag.push(0x65);
        tag.push(0x72);
        let mut seeds: Vec<Vec<u8>> = Vec::new();
        seeds.push(tag);
        seeds.push(u64_to_le_bytes(id));
        proof {
            assert(seeds.deep_view() =~~= offer_seeds(id));
        }
        seeds
    }

    /// Searches the address of offer `id` under the program `program_id`,
    /// and the bump seed that goes with it. The address found is the one
    /// that the identifier and the bump seed derive.
    pub fn find_address(program_id: &Address, id: u64) -> (found: Option<(Address, u8)>)
        ensures
            program_address_search(offer_seeds(id), program_id@) == match found {
                Some((address, bump)) => Some((address@, bump)),
                None => None,
            },
            found matches Some((address, bump)) ==> program_address(
                signer_seeds(id, bump),
                program_id@,
            ) == Some(address@),
    {
        try_find_program_address(&Offer::seeds(id), program_id)
    }

    /// The seeds by which the program signs for the address of offer `id`.
    pub fn signer_seeds(id: u64, bump: u8) -> (seeds: Vec<Vec<u8>>)
        ensures
            seeds.deep_view() == signer_seeds(id, bump),
    {
        let mut seeds = Offer::seeds(id);
        let mut last: Vec<u8> = Vec::new();
        last.push(bump);
        let ghost before = seeds.deep_view();
        seeds.push(last);
        proof {
            assert(seeds.deep_view() =~~= before.push(seq![bump]));
        }
        seeds
    }
}

/// Two records with the same bytes are the same record.
pub proof fn lemma_layout_injective(first: Offer, second: Offer)
    requires
        first.spec_to_bytes() == second.spec_to_bytes(),
    ensures
        first == second,
{
    lemma_auto_spec_u64_to_from_le_bytes();
    let one = first.spec_to_bytes();
    let two = second.spec_to_bytes();
    assert(one.subrange(8, 16) =~= spec_u64_to_le_bytes(first.id));
    assert(two.subrange(8, 16) =~= spec_u64_to_le_bytes(second.id));
    assert(one.subrange(16, 48) =~= first.maker@);
    assert(two.subrange(16, 48) =~= second.maker@);
    assert(one.subrange(48, 80) =~= first.token_mint_a@);
    assert(two.subrange(48, 80) =~= second.token_mint_a@);
    assert(one.subrange(80, 112) =~= first.token_mint_b@);
    assert(two.subrange(80, 112) =~= second.token_mint_b@);
    assert(one.subrange(112, 120) =~= spec_u64_to_le_bytes(first.token_b_amount_wanted));
    assert(two.subrange(112, 120) =~= spec_u64_to_le_bytes(second.token_b_amount_wanted));
    assert(one[120] == first.bump);
    assert(two[120] == second.bump);
    lemma_address_view_injective(first.maker, second.maker);
    lemma_address_view_injective(first.token_mint_a, second.token_mint_a);
    lemma_address_view_injective(first.token_mint_b, second.token_mint_b);
    assert(first.id == spec_u64_from_le_bytes(spec_u64_to_le_bytes(first.id)));
    assert(second.id == spec_u64_from_le_bytes(spec_u64_to_le_bytes(second.id)));
    assert(first.token_b_amount_wanted == spec_u64_from_le_bytes(
        spec_u64_to_le_bytes(first.token_b_amount_wanted),
    ));
    assert(second.token_b_amount_wanted == spec_u64_from_le_bytes(
        spec_u64_to_le_bytes(second.token_b_amount_wanted),
    ));
}

/// What is written is read back: bytes that start with the bytes of a
/// record are an offer record, and no other record is read from them.
pub proof fn lemma_layout_round_trip(offer: Offer, bytes: Seq<u8>, decoded: Offer)
    requires
        bytes.len() >= SPACE,
        bytes.subrange(0, SPACE as int) == offer.spec_to_bytes(),
        decoded.spec_to_bytes() == bytes.subrange(0, SPACE as int),
    ensures
        layout_failure(bytes) is None,
        decoded == offer,
{
    lemma_auto_spec_u64_to_from_le_bytes();
    assert(bytes.subrange(0, DISCRIMINATOR_LEN as int) =~= offer.spec_to_bytes().subrange(
        0,
        DISCRIMINATOR_LEN as int,
    ));
    assert(offer.spec_to_bytes().subrange(0, DISCRIMINATOR_LEN as int) =~= discriminator());
    lemma_layout_injective(decoded, offer);
}

} // verus!
