//! Account addresses and the addresses a program derives from seeds.

use anchor_lang::prelude::Pubkey;
use anchor_lang::solana_program::pubkey::PubkeyError;
use vstd::array::{array_fill_for_copy_types, spec_array_fill_for_copy_type};
use vstd::prelude::*;
use vstd::std_specs::cmp::PartialEqSpecImpl;

verus! {

/// The address of an account: 32 bytes.
#[derive(Clone, Copy, Debug)]
pub struct Address {
    pub bytes: [u8; 32],
}

impl View for Address {
    type V = Seq<u8>;

    open spec fn view(&self) -> Seq<u8> {
        self.bytes@
    }
}

impl Address {
    /// The address whose bytes are all zero.
    pub open spec fn spec_zero() -> Address {
        Address { bytes: spec_array_fill_for_copy_type::<u8, 32>(0u8) }
    }

    /// The address whose bytes are all zero.
    pub fn zero() -> (address: Address)
        ensures
            address == Address::spec_zero(),
    {
        Address { bytes: array_fill_for_copy_types(0u8) }
    }
}

impl PartialEq for Address {
    fn eq(&self, other: &Address) -> (same: bool) {
        let mut i: usize = 0;
        while i < 32
            invariant
                i <= 32,
                forall|j: int| 0 <= j < i ==> self.bytes[j] == other.bytes[j],
            decreases 32 - i,
        {
            if self.bytes[i] != other.bytes[i] {
                return false;
            }
            i += 1;
        }
        proof {
            assert(self.bytes =~= other.bytes);
        }
        true
    }
}

impl PartialEqSpecImpl for Address {
    open spec fn obeys_eq_spec() -> bool {
        true
    }

    open spec fn eq_spec(&self, other: &Address) -> bool {
        *self == *other
    }
}

impl Eq for Address {

}

/// Two addresses with the same bytes are the same address.
pub proof fn lemma_address_view_injective(a: Address, b: Address)
    ensures
        a@ == b@ <==> a == b,
{
    if a@ == b@ {
        assert(forall|i: int| 0 <= i < 32 ==> a.bytes[i] == a@[i]);
        assert(forall|i: int| 0 <= i < 32 ==> b.bytes[i] == b@[i]);
        assert(a.bytes =~= b.bytes);
    }
}

/// The address that `Pubkey::create_program_address` derives for a program
/// from a list of seeds, or `None` where it derives none.
pub uninterp spec fn program_address(seeds: Seq<Seq<u8>>, program_id: Seq<u8>) -> Option<Seq<u8>>;

/// The address and bump seed that `Pubkey::try_find_program_address` finds
/// for a program and a list of seeds, or `None` where it finds none.
pub uninterp spec fn program_address_search(seeds: Seq<Seq<u8>>, program_id: Seq<u8>) -> Option<(Seq<u8>, u8)>;

/// The error of `Pubkey::create_program_address`.
#[verifier::external_type_specification]
#[verifier::external_body]
pub struct ExPubkeyError(PubkeyError);

/// Calls `Pubkey::create_program_address`. The contract names what it
/// returns: the derived address, or no address where the call reports an
/// error.
#[verifier::external_body]
pub(crate) fn create_program_address(
    seeds: &Vec<Vec<u8>>,
    program_id: &Address,
) -> (derived: Result<Address, PubkeyError>)
    ensures
        program_address(seeds.deep_view(), program_id@) == match derived {
            Ok(address) => Some(address@),
            Err(_) => None,
        },
{
    let parts: Vec<&[u8]> = seeds.iter().map(|seed| seed.as_slice()).collect();
    match Pubkey::create_program_address(&parts, &Pubkey::new_from_array(program_id.bytes)) {
        Ok(key) => Ok(Address { bytes: key.to_bytes() }),
        Err(error) => Err(error),
    }
}

/// Calls `Pubkey::try_find_program_address`. The contract names what it
/// returns, and states what the search stops at: an address that
/// `Pubkey::create_program_address` derives from the same seeds followed by
/// the one-byte bump seed.
#[verifier::external_body]
pub(crate) fn try_find_program_address(
    seeds: &Vec<Vec<u8>>,
    program_id: &Address,
) -> (found: Option<(Address, u8)>)
    ensures
        program_address_search(seeds.deep_view(), program_id@) == match found {
            Some((address, bump)) => Some((address@, bump)),
            None => None,
        },
        found matches Some((address, bump))
            ==> program_address(seeds.deep_view().push(seq![bump]), program_id@)
            == Some(address@),
{
    let parts: Vec<&[u8]> = seeds.iter().map(|seed| seed.as_slice()).collect();
    match Pubkey::try_find_program_address(&parts, &Pubkey::new_from_array(program_id.bytes)) {
        Some((key, bump)) => Some((Address { bytes: key.to_bytes() }, bump)),
        None => None,
    }
}

} // verus!
