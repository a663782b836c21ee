//! Thirty-two byte identifiers and program derived addresses.

use vstd::prelude::*;

verus! {

/// A 32-byte identifier of an account or of a program.
#[derive(Clone, Copy, Debug, PartialEq, Eq, Hash)]
pub struct Address {
    pub bytes: [u8; 32],
}

impl View for Address {
    type V = Seq<u8>;

    open spec fn view(&self) -> Seq<u8> {
        self.bytes@
    }
}

impl Address {
    /// Wraps 32 bytes as an address.
    pub fn new(bytes: [u8; 32]) -> (a: Address)
        ensures
            a.bytes == bytes,
            a@ == bytes@,
    {
        Address { bytes }
    }

    /// Byte-wise comparison of two addresses.
    pub fn same(&self, other: &Address) -> (b: bool)
        ensures
            b == (self@ == other@),
    {
        let mut i: usize = 0;
        while i < 32
            invariant
                i <= 32,
                forall|j: int| 0 <= j < i ==> self.bytes@[j] == other.bytes@[j],
            decreases 32 - i,
        {
            if self.bytes[i] != other.bytes[i] {
                return false;
            }
            i += 1;
        }
        assert(self@ =~= other@);
        true
    }
}

/// The program derived address that belongs to a program and a seed list:
/// the address found with the highest bump seed for which the derivation
/// leaves the ed25519 curve, or `None` when the seeds are not admissible or
/// no bump seed works.
pub uninterp spec fn derived_address(program_id: Seq<u8>, seeds: Seq<Seq<u8>>) -> Option<Seq<u8>>;

/// Calls `Pubkey::try_find_program_address` of `anchor_lang` on the seeds
/// and the program identity and drops the bump seed. The contract claims
/// that the answer is a function of the two arguments alone, named
/// [`derived_address`]; nothing is claimed about which address it is.
#[verifier::external_body]
pub(crate) fn find_derived_address(program_id: &Address, seeds: &Vec<Vec<u8>>) -> (r: Option<Address>)
    ensures
        match r {
            Some(a) => derived_address(program_id@, seeds.deep_view()) == Some(a@),
            None => derived_address(program_id@, seeds.deep_view()) is None,
        },
{
    let program = anchor_lang::prelude::Pubkey::new_from_array(program_id.bytes);
    let parts: Vec<&[u8]> = seeds.iter().map(|s| s.as_slice()).collect();
    anchor_lang::prelude::Pubkey::try_find_program_address(&parts, &program)
        .map(|(found, _bump)| Address { bytes: found.to_bytes() })
}

} // verus!
