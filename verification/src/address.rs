//! Account addresses, the program's identity and the address derived from it.

use solana_program::pubkey::Pubkey;
use vstd::prelude::*;

verus! {

/// The bytes of this program's identity, `SandboxProgram11111111111111111111111111111`
/// in base 58.
pub open spec fn program_id_bytes() -> Seq<u8> {
    seq![
        6u8, 141u8, 185u8, 23u8, 179u8, 10u8, 97u8, 223u8,
        194u8, 90u8, 228u8, 119u8, 153u8, 123u8, 143u8, 21u8,
        199u8, 45u8, 32u8, 153u8, 128u8, 74u8, 226u8, 46u8,
        239u8, 66u8, 227u8, 215u8, 64u8, 0u8, 0u8, 0u8,
    ]
}

/// The bytes of the system program's identity: thirty-two zeros.
pub open spec fn system_program_bytes() -> Seq<u8> {
    Seq::new(32, |i: int| 0u8)
}

/// The seed from which the program's address is derived: the text `seed`.
pub open spec fn seed_bytes() -> Seq<u8> {
    seq![115u8, 101u8, 101u8, 100u8]
}

/// The program address that the runtime derives from `seed` and `program_id`,
/// together with the bump byte that completes the seed, or `None` where no bump
/// byte yields an address off the curve.
pub uninterp spec fn derived_address(seed: Seq<u8>, program_id: Seq<u8>) -> Option<(Seq<u8>, u8)>;

/// A 32-byte account address.
#[derive(Clone, Copy, Debug, PartialEq, Eq, Hash)]
pub struct Address {
    pub bytes: [u8; 32],
}

impl View for Address {
    type V = Seq<u8>;

    open spec fn view(&self) -> Seq<u8> {
        self.bytes@
    }
}

impl Address {
    /// Wraps 32 raw bytes as an address.
    pub fn new(bytes: [u8; 32]) -> (address: Address)
        ensures
            address.bytes == bytes,
            address@ == bytes@,
    {
        Address { bytes }
    }

    /// The raw bytes of the address.
    pub fn to_bytes(&self) -> (bytes: [u8; 32])
        ensures
            bytes == self.bytes,
            bytes@ == self@,
    {
        self.bytes
    }

    /// Whether two addresses hold the same 32 bytes.
    pub fn same_as(&self, other: &Address) -> (same: bool)
        ensures
            same == (self@ == other@),
            same == (*self == *other),
    {
        let mut i: usize = 0;
        while i < 32
            invariant
                i <= 32,
                forall|j: int| 0 <= j < i ==> self.bytes@[j] == other.bytes@[j],
            decreases 32 - i,
        {
            if self.bytes[i] != other.bytes[i] {
                return false;
            }
            i += 1;
        }
        assert(self.bytes@ =~= other.bytes@);
        assert(self.bytes == other.bytes);
        true
    }
}

/// A derivation's outcome with the address taken as its bytes.
pub open spec fn derivation_view(found: Option<(Address, u8)>) -> Option<(Seq<u8>, u8)> {
    match found {
        Some((address, bump)) => Some((address@, bump)),
        None => None,
    }
}

/// This program's identity.
pub fn id() -> (program: Address)
    ensures
        program@ == program_id_bytes(),
{
    let program = Address {
        bytes: [
            6, 141, 185, 23, 179, 10, 97, 223,
            194, 90, 228, 119, 153, 123, 143, 21,
            199, 45, 32, 153, 128, 74, 226, 46,
            239, 66, 227, 215, 64, 0, 0, 0,
        ],
    };
    assert(program@ =~= program_id_bytes());
    program
}

/// The seed of the program's address, as owned bytes.
pub fn seed() -> (seed: Vec<u8>)
    ensures
        seed@ == seed_bytes(),
{
    let mut seed: Vec<u8> = Vec::new();
    seed.push(115);
    seed.push(101);
    seed.push(101);
    seed.push(100);
    assert(seed@ =~= seed_bytes());
    seed
}

/// Calls `solana_program::system_program::id`. The contract claims that the
/// system program's identity is thirty-two zero bytes, which is what its
/// base-58 name of thirty-two ones decodes to.
#[verifier::external_body]
pub(crate) fn system_program_id() -> (program: Address)
    ensures
        program@ == system_program_bytes(),
{
    Address { bytes: solana_program::system_program::id().to_bytes() }
}

/// Calls `Pubkey::try_find_program_address` with the one seed given. The
/// contract claims only that the outcome is a function of the seed and the
/// program's identity; what that function computes is left to the runtime.
#[verifier::external_body]
pub(crate) fn find_program_address(seed: &[u8], program: &Address) -> (found: Option<(Address, u8)>)
    ensures
        derivation_view(found) == derived_address(seed@, program@),
{
    Pubkey::try_find_program_address(&[seed], &Pubkey::new_from_array(program.bytes))
        .map(|(key, bump)| (Address { bytes: key.to_bytes() }, bump))
}

/// The address that this program controls, and the bump byte that proves it.
///
/// It is derived afresh on every call from the seed `seed` and the program's
/// identity. `None` stands for the case that no bump byte yields an address.
pub fn program_derived_address() -> (derived: Option<(Address, u8)>)
    ensures
        derivation_view(derived) == derived_address(seed_bytes(), program_id_bytes()),
{
    let seed = seed();
    let program = id();
    find_program_address(seed.as_slice(), &program)
}

} // verus!
