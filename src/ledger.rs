//! What the library takes from the ledger's own crates: well-known program
//! addresses and program-address derivation.
use crate::address::Address;
use vstd::prelude::*;

verus! {

/// The program address and bump seed that the ledger derives from `seeds`
/// under `program_id`, or `None` where no bump seed gives one.
pub uninterp spec fn program_address(seeds: Seq<Seq<u8>>, program_id: Seq<u8>) -> Option<
    (Seq<u8>, u8),
>;

/// The byte strings held by a list of seeds.
pub open spec fn seeds_view(seeds: Seq<Vec<u8>>) -> Seq<Seq<u8>> {
    seeds.map_values(|s: Vec<u8>| s@)
}

/// A derived address and bump seed, as byte strings.
pub open spec fn derived_view(d: Option<(Address, u8)>) -> Option<(Seq<u8>, u8)> {
    match d {
        Some((a, bump)) => Some((a@, bump)),
        None => None,
    }
}

/// Relies on `solana_program::pubkey::Pubkey::try_find_program_address`: it
/// searches the bump seeds from 255 down and returns the first off-curve
/// address, or `None`; the result depends on the seeds and the program id
/// alone, and the search never panics.
#[verifier::external_body]
pub(crate) fn find_program_address(seeds: &Vec<Vec<u8>>, program_id: &Address) -> (r: Option<
    (Address, u8),
>)
    ensures
        derived_view(r) == program_address(seeds_view(seeds@), program_id@),
{
    let refs: Vec<&[u8]> = seeds.iter().map(|s| s.as_slice()).collect();
    let program = solana_program::pubkey::Pubkey::new_from_array(program_id.bytes);
    solana_program::pubkey::Pubkey::try_find_program_address(&refs, &program).map(
        |(key, bump)| (Address { bytes: key.to_bytes() }, bump),
    )
}

/// The token program's address, TokenkegQfeZyiNwAJbNbGKPFXCWuBvf9Ss623VQ5DA.
pub open spec fn token_program_bytes() -> Seq<u8> {
    seq![
        6u8, 221, 246, 225, 215, 101, 161, 147, 217, 203, 225, 70, 206, 235, 121, 172, 28, 180,
        133, 237, 95, 91, 55, 145, 58, 140, 245, 133, 126, 255, 0, 169,
    ]
}

/// The associated token account program's address,
/// ATokenGPvbdGVxr1b2hvZbsiqW5xWH25efTNsLJA8knL.
pub open spec fn associated_token_program_bytes() -> Seq<u8> {
    seq![
        140u8, 151, 37, 143, 78, 36, 137, 241, 187, 61, 16, 41, 20, 142, 13, 131, 11, 90, 19, 153,
        218, 255, 16, 132, 4, 142, 123, 216, 219, 233, 248, 89,
    ]
}

/// The system program's address, 11111111111111111111111111111111.
pub open spec fn system_program_bytes() -> Seq<u8> {
    Seq::new(32, |_i: int| 0u8)
}

/// The rent sysvar's address, SysvarRent111111111111111111111111111111111.
pub open spec fn rent_sysvar_bytes() -> Seq<u8> {
    seq![
        6u8, 167, 213, 23, 25, 44, 92, 81, 33, 140, 201, 76, 61, 74, 241, 127, 88, 218, 238, 8,
        155, 161, 253, 68, 227, 219, 217, 138, 0, 0, 0, 0,
    ]
}

/// Relies on `spl_token::id`, the address that the token program declares.
#[verifier::external_body]
pub(crate) fn token_program_id() -> (r: Address)
    ensures
        r@ == token_program_bytes(),
{
    Address { bytes: spl_token::id().to_bytes() }
}

/// Relies on `spl_associated_token_account::id`, the address that the
/// associated token account program declares.
#[verifier::external_body]
pub(crate) fn associated_token_program_id() -> (r: Address)
    ensures
        r@ == associated_token_program_bytes(),
{
    Address { bytes: spl_associated_token_account::id().to_bytes() }
}

/// Relies on `solana_program::system_program::id`, the system program's
/// declared address.
#[verifier::external_body]
pub(crate) fn system_program_id() -> (r: Address)
    ensures
        r@ == system_program_bytes(),
{
    Address { bytes: solana_program::system_program::id().to_bytes() }
}

/// Relies on `solana_program::sysvar::rent::id`, the rent sysvar's declared
/// address.
#[verifier::external_body]
pub(crate) fn rent_sysvar_id() -> (r: Address)
    ensures
        r@ == rent_sysvar_bytes(),
{
    Address { bytes: solana_program::sysvar::rent::id().to_bytes() }
}

} // verus!
