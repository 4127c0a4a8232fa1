//! Derived addresses: where a publisher's record lives and where a
//! subscriber's token balance for a token type lives.
//!
//! Both are program-derived addresses. The search for one is the work of
//! `anchor_lang`; this module fixes the seeds and names the result.

use crate::address::Address;
use anchor_lang::prelude::Pubkey;
use vstd::prelude::*;

verus! {

/// The seed that marks a publisher record.
pub const PUBLISHER_SEED: [u8; 9] = [112, 117, 98, 108, 105, 115, 104, 101, 114];

/// The address of the token program that keeps the seat balances.
pub const TOKEN_PROGRAM: [u8; 32] = [
    6, 221, 246, 225, 215, 101, 161, 147, 217, 203, 225, 70, 206, 235, 121, 172,
    28, 180, 133, 237, 95, 91, 55, 145, 58, 140, 245, 133, 126, 255, 0, 169,
];

/// The address of the program under which token balance accounts are derived.
pub const ASSOCIATED_TOKEN_PROGRAM: [u8; 32] = [
    140, 151, 37, 143, 78, 36, 137, 241, 187, 61, 16, 41, 20, 142, 13, 131,
    11, 90, 19, 153, 218, 255, 16, 132, 4, 142, 123, 216, 219, 233, 248, 89,
];

/// What `Pubkey::try_find_program_address` of `anchor_lang` returns for the
/// given seeds and program: the bytes of the derived address with its bump
/// seed, or `None` where the search finds no address.
pub uninterp spec fn program_address(seeds: Seq<Seq<u8>>, program_id: Seq<u8>) -> Option<(Seq<u8>, u8)>;

/// Calls `Pubkey::try_find_program_address` of `anchor_lang`, which hashes
/// the seeds, a bump seed and the program's address, and tries the bump seeds
/// from the largest down until the hash is no point of the curve.
///
/// Not verified: the result is taken to be `program_address` of the seeds and
/// of the program's bytes. That claims one thing of the search: the same
/// seeds and program give the same answer every time.
#[verifier::external_body]
pub(crate) fn try_find_program_address(seeds: &Vec<Vec<u8>>, program_id: &Address) -> (found: Option<(Address, u8)>)
    ensures
        found matches Some((address, bump)) ==> program_address(seeds.deep_view(), program_id@)
            == Some((address@, bump)),
        found is None ==> program_address(seeds.deep_view(), program_id@) is None,
{
    let slices: Vec<&[u8]> = seeds.iter().map(|seed| seed.as_slice()).collect();
    let program = Pubkey::new_from_array(program_id.bytes);
    match Pubkey::try_find_program_address(&slices, &program) {
        Some((address, bump)) => Some((Address { bytes: address.to_bytes() }, bump)),
        None => None,
    }
}

/// The seeds of a publisher's record: the marker, then the publisher's address.
pub open spec fn publisher_seeds(authority: Address) -> Seq<Seq<u8>> {
    seq![PUBLISHER_SEED@, authority@]
}

/// The seeds of a token balance account: owner, token program, token type.
pub open spec fn token_account_seeds(owner: Address, mint: Address) -> Seq<Seq<u8>> {
    seq![owner@, TOKEN_PROGRAM@, mint@]
}

/// The bytes of the address at which `program_id` keeps the record of the
/// publisher `authority`, if the derivation finds one.
pub open spec fn publisher_slot(program_id: Address, authority: Address) -> Option<Seq<u8>> {
    match program_address(publisher_seeds(authority), program_id@) {
        Some((slot, _)) => Some(slot),
        None => None,
    }
}

/// The bytes of the address of the balance account that `owner` has for the
/// token type `mint`, if the derivation finds one.
pub open spec fn token_account_slot(owner: Address, mint: Address) -> Option<Seq<u8>> {
    match program_address(token_account_seeds(owner, mint), ASSOCIATED_TOKEN_PROGRAM@) {
        Some((slot, _)) => Some(slot),
        None => None,
    }
}

fn copy_bytes(bytes: &[u8]) -> (copy: Vec<u8>)
    ensures
        copy@ == bytes@,
        copy.deep_view() == bytes@,
{
    let mut copy: Vec<u8> = Vec::new();
    let mut i: usize = 0;
    while i < bytes.len()
        invariant
            i <= bytes.len(),
            copy@ == bytes@.subrange(0, i as int),
        decreases bytes.len() - i,
    {
        copy.push(bytes[i]);
        i += 1;
    }
    assert(copy.deep_view() =~= copy@);
    copy
}

/// The address at which `program_id` keeps the record of the publisher
/// `authority`, with the bump seed that lets the program sign for it.
pub fn find_publisher_address(program_id: &Address, authority: &Address) -> (found: Option<
    (Address, u8),
>)
    ensures
        found matches Some((address, bump)) ==> program_address(
            publisher_seeds(*authority),
            program_id@,
        ) == Some((address@, bump)),
        found is None ==> program_address(publisher_seeds(*authority), program_id@) is None,
{
    let mut seeds: Vec<Vec<u8>> = Vec::new();
    seeds.push(copy_bytes(PUBLISHER_SEED.as_slice()));
    seeds.push(copy_bytes(authority.bytes.as_slice()));
    assert(seeds.deep_view() =~= publisher_seeds(*authority));
    try_find_program_address(&seeds, program_id)
}

/// The address at which `program_id` keeps the record of the publisher
/// `authority`.
pub fn publisher_address(program_id: &Address, authority: &Address) -> (slot: Option<Address>)
    ensures
        slot matches Some(address) ==> publisher_slot(*program_id, *authority) == Some(address@),
        slot is None ==> publisher_slot(*program_id, *authority) is None,
{
    match find_publisher_address(program_id, authority) {
        Some((address, _)) => Some(address),
        None => None,
    }
}

/// The address of the balance account that `owner` has for the token type
/// `mint`.
pub fn associated_token_address(owner: &Address, mint: &Address) -> (slot: Option<Address>)
    ensures
        slot matches Some(address) ==> token_account_slot(*owner, *mint) == Some(address@),
        slot is None ==> token_account_slot(*owner, *mint) is None,
{
    let mut seeds: Vec<Vec<u8>> = Vec::new();
    seeds.push(copy_bytes(owner.bytes.as_slice()));
    seeds.push(copy_bytes(TOKEN_PROGRAM.as_slice()));
    seeds.push(copy_bytes(mint.bytes.as_slice()));
    assert(seeds.deep_view() =~= token_account_seeds(*owner, *mint));
    let program = Address::new(ASSOCIATED_TOKEN_PROGRAM);
    match try_find_program_address(&seeds, &program) {
        Some((address, _)) => Some(address),
        None => None,
    }
}

} // verus!
