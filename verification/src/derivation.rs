//! Program-derived addresses: addresses without a private key, computed from
//! a program's address and a list of seeds, and the escrow's own seeds.

use crate::address::Address;
use crate::table::Key;
use vstd::bytes::{spec_u64_to_le_bytes, u64_to_le_bytes};
use vstd::prelude::*;

verus! {

/// The address that `seeds` derive under `program`, or `None` where they
/// derive none. It stands for the result of
/// `Pubkey::create_program_address`, which hashes the seeds with the program's
/// address and rejects a hash that is a point of the curve.
pub uninterp spec fn derived_address(seeds: Seq<Seq<u8>>, program: Seq<u8>) -> Option<Seq<u8>>;

/// Tries the bump seeds from `bump` down to 1 and gives the first address
/// that derives, with its bump seed.
pub open spec fn search_from(seeds: Seq<Seq<u8>>, program: Seq<u8>, bump: u8) -> Option<
    (Seq<u8>, u8),
>
    decreases bump,
{
    if bump == 0 {
        None
    } else {
        match derived_address(seeds.push(seq![bump]), program) {
            Some(address) => Some((address, bump)),
            None => search_from(seeds, program, (bump - 1) as u8),
        }
    }
}

/// The canonical address of `seeds` under `program`: the one derived with the
/// highest bump seed, from 255 down to 1, that derives any.
pub open spec fn found_address(seeds: Seq<Seq<u8>>, program: Seq<u8>) -> Option<(Seq<u8>, u8)> {
    search_from(seeds, program, 255)
}

/// The fixed namespace tag of escrow records: the ASCII bytes of `state`.
pub open spec fn namespace_tag_spec() -> Seq<u8> {
    seq![115u8, 116u8, 97u8, 116u8, 101u8]
}

/// The seeds of the record that `seed` names: the namespace tag, then the
/// seed's eight bytes, lowest first.
pub open spec fn record_seeds_spec(seed: u64) -> Seq<Seq<u8>> {
    seq![namespace_tag_spec(), spec_u64_to_le_bytes(seed)]
}

/// The record's seeds followed by its bump seed: what proves authority over
/// the record's address.
pub open spec fn signer_seeds_spec(seed: u64, bump: u8) -> Seq<Seq<u8>> {
    record_seeds_spec(seed).push(seq![bump])
}

/// What searching finds also derives directly, once the bump seed is
/// appended to the seeds.
pub proof fn lemma_found_derives(seeds: Seq<Seq<u8>>, program: Seq<u8>, bump: u8)
    ensures
        search_from(seeds, program, bump) matches Some((address, b)) ==> 1 <= b <= bump
            && derived_address(seeds.push(seq![b]), program) == Some(address),
    decreases bump,
{
    if bump != 0 {
        if derived_address(seeds.push(seq![bump]), program) is None {
            lemma_found_derives(seeds, program, (bump - 1) as u8);
        }
    }
}

/// Calls `Pubkey::create_program_address` on the seeds and the program's
/// address. The result is the derived address, or `None` where the call
/// returns an error (a seed list or a seed that is too long, or a hash on the
/// curve).
#[verifier::external_body]
pub(crate) fn create_program_address(seeds: &Vec<Vec<u8>>, program: &Address) -> (r: Option<Address>)
    ensures
        match r {
            Some(address) => derived_address(seeds.deep_view(), program@) == Some(address@),
            None => derived_address(seeds.deep_view(), program@) is None,
        },
{
    let parts: Vec<&[u8]> = seeds.iter().map(|s| s.as_slice()).collect();
    let id = anchor_lang::prelude::Pubkey::new_from_array(program.bytes);
    match anchor_lang::prelude::Pubkey::create_program_address(&parts, &id) {
        Ok(key) => Some(Address { bytes: key.to_bytes() }),
        Err(_) => None,
    }
}

/// Calls `Pubkey::try_find_program_address`, which appends the bump seeds
/// 255, 254, .., 1 in turn to the seeds and returns the first address that
/// `create_program_address` derives, with that bump seed, or `None` where
/// none derives.
#[verifier::external_body]
fn try_find_program_address(seeds: &Vec<Vec<u8>>, program: &Address) -> (r: Option<(Address, u8)>)
    ensures
        match r {
            Some((address, bump)) => found_address(seeds.deep_view(), program@) == Some(
                (address@, bump),
            ),
            None => found_address(seeds.deep_view(), program@) is None,
        },
{
    let parts: Vec<&[u8]> = seeds.iter().map(|s| s.as_slice()).collect();
    let id = anchor_lang::prelude::Pubkey::new_from_array(program.bytes);
    match anchor_lang::prelude::Pubkey::try_find_program_address(&parts, &id) {
        Some((key, bump)) => Some((Address { bytes: key.to_bytes() }, bump)),
        None => None,
    }
}

/// The namespace tag as bytes.
pub fn namespace_tag() -> (tag: Vec<u8>)
    ensures
        tag@ == namespace_tag_spec(),
{
    let mut tag: Vec<u8> = Vec::new();
    tag.push(115u8);
    tag.push(116u8);
    tag.push(97u8);
    tag.push(116u8);
    tag.push(101u8);
    tag
}

/// The seeds of the record that `seed` names.
pub fn record_seeds(seed: u64) -> (seeds: Vec<Vec<u8>>)
    ensures
        seeds.deep_view() == record_seeds_spec(seed),
{
    let mut seeds: Vec<Vec<u8>> = Vec::new();
    seeds.push(namespace_tag());
    seeds.push(u64_to_le_bytes(seed));
    assert(seeds.deep_view() =~= record_seeds_spec(seed)) by {
        assert(seeds.deep_view()[0] =~= namespace_tag_spec());
        assert(seeds.deep_view()[1] =~= spec_u64_to_le_bytes(seed));
    }
    seeds
}

/// The seeds that sign for the record: its seeds and its bump seed.
pub fn signer_seeds(seed: u64, bump: u8) -> (seeds: Vec<Vec<u8>>)
    ensures
        seeds.deep_view() == signer_seeds_spec(seed, bump),
{
    let mut seeds = record_seeds(seed);
    let ghost before = seeds.deep_view();
    let mut last: Vec<u8> = Vec::new();
    last.push(bump);
    seeds.push(last);
    assert(seeds.deep_view() =~= signer_seeds_spec(seed, bump)) by {
        assert(seeds.deep_view()[0] == before[0]);
        assert(seeds.deep_view()[1] == before[1]);
        assert(seeds.deep_view()[2] =~= seq![bump]);
    }
    seeds
}

/// The address of the record that `seed` names under `program`, as bytes,
/// with the bump seed that derives it.
pub open spec fn record_address_spec(program: Address, seed: u64) -> Option<(Seq<u8>, u8)> {
    found_address(record_seeds_spec(seed), program@)
}

/// Whether `address` is what `seed` and `bump` derive under `program`.
pub open spec fn is_record_address(program: Address, seed: u64, bump: u8, address: Address) -> bool {
    derived_address(signer_seeds_spec(seed, bump), program@) == Some(address@)
}

/// Derives the address of the record that `seed` names, and the bump seed
/// that goes with it. `None` where no bump seed derives an address.
pub fn find_record_address(program: &Address, seed: u64) -> (r: Option<(Address, u8)>)
    ensures
        match r {
            Some((address, bump)) => record_address_spec(*program, seed) == Some((address@, bump))
                && is_record_address(*program, seed, bump, address),
            None => record_address_spec(*program, seed) is None,
        },
{
    let seeds = record_seeds(seed);
    let r = try_find_program_address(&seeds, program);
    proof {
        lemma_found_derives(record_seeds_spec(seed), program@, 255);
    }
    r
}

/// Checks that `seed` and `bump` derive `address` under `program`.
pub fn verify_record_address(program: &Address, seed: u64, bump: u8, address: &Address) -> (r: bool)
    ensures
        r == is_record_address(*program, seed, bump, *address),
{
    let seeds = signer_seeds(seed, bump);
    match create_program_address(&seeds, program) {
        Some(derived) => {
            proof {
                Address::lemma_view_injective(derived, *address);
            }
            derived.same(address)
        },
        None => false,
    }
}

} // verus!
