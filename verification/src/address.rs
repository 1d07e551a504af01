//! Addressing: where each record lives.
//!
//! A record is not found by following a reference. Its location is derived
//! from what identifies it: a tag for its kind, then its number, and for a
//! ticket the location of its lottery in between. Whoever knows these can
//! compute the location again, and a record handed over at any other location
//! is not the record asked for.

use crate::identity::Identity;
use vstd::prelude::*;

verus! {

/// The location that a list of seeds derives under a program, if there is one.
pub uninterp spec fn derived_address(seeds: Seq<Seq<u8>>, program_id: Seq<u8>) -> Option<Seq<u8>>;

/// Calls `Pubkey::try_find_program_address` of `anchor_lang::solana_program`,
/// which hashes the seeds, one more byte and the program's identity, and
/// returns the first such hash that is no point of the signature curve, or
/// nothing when no byte yields one or a seed is too long. The result depends
/// on the seeds and the program alone; nothing more is claimed of it than that
/// it is `derived_address` of them. The extra byte found is dropped.
#[verifier::external_body]
fn find_address(seeds: &Vec<Vec<u8>>, program_id: &Identity) -> (r: Option<Identity>)
    ensures
        view_of(r) == derived_address(seed_bytes(seeds@), program_id@),
{
    let parts: Vec<&[u8]> = seeds.iter().map(|s| s.as_slice()).collect();
    let program = anchor_lang::solana_program::pubkey::Pubkey::new_from_array(program_id.bytes);
    anchor_lang::solana_program::pubkey::Pubkey::try_find_program_address(&parts, &program)
        .map(|found| Identity { bytes: found.0.to_bytes() })
}

/// The seeds of a derivation, each as its bytes.
pub open spec fn seed_bytes(seeds: Seq<Vec<u8>>) -> Seq<Seq<u8>> {
    Seq::new(seeds.len(), |i: int| seeds[i]@)
}

/// A location that may be missing, as bytes.
pub open spec fn view_of(at: Option<Identity>) -> Option<Seq<u8>> {
    match at {
        Some(key) => Some(key@),
        None => None,
    }
}

/// The tag of the registry: the letters `master`.
pub open spec fn master_tag() -> Seq<u8> {
    seq![0x6du8, 0x61, 0x73, 0x74, 0x65, 0x72]
}

/// The tag of a lottery: the letters `lottery`.
pub open spec fn lottery_tag() -> Seq<u8> {
    seq![0x6cu8, 0x6f, 0x74, 0x74, 0x65, 0x72, 0x79]
}

/// The tag of a ticket: the letters `ticket`.
pub open spec fn ticket_tag() -> Seq<u8> {
    seq![0x74u8, 0x69, 0x63, 0x6b, 0x65, 0x74]
}

/// The four bytes of a record's number, the least significant first.
pub open spec fn le_bytes(id: u32) -> Seq<u8> {
    seq![
        (id % 0x100) as u8,
        (id / 0x100 % 0x100) as u8,
        (id / 0x1_0000 % 0x100) as u8,
        (id / 0x100_0000 % 0x100) as u8,
    ]
}

/// Where the registry lives: derived from its tag alone, so there is one.
pub open spec fn master_location(program_id: Seq<u8>) -> Option<Seq<u8>> {
    derived_address(seq![master_tag()], program_id)
}

/// Where the lottery with the given id lives: derived from the tag and the id.
pub open spec fn lottery_location(program_id: Seq<u8>, id: u32) -> Option<Seq<u8>> {
    derived_address(seq![lottery_tag(), le_bytes(id)], program_id)
}

/// Where a lottery's ticket with the given id lives: derived from the tag, the
/// lottery's own location and the id.
pub open spec fn ticket_location(program_id: Seq<u8>, lottery: Seq<u8>, id: u32) -> Option<
    Seq<u8>,
> {
    derived_address(seq![ticket_tag(), lottery, le_bytes(id)], program_id)
}

/// Writes a record's number as four bytes, the least significant first.
pub fn id_bytes(id: u32) -> (r: Vec<u8>)
    ensures
        r@ == le_bytes(id),
{
    let mut out: Vec<u8> = Vec::new();
    out.push((id % 0x100) as u8);
    out.push((id / 0x100 % 0x100) as u8);
    out.push((id / 0x1_0000 % 0x100) as u8);
    out.push((id / 0x100_0000) as u8);
    assert(out@ =~= le_bytes(id));
    out
}

fn master_seed() -> (r: Vec<u8>)
    ensures
        r@ == master_tag(),
{
    let r: Vec<u8> = vec![0x6du8, 0x61, 0x73, 0x74, 0x65, 0x72];
    assert(r@ =~= master_tag());
    r
}

fn lottery_seed() -> (r: Vec<u8>)
    ensures
        r@ == lottery_tag(),
{
    let r: Vec<u8> = vec![0x6cu8, 0x6f, 0x74, 0x74, 0x65, 0x72, 0x79];
    assert(r@ =~= lottery_tag());
    r
}

fn ticket_seed() -> (r: Vec<u8>)
    ensures
        r@ == ticket_tag(),
{
    let r: Vec<u8> = vec![0x74u8, 0x69, 0x63, 0x6b, 0x65, 0x74];
    assert(r@ =~= ticket_tag());
    r
}

/// Derives the location of the registry.
pub fn master_address(program_id: &Identity) -> (r: Option<Identity>)
    ensures
        view_of(r) == master_location(program_id@),
{
    let mut seeds: Vec<Vec<u8>> = Vec::new();
    seeds.push(master_seed());
    assert(seed_bytes(seeds@) =~= seq![master_tag()]);
    find_address(&seeds, program_id)
}

/// Derives the location of the lottery with the given id.
pub fn lottery_address(program_id: &Identity, id: u32) -> (r: Option<Identity>)
    ensures
        view_of(r) == lottery_location(program_id@, id),
{
    let mut seeds: Vec<Vec<u8>> = Vec::new();
    seeds.push(lottery_seed());
    seeds.push(id_bytes(id));
    assert(seed_bytes(seeds@) =~= seq![lottery_tag(), le_bytes(id)]);
    find_address(&seeds, program_id)
}

/// Derives the location of a lottery's ticket with the given id.
pub fn ticket_address(program_id: &Identity, lottery: &Identity, id: u32) -> (r: Option<Identity>)
    ensures
        view_of(r) == ticket_location(program_id@, lottery@, id),
{
    let mut seeds: Vec<Vec<u8>> = Vec::new();
    seeds.push(ticket_seed());
    seeds.push(lottery.to_vec());
    seeds.push(id_bytes(id));
    assert(seed_bytes(seeds@) =~= seq![ticket_tag(), lottery@, le_bytes(id)]);
    find_address(&seeds, program_id)
}

/// Whether a record handed over under `key` stands at the location derived
/// for it. A derivation that found no location matches no record.
pub fn stands_at(key: &Identity, at: &Option<Identity>) -> (r: bool)
    ensures
        r == (view_of(*at) == Some(key@)),
{
    match at {
        Some(found) => {
            proof {
                crate::identity::identity_is_its_bytes(*found, *key);
            }
            *found == *key
        },
        None => false,
    }
}

} // verus!
