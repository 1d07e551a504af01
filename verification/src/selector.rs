//! Drawing the winner: from the time, the slot and the number of tickets sold
//! to the id of one ticket.

use vstd::prelude::*;

verus! {

/// The SHA-256 digest of a byte string.
pub uninterp spec fn sha256(data: Seq<u8>) -> Seq<u8>;

/// Calls `anchor_lang::solana_program::hash::hash`, which feeds the bytes to
/// SHA-256 and returns the 32 bytes of the digest. The digest depends on the
/// bytes alone; nothing more is claimed of it than that it is `sha256` of them.
#[verifier::external_body]
fn hash(data: &Vec<u8>) -> (r: [u8; 32])
    ensures
        r@ == sha256(data@),
{
    anchor_lang::solana_program::hash::hash(data.as_slice()).to_bytes()
}

/// The 64 bits of a signed number read as an unsigned one (two's complement).
pub open spec fn unsigned(t: i64) -> int {
    if t < 0 {
        t + 0x1_0000_0000_0000_0000
    } else {
        t as int
    }
}

/// The eight bytes of a point in time, the most significant first.
pub open spec fn be_bytes(t: i64) -> Seq<u8> {
    let u = unsigned(t);
    seq![
        (u / 0x100_0000_0000_0000 % 0x100) as u8,
        (u / 0x1_0000_0000_0000 % 0x100) as u8,
        (u / 0x100_0000_0000 % 0x100) as u8,
        (u / 0x1_0000_0000 % 0x100) as u8,
        (u / 0x100_0000 % 0x100) as u8,
        (u / 0x1_0000 % 0x100) as u8,
        (u / 0x100 % 0x100) as u8,
        (u % 0x100) as u8,
    ]
}

/// The number that the first eight bytes spell, the least significant first.
pub open spec fn le_u64(b: Seq<u8>) -> int
    recommends
        b.len() >= 8,
{
    b[0] + b[1] * 0x100 + b[2] * 0x1_0000 + b[3] * 0x100_0000 + b[4] * 0x1_0000_0000 + b[5]
        * 0x100_0000_0000 + b[6] * 0x1_0000_0000_0000 + b[7] * 0x100_0000_0000_0000
}

/// The winning ticket for a digest, a slot and a number of tickets sold: the
/// digest's leading number times the slot, reduced modulo 2^32 and then modulo
/// the number of tickets, counted from 1.
pub open spec fn winning_ticket_of(digest: Seq<u8>, slot: u64, count: u32) -> int
    recommends
        digest.len() >= 8,
        count > 0,
{
    (le_u64(digest) * slot) % 0x1_0000_0000 % (count as int) + 1
}

/// The winning ticket for a time, a slot and a number of tickets sold.
pub open spec fn winner_at(time: i64, slot: u64, count: u32) -> int
    recommends
        count > 0,
{
    winning_ticket_of(sha256(be_bytes(time)), slot, count)
}

/// Writes a point in time as eight bytes, the most significant first.
pub fn time_bytes(t: i64) -> (r: Vec<u8>)
    ensures
        r@ == be_bytes(t),
{
    let u: u64 = if t >= 0 {
        t as u64
    } else {
        ((t - i64::MIN) as u64) + 0x8000_0000_0000_0000
    };
    let mut out: Vec<u8> = Vec::new();
    out.push((u / 0x100_0000_0000_0000) as u8);
    out.push((u / 0x1_0000_0000_0000 % 0x100) as u8);
    out.push((u / 0x100_0000_0000 % 0x100) as u8);
    out.push((u / 0x1_0000_0000 % 0x100) as u8);
    out.push((u / 0x100_0000 % 0x100) as u8);
    out.push((u / 0x1_0000 % 0x100) as u8);
    out.push((u / 0x100 % 0x100) as u8);
    out.push((u % 0x100) as u8);
    assert(out@ =~= be_bytes(t));
    out
}

/// Reads the first eight bytes of a digest as a number, the least significant first.
pub fn leading_u64(digest: &[u8; 32]) -> (r: u64)
    ensures
        r == le_u64(digest@),
{
    let mut acc: u64 = digest[7] as u64;
    acc = acc * 0x100 + digest[6] as u64;
    acc = acc * 0x100 + digest[5] as u64;
    acc = acc * 0x100 + digest[4] as u64;
    acc = acc * 0x100 + digest[3] as u64;
    acc = acc * 0x100 + digest[2] as u64;
    acc = acc * 0x100 + digest[1] as u64;
    acc = acc * 0x100 + digest[0] as u64;
    acc
}

/// Picks the winning ticket for a digest, a slot and a number of tickets sold.
pub fn winning_ticket(digest: &[u8; 32], slot: u64, count: u32) -> (r: u32)
    requires
        count > 0,
    ensures
        r == winning_ticket_of(digest@, slot, count),
        1 <= r <= count,
{
    let d = leading_u64(digest);
    assert(d * slot <= u128::MAX) by (nonlinear_arith)
        requires
            d <= u64::MAX,
            slot <= u64::MAX,
    ;
    let product: u128 = (d as u128) * (slot as u128);
    let p: u32 = (product % 0x1_0000_0000) as u32;
    p % count + 1
}

/// Digests a point in time: SHA-256 over its eight bytes, the most significant first.
pub fn time_digest(time: i64) -> (r: [u8; 32])
    ensures
        r@ == sha256(be_bytes(time)),
{
    let bytes = time_bytes(time);
    hash(&bytes)
}

/// Picks the winning ticket for a time, a slot and a number of tickets sold:
/// the time is digested, and the digest decides as in [`winning_ticket`].
pub fn select_winner(time: i64, slot: u64, count: u32) -> (r: u32)
    requires
        count > 0,
    ensures
        r == winner_at(time, slot, count),
        1 <= r <= count,
{
    let digest = time_digest(time);
    winning_ticket(&digest, slot, count)
}

} // verus!
