//! The pseudo-random winner derivation.
//!
//! The formula is: hash the big-endian encoding of the ledger timestamp
//! with blake3, read the first 8 bytes of the digest as a little-endian
//! 64-bit integer, multiply by the ledger slot counter, reduce modulo
//! `2^32 - 1`, and truncate to 32 bits. The winning ticket is that value
//! modulo the number of tickets sold, plus one.
//!
//! Both inputs (timestamp and slot) are publicly observable and can be
//! influenced by whoever controls transaction timing, so this is a weak,
//! manipulable randomness source; it is kept exactly as stated for
//! behavioural fidelity, not endorsed for high-value prizes.

use vstd::prelude::*;

verus! {

/// The blake3 digest of a byte sequence. The digest is a function of the
/// input bytes alone; nothing further is assumed of its value.
pub uninterp spec fn blake3_of(input: Seq<u8>) -> Seq<u8>;

/// Relies on `anchor_lang::solana_program::blake3::hash`: it returns the
/// 32-byte blake3 digest of the input, a function of the input bytes alone.
#[verifier::external_body]
fn blake3_digest(input: &Vec<u8>) -> (r: Vec<u8>)
    ensures
        r@ == blake3_of(input@),
        r@.len() == 32,
{
    anchor_lang::solana_program::blake3::hash(input.as_slice()).to_bytes().to_vec()
}

/// The big-endian byte encoding of a 64-bit value.
pub open spec fn be_bytes_of(x: u64) -> Seq<u8> {
    seq![
        ((x >> 56) & 0xff) as u8,
        ((x >> 48) & 0xff) as u8,
        ((x >> 40) & 0xff) as u8,
        ((x >> 32) & 0xff) as u8,
        ((x >> 24) & 0xff) as u8,
        ((x >> 16) & 0xff) as u8,
        ((x >> 8) & 0xff) as u8,
        (x & 0xff) as u8,
    ]
}

/// The 64-bit value read from the first 8 bytes of a sequence, little-endian.
pub open spec fn le64_of(s: Seq<u8>) -> u64
    recommends
        s.len() >= 8,
{
    (s[0] as u64) | (s[1] as u64) << 8 | (s[2] as u64) << 16 | (s[3] as u64) << 24
        | (s[4] as u64) << 32 | (s[5] as u64) << 40 | (s[6] as u64) << 48 | (s[7] as u64) << 56
}

/// The pseudo-random 32-bit value derived from the ledger clock: the first
/// 8 bytes of `blake3(be_bytes(timestamp))` as a little-endian integer,
/// times the slot counter, modulo `2^32 - 1`.
pub open spec fn pseudo_random_of(timestamp: i64, slot: u64) -> u32 {
    let h = le64_of(blake3_of(be_bytes_of(timestamp as u64)));
    ((h * slot) % 0xFFFF_FFFF) as u32
}

/// The winning ticket number for a lottery with `sold` tickets, derived
/// from the clock: always between 1 and `sold`.
pub open spec fn winner_of(timestamp: i64, slot: u64, sold: u32) -> u32
    recommends
        sold > 0,
{
    ((pseudo_random_of(timestamp, slot) % sold) + 1) as u32
}

/// Computes `pseudo_random_of` on the given clock reading.
pub fn pseudo_random(timestamp: i64, slot: u64) -> (r: u32)
    ensures
        r == pseudo_random_of(timestamp, slot),
{
    let bits: u64 = #[verifier::truncate] (timestamp as u64);
    let mut input: Vec<u8> = Vec::new();
    input.push(((bits >> 56) & 0xff) as u8);
    input.push(((bits >> 48) & 0xff) as u8);
    input.push(((bits >> 40) & 0xff) as u8);
    input.push(((bits >> 32) & 0xff) as u8);
    input.push(((bits >> 24) & 0xff) as u8);
    input.push(((bits >> 16) & 0xff) as u8);
    input.push(((bits >> 8) & 0xff) as u8);
    input.push((bits & 0xff) as u8);
    assert(input@ =~= be_bytes_of(bits));
    let digest = blake3_digest(&input);
    let h: u64 = (digest[0] as u64) | (digest[1] as u64) << 8 | (digest[2] as u64) << 16
        | (digest[3] as u64) << 24 | (digest[4] as u64) << 32 | (digest[5] as u64) << 40
        | (digest[6] as u64) << 48 | (digest[7] as u64) << 56;
    assert(h == le64_of(digest@));
    assert(h * slot <= u64::MAX * u64::MAX) by (nonlinear_arith)
        requires
            h <= u64::MAX,
            slot <= u64::MAX,
    ;
    let prod: u128 = (h as u128) * (slot as u128);
    let reduced: u128 = prod % 0xFFFF_FFFFu128;
    reduced as u32
}

/// Computes `winner_of`: maps the pseudo-random value into 1..=`sold`.
pub fn winning_ticket(timestamp: i64, slot: u64, sold: u32) -> (w: u32)
    requires
        sold > 0,
    ensures
        w == winner_of(timestamp, slot, sold),
        1 <= w <= sold,
{
    let r = pseudo_random(timestamp, slot);
    (r % sold) + 1
}

} // verus!
