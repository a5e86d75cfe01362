use vstd::prelude::*;
use sha2::{Digest, Sha256};
use crate::state::Key;

verus! {

broadcast use vstd::array::group_array_axioms;

/// The SHA-256 digest of a byte string.
pub uninterp spec fn sha256_digest(data: Seq<u8>) -> Seq<u8>;

/// Calls `sha2::Sha256::digest`, the one-shot SHA-256 of `data`. Trusted to
/// return the SHA-256 digest of exactly the bytes given; that a digest is 32
/// bytes long comes from the result type.
#[verifier::external_body]
fn sha256(data: &[u8]) -> (digest: [u8; 32])
    ensures
        digest@ == sha256_digest(data@),
{
    Sha256::digest(data).into()
}

/// The big-endian bytes of a 64-bit number, most significant first.
pub open spec fn be_bytes(x: u64) -> Seq<u8> {
    seq![
        (x >> 56u64) as u8,
        (x >> 48u64) as u8,
        (x >> 40u64) as u8,
        (x >> 32u64) as u8,
        (x >> 24u64) as u8,
        (x >> 16u64) as u8,
        (x >> 8u64) as u8,
        x as u8,
    ]
}

/// The big-endian bytes of `x`.
pub fn to_be_bytes(x: u64) -> (bytes: [u8; 8])
    ensures
        bytes@ == be_bytes(x),
{
    let bytes: [u8; 8] = [
        (x >> 56u64) as u8,
        (x >> 48u64) as u8,
        (x >> 40u64) as u8,
        (x >> 32u64) as u8,
        (x >> 24u64) as u8,
        (x >> 16u64) as u8,
        (x >> 8u64) as u8,
        x as u8,
    ];
    assert(bytes@ =~= be_bytes(x));
    bytes
}

/// The bytes a play hashes: the player's address followed by the clock.
pub open spec fn play_seed(player: Key, time: u64) -> Seq<u8> {
    player@ + be_bytes(time)
}

/// Lays out the bytes a play hashes.
pub fn seed_bytes(player: &Key, time: u64) -> (seed: Vec<u8>)
    ensures
        seed@ == play_seed(*player, time),
{
    let mut seed: Vec<u8> = Vec::new();
    let mut i: usize = 0;
    while i < 32
        invariant
            i <= 32,
            seed@ == player@.take(i as int),
        decreases 32 - i,
    {
        seed.push(player[i]);
        i = i + 1;
        assert(seed@ =~= player@.take(i as int));
    }
    let time_bytes = to_be_bytes(time);
    let mut j: usize = 0;
    while j < 8
        invariant
            j <= 8,
            seed@ == player@ + time_bytes@.take(j as int),
            time_bytes@ == be_bytes(time),
        decreases 8 - j,
    {
        seed.push(time_bytes[j]);
        j = j + 1;
        assert(seed@ =~= player@ + time_bytes@.take(j as int));
    }
    assert(seed@ =~= play_seed(*player, time));
    seed
}

/// The sum of a byte string's bytes.
pub open spec fn byte_sum(bytes: Seq<u8>) -> int
    decreases bytes.len(),
{
    if bytes.len() == 0 {
        0
    } else {
        byte_sum(bytes.drop_last()) + bytes.last()
    }
}

/// Adds up the bytes of a digest.
pub fn digest_sum(digest: &[u8; 32]) -> (sum: u64)
    ensures
        sum == byte_sum(digest@),
        sum <= 32 * 255,
{
    let mut sum: u64 = 0;
    let mut i: usize = 0;
    while i < 32
        invariant
            i <= 32,
            sum == byte_sum(digest@.take(i as int)),
            sum <= 255 * i,
        decreases 32 - i,
    {
        assert(digest@.take(i + 1).drop_last() =~= digest@.take(i as int));
        sum = sum + digest[i] as u64;
        i = i + 1;
    }
    assert(digest@.take(32) =~= digest@);
    sum
}

/// The number that picks a prize on a play: the byte sum of the SHA-256 of
/// the player's address and the clock.
pub open spec fn play_number(player: Key, time: u64) -> int {
    byte_sum(sha256_digest(play_seed(player, time)))
}

/// Hashes the player's address and the clock and returns the digest.
pub fn play_digest(player: &Key, time: u64) -> (digest: [u8; 32])
    ensures
        digest@ == sha256_digest(play_seed(*player, time)),
{
    let seed = seed_bytes(player, time);
    sha256(seed.as_slice())
}

} // verus!
