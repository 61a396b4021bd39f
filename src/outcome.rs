use vstd::prelude::*;
use crate::state::Identity;

verus! {

/// The first `n` little-endian bytes of `x`.
pub open spec fn le_bytes(x: nat, n: nat) -> Seq<u8>
    decreases n,
{
    if n == 0 {
        Seq::empty()
    } else {
        seq![(x % 256) as u8] + le_bytes(x / 256, (n - 1) as nat)
    }
}

/// The bytes the draw hashes: the slot height and the spin counter, each as
/// eight little-endian bytes, then the bettor's identity.
pub open spec fn seed_bytes(slot: u64, total_spins: u64, player: Seq<u8>) -> Seq<u8> {
    le_bytes(slot as nat, 8) + le_bytes(total_spins as nat, 8) + player
}

/// The SHA-256 digest of a byte string.
pub uninterp spec fn sha256_digest(data: Seq<u8>) -> Seq<u8>;

/// The value drawn from a digest: its first byte modulo 100.
pub open spec fn value_of_digest(digest: Seq<u8>) -> u8 {
    (digest[0] % 100) as u8
}

/// The value drawn for a spin.
pub open spec fn draw_value(slot: u64, total_spins: u64, player: Seq<u8>) -> u8 {
    value_of_digest(sha256_digest(seed_bytes(slot, total_spins, player)))
}

/// The payout multiplier, in percent, of a drawn value in `0..100`.
pub open spec fn multiplier_of(random_value: u8) -> u64 {
    if random_value < 60 {
        0
    } else if random_value < 80 {
        120
    } else if random_value < 90 {
        200
    } else {
        400
    }
}

/// Appends the `8` little-endian bytes of `x` to `out`.
fn push_le_bytes(out: &mut Vec<u8>, x: u64)
    ensures
        final(out)@ == old(out)@ + le_bytes(x as nat, 8),
{
    let ghost start = old(out)@;
    let mut v: u64 = x;
    let mut i: usize = 0;
    while i < 8
        invariant
            i <= 8,
            out@ + le_bytes(v as nat, (8 - i) as nat) == start + le_bytes(x as nat, 8),
        decreases 8 - i,
    {
        let ghost before = out@;
        let ghost rest = le_bytes((v / 256) as nat, (8 - i - 1) as nat);
        out.push((v % 256) as u8);
        assert(le_bytes(v as nat, (8 - i) as nat) == seq![(v % 256) as u8] + rest);
        assert(out@ + rest =~= before + (seq![(v % 256) as u8] + rest));
        v = v / 256;
        i = i + 1;
    }
    assert(le_bytes(v as nat, 0) =~= Seq::<u8>::empty());
    assert(out@ + Seq::<u8>::empty() =~= out@);
}

/// The bytes that the draw hashes, as `seed_bytes` gives them.
pub fn draw_seed(slot: u64, total_spins: u64, player: &Identity) -> (r: Vec<u8>)
    ensures
        r@ == seed_bytes(slot, total_spins, player.bytes@),
{
    let mut data: Vec<u8> = Vec::new();
    push_le_bytes(&mut data, slot);
    push_le_bytes(&mut data, total_spins);
    let mut i: usize = 0;
    let ghost prefix = data@;
    while i < 32
        invariant
            i <= 32,
            data@ == prefix + player.bytes@.subrange(0, i as int),
        decreases 32 - i,
    {
        data.push(player.bytes[i]);
        assert(player.bytes@.subrange(0, i + 1) =~= player.bytes@.subrange(0, i as int).push(
            player.bytes@[i as int],
        ));
        i = i + 1;
    }
    assert(player.bytes@.subrange(0, 32) =~= player.bytes@);
    assert(prefix =~= Seq::<u8>::empty() + le_bytes(slot as nat, 8) + le_bytes(total_spins as nat, 8));
    data
}

/// Relies on `solana_program::hash::hash` (with `Hash::to_bytes`): the
/// SHA-256 digest of the bytes, depending on them alone.
#[verifier::external_body]
fn sha256(data: &Vec<u8>) -> (r: [u8; 32])
    ensures
        r@ == sha256_digest(data@),
{
    anchor_lang::solana_program::hash::hash(data.as_slice()).to_bytes()
}

/// The drawn value of a digest: its first byte modulo 100.
pub fn random_from_digest(digest: &[u8; 32]) -> (r: u8)
    ensures
        r == value_of_digest(digest@),
        r < 100,
{
    digest[0] % 100
}

/// Draws a value in `0..100` from the slot height, the spin counter and the
/// bettor's identity. The draw is predictable by anyone who knows these
/// inputs: it is a placeholder for a verifiable source of randomness.
pub fn generate_random_number(slot: u64, total_spins: u64, player: &Identity) -> (r: u8)
    ensures
        r == draw_value(slot, total_spins, player.bytes@),
        r < 100,
{
    let data = draw_seed(slot, total_spins, player);
    let digest = sha256(&data);
    random_from_digest(&digest)
}

/// The payout multiplier, in percent, of a drawn value.
pub fn multiplier_for(random_value: u8) -> (r: u64)
    requires
        random_value < 100,
    ensures
        r == multiplier_of(random_value),
{
    if random_value <= 59 {
        0
    } else if random_value <= 79 {
        120
    } else if random_value <= 89 {
        200
    } else {
        400
    }
}

} // verus!
