//! Key material from a number: 32 bytes drawn from a generator seeded with it.

use rand::rngs::StdRng;
use rand::{Rng, SeedableRng};
use vstd::prelude::*;

verus! {

/// `rand`'s standard generator.
#[verifier::external_type_specification]
#[verifier::external_body]
pub struct ExStdRng(StdRng);

/// The byte that `rand`'s standard generator gives as its `position`-th draw of
/// a `u8` after it was seeded with `seed`.
pub uninterp spec fn std_rng_byte(seed: u64, position: nat) -> u8;

/// The number that a generator was seeded with.
pub uninterp spec fn rng_seed(rng: StdRng) -> u64;

/// How many bytes have been drawn from a generator since it was seeded.
pub uninterp spec fn rng_position(rng: StdRng) -> nat;

/// The key material that belongs to `seed`: the first 32 bytes of its generator.
pub open spec fn seed_bytes(seed: u64) -> Seq<u8> {
    Seq::new(32, |i: int| std_rng_byte(seed, i as nat))
}

/// `rand`'s `SeedableRng::seed_from_u64` for `StdRng`: a generator at the start
/// of the stream that belongs to `seed`. The stream is a function of the seed
/// alone: the seed is stretched by fixed arithmetic into the key of a
/// deterministic generator, with no input from the machine.
#[verifier::external_body]
fn seeded_rng(seed: u64) -> (rng: StdRng)
    ensures
        rng_seed(rng) == seed,
        rng_position(rng) == 0,
{
    SeedableRng::seed_from_u64(seed)
}

/// `rand`'s `Rng::gen::<u8>` on a `StdRng`: the next byte of the generator's
/// stream. The generator moves on by one draw and keeps its seed.
#[verifier::external_body]
fn next_byte(rng: &mut StdRng) -> (byte: u8)
    ensures
        byte == std_rng_byte(rng_seed(*old(rng)), rng_position(*old(rng))),
        rng_seed(*final(rng)) == rng_seed(*old(rng)),
        rng_position(*final(rng)) == rng_position(*old(rng)) + 1,
{
    rng.gen::<u8>()
}

/// The 32 bytes of key material that belong to `seed`.
pub fn gen_seed_bytes(seed: u64) -> (bytes: [u8; 32])
    ensures
        bytes@ == seed_bytes(seed),
{
    let mut rng = seeded_rng(seed);
    let mut bytes = [0u8; 32];
    let mut i: usize = 0;
    while i < 32
        invariant
            i <= 32,
            rng_seed(rng) == seed,
            rng_position(rng) == i,
            forall|j: int| 0 <= j < i ==> bytes[j] == std_rng_byte(seed, j as nat),
        decreases 32 - i,
    {
        let byte = next_byte(&mut rng);
        bytes[i] = byte;
        i = i + 1;
    }
    assert(bytes@ =~= seed_bytes(seed));
    bytes
}

} // verus!
