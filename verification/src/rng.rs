//! The trusted boundary to the outside random-number and clock crates.
use vstd::prelude::*;

use rand::rngs::{OsRng, SmallRng};
use rand::seq::SliceRandom;
use rand::{Rng, RngCore, SeedableRng};

verus! {

/// The first 64-bit draw of this build's seeded generator.
pub uninterp spec fn gen_val_of(seed: u64) -> u64;

/// The second 64-bit draw of this build's seeded generator.
pub uninterp spec fn gen_seed_of(seed: u64) -> u64;

/// Relies on rand's `SmallRng::seed_from_u64` and `Rng::gen`: a generator
/// seeded from a number yields a draw stream that is a function of the seed
/// alone, so the two draws taken here depend on nothing but the argument.
#[verifier::external_body]
pub fn gen_pair(seed: u64) -> (r: (u64, u64))
    ensures
        r.0 == gen_val_of(seed),
        r.1 == gen_seed_of(seed),
{
    let mut rng = SmallRng::seed_from_u64(seed);
    let val: u64 = rng.gen();
    let next: u64 = rng.gen();
    (val, next)
}

/// Relies on rand's `SliceRandom::shuffle`: it only swaps elements in place,
/// so whatever order comes back, the same elements come back.
#[verifier::external_body]
pub fn shuffle_seeded(seed: u64, items: Vec<i64>) -> (r: Vec<i64>)
    ensures
        r@.to_multiset() == items@.to_multiset(),
{
    let mut items = items;
    items.shuffle(&mut SmallRng::seed_from_u64(seed));
    items
}

/// Relies on rand's `OsRng::try_fill_bytes`: a fresh 64-bit draw from the
/// system's entropy, falling back to a generator seeded from the given value
/// when the entropy source reports an error, so that no path panics. Nothing
/// is promised of the value.
#[verifier::external_body]
pub fn random_bits(fallback_seed: u64) -> u64 {
    let mut bytes = [0u8; 8];
    match OsRng.try_fill_bytes(&mut bytes) {
        Ok(()) => u64::from_le_bytes(bytes),
        Err(_) => SmallRng::seed_from_u64(fallback_seed).gen(),
    }
}

/// Relies on the instant crate's `SystemTime`: the milliseconds of the wall
/// clock since the epoch, and zero when the clock reads before it, so that no
/// path panics. Nothing is promised of the value.
#[verifier::external_body]
pub fn now_millis() -> u64 {
    match instant::SystemTime::now().duration_since(instant::SystemTime::UNIX_EPOCH) {
        Ok(d) => d.as_millis() as u64,
        Err(_) => 0,
    }
}

} // verus!
