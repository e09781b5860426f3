//! Integer lattice hash behind the film-grain noise field.

use vstd::prelude::*;

verus! {

/// Multiplier of the column coordinate.
pub const LATTICE_X: u32 = 73856093;

/// Multiplier of the row coordinate.
pub const LATTICE_Y: u32 = 19349663;

/// Multiplier of the seed.
pub const LATTICE_SEED: u32 = 83492791;

/// Seed of the film-grain field.
pub const GRAIN_SEED: u32 = 12345;

/// First avalanche multiplier.
pub const AVALANCHE_A: u32 = 0x85eb_ca6b;

/// Second avalanche multiplier.
pub const AVALANCHE_B: u32 = 0xc2b2_ae35;

/// Product of two words, reduced modulo 2^32.
pub open spec fn mul_mod32(a: u32, b: u32) -> u32 {
    ((a as int * b as int) % 0x1_0000_0000) as u32
}

/// The two-round multiply/xor-shift avalanche of a 32-bit word.
pub open spec fn avalanche(n: u32) -> u32 {
    let a = mul_mod32(n, AVALANCHE_A);
    let b = a ^ (a >> 13);
    let c = mul_mod32(b, AVALANCHE_B);
    c ^ (c >> 16)
}

/// Scrambles a 32-bit word so that nearby inputs give unrelated outputs.
pub fn simple_hash(n: u32) -> (r: u32)
    ensures
        r == avalanche(n),
{
    let a: u32 = n.wrapping_mul(AVALANCHE_A);
    let b: u32 = a ^ (a >> 13);
    let c: u32 = b.wrapping_mul(AVALANCHE_B);
    c ^ (c >> 16)
}

/// The 32-bit word that holds a signed coordinate in two's complement.
pub open spec fn word_of(i: i32) -> u32 {
    if i >= 0 {
        i as u32
    } else {
        (i + 0x1_0000_0000) as u32
    }
}

/// The word that mixes a lattice point with a seed: each of the three is
/// multiplied by its own constant, modulo 2^32, and the products are
/// combined bit by bit.
pub open spec fn lattice_word(ix: i32, iy: i32, seed: u32) -> u32 {
    mul_mod32(word_of(ix), LATTICE_X) ^ mul_mod32(word_of(iy), LATTICE_Y) ^ mul_mod32(
        seed,
        LATTICE_SEED,
    )
}

/// The noise word of a lattice point: its mixed word, scrambled.
pub open spec fn noise_word(ix: i32, iy: i32, seed: u32) -> u32 {
    avalanche(lattice_word(ix, iy, seed))
}

/// Two's-complement word of a signed coordinate.
fn coordinate_word(i: i32) -> (r: u32)
    ensures
        r == word_of(i),
{
    if i >= 0 {
        i as u32
    } else {
        (i as i64 + 0x1_0000_0000i64) as u32
    }
}

/// Noise word of the lattice point `(ix, iy)` under `seed`. It depends on
/// these three numbers and on nothing else; all 2^32 words can occur.
pub fn lattice_hash(ix: i32, iy: i32, seed: u32) -> (r: u32)
    ensures
        r == noise_word(ix, iy, seed),
{
    let a: u32 = coordinate_word(ix).wrapping_mul(LATTICE_X);
    let b: u32 = coordinate_word(iy).wrapping_mul(LATTICE_Y);
    let c: u32 = seed.wrapping_mul(LATTICE_SEED);
    simple_hash(a ^ b ^ c)
}

} // verus!
