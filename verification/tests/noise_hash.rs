use ninlab_core_rs::noise::{lattice_hash, simple_hash, GRAIN_SEED};

fn reference_lattice(ix: i32, iy: i32, seed: u32) -> u32 {
    let h = (ix.wrapping_mul(73856093)
        ^ iy.wrapping_mul(19349663)
        ^ (seed as i32).wrapping_mul(83492791)) as u32;
    let mut x = h.wrapping_mul(0x85ebca6b);
    x ^= x >> 13;
    x = x.wrapping_mul(0xc2b2ae35);
    x ^= x >> 16;
    x
}

#[test]
fn simple_hash_known_values() {
    assert_eq!(simple_hash(0), 0);
    assert_eq!(simple_hash(1), 1364076727);
    assert_eq!(simple_hash(2), 821347078);
    assert_eq!(simple_hash(12345), 1011272156);
    assert_eq!(simple_hash(0xffff_ffff), 1256423719);
    assert_eq!(simple_hash(0xdead_beef), 4036654372);
}

#[test]
fn lattice_hash_known_values() {
    assert_eq!(GRAIN_SEED, 12345);
    assert_eq!(lattice_hash(0, 0, 12345), 967623855);
    assert_eq!(lattice_hash(1, 0, 12345), 2773493586);
    assert_eq!(lattice_hash(0, 1, 12345), 245031133);
    assert_eq!(lattice_hash(-1, -1, 12345), 2342725499);
    assert_eq!(lattice_hash(3, 7, 0), 2409863761);
    assert_eq!(lattice_hash(i32::MIN, i32::MAX, u32::MAX), 3945233976);
    assert_eq!(lattice_hash(100, 200, 12345), 2435907563);
}

#[test]
fn lattice_hash_matches_signed_arithmetic() {
    let coords: [i32; 9] = [i32::MIN, -65537, -2, -1, 0, 1, 2, 65537, i32::MAX];
    let seeds: [u32; 5] = [0, 1, 12345, 0x8000_0000, u32::MAX];
    for ix in coords {
        for iy in coords {
            for seed in seeds {
                assert_eq!(lattice_hash(ix, iy, seed), reference_lattice(ix, iy, seed));
            }
        }
    }
}

#[test]
fn lattice_hash_is_repeatable() {
    let first: u32 = lattice_hash(17, -4, GRAIN_SEED);
    let second: u32 = lattice_hash(17, -4, GRAIN_SEED);
    assert_eq!(first, second);
    assert_ne!(lattice_hash(17, -4, GRAIN_SEED), lattice_hash(-4, 17, GRAIN_SEED));
}
