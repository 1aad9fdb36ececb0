use vstd::prelude::*;

verus! {

/// The 24 pseudo-random bits drawn from `seed` by two linear-congruential steps modulo 2^32
/// (multipliers 1664525 and 22695477, increments 1013904223 and 1), keeping bits 8 to 31.
pub open spec fn spec_hash_bits(seed: u32) -> u32 {
    let x = (seed * 1664525 + 1013904223) % 0x1_0000_0000;
    let y = (x * 22695477 + 1) % 0x1_0000_0000;
    (y / 256) as u32
}

/// The deterministic hash behind the per-block colours, face details and smoke particles;
/// dividing it by 2^24 gives the pseudo-random fraction in [0, 1).
pub fn hash_bits(seed: u32) -> (res: u32)
    ensures
        res == spec_hash_bits(seed),
        res <= 0xFF_FFFF,
{
    let x = seed.wrapping_mul(1664525).wrapping_add(1013904223);
    let y = x.wrapping_mul(22695477).wrapping_add(1);
    let r = (y >> 8) & 0xFF_FFFF;
    assert(r == y / 256) by (bit_vector)
        requires
            r == (y >> 8) & 0xFF_FFFFu32,
    ;
    proof {
        let a = (seed as nat * 1664525nat) % 0x1_0000_0000nat;
        assert(x as int == (seed * 1664525 + 1013904223) % 0x1_0000_0000) by {
            vstd::arithmetic::div_mod::lemma_add_mod_noop(seed * 1664525, 1013904223, 0x1_0000_0000);
            vstd::arithmetic::div_mod::lemma_mod_twice((a + 1013904223) as int, 0x1_0000_0000);
        }
        let b = (x as nat * 22695477nat) % 0x1_0000_0000nat;
        assert(y as int == (x * 22695477 + 1) % 0x1_0000_0000) by {
            vstd::arithmetic::div_mod::lemma_add_mod_noop(x * 22695477, 1, 0x1_0000_0000);
            vstd::arithmetic::div_mod::lemma_mod_twice((b + 1) as int, 0x1_0000_0000);
        }
    }
    r
}

/// The hash stays below 2^24, so the fraction hash / 2^24 lies in [0, 1).
pub proof fn law_hash_bounded(seed: u32)
    ensures
        spec_hash_bits(seed) < 0x100_0000,
{
}

} // verus!
