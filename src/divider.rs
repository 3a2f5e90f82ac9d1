//! The perspective divider: an unsigned 16.16 approximation of `h / z`,
//! computed as the hardware does, by a reciprocal seeded from a 257-entry
//! table and refined by one Newton-Raphson step.
use vstd::prelude::*;

verus! {

/// Entry `i` (0..=256) of the reciprocal seed table.
pub open spec fn seed_entry(i: int) -> int {
    let e = (0x40000int / (i + 0x100) + 1) / 2 - 0x101;
    if e < 0 {
        0
    } else {
        e
    }
}

/// `n` and `d` doubled together until bit 15 of `d` is set.
pub open spec fn normalize(n: int, d: int) -> (int, int)
    decreases 0x1_0000 - d,
{
    if d <= 0 || d >= 0x8000 {
        (n, d)
    } else {
        normalize(2 * n, 2 * d)
    }
}

/// Reciprocal of a normalized divisor `d` in `[0x8000, 0xffff]`.
pub open spec fn reciprocal(d: int) -> int {
    let u = seed_entry((d - 0x7fc0) / 128) + 0x101;
    let e = (0x200_0080 - d * u) / 256;
    (0x80 + e * u) / 256
}

/// The projection factor for plane distance `h` and depth `z`, capped at 0x1ffff.
pub open spec fn divide_spec(h: int, z: int) -> int {
    let (n, d) = normalize(h, z);
    let q = (n * reciprocal(d) + 0x8000) / 0x1_0000;
    if q > 0x1ffff {
        0x1ffff
    } else {
        q
    }
}

fn reciprocal_of(d: u64) -> (r: u64)
    requires
        0x8000 <= d <= 0xffff,
    ensures
        r as int == reciprocal(d as int),
        r <= 0x4_0004,
{
    let index: u64 = (d - 0x7fc0) / 128;
    assert(index <= 256);
    let seed: u64 = (0x40000 / (index + 0x100) + 1) / 2;
    let u: u64 = if seed < 0x101 {
        0x101
    } else {
        seed
    };
    assert(seed <= 0x200) by {
        assert(0x40000int / (index + 0x100) <= 0x400) by {
            vstd::arithmetic::div_mod::lemma_div_is_ordered_by_denominator(0x40000, 0x100, index as int + 0x100);
        }
    }
    assert(u as int == seed_entry(index as int) + 0x101);
    assert(d * u <= 0xffff * 0x200) by (nonlinear_arith)
        requires
            d <= 0xffff,
            u <= 0x200,
    ;
    let e: u64 = (0x200_0080 - d * u) / 256;
    assert(e <= 0x2_0001);
    assert(e * u <= 0x2_0001 * 0x200) by (nonlinear_arith)
        requires
            e <= 0x2_0001,
            u <= 0x200,
    ;
    (0x80 + e * u) / 256
}

/// Divides `h` by `z` as the projection step does; the caller ensures `z > h / 2`.
pub fn divide(h: u16, z: u16) -> (r: u32)
    requires
        z > h / 2,
    ensures
        r as int == divide_spec(h as int, z as int),
        r <= 0x1ffff,
{
    let mut n: u64 = h as u64;
    let mut d: u64 = z as u64;
    while d < 0x8000
        invariant
            0 < d <= 0xffff,
            n < 2 * d,
            normalize(n as int, d as int) == normalize(h as int, z as int),
        decreases 0x1_0000 - d,
    {
        n = 2 * n;
        d = 2 * d;
    }
    let r = reciprocal_of(d);
    assert(n * r <= 0x2_0000 * 0x4_0004) by (nonlinear_arith)
        requires
            n < 0x2_0000,
            r <= 0x4_0004,
    ;
    let q: u64 = (n * r + 0x8000) / 0x1_0000;
    if q > 0x1ffff {
        0x1ffff
    } else {
        q as u32
    }
}

} // verus!
