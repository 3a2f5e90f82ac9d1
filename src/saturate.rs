//! Width conversions of the geometry engine: each one clamps or wraps a value
//! and reports, as a flag mask, the single flag bit that an out-of-range input sets.
use vstd::prelude::*;

verus! {

/// The flag register mask with only bit `n` set.
pub open spec fn flag(n: int) -> u32 {
    1u32 << (n as u32)
}

/// The low 44 bits of `v`, read back as a signed 44-bit value.
pub open spec fn wrap44(v: int) -> int {
    (v + 0x800_0000_0000) % 0x1000_0000_0000 - 0x800_0000_0000
}

/// Flag set by a 44-bit truncation: bit `30 - lane` above the positive range,
/// bit `27 - lane` below -2^44.
pub open spec fn truncate44_flag(v: int, lane: int) -> u32 {
    if v > 0x7ff_ffff_ffff {
        flag(30 - lane)
    } else if v < -0x1000_0000_0000 {
        flag(27 - lane)
    } else {
        0
    }
}

/// Lower bound of the 16-bit saturation.
pub open spec fn sat16_min(clamp_negative: bool) -> int {
    if clamp_negative {
        0
    } else {
        -0x8000
    }
}

/// `v` clamped to `[0, 32767]` or `[-32768, 32767]`.
pub open spec fn sat16(v: int, clamp_negative: bool) -> int {
    if v > 0x7fff {
        0x7fff
    } else if v < sat16_min(clamp_negative) {
        sat16_min(clamp_negative)
    } else {
        v
    }
}

pub open spec fn sat16_flag(v: int, clamp_negative: bool, lane: int) -> u32 {
    if v > 0x7fff || v < sat16_min(clamp_negative) {
        flag(24 - lane)
    } else {
        0
    }
}

/// `v` clamped to the screen range `[-1024, 1023]`.
pub open spec fn sat11(v: int) -> int {
    if v < -0x400 {
        -0x400
    } else if v > 0x3ff {
        0x3ff
    } else {
        v
    }
}

pub open spec fn sat11_flag(v: int, lane: int) -> u32 {
    if v < -0x400 || v > 0x3ff {
        flag(14 - lane)
    } else {
        0
    }
}

/// Flag of a 32-bit accumulator check: bit 15 below, bit 16 above the signed 32-bit range.
pub open spec fn mac32_flag(v: int) -> u32 {
    if v < -0x8000_0000 {
        flag(15)
    } else if v > 0x7fff_ffff {
        flag(16)
    } else {
        0
    }
}

/// The ordering value: `v / 4096` clamped to `[0, 65535]`.
pub open spec fn otz_of(v: int) -> int {
    if v / 4096 < 0 {
        0
    } else if v / 4096 > 0xffff {
        0xffff
    } else {
        v / 4096
    }
}

pub open spec fn otz_flag(v: int) -> u32 {
    if v / 4096 < 0 || v / 4096 > 0xffff {
        flag(18)
    } else {
        0
    }
}

/// The mask of flag bit `bit`.
pub fn flag_mask(bit: u8) -> (r: u32)
    requires
        bit < 32,
    ensures
        r == flag(bit as int),
        bit < 31 ==> r < 0x8000_0000,
{
    let b = bit as u32;
    assert(b < 31 ==> (1u32 << b) < 0x8000_0000) by (bit_vector);
    1u32 << b
}

/// Truncates `val` to 44 bits, sign-extended.
pub fn truncate44(val: i64, lane: u8) -> (r: (i64, u32))
    requires
        lane < 3,
    ensures
        r.0 as int == wrap44(val as int),
        r.1 == truncate44_flag(val as int, lane as int),
        r.1 < 0x8000_0000,
        -0x800_0000_0000 <= r.0 < 0x800_0000_0000,
{
    let f = if val > 0x7ff_ffff_ffff {
        flag_mask(30 - lane)
    } else if val < -0x1000_0000_0000 {
        flag_mask(27 - lane)
    } else {
        0
    };
    let t: i128 = val as i128 + 0x1_0000_0800_0000_0000i128;
    let m: i128 = t % 0x1000_0000_0000i128;
    assert(t as int % 0x1000_0000_0000 == (val as int + 0x800_0000_0000) % 0x1000_0000_0000) by {
        vstd::arithmetic::div_mod::lemma_mod_add_multiples_vanish(
            val as int + 0x800_0000_0000,
            0x1000_0000_0000,
        );
    }
    ((m - 0x800_0000_0000i128) as i64, f)
}

/// Saturates a 32-bit value to 16 bits; negative values clamp to 0 in `clamp_negative` mode.
pub fn saturate16(val: i32, clamp_negative: bool, lane: u8) -> (r: (i16, u32))
    requires
        lane < 3,
    ensures
        r.0 as int == sat16(val as int, clamp_negative),
        r.1 == sat16_flag(val as int, clamp_negative, lane as int),
        r.1 < 0x8000_0000,
{
    let min: i32 = if clamp_negative {
        0
    } else {
        -0x8000
    };
    if val > 0x7fff {
        (0x7fff, flag_mask(24 - lane))
    } else if val < min {
        (min as i16, flag_mask(24 - lane))
    } else {
        (val as i16, 0)
    }
}

/// Saturates a 32-bit value to the 11-bit screen range.
pub fn saturate11(val: i32, lane: u8) -> (r: (i16, u32))
    requires
        lane < 2,
    ensures
        r.0 as int == sat11(val as int),
        r.1 == sat11_flag(val as int, lane as int),
        r.1 < 0x8000_0000,
{
    if val < -0x400 {
        (-0x400, flag_mask(14 - lane))
    } else if val > 0x3ff {
        (0x3ff, flag_mask(14 - lane))
    } else {
        (val as i16, 0)
    }
}

/// Reports whether a wide intermediate leaves the signed 32-bit range; no clamping.
pub fn mac32_overflow(val: i64) -> (r: u32)
    ensures
        r == mac32_flag(val as int),
        r < 0x8000_0000,
{
    if val < -0x8000_0000 {
        flag_mask(15)
    } else if val > 0x7fff_ffff {
        flag_mask(16)
    } else {
        0
    }
}

/// Converts a scaled depth average into the ordering value.
pub fn to_otz(average: i64) -> (r: (u16, u32))
    ensures
        r.0 as int == otz_of(average as int),
        r.1 == otz_flag(average as int),
        r.1 < 0x8000_0000,
{
    if average < 0 {
        assert(average as int / 4096 < 0);
        (0, flag_mask(18))
    } else {
        let value = average / 4096;
        if value > 0xffff {
            (0xffff, flag_mask(18))
        } else {
            (value as u16, 0)
        }
    }
}

/// Truncation to 44 bits keeps every value of the signed 44-bit range and flags
/// none of them; 2^43 itself sets the overflow bit of its lane and wraps to -2^43.
pub proof fn lemma_truncate44_in_range(v: int, lane: int)
    requires
        0 <= lane < 3,
    ensures
        -0x800_0000_0000 <= v <= 0x7ff_ffff_ffff ==> wrap44(v) == v && truncate44_flag(v, lane) == 0,
        v == 0x800_0000_0000 ==> truncate44_flag(v, lane) == flag(30 - lane) && wrap44(v) == -0x800_0000_0000,
{
    if -0x800_0000_0000 <= v <= 0x7ff_ffff_ffff {
        vstd::arithmetic::div_mod::lemma_small_mod((v + 0x800_0000_0000) as nat, 0x1000_0000_0000);
    }
}

/// Truncation to 44 bits is idempotent.
pub proof fn lemma_truncate44_idempotent(v: int)
    ensures
        wrap44(wrap44(v)) == wrap44(v),
        -0x800_0000_0000 <= wrap44(v) < 0x800_0000_0000,
{
    let w = wrap44(v);
    assert(0 <= (v + 0x800_0000_0000) % 0x1000_0000_0000 < 0x1000_0000_0000);
    vstd::arithmetic::div_mod::lemma_small_mod((w + 0x800_0000_0000) as nat, 0x1000_0000_0000);
}

} // verus!
