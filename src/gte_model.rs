//! The register file of the geometry engine as a mathematical value, and the
//! meaning of every register access and command over it.
use vstd::prelude::*;
use vstd::std_specs::bits::u32_leading_zeros;
use crate::command::{CommandConfig, GteError, Opcode};
use crate::divider::{divide_spec, normalize, reciprocal, seed_entry};
use crate::saturate::{
    flag, mac32_flag, otz_flag, otz_of, sat11, sat11_flag, sat16, sat16_flag, truncate44_flag,
    wrap44,
};

verus! {

/// The flag bits whose union is summarised in bit 31.
pub const ERROR_MASK: u32 = 0x7F87_E000;

/// The flag bits that a control register write can set directly.
pub const WRITABLE_FLAGS: u32 = 0x7FFF_F000;

/// A color register: red, green, blue and a code byte.
pub type Rgbx = (u8, u8, u8, u8);

/// The state of the engine.
///
/// `matrices` holds the rotation, light and color matrices (in that order),
/// each 3x3 in row-major order. `control_vectors` holds the translation,
/// background color and far color vectors; the zero vector has no storage.
/// `v` holds the input vectors v0-v3, three components each.
pub struct GteView {
    pub ofx: i32,
    pub ofy: i32,
    pub h: u16,
    pub dqa: i16,
    pub dqb: i32,
    pub zsf3: i16,
    pub zsf4: i16,
    pub matrices: Seq<i16>,
    pub control_vectors: Seq<i32>,
    pub flags: u32,
    pub v: Seq<i16>,
    pub mac: Seq<i32>,
    pub otz: u16,
    pub rgb: Rgbx,
    pub ir: Seq<i16>,
    pub xy_fifo: Seq<(i16, i16)>,
    pub z_fifo: Seq<u16>,
    pub rgb_fifo: Seq<Rgbx>,
    pub lzcs: u32,
    pub lzcr: u8,
    pub reg_23: u32,
}

/// Two signed halves packed into a word, low half first.
pub open spec fn pack(lo: i16, hi: i16) -> u32 {
    (lo as u16 as u32) | ((hi as u16 as u32) << 16u32)
}

/// A screen coordinate pair unpacked from a word.
pub open spec fn unpack_xy(val: u32) -> (i16, i16) {
    (val as i16, (val >> 16u32) as i16)
}

pub open spec fn pack_rgbx(c: Rgbx) -> u32 {
    (c.0 as u32) | ((c.1 as u32) << 8u32) | ((c.2 as u32) << 16u32) | ((c.3 as u32) << 24u32)
}

pub open spec fn unpack_rgbx(val: u32) -> Rgbx {
    (val as u8, (val >> 8u32) as u8, (val >> 16u32) as u8, (val >> 24u32) as u8)
}

/// Channel `i` (0 red, 1 green, 2 blue) of a color.
pub open spec fn channel(c: Rgbx, i: int) -> u8 {
    if i == 0 {
        c.0
    } else if i == 1 {
        c.1
    } else {
        c.2
    }
}

/// `a` shifted right (rounding down) by a command's shift, kept to 32 bits.
pub open spec fn scale(a: int, shift: u8) -> i32 {
    (if shift == 12 {
        a / 4096
    } else {
        a
    }) as i32
}

/// `a` shifted left by a command's shift.
pub open spec fn unscale(a: int, shift: u8) -> int {
    if shift == 12 {
        a * 4096
    } else {
        a
    }
}

/// A 32-bit accumulator turned into a color channel: `mac / 16` clamped to a byte.
pub open spec fn color_of(mac: int) -> int {
    if mac / 16 < 0 {
        0
    } else if mac / 16 > 0xff {
        0xff
    } else {
        mac / 16
    }
}

pub open spec fn color_flag(mac: int, which: int) -> u32 {
    if mac / 16 < 0 || mac / 16 > 0xff {
        flag(21 - which)
    } else {
        0
    }
}

/// `v` clamped to five bits.
pub open spec fn sat5(v: int) -> int {
    if v < 0 {
        0
    } else if v > 0x1f {
        0x1f
    } else {
        v
    }
}

/// Flags with bit 31 set exactly when one of the `ERROR_MASK` bits is.
pub open spec fn summarize(f: u32) -> u32 {
    f | (if f & ERROR_MASK != 0 {
        0x8000_0000u32
    } else {
        0u32
    })
}

/// Bit 31 of `f` is set exactly when one of the `ERROR_MASK` bits is.
pub open spec fn summary_holds(f: u32) -> bool {
    f & 0x8000_0000 == (if f & ERROR_MASK != 0 {
        0x8000_0000u32
    } else {
        0u32
    })
}

/// The leading-zero count that data register 31 reports for a value written to register 30.
pub open spec fn lzc_of(val: u32) -> u8 {
    (if (val >> 31u32) & 1 != 0 {
        u32_leading_zeros(!val)
    } else {
        u32_leading_zeros(val)
    }) as u8
}

impl GteView {
    /// The sequences have the lengths of the register file.
    pub open spec fn wf(self) -> bool {
        &&& self.matrices.len() == 27
        &&& self.control_vectors.len() == 9
        &&& self.v.len() == 12
        &&& self.mac.len() == 4
        &&& self.ir.len() == 4
        &&& self.xy_fifo.len() == 4
        &&& self.z_fifo.len() == 4
        &&& self.rgb_fifo.len() == 3
    }

    /// The state after reset: all zero but the leading-zero result, 32.
    pub open spec fn initial() -> GteView {
        GteView {
            ofx: 0,
            ofy: 0,
            h: 0,
            dqa: 0,
            dqb: 0,
            zsf3: 0,
            zsf4: 0,
            matrices: Seq::new(27, |i: int| 0i16),
            control_vectors: Seq::new(9, |i: int| 0i32),
            flags: 0,
            v: Seq::new(12, |i: int| 0i16),
            mac: Seq::new(4, |i: int| 0i32),
            otz: 0,
            rgb: (0, 0, 0, 0),
            ir: Seq::new(4, |i: int| 0i16),
            xy_fifo: Seq::new(4, |i: int| (0i16, 0i16)),
            z_fifo: Seq::new(4, |i: int| 0u16),
            rgb_fifo: Seq::new(3, |i: int| (0u8, 0u8, 0u8, 0u8)),
            lzcs: 0,
            lzcr: 32,
            reg_23: 0,
        }
    }

    /// Element (r, c) of matrix `m`.
    pub open spec fn matrix_at(self, m: int, r: int, c: int) -> i16 {
        self.matrices[m * 9 + r * 3 + c]
    }

    /// Component `r` of control vector `cv`; the zero vector (3) reads as 0.
    pub open spec fn control_at(self, cv: int, r: int) -> i32 {
        if cv == 3 {
            0
        } else {
            self.control_vectors[cv * 3 + r]
        }
    }

    pub open spec fn vector_at(self, vi: int, c: int) -> i16 {
        self.v[vi * 3 + c]
    }

    pub open spec fn raise(self, m: u32) -> GteView {
        GteView { flags: self.flags | m, ..self }
    }

    pub open spec fn with_mac(self, i: int, x: i32) -> GteView {
        GteView { mac: self.mac.update(i, x), ..self }
    }

    pub open spec fn with_ir(self, i: int, x: i16) -> GteView {
        GteView { ir: self.ir.update(i, x), ..self }
    }

    /// A 44-bit accumulation: the wrapped value, with its flag raised.
    pub open spec fn acc44(self, lane: int, val: int) -> (GteView, int) {
        (self.raise(truncate44_flag(val, lane)), wrap44(val))
    }

    /// A saturation to 16 bits, with its flag raised.
    pub open spec fn sat_ir(self, clamp_negative: bool, lane: int, val: int) -> (GteView, i16) {
        (self.raise(sat16_flag(val, clamp_negative, lane)), sat16(val, clamp_negative) as i16)
    }

    pub open spec fn product(self, m: int, vi: int, r: int, c: int) -> int {
        self.vector_at(vi, c) * self.matrix_at(m, r, c)
    }

    /// Row `r` of matrix `m` times vector `vi`, seeded with control vector `cv`
    /// in Q12 and truncated to 44 bits after each of the three products; the
    /// flags go to lane `r`.
    pub open spec fn row(self, m: int, vi: int, cv: int, r: int) -> (GteView, int) {
        let (s1, a1) = self.acc44(r, self.control_at(cv, r) * 4096 + self.product(m, vi, r, 0));
        let (s2, a2) = s1.acc44(r, a1 + self.product(m, vi, r, 1));
        s2.acc44(r, a2 + self.product(m, vi, r, 2))
    }

    /// MAC1-3 saturated into IR1-3.
    pub open spec fn mac_to_ir(self, clamp_negative: bool) -> GteView {
        let (s1, i1) = self.sat_ir(clamp_negative, 0, self.mac[1] as int);
        let (s2, i2) = s1.with_ir(1, i1).sat_ir(clamp_negative, 1, self.mac[2] as int);
        let (s3, i3) = s2.with_ir(2, i2).sat_ir(clamp_negative, 2, self.mac[3] as int);
        s3.with_ir(3, i3)
    }

    /// The matrix-vector multiply-accumulate into MAC1-3 and IR1-3.
    pub open spec fn multiply(self, cfg: CommandConfig, m: int, vi: int, cv: int) -> GteView {
        let (s1, a1) = self.row(m, vi, cv, 0);
        let (s2, a2) = s1.with_mac(1, scale(a1, cfg.shift)).row(m, vi, cv, 1);
        let (s3, a3) = s2.with_mac(2, scale(a2, cfg.shift)).row(m, vi, cv, 2);
        s3.with_mac(3, scale(a3, cfg.shift)).mac_to_ir(cfg.clamp_negative)
    }

    /// MAC1-3 turned into a color and pushed onto the color FIFO, keeping the code byte.
    pub open spec fn mac_to_rgb_fifo(self) -> GteView {
        let m1 = self.mac[1] as int;
        let m2 = self.mac[2] as int;
        let m3 = self.mac[3] as int;
        let c = (color_of(m1) as u8, color_of(m2) as u8, color_of(m3) as u8, self.rgb.3);
        GteView {
            flags: self.flags | color_flag(m1, 0) | color_flag(m2, 1) | color_flag(m3, 2),
            rgb_fifo: seq![self.rgb_fifo[1], self.rgb_fifo[2], c],
            ..self
        }
    }

    /// v3 loaded from IR1-3.
    pub open spec fn load_ir_vector(self) -> GteView {
        GteView {
            v: self.v.update(9, self.ir[1]).update(10, self.ir[2]).update(11, self.ir[3]),
            ..self
        }
    }

    /// One channel of depth cueing: `source` moved towards the far color by IR0.
    pub open spec fn interpolate_lane(self, cfg: CommandConfig, lane: int, source: int) -> GteView {
        let (s1, t) = self.acc44(lane, self.control_at(2, lane) * 4096 - source);
        let (s2, sat) = s1.sat_ir(false, lane, scale(t, cfg.shift) as int);
        let (s3, res) = s2.acc44(lane, source + self.ir[0] * sat);
        s3.with_mac(lane + 1, scale(res, cfg.shift))
    }

    /// Depth cueing of a color given as the three channel sources.
    pub open spec fn interpolate(self, cfg: CommandConfig, s0: int, s1: int, s2: int) -> GteView {
        self.interpolate_lane(cfg, 0, s0).interpolate_lane(cfg, 1, s1).interpolate_lane(
            cfg,
            2,
            s2,
        ).mac_to_ir(cfg.clamp_negative).mac_to_rgb_fifo()
    }

    /// Depth cueing of color `c`.
    pub open spec fn depth_cue_color(self, cfg: CommandConfig, c: Rgbx) -> GteView {
        self.interpolate(
            cfg,
            channel(c, 0) * 0x1_0000,
            channel(c, 1) * 0x1_0000,
            channel(c, 2) * 0x1_0000,
        )
    }

    /// The color register shaded by IR, channel `i`.
    pub open spec fn shading(self, i: int) -> int {
        (channel(self.rgb, i) * 16) * self.ir[i + 1]
    }

    pub open spec fn dcpl(self, cfg: CommandConfig) -> GteView {
        self.interpolate(cfg, self.shading(0), self.shading(1), self.shading(2))
    }

    pub open spec fn intpl(self, cfg: CommandConfig) -> GteView {
        self.interpolate(cfg, self.ir[1] * 4096, self.ir[2] * 4096, self.ir[3] * 4096)
    }

    /// MAC1-3 set to the shaded color register.
    pub open spec fn modulate(self, cfg: CommandConfig) -> GteView {
        self.with_mac(1, scale(self.shading(0), cfg.shift)).with_mac(
            2,
            scale(self.shading(1), cfg.shift),
        ).with_mac(3, scale(self.shading(2), cfg.shift))
    }

    /// The light matrix times normal `vi`, then the color matrix plus background color.
    pub open spec fn light(self, cfg: CommandConfig, vi: int) -> GteView {
        self.multiply(cfg, 1, vi, 3).load_ir_vector().multiply(cfg, 2, 3, 1)
    }

    pub open spec fn ncc(self, cfg: CommandConfig, vi: int) -> GteView {
        self.light(cfg, vi).modulate(cfg).mac_to_ir(cfg.clamp_negative).mac_to_rgb_fifo()
    }

    pub open spec fn nc(self, cfg: CommandConfig, vi: int) -> GteView {
        self.light(cfg, vi).mac_to_rgb_fifo()
    }

    pub open spec fn ncd(self, cfg: CommandConfig, vi: int) -> GteView {
        self.light(cfg, vi).dcpl(cfg)
    }

    pub open spec fn cc(self, cfg: CommandConfig) -> GteView {
        self.load_ir_vector().multiply(cfg, 2, 3, 1).modulate(cfg).mac_to_ir(
            cfg.clamp_negative,
        ).mac_to_rgb_fifo()
    }

    pub open spec fn mvmva(self, cfg: CommandConfig) -> GteView {
        self.load_ir_vector().multiply(
            cfg,
            cfg.matrix.spec_index(),
            cfg.vector_mul as int,
            cfg.vector_add.spec_index(),
        )
    }

    pub open spec fn nclip(self) -> GteView {
        let (x0, y0) = self.xy_fifo[0];
        let (x1, y1) = self.xy_fifo[1];
        let (x2, y2) = self.xy_fifo[2];
        let sum = x0 * (y1 - y2) + x1 * (y2 - y0) + x2 * (y0 - y1);
        self.raise(mac32_flag(sum)).with_mac(0, sum as i32)
    }

    /// The outer product of IR1-3 with the rotation matrix's diagonal.
    pub open spec fn op(self, cfg: CommandConfig) -> GteView {
        let d0 = self.matrix_at(0, 0, 0);
        let d1 = self.matrix_at(0, 1, 1);
        let d2 = self.matrix_at(0, 2, 2);
        let (i1, i2, i3) = (self.ir[1], self.ir[2], self.ir[3]);
        self.with_mac(1, scale(d1 * i3 - d2 * i2, cfg.shift)).with_mac(
            2,
            scale(d2 * i1 - d0 * i3, cfg.shift),
        ).with_mac(3, scale(d0 * i2 - d1 * i1, cfg.shift)).mac_to_ir(cfg.clamp_negative)
    }

    pub open spec fn sqr(self, cfg: CommandConfig) -> GteView {
        self.with_mac(1, scale(self.ir[1] * self.ir[1], cfg.shift)).with_mac(
            2,
            scale(self.ir[2] * self.ir[2], cfg.shift),
        ).with_mac(3, scale(self.ir[3] * self.ir[3], cfg.shift)).mac_to_ir(cfg.clamp_negative)
    }

    pub open spec fn gpf(self, cfg: CommandConfig) -> GteView {
        self.with_mac(1, scale(self.ir[1] * self.ir[0], cfg.shift)).with_mac(
            2,
            scale(self.ir[2] * self.ir[0], cfg.shift),
        ).with_mac(3, scale(self.ir[3] * self.ir[0], cfg.shift)).mac_to_ir(
            cfg.clamp_negative,
        ).mac_to_rgb_fifo()
    }

    /// MAC lane `i` (1-3) plus IR`i` times IR0, truncated to 44 bits.
    pub open spec fn gpl_lane(self, cfg: CommandConfig, i: int) -> GteView {
        let (s, sum) = self.acc44(
            i - 1,
            unscale(self.mac[i] as int, cfg.shift) + self.ir[i] * self.ir[0],
        );
        s.with_mac(i, scale(sum, cfg.shift))
    }

    pub open spec fn gpl(self, cfg: CommandConfig) -> GteView {
        self.gpl_lane(cfg, 1).gpl_lane(cfg, 2).gpl_lane(cfg, 3).mac_to_ir(
            cfg.clamp_negative,
        ).mac_to_rgb_fifo()
    }

    /// MAC0 and the ordering value from a scaled depth sum.
    pub open spec fn average_z(self, average: int) -> GteView {
        GteView {
            otz: otz_of(average) as u16,
            ..self.raise(mac32_flag(average)).with_mac(0, average as i32).raise(otz_flag(average))
        }
    }

    pub open spec fn avsz3(self) -> GteView {
        self.average_z(self.zsf3 * (self.z_fifo[1] + self.z_fifo[2] + self.z_fifo[3]))
    }

    pub open spec fn avsz4(self) -> GteView {
        self.average_z(
            self.zsf4 * (self.z_fifo[0] + self.z_fifo[1] + self.z_fifo[2] + self.z_fifo[3]),
        )
    }

    /// The perspective transform of vector `vi`, and its projection factor.
    pub open spec fn rtp(self, cfg: CommandConfig, vi: int) -> (GteView, u32) {
        let (s1, a1) = self.row(0, vi, 0, 0);
        let (s2, a2) = s1.with_mac(1, scale(a1, cfg.shift)).row(0, vi, 0, 1);
        let (s3, a3) = s2.with_mac(2, scale(a2, cfg.shift)).row(0, vi, 0, 2);
        let s3 = s3.with_mac(3, scale(a3, cfg.shift));
        let z = (a3 / 4096) as i32;
        let (s4, i1) = s3.sat_ir(cfg.clamp_negative, 0, s3.mac[1] as int);
        let (s5, i2) = s4.with_ir(1, i1).sat_ir(cfg.clamp_negative, 1, s3.mac[2] as int);
        let s5 = s5.with_ir(2, i2);
        let s6 = if z > 0x7fff || z < -0x8000 {
            s5.raise(flag(22))
        } else {
            s5
        };
        let s7 = s6.with_ir(3, sat16(s3.mac[3] as int, cfg.clamp_negative) as i16);
        let zs: u16 = if z < 0 {
            0
        } else if z > 0xffff {
            0xffff
        } else {
            z as u16
        };
        let s8 = if z < 0 || z > 0xffff {
            s7.raise(flag(18))
        } else {
            s7
        };
        let s9 = GteView { z_fifo: seq![s8.z_fifo[1], s8.z_fifo[2], s8.z_fifo[3], zs], ..s8 };
        let factor: u32 = if zs > self.h / 2 {
            divide_spec(self.h as int, zs as int) as u32
        } else {
            0x1ffff
        };
        let s10 = if zs > self.h / 2 {
            s9
        } else {
            s9.raise(flag(17))
        };
        let sx = i1 * factor + self.ofx;
        let sy = i2 * factor + self.ofy;
        let x = (sx / 0x1_0000) as i32;
        let y = (sy / 0x1_0000) as i32;
        let s11 = s10.raise(mac32_flag(sx)).raise(mac32_flag(sy)).raise(sat11_flag(x as int, 0)).raise(
            sat11_flag(y as int, 1),
        );
        let xy = (sat11(x as int) as i16, sat11(y as int) as i16);
        (GteView { xy_fifo: seq![s11.xy_fifo[1], s11.xy_fifo[2], xy, xy], ..s11 }, factor)
    }

    /// MAC0 and IR0 from the depth-cue coefficients and a projection factor.
    pub open spec fn depth_queuing(self, factor: u32) -> GteView {
        let depth = self.dqb + self.dqa * factor;
        let d = depth / 4096;
        let s = self.raise(mac32_flag(depth)).with_mac(0, depth as i32);
        if d < 0 {
            s.raise(flag(12)).with_ir(0, 0)
        } else if d > 4096 {
            s.raise(flag(12)).with_ir(0, 4096)
        } else {
            s.with_ir(0, d as i16)
        }
    }

    pub open spec fn rtps(self, cfg: CommandConfig) -> GteView {
        let (s, f) = self.rtp(cfg, 0);
        s.depth_queuing(f)
    }

    pub open spec fn rtpt(self, cfg: CommandConfig) -> GteView {
        let (s, f) = self.rtp(cfg, 0).0.rtp(cfg, 1).0.rtp(cfg, 2);
        s.depth_queuing(f)
    }

    /// The routine `op` run on this state (flags not yet summarised).
    pub open spec fn run(self, op: Opcode, cfg: CommandConfig) -> GteView {
        match op {
            Opcode::Rtps => self.rtps(cfg),
            Opcode::Nclip => self.nclip(),
            Opcode::Op => self.op(cfg),
            Opcode::Dpcs => self.depth_cue_color(cfg, self.rgb),
            Opcode::Intpl => self.intpl(cfg),
            Opcode::Mvmva => self.mvmva(cfg),
            Opcode::Ncds => self.ncd(cfg, 0),
            Opcode::Ncdt => self.ncd(cfg, 0).ncd(cfg, 1).ncd(cfg, 2),
            Opcode::Nccs => self.ncc(cfg, 0),
            Opcode::Cc => self.cc(cfg),
            Opcode::Ncs => self.nc(cfg, 0),
            Opcode::Nct => self.nc(cfg, 0).nc(cfg, 1).nc(cfg, 2),
            Opcode::Sqr => self.sqr(cfg),
            Opcode::Dcpl => self.dcpl(cfg),
            Opcode::Dpct => {
                let s1 = self.depth_cue_color(cfg, self.rgb_fifo[0]);
                let s2 = s1.depth_cue_color(cfg, s1.rgb_fifo[0]);
                s2.depth_cue_color(cfg, s2.rgb_fifo[0])
            },
            Opcode::Avsz3 => self.avsz3(),
            Opcode::Avsz4 => self.avsz4(),
            Opcode::Rtpt => self.rtpt(cfg),
            Opcode::Gpf => self.gpf(cfg),
            Opcode::Gpl => self.gpl(cfg),
            Opcode::Ncct => self.ncc(cfg, 0).ncc(cfg, 1).ncc(cfg, 2),
        }
    }

    /// The outcome of the command word `word`: the next state, or the decode error.
    pub open spec fn command(self, word: u32) -> Result<GteView, GteError> {
        match Opcode::spec_decode(word & 0x3f) {
            Err(e) => Err(e),
            Ok(op) => {
                let cfg = CommandConfig::spec_from_command(word);
                if op == Opcode::Mvmva && !cfg.multiply_allowed() {
                    Err(GteError::InvalidOperandSelection)
                } else {
                    let s = GteView { flags: 0, ..self }.run(op, cfg);
                    Ok(GteView { flags: summarize(s.flags), ..s })
                }
            },
        }
    }

    /// The value of control register `reg` (0..=31).
    pub open spec fn control_value(self, reg: int) -> u32 {
        if reg < 24 {
            let base = (reg / 8) * 9;
            let k = reg % 8;
            if k < 4 {
                pack(self.matrices[base + 2 * k], self.matrices[base + 2 * k + 1])
            } else if k == 4 {
                self.matrices[base + 8] as u32
            } else {
                self.control_vectors[(reg / 8) * 3 + k - 5] as u32
            }
        } else if reg == 24 {
            self.ofx as u32
        } else if reg == 25 {
            self.ofy as u32
        } else if reg == 26 {
            self.h as i16 as u32
        } else if reg == 27 {
            self.dqa as u32
        } else if reg == 28 {
            self.dqb as u32
        } else if reg == 29 {
            self.zsf3 as u32
        } else if reg == 30 {
            self.zsf4 as u32
        } else {
            self.flags
        }
    }

    /// The state after writing `val` to control register `reg` (0..=31).
    pub open spec fn with_control(self, reg: int, val: u32) -> GteView {
        if reg < 24 {
            let base = (reg / 8) * 9;
            let k = reg % 8;
            if k < 4 {
                GteView {
                    matrices: self.matrices.update(base + 2 * k, val as i16).update(
                        base + 2 * k + 1,
                        (val >> 16u32) as i16,
                    ),
                    ..self
                }
            } else if k == 4 {
                GteView { matrices: self.matrices.update(base + 8, val as i16), ..self }
            } else {
                GteView {
                    control_vectors: self.control_vectors.update((reg / 8) * 3 + k - 5, val as i32),
                    ..self
                }
            }
        } else if reg == 24 {
            GteView { ofx: val as i32, ..self }
        } else if reg == 25 {
            GteView { ofy: val as i32, ..self }
        } else if reg == 26 {
            GteView { h: val as u16, ..self }
        } else if reg == 27 {
            GteView { dqa: val as i16, ..self }
        } else if reg == 28 {
            GteView { dqb: val as i32, ..self }
        } else if reg == 29 {
            GteView { zsf3: val as i16, ..self }
        } else if reg == 30 {
            GteView { zsf4: val as i16, ..self }
        } else {
            GteView { flags: summarize(val & WRITABLE_FLAGS), ..self }
        }
    }

    /// IR1-3 reduced to five bits each and packed, as data registers 28 and 29 read.
    pub open spec fn packed_ir(self) -> u32 {
        (sat5(self.ir[1] / 128) as u32) | ((sat5(self.ir[2] / 128) as u32) << 5u32) | ((sat5(
            self.ir[3] / 128,
        ) as u32) << 10u32)
    }

    /// The value of data register `reg` (0..=31).
    pub open spec fn data_value(self, reg: int) -> u32 {
        if reg < 6 {
            let base = (reg / 2) * 3;
            if reg % 2 == 0 {
                pack(self.v[base], self.v[base + 1])
            } else {
                self.v[base + 2] as u32
            }
        } else if reg == 6 {
            pack_rgbx(self.rgb)
        } else if reg == 7 {
            self.otz as u32
        } else if reg < 12 {
            self.ir[reg - 8] as u32
        } else if reg < 16 {
            pack(self.xy_fifo[reg - 12].0, self.xy_fifo[reg - 12].1)
        } else if reg < 20 {
            self.z_fifo[reg - 16] as u32
        } else if reg < 23 {
            pack_rgbx(self.rgb_fifo[reg - 20])
        } else if reg == 23 {
            self.reg_23
        } else if reg < 28 {
            self.mac[reg - 24] as u32
        } else if reg < 30 {
            self.packed_ir()
        } else if reg == 30 {
            self.lzcs
        } else {
            self.lzcr as u32
        }
    }

    /// The state after writing `val` to data register `reg` (0..=31).
    pub open spec fn with_data(self, reg: int, val: u32) -> GteView {
        if reg < 6 {
            let base = (reg / 2) * 3;
            if reg % 2 == 0 {
                GteView {
                    v: self.v.update(base, val as i16).update(base + 1, (val >> 16u32) as i16),
                    ..self
                }
            } else {
                GteView { v: self.v.update(base + 2, val as i16), ..self }
            }
        } else if reg == 6 {
            GteView { rgb: unpack_rgbx(val), ..self }
        } else if reg == 7 {
            GteView { otz: val as u16, ..self }
        } else if reg < 12 {
            self.with_ir(reg - 8, val as i16)
        } else if reg < 14 {
            GteView { xy_fifo: self.xy_fifo.update(reg - 12, unpack_xy(val)), ..self }
        } else if reg == 14 {
            GteView {
                xy_fifo: self.xy_fifo.update(2, unpack_xy(val)).update(3, unpack_xy(val)),
                ..self
            }
        } else if reg == 15 {
            GteView {
                xy_fifo: seq![self.xy_fifo[1], self.xy_fifo[2], self.xy_fifo[3], unpack_xy(val)],
                ..self
            }
        } else if reg < 20 {
            GteView { z_fifo: self.z_fifo.update(reg - 16, val as u16), ..self }
        } else if reg < 23 {
            GteView { rgb_fifo: self.rgb_fifo.update(reg - 20, unpack_rgbx(val)), ..self }
        } else if reg == 23 {
            GteView { reg_23: val, ..self }
        } else if reg < 28 {
            self.with_mac(reg - 24, val as i32)
        } else if reg == 28 {
            self.with_ir(1, ((val & 0x1f) << 7u32) as i16).with_ir(
                2,
                (((val >> 5u32) & 0x1f) << 7u32) as i16,
            ).with_ir(3, (((val >> 10u32) & 0x1f) << 7u32) as i16)
        } else if reg == 30 {
            GteView { lzcs: val, lzcr: lzc_of(val), ..self }
        } else {
            self
        }
    }
}

/// What control register `reg` reads back after `val` was written to it.
pub open spec fn control_written(reg: int, val: u32) -> u32 {
    if reg < 24 {
        if reg % 8 == 4 {
            val as i16 as u32
        } else {
            val
        }
    } else if reg == 24 || reg == 25 || reg == 28 {
        val
    } else if reg == 26 {
        val as u16 as i16 as u32
    } else if reg < 31 {
        val as i16 as u32
    } else {
        summarize(val & WRITABLE_FLAGS)
    }
}

/// Writing a control register and reading it back gives the written word
/// rebuilt from the register's fields: the word itself for packed matrix pairs
/// and 32-bit registers, the sign-extended low half for 16-bit ones, and the
/// writable flag bits with their summary bit for register 31.
pub proof fn lemma_control_round_trip(s: GteView, reg: int, val: u32)
    requires
        s.wf(),
        0 <= reg < 32,
    ensures
        s.with_control(reg, val).control_value(reg) == control_written(reg, val),
{
    assert(pack(val as i16, (val >> 16u32) as i16) == val) by (bit_vector);
    assert((val as i32) as u32 == val) by (bit_vector);
}

/// Writing data register 14 stores the pair in XY slots 2 and 3 and keeps
/// slots 0 and 1; writing register 15 pushes it: the former slots 1-3 move
/// down into slots 0-2 and slot 3 receives the pair.
pub proof fn lemma_xy_fifo_writes(s: GteView, val: u32)
    requires
        s.wf(),
    ensures
        s.with_data(14, val).xy_fifo =~= seq![s.xy_fifo[0], s.xy_fifo[1], unpack_xy(val), unpack_xy(val)],
        s.with_data(15, val).xy_fifo =~= seq![s.xy_fifo[1], s.xy_fifo[2], s.xy_fifo[3], unpack_xy(val)],
{
}

/// A data register written with `val` and read back: input vector pairs, the
/// color and FIFO words, MAC and the scratch word keep the whole word.
pub proof fn lemma_data_round_trip(s: GteView, reg: int, val: u32)
    requires
        s.wf(),
        0 <= reg < 32,
        reg == 0 || reg == 2 || reg == 4 || reg == 6 || (12 <= reg < 14) || (20 <= reg < 28),
    ensures
        s.with_data(reg, val).data_value(reg) == val,
{
    assert(pack(val as i16, (val >> 16u32) as i16) == val) by (bit_vector);
    assert(pack_rgbx(unpack_rgbx(val)) == val) by (bit_vector);
    assert((val as i32) as u32 == val) by (bit_vector);
}

/// The rotation matrix is the identity in Q12 and the translation is zero.
pub open spec fn identity_transform(s: GteView) -> bool {
    &&& forall|r: int, c: int|
        0 <= r < 3 && 0 <= c < 3 ==> #[trigger] s.matrix_at(0, r, c) == (if r == c {
            0x1000i16
        } else {
            0i16
        })
    &&& s.control_vectors[0] == 0 && s.control_vectors[1] == 0 && s.control_vectors[2] == 0
}

/// The perspective transform of v0 = (0, 0, 200) under the identity rotation,
/// zero translation and offsets, `h = 100` and a 12-bit shift puts depth 200
/// into Z slot 3, returns the projection factor `divide(100, 200)`, places the
/// point at screen (0, 0) and raises no flag.
pub proof fn lemma_rtp_identity_projection(s: GteView, cfg: CommandConfig)
    requires
        s.wf(),
        identity_transform(s),
        s.h == 100,
        s.ofx == 0,
        s.ofy == 0,
        s.v[0] == 0 && s.v[1] == 0 && s.v[2] == 200,
        cfg.shift == 12,
    ensures
        s.rtp(cfg, 0).1 as int == divide_spec(100, 200),
        s.rtp(cfg, 0).0.z_fifo[3] == 200,
        s.rtp(cfg, 0).0.xy_fifo[3] == (0i16, 0i16),
        s.rtp(cfg, 0).0.flags == s.flags,
{
    assert(s.matrix_at(0, 0, 0) == 0x1000i16);
    assert(s.matrix_at(0, 0, 1) == 0i16);
    assert(s.matrix_at(0, 0, 2) == 0i16);
    assert(s.matrix_at(0, 1, 0) == 0i16);
    assert(s.matrix_at(0, 1, 1) == 0x1000i16);
    assert(s.matrix_at(0, 1, 2) == 0i16);
    assert(s.matrix_at(0, 2, 0) == 0i16);
    assert(s.matrix_at(0, 2, 1) == 0i16);
    assert(s.matrix_at(0, 2, 2) == 0x1000i16);
    assert(wrap44(0) == 0);
    assert(wrap44(819200) == 819200);
    assert(truncate44_flag(0, 0) == 0 && truncate44_flag(0, 1) == 0);
    assert(truncate44_flag(0, 2) == 0 && truncate44_flag(819200, 2) == 0);
    assert(scale(0, 12) == 0i32) by {
        assert(0int as i32 == 0i32) by (bit_vector);
    }
    assert(scale(819200, 12) == 200i32) by {
        assert(200int as i32 == 200i32) by (bit_vector);
    }
    assert(((819200int / 4096) as i32) == 200i32) by {
        assert(200int as i32 == 200i32) by (bit_vector);
    }
    assert(200i32 as u16 == 200u16) by (bit_vector);
    assert(0int as i32 == 0i32) by (bit_vector);
    assert(sat16(0, cfg.clamp_negative) as i16 == 0i16) by {
        assert(0int as i16 == 0i16) by (bit_vector);
    }
    assert(divide_spec(100, 200) as u32 as int == divide_spec(100, 200)) by {
        reveal_with_fuel(normalize, 9);
        assert(normalize(100, 200) == (25600int, 51200int));
        assert((51200int - 0x7fc0int) / 128int == 144int) by (nonlinear_arith);
        assert(0x40000int / (144int + 0x100int) == 655int) by (nonlinear_arith);
        assert((655int + 1) / 2 == 328) by (nonlinear_arith);
        assert(seed_entry(144) == 71);
        assert((0x200_0080int - 51200 * 328) / 256 == 65472) by (nonlinear_arith);
        assert((0x80int + 65472 * 328) / 256 == 83886) by (nonlinear_arith);
        assert(reciprocal(51200) == 83886);
        assert((25600int * 83886 + 0x8000) / 0x1_0000 == 32768) by (nonlinear_arith);
        assert(divide_spec(100, 200) == 32768);
        assert(32768int as u32 == 32768u32) by (bit_vector);
    }
    assert(sat11(0) as i16 == 0i16) by {
        assert(0int as i16 == 0i16) by (bit_vector);
    }
    assert(forall|f: u32| #[trigger] (f | 0u32) == f) by {
        assert(forall|f: u32| #[trigger] (f | 0u32) == f) by (bit_vector);
    }
}

} // verus!
