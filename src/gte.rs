//! The geometry transformation engine: register file, register interface and commands.
use vstd::prelude::*;
use crate::command::{CommandConfig, ControlVector, GteError, Matrix, Opcode};
use crate::divider::divide;
use crate::gte_model::{
    channel, color_flag, color_of, pack, pack_rgbx, scale, summarize, summary_holds, unpack_rgbx,
    unpack_xy, unscale, GteView, Rgbx, ERROR_MASK, WRITABLE_FLAGS, control_written,
    lemma_control_round_trip, lemma_data_round_trip,
};
use crate::saturate::{
    flag, flag_mask, mac32_overflow, saturate11, saturate16, to_otz, truncate44,
};

verus! {

/// The coprocessor's registers.
#[derive(Debug)]
pub struct Gte {
    ofx: i32,
    ofy: i32,
    h: u16,
    dqa: i16,
    dqb: i32,
    zsf3: i16,
    zsf4: i16,
    /// Rotation, light and color matrices, 3x3 each, row-major.
    matrices: [i16; 27],
    /// Translation, background color and far color vectors.
    control_vectors: [i32; 9],
    flags: u32,
    /// Input vectors v0-v3.
    v: [i16; 12],
    mac: [i32; 4],
    otz: u16,
    rgb: Rgbx,
    ir: [i16; 4],
    xy_fifo: [(i16, i16); 4],
    z_fifo: [u16; 4],
    rgb_fifo: [Rgbx; 3],
    lzcs: u32,
    lzcr: u8,
    reg_23: u32,
}

impl View for Gte {
    type V = GteView;

    closed spec fn view(&self) -> GteView {
        GteView {
            ofx: self.ofx,
            ofy: self.ofy,
            h: self.h,
            dqa: self.dqa,
            dqb: self.dqb,
            zsf3: self.zsf3,
            zsf4: self.zsf4,
            matrices: self.matrices@,
            control_vectors: self.control_vectors@,
            flags: self.flags,
            v: self.v@,
            mac: self.mac@,
            otz: self.otz,
            rgb: self.rgb,
            ir: self.ir@,
            xy_fifo: self.xy_fifo@,
            z_fifo: self.z_fifo@,
            rgb_fifo: self.rgb_fifo@,
            lzcs: self.lzcs,
            lzcr: self.lzcr,
            reg_23: self.reg_23,
        }
    }
}

/// Bounds a product from bounds on its factors.
proof fn lemma_mul_bound(a: int, b: int, ma: int, mb: int)
    requires
        -ma <= a <= ma,
        -mb <= b <= mb,
    ensures
        -(ma * mb) <= a * b <= ma * mb,
{
    assert(-(ma * mb) <= a * b <= ma * mb) by (nonlinear_arith)
        requires
            -ma <= a <= ma,
            -mb <= b <= mb,
    ;
}

/// `a` shifted right by a command's shift (0 or 12), kept to 32 bits.
fn scale_down(a: i64, shift: u8) -> (r: i32)
    requires
        shift == 0 || shift == 12,
    ensures
        r == scale(a as int, shift),
{
    if shift == 12 {
        assert((a >> 12u32) as int == a as int / 4096) by (bit_vector);
        (a >> 12u32) as i32
    } else {
        a as i32
    }
}

/// The arithmetic right shift of `a` by 4, 7, 12 or 16 bits.
fn shift_right(a: i64, n: u32) -> (r: i64)
    requires
        n == 4 || n == 7 || n == 12 || n == 16,
    ensures
        n == 4 ==> r as int == a as int / 16,
        n == 7 ==> r as int == a as int / 128,
        n == 12 ==> r as int == a as int / 4096,
        n == 16 ==> r as int == a as int / 0x1_0000,
{
    if n == 4 {
        assert((a >> 4u32) as int == a as int / 16) by (bit_vector);
    } else if n == 7 {
        assert((a >> 7u32) as int == a as int / 128) by (bit_vector);
    } else if n == 12 {
        assert((a >> 12u32) as int == a as int / 4096) by (bit_vector);
    } else {
        assert((a >> 16u32) as int == a as int / 0x1_0000) by (bit_vector);
    }
    a >> n
}

/// The product of two 16-bit values.
fn mul16(a: i16, b: i16) -> (r: i64)
    ensures
        r == a * b,
        -0x4000_0000 <= r <= 0x4000_0000,
{
    proof {
        lemma_mul_bound(a as int, b as int, 0x8000, 0x8000);
    }
    a as i64 * b as i64
}

/// `v` clamped to five bits.
fn saturate5(v: i64) -> (r: u32)
    ensures
        r == crate::gte_model::sat5(v as int) as u32,
{
    if v < 0 {
        0
    } else if v > 0x1f {
        0x1f
    } else {
        v as u32
    }
}

/// The low five bits of `v` scaled into an IR value.
fn five_bits_to_ir(v: u32) -> (r: i16)
    ensures
        r == ((v & 0x1f) << 7u32) as i16,
{
    ((v & 0x1f) << 7u32) as i16
}

fn pack_pair(lo: i16, hi: i16) -> (r: u32)
    ensures
        r == pack(lo, hi),
{
    (lo as u16 as u32) | ((hi as u16 as u32) << 16u32)
}

fn unpack_pair(val: u32) -> (r: (i16, i16))
    ensures
        r == unpack_xy(val),
{
    (val as i16, (val >> 16u32) as i16)
}

fn rgbx_to_u32(c: Rgbx) -> (r: u32)
    ensures
        r == pack_rgbx(c),
{
    (c.0 as u32) | ((c.1 as u32) << 8u32) | ((c.2 as u32) << 16u32) | ((c.3 as u32) << 24u32)
}

fn u32_to_rgbx(val: u32) -> (r: Rgbx)
    ensures
        r == unpack_rgbx(val),
{
    (val as u8, (val >> 8u32) as u8, (val >> 16u32) as u8, (val >> 24u32) as u8)
}

fn color_channel(c: Rgbx, i: usize) -> (r: u8)
    requires
        i < 3,
    ensures
        r == channel(c, i as int),
{
    if i == 0 {
        c.0
    } else if i == 1 {
        c.1
    } else {
        c.2
    }
}

impl Gte {
    /// The view of every engine has the lengths of the register file.
    pub proof fn lemma_wf(&self)
        ensures
            self@.wf(),
    {
    }

    /// After `set_control(reg, val)`, control register `reg` reads back the
    /// written word rebuilt from its fields (see `control_written`).
    pub proof fn lemma_set_control_reads_back(before: &Gte, after: &Gte, reg: u32, val: u32)
        requires
            reg < 32,
            after@ == before@.with_control(reg as int, val),
        ensures
            after@.control_value(reg as int) == control_written(reg as int, val),
    {
        before.lemma_wf();
        lemma_control_round_trip(before@, reg as int, val);
    }

    /// After `set_data(reg, val)` on an input vector pair, the color, an XY
    /// slot below 14, a color FIFO entry, the scratch word or a MAC, data
    /// register `reg` reads back `val`.
    pub proof fn lemma_set_data_reads_back(before: &Gte, after: &Gte, reg: u32, val: u32)
        requires
            reg == 0 || reg == 2 || reg == 4 || reg == 6 || (12 <= reg < 14) || (20 <= reg < 28),
            after@ == before@.with_data(reg as int, val),
        ensures
            after@.data_value(reg as int) == val,
    {
        before.lemma_wf();
        lemma_data_round_trip(before@, reg as int, val);
    }

    /// The engine after reset.
    pub fn new() -> (r: Gte)
        ensures
            r@ == GteView::initial(),
    {
        let r = Gte {
            ofx: 0,
            ofy: 0,
            h: 0,
            dqa: 0,
            dqb: 0,
            zsf3: 0,
            zsf4: 0,
            matrices: [0; 27],
            control_vectors: [0; 9],
            flags: 0,
            v: [0; 12],
            mac: [0; 4],
            otz: 0,
            rgb: (0, 0, 0, 0),
            ir: [0; 4],
            xy_fifo: [(0, 0); 4],
            z_fifo: [0; 4],
            rgb_fifo: [(0, 0, 0, 0); 3],
            lzcs: 0,
            lzcr: 32,
            reg_23: 0,
        };
        let ghost init = GteView::initial();
        assert(r@.matrices =~= init.matrices);
        assert(r@.control_vectors =~= init.control_vectors);
        assert(r@.v =~= init.v);
        assert(r@.mac =~= init.mac);
        assert(r@.ir =~= init.ir);
        assert(r@.xy_fifo =~= init.xy_fifo);
        assert(r@.z_fifo =~= init.z_fifo);
        assert(r@.rgb_fifo =~= init.rgb_fifo);
        r
    }

    fn raise(&mut self, m: u32)
        requires
            m < 0x8000_0000,
        ensures
            final(self)@ == old(self)@.raise(m),
            old(self)@.flags < 0x8000_0000 ==> final(self)@.flags < 0x8000_0000,
    {
        let f = self.flags;
        assert(f < 0x8000_0000 && m < 0x8000_0000 ==> f | m < 0x8000_0000) by (bit_vector);
        self.flags = f | m;
    }

    fn set_flag(&mut self, bit: u8)
        requires
            bit < 31,
        ensures
            final(self)@ == old(self)@.raise(flag(bit as int)),
            old(self)@.flags < 0x8000_0000 ==> final(self)@.flags < 0x8000_0000,
    {
        let m = flag_mask(bit);
        self.raise(m);
    }

    fn set_mac(&mut self, i: usize, x: i32)
        requires
            i < 4,
        ensures
            final(self)@ == old(self)@.with_mac(i as int, x),
    {
        self.mac[i] = x;
        assert(self@.mac =~= old(self)@.mac.update(i as int, x));
    }

    fn set_ir(&mut self, i: usize, x: i16)
        requires
            i < 4,
        ensures
            final(self)@ == old(self)@.with_ir(i as int, x),
    {
        self.ir[i] = x;
        assert(self@.ir =~= old(self)@.ir.update(i as int, x));
    }

    fn i64_to_i44(&mut self, flag: u8, val: i64) -> (r: i64)
        requires
            flag < 3,
        ensures
            (final(self)@, r as int) == old(self)@.acc44(flag as int, val as int),
            -0x800_0000_0000 <= r < 0x800_0000_0000,
            old(self)@.flags < 0x8000_0000 ==> final(self)@.flags < 0x8000_0000,
    {
        let (r, m) = truncate44(val, flag);
        self.raise(m);
        r
    }

    fn i32_to_i16_saturate(&mut self, config: CommandConfig, flag: u8, val: i32) -> (r: i16)
        requires
            flag < 3,
        ensures
            (final(self)@, r) == old(self)@.sat_ir(config.clamp_negative, flag as int, val as int),
            old(self)@.flags < 0x8000_0000 ==> final(self)@.flags < 0x8000_0000,
    {
        let (r, m) = saturate16(val, config.clamp_negative, flag);
        self.raise(m);
        r
    }

    fn i32_to_i11_saturate(&mut self, flag: u8, val: i32) -> (r: i16)
        requires
            flag < 2,
        ensures
            final(self)@ == old(self)@.raise(crate::saturate::sat11_flag(val as int, flag as int)),
            r as int == crate::saturate::sat11(val as int),
            old(self)@.flags < 0x8000_0000 ==> final(self)@.flags < 0x8000_0000,
    {
        let (r, m) = saturate11(val, flag);
        self.raise(m);
        r
    }

    fn check_mac_overflow(&mut self, val: i64)
        ensures
            final(self)@ == old(self)@.raise(crate::saturate::mac32_flag(val as int)),
            old(self)@.flags < 0x8000_0000 ==> final(self)@.flags < 0x8000_0000,
    {
        let m = mac32_overflow(val);
        self.raise(m);
    }

    fn i64_to_otz(&mut self, average: i64) -> (r: u16)
        ensures
            final(self)@ == old(self)@.raise(crate::saturate::otz_flag(average as int)),
            r as int == crate::saturate::otz_of(average as int),
            old(self)@.flags < 0x8000_0000 ==> final(self)@.flags < 0x8000_0000,
    {
        let (r, m) = to_otz(average);
        self.raise(m);
        r
    }

    /// One row of a matrix-vector product, seeded with a control vector in Q12;
    /// overflow flags go to lane `r`.
    fn multiply_row(&mut self, m: usize, vi: usize, cv: usize, r: usize) -> (res: i64)
        requires
            m < 3,
            vi < 4,
            cv < 4,
            r < 3,
        ensures
            (final(self)@, res as int) == old(self)@.row(m as int, vi as int, cv as int, r as int),
            -0x800_0000_0000 <= res < 0x800_0000_0000,
            old(self)@.flags < 0x8000_0000 ==> final(self)@.flags < 0x8000_0000,
    {
        let seed: i64 = if cv == 3 {
            0
        } else {
            self.control_vectors[cv * 3 + r] as i64
        };
        let prod0 = mul16(self.v[vi * 3], self.matrices[m * 9 + r * 3]);
        let prod1 = mul16(self.v[vi * 3 + 1], self.matrices[m * 9 + r * 3 + 1]);
        let prod2 = mul16(self.v[vi * 3 + 2], self.matrices[m * 9 + r * 3 + 2]);
        let lane = r as u8;
        let a1 = self.i64_to_i44(lane, seed * 4096 + prod0);
        let a2 = self.i64_to_i44(lane, a1 + prod1);
        self.i64_to_i44(lane, a2 + prod2)
    }

    /// Matrix times vector plus control vector, into MAC1-3 and IR1-3.
    fn multiply_matrix_by_vector(
        &mut self,
        config: CommandConfig,
        matrix: Matrix,
        vector_index: u8,
        control_vector: ControlVector,
    )
        requires
            config.wf(),
            matrix != Matrix::Invalid,
            control_vector != ControlVector::FarColor,
            vector_index < 4,
        ensures
            final(self)@ == old(self)@.multiply(
                config,
                matrix.spec_index(),
                vector_index as int,
                control_vector.spec_index(),
            ),
            old(self)@.flags < 0x8000_0000 ==> final(self)@.flags < 0x8000_0000,
    {
        let vi = vector_index as usize;
        let mat = matrix.index();
        let crv = control_vector.index();
        let a1 = self.multiply_row(mat, vi, crv, 0);
        self.set_mac(1, scale_down(a1, config.shift));
        let a2 = self.multiply_row(mat, vi, crv, 1);
        self.set_mac(2, scale_down(a2, config.shift));
        let a3 = self.multiply_row(mat, vi, crv, 2);
        self.set_mac(3, scale_down(a3, config.shift));
        self.mac_to_ir(config);
    }

    fn mac_to_ir(&mut self, config: CommandConfig)
        ensures
            final(self)@ == old(self)@.mac_to_ir(config.clamp_negative),
            old(self)@.flags < 0x8000_0000 ==> final(self)@.flags < 0x8000_0000,
    {
        let mac1 = self.mac[1];
        let ir1 = self.i32_to_i16_saturate(config, 0, mac1);
        self.set_ir(1, ir1);
        let mac2 = self.mac[2];
        let ir2 = self.i32_to_i16_saturate(config, 1, mac2);
        self.set_ir(2, ir2);
        let mac3 = self.mac[3];
        let ir3 = self.i32_to_i16_saturate(config, 2, mac3);
        self.set_ir(3, ir3);
    }

    fn mac_to_color(&mut self, mac: i32, which: u8) -> (r: u8)
        requires
            which < 3,
        ensures
            final(self)@ == old(self)@.raise(color_flag(mac as int, which as int)),
            r as int == color_of(mac as int),
            old(self)@.flags < 0x8000_0000 ==> final(self)@.flags < 0x8000_0000,
    {
        let c = shift_right(mac as i64, 4);
        let (color, m): (u8, u32) = if c < 0 {
            (0, flag_mask(21 - which))
        } else if c > 0xff {
            (0xff, flag_mask(21 - which))
        } else {
            (c as u8, 0)
        };
        self.raise(m);
        color
    }

    fn mac_to_rgb_fifo(&mut self)
        ensures
            final(self)@ == old(self)@.mac_to_rgb_fifo(),
            old(self)@.flags < 0x8000_0000 ==> final(self)@.flags < 0x8000_0000,
    {
        let ghost s = self@;
        let mac1 = self.mac[1];
        let mac2 = self.mac[2];
        let mac3 = self.mac[3];
        let r = self.mac_to_color(mac1, 0);
        let g = self.mac_to_color(mac2, 1);
        let b = self.mac_to_color(mac3, 2);
        let x = self.rgb.3;
        self.rgb_fifo[0] = self.rgb_fifo[1];
        self.rgb_fifo[1] = self.rgb_fifo[2];
        self.rgb_fifo[2] = (r, g, b, x);
        assert(self@.rgb_fifo =~= s.mac_to_rgb_fifo().rgb_fifo);
    }

    /// Copies IR1-3 into the scratch vector v3.
    fn load_ir_vector(&mut self)
        ensures
            final(self)@ == old(self)@.load_ir_vector(),
    {
        self.v[9] = self.ir[1];
        self.v[10] = self.ir[2];
        self.v[11] = self.ir[3];
        assert(self@.v =~= old(self)@.load_ir_vector().v);
    }

    /// One channel of depth cueing from `source` towards the far color, into MAC.
    fn interpolate_lane(&mut self, config: CommandConfig, lane: usize, source: i64)
        requires
            config.wf(),
            lane < 3,
            -0x1000_0000 <= source <= 0x1000_0000,
        ensures
            final(self)@ == old(self)@.interpolate_lane(config, lane as int, source as int),
            old(self)@.flags < 0x8000_0000 ==> final(self)@.flags < 0x8000_0000,
    {
        let fc = self.control_vectors[6 + lane] as i64 * 4096;
        let t = self.i64_to_i44(lane as u8, fc - source);
        let neutral = CommandConfig { clamp_negative: false, ..config };
        let sat = self.i32_to_i16_saturate(neutral, lane as u8, scale_down(t, config.shift));
        let ir0 = self.ir[0];
        let res = self.i64_to_i44(lane as u8, source + mul16(ir0, sat));
        self.set_mac(lane + 1, scale_down(res, config.shift));
    }

    /// Depth cueing of the three channel sources, then IR and the color FIFO.
    fn depth_cue(&mut self, config: CommandConfig, s0: i64, s1: i64, s2: i64)
        requires
            config.wf(),
            -0x1000_0000 <= s0 <= 0x1000_0000,
            -0x1000_0000 <= s1 <= 0x1000_0000,
            -0x1000_0000 <= s2 <= 0x1000_0000,
        ensures
            final(self)@ == old(self)@.interpolate(config, s0 as int, s1 as int, s2 as int),
            old(self)@.flags < 0x8000_0000 ==> final(self)@.flags < 0x8000_0000,
    {
        self.interpolate_lane(config, 0, s0);
        self.interpolate_lane(config, 1, s1);
        self.interpolate_lane(config, 2, s2);
        self.mac_to_ir(config);
        self.mac_to_rgb_fifo();
    }

    /// Channel `i` of the color register shaded by IR`i+1`.
    fn shading(&self, i: usize) -> (r: i64)
        requires
            i < 3,
        ensures
            r == self@.shading(i as int),
            -0x1000_0000 <= r <= 0x1000_0000,
    {
        let col = color_channel(self.rgb, i) as i64 * 16;
        let ir = self.ir[i + 1] as i64;
        proof {
            lemma_mul_bound(col as int, ir as int, 0x1000, 0x8000);
        }
        col * ir
    }

    /// MAC1-3 set to the shaded color register.
    fn modulate_color(&mut self, config: CommandConfig)
        requires
            config.wf(),
        ensures
            final(self)@ == old(self)@.modulate(config),
    {
        let c0 = self.shading(0);
        let c1 = self.shading(1);
        let c2 = self.shading(2);
        self.set_mac(1, scale_down(c0, config.shift));
        self.set_mac(2, scale_down(c1, config.shift));
        self.set_mac(3, scale_down(c2, config.shift));
    }

    /// Perspective transform of vector `vector_index`: MAC/IR1-3, the Z and
    /// XY FIFOs; returns the projection factor.
    fn do_rtp(&mut self, config: CommandConfig, vector_index: usize) -> (projection_factor: u32)
        requires
            config.wf(),
            vector_index < 3,
        ensures
            (final(self)@, projection_factor) == old(self)@.rtp(config, vector_index as int),
            projection_factor <= 0x1ffff,
            old(self)@.flags < 0x8000_0000 ==> final(self)@.flags < 0x8000_0000,
    {
        let a1 = self.multiply_row(0, vector_index, 0, 0);
        self.set_mac(1, scale_down(a1, config.shift));
        let a2 = self.multiply_row(0, vector_index, 0, 1);
        self.set_mac(2, scale_down(a2, config.shift));
        let a3 = self.multiply_row(0, vector_index, 0, 2);
        self.set_mac(3, scale_down(a3, config.shift));
        let z_shifted = shift_right(a3, 12) as i32;
        let mac1 = self.mac[1];
        let ir1 = self.i32_to_i16_saturate(config, 0, mac1);
        self.set_ir(1, ir1);
        let mac2 = self.mac[2];
        let ir2 = self.i32_to_i16_saturate(config, 1, mac2);
        self.set_ir(2, ir2);
        if z_shifted > 0x7fff || z_shifted < -0x8000 {
            self.set_flag(22);
        }
        let min: i32 = if config.clamp_negative {
            0
        } else {
            -0x8000
        };
        let mac3 = self.mac[3];
        let ir3: i16 = if mac3 > 0x7fff {
            0x7fff
        } else if mac3 < min {
            min as i16
        } else {
            mac3 as i16
        };
        self.set_ir(3, ir3);
        let z_saturated: u16 = if z_shifted < 0 {
            self.set_flag(18);
            0
        } else if z_shifted > 0xffff {
            self.set_flag(18);
            0xffff
        } else {
            z_shifted as u16
        };
        let ghost before_z = self@;
        self.z_fifo[0] = self.z_fifo[1];
        self.z_fifo[1] = self.z_fifo[2];
        self.z_fifo[2] = self.z_fifo[3];
        self.z_fifo[3] = z_saturated;
        assert(self@.z_fifo =~= seq![before_z.z_fifo[1], before_z.z_fifo[2], before_z.z_fifo[3], z_saturated]);
        let h = self.h;
        let projection_factor: u32 = if z_saturated > h / 2 {
            divide(h, z_saturated)
        } else {
            self.set_flag(17);
            0x1ffff
        };
        let factor = projection_factor as i64;
        proof {
            lemma_mul_bound(ir1 as int, factor as int, 0x8000, 0x2_0000);
            lemma_mul_bound(ir2 as int, factor as int, 0x8000, 0x2_0000);
        }
        let screen_x = ir1 as i64 * factor + self.ofx as i64;
        let screen_y = ir2 as i64 * factor + self.ofy as i64;
        self.check_mac_overflow(screen_x);
        self.check_mac_overflow(screen_y);
        let screen_x = shift_right(screen_x, 16) as i32;
        let screen_y = shift_right(screen_y, 16) as i32;
        let x = self.i32_to_i11_saturate(0, screen_x);
        let y = self.i32_to_i11_saturate(1, screen_y);
        let ghost before_xy = self@;
        self.xy_fifo[3] = (x, y);
        self.xy_fifo[0] = self.xy_fifo[1];
        self.xy_fifo[1] = self.xy_fifo[2];
        self.xy_fifo[2] = self.xy_fifo[3];
        assert(self@.xy_fifo =~= seq![before_xy.xy_fifo[1], before_xy.xy_fifo[2], (x, y), (x, y)]);
        projection_factor
    }

    /// MAC0 and IR0 from the depth-cue coefficients and the projection factor.
    fn depth_queuing(&mut self, projection_factor: u32)
        ensures
            final(self)@ == old(self)@.depth_queuing(projection_factor),
            old(self)@.flags < 0x8000_0000 ==> final(self)@.flags < 0x8000_0000,
    {
        let factor = projection_factor as i64;
        let dqa = self.dqa as i64;
        let dqb = self.dqb as i64;
        proof {
            lemma_mul_bound(dqa as int, factor as int, 0x8000, 0x1_0000_0000);
        }
        let depth = dqb + dqa * factor;
        self.check_mac_overflow(depth);
        self.set_mac(0, depth as i32);
        let depth = shift_right(depth, 12);
        if depth < 0 {
            self.set_flag(12);
            self.set_ir(0, 0);
        } else if depth > 4096 {
            self.set_flag(12);
            self.set_ir(0, 4096);
        } else {
            self.set_ir(0, depth as i16);
        }
    }

    fn cmd_rtps(&mut self, config: CommandConfig)
        requires
            config.wf(),
        ensures
            final(self)@ == old(self)@.rtps(config),
            old(self)@.flags < 0x8000_0000 ==> final(self)@.flags < 0x8000_0000,
    {
        let projection_factor = self.do_rtp(config, 0);
        self.depth_queuing(projection_factor);
    }

    fn cmd_rtpt(&mut self, config: CommandConfig)
        requires
            config.wf(),
        ensures
            final(self)@ == old(self)@.rtpt(config),
            old(self)@.flags < 0x8000_0000 ==> final(self)@.flags < 0x8000_0000,
    {
        self.do_rtp(config, 0);
        self.do_rtp(config, 1);
        // Depth queuing uses the last vector's factor.
        let projection_factor = self.do_rtp(config, 2);
        self.depth_queuing(projection_factor);
    }

    /// Signed area of the triangle in the XY FIFO, into MAC0.
    fn cmd_nclip(&mut self)
        ensures
            final(self)@ == old(self)@.nclip(),
            old(self)@.flags < 0x8000_0000 ==> final(self)@.flags < 0x8000_0000,
    {
        let (x0, y0) = self.xy_fifo[0];
        let (x1, y1) = self.xy_fifo[1];
        let (x2, y2) = self.xy_fifo[2];
        proof {
            lemma_mul_bound(x0 as int, y1 - y2, 0x8000, 0x1_0000);
            lemma_mul_bound(x1 as int, y2 - y0, 0x8000, 0x1_0000);
            lemma_mul_bound(x2 as int, y0 - y1, 0x8000, 0x1_0000);
        }
        let a = x0 as i64 * (y1 as i64 - y2 as i64);
        let b = x1 as i64 * (y2 as i64 - y0 as i64);
        let c = x2 as i64 * (y0 as i64 - y1 as i64);
        let sum = a + b + c;
        self.check_mac_overflow(sum);
        self.set_mac(0, sum as i32);
    }

    /// Outer product of IR1-3 with the rotation matrix's diagonal.
    fn cmd_op(&mut self, config: CommandConfig)
        requires
            config.wf(),
        ensures
            final(self)@ == old(self)@.op(config),
            old(self)@.flags < 0x8000_0000 ==> final(self)@.flags < 0x8000_0000,
    {
        let d0 = self.matrices[0];
        let d1 = self.matrices[4];
        let d2 = self.matrices[8];
        let ir1 = self.ir[1];
        let ir2 = self.ir[2];
        let ir3 = self.ir[3];
        self.set_mac(1, scale_down(mul16(d1, ir3) - mul16(d2, ir2), config.shift));
        self.set_mac(2, scale_down(mul16(d2, ir1) - mul16(d0, ir3), config.shift));
        self.set_mac(3, scale_down(mul16(d0, ir2) - mul16(d1, ir1), config.shift));
        self.mac_to_ir(config);
    }

    /// Depth cueing of the color register.
    fn cmd_dpcs(&mut self, config: CommandConfig)
        requires
            config.wf(),
        ensures
            final(self)@ == old(self)@.depth_cue_color(config, old(self)@.rgb),
            old(self)@.flags < 0x8000_0000 ==> final(self)@.flags < 0x8000_0000,
    {
        let (r, g, b, _) = self.rgb;
        self.depth_cue(config, r as i64 * 0x1_0000, g as i64 * 0x1_0000, b as i64 * 0x1_0000);
    }

    /// Depth cueing of the oldest color FIFO entry.
    fn do_dpc(&mut self, config: CommandConfig)
        requires
            config.wf(),
        ensures
            final(self)@ == old(self)@.depth_cue_color(config, old(self)@.rgb_fifo[0]),
            old(self)@.flags < 0x8000_0000 ==> final(self)@.flags < 0x8000_0000,
    {
        let (r, g, b, _) = self.rgb_fifo[0];
        self.depth_cue(config, r as i64 * 0x1_0000, g as i64 * 0x1_0000, b as i64 * 0x1_0000);
    }

    fn cmd_dpct(&mut self, config: CommandConfig)
        requires
            config.wf(),
        ensures
            final(self)@ == old(self)@.run(Opcode::Dpct, config),
            old(self)@.flags < 0x8000_0000 ==> final(self)@.flags < 0x8000_0000,
    {
        // Each pass consumes the oldest FIFO entry and pushes its result, so
        // the three passes replace the whole FIFO.
        self.do_dpc(config);
        self.do_dpc(config);
        self.do_dpc(config);
    }

    /// Depth cueing of the color register shaded by IR1-3.
    fn cmd_dcpl(&mut self, config: CommandConfig)
        requires
            config.wf(),
        ensures
            final(self)@ == old(self)@.dcpl(config),
            old(self)@.flags < 0x8000_0000 ==> final(self)@.flags < 0x8000_0000,
    {
        let s0 = self.shading(0);
        let s1 = self.shading(1);
        let s2 = self.shading(2);
        self.depth_cue(config, s0, s1, s2);
    }

    /// Interpolation between IR1-3 and the far color.
    fn cmd_intpl(&mut self, config: CommandConfig)
        requires
            config.wf(),
        ensures
            final(self)@ == old(self)@.intpl(config),
            old(self)@.flags < 0x8000_0000 ==> final(self)@.flags < 0x8000_0000,
    {
        let i1 = self.ir[1] as i64 * 4096;
        let i2 = self.ir[2] as i64 * 4096;
        let i3 = self.ir[3] as i64 * 4096;
        self.depth_cue(config, i1, i2, i3);
    }

    /// Multiply vector by matrix and add vector.
    fn cmd_mvmva(&mut self, config: CommandConfig)
        requires
            config.wf(),
            config.multiply_allowed(),
        ensures
            final(self)@ == old(self)@.mvmva(config),
            old(self)@.flags < 0x8000_0000 ==> final(self)@.flags < 0x8000_0000,
    {
        // The fourth vector holds the IR values.
        self.load_ir_vector();
        self.multiply_matrix_by_vector(config, config.matrix, config.vector_mul, config.vector_add);
    }

    /// Color color.
    fn cmd_cc(&mut self, config: CommandConfig)
        requires
            config.wf(),
        ensures
            final(self)@ == old(self)@.cc(config),
            old(self)@.flags < 0x8000_0000 ==> final(self)@.flags < 0x8000_0000,
    {
        self.load_ir_vector();
        self.multiply_matrix_by_vector(config, Matrix::Color, 3, ControlVector::BackgroundColor);
        self.modulate_color(config);
        self.mac_to_ir(config);
        self.mac_to_rgb_fifo();
    }

    /// Normal color color of vector `vector_index`.
    fn do_ncc(&mut self, config: CommandConfig, vector_index: u8)
        requires
            config.wf(),
            vector_index < 3,
        ensures
            final(self)@ == old(self)@.ncc(config, vector_index as int),
            old(self)@.flags < 0x8000_0000 ==> final(self)@.flags < 0x8000_0000,
    {
        self.multiply_matrix_by_vector(config, Matrix::Light, vector_index, ControlVector::Zero);
        // The fourth vector holds the intermediate values.
        self.load_ir_vector();
        self.multiply_matrix_by_vector(config, Matrix::Color, 3, ControlVector::BackgroundColor);
        self.modulate_color(config);
        self.mac_to_ir(config);
        self.mac_to_rgb_fifo();
    }

    /// Normal color of vector `vector_index`.
    fn do_nc(&mut self, config: CommandConfig, vector_index: u8)
        requires
            config.wf(),
            vector_index < 3,
        ensures
            final(self)@ == old(self)@.nc(config, vector_index as int),
            old(self)@.flags < 0x8000_0000 ==> final(self)@.flags < 0x8000_0000,
    {
        self.multiply_matrix_by_vector(config, Matrix::Light, vector_index, ControlVector::Zero);
        self.load_ir_vector();
        self.multiply_matrix_by_vector(config, Matrix::Color, 3, ControlVector::BackgroundColor);
        self.mac_to_rgb_fifo();
    }

    /// Normal color depth cue of vector `vector_index`.
    fn do_ncd(&mut self, config: CommandConfig, vector_index: u8)
        requires
            config.wf(),
            vector_index < 3,
        ensures
            final(self)@ == old(self)@.ncd(config, vector_index as int),
            old(self)@.flags < 0x8000_0000 ==> final(self)@.flags < 0x8000_0000,
    {
        self.multiply_matrix_by_vector(config, Matrix::Light, vector_index, ControlVector::Zero);
        self.load_ir_vector();
        self.multiply_matrix_by_vector(config, Matrix::Color, 3, ControlVector::BackgroundColor);
        self.cmd_dcpl(config);
    }

    fn cmd_ncds(&mut self, config: CommandConfig)
        requires
            config.wf(),
        ensures
            final(self)@ == old(self)@.run(Opcode::Ncds, config),
            old(self)@.flags < 0x8000_0000 ==> final(self)@.flags < 0x8000_0000,
    {
        self.do_ncd(config, 0);
    }

    fn cmd_ncdt(&mut self, config: CommandConfig)
        requires
            config.wf(),
        ensures
            final(self)@ == old(self)@.run(Opcode::Ncdt, config),
            old(self)@.flags < 0x8000_0000 ==> final(self)@.flags < 0x8000_0000,
    {
        self.do_ncd(config, 0);
        self.do_ncd(config, 1);
        self.do_ncd(config, 2);
    }

    fn cmd_nccs(&mut self, config: CommandConfig)
        requires
            config.wf(),
        ensures
            final(self)@ == old(self)@.run(Opcode::Nccs, config),
            old(self)@.flags < 0x8000_0000 ==> final(self)@.flags < 0x8000_0000,
    {
        self.do_ncc(config, 0);
    }

    fn cmd_ncct(&mut self, config: CommandConfig)
        requires
            config.wf(),
        ensures
            final(self)@ == old(self)@.run(Opcode::Ncct, config),
            old(self)@.flags < 0x8000_0000 ==> final(self)@.flags < 0x8000_0000,
    {
        self.do_ncc(config, 0);
        self.do_ncc(config, 1);
        self.do_ncc(config, 2);
    }

    fn cmd_ncs(&mut self, config: CommandConfig)
        requires
            config.wf(),
        ensures
            final(self)@ == old(self)@.run(Opcode::Ncs, config),
            old(self)@.flags < 0x8000_0000 ==> final(self)@.flags < 0x8000_0000,
    {
        self.do_nc(config, 0);
    }

    fn cmd_nct(&mut self, config: CommandConfig)
        requires
            config.wf(),
        ensures
            final(self)@ == old(self)@.run(Opcode::Nct, config),
            old(self)@.flags < 0x8000_0000 ==> final(self)@.flags < 0x8000_0000,
    {
        self.do_nc(config, 0);
        self.do_nc(config, 1);
        self.do_nc(config, 2);
    }

    /// Squares of IR1-3.
    fn cmd_sqr(&mut self, config: CommandConfig)
        requires
            config.wf(),
        ensures
            final(self)@ == old(self)@.sqr(config),
            old(self)@.flags < 0x8000_0000 ==> final(self)@.flags < 0x8000_0000,
    {
        let i1 = self.ir[1];
        let i2 = self.ir[2];
        let i3 = self.ir[3];
        self.set_mac(1, scale_down(mul16(i1, i1), config.shift));
        self.set_mac(2, scale_down(mul16(i2, i2), config.shift));
        self.set_mac(3, scale_down(mul16(i3, i3), config.shift));
        self.mac_to_ir(config);
    }

    /// MAC0 and the ordering value from a scaled sum of depths.
    fn set_average_z(&mut self, average: i64)
        ensures
            final(self)@ == old(self)@.average_z(average as int),
            old(self)@.flags < 0x8000_0000 ==> final(self)@.flags < 0x8000_0000,
    {
        self.check_mac_overflow(average);
        self.set_mac(0, average as i32);
        self.otz = self.i64_to_otz(average);
    }

    /// Average of three depths.
    fn cmd_avsz3(&mut self)
        ensures
            final(self)@ == old(self)@.avsz3(),
            old(self)@.flags < 0x8000_0000 ==> final(self)@.flags < 0x8000_0000,
    {
        let sum = self.z_fifo[1] as i64 + self.z_fifo[2] as i64 + self.z_fifo[3] as i64;
        let zsf3 = self.zsf3 as i64;
        proof {
            lemma_mul_bound(zsf3 as int, sum as int, 0x8000, 0x4_0000);
        }
        self.set_average_z(zsf3 * sum);
    }

    /// Average of four depths.
    fn cmd_avsz4(&mut self)
        ensures
            final(self)@ == old(self)@.avsz4(),
            old(self)@.flags < 0x8000_0000 ==> final(self)@.flags < 0x8000_0000,
    {
        let sum = self.z_fifo[0] as i64 + self.z_fifo[1] as i64 + self.z_fifo[2] as i64
            + self.z_fifo[3] as i64;
        let zsf4 = self.zsf4 as i64;
        proof {
            lemma_mul_bound(zsf4 as int, sum as int, 0x8000, 0x4_0000);
        }
        self.set_average_z(zsf4 * sum);
    }

    /// General purpose interpolation: IR1-3 times IR0.
    fn cmd_gpf(&mut self, config: CommandConfig)
        requires
            config.wf(),
        ensures
            final(self)@ == old(self)@.gpf(config),
            old(self)@.flags < 0x8000_0000 ==> final(self)@.flags < 0x8000_0000,
    {
        let ir0 = self.ir[0];
        let i1 = self.ir[1];
        let i2 = self.ir[2];
        let i3 = self.ir[3];
        self.set_mac(1, scale_down(mul16(i1, ir0), config.shift));
        self.set_mac(2, scale_down(mul16(i2, ir0), config.shift));
        self.set_mac(3, scale_down(mul16(i3, ir0), config.shift));
        self.mac_to_ir(config);
        self.mac_to_rgb_fifo();
    }

    fn gpl_lane(&mut self, config: CommandConfig, i: usize)
        requires
            config.wf(),
            1 <= i <= 3,
        ensures
            final(self)@ == old(self)@.gpl_lane(config, i as int),
            old(self)@.flags < 0x8000_0000 ==> final(self)@.flags < 0x8000_0000,
    {
        let mac = self.mac[i] as i64;
        let mac = if config.shift == 12 {
            mac * 4096
        } else {
            mac
        };
        assert(mac == unscale(old(self)@.mac[i as int] as int, config.shift));
        let product = mul16(self.ir[i], self.ir[0]);
        let sum = self.i64_to_i44((i - 1) as u8, mac + product);
        self.set_mac(i, scale_down(sum, config.shift));
    }

    /// General purpose interpolation with base: MAC1-3 plus IR1-3 times IR0.
    fn cmd_gpl(&mut self, config: CommandConfig)
        requires
            config.wf(),
        ensures
            final(self)@ == old(self)@.gpl(config),
            old(self)@.flags < 0x8000_0000 ==> final(self)@.flags < 0x8000_0000,
    {
        self.gpl_lane(config, 1);
        self.gpl_lane(config, 2);
        self.gpl_lane(config, 3);
        self.mac_to_ir(config);
        self.mac_to_rgb_fifo();
    }

    fn run(&mut self, opcode: Opcode, config: CommandConfig)
        requires
            config.wf(),
            opcode == Opcode::Mvmva ==> config.multiply_allowed(),
        ensures
            final(self)@ == old(self)@.run(opcode, config),
            old(self)@.flags < 0x8000_0000 ==> final(self)@.flags < 0x8000_0000,
    {
        match opcode {
            Opcode::Rtps => self.cmd_rtps(config),
            Opcode::Nclip => self.cmd_nclip(),
            Opcode::Op => self.cmd_op(config),
            Opcode::Dpcs => self.cmd_dpcs(config),
            Opcode::Intpl => self.cmd_intpl(config),
            Opcode::Mvmva => self.cmd_mvmva(config),
            Opcode::Ncds => self.cmd_ncds(config),
            Opcode::Ncdt => self.cmd_ncdt(config),
            Opcode::Nccs => self.cmd_nccs(config),
            Opcode::Cc => self.cmd_cc(config),
            Opcode::Ncs => self.cmd_ncs(config),
            Opcode::Nct => self.cmd_nct(config),
            Opcode::Sqr => self.cmd_sqr(config),
            Opcode::Dcpl => self.cmd_dcpl(config),
            Opcode::Dpct => self.cmd_dpct(config),
            Opcode::Avsz3 => self.cmd_avsz3(),
            Opcode::Avsz4 => self.cmd_avsz4(),
            Opcode::Rtpt => self.cmd_rtpt(config),
            Opcode::Gpf => self.cmd_gpf(config),
            Opcode::Gpl => self.cmd_gpl(config),
            Opcode::Ncct => self.cmd_ncct(config),
        }
    }

    /// Sets flag bit 31 when any bit of `ERROR_MASK` is set.
    fn summarize_flags(&mut self)
        ensures
            final(self)@ == (GteView { flags: summarize(old(self)@.flags), ..old(self)@ }),
            old(self)@.flags < 0x8000_0000 ==> summary_holds(final(self)@.flags),
    {
        let f = self.flags;
        let summary: u32 = if f & ERROR_MASK != 0 {
            0x8000_0000
        } else {
            0
        };
        assert(f < 0x8000_0000 ==> (f | (if f & 0x7F87_E000u32 != 0 { 0x8000_0000u32 } else { 0u32 }))
            & 0x8000_0000 == (if (f | (if f & 0x7F87_E000u32 != 0 { 0x8000_0000u32 } else { 0u32 }))
            & 0x7F87_E000u32 != 0 {
            0x8000_0000u32
        } else {
            0u32
        })) by (bit_vector);
        self.flags = f | summary;
    }

    /// Runs one command word. Flags are cleared first; afterwards bit 31 is
    /// set exactly when one of the `ERROR_MASK` bits is. A word that names no
    /// routine, or a general multiply with the invalid matrix or the far color
    /// vector, is refused and leaves the registers as they were.
    pub fn command(&mut self, command: u32) -> (r: Result<(), GteError>)
        ensures
            match old(self)@.command(command) {
                Ok(s) => r == Ok::<(), GteError>(()) && final(self)@ == s,
                Err(e) => r == Err::<(), GteError>(e) && final(self)@ == old(self)@,
            },
            r is Ok ==> summary_holds(final(self)@.flags),
    {
        let opcode = match Opcode::decode(command & 0x3f) {
            Ok(op) => op,
            Err(e) => {
                return Err(e);
            },
        };
        let config = CommandConfig::from_command(command);
        if opcode == Opcode::Mvmva && (config.matrix == Matrix::Invalid || config.vector_add
            == ControlVector::FarColor) {
            return Err(GteError::InvalidOperandSelection);
        }
        self.flags = 0;
        self.run(opcode, config);
        self.summarize_flags();
        Ok(())
    }

    /// Reads control register `reg`.
    pub fn control(&self, reg: u32) -> (r: Result<u32, GteError>)
        ensures
            reg < 32 ==> r == Ok::<u32, GteError>(self@.control_value(reg as int)),
            reg >= 32 ==> r == Err::<u32, GteError>(GteError::UnsupportedRegister(reg)),
    {
        if reg < 24 {
            let base = (reg / 8) as usize * 9;
            let k = (reg % 8) as usize;
            if k < 4 {
                Ok(pack_pair(self.matrices[base + 2 * k], self.matrices[base + 2 * k + 1]))
            } else if k == 4 {
                Ok(self.matrices[base + 8] as u32)
            } else {
                Ok(self.control_vectors[(reg / 8) as usize * 3 + k - 5] as u32)
            }
        } else {
            match reg {
                24 => Ok(self.ofx as u32),
                25 => Ok(self.ofy as u32),
                // Stored unsigned, read back sign-extended.
                26 => Ok(self.h as i16 as u32),
                27 => Ok(self.dqa as u32),
                28 => Ok(self.dqb as u32),
                29 => Ok(self.zsf3 as u32),
                30 => Ok(self.zsf4 as u32),
                31 => Ok(self.flags),
                _ => Err(GteError::UnsupportedRegister(reg)),
            }
        }
    }

    /// Writes control register `reg`.
    pub fn set_control(&mut self, reg: u32, val: u32) -> (r: Result<(), GteError>)
        ensures
            reg < 32 ==> r == Ok::<(), GteError>(()) && final(self)@ == old(self)@.with_control(
                reg as int,
                val,
            ),
            reg >= 32 ==> r == Err::<(), GteError>(GteError::UnsupportedRegister(reg))
                && final(self)@ == old(self)@,
            reg == 31 ==> summary_holds(final(self)@.flags),
    {
        if reg < 24 {
            let base = (reg / 8) as usize * 9;
            let k = (reg % 8) as usize;
            if k < 4 {
                self.matrices[base + 2 * k] = val as i16;
                self.matrices[base + 2 * k + 1] = (val >> 16u32) as i16;
            } else if k == 4 {
                self.matrices[base + 8] = val as i16;
            } else {
                self.control_vectors[(reg / 8) as usize * 3 + k - 5] = val as i32;
            }
            assert(self@.matrices =~= old(self)@.with_control(reg as int, val).matrices);
            assert(self@.control_vectors =~= old(self)@.with_control(reg as int, val).control_vectors);
            Ok(())
        } else {
            match reg {
                24 => self.ofx = val as i32,
                25 => self.ofy = val as i32,
                26 => self.h = val as u16,
                27 => self.dqa = val as i16,
                28 => self.dqb = val as i32,
                29 => self.zsf3 = val as i16,
                30 => self.zsf4 = val as i16,
                31 => {
                    self.flags = val & WRITABLE_FLAGS;
                    assert(val & 0x7FFF_F000u32 < 0x8000_0000) by (bit_vector);
                    self.summarize_flags();
                },
                _ => {
                    return Err(GteError::UnsupportedRegister(reg));
                },
            }
            Ok(())
        }
    }

    /// IR1-3 reduced to five bits each and packed.
    fn packed_ir(&self) -> (r: u32)
        ensures
            r == self@.packed_ir(),
    {
        let a = saturate5(shift_right(self.ir[1] as i64, 7));
        let b = saturate5(shift_right(self.ir[2] as i64, 7));
        let c = saturate5(shift_right(self.ir[3] as i64, 7));
        a | (b << 5u32) | (c << 10u32)
    }

    /// Reads data register `reg`.
    pub fn data(&self, reg: u32) -> (r: Result<u32, GteError>)
        ensures
            reg < 32 ==> r == Ok::<u32, GteError>(self@.data_value(reg as int)),
            reg >= 32 ==> r == Err::<u32, GteError>(GteError::UnsupportedRegister(reg)),
    {
        if reg < 6 {
            let base = (reg / 2) as usize * 3;
            if reg % 2 == 0 {
                Ok(pack_pair(self.v[base], self.v[base + 1]))
            } else {
                Ok(self.v[base + 2] as u32)
            }
        } else if reg == 6 {
            Ok(rgbx_to_u32(self.rgb))
        } else if reg == 7 {
            Ok(self.otz as u32)
        } else if reg < 12 {
            Ok(self.ir[reg as usize - 8] as u32)
        } else if reg < 16 {
            let (x, y) = self.xy_fifo[reg as usize - 12];
            Ok(pack_pair(x, y))
        } else if reg < 20 {
            Ok(self.z_fifo[reg as usize - 16] as u32)
        } else if reg < 23 {
            Ok(rgbx_to_u32(self.rgb_fifo[reg as usize - 20]))
        } else if reg == 23 {
            Ok(self.reg_23)
        } else if reg < 28 {
            Ok(self.mac[reg as usize - 24] as u32)
        } else if reg < 30 {
            Ok(self.packed_ir())
        } else if reg == 30 {
            Ok(self.lzcs)
        } else if reg == 31 {
            Ok(self.lzcr as u32)
        } else {
            Err(GteError::UnsupportedRegister(reg))
        }
    }

    /// Writes data register `reg`. Register 14 also fills XY slot 3;
    /// register 15 pushes onto the XY FIFO (slots 1-3 move down, the pair
    /// goes into slot 3); registers 29 and 31 ignore writes.
    pub fn set_data(&mut self, reg: u32, val: u32) -> (r: Result<(), GteError>)
        ensures
            reg < 32 ==> r == Ok::<(), GteError>(()) && final(self)@ == old(self)@.with_data(
                reg as int,
                val,
            ),
            reg >= 32 ==> r == Err::<(), GteError>(GteError::UnsupportedRegister(reg))
                && final(self)@ == old(self)@,
            reg == 14 ==> final(self)@.xy_fifo[2] == unpack_xy(val) && final(self)@.xy_fifo[3]
                == unpack_xy(val) && final(self)@.xy_fifo[0] == old(self)@.xy_fifo[0]
                && final(self)@.xy_fifo[1] == old(self)@.xy_fifo[1],
            reg == 15 ==> final(self)@.xy_fifo[3] == unpack_xy(val) && final(self)@.xy_fifo[2]
                == old(self)@.xy_fifo[3] && final(self)@.xy_fifo[0] == old(self)@.xy_fifo[1]
                && final(self)@.xy_fifo[1] == old(self)@.xy_fifo[2],
    {
        let ghost s = old(self)@;
        if reg < 6 {
            let base = (reg / 2) as usize * 3;
            if reg % 2 == 0 {
                self.v[base] = val as i16;
                self.v[base + 1] = (val >> 16u32) as i16;
            } else {
                self.v[base + 2] = val as i16;
            }
            assert(self@.v =~= s.with_data(reg as int, val).v);
        } else if reg == 6 {
            self.rgb = u32_to_rgbx(val);
        } else if reg == 7 {
            self.otz = val as u16;
        } else if reg < 12 {
            self.set_ir(reg as usize - 8, val as i16);
        } else if reg < 14 {
            self.xy_fifo[reg as usize - 12] = unpack_pair(val);
            assert(self@.xy_fifo =~= s.with_data(reg as int, val).xy_fifo);
        } else if reg == 14 {
            let xy = unpack_pair(val);
            self.xy_fifo[2] = xy;
            self.xy_fifo[3] = xy;
            assert(self@.xy_fifo =~= s.with_data(reg as int, val).xy_fifo);
        } else if reg == 15 {
            self.xy_fifo[0] = self.xy_fifo[1];
            self.xy_fifo[1] = self.xy_fifo[2];
            self.xy_fifo[2] = self.xy_fifo[3];
            self.xy_fifo[3] = unpack_pair(val);
            assert(self@.xy_fifo =~= s.with_data(reg as int, val).xy_fifo);
        } else if reg < 20 {
            self.z_fifo[reg as usize - 16] = val as u16;
            assert(self@.z_fifo =~= s.with_data(reg as int, val).z_fifo);
        } else if reg < 23 {
            self.rgb_fifo[reg as usize - 20] = u32_to_rgbx(val);
            assert(self@.rgb_fifo =~= s.with_data(reg as int, val).rgb_fifo);
        } else if reg == 23 {
            self.reg_23 = val;
        } else if reg < 28 {
            self.set_mac(reg as usize - 24, val as i32);
        } else if reg == 28 {
            self.set_ir(1, five_bits_to_ir(val));
            self.set_ir(2, five_bits_to_ir(val >> 5u32));
            self.set_ir(3, five_bits_to_ir(val >> 10u32));
        } else if reg == 30 {
            self.lzcs = val;
            let tmp = if (val >> 31u32) & 1 != 0 {
                !val
            } else {
                val
            };
            self.lzcr = tmp.leading_zeros() as u8;
        } else if reg >= 32 {
            return Err(GteError::UnsupportedRegister(reg));
        }
        // Registers 29 and 31 are read-only.
        Ok(())
    }
}

} // verus!
