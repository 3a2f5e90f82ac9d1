//! The COP0 status word and register file of the extended register description.
use vstd::prelude::*;

verus! {

/// The `width`-bit field (`width` at most 8) of `v` starting at bit `lo`.
pub open spec fn bits(v: u32, lo: u32, width: u32) -> u32 {
    (v >> lo) & (0xffu32 >> (8 - width) as u32)
}

/// The COP0 status word; fields from bit 0 up: ie, exl, erl, ksu (2 bits),
/// 3 unused, im (8), eie, edi, ch, 3 unused, bev, dev, 2 unused, fr, 1 unused, cu (4).
#[derive(Clone, Copy, Debug, PartialEq, Eq, Structural)]
pub struct CP0Status(pub u32);

impl CP0Status {
    /// The sum of the status fields' values, each read as a number.
    pub open spec fn spec_field_sum(self) -> int {
        bits(self.0, 0, 1) + bits(self.0, 1, 1) + bits(self.0, 2, 1) + bits(self.0, 3, 2) + bits(
            self.0,
            8,
            8,
        ) + bits(self.0, 16, 1) + bits(self.0, 17, 1) + bits(self.0, 18, 1) + bits(self.0, 22, 1)
            + bits(self.0, 23, 1) + bits(self.0, 26, 1) + bits(self.0, 28, 4)
    }

    fn field(self, lo: u32, width: u32) -> (r: u32)
        requires
            lo < 32,
            1 <= width <= 8,
        ensures
            r == bits(self.0, lo, width),
            r < 256,
    {
        let v = self.0;
        let mask = 0xffu32 >> (8 - width);
        assert(mask <= 255) by (bit_vector)
            requires
                mask == 0xffu32 >> (8 - width) as u32,
        ;
        assert((v >> lo) & mask <= mask) by (bit_vector);
        (v >> lo) & mask
    }

    pub fn ie(self) -> (r: u32)
        ensures
            r == bits(self.0, 0, 1),
            r < 256,
    {
        self.field(0, 1)
    }

    pub fn exl(self) -> (r: u32)
        ensures
            r == bits(self.0, 1, 1),
            r < 256,
    {
        self.field(1, 1)
    }

    pub fn erl(self) -> (r: u32)
        ensures
            r == bits(self.0, 2, 1),
            r < 256,
    {
        self.field(2, 1)
    }

    pub fn ksu(self) -> (r: u32)
        ensures
            r == bits(self.0, 3, 2),
            r < 256,
    {
        self.field(3, 2)
    }

    pub fn im(self) -> (r: u32)
        ensures
            r == bits(self.0, 8, 8),
            r < 256,
    {
        self.field(8, 8)
    }

    pub fn eie(self) -> (r: u32)
        ensures
            r == bits(self.0, 16, 1),
            r < 256,
    {
        self.field(16, 1)
    }

    pub fn edi(self) -> (r: u32)
        ensures
            r == bits(self.0, 17, 1),
            r < 256,
    {
        self.field(17, 1)
    }

    pub fn ch(self) -> (r: u32)
        ensures
            r == bits(self.0, 18, 1),
            r < 256,
    {
        self.field(18, 1)
    }

    pub fn bev(self) -> (r: u32)
        ensures
            r == bits(self.0, 22, 1),
            r < 256,
    {
        self.field(22, 1)
    }

    pub fn dev(self) -> (r: u32)
        ensures
            r == bits(self.0, 23, 1),
            r < 256,
    {
        self.field(23, 1)
    }

    pub fn fr(self) -> (r: u32)
        ensures
            r == bits(self.0, 26, 1),
            r < 256,
    {
        self.field(26, 1)
    }

    pub fn cu(self) -> (r: u32)
        ensures
            r == bits(self.0, 28, 4),
            r < 256,
    {
        self.field(28, 4)
    }
}

/// The COP0 register file.
pub struct CP0regs {
    pub index: u32,
    pub random: u32,
    pub entry_lo0: u32,
    pub entry_lo1: u32,
    pub context: u32,
    pub pagemask: u32,
    pub wired: u32,
    pub reserverd0: u32,
    pub badvaddr: u32,
    pub count: u32,
    pub entry_hi: u32,
    pub compare: u32,
    pub status: CP0Status,
    pub cause: u32,
    pub epc: u32,
    pub prid: u32,
    pub config: u32,
    pub lladdr: u32,
    pub watch_lo: u32,
    pub watch_hi: u32,
    pub xcontext: u32,
    pub reserved1: u32,
    pub reserved2: u32,
    pub debug: u32,
    pub depc: u32,
    pub perfcnt: u32,
    pub errctl: u32,
    pub cachederr: u32,
    pub tag_lo: u32,
    pub tag_hi: u32,
    pub error_epc: u32,
    pub desave: u32,
}

impl CP0regs {
    /// The sum of the status register's field values.
    pub fn get_status_val(&self) -> (r: u32)
        ensures
            r == self.status.spec_field_sum(),
    {
        let s = self.status;
        let data: u32 = s.ie() + s.exl() + s.erl() + s.ksu() + s.im() + s.eie() + s.edi() + s.ch()
            + s.bev() + s.dev() + s.fr() + s.cu();
        data
    }
}

} // verus!
