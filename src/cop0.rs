//! The system control coprocessor: status, cause and exception return address.
use vstd::prelude::*;
use crate::interrupt::InterruptState;

verus! {

/// The cause of an exception.
#[derive(Debug, Clone, Copy, PartialEq, Eq, Structural)]
pub enum Exception {
    Interrupt,
    LoadAddressError,
    StoreAddressError,
    SysCall,
    Break,
    IllegalInstruction,
    CoprocessorError,
    Overflow,
}

impl Exception {
    pub open spec fn spec_code(self) -> u32 {
        match self {
            Exception::Interrupt => 0x0,
            Exception::LoadAddressError => 0x4,
            Exception::StoreAddressError => 0x5,
            Exception::SysCall => 0x8,
            Exception::Break => 0x9,
            Exception::IllegalInstruction => 0xA,
            Exception::CoprocessorError => 0xB,
            Exception::Overflow => 0xC,
        }
    }

    /// The exception code stored in bits 2-6 of the cause register.
    pub fn code(self) -> (r: u32)
        ensures
            r == self.spec_code(),
    {
        match self {
            Exception::Interrupt => 0x0,
            Exception::LoadAddressError => 0x4,
            Exception::StoreAddressError => 0x5,
            Exception::SysCall => 0x8,
            Exception::Break => 0x9,
            Exception::IllegalInstruction => 0xA,
            Exception::CoprocessorError => 0xB,
            Exception::Overflow => 0xC,
        }
    }
}

pub struct Cop0 {
    sr: u32,
    cause: u32,
    epc: u32,
}

/// The registers of the coprocessor.
pub struct Cop0View {
    pub sr: u32,
    pub cause: u32,
    pub epc: u32,
}

impl View for Cop0 {
    type V = Cop0View;

    closed spec fn view(&self) -> Cop0View {
        Cop0View { sr: self.sr, cause: self.cause, epc: self.epc }
    }
}

/// The status register after entering an exception: the interrupt-enable /
/// user-mode pairs in bits 0-5 pushed up by one pair.
pub open spec fn sr_after_entry(sr: u32) -> u32 {
    (sr & !0x3Fu32) | (((sr & 0x3F) << 2u32) & 0x3F)
}

/// The status register after returning from an exception: the pairs popped.
pub open spec fn sr_after_return(sr: u32) -> u32 {
    (sr & !0xFu32) | ((sr & 0x3F) >> 2u32)
}

/// The cause register after entering exception `code`.
pub open spec fn cause_after_entry(cause: u32, code: u32, in_delay_slot: bool) -> u32 {
    let c = (cause & !0x7Cu32) | (code << 2u32);
    if in_delay_slot {
        c | 0x8000_0000
    } else {
        c & !0x8000_0000u32
    }
}

/// The handler address: in ROM when bit 22 (boot exception vectors) is set, else in RAM.
pub open spec fn handler_address(sr: u32) -> u32 {
    if sr & 0x40_0000 != 0 {
        0xBFC0_0180
    } else {
        0x8000_0080
    }
}

impl Cop0 {
    pub fn new() -> (r: Self)
        ensures
            r@ == (Cop0View { sr: 0, cause: 0, epc: 0 }),
    {
        Self { sr: 0, cause: 0, epc: 0 }
    }

    pub fn sr(&self) -> (r: u32)
        ensures
            r == self@.sr,
    {
        self.sr
    }

    pub fn set_sr(&mut self, sr: u32)
        ensures
            final(self)@ == (Cop0View { sr, ..old(self)@ }),
    {
        self.sr = sr;
    }

    /// The cause register, with bit 10 set while an enabled interrupt is pending.
    pub fn cause(&self, irq_state: InterruptState) -> (r: u32)
        ensures
            r == self@.cause | (if irq_state@.status & irq_state@.mask != 0 {
                0x400u32
            } else {
                0u32
            }),
    {
        let pending: u32 = if irq_state.active() {
            0x400
        } else {
            0
        };
        self.cause | pending
    }

    /// Writes the two software interrupt bits (8 and 9) of the cause register.
    pub fn set_cause(&mut self, v: u32)
        ensures
            final(self)@ == (Cop0View {
                cause: (old(self)@.cause & !0x300u32) | (v & 0x300),
                ..old(self)@
            }),
    {
        self.cause = self.cause & !0x300u32;
        self.cause = self.cause | (v & 0x300);
    }

    pub fn epc(&self) -> (r: u32)
        ensures
            r == self@.epc,
    {
        self.epc
    }

    /// Bit 16 of the status register: stores go to the cache only.
    pub fn cache_isolated(&self) -> (r: bool)
        ensures
            r == (self@.sr & 0x1_0000 != 0),
    {
        self.sr & 0x10000 != 0
    }

    /// Enters an exception raised at `pc` and returns the handler's address.
    /// In a branch delay slot the return address is the branch, `pc - 4`.
    pub fn enter_exeception(&mut self, cause: Exception, pc: u32, in_delay_slot: bool) -> (r: u32)
        ensures
            final(self)@.sr == sr_after_entry(old(self)@.sr),
            final(self)@.cause == cause_after_entry(old(self)@.cause, cause.spec_code(), in_delay_slot),
            final(self)@.epc == (if in_delay_slot {
                pc.wrapping_sub(4)
            } else {
                pc
            }),
            r == handler_address(final(self)@.sr),
    {
        let mode = self.sr & 0x3F;
        self.sr = self.sr & !0x3Fu32;
        self.sr = self.sr | ((mode << 2u32) & 0x3F);
        self.cause = self.cause & !0x7Cu32;
        self.cause = self.cause | (cause.code() << 2u32);
        if in_delay_slot {
            self.epc = pc.wrapping_sub(4);
            self.cause = self.cause | 0x8000_0000;
        } else {
            self.epc = pc;
            self.cause = self.cause & !0x8000_0000u32;
        }
        if self.sr & 0x40_0000 != 0 {
            0xBFC0_0180
        } else {
            0x8000_0080
        }
    }

    /// Leaves an exception: restores the previous interrupt-enable / mode pairs.
    pub fn return_from_exception(&mut self)
        ensures
            final(self)@ == (Cop0View { sr: sr_after_return(old(self)@.sr), ..old(self)@ }),
    {
        let mode = self.sr & 0x3F;
        self.sr = self.sr & !0xFu32;
        self.sr = self.sr | (mode >> 2u32);
    }

    fn irq_enable(&self) -> (r: bool)
        ensures
            r == (self@.sr & 1 != 0),
    {
        self.sr & 1 != 0
    }

    /// Interrupts are enabled and a pending interrupt (cause bits 8-10) is unmasked in the status register.
    pub fn irq_active(&self, irq_state: InterruptState) -> (r: bool)
        ensures
            r == (self@.sr & 1 != 0 && ((self@.cause | (if irq_state@.status & irq_state@.mask != 0 {
                0x400u32
            } else {
                0u32
            })) & self@.sr) & 0x700 != 0),
    {
        let cause = self.cause(irq_state);
        let pending = (cause & self.sr) & 0x700;
        self.irq_enable() && pending != 0
    }
}

} // verus!
