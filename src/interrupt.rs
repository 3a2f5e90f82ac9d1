//! Interrupt controller state: pending interrupts and the enable mask.
use vstd::prelude::*;

verus! {

/// An interrupt source.
#[derive(Debug, Clone, Copy, PartialEq, Eq, Structural)]
pub enum Interrupt {
    VBlank,
    CdRom,
    Dma,
    Timer0,
    Timer1,
    Timer2,
    PadMemCard,
}

/// The mask bits of the supported interrupt sources.
pub const SUPPORTED_INTERRUPTS: u16 = 0x00FD;

impl Interrupt {
    pub open spec fn spec_line(self) -> u16 {
        match self {
            Interrupt::VBlank => 0,
            Interrupt::CdRom => 2,
            Interrupt::Dma => 3,
            Interrupt::Timer0 => 4,
            Interrupt::Timer1 => 5,
            Interrupt::Timer2 => 6,
            Interrupt::PadMemCard => 7,
        }
    }

    /// The status and mask bit position of the source.
    pub fn line(self) -> (r: u16)
        ensures
            r == self.spec_line(),
    {
        match self {
            Interrupt::VBlank => 0,
            Interrupt::CdRom => 2,
            Interrupt::Dma => 3,
            Interrupt::Timer0 => 4,
            Interrupt::Timer1 => 5,
            Interrupt::Timer2 => 6,
            Interrupt::PadMemCard => 7,
        }
    }
}

/// Pending interrupts and the mask of enabled ones.
#[derive(Debug, Clone, Copy)]
pub struct InterruptState {
    status: u16,
    mask: u16,
}

/// The two registers of the interrupt state.
pub struct InterruptView {
    pub status: u16,
    pub mask: u16,
}

impl View for InterruptState {
    type V = InterruptView;

    closed spec fn view(&self) -> InterruptView {
        InterruptView { status: self.status, mask: self.mask }
    }
}

impl InterruptState {
    pub fn new() -> (r: InterruptState)
        ensures
            r@ == (InterruptView { status: 0, mask: 0 }),
    {
        InterruptState { status: 0, mask: 0 }
    }

    /// An enabled interrupt is pending.
    pub fn active(self) -> (r: bool)
        ensures
            r == (self@.status & self@.mask != 0),
    {
        (self.status & self.mask) != 0
    }

    pub fn status(self) -> (r: u16)
        ensures
            r == self@.status,
    {
        self.status
    }

    /// Acknowledges interrupts: keeps only the status bits set in `ack`.
    pub fn ack(&mut self, ack: u16)
        ensures
            final(self)@ == (InterruptView { status: old(self)@.status & ack, mask: old(self)@.mask }),
    {
        self.status = self.status & ack;
    }

    pub fn mask(self) -> (r: u16)
        ensures
            r == self@.mask,
    {
        self.mask
    }

    /// Sets the enable mask, which may name supported sources only.
    pub fn set_mask(&mut self, mask: u16)
        requires
            mask & !SUPPORTED_INTERRUPTS == 0,
        ensures
            final(self)@ == (InterruptView { status: old(self)@.status, mask }),
    {
        self.mask = mask;
    }

    /// Marks interrupt `which` pending.
    pub fn assert_interrupt(&mut self, which: Interrupt)
        ensures
            final(self)@ == (InterruptView {
                status: old(self)@.status | (1u16 << which.spec_line()),
                mask: old(self)@.mask,
            }),
    {
        self.status = self.status | (1u16 << which.line());
    }
}

} // verus!
