//! The CPU's state, its instruction fields and its instruction cache lines.
use vstd::prelude::*;
use crate::cop0::Cop0;
use crate::gte::Gte;
use crate::memory::Interconnect;

verus! {

/// A general purpose register index (0..=31).
#[derive(Clone, Copy, Debug, PartialEq, Eq, Structural)]
pub struct RegisterIndex(pub u32);

/// An instruction word.
#[derive(Clone, Copy, Debug, PartialEq, Eq, Structural)]
pub struct Instruction(pub u32);

impl Instruction {
    /// Bits 31-26: the primary opcode.
    pub fn function(self) -> (r: u32)
        ensures
            r == self.0 >> 26u32,
    {
        let Instruction(op) = self;
        op >> 26u32
    }

    /// Bits 5-0: the secondary opcode.
    pub fn subfunction(self) -> (r: u32)
        ensures
            r == self.0 & 0x3f,
    {
        let Instruction(op) = self;
        op & 0x3f
    }

    /// Bits 25-21: the coprocessor opcode.
    pub fn cop_opcode(self) -> (r: u32)
        ensures
            r == (self.0 >> 21u32) & 0x1f,
    {
        let Instruction(op) = self;
        (op >> 21u32) & 0x1f
    }

    /// Bits 25-21: register index s.
    pub fn s(self) -> (r: RegisterIndex)
        ensures
            r.0 == (self.0 >> 21u32) & 0x1f,
    {
        let Instruction(op) = self;
        RegisterIndex((op >> 21u32) & 0x1f)
    }

    /// Bits 20-16: register index t.
    pub fn t(self) -> (r: RegisterIndex)
        ensures
            r.0 == (self.0 >> 16u32) & 0x1f,
    {
        let Instruction(op) = self;
        RegisterIndex((op >> 16u32) & 0x1f)
    }

    /// Bits 15-11: register index d.
    pub fn d(self) -> (r: RegisterIndex)
        ensures
            r.0 == (self.0 >> 11u32) & 0x1f,
    {
        let Instruction(op) = self;
        RegisterIndex((op >> 11u32) & 0x1f)
    }

    /// Bits 15-0: the immediate value.
    pub fn imm(self) -> (r: u32)
        ensures
            r == self.0 & 0xffff,
    {
        let Instruction(op) = self;
        op & 0xffff
    }

    /// Bits 15-0 sign-extended to 32 bits.
    pub fn imm_se(self) -> (r: u32)
        ensures
            r == (self.0 & 0xffff) as i16 as u32,
    {
        let Instruction(op) = self;
        let v = (op & 0xffff) as i16;
        v as u32
    }

    /// Bits 10-6: the shift amount.
    pub fn shift(self) -> (r: u32)
        ensures
            r == (self.0 >> 6u32) & 0x1f,
    {
        let Instruction(op) = self;
        (op >> 6u32) & 0x1f
    }

    /// Bits 25-0: the jump target.
    pub fn imm_jump(self) -> (r: u32)
        ensures
            r == self.0 & 0x3ff_ffff,
    {
        let Instruction(op) = self;
        op & 0x3ff_ffff
    }

    /// The instruction's primary opcode is the coprocessor opcode 0b010001.
    pub fn is_gte_op(self) -> (r: bool)
        ensures
            r == (self.0 >> 26u32 == 0b010001),
    {
        self.function() == 0b010001
    }
}

/// One instruction cache line: tag, first valid word and four instructions.
#[derive(Clone, Copy, Debug)]
pub struct InstrCacheLines {
    tag_valid: u32,
    line: [Instruction; 4],
}

/// A cache line as the tag/valid word and its four instructions.
pub struct CacheLineView {
    pub tag_valid: u32,
    pub line: Seq<Instruction>,
}

impl View for InstrCacheLines {
    type V = CacheLineView;

    closed spec fn view(&self) -> CacheLineView {
        CacheLineView { tag_valid: self.tag_valid, line: self.line@ }
    }
}

impl InstrCacheLines {
    pub fn new() -> (r: Self)
        ensures
            r@.tag_valid == 0,
            r@.line =~= seq![Instruction(0), Instruction(0), Instruction(0), Instruction(0)],
    {
        Self { tag_valid: 0x0, line: [Instruction(0);4] }
    }

    /// The line's tag.
    pub fn tag(&self) -> (r: u32)
        ensures
            r == self@.tag_valid & 0xFFFF_F000,
    {
        self.tag_valid & 0xFFFF_F000
    }

    /// The index of the line's first valid word; 4 or more when none is.
    pub fn valid_index(&self) -> (r: u32)
        ensures
            r == (self@.tag_valid >> 2u32) & 0x7,
    {
        (self.tag_valid >> 2u32) & 0x7
    }

    /// Sets tag and valid bits from `pc`, the first valid address in the line.
    pub fn set_tag_valid(&mut self, pc: u32)
        ensures
            final(self)@.tag_valid == pc & 0x7FFF_F00C,
            final(self)@.line == old(self)@.line,
    {
        self.tag_valid = pc & 0x7FFF_F00C;
    }

    /// Invalidates the whole line by pushing the valid index out of range;
    /// tag and contents stay.
    pub fn invalidate(&mut self)
        ensures
            final(self)@.tag_valid == old(self)@.tag_valid | 0x10,
            final(self)@.line == old(self)@.line,
    {
        self.tag_valid = self.tag_valid | 0x10;
    }

    pub fn instruction(&self, index: u32) -> (r: Instruction)
        requires
            index < 4,
        ensures
            r == self@.line[index as int],
    {
        self.line[index as usize]
    }

    pub fn set_instruction(&mut self, index: u32, instruction: Instruction)
        requires
            index < 4,
        ensures
            final(self)@.tag_valid == old(self)@.tag_valid,
            final(self)@.line == old(self)@.line.update(index as int, instruction),
    {
        self.line[index as usize] = instruction;
        assert(self@.line =~= old(self)@.line.update(index as int, instruction));
    }
}

impl Default for InstrCacheLines {
    fn default() -> (r: Self)
        ensures
            r@.tag_valid == 0,
            r@.line =~= seq![Instruction(0), Instruction(0), Instruction(0), Instruction(0)],
    {
        InstrCacheLines::new()
    }
}

/// The CPU: program counters, registers, instruction cache, bus and coprocessors.
pub struct Cpu {
    /// Program counter.
    pc: u32,
    next_pc: u32,
    current_pc: u32,
    /// General purpose registers.
    regs: [u32; 32],
    /// High register.
    hi: u32,
    /// Low register.
    lo: u32,
    /// Instruction cache line.
    icache: InstrCacheLines,
    /// Memory interface.
    inter: Interconnect,
    /// Coprocessor 0: system control.
    cop0: Cop0,
    /// Coprocessor 2: geometry transformation engine.
    gte: Gte,
    load: (RegisterIndex, u32),
    branch: bool,
    delay_slot: bool,
    debug_on_break: bool,
}

} // verus!
