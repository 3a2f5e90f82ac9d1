//! Decoding of a geometry command word: the opcode, and the configuration
//! shared by the routines (shift, clamping, operand selection).
use vstd::prelude::*;

verus! {

/// A decode-level failure of the coprocessor interface.
#[derive(Clone, Copy, Debug, PartialEq, Eq, Structural)]
pub enum GteError {
    /// The low six bits of a command word name no routine.
    UnsupportedOpcode(u32),
    /// A register index outside `0..=31`.
    UnsupportedRegister(u32),
    /// A multiply that selects the invalid matrix or adds the far color vector.
    InvalidOperandSelection,
}

/// The matrix selected by bits 17-18 of a command word.
#[derive(Clone, Copy, Debug, PartialEq, Eq, Structural)]
pub enum Matrix {
    Rotation,
    Light,
    Color,
    Invalid,
}

/// The control vector selected by bits 13-14 of a command word.
#[derive(Clone, Copy, Debug, PartialEq, Eq, Structural)]
pub enum ControlVector {
    Translation,
    BackgroundColor,
    FarColor,
    Zero,
}

/// The routine named by the low six bits of a command word.
#[derive(Clone, Copy, Debug, PartialEq, Eq, Structural)]
pub enum Opcode {
    Rtps,
    Nclip,
    Op,
    Dpcs,
    Intpl,
    Mvmva,
    Ncds,
    Ncdt,
    Nccs,
    Cc,
    Ncs,
    Nct,
    Sqr,
    Dcpl,
    Dpct,
    Avsz3,
    Avsz4,
    Rtpt,
    Gpf,
    Gpl,
    Ncct,
}

/// The configuration fields of a command word.
#[derive(Clone, Copy, Debug)]
pub struct CommandConfig {
    /// 12 when bit 19 is set, else 0.
    pub shift: u8,
    /// Bit 10: IR saturation clamps negative values to zero.
    pub clamp_negative: bool,
    pub matrix: Matrix,
    /// Bits 15-16: which of v0-v3 a general multiply reads.
    pub vector_mul: u8,
    pub vector_add: ControlVector,
}

impl Matrix {
    pub open spec fn spec_from_command(command: u32) -> Matrix {
        let sel = (command >> 17u32) & 3;
        if sel == 0 {
            Matrix::Rotation
        } else if sel == 1 {
            Matrix::Light
        } else if sel == 2 {
            Matrix::Color
        } else {
            Matrix::Invalid
        }
    }

    /// Position of the matrix in the register file.
    pub open spec fn spec_index(self) -> int {
        match self {
            Matrix::Rotation => 0,
            Matrix::Light => 1,
            Matrix::Color => 2,
            Matrix::Invalid => 3,
        }
    }

    pub fn from_command(command: u32) -> (r: Matrix)
        ensures
            r == Matrix::spec_from_command(command),
    {
        let sel = (command >> 17u32) & 3;
        if sel == 0 {
            Matrix::Rotation
        } else if sel == 1 {
            Matrix::Light
        } else if sel == 2 {
            Matrix::Color
        } else {
            Matrix::Invalid
        }
    }

    pub fn index(self) -> (r: usize)
        ensures
            r as int == self.spec_index(),
    {
        match self {
            Matrix::Rotation => 0,
            Matrix::Light => 1,
            Matrix::Color => 2,
            Matrix::Invalid => 3,
        }
    }
}

impl ControlVector {
    pub open spec fn spec_from_command(command: u32) -> ControlVector {
        let sel = (command >> 13u32) & 3;
        if sel == 0 {
            ControlVector::Translation
        } else if sel == 1 {
            ControlVector::BackgroundColor
        } else if sel == 2 {
            ControlVector::FarColor
        } else {
            ControlVector::Zero
        }
    }

    /// Position of the vector in the register file; `Zero` has none and reads as zeros.
    pub open spec fn spec_index(self) -> int {
        match self {
            ControlVector::Translation => 0,
            ControlVector::BackgroundColor => 1,
            ControlVector::FarColor => 2,
            ControlVector::Zero => 3,
        }
    }

    pub fn from_command(command: u32) -> (r: ControlVector)
        ensures
            r == ControlVector::spec_from_command(command),
    {
        let sel = (command >> 13u32) & 3;
        if sel == 0 {
            ControlVector::Translation
        } else if sel == 1 {
            ControlVector::BackgroundColor
        } else if sel == 2 {
            ControlVector::FarColor
        } else {
            ControlVector::Zero
        }
    }

    pub fn index(self) -> (r: usize)
        ensures
            r as int == self.spec_index(),
    {
        match self {
            ControlVector::Translation => 0,
            ControlVector::BackgroundColor => 1,
            ControlVector::FarColor => 2,
            ControlVector::Zero => 3,
        }
    }
}

impl CommandConfig {
    pub open spec fn spec_from_command(command: u32) -> CommandConfig {
        CommandConfig {
            shift: if command & 0x8_0000 != 0 {
                12
            } else {
                0
            },
            clamp_negative: command & 0x400 != 0,
            matrix: Matrix::spec_from_command(command),
            vector_mul: ((command >> 15u32) & 3) as u8,
            vector_add: ControlVector::spec_from_command(command),
        }
    }

    /// The shift is 0 or 12 and the multiplied vector one of v0-v3.
    pub open spec fn wf(self) -> bool {
        &&& (self.shift == 0 || self.shift == 12)
        &&& self.vector_mul < 4
    }

    /// A multiply may run with this selection.
    pub open spec fn multiply_allowed(self) -> bool {
        self.matrix != Matrix::Invalid && self.vector_add != ControlVector::FarColor
    }

    pub fn from_command(command: u32) -> (r: CommandConfig)
        ensures
            r == CommandConfig::spec_from_command(command),
            r.wf(),
    {
        let shift: u8 = if command & 0x8_0000 != 0 {
            12
        } else {
            0
        };
        let clamp_negative = command & 0x400 != 0;
        let vector_index = (command >> 15u32) & 3;
        assert(((command >> 15u32) & 3) < 4) by (bit_vector);
        CommandConfig {
            shift,
            clamp_negative,
            matrix: Matrix::from_command(command),
            vector_mul: vector_index as u8,
            vector_add: ControlVector::from_command(command),
        }
    }
}

impl Opcode {
    pub open spec fn spec_decode(opcode: u32) -> Result<Opcode, GteError> {
        if opcode == 0x01 {
            Ok(Opcode::Rtps)
        } else if opcode == 0x06 {
            Ok(Opcode::Nclip)
        } else if opcode == 0x0c {
            Ok(Opcode::Op)
        } else if opcode == 0x10 {
            Ok(Opcode::Dpcs)
        } else if opcode == 0x11 {
            Ok(Opcode::Intpl)
        } else if opcode == 0x12 {
            Ok(Opcode::Mvmva)
        } else if opcode == 0x13 {
            Ok(Opcode::Ncds)
        } else if opcode == 0x16 {
            Ok(Opcode::Ncdt)
        } else if opcode == 0x1b {
            Ok(Opcode::Nccs)
        } else if opcode == 0x1c {
            Ok(Opcode::Cc)
        } else if opcode == 0x1e {
            Ok(Opcode::Ncs)
        } else if opcode == 0x20 {
            Ok(Opcode::Nct)
        } else if opcode == 0x28 {
            Ok(Opcode::Sqr)
        } else if opcode == 0x29 {
            Ok(Opcode::Dcpl)
        } else if opcode == 0x2a {
            Ok(Opcode::Dpct)
        } else if opcode == 0x2d {
            Ok(Opcode::Avsz3)
        } else if opcode == 0x2e {
            Ok(Opcode::Avsz4)
        } else if opcode == 0x30 {
            Ok(Opcode::Rtpt)
        } else if opcode == 0x3d {
            Ok(Opcode::Gpf)
        } else if opcode == 0x3e {
            Ok(Opcode::Gpl)
        } else if opcode == 0x3f {
            Ok(Opcode::Ncct)
        } else {
            Err(GteError::UnsupportedOpcode(opcode))
        }
    }

    /// Decodes the routine named by `opcode` (the low six bits of a command word).
    pub fn decode(opcode: u32) -> (r: Result<Opcode, GteError>)
        ensures
            r == Opcode::spec_decode(opcode),
    {
        match opcode {
            0x01 => Ok(Opcode::Rtps),
            0x06 => Ok(Opcode::Nclip),
            0x0c => Ok(Opcode::Op),
            0x10 => Ok(Opcode::Dpcs),
            0x11 => Ok(Opcode::Intpl),
            0x12 => Ok(Opcode::Mvmva),
            0x13 => Ok(Opcode::Ncds),
            0x16 => Ok(Opcode::Ncdt),
            0x1b => Ok(Opcode::Nccs),
            0x1c => Ok(Opcode::Cc),
            0x1e => Ok(Opcode::Ncs),
            0x20 => Ok(Opcode::Nct),
            0x28 => Ok(Opcode::Sqr),
            0x29 => Ok(Opcode::Dcpl),
            0x2a => Ok(Opcode::Dpct),
            0x2d => Ok(Opcode::Avsz3),
            0x2e => Ok(Opcode::Avsz4),
            0x30 => Ok(Opcode::Rtpt),
            0x3d => Ok(Opcode::Gpf),
            0x3e => Ok(Opcode::Gpl),
            0x3f => Ok(Opcode::Ncct),
            _ => Err(GteError::UnsupportedOpcode(opcode)),
        }
    }
}

} // verus!
