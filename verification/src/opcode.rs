//! Instructions and the decoder that turns a 16-bit opcode into one.
//!
//! An opcode is written as four hexadecimal digits. `X` and `Y` name
//! registers, `KK` is a byte, `NNN` an address and `N` a sprite height.

use vstd::prelude::*;

verus! {

/// The register-to-register operations of the `8XY_` family.
#[derive(Clone, Copy, Debug, PartialEq, Eq, Structural)]
pub enum AluOp {
    /// `8XY0`: VX takes the value of VY.
    Copy,
    /// `8XY1`: bitwise or.
    Or,
    /// `8XY2`: bitwise and.
    And,
    /// `8XY3`: bitwise exclusive or.
    Xor,
    /// `8XY4`: addition; VF receives the carry.
    Add,
    /// `8XY5`: VX minus VY; VF receives 1 unless there is a borrow.
    Sub,
    /// `8XY6`: shift right by one; VF receives the bit shifted out.
    ShiftRight,
    /// `8XY7`: VY minus VX; VF receives 1 unless there is a borrow.
    SubFrom,
    /// `8XYE`: shift left by one; VF receives the bit shifted out.
    ShiftLeft,
}

/// One decoded instruction.
#[derive(Clone, Copy, Debug, PartialEq, Eq, Structural)]
pub enum Instruction {
    /// `00E0`: clear the screen.
    ClearScreen,
    /// `00EE`: return from a subroutine.
    Return,
    /// `1NNN`: jump to `addr`.
    Jump { addr: u16 },
    /// `2NNN`: call the subroutine at `addr`.
    Call { addr: u16 },
    /// `3XKK`: skip the next instruction if VX equals `kk`.
    SkipIfEqual { x: u8, kk: u8 },
    /// `4XKK`: skip the next instruction if VX differs from `kk`.
    SkipIfNotEqual { x: u8, kk: u8 },
    /// `5XY0`: skip the next instruction if `x` and `y` name the same
    /// register. It is the two register names that are compared, not what
    /// the registers hold.
    SkipIfSame { x: u8, y: u8 },
    /// `6XKK`: VX takes the value `kk`.
    Load { x: u8, kk: u8 },
    /// `7XKK`: add `kk` to VX, wrapping, without touching VF.
    AddByte { x: u8, kk: u8 },
    /// `8XY_`: a register-to-register operation.
    Alu { op: AluOp, x: u8, y: u8 },
    /// `9XY0`: skip the next instruction if `x` and `y` name different
    /// registers. Again the names are compared, not what the registers hold.
    SkipIfDistinct { x: u8, y: u8 },
    /// `ANNN`: I takes the value `addr`.
    LoadIndex { addr: u16 },
    /// `DXYN`: draw the `n`-row sprite found at I at position (VX, VY).
    Draw { x: u8, y: u8, n: u8 },
    /// `FX07`: VX takes the value of the delay timer.
    ReadDelay { x: u8 },
    /// `FX0A`: wait for a key; the keypad is not modelled and nothing happens.
    WaitKey { x: u8 },
    /// `FX15`: the delay timer takes the value of VX.
    SetDelay { x: u8 },
    /// `FX18`: the sound timer takes the value of VX.
    SetSound { x: u8 },
    /// `FX1E`: add VX to I.
    AddIndex { x: u8 },
    /// `FX29`: I takes the address of the glyph for the digit in VX.
    FontGlyph { x: u8 },
    /// `FX33`: store the three decimal digits of VX at I, I+1 and I+2.
    StoreBcd { x: u8 },
    /// `FX55`: store V0 to VX in memory from I on.
    StoreRegisters { x: u8 },
    /// `FX65`: load V0 to VX from memory from I on.
    LoadRegisters { x: u8 },
}

impl Instruction {
    /// Every register index is below 16, every address below `0x1000` and a
    /// sprite height below 16: what four hexadecimal digits can express.
    pub open spec fn valid(self) -> bool {
        match self {
            Instruction::ClearScreen | Instruction::Return => true,
            Instruction::Jump { addr } | Instruction::Call { addr } | Instruction::LoadIndex {
                addr,
            } => addr < 0x1000,
            Instruction::SkipIfEqual { x, .. }
            | Instruction::SkipIfNotEqual { x, .. }
            | Instruction::Load { x, .. }
            | Instruction::AddByte { x, .. }
            | Instruction::ReadDelay { x }
            | Instruction::WaitKey { x }
            | Instruction::SetDelay { x }
            | Instruction::SetSound { x }
            | Instruction::AddIndex { x }
            | Instruction::FontGlyph { x }
            | Instruction::StoreBcd { x }
            | Instruction::StoreRegisters { x }
            | Instruction::LoadRegisters { x } => x < 16,
            Instruction::SkipIfSame { x, y }
            | Instruction::SkipIfDistinct { x, y }
            | Instruction::Alu { x, y, .. } => x < 16 && y < 16,
            Instruction::Draw { x, y, n } => x < 16 && y < 16 && n < 16,
        }
    }
}

/// The first hexadecimal digit of an opcode: the instruction family.
pub open spec fn family(opcode: u16) -> int {
    opcode as int / 0x1000
}

/// The second hexadecimal digit of an opcode.
pub open spec fn field_x(opcode: u16) -> u8 {
    ((opcode as int / 0x100) % 0x10) as u8
}

/// The third hexadecimal digit of an opcode.
pub open spec fn field_y(opcode: u16) -> u8 {
    ((opcode as int / 0x10) % 0x10) as u8
}

/// The last hexadecimal digit of an opcode.
pub open spec fn field_n(opcode: u16) -> u8 {
    (opcode as int % 0x10) as u8
}

/// The low byte of an opcode.
pub open spec fn field_kk(opcode: u16) -> u8 {
    (opcode as int % 0x100) as u8
}

/// The low three hexadecimal digits of an opcode.
pub open spec fn field_nnn(opcode: u16) -> u16 {
    (opcode as int % 0x1000) as u16
}

/// The operation selected by the last digit of an `8XY_` opcode.
pub open spec fn alu_op_of(n: u8) -> Option<AluOp> {
    if n == 0x0 {
        Some(AluOp::Copy)
    } else if n == 0x1 {
        Some(AluOp::Or)
    } else if n == 0x2 {
        Some(AluOp::And)
    } else if n == 0x3 {
        Some(AluOp::Xor)
    } else if n == 0x4 {
        Some(AluOp::Add)
    } else if n == 0x5 {
        Some(AluOp::Sub)
    } else if n == 0x6 {
        Some(AluOp::ShiftRight)
    } else if n == 0x7 {
        Some(AluOp::SubFrom)
    } else if n == 0xE {
        Some(AluOp::ShiftLeft)
    } else {
        None
    }
}

/// The instruction of the `FX__` family selected by the low byte.
pub open spec fn timer_memory_op_of(x: u8, kk: u8) -> Option<Instruction> {
    if kk == 0x07 {
        Some(Instruction::ReadDelay { x })
    } else if kk == 0x0A {
        Some(Instruction::WaitKey { x })
    } else if kk == 0x15 {
        Some(Instruction::SetDelay { x })
    } else if kk == 0x18 {
        Some(Instruction::SetSound { x })
    } else if kk == 0x1E {
        Some(Instruction::AddIndex { x })
    } else if kk == 0x29 {
        Some(Instruction::FontGlyph { x })
    } else if kk == 0x33 {
        Some(Instruction::StoreBcd { x })
    } else if kk == 0x55 {
        Some(Instruction::StoreRegisters { x })
    } else if kk == 0x65 {
        Some(Instruction::LoadRegisters { x })
    } else {
        None
    }
}

/// The instruction that `opcode` encodes, or `None` if it encodes none.
pub open spec fn decode_spec(opcode: u16) -> Option<Instruction> {
    let x = field_x(opcode);
    let y = field_y(opcode);
    let n = field_n(opcode);
    let kk = field_kk(opcode);
    let addr = field_nnn(opcode);
    let family = family(opcode);
    if opcode == 0x00E0 {
        Some(Instruction::ClearScreen)
    } else if opcode == 0x00EE {
        Some(Instruction::Return)
    } else if family == 0x1 {
        Some(Instruction::Jump { addr })
    } else if family == 0x2 {
        Some(Instruction::Call { addr })
    } else if family == 0x3 {
        Some(Instruction::SkipIfEqual { x, kk })
    } else if family == 0x4 {
        Some(Instruction::SkipIfNotEqual { x, kk })
    } else if family == 0x5 && n == 0 {
        Some(Instruction::SkipIfSame { x, y })
    } else if family == 0x6 {
        Some(Instruction::Load { x, kk })
    } else if family == 0x7 {
        Some(Instruction::AddByte { x, kk })
    } else if family == 0x8 {
        match alu_op_of(n) {
            Some(op) => Some(Instruction::Alu { op, x, y }),
            None => None,
        }
    } else if family == 0x9 && n == 0 {
        Some(Instruction::SkipIfDistinct { x, y })
    } else if family == 0xA {
        Some(Instruction::LoadIndex { addr })
    } else if family == 0xD {
        Some(Instruction::Draw { x, y, n })
    } else if family == 0xF {
        timer_memory_op_of(x, kk)
    } else {
        None
    }
}

/// Every decoded instruction is valid.
pub proof fn lemma_decoded_is_valid(opcode: u16)
    ensures
        decode_spec(opcode) matches Some(ins) ==> ins.valid(),
{
}

/// Decodes `opcode`. `None` means that the opcode is not an instruction of
/// this machine.
pub fn decode(opcode: u16) -> (ins: Option<Instruction>)
    ensures
        ins == decode_spec(opcode),
{
    let family: u16 = opcode >> 12;
    let x: u8 = ((opcode & 0x0f00) >> 8) as u8;
    let y: u8 = ((opcode & 0x00f0) >> 4) as u8;
    let n: u8 = (opcode & 0x000f) as u8;
    let kk: u8 = (opcode & 0x00ff) as u8;
    let addr: u16 = opcode & 0x0fff;
    proof {
        assert(opcode >> 12 == opcode / 0x1000) by (bit_vector);
        assert((opcode & 0x0f00) >> 8 == (opcode / 0x100) % 0x10) by (bit_vector);
        assert((opcode & 0x00f0) >> 4 == (opcode / 0x10) % 0x10) by (bit_vector);
        assert(opcode & 0x000f == opcode % 0x10) by (bit_vector);
        assert(opcode & 0x00ff == opcode % 0x100) by (bit_vector);
        assert(opcode & 0x0fff == opcode % 0x1000) by (bit_vector);
    }
    if opcode == 0x00e0 {
        Some(Instruction::ClearScreen)
    } else if opcode == 0x00ee {
        Some(Instruction::Return)
    } else if family == 0x1 {
        Some(Instruction::Jump { addr })
    } else if family == 0x2 {
        Some(Instruction::Call { addr })
    } else if family == 0x3 {
        Some(Instruction::SkipIfEqual { x, kk })
    } else if family == 0x4 {
        Some(Instruction::SkipIfNotEqual { x, kk })
    } else if family == 0x5 && n == 0 {
        Some(Instruction::SkipIfSame { x, y })
    } else if family == 0x6 {
        Some(Instruction::Load { x, kk })
    } else if family == 0x7 {
        Some(Instruction::AddByte { x, kk })
    } else if family == 0x8 {
        match n {
            0x0 => Some(Instruction::Alu { op: AluOp::Copy, x, y }),
            0x1 => Some(Instruction::Alu { op: AluOp::Or, x, y }),
            0x2 => Some(Instruction::Alu { op: AluOp::And, x, y }),
            0x3 => Some(Instruction::Alu { op: AluOp::Xor, x, y }),
            0x4 => Some(Instruction::Alu { op: AluOp::Add, x, y }),
            0x5 => Some(Instruction::Alu { op: AluOp::Sub, x, y }),
            0x6 => Some(Instruction::Alu { op: AluOp::ShiftRight, x, y }),
            0x7 => Some(Instruction::Alu { op: AluOp::SubFrom, x, y }),
            0xe => Some(Instruction::Alu { op: AluOp::ShiftLeft, x, y }),
            _ => None,
        }
    } else if family == 0x9 && n == 0 {
        Some(Instruction::SkipIfDistinct { x, y })
    } else if family == 0xa {
        Some(Instruction::LoadIndex { addr })
    } else if family == 0xd {
        Some(Instruction::Draw { x, y, n })
    } else if family == 0xf {
        match kk {
            0x07 => Some(Instruction::ReadDelay { x }),
            0x0a => Some(Instruction::WaitKey { x }),
            0x15 => Some(Instruction::SetDelay { x }),
            0x18 => Some(Instruction::SetSound { x }),
            0x1e => Some(Instruction::AddIndex { x }),
            0x29 => Some(Instruction::FontGlyph { x }),
            0x33 => Some(Instruction::StoreBcd { x }),
            0x55 => Some(Instruction::StoreRegisters { x }),
            0x65 => Some(Instruction::LoadRegisters { x }),
            _ => None,
        }
    } else {
        None
    }
}

} // verus!
