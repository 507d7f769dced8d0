//! The mathematical model of the machine: its state as plain sequences and
//! integers, and the meaning of every instruction as a function on states.

use crate::display::{blit, blit_collides};
use crate::memory::{bcd_stored, registers_stored};
use crate::opcode::{decode_spec, AluOp, Instruction};
use crate::registers::{registers_loaded, ticked};
use vstd::prelude::*;

verus! {

/// Why the machine stopped. Every fault names the address of the instruction
/// that caused it; the machine state is the one before that instruction.
#[derive(Clone, Copy, Debug, PartialEq, Eq, Structural)]
pub enum Fault {
    /// The two bytes at `pc` do not both lie inside memory.
    FetchOutOfRange { pc: u16 },
    /// The word `opcode` found at `pc` encodes no instruction.
    UnknownOpcode { pc: u16, opcode: u16 },
    /// A call was made with sixteen return addresses already on the stack.
    StackOverflow { pc: u16 },
    /// A return was made with no return address on the stack.
    StackUnderflow { pc: u16 },
    /// The instruction `opcode` at `pc` reaches past the end of memory from I.
    AddressOutOfRange { pc: u16, opcode: u16 },
}

/// The whole state of the machine.
#[verifier::ext_equal]
pub struct Machine {
    /// The 4096 bytes of memory.
    pub memory: Seq<u8>,
    /// V0 to VF.
    pub v: Seq<u8>,
    /// The index register.
    pub i: u16,
    /// The delay timer.
    pub delay: u8,
    /// The sound timer.
    pub sound: u8,
    /// The address of the next instruction.
    pub pc: u16,
    /// The number of return addresses on the stack.
    pub sp: u8,
    /// The sixteen stack slots.
    pub stack: Seq<u16>,
    /// The 2048 cells of the screen, row by row.
    pub display: Seq<bool>,
    /// Whether the shifts work on VX in place instead of shifting VY into VX.
    pub shiftquirk: bool,
}

impl Machine {
    /// The sequences have the sizes of the machine.
    pub open spec fn well_formed(self) -> bool {
        &&& self.memory.len() == 4096
        &&& self.v.len() == 16
        &&& self.stack.len() == 16
        &&& self.display.len() == 2048
    }

    /// The stack pointer is within the stack: between 0 and 16 entries are in use.
    pub open spec fn stack_in_bounds(self) -> bool {
        self.sp <= 16
    }
}

/// The 16-bit word whose high byte is `high` and whose low byte is `low`.
pub open spec fn big_endian_word(high: u8, low: u8) -> u16 {
    (high as int * 256 + low as int) as u16
}

/// The opcode at the program counter, or `None` if it would lie outside memory.
pub open spec fn fetch_spec(m: Machine) -> Option<u16> {
    if m.pc as int + 1 < 4096 {
        Some(big_endian_word(m.memory[m.pc as int], m.memory[m.pc as int + 1]))
    } else {
        None
    }
}

/// The value that an operation of the `8XY_` family leaves in VX, and the
/// value that it leaves in VF if it sets the flag. `vx` and `vy` are the
/// registers before the operation.
pub open spec fn alu_result(op: AluOp, vx: u8, vy: u8, shiftquirk: bool) -> (u8, Option<u8>) {
    let shifted = if shiftquirk {
        vx
    } else {
        vy
    };
    match op {
        AluOp::Copy => (vy, None),
        AluOp::Or => (vx | vy, None),
        AluOp::And => (vx & vy, None),
        AluOp::Xor => (vx ^ vy, None),
        AluOp::Add => (
            ((vx + vy) % 256) as u8,
            Some(
                if vx + vy > 255 {
                    1u8
                } else {
                    0u8
                },
            ),
        ),
        AluOp::Sub => (
            ((vx - vy) % 256) as u8,
            Some(
                if vx >= vy {
                    1u8
                } else {
                    0u8
                },
            ),
        ),
        AluOp::ShiftRight => ((shifted / 2) as u8, Some((shifted % 2) as u8)),
        AluOp::SubFrom => (
            ((vy - vx) % 256) as u8,
            Some(
                if vy >= vx {
                    1u8
                } else {
                    0u8
                },
            ),
        ),
        AluOp::ShiftLeft => (((shifted * 2) % 256) as u8, Some((shifted / 128) as u8)),
    }
}

/// The registers after an operation of the `8XY_` family: VX receives the
/// result first and VF the flag second, so the flag wins when `x` is 15.
pub open spec fn alu_registers(v: Seq<u8>, op: AluOp, x: int, y: int, shiftquirk: bool) -> Seq<
    u8,
> {
    let (value, flag) = alu_result(op, v[x], v[y], shiftquirk);
    let stored = v.update(x, value);
    match flag {
        Some(f) => stored.update(15, f),
        None => stored,
    }
}

/// The `n` sprite rows found in memory from address `i` on.
pub open spec fn sprite_at(memory: Seq<u8>, i: int, n: int) -> Seq<u8> {
    Seq::new(n as nat, |row: int| memory[i + row])
}

/// The address that follows `next` when the skip condition holds, else `next`.
pub open spec fn skip_if(condition: bool, next: u16) -> u16 {
    if condition {
        (next + 2) as u16
    } else {
        next
    }
}

/// The fault with which `ins`, found as `opcode` at the program counter of
/// `m`, stops the machine; `None` if it executes.
pub open spec fn fault_of(m: Machine, opcode: u16, ins: Instruction) -> Option<Fault> {
    match ins {
        Instruction::Return => if m.sp == 0 {
            Some(Fault::StackUnderflow { pc: m.pc })
        } else if m.sp > 16 {
            Some(Fault::StackOverflow { pc: m.pc })
        } else {
            None
        },
        Instruction::Call { .. } => if m.sp >= 16 {
            Some(Fault::StackOverflow { pc: m.pc })
        } else {
            None
        },
        Instruction::Draw { n, .. } => if n > 0 && m.i + n > 4096 {
            Some(Fault::AddressOutOfRange { pc: m.pc, opcode })
        } else {
            None
        },
        Instruction::StoreBcd { .. } => if m.i + 3 > 4096 {
            Some(Fault::AddressOutOfRange { pc: m.pc, opcode })
        } else {
            None
        },
        Instruction::StoreRegisters { x } | Instruction::LoadRegisters { x } => if m.i + x + 1
            > 4096 {
            Some(Fault::AddressOutOfRange { pc: m.pc, opcode })
        } else {
            None
        },
        _ => None,
    }
}

/// The state after `ins`, fetched from the program counter of `m`, has run.
/// The program counter first moves past the instruction; jumps, calls, returns
/// and skips then work on that advanced value. Meaningful when `fault_of` is
/// `None`.
pub open spec fn effect_of(m: Machine, ins: Instruction) -> Machine {
    let next = (m.pc + 2) as u16;
    match ins {
        Instruction::ClearScreen => Machine {
            pc: next,
            display: Seq::new(2048, |idx: int| false),
            ..m
        },
        Instruction::Return => Machine {
            pc: m.stack[m.sp - 1],
            sp: (m.sp - 1) as u8,
            ..m
        },
        Instruction::Jump { addr } => Machine { pc: addr, ..m },
        Instruction::Call { addr } => Machine {
            pc: addr,
            sp: (m.sp + 1) as u8,
            stack: m.stack.update(m.sp as int, next),
            ..m
        },
        Instruction::SkipIfEqual { x, kk } => Machine {
            pc: skip_if(m.v[x as int] == kk, next),
            ..m
        },
        Instruction::SkipIfNotEqual { x, kk } => Machine {
            pc: skip_if(m.v[x as int] != kk, next),
            ..m
        },
        Instruction::SkipIfSame { x, y } => Machine { pc: skip_if(x == y, next), ..m },
        Instruction::Load { x, kk } => Machine { pc: next, v: m.v.update(x as int, kk), ..m },
        Instruction::AddByte { x, kk } => Machine {
            pc: next,
            v: m.v.update(x as int, ((m.v[x as int] + kk) % 256) as u8),
            ..m
        },
        Instruction::Alu { op, x, y } => Machine {
            pc: next,
            v: alu_registers(m.v, op, x as int, y as int, m.shiftquirk),
            ..m
        },
        Instruction::SkipIfDistinct { x, y } => Machine { pc: skip_if(x != y, next), ..m },
        Instruction::LoadIndex { addr } => Machine { pc: next, i: addr, ..m },
        Instruction::Draw { x, y, n } => {
            let sprite = sprite_at(m.memory, m.i as int, n as int);
            let vx = m.v[x as int] as int;
            let vy = m.v[y as int] as int;
            Machine {
                pc: next,
                display: blit(m.display, sprite, vx, vy),
                v: m.v.update(
                    15,
                    if blit_collides(m.display, sprite, vx, vy) {
                        1u8
                    } else {
                        0u8
                    },
                ),
                ..m
            }
        },
        Instruction::ReadDelay { x } => Machine { pc: next, v: m.v.update(x as int, m.delay), ..m },
        Instruction::WaitKey { x } => Machine { pc: next, ..m },
        Instruction::SetDelay { x } => Machine { pc: next, delay: m.v[x as int], ..m },
        Instruction::SetSound { x } => Machine { pc: next, sound: m.v[x as int], ..m },
        Instruction::AddIndex { x } => Machine {
            pc: next,
            i: ((m.i + m.v[x as int]) % 0x10000) as u16,
            ..m
        },
        Instruction::FontGlyph { x } => Machine { pc: next, i: (m.v[x as int] * 5) as u16, ..m },
        Instruction::StoreBcd { x } => Machine {
            pc: next,
            memory: bcd_stored(m.memory, m.i as int, m.v[x as int]),
            ..m
        },
        Instruction::StoreRegisters { x } => Machine {
            pc: next,
            memory: registers_stored(m.memory, m.v, m.i as int, x as int),
            ..m
        },
        Instruction::LoadRegisters { x } => Machine {
            pc: next,
            v: registers_loaded(m.memory, m.v, m.i as int, x as int),
            ..m
        },
    }
}

/// What running `ins`, found as `opcode` at the program counter, does to `m`.
pub open spec fn execute_spec(m: Machine, opcode: u16, ins: Instruction) -> Result<
    Machine,
    Fault,
> {
    match fault_of(m, opcode, ins) {
        Some(fault) => Err(fault),
        None => Ok(effect_of(m, ins)),
    }
}

/// The state in which the machine starts: the given memory, everything else
/// zero or dark, and the program counter at `0x200`.
pub open spec fn initial_machine(memory: Seq<u8>, shiftquirk: bool) -> Machine {
    Machine {
        memory,
        v: Seq::new(16, |k: int| 0u8),
        i: 0,
        delay: 0,
        sound: 0,
        pc: 0x200,
        sp: 0,
        stack: Seq::new(16, |k: int| 0u16),
        display: Seq::new(2048, |idx: int| false),
        shiftquirk,
    }
}

/// One instruction cycle: fetch the opcode at the program counter, decode it
/// and run it. A fault leaves no trace in the state.
pub open spec fn step_spec(m: Machine) -> Result<Machine, Fault> {
    match fetch_spec(m) {
        None => Err(Fault::FetchOutOfRange { pc: m.pc }),
        Some(opcode) => match decode_spec(opcode) {
            None => Err(Fault::UnknownOpcode { pc: m.pc, opcode }),
            Some(ins) => execute_spec(m, opcode, ins),
        },
    }
}

/// The state after one 60 Hz tick: both timers count down, nothing else moves.
pub open spec fn tick_spec(m: Machine) -> Machine {
    Machine { delay: ticked(m.delay), sound: ticked(m.sound), ..m }
}

/// One quantum of machine time: a timer tick, then one instruction cycle.
/// Gives the state that the quantum leaves behind and the fault, if any, that
/// ended it. A fault leaves the ticked state.
pub open spec fn update_spec(m: Machine) -> (Machine, Option<Fault>) {
    let ticked = tick_spec(m);
    match step_spec(ticked) {
        Ok(next) => (next, None),
        Err(fault) => (ticked, Some(fault)),
    }
}

/// Up to `quanta` quanta in a row, stopping after the first one that faults.
pub open spec fn run_spec(m: Machine, quanta: nat) -> (Machine, Option<Fault>)
    decreases quanta,
{
    if quanta == 0 {
        (m, None)
    } else {
        let (next, fault) = update_spec(m);
        if fault is Some {
            (next, fault)
        } else {
            run_spec(next, (quanta - 1) as nat)
        }
    }
}

/// What a caller is told about a run that ended with `fault`.
pub open spec fn outcome(fault: Option<Fault>) -> Result<(), Fault> {
    match fault {
        Some(f) => Err(f),
        None => Ok(()),
    }
}

} // verus!
