//! The execution engine: fetch, decode, execute, and the quantum that drives
//! the timers and the engine together.
//!
//! The machine is driven from a single thread with a fixed time step: one
//! quantum of machine time is one timer tick followed by one instruction.
//! All state is held in ordinary fields and needs no synchronisation.

use crate::display::Framebuffer;
use crate::memory::Memory;
use crate::model::{
    alu_result, big_endian_word, execute_spec, fetch_spec, initial_machine, outcome, run_spec,
    sprite_at, step_spec, tick_spec, update_spec, Fault, Machine,
};
use crate::opcode::{decode, lemma_decoded_is_valid, AluOp, Instruction};
use crate::registers::{Registers, FLAG_REGISTER};
use byteorder::{BigEndian, ReadBytesExt};
use std::io::Cursor;
use vstd::prelude::*;
use vstd::slice::slice_subrange;

verus! {

/// The word that a big-endian reader finds at the front of `bytes`, if there
/// are two bytes to read.
pub open spec fn leading_word(bytes: Seq<u8>) -> Option<u16> {
    if bytes.len() >= 2 {
        Some(big_endian_word(bytes[0], bytes[1]))
    } else {
        None
    }
}

/// Reads the first two bytes of `bytes` as a big-endian word with byteorder's
/// `ReadBytesExt::read_u16::<BigEndian>` on a `std::io::Cursor`. That method
/// fills a two-byte buffer with `read_exact`, which fails when fewer than two
/// bytes are left, and hands the buffer to `u16::from_be_bytes`: the first
/// byte is the high one.
#[verifier::external_body]
fn read_u16_be(bytes: &[u8]) -> (word: Option<u16>)
    ensures
        word == leading_word(bytes@),
{
    Cursor::new(bytes).read_u16::<BigEndian>().ok()
}

/// The machine: memory, registers, call stack, screen and configuration.
pub struct Cpu {
    /// The 4096 bytes of memory.
    pub memory: Memory,
    /// V0 to VF, I and the two timers.
    pub registers: Registers,
    /// Address of the next instruction.
    pub pc: u16,
    /// Number of return addresses on the stack.
    pub sp: u8,
    /// The return addresses; the slots from `sp` on are free.
    pub stack: [u16; 16],
    /// The screen.
    pub display: Framebuffer,
    /// Whether `8XY6` and `8XYE` shift VX in place instead of shifting VY into VX.
    pub shiftquirk: bool,
}

impl View for Cpu {
    type V = Machine;

    open spec fn view(&self) -> Machine {
        Machine {
            memory: self.memory@,
            v: self.registers.v@,
            i: self.registers.i,
            delay: self.registers.delay,
            sound: self.registers.sound,
            pc: self.pc,
            sp: self.sp,
            stack: self.stack@,
            display: self.display@,
            shiftquirk: self.shiftquirk,
        }
    }
}

/// The state of a machine always has the sizes of the machine.
pub proof fn lemma_view_is_well_formed(cpu: &Cpu)
    ensures
        cpu@.well_formed(),
{
}

/// Computes an operation of the `8XY_` family on the register values `vx`
/// and `vy`: the new value of VX and, for the operations that set it, the new
/// value of VF. With `shiftquirk` the shifts take VX as their operand,
/// without it VY; the flag of a shift is the bit that the shift pushes out.
pub fn alu(op: AluOp, vx: u8, vy: u8, shiftquirk: bool) -> (r: (u8, Option<u8>))
    ensures
        r == alu_result(op, vx, vy, shiftquirk),
{
    let shifted: u8 = if shiftquirk {
        vx
    } else {
        vy
    };
    match op {
        AluOp::Copy => (vy, None),
        AluOp::Or => (vx | vy, None),
        AluOp::And => (vx & vy, None),
        AluOp::Xor => (vx ^ vy, None),
        AluOp::Add => {
            let carry: u8 = if vx as u16 + vy as u16 > 255 {
                1
            } else {
                0
            };
            (vx.wrapping_add(vy), Some(carry))
        },
        AluOp::Sub => {
            let no_borrow: u8 = if vx >= vy {
                1
            } else {
                0
            };
            (vx.wrapping_sub(vy), Some(no_borrow))
        },
        AluOp::ShiftRight => {
            let flag: u8 = shifted & 0x1;
            assert(shifted & 0x1 == shifted % 2) by (bit_vector);
            assert(shifted >> 1 == shifted / 2) by (bit_vector);
            (shifted >> 1, Some(flag))
        },
        AluOp::SubFrom => {
            let no_borrow: u8 = if vy >= vx {
                1
            } else {
                0
            };
            (vy.wrapping_sub(vx), Some(no_borrow))
        },
        AluOp::ShiftLeft => {
            let flag: u8 = (shifted & 0x80) >> 7;
            assert((shifted & 0x80) >> 7 == shifted / 128) by (bit_vector);
            assert(shifted << 1 == (shifted * 2) % 256) by (bit_vector);
            (shifted << 1, Some(flag))
        },
    }
}

impl Cpu {
    /// A machine about to run the program in `memory` from address `0x200`.
    pub fn new(memory: Memory, shiftquirk: bool) -> (cpu: Cpu)
        ensures
            cpu@ == initial_machine(memory@, shiftquirk),
    {
        let cpu = Cpu {
            memory,
            registers: Registers::new(),
            pc: 0x200,
            sp: 0,
            stack: [0; 16],
            display: Framebuffer::new(),
            shiftquirk,
        };
        assert(cpu.stack@ =~= Seq::new(16, |k: int| 0u16));
        assert(cpu@ =~= initial_machine(memory@, shiftquirk));
        cpu
    }

    /// Reads the opcode at the program counter without moving it. `None`
    /// means that the program counter has run off the end of memory.
    pub fn fetch(&self) -> (opcode: Option<u16>)
        ensures
            opcode == fetch_spec(self@),
    {
        let pc: usize = self.pc as usize;
        if pc >= 4096 {
            return None;
        }
        let rest = slice_subrange(self.memory.buf.as_slice(), pc, 4096);
        read_u16_be(rest)
    }

    /// One 60 Hz tick of the two timers.
    pub fn tick(&mut self)
        ensures
            final(self)@ == tick_spec(old(self)@),
    {
        self.registers.tick();
        assert(self@ =~= tick_spec(old(self)@));
    }

    /// Runs an instruction that only moves the program counter or the stack:
    /// return, jump, call and the four skips.
    fn execute_flow(&mut self, opcode: u16, ins: Instruction) -> (r: Result<(), Fault>)
        requires
            ins.valid(),
            old(self).pc as int + 1 < 4096,
            ins is Return || ins is Jump || ins is Call || ins is SkipIfEqual
                || ins is SkipIfNotEqual || ins is SkipIfSame || ins is SkipIfDistinct,
        ensures
            match execute_spec(old(self)@, opcode, ins) {
                Ok(next) => r is Ok && final(self)@ == next,
                Err(fault) => r == Err::<(), Fault>(fault) && final(self)@ == old(self)@,
            },
    {
        let pc: u16 = self.pc;
        let next: u16 = pc + 2;
        match ins {
            Instruction::Return => {
                if self.sp == 0 {
                    return Err(Fault::StackUnderflow { pc });
                }
                if self.sp > 16 {
                    return Err(Fault::StackOverflow { pc });
                }
                self.sp = self.sp - 1;
                self.pc = self.stack[self.sp as usize];
            },
            Instruction::Jump { addr } => {
                self.pc = addr;
            },
            Instruction::Call { addr } => {
                if self.sp >= 16 {
                    return Err(Fault::StackOverflow { pc });
                }
                self.stack[self.sp as usize] = next;
                self.sp = self.sp + 1;
                self.pc = addr;
            },
            Instruction::SkipIfEqual { x, kk } => {
                self.pc = if self.registers.v[x as usize] == kk {
                    next + 2
                } else {
                    next
                };
            },
            Instruction::SkipIfNotEqual { x, kk } => {
                self.pc = if self.registers.v[x as usize] != kk {
                    next + 2
                } else {
                    next
                };
            },
            Instruction::SkipIfSame { x, y } => {
                self.pc = if x == y {
                    next + 2
                } else {
                    next
                };
            },
            Instruction::SkipIfDistinct { x, y } => {
                self.pc = if x != y {
                    next + 2
                } else {
                    next
                };
            },
            _ => {},
        }
        assert(self@ =~= execute_spec(old(self)@, opcode, ins)->Ok_0);
        Ok(())
    }

    /// Runs an instruction that works on the registers and timers alone.
    fn execute_register(&mut self, opcode: u16, ins: Instruction)
        requires
            ins.valid(),
            old(self).pc as int + 1 < 4096,
            ins is Load || ins is AddByte || ins is Alu || ins is LoadIndex || ins is ReadDelay
                || ins is WaitKey || ins is SetDelay || ins is SetSound || ins is AddIndex
                || ins is FontGlyph,
        ensures
            execute_spec(old(self)@, opcode, ins) == Ok::<Machine, Fault>(final(self)@),
    {
        let next: u16 = self.pc + 2;
        match ins {
            Instruction::Load { x, kk } => {
                self.registers.v[x as usize] = kk;
            },
            Instruction::AddByte { x, kk } => {
                self.registers.v[x as usize] = self.registers.v[x as usize].wrapping_add(kk);
            },
            Instruction::Alu { op, x, y } => {
                let (value, flag) = alu(
                    op,
                    self.registers.v[x as usize],
                    self.registers.v[y as usize],
                    self.shiftquirk,
                );
                self.registers.v[x as usize] = value;
                match flag {
                    Some(f) => {
                        self.registers.v[FLAG_REGISTER] = f;
                    },
                    None => {},
                }
            },
            Instruction::LoadIndex { addr } => {
                self.registers.i = addr;
            },
            Instruction::ReadDelay { x } => {
                self.registers.v[x as usize] = self.registers.delay;
            },
            Instruction::SetDelay { x } => {
                self.registers.delay = self.registers.v[x as usize];
            },
            Instruction::SetSound { x } => {
                self.registers.sound = self.registers.v[x as usize];
            },
            Instruction::AddIndex { x } => {
                self.registers.i = self.registers.i.wrapping_add(
                    self.registers.v[x as usize] as u16,
                );
            },
            Instruction::FontGlyph { x } => {
                self.registers.i = self.registers.v[x as usize] as u16 * 5;
            },
            _ => {},
        }
        self.pc = next;
        assert(self@ =~= execute_spec(old(self)@, opcode, ins)->Ok_0);
    }

    /// Runs an instruction that works on the screen: clear and draw.
    fn execute_screen(&mut self, opcode: u16, ins: Instruction) -> (r: Result<(), Fault>)
        requires
            ins.valid(),
            old(self).pc as int + 1 < 4096,
            ins is ClearScreen || ins is Draw,
        ensures
            match execute_spec(old(self)@, opcode, ins) {
                Ok(next) => r is Ok && final(self)@ == next,
                Err(fault) => r == Err::<(), Fault>(fault) && final(self)@ == old(self)@,
            },
    {
        let pc: u16 = self.pc;
        match ins {
            Instruction::Draw { x, y, n } => {
                let vx: u8 = self.registers.v[x as usize];
                let vy: u8 = self.registers.v[y as usize];
                let rows: usize = n as usize;
                let start: usize = if rows == 0 {
                    0
                } else {
                    self.registers.i as usize
                };
                if start + rows > 4096 {
                    return Err(Fault::AddressOutOfRange { pc, opcode });
                }
                let sprite = slice_subrange(self.memory.buf.as_slice(), start, start + rows);
                assert(sprite@ =~= sprite_at(self.memory@, self.registers.i as int, n as int));
                let collision = self.display.draw_sprite(sprite, vx, vy);
                self.registers.v[FLAG_REGISTER] = if collision {
                    1
                } else {
                    0
                };
            },
            _ => {
                self.display.clear();
            },
        }
        self.pc = pc + 2;
        assert(self@ =~= execute_spec(old(self)@, opcode, ins)->Ok_0);
        Ok(())
    }

    /// Runs an instruction that moves data between the registers and the
    /// memory at I.
    fn execute_memory(&mut self, opcode: u16, ins: Instruction) -> (r: Result<(), Fault>)
        requires
            ins.valid(),
            old(self).pc as int + 1 < 4096,
            ins is StoreBcd || ins is StoreRegisters || ins is LoadRegisters,
        ensures
            match execute_spec(old(self)@, opcode, ins) {
                Ok(next) => r is Ok && final(self)@ == next,
                Err(fault) => r == Err::<(), Fault>(fault) && final(self)@ == old(self)@,
            },
    {
        let pc: u16 = self.pc;
        let start: usize = self.registers.i as usize;
        match ins {
            Instruction::StoreBcd { x } => {
                if start + 3 > 4096 {
                    return Err(Fault::AddressOutOfRange { pc, opcode });
                }
                self.memory.store_bcd(start, self.registers.v[x as usize]);
            },
            Instruction::StoreRegisters { x } => {
                if start + x as usize + 1 > 4096 {
                    return Err(Fault::AddressOutOfRange { pc, opcode });
                }
                self.memory.store_registers(start, &self.registers.v, x as usize);
            },
            Instruction::LoadRegisters { x } => {
                if start + x as usize + 1 > 4096 {
                    return Err(Fault::AddressOutOfRange { pc, opcode });
                }
                self.registers.load_registers(&self.memory.buf, start, x as usize);
            },
            _ => {},
        }
        self.pc = pc + 2;
        assert(self@ =~= execute_spec(old(self)@, opcode, ins)->Ok_0);
        Ok(())
    }

    /// Runs the instruction `ins`, which was fetched as `opcode` from the
    /// program counter.
    fn execute(&mut self, opcode: u16, ins: Instruction) -> (r: Result<(), Fault>)
        requires
            ins.valid(),
            old(self).pc as int + 1 < 4096,
        ensures
            match execute_spec(old(self)@, opcode, ins) {
                Ok(next) => r is Ok && final(self)@ == next,
                Err(fault) => r == Err::<(), Fault>(fault) && final(self)@ == old(self)@,
            },
    {
        match ins {
            Instruction::Return
            | Instruction::Jump { .. }
            | Instruction::Call { .. }
            | Instruction::SkipIfEqual { .. }
            | Instruction::SkipIfNotEqual { .. }
            | Instruction::SkipIfSame { .. }
            | Instruction::SkipIfDistinct { .. } => self.execute_flow(opcode, ins),
            Instruction::ClearScreen | Instruction::Draw { .. } => self.execute_screen(
                opcode,
                ins,
            ),
            Instruction::StoreBcd { .. }
            | Instruction::StoreRegisters { .. }
            | Instruction::LoadRegisters { .. } => self.execute_memory(opcode, ins),
            _ => {
                self.execute_register(opcode, ins);
                Ok(())
            },
        }
    }

    /// One instruction cycle: fetches the opcode at the program counter,
    /// decodes it and runs it. On a fault nothing has changed: the program
    /// counter still points at the instruction that could not run.
    pub fn step(&mut self) -> (r: Result<(), Fault>)
        ensures
            match step_spec(old(self)@) {
                Ok(next) => r is Ok && final(self)@ == next,
                Err(fault) => r == Err::<(), Fault>(fault) && final(self)@ == old(self)@,
            },
    {
        let pc: u16 = self.pc;
        let opcode: u16 = match self.fetch() {
            Some(word) => word,
            None => {
                return Err(Fault::FetchOutOfRange { pc });
            },
        };
        let ins = match decode(opcode) {
            Some(ins) => ins,
            None => {
                return Err(Fault::UnknownOpcode { pc, opcode });
            },
        };
        proof {
            lemma_decoded_is_valid(opcode);
        }
        self.execute(opcode, ins)
    }

    /// One quantum of machine time: the timers tick, then one instruction
    /// runs. If the instruction faults, the tick has still happened.
    pub fn update(&mut self) -> (r: Result<(), Fault>)
        ensures
            final(self)@ == update_spec(old(self)@).0,
            r == outcome(update_spec(old(self)@).1),
    {
        self.tick();
        match self.step() {
            Ok(()) => Ok(()),
            Err(fault) => Err(fault),
        }
    }

    /// Runs up to `quanta` quanta and stops at the first fault: after a
    /// fault no further instruction is executed.
    pub fn run(&mut self, quanta: u64) -> (r: Result<(), Fault>)
        ensures
            final(self)@ == run_spec(old(self)@, quanta as nat).0,
            r == outcome(run_spec(old(self)@, quanta as nat).1),
    {
        let mut done: u64 = 0;
        while done < quanta
            invariant
                done <= quanta,
                run_spec(old(self)@, quanta as nat) == run_spec(self@, (quanta - done) as nat),
            decreases quanta - done,
        {
            match self.update() {
                Ok(()) => {},
                Err(fault) => {
                    return Err(fault);
                },
            }
            done += 1;
        }
        Ok(())
    }
}

} // verus!
