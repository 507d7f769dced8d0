//! The register file: sixteen general registers, the index register and the
//! two countdown timers.

use vstd::prelude::*;

verus! {

/// Index of VF, the register that doubles as the carry, borrow and collision flag.
pub const FLAG_REGISTER: usize = 0xF;

/// What a timer holds after one tick: one less, but never less than zero.
pub open spec fn ticked(timer: u8) -> u8 {
    if timer > 0 {
        (timer - 1) as u8
    } else {
        0
    }
}

/// The registers after V0 to VX were loaded from memory from `i` on.
pub open spec fn registers_loaded(memory: Seq<u8>, v: Seq<u8>, i: int, x: int) -> Seq<u8> {
    Seq::new(
        v.len(),
        |k: int|
            if k <= x {
                memory[i + k]
            } else {
                v[k]
            },
    )
}

/// The registers of the machine. The timers are plain fields: the machine is
/// driven from a single thread, which both executes instructions and ticks.
pub struct Registers {
    /// V0 to VF.
    pub v: [u8; 16],
    /// The index register I.
    pub i: u16,
    /// The delay timer.
    pub delay: u8,
    /// The sound timer.
    pub sound: u8,
}

impl Registers {
    /// All registers and both timers at zero.
    pub fn new() -> (r: Registers)
        ensures
            r.v@ == Seq::new(16, |k: int| 0u8),
            r.i == 0,
            r.delay == 0,
            r.sound == 0,
    {
        let r = Registers { v: [0; 16], i: 0, delay: 0, sound: 0 };
        assert(r.v@ =~= Seq::new(16, |k: int| 0u8));
        r
    }

    /// Loads the registers V0 to VX, in order, from `memory` at `addr` and beyond.
    pub fn load_registers(&mut self, memory: &[u8; 4096], addr: usize, x: usize)
        requires
            x < 16,
            addr + x + 1 <= 4096,
        ensures
            final(self).v@ == registers_loaded(memory@, old(self).v@, addr as int, x as int),
            final(self).i == old(self).i,
            final(self).delay == old(self).delay,
            final(self).sound == old(self).sound,
    {
        let mut k: usize = 0;
        while k <= x
            invariant
                k <= x + 1,
                x < 16,
                addr + x + 1 <= 4096,
                forall|j: int| 0 <= j < k ==> self.v@[j] == memory@[addr + j],
                forall|j: int| k <= j < 16 ==> self.v@[j] == old(self).v@[j],
                self.i == old(self).i,
                self.delay == old(self).delay,
                self.sound == old(self).sound,
            decreases x + 1 - k,
        {
            self.v[k] = memory[addr + k];
            k += 1;
        }
        assert(self.v@ =~= registers_loaded(memory@, old(self).v@, addr as int, x as int));
    }

    /// One 60 Hz tick: each timer that is above zero goes down by one.
    pub fn tick(&mut self)
        ensures
            final(self).delay == ticked(old(self).delay),
            final(self).sound == ticked(old(self).sound),
            final(self).v == old(self).v,
            final(self).i == old(self).i,
    {
        if self.delay > 0 {
            self.delay = self.delay - 1;
        }
        if self.sound > 0 {
            self.sound = self.sound - 1;
        }
    }
}

} // verus!
