//! Laws of the machine: general statements about the model, proved once and
//! for all states.

use crate::display::{blit, blit_collides, sprite_bit, sprite_covers};
use crate::model::{
    execute_spec, fetch_spec, run_spec, sprite_at, step_spec, tick_spec, update_spec, Fault,
    Machine,
};
use crate::opcode::{decode_spec, family, field_kk, field_n, field_x, field_y, Instruction};
use vstd::prelude::*;

verus! {

/// The state after `n` timer ticks in a row.
pub open spec fn ticks(m: Machine, n: nat) -> Machine
    decreases n,
{
    if n == 0 {
        m
    } else {
        ticks(tick_spec(m), (n - 1) as nat)
    }
}

/// The index of the cell that pixel `col` of sprite row `row` lands on when
/// the sprite is drawn at `(vx, vy)`: both coordinates wrap around the screen.
pub open spec fn target_cell(vx: int, vy: int, row: int, col: int) -> int {
    (vx + col) % 64 + 64 * ((vy + row) % 32)
}

/// A step that succeeds keeps the sizes of the state and moves the stack
/// pointer at most to 16: the stack never grows past its sixteen slots.
pub proof fn law_step_keeps_state_in_bounds(m: Machine)
    requires
        m.well_formed(),
        m.stack_in_bounds(),
    ensures
        step_spec(m) matches Ok(next) ==> next.well_formed() && next.stack_in_bounds(),
{
}

/// The timers count down to zero and stay there: after `n` ticks a timer
/// that started at `t` holds `t - n` if `n <= t`, and zero otherwise. Nothing
/// else changes.
pub proof fn law_timers_count_down_to_zero(m: Machine, n: nat)
    ensures
        ticks(m, n).delay == if n <= m.delay {
            m.delay - n
        } else {
            0
        },
        ticks(m, n).sound == if n <= m.sound {
            m.sound - n
        } else {
            0
        },
        ticks(m, n) == (Machine { delay: ticks(m, n).delay, sound: ticks(m, n).sound, ..m }),
    decreases n,
{
    if n > 0 {
        law_timers_count_down_to_zero(tick_spec(m), (n - 1) as nat);
    }
}

/// `7XKK` adds modulo 256 and changes no other register, the flag included.
pub proof fn law_add_byte_wraps(m: Machine, opcode: u16)
    requires
        m.well_formed(),
        fetch_spec(m) == Some(opcode),
        family(opcode) == 0x7,
    ensures
        step_spec(m) matches Ok(next) && {
            let x = field_x(opcode) as int;
            &&& next.v[x] == (m.v[x] + field_kk(opcode)) % 256
            &&& forall|k: int| 0 <= k < 16 && k != x ==> next.v[k] == m.v[k]
            &&& next.pc == m.pc + 2
        },
{
}

/// `8XY4` adds modulo 256 and sets VF to the carry: taken together, VX and
/// the carry hold the exact sum.
pub proof fn law_add_carries(m: Machine, opcode: u16)
    requires
        m.well_formed(),
        fetch_spec(m) == Some(opcode),
        family(opcode) == 0x8,
        field_n(opcode) == 0x4,
    ensures
        step_spec(m) matches Ok(next) && {
            let x = field_x(opcode) as int;
            let sum = m.v[x] + m.v[field_y(opcode) as int];
            &&& next.v[15] == if sum > 255 {
                1int
            } else {
                0int
            }
            &&& x != 15 ==> next.v[x] == sum % 256 && next.v[x] + 256 * next.v[15] == sum
            &&& forall|k: int| 0 <= k < 15 && k != x ==> next.v[k] == m.v[k]
        },
{
}

/// `8XY5` subtracts VY from VX modulo 256 and sets VF to 1 exactly when
/// there is no borrow: VX minus 256 times the borrow is the exact difference.
pub proof fn law_sub_borrows(m: Machine, opcode: u16)
    requires
        m.well_formed(),
        fetch_spec(m) == Some(opcode),
        family(opcode) == 0x8,
        field_n(opcode) == 0x5,
    ensures
        step_spec(m) matches Ok(next) && {
            let x = field_x(opcode) as int;
            let difference = m.v[x] - m.v[field_y(opcode) as int];
            &&& next.v[15] == if difference >= 0 {
                1int
            } else {
                0int
            }
            &&& x != 15 ==> next.v[x] == difference % 256 && next.v[x] - 256 * (1 - next.v[15])
                == difference
            &&& forall|k: int| 0 <= k < 15 && k != x ==> next.v[k] == m.v[k]
        },
{
}

/// `8XY7` subtracts VX from VY modulo 256, stores the result in VX and sets
/// VF to 1 exactly when there is no borrow.
pub proof fn law_sub_from_borrows(m: Machine, opcode: u16)
    requires
        m.well_formed(),
        fetch_spec(m) == Some(opcode),
        family(opcode) == 0x8,
        field_n(opcode) == 0x7,
    ensures
        step_spec(m) matches Ok(next) && {
            let x = field_x(opcode) as int;
            let difference = m.v[field_y(opcode) as int] - m.v[x];
            &&& next.v[15] == if difference >= 0 {
                1int
            } else {
                0int
            }
            &&& x != 15 ==> next.v[x] == difference % 256 && next.v[x] - 256 * (1 - next.v[15])
                == difference
            &&& forall|k: int| 0 <= k < 15 && k != x ==> next.v[k] == m.v[k]
        },
{
}

/// `8XY6` and `8XYE` take their flag from the operand as it was before the
/// shift: the lowest bit for the shift to the right, the highest for the
/// shift to the left. The operand is VX with the shift quirk and VY without.
pub proof fn law_shift_flag_is_taken_before_the_shift(m: Machine, opcode: u16)
    requires
        m.well_formed(),
        fetch_spec(m) == Some(opcode),
        family(opcode) == 0x8,
        field_n(opcode) == 0x6 || field_n(opcode) == 0xE,
    ensures
        step_spec(m) matches Ok(next) && {
            let x = field_x(opcode) as int;
            let operand: u8 = if m.shiftquirk {
                m.v[x]
            } else {
                m.v[field_y(opcode) as int]
            };
            &&& field_n(opcode) == 0x6 ==> next.v[15] == operand & 1 && (x != 15 ==> next.v[x]
                == operand >> 1u8)
            &&& field_n(opcode) == 0xE ==> next.v[15] == operand >> 7u8 && (x != 15 ==> next.v[x]
                == operand << 1u8)
            &&& forall|k: int| 0 <= k < 15 && k != x ==> next.v[k] == m.v[k]
        },
{
    let x = field_x(opcode) as int;
    let operand: u8 = if m.shiftquirk {
        m.v[x]
    } else {
        m.v[field_y(opcode) as int]
    };
    assert(operand & 1 == operand % 2) by (bit_vector);
    assert(operand >> 1u8 == operand / 2) by (bit_vector);
    assert(operand >> 7u8 == operand / 128) by (bit_vector);
    assert(operand << 1u8 == (operand * 2) % 256) by (bit_vector);
}

/// The shift quirk decides one thing only: without it, a shift does what the
/// same shift does with it after VX has first been overwritten by VY.
pub proof fn law_shift_quirk_is_a_copy_first(m: Machine, opcode: u16)
    requires
        m.well_formed(),
        fetch_spec(m) == Some(opcode),
        family(opcode) == 0x8,
        field_n(opcode) == 0x6 || field_n(opcode) == 0xE,
    ensures
        ({
            let x = field_x(opcode) as int;
            let y = field_y(opcode) as int;
            let without = Machine { shiftquirk: false, ..m };
            let copied = Machine { shiftquirk: true, v: m.v.update(x, m.v[y]), ..m };
            step_spec(without) matches Ok(a) && step_spec(copied) matches Ok(b) && a == (Machine {
                shiftquirk: false,
                ..b
            })
        }),
{
    let x = field_x(opcode) as int;
    let y = field_y(opcode) as int;
    let without = Machine { shiftquirk: false, ..m };
    let copied = Machine { shiftquirk: true, v: m.v.update(x, m.v[y]), ..m };
    let a = step_spec(without)->Ok_0;
    let b = step_spec(copied)->Ok_0;
    assert(a.v =~= b.v);
}

/// The cell that a pixel lands on lies on the screen, and from that cell the
/// pixel is found again: column and row are the distances to the corner of
/// the sprite, taken modulo the size of the screen.
proof fn lemma_target_cell_is_covered(vx: int, vy: int, row: int, col: int)
    requires
        0 <= vx,
        0 <= vy,
        0 <= row < 32,
        0 <= col < 64,
    ensures
        0 <= target_cell(vx, vy, row, col) < 2048,
        (target_cell(vx, vy, row, col) % 64 - vx) % 64 == col,
        (target_cell(vx, vy, row, col) / 64 - vy) % 32 == row,
{
    let t = target_cell(vx, vy, row, col);
    assert(t % 64 == (vx + col) % 64);
    assert(t / 64 == (vy + row) % 32);
}

/// Every cell is the landing place of exactly one pair of distances.
proof fn lemma_cell_is_a_target(vx: int, vy: int, idx: int)
    requires
        0 <= vx,
        0 <= vy,
        0 <= idx < 2048,
    ensures
        idx == target_cell(vx, vy, (idx / 64 - vy) % 32, (idx % 64 - vx) % 64),
{
}

/// Every pixel of a sprite lands on the cell found by wrapping its
/// coordinates around the screen, and flips that cell exactly when the pixel
/// is lit.
pub proof fn law_sprite_pixels_wrap(
    cells: Seq<bool>,
    sprite: Seq<u8>,
    vx: int,
    vy: int,
    row: int,
    col: int,
)
    requires
        cells.len() == 2048,
        sprite.len() <= 32,
        0 <= vx,
        0 <= vy,
        0 <= row < sprite.len(),
        0 <= col < 8,
    ensures
        0 <= target_cell(vx, vy, row, col) < 2048,
        blit(cells, sprite, vx, vy)[target_cell(vx, vy, row, col)] == (cells[target_cell(
            vx,
            vy,
            row,
            col,
        )] != sprite_bit(sprite[row], col)),
{
    lemma_target_cell_is_covered(vx, vy, row, col);
}

/// A cell on which no pixel of the sprite lands keeps its value.
pub proof fn law_sprite_touches_only_its_targets(
    cells: Seq<bool>,
    sprite: Seq<u8>,
    vx: int,
    vy: int,
    idx: int,
)
    requires
        cells.len() == 2048,
        sprite.len() <= 32,
        0 <= vx,
        0 <= vy,
        0 <= idx < 2048,
        forall|row: int, col: int|
            0 <= row < sprite.len() && 0 <= col < 8 ==> idx != #[trigger] target_cell(
                vx,
                vy,
                row,
                col,
            ),
    ensures
        blit(cells, sprite, vx, vy)[idx] == cells[idx],
{
    lemma_cell_is_a_target(vx, vy, idx);
}

/// A draw collides exactly when some lit pixel of the sprite lands on a cell
/// that was lit before the draw.
pub proof fn law_collision_means_a_lit_cell_was_hit(
    cells: Seq<bool>,
    sprite: Seq<u8>,
    vx: int,
    vy: int,
)
    requires
        cells.len() == 2048,
        sprite.len() <= 32,
        0 <= vx,
        0 <= vy,
    ensures
        blit_collides(cells, sprite, vx, vy) <==> exists|row: int, col: int|
            0 <= row < sprite.len() && 0 <= col < 8 && sprite_bit(sprite[row], col)
                && cells[#[trigger] target_cell(vx, vy, row, col)],
{
    if blit_collides(cells, sprite, vx, vy) {
        let idx = choose|idx: int|
            0 <= idx < 2048 && cells[idx] && #[trigger] sprite_covers(sprite, vx, vy, idx);
        let col = (idx % 64 - vx) % 64;
        let row = (idx / 64 - vy) % 32;
        lemma_cell_is_a_target(vx, vy, idx);
        assert(sprite_bit(sprite[row], col) && cells[target_cell(vx, vy, row, col)]);
    }
    if exists|row: int, col: int|
        0 <= row < sprite.len() && 0 <= col < 8 && sprite_bit(sprite[row], col)
            && cells[#[trigger] target_cell(vx, vy, row, col)] {
        let (row, col) = choose|row: int, col: int|
            0 <= row < sprite.len() && 0 <= col < 8 && sprite_bit(sprite[row], col)
                && cells[#[trigger] target_cell(vx, vy, row, col)];
        lemma_target_cell_is_covered(vx, vy, row, col);
        assert(sprite_covers(sprite, vx, vy, target_cell(vx, vy, row, col)));
    }
}

/// `DXYN` sets VF to 1 if the draw collides and to 0 if it does not, and
/// changes no other register.
pub proof fn law_draw_sets_collision_flag(m: Machine, opcode: u16)
    requires
        m.well_formed(),
        fetch_spec(m) == Some(opcode),
        family(opcode) == 0xD,
        field_n(opcode) == 0 || m.i + field_n(opcode) <= 4096,
    ensures
        step_spec(m) matches Ok(next) && {
            let sprite = sprite_at(m.memory, m.i as int, field_n(opcode) as int);
            let vx = m.v[field_x(opcode) as int] as int;
            let vy = m.v[field_y(opcode) as int] as int;
            &&& next.display == blit(m.display, sprite, vx, vy)
            &&& next.v[15] == 1 <==> blit_collides(m.display, sprite, vx, vy)
            &&& next.v[15] == 0 <==> !blit_collides(m.display, sprite, vx, vy)
            &&& forall|k: int| 0 <= k < 15 ==> next.v[k] == m.v[k]
        },
{
}

/// The three digits that `FX33` stores are decimal digits, and they spell
/// the value of VX: hundreds, tens, ones.
pub proof fn law_bcd_digits_spell_the_value(m: Machine, opcode: u16, x: u8)
    requires
        m.well_formed(),
        x < 16,
        m.i + 3 <= 4096,
    ensures
        execute_spec(m, opcode, Instruction::StoreBcd { x }) matches Ok(next) && {
            let i = m.i as int;
            &&& next.memory[i] < 10 && next.memory[i + 1] < 10 && next.memory[i + 2] < 10
            &&& 100 * next.memory[i] + 10 * next.memory[i + 1] + next.memory[i + 2] == m.v[x as int]
            &&& forall|a: int| 0 <= a < 4096 && !(i <= a < i + 3) ==> next.memory[a] == m.memory[a]
        },
{
}

/// Storing V0 to VX with `FX55` and loading them back with `FX65` into
/// registers that were changed in between gives the stored values back; with
/// `x` at 15 the whole register file is restored.
pub proof fn law_store_then_load_round_trips(
    m: Machine,
    scratch: Seq<u8>,
    store_opcode: u16,
    load_opcode: u16,
    x: u8,
)
    requires
        m.well_formed(),
        scratch.len() == 16,
        x < 16,
        m.i + x + 1 <= 4096,
    ensures
        execute_spec(m, store_opcode, Instruction::StoreRegisters { x }) matches Ok(stored)
            && execute_spec(
            Machine { v: scratch, ..stored },
            load_opcode,
            Instruction::LoadRegisters { x },
        ) matches Ok(loaded) && {
            &&& forall|k: int| 0 <= k <= x ==> loaded.v[k] == m.v[k]
            &&& forall|k: int| x < k < 16 ==> loaded.v[k] == scratch[k]
            &&& x == 15 ==> loaded.v == m.v
            &&& stored.v == m.v
        },
{
    let stored = execute_spec(m, store_opcode, Instruction::StoreRegisters { x })->Ok_0;
    let loaded = execute_spec(
        Machine { v: scratch, ..stored },
        load_opcode,
        Instruction::LoadRegisters { x },
    )->Ok_0;
    if x == 15 {
        assert(loaded.v =~= m.v);
    }
}

/// The glyph of every hexadecimal digit lies inside the font: for a digit
/// below 16 in VX, `FX29` points I at five bytes within the first 80.
pub proof fn law_font_glyphs_lie_in_the_font(m: Machine, opcode: u16, x: u8)
    requires
        m.well_formed(),
        x < 16,
        m.v[x as int] < 16,
    ensures
        execute_spec(m, opcode, Instruction::FontGlyph { x }) matches Ok(next) && next.i == 5
            * m.v[x as int] && next.i + 5 <= 80,
{
}

/// A step writes to memory only in the sixteen bytes from I on. In
/// particular the font is safe from every program that keeps I at 80 or
/// above whenever it stores.
pub proof fn law_step_writes_only_at_the_index(m: Machine)
    requires
        m.well_formed(),
    ensures
        step_spec(m) matches Ok(next) ==> forall|a: int|
            0 <= a < 4096 && !(m.i <= a < m.i + 16) ==> next.memory[a] == m.memory[a],
{
}

/// A word that encodes no instruction stops the machine with a fault that
/// names the word and the address it was fetched from. `00FF` is such a word.
pub proof fn law_unknown_opcode_is_reported(m: Machine, opcode: u16)
    requires
        fetch_spec(m) == Some(opcode),
        decode_spec(opcode) is None,
    ensures
        step_spec(m) == Err::<Machine, Fault>(Fault::UnknownOpcode { pc: m.pc, opcode }),
        decode_spec(0x00FF) is None,
{
}

/// Once a quantum has faulted the run is over: however many more quanta are
/// asked for, the state and the fault are those of the quantum that faulted.
pub proof fn law_run_stops_at_the_first_fault(m: Machine, quanta: nat, more: nat)
    requires
        run_spec(m, quanta).1 is Some,
    ensures
        run_spec(m, quanta + more) == run_spec(m, quanta),
    decreases quanta,
{
    if quanta > 0 {
        let (next, fault) = update_spec(m);
        if fault is None {
            law_run_stops_at_the_first_fault(next, (quanta - 1) as nat, more);
            assert(run_spec(m, quanta + more) == run_spec(next, (quanta + more - 1) as nat));
        } else {
            assert(run_spec(m, quanta + more) == (next, fault));
        }
    }
}

/// Whether an instruction faults does not depend on the timers: a quantum
/// whose instruction faults ticks the timers, reports that fault and changes
/// nothing else.
pub proof fn law_faulting_quantum_only_ticks(m: Machine)
    requires
        step_spec(m) is Err,
    ensures
        update_spec(m) == (tick_spec(m), Some(step_spec(m)->Err_0)),
{
}

} // verus!
