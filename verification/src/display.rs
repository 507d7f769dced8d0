//! The 64x32 monochrome framebuffer and the sprite blitter.
//!
//! Cells are stored row by row: the cell at column `x` of row `y` has index
//! `x + 64 * y`. Sprites are XORed onto the screen and wrap around both edges.

use vstd::prelude::*;

verus! {

/// Number of columns of the screen.
pub const SCREEN_WIDTH: usize = 64;

/// Number of rows of the screen.
pub const SCREEN_HEIGHT: usize = 32;

/// Number of cells of the screen.
pub const SCREEN_CELLS: usize = 2048;

/// Whether pixel `col` of a sprite row is lit; column 0 is the most significant bit.
pub open spec fn sprite_bit(bits: u8, col: int) -> bool {
    0 <= col < 8 && (bits >> ((7 - col) as u8)) & 1u8 == 1u8
}

/// Whether a single sprite row `bits`, drawn on screen row `y` with its left
/// edge at column `vx` (taken modulo 64), lights the cell `idx`.
pub open spec fn row_covers(bits: u8, vx: int, y: int, idx: int) -> bool {
    idx / 64 == y && sprite_bit(bits, (idx % 64 - vx) % 64)
}

/// Whether `sprite`, drawn with its top left corner at `(vx mod 64, vy mod 32)`,
/// lights the cell `idx`.
pub open spec fn sprite_covers(sprite: Seq<u8>, vx: int, vy: int, idx: int) -> bool {
    let col = (idx % 64 - vx) % 64;
    let row = (idx / 64 - vy) % 32;
    row < sprite.len() && sprite_bit(sprite[row], col)
}

/// The screen after `sprite` has been XORed onto `cells` at `(vx, vy)`.
pub open spec fn blit(cells: Seq<bool>, sprite: Seq<u8>, vx: int, vy: int) -> Seq<bool> {
    Seq::new(2048, |idx: int| cells[idx] != sprite_covers(sprite, vx, vy, idx))
}

/// Whether drawing `sprite` at `(vx, vy)` turns off a cell that was lit in `cells`.
pub open spec fn blit_collides(cells: Seq<bool>, sprite: Seq<u8>, vx: int, vy: int) -> bool {
    exists|idx: int|
        0 <= idx < 2048 && cells[idx] && #[trigger] sprite_covers(sprite, vx, vy, idx)
}

/// The text picture of a screen: one line of 64 characters per row, each line
/// closed by a newline; a lit cell is a full block, a dark one a space.
pub open spec fn picture(cells: Seq<bool>) -> Seq<char> {
    Seq::new(
        2080,
        |k: int|
            if k % 65 == 64 {
                '\n'
            } else if cells[(k / 65) * 64 + k % 65] {
                '\u{2588}'
            } else {
                ' '
            },
    )
}

/// The screen of the machine.
pub struct Framebuffer {
    pub cells: [bool; 2048],
}

impl View for Framebuffer {
    type V = Seq<bool>;

    open spec fn view(&self) -> Seq<bool> {
        self.cells@
    }
}

impl Framebuffer {
    /// A dark screen.
    pub fn new() -> (fb: Framebuffer)
        ensures
            fb@ == Seq::new(2048, |idx: int| false),
    {
        Framebuffer { cells: [false; 2048] }
    }

    /// Turns every cell off.
    pub fn clear(&mut self)
        ensures
            final(self)@ == Seq::new(2048, |idx: int| false),
    {
        let mut idx: usize = 0;
        while idx < 2048
            invariant
                idx <= 2048,
                forall|k: int| 0 <= k < idx ==> self@[k] == false,
            decreases 2048 - idx,
        {
            let ghost before = self@;
            self.cells[idx] = false;
            assert(self@ == before.update(idx as int, false));
            idx += 1;
        }
    }

    /// Whether the cell at column `x` of row `y` is lit.
    pub fn pixel(&self, x: usize, y: usize) -> (lit: bool)
        requires
            x < 64,
            y < 32,
        ensures
            lit == self@[x + 64 * y],
    {
        self.cells[x + 64 * y]
    }

    /// XORs one sprite row onto screen row `y`, starting at column `vx mod 64`
    /// and wrapping at the right edge. Returns whether a lit cell went dark.
    pub fn draw_row(&mut self, bits: u8, vx: u8, y: usize) -> (hit: bool)
        requires
            y < 32,
        ensures
            forall|idx: int|
                0 <= idx < 2048 ==> final(self)@[idx] == (old(self)@[idx] != row_covers(
                    bits,
                    vx as int,
                    y as int,
                    idx,
                )),
            hit == exists|idx: int|
                0 <= idx < 2048 && old(self)@[idx] && #[trigger] row_covers(
                    bits,
                    vx as int,
                    y as int,
                    idx,
                ),
    {
        let mut hit = false;
        let mut col: usize = 0;
        while col < 8
            invariant
                col <= 8,
                y < 32,
                forall|idx: int|
                    0 <= idx < 2048 ==> self@[idx] == (old(self)@[idx] != (row_covers(
                        bits,
                        vx as int,
                        y as int,
                        idx,
                    ) && (idx % 64 - vx) % 64 < col)),
                hit == exists|idx: int|
                    0 <= idx < 2048 && old(self)@[idx] && (#[trigger] row_covers(
                        bits,
                        vx as int,
                        y as int,
                        idx,
                    ) && (idx % 64 - vx) % 64 < col),
            decreases 8 - col,
        {
            let lit = (bits >> (7 - col as u8)) & 1 == 1;
            let target: usize = (vx as usize + col) % 64 + y * 64;
            let ghost before = self@;
            let ghost hit_before = hit;
            proof {
                assert(target / 64 == y);
                assert((target % 64 - vx) % 64 == col);
                assert(lit == sprite_bit(bits, col as int));
                assert(row_covers(bits, vx as int, y as int, target as int) == lit);
                assert(before[target as int] == old(self)@[target as int]);
            }
            if lit {
                if self.cells[target] {
                    hit = true;
                }
                self.cells[target] = !self.cells[target];
            }
            proof {
                assert forall|idx: int| 0 <= idx < 2048 implies self@[idx] == (old(self)@[idx] != (
                row_covers(bits, vx as int, y as int, idx) && (idx % 64 - vx) % 64 < col + 1)) by {
                    if idx != target {
                        assert(!(idx / 64 == y && (idx % 64 - vx) % 64 == col));
                    }
                }
                if hit {
                    if hit_before {
                        let w = choose|idx: int|
                            0 <= idx < 2048 && old(self)@[idx] && (#[trigger] row_covers(
                                bits,
                                vx as int,
                                y as int,
                                idx,
                            ) && (idx % 64 - vx) % 64 < col);
                        assert(row_covers(bits, vx as int, y as int, w) && (w % 64 - vx) % 64 < col
                            + 1);
                    } else {
                        assert(row_covers(bits, vx as int, y as int, target as int));
                    }
                } else {
                    assert forall|idx: int|
                        0 <= idx < 2048 && old(self)@[idx] && (#[trigger] row_covers(
                            bits,
                            vx as int,
                            y as int,
                            idx,
                        ) && (idx % 64 - vx) % 64 < col + 1) implies false by {
                        if idx != target {
                            assert(!(idx / 64 == y && (idx % 64 - vx) % 64 == col));
                        }
                    }
                }
            }
            col += 1;
        }
        hit
    }

    /// XORs `sprite`, one byte per row, onto the screen with its top left corner
    /// at `(vx mod 64, vy mod 32)`, wrapping at the right and bottom edges.
    /// Returns whether any lit cell went dark.
    pub fn draw_sprite(&mut self, sprite: &[u8], vx: u8, vy: u8) -> (collision: bool)
        requires
            sprite@.len() <= 32,
        ensures
            final(self)@ == blit(old(self)@, sprite@, vx as int, vy as int),
            collision == blit_collides(old(self)@, sprite@, vx as int, vy as int),
    {
        let mut collision = false;
        let mut row: usize = 0;
        while row < sprite.len()
            invariant
                row <= sprite@.len() <= 32,
                forall|idx: int|
                    0 <= idx < 2048 ==> self@[idx] == (old(self)@[idx] != (sprite_covers(
                        sprite@,
                        vx as int,
                        vy as int,
                        idx,
                    ) && (idx / 64 - vy) % 32 < row)),
                collision == exists|idx: int|
                    0 <= idx < 2048 && old(self)@[idx] && (#[trigger] sprite_covers(
                        sprite@,
                        vx as int,
                        vy as int,
                        idx,
                    ) && (idx / 64 - vy) % 32 < row),
            decreases sprite@.len() - row,
        {
            let y: usize = (vy as usize + row) % 32;
            let bits: u8 = sprite[row];
            let ghost before = self@;
            let ghost collision_before = collision;
            let hit = self.draw_row(bits, vx, y);
            collision = collision || hit;
            proof {
                assert forall|idx: int| 0 <= idx < 2048 implies #[trigger] row_covers(
                    bits,
                    vx as int,
                    y as int,
                    idx,
                ) == (sprite_covers(sprite@, vx as int, vy as int, idx) && (idx / 64 - vy) % 32
                    == row) by {}
                if collision_before {
                    let w = choose|idx: int|
                        0 <= idx < 2048 && old(self)@[idx] && (#[trigger] sprite_covers(
                            sprite@,
                            vx as int,
                            vy as int,
                            idx,
                        ) && (idx / 64 - vy) % 32 < row);
                    assert(sprite_covers(sprite@, vx as int, vy as int, w) && (w / 64 - vy) % 32
                        < row + 1);
                } else if hit {
                    let w = choose|idx: int|
                        0 <= idx < 2048 && before[idx] && #[trigger] row_covers(
                            bits,
                            vx as int,
                            y as int,
                            idx,
                        );
                    assert(sprite_covers(sprite@, vx as int, vy as int, w) && (w / 64 - vy) % 32
                        < row + 1);
                } else {
                    assert forall|idx: int|
                        0 <= idx < 2048 && old(self)@[idx] && (#[trigger] sprite_covers(
                            sprite@,
                            vx as int,
                            vy as int,
                            idx,
                        ) && (idx / 64 - vy) % 32 < row + 1) implies false by {
                        if (idx / 64 - vy) % 32 == row {
                            assert(row_covers(bits, vx as int, y as int, idx));
                        }
                    }
                }
            }
            row += 1;
        }
        assert(self@ =~= blit(old(self)@, sprite@, vx as int, vy as int));
        collision
    }

    /// The screen as text, ready to be printed: see [`picture`].
    pub fn render(&self) -> (text: String)
        ensures
            text@ == picture(self@),
    {
        let mut chars: Vec<char> = Vec::new();
        let mut idx: usize = 0;
        while idx < 2048
            invariant
                idx <= 2048,
                chars@.len() == idx + idx / 64,
                forall|k: int| 0 <= k < chars@.len() ==> chars@[k] == picture(self@)[k],
            decreases 2048 - idx,
        {
            let ghost at = chars@.len() as int;
            assert(at / 65 == idx / 64 && at % 65 == idx % 64);
            chars.push(if self.cells[idx] { '\u{2588}' } else { ' ' });
            if idx % 64 == 63 {
                assert((at + 1) % 65 == 64);
                chars.push('\n');
            }
            idx += 1;
        }
        assert(chars@ =~= picture(self@));
        string_from_chars(&chars)
    }
}

/// Builds a `String` from characters through `String`'s `FromIterator<&char>`,
/// which appends the characters one by one in order: the result holds exactly
/// the characters of `chars`.
#[verifier::external_body]
fn string_from_chars(chars: &Vec<char>) -> (text: String)
    ensures
        text@ == chars@,
{
    String::from_iter(chars.iter())
}

} // verus!
