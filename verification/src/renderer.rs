//! The display: a grid of 64 by 32 one-bit cells, and the drawing of
//! sprites onto it.

use vstd::prelude::*;

verus! {

/// Cells per row.
pub const DISPLAY_WIDTH: usize = 64;

/// Number of rows.
pub const DISPLAY_HEIGHT: usize = 32;

/// Number of cells.
pub const PIXEL_COUNT: usize = 2048;

/// Position in the buffer of the cell in column `column` of row `row`.
pub open spec fn cell_index(column: int, row: int) -> int {
    row * 64 + column
}

/// Whether bit `bit` of a sprite row is set, bit 0 being the most
/// significant: the one drawn leftmost.
pub open spec fn sprite_bit(row: u8, bit: int) -> bool {
    (row >> ((7 - bit) as u8)) & 1u8 == 1u8
}

/// Whether the sprite `rows`, put with its top left corner on column `x`
/// of row `y`, has a set bit on cell `cell` of the grid. Rows below the
/// grid's last row and bits right of its last column fall on no cell.
pub open spec fn sprite_covers(x: u8, y: u8, rows: Seq<u8>, cell: int) -> bool {
    let column = cell % 64;
    let row = cell / 64;
    &&& 0 <= cell < PIXEL_COUNT
    &&& y <= row < y + rows.len()
    &&& x <= column < x + 8
    &&& sprite_bit(rows[row - y], column - x)
}

/// A cell's value after a set sprite bit was drawn on it.
pub open spec fn toggled(value: u8) -> u8 {
    if value == 0 {
        1
    } else {
        0
    }
}

/// The buffer `screen` after the sprite was drawn at `(x, y)`: each cell
/// under a set bit is toggled, every other cell is as before.
pub open spec fn blit(screen: Seq<u8>, x: u8, y: u8, rows: Seq<u8>) -> Seq<u8> {
    Seq::new(
        screen.len(),
        |cell: int|
            if sprite_covers(x, y, rows, cell) {
                toggled(screen[cell])
            } else {
                screen[cell]
            },
    )
}

/// Whether drawing the sprite at `(x, y)` turns off a cell of `screen`
/// that is on.
pub open spec fn collides(screen: Seq<u8>, x: u8, y: u8, rows: Seq<u8>) -> bool {
    exists|cell: int|
        0 <= cell < screen.len() && screen[cell] == 1 && #[trigger] sprite_covers(x, y, rows, cell)
}

/// The frame buffer. Cell `(column, row)` is at `row * 64 + column`.
pub struct Renderer {
    pub pixels: [u8; 2048],
}

impl View for Renderer {
    type V = Seq<u8>;

    open spec fn view(&self) -> Seq<u8> {
        self.pixels@
    }
}

impl Renderer {
    /// Every cell is 0 (off) or 1 (on).
    pub open spec fn wf(&self) -> bool {
        forall|cell: int| 0 <= cell < PIXEL_COUNT ==> #[trigger] self@[cell] <= 1
    }

    /// A display with every cell off.
    pub fn new() -> (renderer: Self)
        ensures
            renderer.wf(),
            renderer@ == Seq::new(PIXEL_COUNT as nat, |cell: int| 0u8),
    {
        let renderer = Renderer { pixels: [0u8; 2048] };
        assert(renderer@ =~= Seq::new(PIXEL_COUNT as nat, |cell: int| 0u8));
        renderer
    }

    /// The value, 0 or 1, of the cell in column `column` of row `row`.
    pub fn pixel(&self, column: usize, row: usize) -> (value: u8)
        requires
            column < DISPLAY_WIDTH,
            row < DISPLAY_HEIGHT,
        ensures
            value == self@[cell_index(column as int, row as int)],
    {
        self.pixels[row * 64 + column]
    }

    /// Turns every cell off.
    pub fn clear_pixels(&mut self)
        ensures
            final(self).wf(),
            final(self)@ == Seq::new(PIXEL_COUNT as nat, |cell: int| 0u8),
    {
        let mut i: usize = 0;
        while i < 2048
            invariant
                i <= 2048,
                forall|cell: int| 0 <= cell < i ==> self.pixels@[cell] == 0,
            decreases 2048 - i,
        {
            self.pixels[i] = 0;
            i += 1;
        }
        assert(self@ =~= Seq::new(PIXEL_COUNT as nat, |cell: int| 0u8));
    }

    /// Draws a sprite with its top left corner at column `x` of row `y`.
    /// Each byte of `sprite` is one row of eight cells, the most
    /// significant bit leftmost; a set bit toggles its cell. What would
    /// fall below the last row or right of the last column is left out.
    /// Returns whether a cell that was on went off.
    pub fn draw_sprite(&mut self, x: u8, y: u8, sprite: Vec<u8>) -> (collision: bool)
        requires
            old(self).wf(),
        ensures
            final(self).wf(),
            final(self)@ == blit(old(self)@, x, y, sprite@),
            collision == collides(old(self)@, x, y, sprite@),
    {
        let ghost before = self@;
        let ghost rows = sprite@;
        let height: usize = if y < 32 { 32 - y as usize } else { 0 };
        let width: usize = if x < 57 { 8 } else if x < 64 { 64 - x as usize } else { 0 };
        let mut collision = false;
        let mut r: usize = 0;
        while r < sprite.len() && r < height
            invariant
                rows == sprite@,
                before == old(self)@,
                height == if y < 32 { 32 - y } else { 0 },
                width == if x < 57 { 8 } else if x < 64 { 64 - x } else { 0 },
                r <= rows.len(),
                forall|cell: int| 0 <= cell < PIXEL_COUNT ==> before[cell] <= 1,
                painted(self@, before, x, y, rows, r as int, 0),
                collision == hit(before, x, y, rows, r as int, 0),
            decreases rows.len() - r,
        {
            let bits: u8 = sprite[r];
            let line: usize = y as usize + r;
            let mut b: usize = 0;
            while b < width
                invariant
                    rows == sprite@,
                    before == old(self)@,
                    width == if x < 57 { 8 } else if x < 64 { 64 - x } else { 0 },
                    r < rows.len(),
                    bits == rows[r as int],
                    line == y + r,
                    line < 32,
                    b <= width,
                    forall|cell: int| 0 <= cell < PIXEL_COUNT ==> before[cell] <= 1,
                    painted(self@, before, x, y, rows, r as int, b as int),
                    collision == hit(before, x, y, rows, r as int, b as int),
                decreases width - b,
            {
                let shift: u8 = (7 - b) as u8;
                let target: usize = line * 64 + x as usize + b;
                let ghost was = collision;
                let ghost screen = self@;
                if (bits >> shift) & 1 == 1 {
                    if self.pixels[target] == 1 {
                        collision = true;
                        self.pixels[target] = 0;
                    } else {
                        self.pixels[target] = 1;
                    }
                }
                proof {
                    lemma_next_bit(x, y, rows, r as int, b as int);
                    assert(target as int == cell_index(x + b, y + r));
                    assert(!drawn(x, y, rows, r as int, b as int, target as int));
                    assert(screen[target as int] == before[target as int]);
                    assert forall|cell: int| 0 <= cell < PIXEL_COUNT implies self@[cell] == if drawn(
                        x,
                        y,
                        rows,
                        r as int,
                        b + 1,
                        cell,
                    ) {
                        toggled(before[cell])
                    } else {
                        before[cell]
                    } by {
                        if cell != target {
                            assert(self@[cell] == screen[cell]);
                            assert(drawn(x, y, rows, r as int, b as int, cell) == drawn(
                                x,
                                y,
                                rows,
                                r as int,
                                b + 1,
                                cell,
                            ));
                        }
                    }
                    if was {
                        let w = hit_witness(before, x, y, rows, r as int, b as int);
                        assert(drawn(x, y, rows, r as int, b + 1, w));
                    }
                    if collision && !was {
                        assert(drawn(x, y, rows, r as int, b + 1, target as int));
                    }
                    if hit(before, x, y, rows, r as int, b + 1) {
                        let w = hit_witness(before, x, y, rows, r as int, b + 1);
                        if w != target {
                            assert(drawn(x, y, rows, r as int, b as int, w));
                        }
                    }
                }
                b += 1;
            }
            proof {
                lemma_next_row(x, y, rows, r as int, b as int);
                assert forall|cell: int| 0 <= cell < PIXEL_COUNT implies self@[cell] == if drawn(
                    x,
                    y,
                    rows,
                    r + 1,
                    0,
                    cell,
                ) {
                    toggled(before[cell])
                } else {
                    before[cell]
                } by {
                    assert(drawn(x, y, rows, r as int, b as int, cell) == drawn(
                        x,
                        y,
                        rows,
                        r + 1,
                        0,
                        cell,
                    ));
                }
                if collision {
                    let w = hit_witness(before, x, y, rows, r as int, b as int);
                    assert(drawn(x, y, rows, r + 1, 0, w));
                }
                if hit(before, x, y, rows, r + 1, 0) {
                    let w = hit_witness(before, x, y, rows, r + 1, 0);
                    assert(drawn(x, y, rows, r as int, b as int, w));
                }
            }
            r += 1;
        }
        proof {
            lemma_all_rows(x, y, rows, r as int);
            assert forall|cell: int| 0 <= cell < PIXEL_COUNT implies self@[cell] == blit(
                before,
                x,
                y,
                rows,
            )[cell] by {
                assert(drawn(x, y, rows, r as int, 0, cell) == sprite_covers(x, y, rows, cell));
            }
            assert(self@ =~= blit(before, x, y, rows));
            if collision {
                let w = hit_witness(before, x, y, rows, r as int, 0);
                assert(sprite_covers(x, y, rows, w));
            }
            if collides(before, x, y, rows) {
                let w = choose|cell: int|
                    0 <= cell < before.len() && before[cell] == 1 && #[trigger] sprite_covers(
                        x,
                        y,
                        rows,
                        cell,
                    );
                assert(drawn(x, y, rows, r as int, 0, w));
            }
        }
        collision
    }
}

/// Whether `cell` lies under a set bit of the sprite that comes before bit
/// `bit` of sprite row `upto`, going through the sprite row by row and
/// from left to right.
spec fn drawn(x: u8, y: u8, rows: Seq<u8>, upto: int, bit: int, cell: int) -> bool {
    &&& sprite_covers(x, y, rows, cell)
    &&& (cell / 64 - y < upto || (cell / 64 - y == upto && cell % 64 - x < bit))
}

/// `screen` is `before` with the cells toggled that were drawn up to bit
/// `bit` of sprite row `upto`.
spec fn painted(
    screen: Seq<u8>,
    before: Seq<u8>,
    x: u8,
    y: u8,
    rows: Seq<u8>,
    upto: int,
    bit: int,
) -> bool {
    forall|cell: int|
        0 <= cell < PIXEL_COUNT ==> screen[cell] == if #[trigger] drawn(x, y, rows, upto, bit, cell) {
            toggled(before[cell])
        } else {
            before[cell]
        }
}

/// Whether a cell that was on in `before` was drawn up to bit `bit` of
/// sprite row `upto`.
spec fn hit(before: Seq<u8>, x: u8, y: u8, rows: Seq<u8>, upto: int, bit: int) -> bool {
    exists|cell: int|
        0 <= cell < PIXEL_COUNT && before[cell] == 1 && #[trigger] drawn(x, y, rows, upto, bit, cell)
}

proof fn hit_witness(before: Seq<u8>, x: u8, y: u8, rows: Seq<u8>, upto: int, bit: int) -> (cell:
    int)
    requires
        hit(before, x, y, rows, upto, bit),
    ensures
        0 <= cell < PIXEL_COUNT,
        before[cell] == 1,
        drawn(x, y, rows, upto, bit, cell),
{
    choose|cell: int|
        0 <= cell < PIXEL_COUNT && before[cell] == 1 && #[trigger] drawn(x, y, rows, upto, bit, cell)
}

/// Going on by one bit in row `r` adds at most the cell under that bit.
proof fn lemma_next_bit(x: u8, y: u8, rows: Seq<u8>, r: int, b: int)
    requires
        0 <= r < rows.len(),
        y + r < 32,
        0 <= b < 8,
        x + b < 64,
    ensures
        drawn(x, y, rows, r, b + 1, cell_index(x + b, y + r)) == sprite_bit(rows[r], b),
        forall|cell: int|
            cell != cell_index(x + b, y + r) ==> drawn(x, y, rows, r, b, cell) == #[trigger] drawn(
                x,
                y,
                rows,
                r,
                b + 1,
                cell,
            ),
{
    let target = cell_index(x + b, y + r);
    assert(target / 64 == y + r && target % 64 == x + b);
    assert forall|cell: int| cell != target implies drawn(x, y, rows, r, b, cell) == #[trigger] drawn(
        x,
        y,
        rows,
        r,
        b + 1,
        cell,
    ) by {
        if cell / 64 - y == r && cell % 64 - x == b {
            assert(cell == (cell / 64) * 64 + cell % 64);
        }
    }
}

/// Once the bits of row `r` that fall on the grid are through, so is the
/// row.
proof fn lemma_next_row(x: u8, y: u8, rows: Seq<u8>, r: int, b: int)
    requires
        b == if x < 57 { 8 } else if x < 64 { 64 - x } else { 0 },
    ensures
        forall|cell: int|
            drawn(x, y, rows, r, b, cell) == #[trigger] drawn(x, y, rows, r + 1, 0, cell),
{
}

/// Once the rows that fall on the grid are through, so is the sprite.
proof fn lemma_all_rows(x: u8, y: u8, rows: Seq<u8>, r: int)
    requires
        r == rows.len() || r >= (if y < 32 { 32 - y } else { 0 }),
    ensures
        forall|cell: int|
            sprite_covers(x, y, rows, cell) == #[trigger] drawn(x, y, rows, r, 0, cell),
{
}

} // verus!
