use vstd::prelude::*;

verus! {

/// Width of the framebuffer in pixels.
pub const SCREEN_WIDTH: usize = 64;

/// Height of the framebuffer in pixels.
pub const SCREEN_HEIGHT: usize = 32;

/// Number of pixels in the framebuffer.
pub const SCREEN_CELLS: usize = 2048;

/// A 64x32 monochrome framebuffer, row-major, with wraparound addressing.
pub struct Display {
    screen: [bool; SCREEN_CELLS],
}

impl View for Display {
    type V = Seq<bool>;

    /// The pixels, row by row; `true` is lit.
    closed spec fn view(&self) -> Seq<bool> {
        self.screen@
    }
}

/// A framebuffer with every pixel off.
pub open spec fn blank_screen() -> Seq<bool> {
    Seq::new(SCREEN_CELLS as nat, |i: int| false)
}

/// The cell that coordinates `(x, y)` address once wrapped onto the grid.
pub open spec fn cell_index(x: int, y: int) -> int {
    (y % 32) * 64 + x % 64
}

/// Bit `col` of a sprite row, counting from the most significant bit.
pub open spec fn sprite_bit(row: u8, col: int) -> bool {
    (row >> ((7 - col) as u8)) & 1u8 == 1u8
}

/// The sprite row that lands on the line of cell `i` when the sprite's top
/// edge is at line `vy`.
pub open spec fn row_of(i: int, vy: u8) -> int {
    (i / 64 + 256 - vy) % 32
}

/// The sprite column that lands on the column of cell `i` when the sprite's
/// left edge is at column `vx`.
pub open spec fn col_of(i: int, vx: u8) -> int {
    (i % 64 + 256 - vx) % 64
}

/// Whether a set bit of the sprite `rows`, drawn at `(vx, vy)`, falls on cell `i`.
pub open spec fn covers(rows: Seq<u8>, vx: u8, vy: u8, i: int) -> bool {
    let r = row_of(i, vy);
    let c = col_of(i, vx);
    r < rows.len() && c < 8 && sprite_bit(rows[r], c)
}

/// The framebuffer after XOR-drawing the sprite `rows` at `(vx, vy)`.
pub open spec fn sprite_drawn(screen: Seq<bool>, rows: Seq<u8>, vx: u8, vy: u8) -> Seq<bool> {
    Seq::new(screen.len(), |i: int| screen[i] != covers(rows, vx, vy, i))
}

/// Whether drawing the sprite `rows` at `(vx, vy)` turns some lit pixel off.
pub open spec fn sprite_collides(screen: Seq<bool>, rows: Seq<u8>, vx: u8, vy: u8) -> bool {
    exists|i: int| 0 <= i < screen.len() && #[trigger] covers(rows, vx, vy, i) && screen[i]
}

/// The framebuffer and the collision flag after the first `k` steps of
/// XOR-drawing the sprite `rows` at `(vx, vy)`. Step `j` visits bit `j % 8`
/// of row `j / 8`; a set bit toggles its pixel, and turning a lit pixel off
/// is a collision. Rows more than 31 apart land on the same line.
pub open spec fn blit(screen: Seq<bool>, rows: Seq<u8>, vx: u8, vy: u8, k: nat) -> (Seq<bool>, bool)
    decreases k,
{
    if k == 0 {
        (screen, false)
    } else {
        let prev = blit(screen, rows, vx, vy, (k - 1) as nat);
        let r = (k - 1) / 8;
        let c = (k - 1) % 8;
        let t = cell_index(vx + c, vy + r);
        if sprite_bit(rows[r], c) {
            (prev.0.update(t, !prev.0[t]), prev.1 || prev.0[t])
        } else {
            prev
        }
    }
}

/// Whether a set bit of the sprite falls on cell `i` and comes before
/// column `c` of row `r` in drawing order.
pub open spec fn drawn_before(rows: Seq<u8>, vx: u8, vy: u8, i: int, r: int, c: int) -> bool {
    covers(rows, vx, vy, i) && (row_of(i, vy) < r || (row_of(i, vy) == r && col_of(i, vx) < c))
}

/// For a sprite of fewer than 32 rows no two steps of `blit` touch the same
/// cell, so after `k` steps each cell is toggled exactly when a set bit
/// visited so far covers it.
pub proof fn lemma_blit_closed_form(screen: Seq<bool>, rows: Seq<u8>, vx: u8, vy: u8, k: nat)
    requires
        screen.len() == SCREEN_CELLS,
        rows.len() < 32,
        k <= rows.len() * 8,
    ensures
        blit(screen, rows, vx, vy, k).0.len() == SCREEN_CELLS,
        forall|i: int|
            0 <= i < SCREEN_CELLS ==> #[trigger] blit(screen, rows, vx, vy, k).0[i] == (screen[i]
                != drawn_before(rows, vx, vy, i, (k / 8) as int, (k % 8) as int)),
        blit(screen, rows, vx, vy, k).1 == exists|i: int|
            0 <= i < SCREEN_CELLS && #[trigger] drawn_before(rows, vx, vy, i, (k / 8) as int, (k % 8) as int)
                && screen[i],
    decreases k,
{
    if k > 0 {
        let j = (k - 1) as nat;
        lemma_blit_closed_form(screen, rows, vx, vy, j);
        let prev = blit(screen, rows, vx, vy, j);
        let r = (j / 8) as int;
        let c = (j % 8) as int;
        let t = cell_index(vx + c, vy + r);
        assert forall|i: int| 0 <= i < SCREEN_CELLS implies (i == t) == (row_of(i, vy) == r
            && col_of(i, vx) == c) by {
            lemma_cell_of_sprite_pixel(vx, vy, r, c, i);
        }
        lemma_cell_of_sprite_pixel(vx, vy, r, c, 0);
        assert forall|i: int| 0 <= i < SCREEN_CELLS implies #[trigger] drawn_before(
            rows,
            vx,
            vy,
            i,
            (k / 8) as int,
            (k % 8) as int,
        ) == drawn_before(rows, vx, vy, i, r, c + 1) by {}
        assert forall|i: int| 0 <= i < SCREEN_CELLS && i != t implies drawn_before(
            rows,
            vx,
            vy,
            i,
            r,
            c + 1,
        ) == drawn_before(rows, vx, vy, i, r, c) by {}
        assert(!drawn_before(rows, vx, vy, t, r, c));
        assert(drawn_before(rows, vx, vy, t, r, c + 1) == sprite_bit(rows[r], c));
        let cur = blit(screen, rows, vx, vy, k);
        if cur.1 {
            if prev.1 {
                let i = choose|i: int|
                    0 <= i < SCREEN_CELLS && #[trigger] drawn_before(rows, vx, vy, i, r, c)
                        && screen[i];
                assert(drawn_before(rows, vx, vy, i, (k / 8) as int, (k % 8) as int));
            } else {
                assert(drawn_before(rows, vx, vy, t, (k / 8) as int, (k % 8) as int));
            }
        }
        if exists|i: int|
            0 <= i < SCREEN_CELLS && #[trigger] drawn_before(rows, vx, vy, i, (k / 8) as int, (k % 8) as int)
                && screen[i] {
            let i = choose|i: int|
                0 <= i < SCREEN_CELLS && #[trigger] drawn_before(rows, vx, vy, i, (k / 8) as int, (k % 8) as int)
                    && screen[i];
            if i != t {
                assert(drawn_before(rows, vx, vy, i, r, c));
            }
        }
    }
}

/// For a sprite of fewer than 32 rows, the whole `blit` is the XOR with
/// the cells the sprite covers, and the collision flag tells whether one
/// of them was lit.
pub proof fn lemma_blit_is_sprite_drawn(screen: Seq<bool>, rows: Seq<u8>, vx: u8, vy: u8)
    requires
        screen.len() == SCREEN_CELLS,
        rows.len() < 32,
    ensures
        blit(screen, rows, vx, vy, rows.len() * 8).0 == sprite_drawn(screen, rows, vx, vy),
        blit(screen, rows, vx, vy, rows.len() * 8).1 == sprite_collides(screen, rows, vx, vy),
{
    let k = rows.len() * 8;
    lemma_blit_closed_form(screen, rows, vx, vy, k);
    assert forall|i: int| 0 <= i < SCREEN_CELLS implies #[trigger] drawn_before(
        rows,
        vx,
        vy,
        i,
        (k / 8) as int,
        (k % 8) as int,
    ) == covers(rows, vx, vy, i) by {}
    assert(blit(screen, rows, vx, vy, k).0 =~= sprite_drawn(screen, rows, vx, vy));
    if blit(screen, rows, vx, vy, k).1 {
        let i = choose|i: int|
            0 <= i < SCREEN_CELLS && #[trigger] drawn_before(rows, vx, vy, i, (k / 8) as int, (k % 8) as int)
                && screen[i];
        assert(covers(rows, vx, vy, i));
    }
    if sprite_collides(screen, rows, vx, vy) {
        let i = choose|i: int| 0 <= i < screen.len() && #[trigger] covers(rows, vx, vy, i) && screen[i];
        assert(drawn_before(rows, vx, vy, i, (k / 8) as int, (k % 8) as int));
    }
}

/// Cell `cell_index(vx + c, vy + r)` is the one cell whose sprite row and
/// column are `r` and `c`.
pub proof fn lemma_cell_of_sprite_pixel(vx: u8, vy: u8, r: int, c: int, i: int)
    requires
        0 <= r < 32,
        0 <= c < 64,
        0 <= i < SCREEN_CELLS,
    ensures
        0 <= cell_index(vx + c, vy + r) < SCREEN_CELLS,
        (i == cell_index(vx + c, vy + r)) <==> (row_of(i, vy) == r && col_of(i, vx) == c),
{
}

impl Display {
    /// The framebuffer always holds `SCREEN_CELLS` pixels.
    pub proof fn lemma_size(&self)
        ensures
            self@.len() == SCREEN_CELLS,
    {
    }

    /// A framebuffer with every pixel off.
    pub fn new() -> (d: Display)
        ensures
            d@ == blank_screen(),
    {
        let d = Display { screen: [false; SCREEN_CELLS] };
        assert(d@ =~= blank_screen());
        d
    }

    /// Turns every pixel off.
    pub fn clear(&mut self)
        ensures
            final(self)@ == blank_screen(),
    {
        self.screen = [false; SCREEN_CELLS];
        assert(self@ =~= blank_screen());
    }

    /// Toggles the pixel at `(x mod 64, y mod 32)` and returns its new value:
    /// `false` means a lit pixel was turned off.
    pub fn draw(&mut self, x: u8, y: u8) -> (on: bool)
        ensures
            0 <= cell_index(x as int, y as int) < SCREEN_CELLS,
            old(self)@.len() == SCREEN_CELLS,
            final(self)@ == old(self)@.update(
                cell_index(x as int, y as int),
                !old(self)@[cell_index(x as int, y as int)],
            ),
            on == !old(self)@[cell_index(x as int, y as int)],
    {
        let idx: usize = (y as usize % SCREEN_HEIGHT) * SCREEN_WIDTH + x as usize % SCREEN_WIDTH;
        let on = !self.screen[idx];
        self.screen[idx] = on;
        on
    }

    /// Whether the pixel at column `x`, line `y` is lit.
    pub fn is_on(&self, x: usize, y: usize) -> (on: bool)
        requires
            x < SCREEN_WIDTH,
            y < SCREEN_HEIGHT,
        ensures
            self@.len() == SCREEN_CELLS,
            on == self@[cell_index(x as int, y as int)],
    {
        self.screen[y * SCREEN_WIDTH + x]
    }

    /// A copy of the pixel grid, row by row.
    pub fn cells(&self) -> (c: Vec<bool>)
        ensures
            c@ == self@,
    {
        let mut c: Vec<bool> = Vec::new();
        let mut i: usize = 0;
        while i < SCREEN_CELLS
            invariant
                i <= SCREEN_CELLS,
                self@.len() == SCREEN_CELLS,
                c@ == self@.subrange(0, i as int),
            decreases SCREEN_CELLS - i,
        {
            c.push(self.screen[i]);
            i += 1;
            assert(c@ =~= self@.subrange(0, i as int));
        }
        assert(c@ =~= self@);
        c
    }
}

} // verus!
