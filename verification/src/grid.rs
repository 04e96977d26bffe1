//! The grid store: a dense row-major array of state codes together with its
//! dimensions, the seed it was loaded from, and the generation counter. One
//! update pass reads every cell's five-cell neighborhood from the current
//! contents and writes the table's answer into a fresh buffer, then swaps the
//! buffers in: no cell ever observes a neighbor already updated in the same
//! pass. Neighbors at the perimeter wrap around to the opposite edge.

use vstd::prelude::*;
use vstd::arithmetic::div_mod::{
    lemma_div_pos_is_pos, lemma_fundamental_div_mod, lemma_fundamental_div_mod_converse,
    lemma_mod_bound, lemma_mod_self_0, lemma_multiply_divide_lt, lemma_small_mod,
};
use vstd::arithmetic::mul::lemma_mul_is_commutative;
use crate::{valid_state, STATE_COUNT};
use crate::neighbor::{key_of, lemma_unpack_of_pack, pack_neighbor_key};
use crate::palette::{decode_pixel, hutton32_colors, match_color, Rgb};
use crate::rule::{IdentityRule, Rule, ShiftRule};
use crate::table::{table_spec, TransitionTable};

verus! {

/// One more than the largest generation count; the counter wraps here.
pub const GENERATION_WRAP: u128 = 0x1_0000_0000_0000_0000;

/// The cell at column `x`, row `y` of a row-major grid `w` cells wide.
pub open spec fn cell_at(cells: Seq<u8>, w: int, x: int, y: int) -> u8 {
    cells[y * w + x]
}

/// The coordinate one below `v`, wrapping to `m - 1` at the edge.
pub open spec fn wrap_dec(v: int, m: int) -> int {
    if v == 0 {
        m - 1
    } else {
        v - 1
    }
}

/// The coordinate one above `v`, wrapping to 0 at the edge.
pub open spec fn wrap_inc(v: int, m: int) -> int {
    if v + 1 == m {
        0
    } else {
        v + 1
    }
}

/// The next state of the cell at (`x`, `y`): the table's entry for the key
/// packed from the cell's own state and its north, east, south and west
/// neighbors, all read from the same pre-pass contents.
pub open spec fn step_cell(table: Seq<u8>, cells: Seq<u8>, w: int, h: int, x: int, y: int) -> u8 {
    table[key_of(
        cell_at(cells, w, x, y),
        cell_at(cells, w, x, wrap_dec(y, h)),
        cell_at(cells, w, wrap_inc(x, w), y),
        cell_at(cells, w, x, wrap_inc(y, h)),
        cell_at(cells, w, wrap_dec(x, w), y),
    )]
}

/// The whole grid after one update pass.
pub open spec fn step_grid(table: Seq<u8>, cells: Seq<u8>, w: int, h: int) -> Seq<u8> {
    Seq::new(cells.len(), |i: int| step_cell(table, cells, w, h, i % w, i / w))
}

/// A row-major cell index is within the grid.
pub proof fn lemma_cell_index_in_range(w: int, h: int, x: int, y: int)
    requires
        0 <= x < w,
        0 <= y < h,
    ensures
        0 <= y * w + x < h * w,
        0 <= y * w + x < w * h,
        (y * w + x) % w == x,
        (y * w + x) / w == y,
{
    assert(0 <= y * w + x < h * w && 0 <= y * w + x < w * h) by (nonlinear_arith)
        requires
            0 <= x < w,
            0 <= y < h,
    ;
    lemma_fundamental_div_mod_converse(y * w + x, w, y, x);
}

/// The simulation grid, its seed pattern, and the generation counter.
pub struct Grid {
    width: u32,
    height: u32,
    cells: Vec<u8>,
    seed: Vec<u8>,
    generation: u64,
}

impl View for Grid {
    type V = Seq<u8>;

    closed spec fn view(&self) -> Seq<u8> {
        self.cells@
    }
}

impl Grid {
    /// Width of the grid in cells.
    pub closed spec fn spec_width(&self) -> u32 {
        self.width
    }

    /// Height of the grid in cells.
    pub closed spec fn spec_height(&self) -> u32 {
        self.height
    }

    /// The pattern the grid was loaded from, as decoded state codes.
    pub closed spec fn spec_seed(&self) -> Seq<u8> {
        self.seed@
    }

    /// Count of update passes applied since the last load or reset,
    /// modulo the counter width.
    pub closed spec fn spec_generation(&self) -> u64 {
        self.generation
    }

    /// The backing storage matches the dimensions and every cell of the grid
    /// and of its seed is a well-formed state code.
    pub open spec fn wf(&self) -> bool {
        &&& self@.len() == self.spec_width() * self.spec_height()
        &&& self.spec_seed().len() == self@.len()
        &&& forall|i: int| 0 <= i < self@.len() ==> valid_state(#[trigger] self@[i])
        &&& forall|i: int| 0 <= i < self.spec_seed().len() ==> valid_state(
            #[trigger] self.spec_seed()[i],
        )
    }

    /// Width of the grid in cells.
    pub fn width(&self) -> (r: u32)
        ensures
            r == self.spec_width(),
    {
        self.width
    }

    /// Height of the grid in cells.
    pub fn height(&self) -> (r: u32)
        ensures
            r == self.spec_height(),
    {
        self.height
    }

    /// Current value of the generation counter.
    pub fn generation(&self) -> (r: u64)
        ensures
            r == self.spec_generation(),
    {
        self.generation
    }

    /// The grid contents, row-major.
    pub fn cells(&self) -> (r: &Vec<u8>)
        ensures
            r@ == self@,
    {
        &self.cells
    }

    /// The state of the cell at column `x`, row `y`.
    pub fn cell(&self, x: u32, y: u32) -> (r: u8)
        requires
            self.wf(),
            x < self.spec_width(),
            y < self.spec_height(),
        ensures
            r == cell_at(self@, self.spec_width() as int, x as int, y as int),
            valid_state(r),
    {
        proof {
            assert(self@.len() == self.cells.len());
            lemma_cell_index_in_range(
                self.spec_width() as int,
                self.spec_height() as int,
                x as int,
                y as int,
            );
        }
        self.cells[y as usize * self.width as usize + x as usize]
    }

    /// Decodes a raster pattern into a grid: each pixel becomes the state
    /// code of the palette entry with exactly its color, or the background
    /// state 0 when no entry matches. The pattern's dimensions become the
    /// grid's, the decoded states become both the contents and the seed, and
    /// the generation counter starts at zero.
    pub fn load(width: u32, height: u32, pixels: &Vec<Rgb>) -> (g: Grid)
        requires
            pixels@.len() == width * height,
        ensures
            g.wf(),
            g.spec_width() == width,
            g.spec_height() == height,
            g.spec_generation() == 0,
            g@.len() == pixels@.len(),
            forall|i: int| 0 <= i < pixels@.len() ==> g@[i] == decode_pixel(#[trigger] pixels@[i]),
            g.spec_seed() == g@,
    {
        let colors = hutton32_colors();
        let mut cells: Vec<u8> = Vec::with_capacity(pixels.len());
        let mut i: usize = 0;
        while i < pixels.len()
            invariant
                colors@ == crate::palette::palette(),
                0 <= i <= pixels@.len(),
                cells@.len() == i,
                forall|j: int| 0 <= j < i ==> cells@[j] == decode_pixel(#[trigger] pixels@[j]),
                forall|j: int| 0 <= j < i ==> valid_state(#[trigger] cells@[j]),
            decreases pixels@.len() - i,
        {
            let s = match_color(&colors, pixels[i]);
            cells.push(s);
            i += 1;
        }
        let seed = copy_states(&cells);
        Grid { width, height, cells, seed, generation: 0 }
    }

    /// Restores the grid to its most recently loaded pattern and zeroes the
    /// generation counter. Dimensions and seed are unchanged.
    pub fn reset(&mut self)
        requires
            old(self).wf(),
        ensures
            final(self).wf(),
            final(self)@ == old(self).spec_seed(),
            final(self).spec_seed() == old(self).spec_seed(),
            final(self).spec_width() == old(self).spec_width(),
            final(self).spec_height() == old(self).spec_height(),
            final(self).spec_generation() == 0,
    {
        self.cells = copy_states(&self.seed);
        self.generation = 0;
    }

    /// Applies one full-grid update pass: every cell's next state is the
    /// table's entry for its packed neighborhood key, read entirely from the
    /// pre-pass contents, and the generation counter increments, wrapping
    /// silently on overflow. Reads go to the old buffer and writes to a fresh
    /// one, swapped in at the end.
    pub fn step_once(&mut self, table: &TransitionTable)
        requires
            table.wf(),
            old(self).wf(),
        ensures
            final(self).wf(),
            final(self)@ == step_grid(
                table@,
                old(self)@,
                old(self).spec_width() as int,
                old(self).spec_height() as int,
            ),
            final(self).spec_width() == old(self).spec_width(),
            final(self).spec_height() == old(self).spec_height(),
            final(self).spec_seed() == old(self).spec_seed(),
            final(self).spec_generation() == (old(self).spec_generation() + 1) % (
            GENERATION_WRAP as int),
    {
        let w = self.width as usize;
        let h = self.height as usize;
        let len = self.cells.len();
        let ghost cells0 = self.cells@;
        let ghost stepped = step_grid(table@, cells0, w as int, h as int);
        let mut next: Vec<u8> = Vec::with_capacity(len);
        let mut y: usize = 0;
        while y < h
            invariant
                table.wf(),
                self.wf(),
                self@ == cells0,
                self@.len() <= usize::MAX,
                w == self.spec_width(),
                h == self.spec_height(),
                stepped == step_grid(table@, cells0, w as int, h as int),
                0 <= y <= h,
                next@.len() == y * w,
                forall|j: int| 0 <= j < next@.len() ==> next@[j] == #[trigger] stepped[j],
                forall|j: int| 0 <= j < next@.len() ==> valid_state(#[trigger] next@[j]),
            decreases h - y,
        {
            let ym = if y == 0 {
                h - 1
            } else {
                y - 1
            };
            let yp = if y + 1 == h {
                0
            } else {
                y + 1
            };
            let mut x: usize = 0;
            while x < w
                invariant
                    table.wf(),
                    self.wf(),
                    self@ == cells0,
                    self@.len() <= usize::MAX,
                    w == self.spec_width(),
                    h == self.spec_height(),
                    stepped == step_grid(table@, cells0, w as int, h as int),
                    0 <= y < h,
                    ym == wrap_dec(y as int, h as int),
                    yp == wrap_inc(y as int, h as int),
                    0 <= x <= w,
                    next@.len() == y * w + x,
                    forall|j: int| 0 <= j < next@.len() ==> next@[j] == #[trigger] stepped[j],
                    forall|j: int| 0 <= j < next@.len() ==> valid_state(#[trigger] next@[j]),
                decreases w - x,
            {
                proof {
                    lemma_cell_index_in_range(w as int, h as int, x as int, y as int);
                    lemma_cell_index_in_range(w as int, h as int, x as int, ym as int);
                    lemma_cell_index_in_range(w as int, h as int, x as int, yp as int);
                    lemma_cell_index_in_range(
                        w as int,
                        h as int,
                        wrap_inc(x as int, w as int),
                        y as int,
                    );
                    lemma_cell_index_in_range(
                        w as int,
                        h as int,
                        wrap_dec(x as int, w as int),
                        y as int,
                    );
                }
                let i = y * w + x;
                let xm = if x == 0 {
                    w - 1
                } else {
                    x - 1
                };
                let xp = if x + 1 == w {
                    0
                } else {
                    x + 1
                };
                let c = self.cells[i];
                let nn = self.cells[ym * w + x];
                let ee = self.cells[y * w + xp];
                let ss = self.cells[yp * w + x];
                let ww = self.cells[y * w + xm];
                let key = pack_neighbor_key(c, nn, ee, ss, ww);
                let v = table.entry(key);
                proof {
                    assert(v == stepped[(y * w + x) as int]);
                }
                next.push(v);
                x += 1;
            }
            proof {
                assert((y + 1) * w == y * w + w) by (nonlinear_arith);
            }
            y += 1;
        }
        proof {
            assert(h * w == w * h) by (nonlinear_arith);
            assert(next@ =~= stepped);
        }
        self.cells = next;
        let g = self.generation;
        self.generation = g.wrapping_add(1);
        proof {
            if g == u64::MAX {
                lemma_mod_self_0(GENERATION_WRAP as int);
            } else {
                lemma_small_mod((g + 1) as nat, GENERATION_WRAP as nat);
            }
        }
    }
}

/// One update pass under a table built from a rule applies the rule to every
/// cell's own neighborhood: packing a neighborhood into its key and looking
/// it up returns exactly what the rule says for that neighborhood.
pub proof fn lemma_step_applies_rule<R: Rule>(
    table: TransitionTable,
    rule: R,
    cells: Seq<u8>,
    w: int,
    h: int,
    i: int,
)
    requires
        table.wf(),
        table@ == table_spec(rule),
        0 <= w,
        0 <= h,
        cells.len() == w * h,
        forall|j: int| 0 <= j < cells.len() ==> valid_state(#[trigger] cells[j]),
        0 <= i < cells.len(),
    ensures
        ({
            let x = i % w;
            let y = i / w;
            &&& cell_at(cells, w, x, y) == cells[i]
            &&& step_grid(table@, cells, w, h)[i] == rule.spec_rule(
                cell_at(cells, w, x, y),
                cell_at(cells, w, x, wrap_dec(y, h)),
                cell_at(cells, w, wrap_inc(x, w), y),
                cell_at(cells, w, x, wrap_inc(y, h)),
                cell_at(cells, w, wrap_dec(x, w), y),
            )
        }),
{
    assert(0 < w && 0 < h) by (nonlinear_arith)
        requires
            0 <= w,
            0 <= h,
            0 <= i,
            i < w * h,
    ;
    let x = i % w;
    let y = i / w;
    lemma_mod_bound(i, w);
    lemma_div_pos_is_pos(i, w);
    lemma_multiply_divide_lt(i, w, h);
    lemma_fundamental_div_mod(i, w);
    lemma_mul_is_commutative(w, y);
    assert(y * w + x == i);
    lemma_cell_index_in_range(w, h, x, y);
    lemma_cell_index_in_range(w, h, x, wrap_dec(y, h));
    lemma_cell_index_in_range(w, h, x, wrap_inc(y, h));
    lemma_cell_index_in_range(w, h, wrap_inc(x, w), y);
    lemma_cell_index_in_range(w, h, wrap_dec(x, w), y);
    let c = cell_at(cells, w, x, y);
    let n = cell_at(cells, w, x, wrap_dec(y, h));
    let e = cell_at(cells, w, wrap_inc(x, w), y);
    let s = cell_at(cells, w, x, wrap_inc(y, h));
    let ww = cell_at(cells, w, wrap_dec(x, w), y);
    lemma_unpack_of_pack(c, n, e, s, ww);
    assert(step_grid(table@, cells, w, h)[i] == table@[key_of(c, n, e, s, ww)]);
}

/// After one update pass under the rule that shifts every state up by one,
/// every cell's new state is its old state plus one modulo the state count:
/// each cell is computed from the pre-pass contents alone, so no cell
/// observes a neighbor's already-updated value from the same pass.
pub proof fn lemma_shift_rule_step(table: TransitionTable, cells: Seq<u8>, w: int, h: int, i: int)
    requires
        table.wf(),
        table@ == table_spec(ShiftRule),
        0 <= w,
        0 <= h,
        cells.len() == w * h,
        forall|j: int| 0 <= j < cells.len() ==> valid_state(#[trigger] cells[j]),
        0 <= i < cells.len(),
    ensures
        step_grid(table@, cells, w, h)[i] == (cells[i] + 1) % (STATE_COUNT as int),
{
    lemma_step_applies_rule(table, ShiftRule, cells, w, h, i);
}

/// After one update pass under the rule that outputs every cell's own state
/// unchanged, the grid is exactly what it was.
pub proof fn lemma_identity_rule_step(table: TransitionTable, cells: Seq<u8>, w: int, h: int, i: int)
    requires
        table.wf(),
        table@ == table_spec(IdentityRule),
        0 <= w,
        0 <= h,
        cells.len() == w * h,
        forall|j: int| 0 <= j < cells.len() ==> valid_state(#[trigger] cells[j]),
        0 <= i < cells.len(),
    ensures
        step_grid(table@, cells, w, h)[i] == cells[i],
{
    lemma_step_applies_rule(table, IdentityRule, cells, w, h, i);
}

/// Copies a buffer of state codes.
fn copy_states(src: &Vec<u8>) -> (out: Vec<u8>)
    ensures
        out@ == src@,
{
    let mut out: Vec<u8> = Vec::with_capacity(src.len());
    let mut i: usize = 0;
    while i < src.len()
        invariant
            0 <= i <= src@.len(),
            out@.len() == i,
            forall|j: int| 0 <= j < i ==> out@[j] == src@[j],
        decreases src@.len() - i,
    {
        out.push(src[i]);
        i += 1;
    }
    proof {
        assert(out@ =~= src@);
    }
    out
}

} // verus!
