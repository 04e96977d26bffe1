//! The render projector's color mapping: every grid cell becomes its palette
//! color, four RGBA bytes per cell, row-major — a strictly read-only consumer
//! of the grid. Scaling the result to a visible window is display work and
//! stays outside the engine.

use vstd::prelude::*;
use crate::grid::Grid;
use crate::palette::{palette, Rgb};

verus! {

/// Maps the grid through the palette into an RGBA raster of the grid's own
/// dimensions: four bytes per cell, fully opaque, row-major.
pub fn render_rgba(grid: &Grid, colors: &Vec<Rgb>) -> (out: Vec<u8>)
    requires
        grid.wf(),
        colors@ == palette(),
    ensures
        out@.len() == 4 * grid@.len(),
        forall|i: int|
            0 <= i < grid@.len() ==> {
                &&& out@[4 * i] == palette()[#[trigger] grid@[i] as int].r
                &&& out@[4 * i + 1] == palette()[grid@[i] as int].g
                &&& out@[4 * i + 2] == palette()[grid@[i] as int].b
                &&& out@[4 * i + 3] == 255
            },
{
    let cells = grid.cells();
    let n = cells.len();
    let mut out: Vec<u8> = Vec::new();
    let mut i: usize = 0;
    while i < n
        invariant
            colors@ == palette(),
            grid.wf(),
            cells@ == grid@,
            n == grid@.len(),
            0 <= i <= n,
            out@.len() == 4 * i,
            forall|j: int|
                0 <= j < i ==> {
                    &&& out@[4 * j] == palette()[#[trigger] grid@[j] as int].r
                    &&& out@[4 * j + 1] == palette()[grid@[j] as int].g
                    &&& out@[4 * j + 2] == palette()[grid@[j] as int].b
                    &&& out@[4 * j + 3] == 255
                },
        decreases n - i,
    {
        let s = cells[i];
        let color = colors[s as usize];
        out.push(color.r);
        out.push(color.g);
        out.push(color.b);
        out.push(255);
        i += 1;
    }
    out
}

} // verus!
