//! Laws of the engine, stated over its view and proved once for every state.

use crate::geometry::{shade_of, Pixel, Shade, Shape};
use crate::life::{is_square, uniform_grid};
use crate::world::{
    cleared, evolved, in_step, is_rendering, on_board, painted, pointed_block, shows, speed_for,
    stamped, with_cell, WorldView,
};
use vstd::arithmetic::div_mod::{
    lemma_div_denominator, lemma_div_pos_is_pos, lemma_fundamental_div_mod_converse,
    lemma_mod_bound, lemma_multiply_divide_lt,
};
use vstd::prelude::*;

verus! {

/// Clearing twice is clearing once.
pub proof fn lemma_clear_idempotent(v: WorldView)
    ensures
        cleared(cleared(v)) == cleared(v),
{
    assert(cleared(cleared(v)).grid =~~= cleared(v).grid);
}

/// A grid whose cells are all in one state is drawn in one colour: all
/// white when every cell is dead, all black when every cell is alive.
pub proof fn lemma_uniform_grid_one_shade(
    shapes: Seq<Shape>,
    v: WorldView,
    origin: Pixel,
    alive: bool,
)
    requires
        is_rendering(shapes, v, origin),
        v.grid == uniform_grid(v.grid.len(), alive),
    ensures
        forall|k: int| 0 <= k < shapes.len() ==> (#[trigger] shapes[k]).fill == shade_of(alive),
{
    let n = v.grid.len() as int;
    assert forall|k: int| 0 <= k < shapes.len() implies (#[trigger] shapes[k]).fill == shade_of(
        alive,
    ) by {
        if n > 0 {
            lemma_div_pos_is_pos(k, n);
            lemma_multiply_divide_lt(k, n, n);
            lemma_mod_bound(k, n);
        }
    }
}

/// After a clear the drawing is all white.
pub proof fn lemma_cleared_grid_white(shapes: Seq<Shape>, v: WorldView, origin: Pixel)
    requires
        is_rendering(shapes, cleared(v), origin),
    ensures
        forall|k: int| 0 <= k < shapes.len() ==> (#[trigger] shapes[k]).fill == Shade::White,
{
    assert(cleared(v).grid.len() == v.grid.len());
    lemma_uniform_grid_one_shade(shapes, cleared(v), origin, false);
}

/// In a drawing, the shape of the cell in row `y`, column `x` of a grid of
/// `n` by `n` cells stands at index `y * n + x`.
pub proof fn lemma_shape_of_cell(shapes: Seq<Shape>, v: WorldView, origin: Pixel, y: int, x: int)
    requires
        is_rendering(shapes, v, origin),
        0 <= y < v.grid.len(),
        0 <= x < v.grid.len(),
    ensures
        0 <= y * v.grid.len() + x < shapes.len(),
        shows(shapes[y * v.grid.len() + x], v, origin, y, x),
{
    let n = v.grid.len() as int;
    let k = y * n + x;
    assert(0 <= y * n && y * n + n <= n * n) by (nonlinear_arith)
        requires
            0 <= y < n,
    ;
    lemma_fundamental_div_mod_converse(k, n, y, x);
}

/// Painting with the pointer makes the cell under the pointer alive and
/// leaves every other cell as it was; a pointer off the grid changes nothing.
pub proof fn lemma_painted_cells(v: WorldView, pointer: Pixel, origin: Pixel, y: int, x: int)
    requires
        is_square(v.grid, v.grid.len()),
        0 <= y < v.grid.len(),
        0 <= x < v.grid.len(),
    ensures
        painted(v, Some(pointer), origin).grid[y][x] == (v.grid[y][x] || pointed_block(
            v,
            pointer,
            origin,
        ) == (x, y)),
        !on_board(v, pointed_block(v, pointer, origin).0, pointed_block(v, pointer, origin).1)
            ==> painted(v, Some(pointer), origin) == v,
        painted(v, None, origin) == v,
{
}

/// What changes only the grid or the clock keeps the derived parameters in
/// step with the stored ones: clearing, a generation, a new moment of the
/// last generation, painting, and putting a cell in a state.
pub proof fn lemma_in_step_kept(
    v: WorldView,
    pointer_pos: Option<Pixel>,
    origin: Pixel,
    y: int,
    x: int,
    alive: bool,
    t: instant::Instant,
)
    requires
        in_step(v),
    ensures
        in_step(cleared(v)),
        in_step(evolved(v)),
        in_step(stamped(v, t)),
        in_step(painted(v, pointer_pos, origin)),
        in_step(with_cell(v, y, x, alive)),
{
}

/// The speed is the number of whole milliseconds in one frame: a thousand
/// divided by the frame rate, rounded down.
pub proof fn lemma_speed_is_frame_time(fps: int)
    requires
        fps >= 1,
    ensures
        speed_for(fps) == 1000int / fps,
{
    lemma_div_denominator(1_000_000_000, fps, 1_000_000);
    lemma_div_denominator(1_000_000_000, 1_000_000, fps);
    assert(fps * 1_000_000 == 1_000_000 * fps);
}

} // verus!
