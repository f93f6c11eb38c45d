//! The generation rule, stated over a mathematical grid of booleans.

use vstd::prelude::*;

verus! {

/// Rows of cells: `g[y][x]` is true when the cell in row `y`, column `x` is alive.
pub type Grid = Seq<Seq<bool>>;

/// `g` has `n` rows of `n` cells each.
pub open spec fn is_square<T>(g: Seq<Seq<T>>, n: nat) -> bool {
    &&& g.len() == n
    &&& forall|y: int| 0 <= y < n ==> (#[trigger] g[y]).len() == n
}

/// The `n` by `n` grid in which every cell has the state `alive`.
pub open spec fn uniform_grid(n: nat, alive: bool) -> Grid {
    Seq::new(n, |y: int| Seq::new(n, |x: int| alive))
}

/// The position `(y, x)` lies on the grid and its cell is alive. Positions
/// off the grid are never alive: the grid does not wrap around.
pub open spec fn alive_at(g: Grid, y: int, x: int) -> bool {
    0 <= y < g.len() && 0 <= x < g[y].len() && g[y][x]
}

/// One if the position holds a live cell, zero otherwise.
pub open spec fn live(g: Grid, y: int, x: int) -> nat {
    if alive_at(g, y, x) {
        1
    } else {
        0
    }
}

/// The number of live cells among the eight positions adjacent to `(y, x)`.
pub open spec fn live_neighbours(g: Grid, y: int, x: int) -> nat {
    live(g, y - 1, x - 1) + live(g, y - 1, x) + live(g, y - 1, x + 1)
        + live(g, y + 1, x - 1) + live(g, y + 1, x) + live(g, y + 1, x + 1)
        + live(g, y, x - 1) + live(g, y, x + 1)
}

/// The rule: a live cell stays alive with two or three live neighbours, a
/// dead cell comes alive with exactly three, and every other cell is dead.
pub open spec fn next_state(alive: bool, neighbours: nat) -> bool {
    if alive {
        neighbours == 2 || neighbours == 3
    } else {
        neighbours == 3
    }
}

/// The grid one generation after `g`: the rule applied to every cell at once.
pub open spec fn next_generation(g: Grid) -> Grid {
    Seq::new(
        g.len(),
        |y: int| Seq::new(g[y].len(), |x: int| next_state(g[y][x], live_neighbours(g, y, x))),
    )
}

/// One if `(y, x)` lies on an `n` by `n` grid, zero otherwise.
pub open spec fn on_grid(n: nat, y: int, x: int) -> nat {
    if 0 <= y < n && 0 <= x < n {
        1
    } else {
        0
    }
}

/// The number of positions adjacent to `(y, x)` that lie on an `n` by `n` grid.
pub open spec fn neighbour_positions(n: nat, y: int, x: int) -> nat {
    on_grid(n, y - 1, x - 1) + on_grid(n, y - 1, x) + on_grid(n, y - 1, x + 1)
        + on_grid(n, y + 1, x - 1) + on_grid(n, y + 1, x) + on_grid(n, y + 1, x + 1)
        + on_grid(n, y, x - 1) + on_grid(n, y, x + 1)
}

/// A cell byte is alive when it is one.
pub open spec fn byte_alive(cell: u8) -> bool {
    cell == 1
}

/// The byte that stores a cell state.
pub open spec fn state_byte(alive: bool) -> u8 {
    if alive {
        1
    } else {
        0
    }
}

/// Applies the rule to one cell, given its byte and its count of live neighbours.
pub fn next_cell(cell: u8, neighbours: u8) -> (next: u8)
    requires
        cell <= 1,
    ensures
        next == state_byte(next_state(byte_alive(cell), neighbours as nat)),
{
    match (cell, neighbours) {
        (1, 2) | (1, 3) => 1,
        (0, 3) => 1,
        _ => 0,
    }
}

/// Birth: a dead cell with exactly three live neighbours is alive in the next generation.
pub proof fn lemma_birth(g: Grid, y: int, x: int)
    requires
        0 <= y < g.len(),
        0 <= x < g[y].len(),
        !g[y][x],
        live_neighbours(g, y, x) == 3,
    ensures
        next_generation(g)[y][x],
{
}

/// Survival: a live cell with two or three live neighbours stays alive.
pub proof fn lemma_survival(g: Grid, y: int, x: int)
    requires
        0 <= y < g.len(),
        0 <= x < g[y].len(),
        g[y][x],
        live_neighbours(g, y, x) == 2 || live_neighbours(g, y, x) == 3,
    ensures
        next_generation(g)[y][x],
{
}

/// Death: a live cell with fewer than two or more than three live neighbours
/// is dead in the next generation.
pub proof fn lemma_death(g: Grid, y: int, x: int)
    requires
        0 <= y < g.len(),
        0 <= x < g[y].len(),
        g[y][x],
        live_neighbours(g, y, x) < 2 || live_neighbours(g, y, x) > 3,
    ensures
        !next_generation(g)[y][x],
{
}

/// A dead cell stays dead unless it has exactly three live neighbours.
pub proof fn lemma_stays_dead(g: Grid, y: int, x: int)
    requires
        0 <= y < g.len(),
        0 <= x < g[y].len(),
        !g[y][x],
        live_neighbours(g, y, x) != 3,
    ensures
        !next_generation(g)[y][x],
{
}

/// The next generation has the shape of the grid it came from.
pub proof fn lemma_next_generation_square(g: Grid, n: nat)
    requires
        is_square(g, n),
    ensures
        is_square(next_generation(g), n),
{
}

/// Positions off the grid are never counted: the live neighbours of a cell
/// are at most the adjacent positions that lie on the grid, and exactly
/// those when every cell of the grid is alive.
pub proof fn lemma_neighbours_stay_on_grid(g: Grid, n: nat, y: int, x: int)
    requires
        is_square(g, n),
    ensures
        live_neighbours(g, y, x) <= neighbour_positions(n, y, x),
        g == uniform_grid(n, true) ==> live_neighbours(g, y, x) == neighbour_positions(n, y, x),
{
}

/// A corner cell has three adjacent positions on the grid, a cell elsewhere
/// on the border five, an inner cell eight; a grid of one cell has none.
pub proof fn lemma_neighbour_positions(n: nat, y: int, x: int)
    requires
        0 <= y < n,
        0 <= x < n,
    ensures
        n == 1 ==> neighbour_positions(n, y, x) == 0,
        n >= 2 && (y == 0 || y == n - 1) && (x == 0 || x == n - 1) ==> neighbour_positions(
            n,
            y,
            x,
        ) == 3,
        n >= 3 && ((y == 0 || y == n - 1) != (x == 0 || x == n - 1)) ==> neighbour_positions(
            n,
            y,
            x,
        ) == 5,
        0 < y < n - 1 && 0 < x < n - 1 ==> neighbour_positions(n, y, x) == 8,
{
}

} // verus!
