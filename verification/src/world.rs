//! The grid engine: two cell buffers, the simulation parameters, and the
//! operations that a frame driver, a pointer and a renderer call.

use crate::cells::{cell_rows, load, store, zeros, Cells};
use crate::chance::{gen_ratio, thread_rng};
use crate::clock::{as_millis, duration_since, now};
use crate::geometry::{
    block_index, floor_div, shade_of, translate, translation, Offset, Pixel, Shade, Shape, Shift,
    Viewport, MAX_TRANSLATION,
};
use crate::life::{
    byte_alive, is_square, live_neighbours, next_cell, next_generation, next_state,
    state_byte, uniform_grid, Grid,
};
use vstd::arithmetic::div_mod::lemma_fundamental_div_mod_converse;
use vstd::prelude::*;

verus! {

/// What a [`World`] is, apart from its source of randomness.
pub struct WorldView {
    /// The cells, row by row.
    pub grid: Grid,
    /// The width and height of a drawn cell, in pixels.
    pub block_size: u16,
    /// The shift of the view, in cells.
    pub shift: Shift,
    /// The pixel translation derived from `block_size` and `shift`.
    pub pos_shift: Offset,
    /// The target number of generations per second.
    pub fps: i32,
    /// The least number of milliseconds between two generations, derived from `fps`.
    pub speed: u128,
    /// The chance, in percent, that random generation makes a cell alive.
    pub threshold: u32,
    /// The moment of the last generation, or of construction before the first.
    pub last_step: instant::Instant,
}

/// The grid engine. The current buffer holds the cells; the scratch buffer
/// receives the next generation, and the two then change places.
pub struct World {
    data: Cells,
    tmp: Cells,
    block_size: u16,
    pos_shift: Offset,
    shift: Shift,
    fps: i32,
    threshold: u32,
    speed: u128,
    num_of_blocks: usize,
    last_frame_time: instant::Instant,
    rng: rand::rngs::ThreadRng,
}

/// The least number of whole milliseconds between two generations at `fps`
/// generations per second: the period in nanoseconds, cut to milliseconds.
pub open spec fn speed_for(fps: int) -> int {
    (1_000_000_000int / fps) / 1_000_000
}

/// The states that the bytes of a buffer stand for.
spec fn states(rows: Seq<Seq<u8>>) -> Grid {
    Seq::new(rows.len(), |y: int| Seq::new(rows[y].len(), |x: int| byte_alive(rows[y][x])))
}

/// Every byte of the buffer is zero or one.
spec fn binary(rows: Seq<Seq<u8>>) -> bool {
    forall|y: int, x: int|
        0 <= y < rows.len() && 0 <= x < rows[y].len() ==> #[trigger] rows[y][x] <= 1
}

/// The engine with every cell dead and every parameter as it was.
pub open spec fn cleared(v: WorldView) -> WorldView {
    WorldView { grid: uniform_grid(v.grid.len(), false), ..v }
}

/// The engine with the cell in row `y`, column `x` in the state `alive`, and
/// every other cell and every parameter as it was.
pub open spec fn with_cell(v: WorldView, y: int, x: int, alive: bool) -> WorldView {
    WorldView { grid: v.grid.update(y, v.grid[y].update(x, alive)), ..v }
}

/// The block under the pixel `pointer` when the grid is drawn from `origin`.
pub open spec fn pointed_block(v: WorldView, pointer: Pixel, origin: Pixel) -> (int, int) {
    (
        block_index(pointer.x - origin.x, v.pos_shift.x as int, v.block_size as int),
        block_index(pointer.y - origin.y, v.pos_shift.y as int, v.block_size as int),
    )
}

/// The block in column `bx`, row `by` is a cell of the grid.
pub open spec fn on_board(v: WorldView, bx: int, by: int) -> bool {
    0 <= bx < v.grid.len() && 0 <= by < v.grid.len()
}

/// The engine after the pointer has painted at `pointer_pos`: the cell under
/// the pointer is alive, and nothing else has changed. Without a pointer, or
/// with a pointer off the grid, nothing has changed at all.
pub open spec fn painted(v: WorldView, pointer_pos: Option<Pixel>, origin: Pixel) -> WorldView {
    match pointer_pos {
        None => v,
        Some(pointer) => {
            let (bx, by) = pointed_block(v, pointer, origin);
            if on_board(v, bx, by) {
                with_cell(v, by, bx, true)
            } else {
                v
            }
        },
    }
}

/// `shape` is the drawing of the cell in row `y`, column `x`: a square of
/// `block_size` pixels, placed by the cell's position, the origin of the
/// viewport and the translation, black for a live cell and white for a dead one.
pub open spec fn shows(shape: Shape, v: WorldView, origin: Pixel, y: int, x: int) -> bool {
    &&& shape.min.x == origin.x + v.block_size * x + v.pos_shift.x
    &&& shape.min.y == origin.y + v.block_size * y + v.pos_shift.y
    &&& shape.max.x == origin.x + v.block_size * (x + 1) + v.pos_shift.x
    &&& shape.max.y == origin.y + v.block_size * (y + 1) + v.pos_shift.y
    &&& shape.fill == shade_of(v.grid[y][x])
}

/// `shapes` is the drawing of the whole grid: one shape for each cell, row
/// after row, each row from left to right.
pub open spec fn is_rendering(shapes: Seq<Shape>, v: WorldView, origin: Pixel) -> bool {
    let n = v.grid.len() as int;
    &&& shapes.len() == n * n
    &&& forall|k: int| 0 <= k < n * n ==> shows(#[trigger] shapes[k], v, origin, k / n, k % n)
}

/// The engine one generation later: the rule applied to the grid, and every
/// parameter and the moment of the last generation as they were.
pub open spec fn evolved(v: WorldView) -> WorldView {
    WorldView { grid: next_generation(v.grid), ..v }
}

/// The engine with `t` as the moment of the last generation.
pub open spec fn stamped(v: WorldView, t: instant::Instant) -> WorldView {
    WorldView { last_step: t, ..v }
}

/// The derived parameters are in step with the stored ones: the speed is
/// the one for the frame rate, and the pixel translation is the block size
/// times the shift, against the shift.
pub open spec fn in_step(v: WorldView) -> bool {
    &&& v.speed == speed_for(v.fps as int)
    &&& v.pos_shift.x == translation(v.block_size as int, v.shift.x as int)
    &&& v.pos_shift.y == translation(v.block_size as int, v.shift.y as int)
}

impl View for World {
    type V = WorldView;

    closed spec fn view(&self) -> WorldView {
        WorldView {
            grid: states(cell_rows(self.data)),
            block_size: self.block_size,
            shift: self.shift,
            pos_shift: self.pos_shift,
            fps: self.fps,
            speed: self.speed,
            threshold: self.threshold,
            last_step: self.last_frame_time,
        }
    }
}

impl World {
    /// The invariant of the engine: both buffers are squares of the same
    /// fixed size, every cell is zero or one, the stored parameters are in
    /// their ranges, and the translation is in range.
    pub closed spec fn wf(&self) -> bool {
        &&& self.num_of_blocks * self.num_of_blocks <= isize::MAX
        &&& is_square(cell_rows(self.data), self.num_of_blocks as nat)
        &&& is_square(cell_rows(self.tmp), self.num_of_blocks as nat)
        &&& binary(cell_rows(self.data))
        &&& self.block_size >= 1
        &&& 1 <= self.fps <= 360
        &&& self.threshold <= 100
        &&& -MAX_TRANSLATION <= self.pos_shift.x <= MAX_TRANSLATION
        &&& -MAX_TRANSLATION <= self.pos_shift.y <= MAX_TRANSLATION
    }

    /// What the invariant says of the view: the grid is a square, a block is
    /// at least one pixel wide, the frame rate lies between 1 and 360, and
    /// the threshold is at most one hundred percent.
    pub proof fn lemma_well_formed(&self)
        requires
            self.wf(),
        ensures
            is_square(self@.grid, self@.grid.len()),
            self@.block_size >= 1,
            1 <= self@.fps <= 360,
            self@.threshold <= 100,
    {
    }

    /// A grid of `num_of_blocks` by `num_of_blocks` dead cells with the
    /// default parameters: blocks of two pixels, no shift, sixty generations
    /// per second, and a threshold of fifty percent.
    pub fn new(num_of_blocks: usize) -> (world: World)
        requires
            num_of_blocks * num_of_blocks <= isize::MAX,
        ensures
            world.wf(),
            world@ == (WorldView {
                grid: uniform_grid(num_of_blocks as nat, false),
                block_size: 2,
                shift: Shift { x: 0, y: 0 },
                pos_shift: Offset { x: 0, y: 0 },
                fps: 60,
                speed: 16,
                threshold: 50,
                last_step: world@.last_step,
            }),
            in_step(world@),
    {
        let data = zeros(num_of_blocks);
        let tmp = zeros(num_of_blocks);
        let world = World {
            data,
            tmp,
            block_size: 2,
            pos_shift: Offset { x: 0, y: 0 },
            shift: Shift { x: 0, y: 0 },
            fps: 60,
            threshold: 50,
            speed: World::fps_to_speed(60),
            num_of_blocks,
            last_frame_time: now(),
            rng: thread_rng(),
        };
        assert(world@.grid =~~= uniform_grid(num_of_blocks as nat, false));
        world
    }

    /// The least number of whole milliseconds between two generations at
    /// `fps` generations per second.
    pub fn fps_to_speed(fps: i32) -> (speed: u128)
        requires
            1 <= fps <= 360,
        ensures
            speed == speed_for(fps as int),
    {
        let nanos: u32 = 1_000_000_000u32 / (fps as u32);
        (nanos / 1_000_000) as u128
    }

    /// The number of rows, which is the number of columns.
    pub fn num_of_blocks(&self) -> (n: usize)
        requires
            self.wf(),
        ensures
            n == self@.grid.len(),
    {
        self.num_of_blocks
    }

    /// The width and height of a drawn cell, in pixels.
    pub fn block_size(&self) -> (size: u16)
        ensures
            size == self@.block_size,
    {
        self.block_size
    }

    /// The shift of the view, in cells.
    pub fn shift(&self) -> (shift: Shift)
        ensures
            shift == self@.shift,
    {
        self.shift
    }

    /// The target number of generations per second.
    pub fn fps(&self) -> (fps: i32)
        ensures
            fps == self@.fps,
    {
        self.fps
    }

    /// The chance, in percent, that random generation makes a cell alive.
    pub fn threshold(&self) -> (percent: u32)
        ensures
            percent == self@.threshold,
    {
        self.threshold
    }

    /// The least number of milliseconds between two generations.
    pub fn speed(&self) -> (ms: u128)
        ensures
            ms == self@.speed,
    {
        self.speed
    }

    /// The pixel translation of the grid.
    pub fn pos_shift(&self) -> (t: Offset)
        ensures
            t == self@.pos_shift,
    {
        self.pos_shift
    }

    /// Whether the cell in row `y`, column `x` is alive.
    pub fn is_alive(&self, y: usize, x: usize) -> (alive: bool)
        requires
            self.wf(),
            y < self@.grid.len(),
            x < self@.grid.len(),
        ensures
            alive == self@.grid[y as int][x as int],
    {
        load(&self.data, y, x) == 1
    }

    /// The number of live cells among the up to eight neighbours of the cell
    /// in row `y`, column `x`. Positions beyond an edge are skipped.
    fn count_neighbours(&self, y: usize, x: usize) -> (sum: u8)
        requires
            self.wf(),
            y < self@.grid.len(),
            x < self@.grid.len(),
        ensures
            sum == live_neighbours(self@.grid, y as int, x as int),
    {
        let n = self.num_of_blocks;
        let up = y > 0;
        let down = y + 1 < n;
        let left = x > 0;
        let right = x + 1 < n;
        let mut sum: u8 = 0;
        if up && left && self.is_alive(y - 1, x - 1) {
            sum += 1;
        }
        if up && self.is_alive(y - 1, x) {
            sum += 1;
        }
        if up && right && self.is_alive(y - 1, x + 1) {
            sum += 1;
        }
        if down && left && self.is_alive(y + 1, x - 1) {
            sum += 1;
        }
        if down && self.is_alive(y + 1, x) {
            sum += 1;
        }
        if down && right && self.is_alive(y + 1, x + 1) {
            sum += 1;
        }
        if left && self.is_alive(y, x - 1) {
            sum += 1;
        }
        if right && self.is_alive(y, x + 1) {
            sum += 1;
        }
        sum
    }

    /// Advances the grid by exactly one generation, whatever the clock says.
    /// The next generation is written to the scratch buffer, and the two
    /// buffers then change places.
    pub fn advance(&mut self)
        requires
            old(self).wf(),
        ensures
            final(self).wf(),
            final(self)@ == evolved(old(self)@),
    {
        let n = self.num_of_blocks;
        let ghost grid = self@.grid;
        let mut y: usize = 0;
        while y < n
            invariant
                y <= n,
                n == self.num_of_blocks,
                self.wf(),
                *self == (World { tmp: self.tmp, ..*old(self) }),
                grid == self@.grid,
                forall|i: int, j: int|
                    0 <= i < y && 0 <= j < n ==> #[trigger] cell_rows(self.tmp)[i][j]
                        == state_byte(next_state(grid[i][j], live_neighbours(grid, i, j))),
            decreases n - y,
        {
            let mut x: usize = 0;
            while x < n
                invariant
                    y < n,
                    x <= n,
                    n == self.num_of_blocks,
                    self.wf(),
                    *self == (World { tmp: self.tmp, ..*old(self) }),
                    grid == self@.grid,
                    forall|i: int, j: int|
                        0 <= i < y && 0 <= j < n ==> #[trigger] cell_rows(self.tmp)[i][j]
                            == state_byte(next_state(grid[i][j], live_neighbours(grid, i, j))),
                    forall|j: int|
                        0 <= j < x ==> #[trigger] cell_rows(self.tmp)[y as int][j] == state_byte(
                            next_state(grid[y as int][j], live_neighbours(grid, y as int, j)),
                        ),
                decreases n - x,
            {
                let sum = self.count_neighbours(y, x);
                let next = next_cell(load(&self.data, y, x), sum);
                store(&mut self.tmp, y, x, next);
                x += 1;
            }
            y += 1;
        }
        std::mem::swap(&mut self.data, &mut self.tmp);
        assert(self@.grid =~~= next_generation(grid));
    }

    /// Advances the grid by one generation if `elapsed_ms`, the time since
    /// the last generation, has reached the stored speed, and then takes the
    /// present moment as the time of the last generation. Before that the
    /// call changes nothing.
    pub fn update_after(&mut self, elapsed_ms: u128) -> (stepped: bool)
        requires
            old(self).wf(),
        ensures
            final(self).wf(),
            stepped == (elapsed_ms >= old(self)@.speed),
            !stepped ==> final(self)@ == old(self)@,
            stepped ==> final(self)@ == stamped(evolved(old(self)@), final(self)@.last_step),
    {
        if elapsed_ms < self.speed {
            return false;
        }
        self.last_frame_time = now();
        self.advance();
        true
    }

    /// Reads the clock and advances the grid by one generation if the time
    /// since the last generation has reached the stored speed. A frame
    /// driver may call this on every frame: calls that come too early change
    /// nothing.
    pub fn update(&mut self)
        requires
            old(self).wf(),
        ensures
            final(self).wf(),
            exists|elapsed_ms: u128|
                final(self)@ == #[trigger] stepped_after(
                    old(self)@,
                    elapsed_ms,
                    final(self)@.last_step,
                ),
            final(self)@ == old(self)@ || final(self)@ == stamped(
                evolved(old(self)@),
                final(self)@.last_step,
            ),
    {
        let t = now();
        let since = duration_since(&t, &self.last_frame_time);
        let elapsed = as_millis(&since);
        self.update_after(elapsed);
        assert(self@ == stepped_after(old(self)@, elapsed, self@.last_step));
    }

    /// The drawing of the cell in row `y`, column `x`.
    fn cell_shape(&self, origin: Pixel, y: usize, x: usize) -> (shape: Shape)
        requires
            self.wf(),
            y < self@.grid.len(),
            x < self@.grid.len(),
        ensures
            shows(shape, self@, origin, y as int, x as int),
    {
        let side = self.block_size as i64;
        proof {
            let n = self.num_of_blocks;
            assert(n < 0x1_0000_0000) by (nonlinear_arith)
                requires
                    n * n <= isize::MAX,
                    isize::MAX < 0x8000_0000_0000_0000,
            ;
            assert(0 <= side * x && side * (x + 1) <= 0x1_0000_0000_0000) by (nonlinear_arith)
                requires
                    0 <= side <= 0xffff,
                    0 <= x < 0x1_0000_0000,
            ;
            assert(0 <= side * y && side * (y + 1) <= 0x1_0000_0000_0000) by (nonlinear_arith)
                requires
                    0 <= side <= 0xffff,
                    0 <= y < 0x1_0000_0000,
            ;
            assert(side * (x + 1) == side * x + side) by (nonlinear_arith);
            assert(side * (y + 1) == side * y + side) by (nonlinear_arith);
        }
        let left = origin.x as i64 + side * (x as i64) + self.pos_shift.x;
        let top = origin.y as i64 + side * (y as i64) + self.pos_shift.y;
        let fill = if load(&self.data, y, x) == 1 {
            Shade::Black
        } else {
            Shade::White
        };
        Shape {
            min: Offset { x: left, y: top },
            max: Offset { x: left + side, y: top + side },
            fill,
        }
    }

    /// Appends the drawing of the grid to `shapes`: one filled square for
    /// each cell, row after row, placed from the upper left corner of `rect`.
    pub fn gen_shapes(&self, shapes: &mut Vec<Shape>, rect: Viewport)
        requires
            self.wf(),
        ensures
            old(shapes)@.is_prefix_of(final(shapes)@),
            is_rendering(final(shapes)@.skip(old(shapes)@.len() as int), self@, rect.min),
    {
        let n = self.num_of_blocks;
        let ghost before = shapes@;
        let ghost count: int = 0;
        let mut y: usize = 0;
        while y < n
            invariant
                y <= n,
                n == self.num_of_blocks,
                self.wf(),
                count == y * n,
                shapes@.len() == before.len() + count,
                forall|j: int| 0 <= j < before.len() ==> shapes@[j] == before[j],
                forall|k: int|
                    0 <= k < count ==> shows(
                        #[trigger] shapes@[before.len() + k],
                        self@,
                        rect.min,
                        k / (n as int),
                        k % (n as int),
                    ),
            decreases n - y,
        {
            let mut x: usize = 0;
            while x < n
                invariant
                    y < n,
                    x <= n,
                    n == self.num_of_blocks,
                    self.wf(),
                    count == y * n + x,
                    shapes@.len() == before.len() + count,
                    forall|j: int| 0 <= j < before.len() ==> shapes@[j] == before[j],
                    forall|k: int|
                        0 <= k < count ==> shows(
                            #[trigger] shapes@[before.len() + k],
                            self@,
                            rect.min,
                            k / (n as int),
                            k % (n as int),
                        ),
                decreases n - x,
            {
                let shape = self.cell_shape(rect.min, y, x);
                proof {
                    lemma_fundamental_div_mod_converse(count, n as int, y as int, x as int);
                }
                shapes.push(shape);
                proof {
                    count = count + 1;
                }
                x += 1;
            }
            proof {
                assert((y + 1) * n == y * n + n) by (nonlinear_arith);
            }
            y += 1;
        }
        proof {
            let drawn = shapes@.skip(before.len() as int);
            assert forall|k: int| 0 <= k < n * n implies shows(
                #[trigger] drawn[k],
                self@,
                rect.min,
                k / (n as int),
                k % (n as int),
            ) by {
                assert(drawn[k] == shapes@[before.len() + k]);
            }
        }
    }

    /// Whether `block` names a cell of the grid: its column and its row both
    /// lie in `[0, n)` for a grid of `n` by `n` cells.
    pub fn bounds_valid(&self, block: Offset) -> (valid: bool)
        requires
            self.wf(),
        ensures
            valid == on_board(self@, block.x as int, block.y as int),
    {
        let n = self.num_of_blocks as u64;
        block.x >= 0 && (block.x as u64) < n && block.y >= 0 && (block.y as u64) < n
    }

    /// The block that holds the point `pos`, which is given relative to the
    /// upper left corner of the viewport.
    fn get_block_pos(&self, pos: Offset) -> (block: Offset)
        requires
            self.wf(),
            -0x1_0000_0000 <= pos.x <= 0x1_0000_0000,
            -0x1_0000_0000 <= pos.y <= 0x1_0000_0000,
        ensures
            block.x == block_index(pos.x as int, self@.pos_shift.x as int, self@.block_size as int),
            block.y == block_index(pos.y as int, self@.pos_shift.y as int, self@.block_size as int),
    {
        Offset {
            x: floor_div(pos.x - self.pos_shift.x, self.block_size),
            y: floor_div(pos.y - self.pos_shift.y, self.block_size),
        }
    }

    /// Paints with the pointer: the cell under `pointer_pos` becomes alive.
    /// The position is taken relative to the upper left corner of
    /// `clip_rect`. A pointer off the grid, or no pointer, changes nothing;
    /// painting never makes a cell dead.
    pub fn transform_cell(&mut self, pointer_pos: Option<Pixel>, clip_rect: Viewport)
        requires
            old(self).wf(),
        ensures
            final(self).wf(),
            final(self)@ == painted(old(self)@, pointer_pos, clip_rect.min),
    {
        if let Some(pos) = pointer_pos {
            let relative = Offset {
                x: pos.x as i64 - clip_rect.min.x as i64,
                y: pos.y as i64 - clip_rect.min.y as i64,
            };
            let block = self.get_block_pos(relative);
            if self.bounds_valid(block) {
                store(&mut self.data, block.y as usize, block.x as usize, 1u8);
                assert(self@.grid =~~= with_cell(
                    old(self)@,
                    block.y as int,
                    block.x as int,
                    true,
                ).grid);
            }
        }
    }

    /// Puts the cell in row `y`, column `x` in the state `alive`.
    pub fn set_cell(&mut self, y: usize, x: usize, alive: bool)
        requires
            old(self).wf(),
            y < old(self)@.grid.len(),
            x < old(self)@.grid.len(),
        ensures
            final(self).wf(),
            final(self)@ == with_cell(old(self)@, y as int, x as int, alive),
    {
        let cell: u8 = if alive {
            1
        } else {
            0
        };
        store(&mut self.data, y, x, cell);
        assert(self@.grid =~~= with_cell(old(self)@, y as int, x as int, alive).grid);
    }

    /// Makes every cell dead. The parameters stay as they are.
    pub fn clear(&mut self)
        requires
            old(self).wf(),
        ensures
            final(self).wf(),
            final(self)@ == cleared(old(self)@),
    {
        let n = self.num_of_blocks;
        let mut y: usize = 0;
        while y < n
            invariant
                y <= n,
                n == self.num_of_blocks,
                self.wf(),
                *self == (World { data: self.data, ..*old(self) }),
                forall|i: int, j: int|
                    0 <= i < y && 0 <= j < n ==> #[trigger] cell_rows(self.data)[i][j] == 0,
            decreases n - y,
        {
            let mut x: usize = 0;
            while x < n
                invariant
                    y < n,
                    x <= n,
                    n == self.num_of_blocks,
                    self.wf(),
                    *self == (World { data: self.data, ..*old(self) }),
                    forall|i: int, j: int|
                        0 <= i < y && 0 <= j < n ==> #[trigger] cell_rows(self.data)[i][j] == 0,
                    forall|j: int| 0 <= j < x ==> #[trigger] cell_rows(self.data)[y as int][j] == 0,
                decreases n - x,
            {
                store(&mut self.data, y, x, 0u8);
                x += 1;
            }
            y += 1;
        }
        assert(self@.grid =~~= uniform_grid(n as nat, false));
    }

    /// Makes every cell alive with a chance of `threshold` percent and dead
    /// otherwise, each cell by a draw of its own. At a threshold of one
    /// hundred every cell is alive afterwards, at a threshold of zero every
    /// cell is dead; in between any grid may come out.
    pub fn rand_generate(&mut self)
        requires
            old(self).wf(),
        ensures
            final(self).wf(),
            final(self)@ == (WorldView { grid: final(self)@.grid, ..old(self)@ }),
            is_square(final(self)@.grid, old(self)@.grid.len()),
            old(self)@.threshold == 100 ==> final(self)@.grid == uniform_grid(
                old(self)@.grid.len(),
                true,
            ),
            old(self)@.threshold == 0 ==> final(self)@.grid == uniform_grid(
                old(self)@.grid.len(),
                false,
            ),
    {
        let n = self.num_of_blocks;
        let percent = self.threshold;
        let mut y: usize = 0;
        while y < n
            invariant
                y <= n,
                percent <= 100,
                self.wf(),
                is_square(self@.grid, n as nat),
                self@ == (WorldView { grid: self@.grid, ..old(self)@ }),
                percent == old(self)@.threshold,
                forall|i: int, j: int|
                    0 <= i < y && 0 <= j < n ==> {
                        &&& percent == 100 ==> #[trigger] self@.grid[i][j]
                        &&& percent == 0 ==> !self@.grid[i][j]
                    },
            decreases n - y,
        {
            let mut x: usize = 0;
            while x < n
                invariant
                    y < n,
                    x <= n,
                    percent <= 100,
                    self.wf(),
                    is_square(self@.grid, n as nat),
                    self@ == (WorldView { grid: self@.grid, ..old(self)@ }),
                    percent == old(self)@.threshold,
                    forall|i: int, j: int|
                        0 <= i < y && 0 <= j < n ==> {
                            &&& percent == 100 ==> #[trigger] self@.grid[i][j]
                            &&& percent == 0 ==> !self@.grid[i][j]
                        },
                    forall|j: int|
                        0 <= j < x ==> {
                            &&& percent == 100 ==> #[trigger] self@.grid[y as int][j]
                            &&& percent == 0 ==> !self@.grid[y as int][j]
                        },
                decreases n - x,
            {
                let alive = gen_ratio(&mut self.rng, percent, 100);
                self.set_cell(y, x, alive);
                x += 1;
            }
            y += 1;
        }
        proof {
            if percent == 100 {
                assert(self@.grid =~~= uniform_grid(n as nat, true));
            }
            if percent == 0 {
                assert(self@.grid =~~= uniform_grid(n as nat, false));
            }
        }
    }

    /// Derives the speed again from the stored frame rate.
    pub fn update_speed(&mut self)
        requires
            old(self).wf(),
        ensures
            final(self).wf(),
            final(self)@.speed == speed_for(old(self)@.fps as int),
            final(self)@ == (WorldView { speed: final(self)@.speed, ..old(self)@ }),
            in_step(old(self)@) ==> in_step(final(self)@),
    {
        self.speed = World::fps_to_speed(self.fps);
    }

    /// Derives the pixel translation again: the stored block size times the
    /// stored shift, against the direction of the shift.
    pub fn update_pos(&mut self)
        requires
            old(self).wf(),
        ensures
            final(self).wf(),
            final(self)@.pos_shift.x == translation(
                old(self)@.block_size as int,
                old(self)@.shift.x as int,
            ),
            final(self)@.pos_shift.y == translation(
                old(self)@.block_size as int,
                old(self)@.shift.y as int,
            ),
            final(self)@ == (WorldView { pos_shift: final(self)@.pos_shift, ..old(self)@ }),
            in_step(old(self)@) ==> in_step(final(self)@),
    {
        self.pos_shift.x = translate(self.block_size, self.shift.x);
        self.pos_shift.y = translate(self.block_size, self.shift.y);
    }

    /// Stores the target frame rate and derives the speed from it.
    pub fn set_fps(&mut self, fps: i32)
        requires
            old(self).wf(),
            1 <= fps <= 360,
        ensures
            final(self).wf(),
            final(self)@ == (WorldView { fps, speed: final(self)@.speed, ..old(self)@ }),
            final(self)@.speed == speed_for(fps as int),
            in_step(old(self)@) ==> in_step(final(self)@),
    {
        self.fps = fps;
        self.update_speed();
    }

    /// Stores the block size and derives the pixel translation again; the
    /// shift stays as it is.
    pub fn set_block_size(&mut self, size: u16)
        requires
            old(self).wf(),
            size >= 1,
        ensures
            final(self).wf(),
            final(self)@ == (WorldView {
                block_size: size,
                pos_shift: final(self)@.pos_shift,
                ..old(self)@
            }),
            final(self)@.pos_shift.x == translation(size as int, old(self)@.shift.x as int),
            final(self)@.pos_shift.y == translation(size as int, old(self)@.shift.y as int),
            in_step(old(self)@) ==> in_step(final(self)@),
    {
        self.block_size = size;
        self.update_pos();
    }

    /// Stores the shift and derives the pixel translation again; the block
    /// size stays as it is.
    pub fn set_shift(&mut self, dx: i32, dy: i32)
        requires
            old(self).wf(),
        ensures
            final(self).wf(),
            final(self)@ == (WorldView {
                shift: Shift { x: dx, y: dy },
                pos_shift: final(self)@.pos_shift,
                ..old(self)@
            }),
            final(self)@.pos_shift.x == translation(old(self)@.block_size as int, dx as int),
            final(self)@.pos_shift.y == translation(old(self)@.block_size as int, dy as int),
            in_step(old(self)@) ==> in_step(final(self)@),
    {
        self.shift = Shift { x: dx, y: dy };
        self.update_pos();
    }

    /// Stores the chance, in percent, that random generation makes a cell alive.
    pub fn set_threshold(&mut self, percent: u32)
        requires
            old(self).wf(),
            percent <= 100,
        ensures
            final(self).wf(),
            final(self)@ == (WorldView { threshold: percent, ..old(self)@ }),
    {
        self.threshold = percent;
    }
}

/// The engine after a call that found `elapsed_ms` milliseconds on the
/// clock since the last generation: one generation later, with `t` as the
/// moment of that generation, when the time has reached the speed, and as
/// it was when the call came too early. At a speed of zero no call is too
/// early.
pub open spec fn stepped_after(v: WorldView, elapsed_ms: u128, t: instant::Instant) -> WorldView {
    if elapsed_ms >= v.speed {
        stamped(evolved(v), t)
    } else {
        v
    }
}

} // verus!
