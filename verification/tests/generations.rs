use vaja_1::geometry::{Pixel, Viewport};
use vaja_1::life::next_cell;
use vaja_1::world::World;

fn world_from(rows: &[&str]) -> World {
    let mut world = World::new(rows.len());
    for (y, row) in rows.iter().enumerate() {
        for (x, c) in row.chars().enumerate() {
            world.set_cell(y, x, c == '#');
        }
    }
    world
}

fn picture(world: &World) -> Vec<String> {
    let n = world.num_of_blocks();
    let mut rows = Vec::new();
    for y in 0..n {
        let mut row = String::new();
        for x in 0..n {
            row.push(if world.is_alive(y, x) { '#' } else { '.' });
        }
        rows.push(row);
    }
    rows
}

#[test]
fn new_world_is_dead_with_default_parameters() {
    let world = World::new(3);
    assert_eq!(picture(&world), vec!["...", "...", "..."]);
    assert_eq!(world.num_of_blocks(), 3);
    assert_eq!(world.block_size(), 2);
    assert_eq!(world.fps(), 60);
    assert_eq!(world.threshold(), 50);
    assert_eq!(world.speed(), 16);
    assert_eq!((world.shift().x, world.shift().y), (0, 0));
    assert_eq!((world.pos_shift().x, world.pos_shift().y), (0, 0));
}

#[test]
fn set_cell_changes_one_cell() {
    let mut world = World::new(3);
    world.set_cell(1, 2, true);
    assert_eq!(picture(&world), vec!["...", "..#", "..."]);
    world.set_cell(0, 0, true);
    world.set_cell(1, 2, false);
    assert_eq!(picture(&world), vec!["#..", "...", "..."]);
}

#[test]
fn dead_centre_with_three_neighbours_is_born() {
    let mut world = world_from(&["#.#", "...", ".#."]);
    world.advance();
    assert!(world.is_alive(1, 1));
    assert_eq!(picture(&world), vec!["...", ".#.", "..."]);
}

#[test]
fn dead_centre_with_two_or_four_neighbours_stays_dead() {
    let mut two = world_from(&["#..", "...", "..#"]);
    two.advance();
    assert!(!two.is_alive(1, 1));
    let mut four = world_from(&["#.#", "...", "#.#"]);
    four.advance();
    assert!(!four.is_alive(1, 1));
}

#[test]
fn live_cell_without_neighbours_dies() {
    let mut world = world_from(&["...", ".#.", "..."]);
    world.advance();
    assert_eq!(picture(&world), vec!["...", "...", "..."]);
}

#[test]
fn live_cell_with_one_neighbour_dies() {
    let mut world = world_from(&["#..", ".#.", "..."]);
    world.advance();
    assert!(!world.is_alive(1, 1));
    assert_eq!(picture(&world), vec!["...", "...", "..."]);
}

#[test]
fn live_cell_with_two_neighbours_survives() {
    let mut world = world_from(&["#..", ".#.", "..#"]);
    world.advance();
    assert_eq!(picture(&world), vec!["...", ".#.", "..."]);
}

#[test]
fn live_cell_with_three_neighbours_survives() {
    let mut world = world_from(&["#.#", ".#.", "..#"]);
    world.advance();
    assert!(world.is_alive(1, 1));
}

#[test]
fn live_cell_with_four_or_more_neighbours_dies() {
    let mut four = world_from(&["#.#", ".#.", "#.#"]);
    four.advance();
    assert!(!four.is_alive(1, 1));
    assert_eq!(picture(&four), vec![".#.", "#.#", ".#."]);
    let mut eight = world_from(&["###", "###", "###"]);
    eight.advance();
    assert_eq!(picture(&eight), vec!["#.#", "...", "#.#"]);
}

#[test]
fn two_by_two_block_is_stable() {
    let mut world = world_from(&["##", "##"]);
    world.advance();
    assert_eq!(picture(&world), vec!["##", "##"]);
    world.advance();
    assert_eq!(picture(&world), vec!["##", "##"]);
}

#[test]
fn edges_do_not_wrap_around() {
    // A full top row and a full bottom row: on a torus every cell of the
    // middle row would see six live neighbours and every cell of the outer
    // rows five; on the bounded grid the middle row sees four and six.
    let mut world = world_from(&["####", "....", "....", "####"]);
    world.advance();
    assert_eq!(picture(&world), vec![".##.", ".##.", ".##.", ".##."]);
    // A lone row at the left edge has no partner on the right edge.
    let mut column = world_from(&["#...", "#...", "#...", "...."]);
    column.advance();
    assert_eq!(picture(&column), vec!["....", "##..", "....", "...."]);
}

#[test]
fn blinker_oscillates() {
    let mut world = world_from(&[".....", "..#..", "..#..", "..#..", "....."]);
    world.advance();
    assert_eq!(picture(&world), vec![".....", ".....", ".###.", ".....", "....."]);
    world.advance();
    assert_eq!(picture(&world), vec![".....", "..#..", "..#..", "..#..", "....."]);
}

#[test]
fn empty_grid_steps_without_cells() {
    let mut world = World::new(0);
    world.advance();
    assert_eq!(world.num_of_blocks(), 0);
    assert!(world.update_after(1000));
    world.clear();
    world.rand_generate();
    let mut shapes = Vec::new();
    world.gen_shapes(
        &mut shapes,
        Viewport { min: Pixel { x: 0, y: 0 }, max: Pixel { x: 0, y: 0 } },
    );
    assert!(shapes.is_empty());
}

#[test]
fn single_cell_has_no_neighbours() {
    let mut world = world_from(&["#"]);
    world.advance();
    assert_eq!(picture(&world), vec!["."]);
    world.advance();
    assert_eq!(picture(&world), vec!["."]);
}

#[test]
fn next_cell_follows_the_rule() {
    for n in 0u8..=8 {
        assert_eq!(next_cell(1, n), if n == 2 || n == 3 { 1 } else { 0 });
        assert_eq!(next_cell(0, n), if n == 3 { 1 } else { 0 });
    }
}

#[test]
fn clear_kills_every_cell_and_keeps_parameters() {
    let mut world = world_from(&["#.#", ".#.", "#.#"]);
    world.set_fps(30);
    world.set_block_size(7);
    world.set_shift(3, 4);
    world.set_threshold(20);
    world.clear();
    assert_eq!(picture(&world), vec!["...", "...", "..."]);
    assert_eq!(world.fps(), 30);
    assert_eq!(world.speed(), 33);
    assert_eq!(world.block_size(), 7);
    assert_eq!((world.shift().x, world.shift().y), (3, 4));
    assert_eq!((world.pos_shift().x, world.pos_shift().y), (-21, -28));
    assert_eq!(world.threshold(), 20);
}

#[test]
fn clear_twice_is_clear_once() {
    let mut once = world_from(&["##.", ".#.", "..#"]);
    let mut twice = world_from(&["##.", ".#.", "..#"]);
    once.clear();
    twice.clear();
    twice.clear();
    assert_eq!(picture(&once), picture(&twice));
    assert_eq!(picture(&twice), vec!["...", "...", "..."]);
    assert_eq!(once.speed(), twice.speed());
    assert_eq!(once.pos_shift(), twice.pos_shift());
}

#[test]
fn glider_travels_across_a_large_grid() {
    let mut world = World::new(400);
    for &(y, x) in &[(0, 1), (1, 2), (2, 0), (2, 1), (2, 2)] {
        world.set_cell(y, x, true);
    }
    for _ in 0..4 {
        world.advance();
    }
    let mut live = Vec::new();
    for y in 0..8 {
        for x in 0..8 {
            if world.is_alive(y, x) {
                live.push((y, x));
            }
        }
    }
    // After four generations the glider has moved one cell down and one to the right.
    assert_eq!(live, vec![(1, 2), (2, 3), (3, 1), (3, 2), (3, 3)]);
    let mut shapes = Vec::new();
    world.gen_shapes(
        &mut shapes,
        Viewport { min: Pixel { x: 0, y: 0 }, max: Pixel { x: 800, y: 800 } },
    );
    assert_eq!(shapes.len(), 160_000);
}
