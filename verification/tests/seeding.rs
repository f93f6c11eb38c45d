use vaja_1::geometry::{Pixel, Shade, Viewport};
use vaja_1::world::World;

fn fills(world: &World) -> Vec<Shade> {
    let mut shapes = Vec::new();
    let rect = Viewport { min: Pixel { x: 0, y: 0 }, max: Pixel { x: 600, y: 600 } };
    world.gen_shapes(&mut shapes, rect);
    shapes.iter().map(|s| s.fill).collect()
}

#[test]
fn full_threshold_makes_every_cell_alive() {
    let mut world = World::new(8);
    world.set_threshold(100);
    world.rand_generate();
    let shades = fills(&world);
    assert_eq!(shades.len(), 64);
    assert!(shades.iter().all(|&s| s == Shade::Black));
}

#[test]
fn zero_threshold_makes_every_cell_dead() {
    let mut world = World::new(8);
    world.set_threshold(100);
    world.rand_generate();
    world.set_threshold(0);
    world.rand_generate();
    let shades = fills(&world);
    assert_eq!(shades.len(), 64);
    assert!(shades.iter().all(|&s| s == Shade::White));
}

#[test]
fn half_threshold_mixes_the_grid() {
    let mut world = World::new(40);
    world.rand_generate();
    let shades = fills(&world);
    let black = shades.iter().filter(|&&s| s == Shade::Black).count();
    assert_eq!(shades.len(), 1600);
    // 1600 fair draws: each bound is more than ten standard deviations from the mean.
    assert!(black > 500 && black < 1100, "{} of 1600 cells alive", black);
}

#[test]
fn random_generation_keeps_the_parameters() {
    let mut world = World::new(5);
    world.set_fps(120);
    world.set_block_size(3);
    world.set_shift(1, 2);
    world.set_threshold(30);
    world.rand_generate();
    assert_eq!(world.num_of_blocks(), 5);
    assert_eq!(world.fps(), 120);
    assert_eq!(world.speed(), 8);
    assert_eq!(world.block_size(), 3);
    assert_eq!(world.threshold(), 30);
    assert_eq!((world.pos_shift().x, world.pos_shift().y), (-3, -6));
}
