//! Whole-pixel geometry: screen positions, the translation of the grid, and
//! the rectangles handed to a renderer.

use vstd::prelude::*;
use vstd::arithmetic::div_mod::lemma_fundamental_div_mod;
use vstd::arithmetic::mul::lemma_mul_inequality;

verus! {

/// A position on the screen, in whole pixels.
#[derive(Clone, Copy, Debug, PartialEq, Eq, Structural)]
pub struct Pixel {
    pub x: i32,
    pub y: i32,
}

/// The rectangle of the screen that shows the grid.
#[derive(Clone, Copy, Debug, PartialEq, Eq, Structural)]
pub struct Viewport {
    pub min: Pixel,
    pub max: Pixel,
}

/// How far the view is moved across the grid, in cells.
#[derive(Clone, Copy, Debug, PartialEq, Eq, Structural)]
pub struct Shift {
    pub x: i32,
    pub y: i32,
}

/// A pair of whole numbers: a displacement in pixels, or the column and row
/// of a block, which may lie off the grid.
#[derive(Clone, Copy, Debug, PartialEq, Eq, Structural)]
pub struct Offset {
    pub x: i64,
    pub y: i64,
}

/// The two colours of a cell.
#[derive(Clone, Copy, Debug, PartialEq, Eq, Structural)]
pub enum Shade {
    Black,
    White,
}

/// A filled rectangle for the renderer, from `min` up to `max`.
#[derive(Clone, Copy, Debug, PartialEq, Eq, Structural)]
pub struct Shape {
    pub min: Offset,
    pub max: Offset,
    pub fill: Shade,
}

/// The largest magnitude of a pixel translation: the largest block size
/// times the largest shift.
pub const MAX_TRANSLATION: i64 = 140_735_340_871_680;

/// The pixel translation that a shift of `shift` cells asks for when a cell
/// is `block_size` pixels wide: the view moves against the shift.
pub open spec fn translation(block_size: int, shift: int) -> int {
    -(block_size * shift)
}

/// The block that holds the pixel `pos`, along one axis: the floor of
/// `(pos - pos_shift) / block_size`.
pub open spec fn block_index(pos: int, pos_shift: int, block_size: int) -> int {
    (pos - pos_shift) / block_size
}

/// The colour that shows a cell state.
pub open spec fn shade_of(alive: bool) -> Shade {
    if alive {
        Shade::Black
    } else {
        Shade::White
    }
}

/// Computes [`translation`] for one axis.
pub fn translate(block_size: u16, shift: i32) -> (t: i64)
    ensures
        t == translation(block_size as int, shift as int),
        -MAX_TRANSLATION <= t <= MAX_TRANSLATION,
{
    assert(-140_735_340_871_680 <= block_size * shift <= 140_735_340_871_680)
        by (nonlinear_arith)
        requires
            0 <= block_size <= 65535,
            -2_147_483_648 <= shift <= 2_147_483_647,
    ;
    -(block_size as i64 * shift as i64)
}

/// Division rounding towards negative infinity, by a positive divisor.
pub fn floor_div(a: i64, b: u16) -> (q: i64)
    requires
        b >= 1,
    ensures
        q == a as int / b as int,
        q * b <= a < (q + 1) * b,
{
    proof {
        lemma_floor_bounds(a as int, b as int);
    }
    a.checked_div_euclid(b as i64).unwrap()
}

/// For a positive divisor the quotient lies between the dividend and zero,
/// and it is the floor: `q * b <= a < (q + 1) * b`.
pub proof fn lemma_floor_bounds(a: int, b: int)
    requires
        b >= 1,
    ensures
        (a / b) * b <= a < (a / b + 1) * b,
        a >= 0 ==> 0 <= a / b <= a,
        a < 0 ==> a <= a / b < 0,
{
    lemma_fundamental_div_mod(a, b);
    let q = a / b;
    assert(b * q == q * b) by (nonlinear_arith);
    assert((q + 1) * b == q * b + b) by (nonlinear_arith);
    if a >= 0 {
        if q < 0 {
            lemma_mul_inequality(q, -1, b);
        }
        if q > a {
            lemma_mul_inequality(a + 1, q, b);
            assert((a + 1) * b >= a + 1) by (nonlinear_arith)
                requires
                    b >= 1,
                    a + 1 >= 0,
            ;
        }
    } else {
        if q >= 0 {
            lemma_mul_inequality(0, q, b);
        }
        if q < a {
            lemma_mul_inequality(q + 1, a, b);
            assert(a * b <= a) by (nonlinear_arith)
                requires
                    b >= 1,
                    a < 0,
            ;
        }
    }
}

} // verus!
