//! The renderer for start coordinates of any size.

use crate::big::{big_add_u32, big_eq, big_from_i32, big_gcd, big_value};
use crate::field::{
    axis_cell_color, black, cell_color, cell_color_symmetric, field_prefix, field_prefix_push,
    field_shape, gcd_field, white, OPAQUE,
};
use crate::gcd::gcd;
use crate::Rgb;
use num::BigUint;
use vstd::prelude::*;

verus! {

/// What `gcd_cell` returns.
pub open spec fn gcd_cell_spec(a: &BigUint, b: &BigUint) -> Rgb {
    cell_color(big_value(*a), big_value(*b))
}

/// The colour of the cell at `(a, b)`: black where the two are coprime, white
/// elsewhere.
#[verifier::when_used_as_spec(gcd_cell_spec)]
pub fn gcd_cell(a: &BigUint, b: &BigUint) -> (cell: Rgb)
    ensures
        cell == cell_color(big_value(*a), big_value(*b)),
        cell == gcd_cell_spec(a, b),
{
    let g = big_gcd(a, b);
    let one = big_from_i32(1).unwrap();
    if big_eq(&g, &one) {
        Rgb { r: 0, g: 0, b: 0 }
    } else {
        Rgb { r: 255, g: 255, b: 255 }
    }
}

/// Renders the window of `width` by `height` cells whose top left cell is
/// `(start_x, start_y)`.
pub fn draw_field(start_x: &BigUint, start_y: &BigUint, width: u32, height: u32) -> (result: Vec<
    u8,
>)
    ensures
        result@ == gcd_field(
            big_value(*start_x),
            big_value(*start_y),
            width as nat,
            height as nat,
        ),
        result@.len() == 4 * width * height,
        forall|i: int| 0 <= i < result@.len() && i % 4 == 3 ==> result@[i] == OPAQUE,
        width == 0 || height == 0 ==> result@.len() == 0,
{
    let mut result: Vec<u8> = Vec::new();
    let mut y_offset: u32 = 0;
    while y_offset < height
        invariant
            y_offset <= height,
            result@ == field_prefix(
                big_value(*start_x),
                big_value(*start_y),
                width as nat,
                (width as nat) * (y_offset as nat),
            ),
        decreases height - y_offset,
    {
        let y = big_add_u32(start_y, y_offset);
        let mut x_offset: u32 = 0;
        while x_offset < width
            invariant
                x_offset <= width,
                big_value(y) == big_value(*start_y) + y_offset,
                result@ == field_prefix(
                    big_value(*start_x),
                    big_value(*start_y),
                    width as nat,
                    (width as nat) * (y_offset as nat) + (x_offset as nat),
                ),
            decreases width - x_offset,
        {
            let x = big_add_u32(start_x, x_offset);
            let cell = gcd_cell(&x, &y);
            proof {
                field_prefix_push(
                    big_value(*start_x),
                    big_value(*start_y),
                    width as nat,
                    y_offset as nat,
                    x_offset as nat,
                );
            }
            result.push(cell.r);
            result.push(cell.g);
            result.push(cell.b);
            result.push(OPAQUE);
            x_offset = x_offset + 1;
        }
        proof {
            assert((width as nat) * (y_offset as nat) + (width as nat) == (width as nat) * ((
                y_offset + 1) as nat)) by (nonlinear_arith);
        }
        y_offset = y_offset + 1;
    }
    proof {
        field_shape(big_value(*start_x), big_value(*start_y), width as nat, height as nat);
    }
    result
}

/// The colour of a cell depends on nothing but the numbers that its
/// coordinates hold, and does not change when the two are swapped. With a
/// zero coordinate the cell is black only where the other coordinate is one.
pub proof fn gcd_cell_laws(a: BigUint, b: BigUint)
    ensures
        gcd_cell(&a, &b) == cell_color(big_value(a), big_value(b)),
        gcd_cell(&a, &b) == gcd_cell(&b, &a),
        gcd_cell(&a, &b) == black() <==> gcd(big_value(a), big_value(b)) == 1,
        gcd_cell(&a, &b) == white() <==> gcd(big_value(a), big_value(b)) != 1,
        big_value(a) == 0 ==> (gcd_cell(&a, &b) == black() <==> big_value(b) == 1),
        big_value(b) == 0 ==> (gcd_cell(&a, &b) == black() <==> big_value(a) == 1),
{
    cell_color_symmetric(big_value(a), big_value(b));
    axis_cell_color(big_value(a));
    axis_cell_color(big_value(b));
}

/// Two renderings of one window hold the same bytes, also where the start
/// coordinates are two values that hold the same numbers.
pub proof fn draw_field_is_deterministic(
    start_x: BigUint,
    start_y: BigUint,
    again_x: BigUint,
    again_y: BigUint,
    width: u32,
    height: u32,
    first: Vec<u8>,
    second: Vec<u8>,
)
    requires
        big_value(start_x) == big_value(again_x),
        big_value(start_y) == big_value(again_y),
        first@ == gcd_field(big_value(start_x), big_value(start_y), width as nat, height as nat),
        second@ == gcd_field(big_value(again_x), big_value(again_y), width as nat, height as nat),
    ensures
        first@ == second@,
{
}

} // verus!
