//! The fast renderer: start coordinates that fit the machine's 64-bit
//! unsigned integers.

use crate::field::{
    axis_cell_color, black, cell_color, cell_color_symmetric, field_prefix, field_prefix_push,
    field_shape, gcd_field, white, OPAQUE,
};
use crate::gcd::gcd;
use crate::Rgb;
use vstd::prelude::*;

verus! {

/// Calls `num::Integer::gcd` on two `u128`.
///
/// Assumed from the crate's source, which returns the other argument where
/// one is zero and runs Stein's binary algorithm otherwise: the result is the
/// greatest common divisor of the two numbers.
#[verifier::external_body]
fn gcd_u128(a: u128, b: u128) -> (g: u128)
    ensures
        g == gcd(a as nat, b as nat),
{
    num::Integer::gcd(&a, &b)
}

/// What `gcd_cell` returns.
pub open spec fn gcd_cell_spec(a: u128, b: u128) -> Rgb {
    cell_color(a as nat, b as nat)
}

/// The colour of the cell at `(a, b)`: black where the two are coprime, white
/// elsewhere.
#[verifier::when_used_as_spec(gcd_cell_spec)]
pub fn gcd_cell(a: u128, b: u128) -> (cell: Rgb)
    ensures
        cell == cell_color(a as nat, b as nat),
        cell == gcd_cell_spec(a, b),
{
    if gcd_u128(a, b) == 1 {
        Rgb { r: 0, g: 0, b: 0 }
    } else {
        Rgb { r: 255, g: 255, b: 255 }
    }
}

/// Renders the window of `width` by `height` cells whose top left cell is
/// `(start_x, start_y)`.
///
/// Cell coordinates are computed in 128 bits, so a window that reaches past
/// `u64::MAX` is rendered like any other.
pub fn draw_field(start_x: u64, start_y: u64, width: u32, height: u32) -> (result: Vec<u8>)
    ensures
        result@ == gcd_field(start_x as nat, start_y as nat, width as nat, height as nat),
        result@.len() == 4 * width * height,
        forall|i: int| 0 <= i < result@.len() && i % 4 == 3 ==> result@[i] == OPAQUE,
        width == 0 || height == 0 ==> result@.len() == 0,
{
    let mut result: Vec<u8> = Vec::new();
    let mut y_offset: u32 = 0;
    while y_offset < height
        invariant
            y_offset <= height,
            result@ == field_prefix(
                start_x as nat,
                start_y as nat,
                width as nat,
                (width as nat) * (y_offset as nat),
            ),
        decreases height - y_offset,
    {
        let y: u128 = start_y as u128 + y_offset as u128;
        let mut x_offset: u32 = 0;
        while x_offset < width
            invariant
                x_offset <= width,
                y == start_y + y_offset,
                result@ == field_prefix(
                    start_x as nat,
                    start_y as nat,
                    width as nat,
                    (width as nat) * (y_offset as nat) + (x_offset as nat),
                ),
            decreases width - x_offset,
        {
            let x: u128 = start_x as u128 + x_offset as u128;
            let cell = gcd_cell(x, y);
            proof {
                field_prefix_push(
                    start_x as nat,
                    start_y as nat,
                    width as nat,
                    y_offset as nat,
                    x_offset as nat,
                );
            }
            result.push(cell.r);
            result.push(cell.g);
            result.push(cell.b);
            result.push(OPAQUE);
            x_offset = x_offset + 1;
        }
        proof {
            assert((width as nat) * (y_offset as nat) + (width as nat) == (width as nat) * ((
                y_offset + 1) as nat)) by (nonlinear_arith);
        }
        y_offset = y_offset + 1;
    }
    proof {
        field_shape(start_x as nat, start_y as nat, width as nat, height as nat);
    }
    result
}

/// The colour of a cell depends on nothing but its coordinates, and does not
/// change when the two are swapped. With a zero coordinate the cell is black
/// only where the other coordinate is one.
pub proof fn gcd_cell_laws(a: u128, b: u128)
    ensures
        gcd_cell(a, b) == cell_color(a as nat, b as nat),
        gcd_cell(a, b) == gcd_cell(b, a),
        gcd_cell(a, b) == black() <==> gcd(a as nat, b as nat) == 1,
        gcd_cell(a, b) == white() <==> gcd(a as nat, b as nat) != 1,
        gcd_cell(0, b) == black() <==> b == 1,
        gcd_cell(a, 0) == black() <==> a == 1,
{
    cell_color_symmetric(a as nat, b as nat);
    axis_cell_color(a as nat);
    axis_cell_color(b as nat);
}

/// Two renderings of one window hold the same bytes.
pub proof fn draw_field_is_deterministic(
    start_x: u64,
    start_y: u64,
    width: u32,
    height: u32,
    first: Vec<u8>,
    second: Vec<u8>,
)
    requires
        first@ == gcd_field(start_x as nat, start_y as nat, width as nat, height as nat),
        second@ == gcd_field(start_x as nat, start_y as nat, width as nat, height as nat),
    ensures
        first@ == second@,
{
}

} // verus!
