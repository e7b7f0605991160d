//! What a rendered window holds: the colour of each cell of the GCD field and
//! the layout of the cells in the byte buffer.

use crate::gcd::{coprime, gcd, gcd_symmetric, gcd_with_zero};
use crate::Rgb;
use vstd::arithmetic::div_mod::lemma_fundamental_div_mod_converse;
use vstd::prelude::*;

verus! {

/// The alpha channel of every rendered cell: fully opaque.
pub const OPAQUE: u8 = 255;

/// The colour of cells whose coordinates are coprime.
pub open spec fn black() -> Rgb {
    Rgb { r: 0, g: 0, b: 0 }
}

/// The colour of cells whose coordinates share a divisor other than one.
pub open spec fn white() -> Rgb {
    Rgb { r: 255, g: 255, b: 255 }
}

/// The colour of the cell at `(x, y)`.
pub open spec fn cell_color(x: nat, y: nat) -> Rgb {
    if coprime(x, y) {
        black()
    } else {
        white()
    }
}

/// The four bytes that one cell of the given colour takes in a buffer: red,
/// green, blue, alpha.
pub open spec fn pixel(color: Rgb) -> Seq<u8> {
    seq![color.r, color.g, color.b, OPAQUE]
}

/// Byte `i` of a buffer of rows `width` cells wide whose first cell is
/// `(start_x, start_y)`: cell `i / 4` stands in column `(i / 4) % width` of
/// row `(i / 4) / width`, and the byte is channel `i % 4` of its pixel.
pub open spec fn field_byte(start_x: nat, start_y: nat, width: nat, i: int) -> u8 {
    let cell = i / 4;
    let x = (start_x + cell % (width as int)) as nat;
    let y = (start_y + cell / (width as int)) as nat;
    pixel(cell_color(x, y))[i % 4]
}

/// The first `cells` cells, in row-major order, of a buffer of rows `width`
/// cells wide.
pub open spec fn field_prefix(start_x: nat, start_y: nat, width: nat, cells: nat) -> Seq<u8> {
    Seq::new(4 * cells, |i: int| field_byte(start_x, start_y, width, i))
}

/// The buffer of the window of `width` by `height` cells whose top left cell
/// is `(start_x, start_y)`: row-major, four bytes to a cell.
pub open spec fn gcd_field(start_x: nat, start_y: nat, width: nat, height: nat) -> Seq<u8> {
    field_prefix(start_x, start_y, width, width * height)
}

/// A cell and its mirror image across the diagonal have the same colour.
pub proof fn cell_color_symmetric(x: nat, y: nat)
    ensures
        cell_color(x, y) == cell_color(y, x),
{
    gcd_symmetric(x, y);
}

/// On either axis, where one coordinate is zero, the greatest common divisor
/// is the other coordinate, so the only black cell is the one at distance one
/// from the origin.
pub proof fn axis_cell_color(n: nat)
    ensures
        gcd(0, n) == n,
        gcd(n, 0) == n,
        cell_color(0, n) == black() <==> n == 1,
        cell_color(n, 0) == black() <==> n == 1,
        cell_color(0, n) == (if n == 1 { black() } else { white() }),
        cell_color(n, 0) == (if n == 1 { black() } else { white() }),
{
    gcd_with_zero(n);
}

/// A cell is black exactly where the greatest common divisor of its
/// coordinates is one, and white everywhere else.
pub proof fn cell_color_is_binary(x: nat, y: nat)
    ensures
        cell_color(x, y) == black() <==> gcd(x, y) == 1,
        cell_color(x, y) == white() <==> gcd(x, y) != 1,
{
}

/// Cell `col` of row `row` stands at index `width * row + col`.
pub proof fn cell_index(width: nat, row: nat, col: nat)
    requires
        col < width,
    ensures
        (width * row + col) / width == row,
        (width * row + col) % width == col,
{
    assert(width * row == row * width) by (nonlinear_arith);
    lemma_fundamental_div_mod_converse(
        (width * row + col) as int,
        width as int,
        row as int,
        col as int,
    );
}

/// Channel `k` of the cell in column `col` of row `row` of a window is the
/// channel of the colour of the cell `(start_x + col, start_y + row)`.
pub proof fn field_cell(
    start_x: nat,
    start_y: nat,
    width: nat,
    height: nat,
    col: nat,
    row: nat,
    k: int,
)
    requires
        col < width,
        row < height,
        0 <= k < 4,
    ensures
        0 <= 4 * (width * row + col) + k < gcd_field(start_x, start_y, width, height).len(),
        gcd_field(start_x, start_y, width, height)[4 * (width * row + col) + k] == pixel(
            cell_color(start_x + col, start_y + row),
        )[k],
{
    cell_index(width, row, col);
    assert(width * row + col < width * height) by (nonlinear_arith)
        requires
            col < width,
            row < height,
    ;
}

/// Appending the pixel of the next cell to the first cells of a window gives
/// the first cells with one more.
pub proof fn field_prefix_push(start_x: nat, start_y: nat, width: nat, row: nat, col: nat)
    requires
        col < width,
    ensures
        field_prefix(start_x, start_y, width, width * row + col + 1) == field_prefix(
            start_x,
            start_y,
            width,
            width * row + col,
        ) + pixel(cell_color(start_x + col, start_y + row)),
{
    cell_index(width, row, col);
    let cells = width * row + col;
    let longer = field_prefix(start_x, start_y, width, cells + 1);
    let joined = field_prefix(start_x, start_y, width, cells) + pixel(
        cell_color(start_x + col, start_y + row),
    );
    assert(longer.len() == joined.len());
    assert forall|i: int| 0 <= i < longer.len() implies longer[i] == joined[i] by {
        if i >= 4 * cells {
            assert(i / 4 == cells);
            assert(i % 4 == i - 4 * cells);
        }
    }
    assert(longer =~= joined);
}

/// A window's buffer has four bytes for each of its cells, and the last of
/// the four is always opaque.
pub proof fn field_shape(start_x: nat, start_y: nat, width: nat, height: nat)
    ensures
        gcd_field(start_x, start_y, width, height).len() == 4 * width * height,
        forall|i: int|
            0 <= i < 4 * width * height && i % 4 == 3 ==> #[trigger] gcd_field(
                start_x,
                start_y,
                width,
                height,
            )[i] == OPAQUE,
        forall|i: int|
            0 <= i < 4 * width * height ==> #[trigger] gcd_field(
                start_x,
                start_y,
                width,
                height,
            )[i] == 0 || gcd_field(start_x, start_y, width, height)[i] == 255,
{
    assert(4 * (width * height) == 4 * width * height) by (nonlinear_arith);
}

/// A window with no columns or no rows has an empty buffer.
pub proof fn field_of_empty_window(start_x: nat, start_y: nat, width: nat, height: nat)
    requires
        width == 0 || height == 0,
    ensures
        gcd_field(start_x, start_y, width, height) == Seq::<u8>::empty(),
{
    assert(width * height == 0) by (nonlinear_arith)
        requires
            width == 0 || height == 0,
    ;
    assert(gcd_field(start_x, start_y, width, height) =~= Seq::<u8>::empty());
}

/// Swapping the two start coordinates and the two sides of the window
/// mirrors the picture across the diagonal: each cell keeps its colour and
/// moves from column `col` of row `row` to column `row` of row `col`.
pub proof fn field_transposed(
    start_x: nat,
    start_y: nat,
    width: nat,
    height: nat,
    col: nat,
    row: nat,
    k: int,
)
    requires
        col < width,
        row < height,
        0 <= k < 4,
    ensures
        gcd_field(start_x, start_y, width, height)[4 * (width * row + col) + k] == gcd_field(
            start_y,
            start_x,
            height,
            width,
        )[4 * (height * col + row) + k],
{
    field_cell(start_x, start_y, width, height, col, row, k);
    field_cell(start_y, start_x, height, width, row, col, k);
    cell_color_symmetric(start_x + col, start_y + row);
}

} // verus!
