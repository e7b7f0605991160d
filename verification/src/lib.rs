//! A window onto the GCD field: the plane of non-negative integer
//! coordinates in which a cell is black where its two coordinates are
//! coprime and white elsewhere, rendered as a raw RGBA byte buffer.

use crate::field::{field_of_empty_window, field_shape, gcd_field, OPAQUE};
use crate::literal::{decimal_value, is_digit, is_digit_string};
use crate::precision::{select, RenderError};
use vstd::prelude::*;

pub mod big;
pub mod bigboy;
pub mod field;
pub mod gcd;
pub mod literal;
pub mod precision;
pub mod smolboy;

verus! {

/// The red, green and blue channels of one cell. Alpha is not stored: every
/// rendered cell is opaque.
#[derive(Debug, Clone, Copy, PartialEq, Eq, Structural)]
pub struct Rgb {
    pub r: u8,
    pub g: u8,
    pub b: u8,
}

/// What `draw` returns: the buffer of the window where both strings are made
/// of decimal digits alone, and `InvalidCoordinate` where one of them is
/// empty or holds any other character.
pub open spec fn drawn(width: u32, height: u32, start_x: Seq<char>, start_y: Seq<char>) -> Result<
    Seq<u8>,
    RenderError,
> {
    if is_digit_string(start_x) && is_digit_string(start_y) {
        Ok(gcd_field(decimal_value(start_x), decimal_value(start_y), width as nat, height as nat))
    } else {
        Err(RenderError::InvalidCoordinate)
    }
}

/// The bytes of a rendering, or the error in their place.
pub open spec fn outcome(r: Result<Vec<u8>, RenderError>) -> Result<Seq<u8>, RenderError> {
    match r {
        Ok(data) => Ok(data@),
        Err(e) => Err(e),
    }
}

/// Renders the window of `width` by `height` cells whose top left cell is
/// given by two coordinate strings.
///
/// The buffer is row-major with four bytes to a cell: red, green, blue and
/// alpha. A cell is black where its coordinates are coprime and white
/// elsewhere. A coordinate is written as decimal digits, however many; where
/// a string is empty or holds anything else, nothing is rendered.
pub fn draw(width: u32, height: u32, start_x_str: &str, start_y_str: &str) -> (r: Result<
    Vec<u8>,
    RenderError,
>)
    ensures
        outcome(r) == drawn(width, height, start_x_str@, start_y_str@),
        r is Ok <==> is_digit_string(start_x_str@) && is_digit_string(start_y_str@),
        r matches Err(e) ==> e == RenderError::InvalidCoordinate,
        r matches Ok(data) ==> data@ == gcd_field(
            decimal_value(start_x_str@),
            decimal_value(start_y_str@),
            width as nat,
            height as nat,
        ),
        r matches Ok(data) ==> data@.len() == 4 * width * height,
        r matches Ok(data) ==> forall|i: int|
            0 <= i < data@.len() && i % 4 == 3 ==> data@[i] == OPAQUE,
        r matches Ok(data) ==> (width == 0 || height == 0 ==> data@.len() == 0),
{
    match select(start_x_str, start_y_str) {
        Ok(start) => {
            let data = start.render(width, height);
            proof {
                field_shape(start.x(), start.y(), width as nat, height as nat);
                if width == 0 || height == 0 {
                    field_of_empty_window(start.x(), start.y(), width as nat, height as nat);
                }
            }
            Ok(data)
        },
        Err(e) => Err(e),
    }
}

/// Two calls of `draw` with the same arguments give the same bytes, or fail
/// alike.
pub proof fn draw_is_deterministic(
    width: u32,
    height: u32,
    start_x: Seq<char>,
    start_y: Seq<char>,
    first: Result<Vec<u8>, RenderError>,
    second: Result<Vec<u8>, RenderError>,
)
    requires
        outcome(first) == drawn(width, height, start_x, start_y),
        outcome(second) == drawn(width, height, start_x, start_y),
    ensures
        outcome(first) == outcome(second),
        first matches Ok(a) ==> second matches Ok(b) && a@ == b@,
        first is Err ==> second is Err,
{
}

/// An empty string, or a character that is not a decimal digit in either
/// string, leaves no buffer: the result is `InvalidCoordinate` whatever the
/// window.
pub proof fn non_digit_is_refused(
    width: u32,
    height: u32,
    start_x: Seq<char>,
    start_y: Seq<char>,
    i: int,
)
    requires
        start_x.len() == 0 || start_y.len() == 0 || (0 <= i < start_x.len() && !is_digit(
            start_x[i],
        )) || (0 <= i < start_y.len() && !is_digit(start_y[i])),
    ensures
        drawn(width, height, start_x, start_y) == Err::<Seq<u8>, RenderError>(
            RenderError::InvalidCoordinate,
        ),
{
}

/// How large a coordinate is never decides whether a window is rendered:
/// two strings of decimal digits always give a buffer.
pub proof fn digit_strings_are_rendered(
    width: u32,
    height: u32,
    start_x: Seq<char>,
    start_y: Seq<char>,
)
    requires
        is_digit_string(start_x),
        is_digit_string(start_y),
    ensures
        drawn(width, height, start_x, start_y) == Ok::<Seq<u8>, RenderError>(
            gcd_field(
                decimal_value(start_x),
                decimal_value(start_y),
                width as nat,
                height as nat,
            ),
        ),
{
}

} // verus!
