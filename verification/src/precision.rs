//! Choosing the renderer: the fast one where both start coordinates fit 64
//! bits, the one for coordinates of any size elsewhere.

use crate::big::{big_value, parse_big};
use crate::field::gcd_field;
use crate::literal::{
    decimal_value, digit_string_is_read, digits_only, is_digit_string, is_fixed_literal,
    FIXED_MAX,
};
use num::BigUint;
use vstd::prelude::*;

verus! {

/// Why a window could not be rendered.
#[derive(Debug, Clone, Copy, PartialEq, Eq, Structural)]
pub enum RenderError {
    /// One of the two start coordinates is empty or holds a character that
    /// is not a decimal digit.
    InvalidCoordinate,
}

impl RenderError {
    /// The text shown to whoever asked for the window.
    pub fn message(&self) -> (text: &'static str)
        ensures
            text@ == "Could not draw with that number"@,
    {
        "Could not draw with that number"
    }
}

/// The top left cell of a window, with both coordinates held the same way.
#[derive(Debug, PartialEq, Eq)]
pub enum Coordinates {
    /// Both coordinates fit 64 bits.
    Fixed(u64, u64),
    /// At least one coordinate does not fit 64 bits.
    Big(BigUint, BigUint),
}

impl Coordinates {
    /// The horizontal coordinate.
    pub open spec fn x(self) -> nat {
        match self {
            Coordinates::Fixed(x, _) => x as nat,
            Coordinates::Big(x, _) => big_value(x),
        }
    }

    /// The vertical coordinate.
    pub open spec fn y(self) -> nat {
        match self {
            Coordinates::Fixed(_, y) => y as nat,
            Coordinates::Big(_, y) => big_value(y),
        }
    }

    /// Renders the window of `width` by `height` cells that starts here, with
    /// the renderer that the coordinates call for.
    pub fn render(&self, width: u32, height: u32) -> (result: Vec<u8>)
        ensures
            result@ == gcd_field(self.x(), self.y(), width as nat, height as nat),
    {
        match self {
            Coordinates::Fixed(x, y) => crate::smolboy::draw_field(*x, *y, width, height),
            Coordinates::Big(x, y) => crate::bigboy::draw_field(x, y, width, height),
        }
    }
}

/// Calls `str::parse::<u64>`.
///
/// Assumed from the standard library's documentation: it reads an optional
/// plus sign followed by decimal digits only, and fails on an empty string,
/// on a sign alone, on any other character and on a number that does not fit
/// 64 bits. Where it succeeds it returns the number that the digits write.
#[verifier::external_body]
fn parse_fixed(s: &str) -> (parsed: Option<u64>)
    ensures
        parsed is Some <==> is_fixed_literal(s@),
        parsed matches Some(n) ==> n == decimal_value(s@),
{
    match s.parse::<u64>() {
        Ok(n) => Some(n),
        Err(_) => None,
    }
}

/// What `select` returns for a pair of strings.
pub open spec fn selected(
    start_x: Seq<char>,
    start_y: Seq<char>,
    r: Result<Coordinates, RenderError>,
) -> bool {
    match r {
        Ok(Coordinates::Fixed(x, y)) => {
            &&& is_digit_string(start_x) && is_digit_string(start_y)
            &&& decimal_value(start_x) <= FIXED_MAX && decimal_value(start_y) <= FIXED_MAX
            &&& x == decimal_value(start_x)
            &&& y == decimal_value(start_y)
        },
        Ok(Coordinates::Big(x, y)) => {
            &&& is_digit_string(start_x) && is_digit_string(start_y)
            &&& decimal_value(start_x) > FIXED_MAX || decimal_value(start_y) > FIXED_MAX
            &&& big_value(x) == decimal_value(start_x)
            &&& big_value(y) == decimal_value(start_y)
        },
        Err(e) => {
            &&& !(is_digit_string(start_x) && is_digit_string(start_y))
            &&& e == RenderError::InvalidCoordinate
        },
    }
}

/// Reads the two start coordinates and decides how to hold them: as 64-bit
/// integers where both fit, as integers of any size where one does not. A
/// string that is not made of decimal digits alone is refused before any
/// parser sees it.
pub fn select(start_x: &str, start_y: &str) -> (r: Result<Coordinates, RenderError>)
    ensures
        selected(start_x@, start_y@, r),
        r is Ok <==> is_digit_string(start_x@) && is_digit_string(start_y@),
        r matches Ok(c) ==> c.x() == decimal_value(start_x@) && c.y() == decimal_value(start_y@),
        r matches Err(e) ==> e == RenderError::InvalidCoordinate,
{
    if !digits_only(start_x) || !digits_only(start_y) {
        return Err(RenderError::InvalidCoordinate);
    }
    proof {
        digit_string_is_read(start_x@);
        digit_string_is_read(start_y@);
    }
    let smol_x = parse_fixed(start_x);
    let smol_y = parse_fixed(start_y);
    match (smol_x, smol_y) {
        (Some(x), Some(y)) => Ok(Coordinates::Fixed(x, y)),
        _ => {
            let big_x = parse_big(start_x);
            let big_y = parse_big(start_y);
            match (big_x, big_y) {
                (Some(x), Some(y)) => Ok(Coordinates::Big(x, y)),
                // Never taken: a string of digits is always read.
                _ => Err(RenderError::InvalidCoordinate),
            }
        },
    }
}

/// A coordinate past 64 bits takes the renderer for coordinates of any size,
/// which holds both coordinates exactly; being large is never an error.
pub proof fn past_fixed_max_selects_big(
    start_x: Seq<char>,
    start_y: Seq<char>,
    r: Result<Coordinates, RenderError>,
)
    requires
        selected(start_x, start_y, r),
        is_digit_string(start_x),
        is_digit_string(start_y),
        decimal_value(start_x) > FIXED_MAX || decimal_value(start_y) > FIXED_MAX,
    ensures
        r matches Ok(Coordinates::Big(x, y)) && big_value(x) == decimal_value(start_x) && big_value(
            y,
        ) == decimal_value(start_y),
{
}

/// Two coordinates that both fit 64 bits take the fast renderer.
pub proof fn within_fixed_max_selects_fixed(
    start_x: Seq<char>,
    start_y: Seq<char>,
    r: Result<Coordinates, RenderError>,
)
    requires
        selected(start_x, start_y, r),
        is_digit_string(start_x),
        is_digit_string(start_y),
        decimal_value(start_x) <= FIXED_MAX,
        decimal_value(start_y) <= FIXED_MAX,
    ensures
        r matches Ok(Coordinates::Fixed(x, y)) && x == decimal_value(start_x) && y
            == decimal_value(start_y),
{
}

/// The two renderers colour a cell alike, whichever of them is handed its
/// coordinates.
pub proof fn renderers_agree_on_cell(a: u128, b: u128, big_a: BigUint, big_b: BigUint)
    requires
        big_value(big_a) == a,
        big_value(big_b) == b,
    ensures
        crate::smolboy::gcd_cell(a, b) == crate::bigboy::gcd_cell(&big_a, &big_b),
{
}

/// The two renderers give the same buffer for a window whose start
/// coordinates fit 64 bits.
pub proof fn renderers_agree_on_window(
    start_x: u64,
    start_y: u64,
    big_x: BigUint,
    big_y: BigUint,
    width: u32,
    height: u32,
    fast: Vec<u8>,
    big: Vec<u8>,
)
    requires
        big_value(big_x) == start_x,
        big_value(big_y) == start_y,
        fast@ == gcd_field(start_x as nat, start_y as nat, width as nat, height as nat),
        big@ == gcd_field(big_value(big_x), big_value(big_y), width as nat, height as nat),
    ensures
        Coordinates::Fixed(start_x, start_y).x() == Coordinates::Big(big_x, big_y).x(),
        Coordinates::Fixed(start_x, start_y).y() == Coordinates::Big(big_x, big_y).y(),
        fast@ == big@,
{
}

} // verus!
