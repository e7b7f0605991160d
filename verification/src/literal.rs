//! Coordinate strings: a start coordinate is written as one or more ASCII
//! decimal digits and nothing else. Beside that stand the wider notations
//! that the two parsers read, which the selector never lets through.

use vstd::prelude::*;
use vstd::string::is_ascii_spec_bytes;

verus! {

/// The largest coordinate that the fast renderer takes.
pub const FIXED_MAX: u64 = 0xffff_ffff_ffff_ffff;

/// One of the ten ASCII decimal digits.
pub open spec fn is_digit(c: char) -> bool {
    '0' <= c <= '9'
}

/// The number that a decimal digit stands for.
pub open spec fn digit_value(c: char) -> nat
    recommends
        is_digit(c),
{
    (c as int - '0' as int) as nat
}

/// The number that the decimal digits of `s` write, most significant digit
/// first. Characters that are not digits add nothing to it; a coordinate
/// string has none.
pub open spec fn decimal_value(s: Seq<char>) -> nat
    decreases s.len(),
{
    if s.len() == 0 {
        0
    } else if is_digit(s.last()) {
        10 * decimal_value(s.drop_last()) + digit_value(s.last())
    } else {
        decimal_value(s.drop_last())
    }
}

/// `s` is a coordinate string: one or more decimal digits and nothing else.
pub open spec fn is_digit_string(s: Seq<char>) -> bool {
    &&& s.len() > 0
    &&& forall|i: int| 0 <= i < s.len() ==> is_digit(#[trigger] s[i])
}

/// Tells whether `s` is a coordinate string.
pub fn digits_only(s: &str) -> (ok: bool)
    ensures
        ok == is_digit_string(s@),
{
    if !s.is_ascii() {
        return false;
    }
    let bytes = s.as_bytes();
    proof {
        is_ascii_spec_bytes(s);
    }
    let n = bytes.len();
    if n == 0 {
        return false;
    }
    let mut i: usize = 0;
    while i < n
        invariant
            i <= n,
            n == s@.len(),
            n == bytes@.len(),
            forall|j: int| 0 <= j < n ==> '\0' <= #[trigger] s@[j] <= '\u{7f}',
            forall|j: int| 0 <= j < n ==> #[trigger] bytes@[j] == s@[j] as u8,
            forall|j: int| 0 <= j < i ==> is_digit(#[trigger] s@[j]),
        decreases n - i,
    {
        let b = bytes[i];
        if b < 0x30 || b > 0x39 {
            assert(!is_digit(s@[i as int]));
            return false;
        }
        assert(is_digit(s@[i as int]));
        i = i + 1;
    }
    true
}

/// The character that `BigUint::from_str` passes over between digits.
pub open spec fn is_separator(c: char) -> bool {
    c == '_'
}

/// What is left of `s` once one leading plus sign, if there is one, is taken
/// away. Both parsers begin so.
pub open spec fn unsigned_part(s: Seq<char>) -> Seq<char> {
    if s.len() > 0 && s[0] == '+' {
        s.subrange(1, s.len() as int)
    } else {
        s
    }
}

/// What `str::parse::<u64>` reads: an optional plus sign, one or more decimal
/// digits and nothing else, and a number of at most `FIXED_MAX`. This is
/// wider than a coordinate string.
pub open spec fn is_fixed_literal(s: Seq<char>) -> bool {
    let digits = unsigned_part(s);
    &&& digits.len() > 0
    &&& forall|i: int| 0 <= i < digits.len() ==> is_digit(#[trigger] digits[i])
    &&& decimal_value(s) <= FIXED_MAX
}

/// What `BigUint::from_str` reads: an optional plus sign, a decimal digit,
/// and after it any number of decimal digits and separators. This is wider
/// than a coordinate string.
pub open spec fn is_big_literal(s: Seq<char>) -> bool {
    let digits = unsigned_part(s);
    &&& digits.len() > 0
    &&& is_digit(digits[0])
    &&& forall|i: int|
        0 <= i < digits.len() ==> is_digit(#[trigger] digits[i]) || is_separator(digits[i])
}

/// Both parsers read every coordinate string: the one for integers of any
/// size always, the one for 64 bits exactly where the number fits.
pub proof fn digit_string_is_read(s: Seq<char>)
    requires
        is_digit_string(s),
    ensures
        is_big_literal(s),
        is_fixed_literal(s) <==> decimal_value(s) <= FIXED_MAX,
{
    assert(is_digit(s[0]));
    assert(unsigned_part(s) == s);
}

} // verus!
