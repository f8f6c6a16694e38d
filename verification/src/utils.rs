//! Small shared utilities: decimal rendering of integers, shortening long
//! text for display, and a conversion newtype.

use vstd::prelude::*;
use vstd::slice::slice_subrange;
use vstd::slice::slice_to_vec;

use crate::error::Error;

verus! {

/// The character for one decimal digit.
pub open spec fn spec_digit_char(d: nat) -> char {
    if d == 0 {
        '0'
    } else if d == 1 {
        '1'
    } else if d == 2 {
        '2'
    } else if d == 3 {
        '3'
    } else if d == 4 {
        '4'
    } else if d == 5 {
        '5'
    } else if d == 6 {
        '6'
    } else if d == 7 {
        '7'
    } else if d == 8 {
        '8'
    } else {
        '9'
    }
}

/// The usual decimal spelling of a natural number, most significant digit
/// first, with no leading zeros (except for zero itself).
pub open spec fn spec_decimal(n: nat) -> Seq<char>
    decreases n,
{
    if n < 10 {
        seq![spec_digit_char(n)]
    } else {
        spec_decimal(n / 10).push(spec_digit_char(n % 10))
    }
}

/// One decimal digit as a string slice.
fn digit_str(d: u64) -> (r: &'static str)
    requires
        d < 10,
    ensures
        r@ == seq![spec_digit_char(d as nat)],
{
    let r: &'static str = match d {
        0 => "0",
        1 => "1",
        2 => "2",
        3 => "3",
        4 => "4",
        5 => "5",
        6 => "6",
        7 => "7",
        8 => "8",
        _ => "9",
    };
    proof {
        reveal_strlit("0");
        reveal_strlit("1");
        reveal_strlit("2");
        reveal_strlit("3");
        reveal_strlit("4");
        reveal_strlit("5");
        reveal_strlit("6");
        reveal_strlit("7");
        reveal_strlit("8");
        reveal_strlit("9");
        assert(r@ =~= seq![spec_digit_char(d as nat)]);
    }
    r
}

/// Render a number in decimal.
pub fn decimal_string(n: u64) -> (r: String)
    ensures
        r@ == spec_decimal(n as nat),
    decreases n,
{
    if n < 10 {
        digit_str(n).to_owned()
    } else {
        let mut s = decimal_string(n / 10);
        s.append(digit_str(n % 10));
        proof {
            assert(s@ =~= spec_decimal(n as nat));
        }
        s
    }
}

/// Shorten text to at most `max_len` characters plus a marker: text longer
/// than `max_len` keeps its first and last `max_len / 2` characters around
/// an ellipsis.
pub fn elided(s: &str, max_len: usize) -> (r: String)
    ensures
        s@.len() <= max_len ==> r@ == s@,
        s@.len() > max_len ==> r@ == s@.subrange(0, max_len as int / 2) + " … "@ + s@.subrange(
            s@.len() - max_len / 2,
            s@.len() as int,
        ),
{
    let n = s.unicode_len();
    if n <= max_len {
        s.to_owned()
    } else {
        let h = max_len / 2;
        let mut r = s.substring_char(0, h).to_owned();
        r.append(" … ");
        r.append(s.substring_char(n - h, n));
        r
    }
}

/// Take the string a native call marshalled into a caller-supplied
/// buffer. The call reports how many bytes it needed; a report beyond the
/// buffer's capacity means the text was cut short, which is an error, not
/// a silent truncation.
pub fn marshalled_bytes(buf: &Vec<u8>, needed: usize) -> (r: Result<Vec<u8>, Error>)
    ensures
        needed <= buf@.len() ==> (r matches Ok(v) && v@ == buf@.subrange(0, needed as int)),
        needed > buf@.len() ==> r == Err::<Vec<u8>, Error>(
            Error::BufferTooSmall { needed, capacity: buf@.len() as usize },
        ),
{
    if needed <= buf.len() {
        Ok(slice_to_vec(slice_subrange(buf.as_slice(), 0, needed)))
    } else {
        Err(Error::BufferTooSmall { needed, capacity: buf.len() })
    }
}

/// Newtype that carries a value across a conversion boundary.
pub struct Conv<T>(pub T);

impl<T> Conv<T> {
    /// Borrow the wrapped value.
    pub fn inner(&self) -> (r: &T)
        ensures
            *r == self.0,
    {
        &self.0
    }

    /// Unwrap the value.
    pub fn take(self) -> (r: T)
        ensures
            r == self.0,
    {
        self.0
    }
}

} // verus!

