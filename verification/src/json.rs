//! A byte-level JSON reader for pipeline descriptions.
//!
//! Each executable scanner is mirrored by a specification function over the
//! byte sequence; a scanner's contract says it computes exactly what its
//! mirror defines. Positions index UTF-8 bytes; string contents are kept in
//! their raw spelling (escape sequences are validated but not decoded).

use vstd::prelude::*;

verus! {

/// JSON whitespace: space, tab, line feed, carriage return.
pub open spec fn is_ws(b: u8) -> bool {
    b == 32 || b == 9 || b == 10 || b == 13
}

/// A character that may follow a backslash in a string, besides `u`.
pub open spec fn is_simple_escape(b: u8) -> bool {
    b == 34 || b == 92 || b == 47 || b == 98 || b == 102 || b == 110 || b == 114 || b == 116
}

/// A hexadecimal digit.
pub open spec fn is_hex(b: u8) -> bool {
    (48 <= b && b <= 57) || (65 <= b && b <= 70) || (97 <= b && b <= 102)
}

/// A decimal digit.
pub open spec fn is_digit(b: u8) -> bool {
    48 <= b && b <= 57
}

/// First position at or after `i` that holds no whitespace.
pub open spec fn sp_ws(s: Seq<u8>, i: int) -> int
    decreases s.len() - i,
{
    if 0 <= i < s.len() && is_ws(s[i]) {
        sp_ws(s, i + 1)
    } else {
        i
    }
}

/// Position just past the closing quote of a string whose contents start
/// at `i` (the opening quote already consumed); `None` if the bytes from
/// `i` form no valid string remainder.
pub open spec fn sp_string_end(s: Seq<u8>, i: int) -> Option<int>
    decreases s.len() - i,
{
    if i < 0 || i >= s.len() {
        None
    } else if s[i] == 34 {  // '"'
        Some(i + 1)
    } else if s[i] == 92 {  // '\'
        if i + 2 <= s.len() && is_simple_escape(s[i + 1]) {
            sp_string_end(s, i + 2)
        } else if i + 6 <= s.len() && s[i + 1] == 117 && is_hex(s[i + 2]) && is_hex(s[i + 3])
            && is_hex(s[i + 4]) && is_hex(s[i + 5]) {  // \uXXXX
            sp_string_end(s, i + 6)
        } else {
            None
        }
    } else if s[i] >= 32 {
        sp_string_end(s, i + 1)
    } else {
        None
    }
}

/// First position at or after `i` that holds no decimal digit.
pub open spec fn sp_digits(s: Seq<u8>, i: int) -> int
    decreases s.len() - i,
{
    if 0 <= i < s.len() && is_digit(s[i]) {
        sp_digits(s, i + 1)
    } else {
        i
    }
}

/// Position just past a JSON number starting at `i`; `None` if the bytes
/// at `i` start no valid number.
pub open spec fn sp_number_end(s: Seq<u8>, i: int) -> Option<int> {
    let start = if 0 <= i < s.len() && s[i] == 45 {  // '-'
        i + 1
    } else {
        i
    };
    if !(0 <= start < s.len() && is_digit(s[start])) {
        None
    } else {
        let j1 = if s[start] == 48 {
            start + 1
        } else {
            sp_digits(s, start)
        };
        if j1 < s.len() && s[j1] == 46 {  // '.'
            if j1 + 1 < s.len() && is_digit(s[j1 + 1]) {
                sp_exponent_end(s, sp_digits(s, j1 + 1))
            } else {
                None
            }
        } else {
            sp_exponent_end(s, j1)
        }
    }
}

/// Position just past an optional exponent part starting at `j`; `None`
/// if an exponent marker stands at `j` without digits after it.
pub open spec fn sp_exponent_end(s: Seq<u8>, j: int) -> Option<int> {
    if 0 <= j < s.len() && (s[j] == 101 || s[j] == 69) {  // 'e' / 'E'
        let k = if j + 1 < s.len() && (s[j + 1] == 43 || s[j + 1] == 45) {  // '+' / '-'
            j + 2
        } else {
            j + 1
        };
        if k < s.len() && is_digit(s[k]) {
            Some(sp_digits(s, k))
        } else {
            None
        }
    } else {
        Some(j)
    }
}

/// Position just past the JSON value starting at `i`; `None` if the bytes
/// at `i` start no valid value.
pub open spec fn sp_value_end(s: Seq<u8>, i: int) -> Option<int>
    decreases s.len() - i, 0int,
{
    if i < 0 || i >= s.len() {
        None
    } else {
        let b = s[i];
        if b == 34 {  // '"'
            sp_string_end(s, i + 1)
        } else if b == 123 {  // '{'
            sp_members_end(s, i + 1, true)
        } else if b == 91 {  // '['
            sp_elements_end(s, i + 1, true)
        } else if b == 110 {  // 'n'
            if i + 4 <= s.len() && s[i + 1] == 117 && s[i + 2] == 108 && s[i + 3] == 108 {
                Some(i + 4)
            } else {
                None
            }
        } else if b == 116 {  // 't'
            if i + 4 <= s.len() && s[i + 1] == 114 && s[i + 2] == 117 && s[i + 3] == 101 {
                Some(i + 4)
            } else {
                None
            }
        } else if b == 102 {  // 'f'
            if i + 5 <= s.len() && s[i + 1] == 97 && s[i + 2] == 108 && s[i + 3] == 115 && s[i + 4]
                == 101 {
                Some(i + 5)
            } else {
                None
            }
        } else if b == 45 || is_digit(b) {
            sp_number_end(s, i)
        } else {
            None
        }
    }
}

/// Position just past the `}` of an object whose members start at `i`
/// (the `{`, or the comma before this member, already consumed). `first`
/// says whether a closing brace may stand here directly.
pub open spec fn sp_members_end(s: Seq<u8>, i: int, first: bool) -> Option<int>
    decreases s.len() - i, 1int,
{
    let j = sp_ws(s, i);
    if j < i || j >= s.len() {
        None
    } else if s[j] == 125 {  // '}'
        if first {
            Some(j + 1)
        } else {
            None
        }
    } else if s[j] != 34 {
        None
    } else {
        match sp_string_end(s, j + 1) {
            None => None,
            Some(ke) => {
                let j2 = sp_ws(s, ke);
                if j2 >= s.len() || s[j2] != 58 {  // ':'
                    None
                } else {
                    let j3 = sp_ws(s, j2 + 1);
                    if j3 < i || j3 > s.len() {
                        None
                    } else {
                        match sp_value_end(s, j3) {
                            None => None,
                            Some(e) => {
                                let j4 = sp_ws(s, e);
                                if j4 >= s.len() {
                                    None
                                } else if s[j4] == 125 {  // '}'
                                    Some(j4 + 1)
                                } else if s[j4] == 44 && j4 + 1 > i {  // ','
                                    sp_members_end(s, j4 + 1, false)
                                } else {
                                    None
                                }
                            },
                        }
                    }
                }
            },
        }
    }
}

/// Position just past the `]` of an array whose elements start at `i`
/// (the `[`, or the comma before this element, already consumed). `first`
/// says whether a closing bracket may stand here directly.
pub open spec fn sp_elements_end(s: Seq<u8>, i: int, first: bool) -> Option<int>
    decreases s.len() - i, 1int,
{
    let j = sp_ws(s, i);
    if j < i || j >= s.len() {
        None
    } else if s[j] == 93 {  // ']'
        if first {
            Some(j + 1)
        } else {
            None
        }
    } else {
        match sp_value_end(s, j) {
            None => None,
            Some(e) => {
                let j2 = sp_ws(s, e);
                if j2 >= s.len() {
                    None
                } else if s[j2] == 93 {  // ']'
                    Some(j2 + 1)
                } else if s[j2] == 44 && j2 + 1 > i {  // ','
                    sp_elements_end(s, j2 + 1, false)
                } else {
                    None
                }
            },
        }
    }
}

/// Skip whitespace.
pub fn skip_ws(s: &[u8], i: usize) -> (j: usize)
    requires
        i <= s@.len(),
    ensures
        j == sp_ws(s@, i as int),
        i <= j <= s@.len(),
    decreases s@.len() - i,
{
    if i < s.len() {
        let b = s[i];
        if b == 32 || b == 9 || b == 10 || b == 13 {
            return skip_ws(s, i + 1);
        }
    }
    i
}

/// Scan past the rest of a string (opening quote consumed).
pub fn skip_string(s: &[u8], i: usize) -> (r: Option<usize>)
    ensures
        r is None <==> sp_string_end(s@, i as int) is None,
        r matches Some(j) ==> sp_string_end(s@, i as int) == Some(j as int) && i < j <= s@.len(),
    decreases s@.len() - i,
{
    if i >= s.len() {
        return None;
    }
    let b = s[i];
    if b == 34 {
        return Some(i + 1);
    }
    if b == 92 {
        if s.len() - i >= 2 {
            let e = s[i + 1];
            if e == 34 || e == 92 || e == 47 || e == 98 || e == 102 || e == 110 || e == 114 || e
                == 116 {
                return skip_string(s, i + 2);
            }
        }
        if s.len() - i >= 6 && s[i + 1] == 117 && hex_digit(s[i + 2]) && hex_digit(s[i + 3])
            && hex_digit(s[i + 4]) && hex_digit(s[i + 5]) {
            return skip_string(s, i + 6);
        }
        return None;
    }
    if b >= 32 {
        return skip_string(s, i + 1);
    }
    None
}

/// Whether the byte is a hexadecimal digit.
fn hex_digit(b: u8) -> (r: bool)
    ensures
        r == is_hex(b),
{
    (48 <= b && b <= 57) || (65 <= b && b <= 70) || (97 <= b && b <= 102)
}

/// Whether the byte is a decimal digit.
fn dec_digit(b: u8) -> (r: bool)
    ensures
        r == is_digit(b),
{
    48 <= b && b <= 57
}

/// Skip decimal digits.
pub fn skip_digits(s: &[u8], i: usize) -> (j: usize)
    requires
        i <= s@.len(),
    ensures
        j == sp_digits(s@, i as int),
        i <= j <= s@.len(),
        i < s@.len() && is_digit(s@[i as int]) ==> j >= i + 1,
    decreases s@.len() - i,
{
    if i < s.len() && dec_digit(s[i]) {
        return skip_digits(s, i + 1);
    }
    i
}

/// Scan past an optional exponent part.
fn skip_exponent(s: &[u8], j: usize) -> (r: Option<usize>)
    requires
        j <= s@.len(),
    ensures
        r is None <==> sp_exponent_end(s@, j as int) is None,
        r matches Some(e) ==> sp_exponent_end(s@, j as int) == Some(e as int) && j <= e
            <= s@.len(),
{
    if j < s.len() && (s[j] == 101 || s[j] == 69) {
        let k = if j + 1 < s.len() && (s[j + 1] == 43 || s[j + 1] == 45) {
            j + 2
        } else {
            j + 1
        };
        if k < s.len() && dec_digit(s[k]) {
            Some(skip_digits(s, k))
        } else {
            None
        }
    } else {
        Some(j)
    }
}

/// Scan past a JSON number.
pub fn skip_number(s: &[u8], i: usize) -> (r: Option<usize>)
    ensures
        r is None <==> sp_number_end(s@, i as int) is None,
        r matches Some(j) ==> sp_number_end(s@, i as int) == Some(j as int) && i < j <= s@.len(),
{
    let start = if i < s.len() && s[i] == 45 {
        i + 1
    } else {
        i
    };
    if !(start < s.len() && dec_digit(s[start])) {
        return None;
    }
    let j1 = if s[start] == 48 {
        start + 1
    } else {
        skip_digits(s, start)
    };
    if j1 < s.len() && s[j1] == 46 {
        if j1 + 1 < s.len() && dec_digit(s[j1 + 1]) {
            skip_exponent(s, skip_digits(s, j1 + 1))
        } else {
            None
        }
    } else {
        skip_exponent(s, j1)
    }
}

/// Scan past a JSON value.
pub fn skip_value(s: &[u8], i: usize) -> (r: Option<usize>)
    requires
        i <= s@.len(),
    ensures
        r is None <==> sp_value_end(s@, i as int) is None,
        r matches Some(j) ==> sp_value_end(s@, i as int) == Some(j as int) && i < j <= s@.len(),
    decreases s@.len() - i, 0int,
{
    if i >= s.len() {
        return None;
    }
    let b = s[i];
    if b == 34 {
        skip_string(s, i + 1)
    } else if b == 123 {
        skip_members(s, i + 1, true)
    } else if b == 91 {
        skip_elements(s, i + 1, true)
    } else if b == 110 {
        if s.len() - i >= 4 && s[i + 1] == 117 && s[i + 2] == 108 && s[i + 3] == 108 {
            Some(i + 4)
        } else {
            None
        }
    } else if b == 116 {
        if s.len() - i >= 4 && s[i + 1] == 114 && s[i + 2] == 117 && s[i + 3] == 101 {
            Some(i + 4)
        } else {
            None
        }
    } else if b == 102 {
        if s.len() - i >= 5 && s[i + 1] == 97 && s[i + 2] == 108 && s[i + 3] == 115 && s[i + 4]
            == 101 {
            Some(i + 5)
        } else {
            None
        }
    } else if b == 45 || dec_digit(b) {
        skip_number(s, i)
    } else {
        None
    }
}

/// Scan past the remaining members and closing brace of an object.
pub fn skip_members(s: &[u8], i: usize, first: bool) -> (r: Option<usize>)
    requires
        i <= s@.len(),
    ensures
        r is None <==> sp_members_end(s@, i as int, first) is None,
        r matches Some(j) ==> sp_members_end(s@, i as int, first) == Some(j as int) && i < j
            <= s@.len(),
    decreases s@.len() - i, 1int,
{
    let j = skip_ws(s, i);
    if j >= s.len() {
        return None;
    }
    if s[j] == 125 {
        if first {
            return Some(j + 1);
        } else {
            return None;
        }
    }
    if s[j] != 34 {
        return None;
    }
    let ke = match skip_string(s, j + 1) {
        Some(k) => k,
        None => {
            return None;
        },
    };
    let j2 = skip_ws(s, ke);
    if j2 >= s.len() {
        return None;
    }
    if s[j2] != 58 {
        return None;
    }
    let j3 = skip_ws(s, j2 + 1);
    let e = match skip_value(s, j3) {
        Some(e) => e,
        None => {
            return None;
        },
    };
    let j4 = skip_ws(s, e);
    if j4 >= s.len() {
        return None;
    }
    if s[j4] == 125 {
        return Some(j4 + 1);
    }
    if s[j4] == 44 {
        return skip_members(s, j4 + 1, false);
    }
    None
}

/// Scan past the remaining elements and closing bracket of an array.
pub fn skip_elements(s: &[u8], i: usize, first: bool) -> (r: Option<usize>)
    requires
        i <= s@.len(),
    ensures
        r is None <==> sp_elements_end(s@, i as int, first) is None,
        r matches Some(j) ==> sp_elements_end(s@, i as int, first) == Some(j as int) && i < j
            <= s@.len(),
    decreases s@.len() - i, 1int,
{
    let j = skip_ws(s, i);
    if j >= s.len() {
        return None;
    }
    if s[j] == 93 {
        if first {
            return Some(j + 1);
        } else {
            return None;
        }
    }
    let e = match skip_value(s, j) {
        Some(e) => e,
        None => {
            return None;
        },
    };
    let j2 = skip_ws(s, e);
    if j2 >= s.len() {
        return None;
    }
    if s[j2] == 93 {
        return Some(j2 + 1);
    }
    if s[j2] == 44 {
        return skip_elements(s, j2 + 1, false);
    }
    None
}

} // verus!
