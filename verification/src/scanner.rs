//! Scanning a text by the grammar of `json`: each function here computes
//! what the spec function of the same purpose defines.

use crate::json::{
    byte_at, digit_at, elements_end, exponent_end, false_at, fraction_end, is_digit,
    is_document, is_hex_digit, is_simple_escape, is_whitespace, member_value, members_scan,
    null_at,
    number_end, simple_escape_at, skip_digits, skip_whitespace, string_end, string_spells,
    string_tail_end, string_tail_spells, true_at, unescaped, unicode_escape_at,
    unicode_escape_value, value_end, hex_value, MemberScan, BACKSLASH, CLOSE_BRACE,
    CLOSE_BRACKET, COLON, COMMA, DOT, MAX_DEPTH, MINUS, OPEN_BRACE, OPEN_BRACKET, PLUS, QUOTE,
    ZERO,
};
use vstd::prelude::*;

verus! {

/// A place found by a scan, as a mathematical integer.
pub open spec fn place(found: Option<usize>) -> Option<int> {
    match found {
        Some(at) => Some(at as int),
        None => None,
    }
}

fn whitespace(b: u8) -> (yes: bool)
    ensures
        yes == is_whitespace(b),
{
    b == 0x20 || b == 0x09 || b == 0x0a || b == 0x0d
}

fn digit(b: u8) -> (yes: bool)
    ensures
        yes == is_digit(b),
{
    0x30 <= b && b <= 0x39
}

fn hex_digit(b: u8) -> (yes: bool)
    ensures
        yes == is_hex_digit(b),
{
    digit(b) || (0x41 <= b && b <= 0x46) || (0x61 <= b && b <= 0x66)
}

fn simple_escape(b: u8) -> (yes: bool)
    ensures
        yes == is_simple_escape(b),
{
    b == 0x22 || b == 0x5c || b == 0x2f || b == 0x62 || b == 0x66 || b == 0x6e || b == 0x72
        || b == 0x74
}

fn has_byte(s: &[u8], i: usize, b: u8) -> (yes: bool)
    ensures
        yes == byte_at(s@, i as int, b),
{
    i < s.len() && s[i] == b
}

fn has_digit(s: &[u8], i: usize) -> (yes: bool)
    ensures
        yes == digit_at(s@, i as int),
{
    i < s.len() && digit(s[i])
}

/// The first place at or after `i` that holds no whitespace.
pub fn after_whitespace(s: &[u8], i: usize) -> (next: usize)
    ensures
        next == skip_whitespace(s@, i as int),
        i <= next,
        i <= s.len() ==> next <= s.len(),
{
    let mut j: usize = i;
    while j < s.len() && whitespace(s[j])
        invariant
            i <= j,
            i <= s.len() ==> j <= s.len(),
            skip_whitespace(s@, i as int) == skip_whitespace(s@, j as int),
        decreases s.len() - j,
    {
        j = j + 1;
    }
    j
}

/// The first place at or after `i` that holds no digit.
pub fn after_digits(s: &[u8], i: usize) -> (next: usize)
    ensures
        next == skip_digits(s@, i as int),
        i <= next,
        i <= s.len() ==> next <= s.len(),
{
    let mut j: usize = i;
    while j < s.len() && digit(s[j])
        invariant
            i <= j,
            i <= s.len() ==> j <= s.len(),
            skip_digits(s@, i as int) == skip_digits(s@, j as int),
        decreases s.len() - j,
    {
        j = j + 1;
    }
    j
}

fn has_simple_escape(s: &[u8], i: usize) -> (yes: bool)
    ensures
        yes == simple_escape_at(s@, i as int),
{
    i < s.len() && s.len() - i > 1 && s[i] == BACKSLASH && simple_escape(s[i + 1])
}

fn has_unicode_escape(s: &[u8], i: usize) -> (yes: bool)
    ensures
        yes == unicode_escape_at(s@, i as int),
{
    i < s.len() && s.len() - i > 5 && s[i] == BACKSLASH && s[i + 1] == 0x75 && hex_digit(
        s[i + 2],
    ) && hex_digit(s[i + 3]) && hex_digit(s[i + 4]) && hex_digit(s[i + 5])
}

/// Where the string that begins at `i` ends.
pub fn end_of_string(s: &[u8], i: usize) -> (end: Option<usize>)
    ensures
        place(end) == string_end(s@, i as int),
        end matches Some(e) ==> i < e <= s.len(),
{
    if i >= s.len() || s[i] != QUOTE {
        return None;
    }
    let mut j: usize = i + 1;
    loop
        invariant
            i < j <= s.len(),
            string_end(s@, i as int) == string_tail_end(s@, j as int),
        decreases s.len() - j,
    {
        if j >= s.len() {
            return None;
        }
        let b = s[j];
        if b == QUOTE {
            return Some(j + 1);
        } else if b == BACKSLASH {
            if has_simple_escape(s, j) {
                j = j + 2;
            } else if has_unicode_escape(s, j) {
                j = j + 6;
            } else {
                return None;
            }
        } else if b < 0x20 {
            return None;
        } else {
            j = j + 1;
        }
    }
}

fn hex_digit_value(b: u8) -> (value: u32)
    requires
        is_hex_digit(b),
    ensures
        value == hex_value(b),
        value < 16,
{
    if digit(b) {
        (b - 0x30) as u32
    } else if 0x41 <= b && b <= 0x46 {
        (b - 0x41 + 10) as u32
    } else {
        (b - 0x61 + 10) as u32
    }
}

fn unicode_escape(s: &[u8], i: usize) -> (value: u32)
    requires
        unicode_escape_at(s@, i as int),
    ensures
        value == unicode_escape_value(s@, i as int),
{
    assert(i + 5 < s.len());
    let a = hex_digit_value(s[i + 2]);
    let b = hex_digit_value(s[i + 3]);
    let c = hex_digit_value(s[i + 4]);
    let d = hex_digit_value(s[i + 5]);
    ((a * 16 + b) * 16 + c) * 16 + d
}

fn unescape(b: u8) -> (c: u8)
    ensures
        c == unescaped(b),
{
    if b == 0x62 {
        0x08
    } else if b == 0x66 {
        0x0c
    } else if b == 0x6e {
        0x0a
    } else if b == 0x72 {
        0x0d
    } else if b == 0x74 {
        0x09
    } else {
        b
    }
}

/// Whether the string that begins at `i` spells `key`.
pub fn string_is(s: &[u8], i: usize, key: &[u8]) -> (yes: bool)
    ensures
        yes == string_spells(s@, i as int, key@),
{
    if i >= s.len() || s[i] != QUOTE {
        return false;
    }
    let mut j: usize = i + 1;
    let mut k: usize = 0;
    loop
        invariant
            i < j <= s.len(),
            k <= key.len(),
            string_spells(s@, i as int, key@) == string_tail_spells(s@, j as int, key@, k as int),
        decreases s.len() - j,
    {
        if j >= s.len() {
            return false;
        }
        let b = s[j];
        if b == QUOTE {
            return k == key.len();
        } else if k >= key.len() {
            return false;
        } else if b == BACKSLASH {
            if has_simple_escape(s, j) {
                if key[k] != unescape(s[j + 1]) {
                    return false;
                }
                j = j + 2;
                k = k + 1;
            } else if has_unicode_escape(s, j) {
                let unit = unicode_escape(s, j);
                if unit >= 0x80 || key[k] as u32 != unit {
                    return false;
                }
                j = j + 6;
                k = k + 1;
            } else {
                return false;
            }
        } else if b < 0x20 {
            return false;
        } else {
            if key[k] != b {
                return false;
            }
            j = j + 1;
            k = k + 1;
        }
    }
}

fn end_of_exponent(s: &[u8], i: usize) -> (end: Option<usize>)
    requires
        i <= s.len(),
    ensures
        place(end) == exponent_end(s@, i as int),
        end matches Some(e) ==> i <= e <= s.len(),
{
    if has_byte(s, i, 0x65) || has_byte(s, i, 0x45) {
        let digits: usize = if has_byte(s, i + 1, PLUS) || has_byte(s, i + 1, MINUS) {
            i + 2
        } else {
            i + 1
        };
        if has_digit(s, digits) {
            Some(after_digits(s, digits))
        } else {
            None
        }
    } else {
        Some(i)
    }
}

fn end_of_fraction(s: &[u8], i: usize) -> (end: Option<usize>)
    requires
        i <= s.len(),
    ensures
        place(end) == fraction_end(s@, i as int),
        end matches Some(e) ==> i <= e <= s.len(),
{
    if has_byte(s, i, DOT) {
        if has_digit(s, i + 1) {
            end_of_exponent(s, after_digits(s, i + 1))
        } else {
            None
        }
    } else {
        end_of_exponent(s, i)
    }
}

/// Where the number that begins at `i` ends.
pub fn end_of_number(s: &[u8], i: usize) -> (end: Option<usize>)
    ensures
        place(end) == number_end(s@, i as int),
        end matches Some(e) ==> i < e <= s.len(),
{
    let int_start: usize = if has_byte(s, i, MINUS) {
        i + 1
    } else {
        i
    };
    if !has_digit(s, int_start) {
        None
    } else {
        let int_end: usize = if s[int_start] == ZERO {
            int_start + 1
        } else {
            after_digits(s, int_start + 1)
        };
        end_of_fraction(s, int_end)
    }
}

/// What a walk over the members of an object found.
pub struct Members {
    /// The place after the closing brace.
    pub end: usize,
    /// Where the value of the last member with the wanted name begins.
    pub found: Option<usize>,
}

impl View for Members {
    type V = MemberScan;

    open spec fn view(&self) -> MemberScan {
        MemberScan { end: self.end as int, found: place(self.found) }
    }
}

/// The result of a walk, as the grammar states it.
pub open spec fn walked(members: Option<Members>) -> Option<MemberScan> {
    match members {
        Some(m) => Some(m@),
        None => None,
    }
}

fn has_true(s: &[u8], i: usize) -> (yes: bool)
    ensures
        yes == true_at(s@, i as int),
{
    i < s.len() && s.len() - i > 3 && s[i] == 0x74 && s[i + 1] == 0x72 && s[i + 2] == 0x75
        && s[i + 3] == 0x65
}

fn has_false(s: &[u8], i: usize) -> (yes: bool)
    ensures
        yes == false_at(s@, i as int),
{
    i < s.len() && s.len() - i > 4 && s[i] == 0x66 && s[i + 1] == 0x61 && s[i + 2] == 0x6c
        && s[i + 3] == 0x73 && s[i + 4] == 0x65
}

fn has_null(s: &[u8], i: usize) -> (yes: bool)
    ensures
        yes == null_at(s@, i as int),
{
    i < s.len() && s.len() - i > 3 && s[i] == 0x6e && s[i + 1] == 0x75 && s[i + 2] == 0x6c
        && s[i + 3] == 0x6c
}

/// Where the value that begins at `i` ends, if it is well formed and nests
/// no deeper than `depth`.
pub fn end_of_value(s: &[u8], i: usize, depth: usize) -> (end: Option<usize>)
    ensures
        place(end) == value_end(s@, i as int, depth as nat),
        end matches Some(e) ==> i < e <= s.len(),
    decreases depth, 0nat,
{
    if i >= s.len() {
        return None;
    }
    let b = s[i];
    if b == OPEN_BRACE {
        if depth == 0 {
            None
        } else {
            let empty: Vec<u8> = Vec::new();
            let first = after_whitespace(s, i + 1);
            match walk_members(s, first, depth - 1, empty.as_slice()) {
                Some(members) => Some(members.end),
                None => None,
            }
        }
    } else if b == OPEN_BRACKET {
        if depth == 0 {
            None
        } else {
            let first = after_whitespace(s, i + 1);
            end_of_elements(s, first, depth - 1)
        }
    } else if b == QUOTE {
        end_of_string(s, i)
    } else if b == 0x74 {
        if has_true(s, i) {
            Some(i + 4)
        } else {
            None
        }
    } else if b == 0x66 {
        if has_false(s, i) {
            Some(i + 5)
        } else {
            None
        }
    } else if b == 0x6e {
        if has_null(s, i) {
            Some(i + 4)
        } else {
            None
        }
    } else {
        end_of_number(s, i)
    }
}

/// Where the array ends whose first element, or closing bracket, stands at `i`.
pub fn end_of_elements(s: &[u8], i: usize, depth: usize) -> (end: Option<usize>)
    ensures
        place(end) == elements_end(s@, i as int, depth as nat, true),
        end matches Some(e) ==> i < e <= s.len(),
    decreases depth, 1nat,
{
    let mut at: usize = i;
    let mut first = true;
    loop
        invariant
            i <= at,
            i <= s.len() ==> at <= s.len(),
            elements_end(s@, i as int, depth as nat, true) == elements_end(
                s@,
                at as int,
                depth as nat,
                first,
            ),
        decreases s.len() - at,
    {
        if first && has_byte(s, at, CLOSE_BRACKET) {
            return Some(at + 1);
        }
        match end_of_value(s, at, depth) {
            None => {
                return None;
            },
            Some(end) => {
                let after = after_whitespace(s, end);
                if has_byte(s, after, CLOSE_BRACKET) {
                    return Some(after + 1);
                } else if has_byte(s, after, COMMA) {
                    at = after_whitespace(s, after + 1);
                    first = false;
                } else {
                    return None;
                }
            },
        }
    }
}

/// Walks the object whose first member, or closing brace, stands at `i`,
/// and notes where the value of the last member named `key` begins.
pub fn walk_members(s: &[u8], i: usize, depth: usize, key: &[u8]) -> (members: Option<Members>)
    ensures
        walked(members) == members_scan(s@, i as int, depth as nat, true, key@, None),
        members matches Some(m) ==> {
            &&& i < m.end <= s.len()
            &&& m.found matches Some(v) ==> i < v < m.end
        },
    decreases depth, 1nat,
{
    let mut at: usize = i;
    let mut first = true;
    let mut found: Option<usize> = None;
    loop
        invariant
            i <= at,
            i <= s.len() ==> at <= s.len(),
            found matches Some(v) ==> i < v < at,
            members_scan(s@, i as int, depth as nat, true, key@, None) == members_scan(
                s@,
                at as int,
                depth as nat,
                first,
                key@,
                place(found),
            ),
        decreases s.len() - at,
    {
        if first && has_byte(s, at, CLOSE_BRACE) {
            return Some(Members { end: at + 1, found });
        }
        let name_end = match end_of_string(s, at) {
            None => {
                return None;
            },
            Some(name_end) => name_end,
        };
        let colon = after_whitespace(s, name_end);
        if !has_byte(s, colon, COLON) {
            return None;
        }
        let value = after_whitespace(s, colon + 1);
        let end = match end_of_value(s, value, depth) {
            None => {
                return None;
            },
            Some(end) => end,
        };
        if string_is(s, at, key) {
            found = Some(value);
        }
        let after = after_whitespace(s, end);
        if has_byte(s, after, CLOSE_BRACE) {
            return Some(Members { end: after + 1, found });
        } else if has_byte(s, after, COMMA) {
            at = after_whitespace(s, after + 1);
            first = false;
        } else {
            return None;
        }
    }
}

/// Whether the text is one well-formed JSON value, with nothing but
/// whitespace around it, nested no deeper than `MAX_DEPTH`.
pub fn is_json_document(s: &[u8]) -> (yes: bool)
    ensures
        yes == is_document(s@),
{
    let start = after_whitespace(s, 0);
    match end_of_value(s, start, MAX_DEPTH) {
        Some(end) => after_whitespace(s, end) == s.len(),
        None => false,
    }
}

/// Where the value of the last member named `key` begins, in the object
/// that begins at `i` and may nest `depth` deep.
pub fn value_of_member(s: &[u8], i: usize, depth: usize, key: &[u8]) -> (value: Option<usize>)
    ensures
        place(value) == member_value(s@, i as int, depth as nat, key@),
        value matches Some(v) ==> i < v < s.len(),
{
    if i < s.len() && s[i] == OPEN_BRACE && depth > 0 {
        let first = after_whitespace(s, i + 1);
        match walk_members(s, first, depth - 1, key) {
            Some(members) => members.found,
            None => None,
        }
    } else {
        None
    }
}

} // verus!
