//! The JSON grammar, as far as the configuration reader needs it: where a
//! value ends, whether a text is one well-formed document, and where the
//! value of a member of an object begins.
//!
//! A text is a sequence of bytes and a place in it is an index.  Nothing is
//! built from the text: every function answers with places.  Values may
//! nest `MAX_DEPTH` deep; a text that nests deeper is not accepted.

use vstd::prelude::*;

verus! {

/// How deep arrays and objects may nest.
pub const MAX_DEPTH: usize = 128;

pub const QUOTE: u8 = 0x22;

pub const BACKSLASH: u8 = 0x5c;

pub const COMMA: u8 = 0x2c;

pub const COLON: u8 = 0x3a;

pub const MINUS: u8 = 0x2d;

pub const PLUS: u8 = 0x2b;

pub const DOT: u8 = 0x2e;

pub const ZERO: u8 = 0x30;

pub const OPEN_BRACE: u8 = 0x7b;

pub const CLOSE_BRACE: u8 = 0x7d;

pub const OPEN_BRACKET: u8 = 0x5b;

pub const CLOSE_BRACKET: u8 = 0x5d;

/// The byte at place `i` is `b`.
pub open spec fn byte_at(s: Seq<u8>, i: int, b: u8) -> bool {
    0 <= i < s.len() && s[i] == b
}

/// Space, tab, line feed, carriage return.
pub open spec fn is_whitespace(b: u8) -> bool {
    b == 0x20 || b == 0x09 || b == 0x0a || b == 0x0d
}

pub open spec fn is_digit(b: u8) -> bool {
    0x30 <= b <= 0x39
}

pub open spec fn is_hex_digit(b: u8) -> bool {
    is_digit(b) || (0x41 <= b <= 0x46) || (0x61 <= b <= 0x66)
}

/// There is a digit at place `i`.
pub open spec fn digit_at(s: Seq<u8>, i: int) -> bool {
    0 <= i < s.len() && is_digit(s[i])
}

/// The byte after a backslash in a two-byte escape: `" \ / b f n r t`.
pub open spec fn is_simple_escape(b: u8) -> bool {
    b == 0x22 || b == 0x5c || b == 0x2f || b == 0x62 || b == 0x66 || b == 0x6e || b == 0x72
        || b == 0x74
}

/// The character that a two-byte escape stands for.
pub open spec fn unescaped(b: u8) -> u8 {
    if b == 0x62 {
        0x08
    } else if b == 0x66 {
        0x0c
    } else if b == 0x6e {
        0x0a
    } else if b == 0x72 {
        0x0d
    } else if b == 0x74 {
        0x09
    } else {
        b
    }
}

/// Value of a hexadecimal digit.
pub open spec fn hex_value(b: u8) -> int {
    if is_digit(b) {
        b - 0x30
    } else if 0x41 <= b <= 0x46 {
        b - 0x41 + 10
    } else {
        b - 0x61 + 10
    }
}

/// There is a `\uXXXX` escape at place `i`.
pub open spec fn unicode_escape_at(s: Seq<u8>, i: int) -> bool {
    &&& 0 <= i
    &&& i + 5 < s.len()
    &&& s[i] == BACKSLASH
    &&& s[i + 1] == 0x75
    &&& is_hex_digit(s[i + 2])
    &&& is_hex_digit(s[i + 3])
    &&& is_hex_digit(s[i + 4])
    &&& is_hex_digit(s[i + 5])
}

/// There is a two-byte escape at place `i`.
pub open spec fn simple_escape_at(s: Seq<u8>, i: int) -> bool {
    0 <= i && i + 1 < s.len() && s[i] == BACKSLASH && is_simple_escape(s[i + 1])
}

/// The code unit that the `\uXXXX` escape at place `i` names.
pub open spec fn unicode_escape_value(s: Seq<u8>, i: int) -> int {
    ((hex_value(s[i + 2]) * 16 + hex_value(s[i + 3])) * 16 + hex_value(s[i + 4])) * 16
        + hex_value(s[i + 5])
}

/// The first place at or after `i` that holds no whitespace.
pub open spec fn skip_whitespace(s: Seq<u8>, i: int) -> int
    decreases s.len() - i,
{
    if 0 <= i < s.len() && is_whitespace(s[i]) {
        skip_whitespace(s, i + 1)
    } else {
        i
    }
}

/// The first place at or after `i` that holds no digit.
pub open spec fn skip_digits(s: Seq<u8>, i: int) -> int
    decreases s.len() - i,
{
    if digit_at(s, i) {
        skip_digits(s, i + 1)
    } else {
        i
    }
}

/// Where the string ends whose inside continues at `i`: the place after the
/// closing quote.  Inside a string stand escapes and any byte but a quote,
/// a backslash and the control characters.
pub open spec fn string_tail_end(s: Seq<u8>, i: int) -> Option<int>
    decreases s.len() - i,
{
    if !(0 <= i < s.len()) {
        None
    } else if s[i] == QUOTE {
        Some(i + 1)
    } else if s[i] == BACKSLASH {
        if simple_escape_at(s, i) {
            string_tail_end(s, i + 2)
        } else if unicode_escape_at(s, i) {
            string_tail_end(s, i + 6)
        } else {
            None
        }
    } else if s[i] < 0x20 {
        None
    } else {
        string_tail_end(s, i + 1)
    }
}

/// Where the string that begins at `i` ends.
pub open spec fn string_end(s: Seq<u8>, i: int) -> Option<int> {
    if byte_at(s, i, QUOTE) {
        string_tail_end(s, i + 1)
    } else {
        None
    }
}

/// The string whose inside continues at `i` spells, from there to its
/// closing quote, the bytes of `key` from `k` on.  A `\uXXXX` escape spells
/// a byte only below 0x80, so this is exact for a key of ASCII characters.
pub open spec fn string_tail_spells(s: Seq<u8>, i: int, key: Seq<u8>, k: int) -> bool
    decreases s.len() - i,
{
    if !(0 <= i < s.len()) {
        false
    } else if s[i] == QUOTE {
        k == key.len()
    } else if !(0 <= k < key.len()) {
        false
    } else if s[i] == BACKSLASH {
        if simple_escape_at(s, i) {
            key[k] == unescaped(s[i + 1]) && string_tail_spells(s, i + 2, key, k + 1)
        } else if unicode_escape_at(s, i) {
            unicode_escape_value(s, i) < 0x80 && key[k] == unicode_escape_value(s, i)
                && string_tail_spells(s, i + 6, key, k + 1)
        } else {
            false
        }
    } else if s[i] < 0x20 {
        false
    } else {
        key[k] == s[i] && string_tail_spells(s, i + 1, key, k + 1)
    }
}

/// The string that begins at `i` spells `key`.
pub open spec fn string_spells(s: Seq<u8>, i: int, key: Seq<u8>) -> bool {
    byte_at(s, i, QUOTE) && string_tail_spells(s, i + 1, key, 0)
}

/// Where the number that begins at `i` ends: an optional minus, then `0` or
/// digits that do not begin with `0`, then an optional fraction and an
/// optional exponent, each with at least one digit.
pub open spec fn number_end(s: Seq<u8>, i: int) -> Option<int> {
    let int_start = if byte_at(s, i, MINUS) {
        i + 1
    } else {
        i
    };
    if !digit_at(s, int_start) {
        None
    } else {
        let int_end = if s[int_start] == ZERO {
            int_start + 1
        } else {
            skip_digits(s, int_start)
        };
        fraction_end(s, int_end)
    }
}

/// Where a number ends whose integer part ends at `i`.
pub open spec fn fraction_end(s: Seq<u8>, i: int) -> Option<int> {
    if byte_at(s, i, DOT) {
        if digit_at(s, i + 1) {
            exponent_end(s, skip_digits(s, i + 1))
        } else {
            None
        }
    } else {
        exponent_end(s, i)
    }
}

/// Where a number ends whose integer part and fraction end at `i`.
pub open spec fn exponent_end(s: Seq<u8>, i: int) -> Option<int> {
    if byte_at(s, i, 0x65) || byte_at(s, i, 0x45) {
        let digits = if byte_at(s, i + 1, PLUS) || byte_at(s, i + 1, MINUS) {
            i + 2
        } else {
            i + 1
        };
        if digit_at(s, digits) {
            Some(skip_digits(s, digits))
        } else {
            None
        }
    } else {
        Some(i)
    }
}

/// The word `true` stands at place `i`.
pub open spec fn true_at(s: Seq<u8>, i: int) -> bool {
    byte_at(s, i, 0x74) && byte_at(s, i + 1, 0x72) && byte_at(s, i + 2, 0x75) && byte_at(
        s,
        i + 3,
        0x65,
    )
}

/// The word `false` stands at place `i`.
pub open spec fn false_at(s: Seq<u8>, i: int) -> bool {
    byte_at(s, i, 0x66) && byte_at(s, i + 1, 0x61) && byte_at(s, i + 2, 0x6c) && byte_at(
        s,
        i + 3,
        0x73,
    ) && byte_at(s, i + 4, 0x65)
}

/// The word `null` stands at place `i`.
pub open spec fn null_at(s: Seq<u8>, i: int) -> bool {
    byte_at(s, i, 0x6e) && byte_at(s, i + 1, 0x75) && byte_at(s, i + 2, 0x6c) && byte_at(
        s,
        i + 3,
        0x6c,
    )
}

/// What a walk over the members of an object found.
pub struct MemberScan {
    /// The place after the closing brace.
    pub end: int,
    /// Where the value of the last member with the wanted name begins.
    pub found: Option<int>,
}

/// Where the value that begins at `i` ends, if it is well formed and nests
/// no deeper than `depth`.
pub open spec fn value_end(s: Seq<u8>, i: int, depth: nat) -> Option<int>
    decreases depth, 0nat, s.len() - i,
{
    if !(0 <= i < s.len()) {
        None
    } else if s[i] == OPEN_BRACE {
        if depth == 0 {
            None
        } else {
            match members_scan(
                s,
                skip_whitespace(s, i + 1),
                (depth - 1) as nat,
                true,
                Seq::empty(),
                None,
            ) {
                Some(scan) => Some(scan.end),
                None => None,
            }
        }
    } else if s[i] == OPEN_BRACKET {
        if depth == 0 {
            None
        } else {
            elements_end(s, skip_whitespace(s, i + 1), (depth - 1) as nat, true)
        }
    } else if s[i] == QUOTE {
        string_end(s, i)
    } else if s[i] == 0x74 {
        if true_at(s, i) {
            Some(i + 4)
        } else {
            None
        }
    } else if s[i] == 0x66 {
        if false_at(s, i) {
            Some(i + 5)
        } else {
            None
        }
    } else if s[i] == 0x6e {
        if null_at(s, i) {
            Some(i + 4)
        } else {
            None
        }
    } else {
        number_end(s, i)
    }
}

/// Where the array ends whose next element begins at `i`: the place after
/// the closing bracket.  `first` says that no element was read yet, so that
/// the bracket may close at once.
pub open spec fn elements_end(s: Seq<u8>, i: int, depth: nat, first: bool) -> Option<int>
    decreases depth, 1nat, s.len() - i,
{
    if first && byte_at(s, i, CLOSE_BRACKET) {
        Some(i + 1)
    } else {
        match value_end(s, i, depth) {
            None => None,
            Some(end) => {
                let after = skip_whitespace(s, end);
                if byte_at(s, after, CLOSE_BRACKET) {
                    Some(after + 1)
                } else if byte_at(s, after, COMMA) {
                    let next = skip_whitespace(s, after + 1);
                    if i < next <= s.len() {
                        elements_end(s, next, depth, false)
                    } else {
                        None
                    }
                } else {
                    None
                }
            },
        }
    }
}

/// Walks the object whose next member begins at `i`, to the place after
/// the closing brace, and notes where the value of the last member named
/// `key` begins; `found` is what was noted before `i`.  `first` says that
/// no member was read yet, so that the brace may close at once.
pub open spec fn members_scan(
    s: Seq<u8>,
    i: int,
    depth: nat,
    first: bool,
    key: Seq<u8>,
    found: Option<int>,
) -> Option<MemberScan>
    decreases depth, 1nat, s.len() - i,
{
    if first && byte_at(s, i, CLOSE_BRACE) {
        Some(MemberScan { end: i + 1, found })
    } else {
        match string_end(s, i) {
            None => None,
            Some(name_end) => {
                let colon = skip_whitespace(s, name_end);
                if !byte_at(s, colon, COLON) {
                    None
                } else {
                    let value = skip_whitespace(s, colon + 1);
                    match value_end(s, value, depth) {
                        None => None,
                        Some(end) => {
                            let noted = if string_spells(s, i, key) {
                                Some(value)
                            } else {
                                found
                            };
                            let after = skip_whitespace(s, end);
                            if byte_at(s, after, CLOSE_BRACE) {
                                Some(MemberScan { end: after + 1, found: noted })
                            } else if byte_at(s, after, COMMA) {
                                let next = skip_whitespace(s, after + 1);
                                if i < next <= s.len() {
                                    members_scan(s, next, depth, false, key, noted)
                                } else {
                                    None
                                }
                            } else {
                                None
                            }
                        },
                    }
                }
            },
        }
    }
}

/// The text is one value, with nothing but whitespace before and after it.
pub open spec fn is_document(s: Seq<u8>) -> bool {
    match value_end(s, skip_whitespace(s, 0), MAX_DEPTH as nat) {
        Some(end) => skip_whitespace(s, end) == s.len(),
        None => false,
    }
}

/// Where the value of the last member named `key` begins, in the object
/// that begins at `i` and may nest `depth` deep.  `None` if no object
/// begins there, if it is not well formed, or if it has no such member.
pub open spec fn member_value(s: Seq<u8>, i: int, depth: nat, key: Seq<u8>) -> Option<int> {
    if byte_at(s, i, OPEN_BRACE) && depth > 0 {
        match members_scan(s, skip_whitespace(s, i + 1), (depth - 1) as nat, true, key, None) {
            Some(scan) => scan.found,
            None => None,
        }
    } else {
        None
    }
}

} // verus!
