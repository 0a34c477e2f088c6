//! Reading the API port out of the configuration text.
//!
//! The configuration is a JSON document whose top-level object may hold an
//! object `ports` with a member `api`, the port as a plain integer:
//! `{"ports": {"api": 9090}}`.  Where a name occurs twice in an object, the
//! last occurrence counts.

use crate::json::{
    digit_at, exponent_end, fraction_end, is_digit, is_document, member_value, members_scan,
    number_end, skip_digits, skip_whitespace, string_end, string_spells, string_tail_end,
    string_tail_spells, value_end, MemberScan, MAX_DEPTH,
};
use crate::scanner::{after_whitespace, end_of_number, is_json_document, value_of_member};
use vstd::prelude::*;

verus! {

/// The name `ports`.
pub open spec fn ports_key() -> Seq<u8> {
    seq![0x70u8, 0x6fu8, 0x72u8, 0x74u8, 0x73u8]
}

/// The name `api`.
pub open spec fn api_key() -> Seq<u8> {
    seq![0x61u8, 0x70u8, 0x69u8]
}

/// The number that the decimal digits from place `from` up to place `to`
/// spell.
pub open spec fn digits_value(s: Seq<u8>, from: int, to: int) -> int
    decreases to - from,
{
    if to <= from {
        0
    } else {
        digits_value(s, from, to - 1) * 10 + (s[to - 1] - 0x30)
    }
}

/// The port that the value at place `i` names: a number written with
/// digits alone (no sign, fraction or exponent) from 1 to 65535.
pub open spec fn port_at(s: Seq<u8>, i: int) -> Option<u16> {
    let end = skip_digits(s, i);
    if digit_at(s, i) && number_end(s, i) == Some(end) && 1 <= digits_value(s, i, end) <= 65535 {
        Some(digits_value(s, i, end) as u16)
    } else {
        None
    }
}

/// The API port that a configuration text sets, if it sets one.
pub open spec fn api_port_in(s: Seq<u8>) -> Option<u16> {
    if !is_document(s) {
        None
    } else {
        match member_value(s, skip_whitespace(s, 0), MAX_DEPTH as nat, ports_key()) {
            None => None,
            Some(ports) => match member_value(s, ports, (MAX_DEPTH - 1) as nat, api_key()) {
                None => None,
                Some(api) => port_at(s, api),
            },
        }
    }
}

/// Over a run of digits the number spelled so far only grows.
proof fn lemma_digits_value_grows(s: Seq<u8>, from: int, to: int)
    requires
        0 <= from <= to,
        digits_value(s, from, to) >= 0,
    ensures
        digits_value(s, from, to) <= digits_value(s, from, skip_digits(s, to)),
        to <= skip_digits(s, to),
    decreases s.len() - to,
{
    if digit_at(s, to) {
        assert(digits_value(s, from, to + 1) == digits_value(s, from, to) * 10 + (s[to] - 0x30));
        lemma_digits_value_grows(s, from, to + 1);
    }
}

fn port_literal(s: &[u8], i: usize) -> (port: Option<u16>)
    ensures
        port == port_at(s@, i as int),
{
    if i >= s.len() || !(0x30 <= s[i] && s[i] <= 0x39) {
        return None;
    }
    let mut value: u32 = 0;
    let mut j: usize = i;
    while j < s.len() && 0x30 <= s[j] && s[j] <= 0x39
        invariant
            i <= j <= s.len(),
            skip_digits(s@, i as int) == skip_digits(s@, j as int),
            value == digits_value(s@, i as int, j as int),
            value <= 65535,
        decreases s.len() - j,
    {
        let digit: u32 = (s[j] - 0x30) as u32;
        let next: u32 = value * 10 + digit;
        assert(next == digits_value(s@, i as int, j + 1));
        if next > 65535 {
            proof {
                lemma_digits_value_grows(s@, i as int, j + 1);
            }
            return None;
        }
        value = next;
        j = j + 1;
    }
    match end_of_number(s, i) {
        Some(end) => if end == j && value >= 1 {
            Some(value as u16)
        } else {
            None
        },
        None => None,
    }
}

/// The API port that a configuration text sets: `None` unless the text is
/// a well-formed JSON document whose top-level object holds an object
/// `ports` with an integer member `api` from 1 to 65535.
pub fn api_port(text: &[u8]) -> (port: Option<u16>)
    ensures
        port == api_port_in(text@),
{
    if !is_json_document(text) {
        return None;
    }
    let top = after_whitespace(text, 0);
    let ports_name: [u8; 5] = [0x70, 0x6f, 0x72, 0x74, 0x73];
    let api_name: [u8; 3] = [0x61, 0x70, 0x69];
    assert(ports_name@ =~= ports_key());
    assert(api_name@ =~= api_key());
    match value_of_member(text, top, MAX_DEPTH, ports_name.as_slice()) {
        None => None,
        Some(ports) => match value_of_member(text, ports, MAX_DEPTH - 1, api_name.as_slice()) {
            None => None,
            Some(api) => port_literal(text, api),
        },
    }
}

/// Name of the configuration file in the host's application-data directory.
pub fn config_file_name() -> (name: &'static str)
    ensures
        name@ == "config.json"@,
{
    "config.json"
}

/// A number in decimal digits, as bytes, without leading zeros.
pub open spec fn decimal_bytes(n: nat) -> Seq<u8>
    decreases n,
{
    if n < 10 {
        seq![(0x30 + n) as u8]
    } else {
        decimal_bytes(n / 10).push((0x30 + n % 10) as u8)
    }
}

/// The configuration text `{"ports":{"api":N}}` for a port `N`.
pub open spec fn plain_config(port: u16) -> Seq<u8> {
    seq![
        0x7bu8, 0x22u8, 0x70u8, 0x6fu8, 0x72u8, 0x74u8, 0x73u8, 0x22u8, 0x3au8, 0x7bu8, 0x22u8,
        0x61u8, 0x70u8, 0x69u8, 0x22u8, 0x3au8,
    ] + decimal_bytes(port as nat) + seq![0x7du8, 0x7du8]
}

proof fn lemma_digits_value_of_subrange(s: Seq<u8>, from: int, to: int, d: Seq<u8>)
    requires
        0 <= from <= to <= s.len(),
        s.subrange(from, to) == d,
    ensures
        digits_value(s, from, to) == digits_value(d, 0, d.len() as int),
    decreases to - from,
{
    if from < to {
        assert(s.subrange(from, to - 1) =~= d.drop_last());
        lemma_digits_value_of_subrange(s, from, to - 1, d.drop_last());
        lemma_digits_value_of_subrange(d, 0, d.len() - 1, d.drop_last());
        assert(s[to - 1] == d[d.len() - 1]);
    }
}

proof fn lemma_decimal_bytes(n: nat)
    ensures
        decimal_bytes(n).len() >= 1,
        forall|k: int| 0 <= k < decimal_bytes(n).len() ==> is_digit(#[trigger] decimal_bytes(n)[k]),
        n >= 1 ==> decimal_bytes(n)[0] != 0x30,
        digits_value(decimal_bytes(n), 0, decimal_bytes(n).len() as int) == n,
    decreases n,
{
    let d = decimal_bytes(n);
    if n < 10 {
        assert(digits_value(d, 0, 0) == 0);
        assert(digits_value(d, 0, 1) == digits_value(d, 0, 0) * 10 + (d[0] - 0x30));
    } else {
        let front = decimal_bytes(n / 10);
        lemma_decimal_bytes(n / 10);
        assert(d.drop_last() =~= front);
        lemma_digits_value_of_subrange(d, 0, d.len() - 1, front);
        assert(d.subrange(0, d.len() - 1) =~= front);
        assert forall|k: int| 0 <= k < d.len() implies is_digit(#[trigger] d[k]) by {
            if k < front.len() {
                assert(d[k] == front[k]);
            }
        }
        assert(d[0] == front[0]);
    }
}

proof fn lemma_skip_digits_run(s: Seq<u8>, from: int, to: int)
    requires
        0 <= from <= to <= s.len(),
        forall|k: int| from <= k < to ==> is_digit(#[trigger] s[k]),
        !digit_at(s, to),
    ensures
        skip_digits(s, from) == to,
    decreases to - from,
{
    if from < to {
        lemma_skip_digits_run(s, from + 1, to);
    }
}

/// What the plain configuration text looks like, byte by byte, with `n`
/// digits.
spec fn is_plain_config(s: Seq<u8>, n: int) -> bool {
    &&& n >= 1
    &&& s.len() == 18 + n
    &&& s[0] == 0x7b && s[1] == 0x22 && s[2] == 0x70 && s[3] == 0x6f && s[4] == 0x72
    &&& s[5] == 0x74 && s[6] == 0x73 && s[7] == 0x22 && s[8] == 0x3a && s[9] == 0x7b
    &&& s[10] == 0x22 && s[11] == 0x61 && s[12] == 0x70 && s[13] == 0x69 && s[14] == 0x22
    &&& s[15] == 0x3a
    &&& forall|k: int| 16 <= k < 16 + n ==> is_digit(#[trigger] s[k])
    &&& s[16] != 0x30
    &&& s[16 + n] == 0x7d
    &&& s[17 + n] == 0x7d
}

proof fn lemma_plain_config_bytes(port: u16)
    requires
        port >= 1,
    ensures
        is_plain_config(plain_config(port), decimal_bytes(port as nat).len() as int),
        digits_value(plain_config(port), 16, 16 + decimal_bytes(port as nat).len() as int) == port,
{
    let s = plain_config(port);
    let d = decimal_bytes(port as nat);
    let n = d.len() as int;
    lemma_decimal_bytes(port as nat);
    assert forall|k: int| 16 <= k < 16 + n implies is_digit(#[trigger] s[k]) by {
        assert(s[k] == d[k - 16]);
    }
    assert(s[16] == d[0]);
    assert(s.subrange(16, 16 + n) =~= d);
    lemma_digits_value_of_subrange(s, 16, 16 + n, d);
}

proof fn lemma_plain_config_number(s: Seq<u8>, n: int)
    requires
        is_plain_config(s, n),
    ensures
        skip_digits(s, 16) == 16 + n,
        number_end(s, 16) == Some(16 + n),
        value_end(s, 16, 126) == Some(16 + n),
{
    lemma_skip_digits_run(s, 16, 16 + n);
    assert(is_digit(s[16]));
    assert(exponent_end(s, 16 + n) == Some(16 + n));
    assert(fraction_end(s, 16 + n) == Some(16 + n));
}

proof fn lemma_plain_config_names(s: Seq<u8>, n: int)
    requires
        is_plain_config(s, n),
    ensures
        string_end(s, 1) == Some(8int),
        string_end(s, 10) == Some(15int),
        string_spells(s, 1, ports_key()),
        string_spells(s, 10, api_key()),
        !string_spells(s, 1, Seq::<u8>::empty()),
        !string_spells(s, 10, Seq::<u8>::empty()),
{
    reveal_with_fuel(string_tail_end, 7);
    reveal_with_fuel(string_tail_spells, 7);
}

proof fn lemma_plain_config_inner(s: Seq<u8>, n: int, key: Seq<u8>)
    requires
        is_plain_config(s, n),
    ensures
        members_scan(s, 10, 126, true, key, None) == Some(
            MemberScan {
                end: 17 + n,
                found: if string_spells(s, 10, key) {
                    Some(16int)
                } else {
                    None
                },
            },
        ),
{
    lemma_plain_config_number(s, n);
    lemma_plain_config_names(s, n);
    assert(skip_whitespace(s, 15) == 15);
    assert(skip_whitespace(s, 16) == 16);
    assert(skip_whitespace(s, 16 + n) == 16 + n);
}

proof fn lemma_plain_config_outer(s: Seq<u8>, n: int, key: Seq<u8>)
    requires
        is_plain_config(s, n),
    ensures
        members_scan(s, 1, 127, true, key, None) == Some(
            MemberScan {
                end: 18 + n,
                found: if string_spells(s, 1, key) {
                    Some(9int)
                } else {
                    None
                },
            },
        ),
{
    lemma_plain_config_names(s, n);
    lemma_plain_config_inner(s, n, Seq::<u8>::empty());
    assert(skip_whitespace(s, 8) == 8);
    assert(skip_whitespace(s, 9) == 9);
    assert(skip_whitespace(s, 10) == 10);
    assert(skip_whitespace(s, 17 + n) == 17 + n);
    assert(value_end(s, 9, 127) == Some(17 + n));
}

/// The plain configuration text for a port sets that port: for every port
/// from 1 on, `{"ports":{"api":N}}` is read as `N`.
pub proof fn lemma_plain_config_sets_port(port: u16)
    requires
        port >= 1,
    ensures
        api_port_in(plain_config(port)) == Some(port),
{
    let s = plain_config(port);
    let n = decimal_bytes(port as nat).len() as int;
    lemma_plain_config_bytes(port);
    lemma_plain_config_number(s, n);
    lemma_plain_config_names(s, n);
    lemma_plain_config_inner(s, n, api_key());
    lemma_plain_config_outer(s, n, ports_key());
    lemma_plain_config_outer(s, n, Seq::<u8>::empty());
    assert(skip_whitespace(s, 0) == 0);
    assert(skip_whitespace(s, 1) == 1);
    assert(skip_whitespace(s, 10) == 10);
    assert(skip_whitespace(s, 18 + n) == 18 + n);
    assert(value_end(s, 0, 128) == Some(18 + n));
    assert(is_document(s));
    assert(member_value(s, 0, 128, ports_key()) == Some(9int));
    assert(member_value(s, 9, 127, api_key()) == Some(16int));
    assert(port_at(s, 16) == Some(port));
}

} // verus!
