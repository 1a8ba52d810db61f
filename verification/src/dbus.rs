//! Encoding of unit names into D-Bus object paths: every character other
//! than an ASCII letter, digit, `/` or `_` is written as `_` followed by
//! the lowercase hex digits of its code point.

use vstd::prelude::*;
use vstd::string::StrSliceExecFns;
use vstd::string::StringExecFns;
use crate::strings::string_from_chars;

verus! {

/// Characters that the encoding passes through unchanged.
pub open spec fn is_plain_char(c: char) -> bool {
    (('a' as u32) <= (c as u32) && (c as u32) <= ('z' as u32)) || (('A' as u32) <= (c as u32) && (c
        as u32) <= ('Z' as u32)) || (('0' as u32) <= (c as u32) && (c as u32) <= ('9' as u32)) || c
        == '/' || c == '_'
}

/// The lowercase hex digit for a value below 16.
pub open spec fn hex_digit(d: nat) -> char
    recommends
        d < 16,
{
    if d < 10 {
        ((48 + d) as u8) as char
    } else {
        ((87 + d) as u8) as char
    }
}

/// The lowercase hex digits of `n`, most significant first, no padding.
pub open spec fn hex_of(n: nat) -> Seq<char>
    decreases n,
{
    if n < 16 {
        seq![hex_digit(n)]
    } else {
        hex_of(n / 16).push(hex_digit(n % 16))
    }
}

/// How one character is encoded.
pub open spec fn encoded_char(c: char) -> Seq<char> {
    if is_plain_char(c) {
        seq![c]
    } else {
        seq!['_'] + hex_of((c as u32) as nat)
    }
}

/// The whole encoding, character by character.
pub open spec fn dbus_encoded(s: Seq<char>) -> Seq<char>
    decreases s.len(),
{
    if s.len() == 0 {
        Seq::empty()
    } else {
        dbus_encoded(s.drop_last()) + encoded_char(s.last())
    }
}

fn exec_is_plain_char(c: char) -> (r: bool)
    ensures
        r == is_plain_char(c),
{
    let v = c as u32;
    (('a' as u32) <= v && v <= ('z' as u32)) || (('A' as u32) <= v && v <= ('Z' as u32)) || (('0'
        as u32) <= v && v <= ('9' as u32)) || c == '/' || c == '_'
}

fn exec_hex_digit(d: u32) -> (r: char)
    requires
        d < 16,
    ensures
        r == hex_digit(d as nat),
{
    if d < 10 {
        ((48 + d) as u8) as char
    } else {
        ((87 + d) as u8) as char
    }
}

/// Appends the hex digits of `n`, most significant first.
fn push_hex(out: &mut Vec<char>, n: u32)
    ensures
        final(out)@ == old(out)@ + hex_of(n as nat),
{
    let mut digits: Vec<char> = Vec::new();
    let mut m = n;
    while m >= 16
        invariant
            hex_of(n as nat) =~= hex_of(m as nat) + digits@.reverse(),
        decreases m,
    {
        let ghost pre = digits@;
        digits.push(exec_hex_digit(m % 16));
        assert(digits@.reverse() =~= seq![hex_digit((m % 16) as nat)] + pre.reverse());
        m = m / 16;
        assert(hex_of(n as nat) =~= hex_of(m as nat) + digits@.reverse());
    }
    let ghost pre = digits@;
    digits.push(exec_hex_digit(m));
    assert(digits@.reverse() =~= seq![hex_digit(m as nat)] + pre.reverse());
    assert(hex_of(n as nat) =~= digits@.reverse());
    let ghost out0 = out@;
    let mut k: usize = digits.len();
    while k > 0
        invariant
            k <= digits@.len(),
            out@ =~= out0 + digits@.reverse().take(digits@.len() - k),
        decreases k,
    {
        k = k - 1;
        out.push(digits[k]);
        assert(out@ =~= out0 + digits@.reverse().take(digits@.len() - k)) by {
            assert(digits@.reverse()[digits@.len() - k - 1] == digits@[k as int]);
        }
    }
    assert(digits@.reverse().take(digits@.len() as int) =~= digits@.reverse());
}

/// Encode into a valid D-Bus object path fragment.
pub fn encode_as_dbus_object_path(input_string: &str) -> (r: String)
    ensures
        r@ == dbus_encoded(input_string@),
{
    let n = input_string.unicode_len();
    let mut out: Vec<char> = Vec::new();
    let mut i: usize = 0;
    while i < n
        invariant
            n == input_string@.len(),
            0 <= i <= n,
            out@ =~= dbus_encoded(input_string@.take(i as int)),
        decreases n - i,
    {
        let c = input_string.get_char(i);
        if exec_is_plain_char(c) {
            out.push(c);
        } else {
            out.push('_');
            push_hex(&mut out, c as u32);
        }
        proof {
            let pre = input_string@.take(i as int);
            let cur = input_string@.take(i + 1);
            assert(cur.drop_last() =~= pre);
            assert(cur.last() == c);
            assert(out@ =~= dbus_encoded(pre) + encoded_char(c));
        }
        i = i + 1;
    }
    assert(input_string@.take(n as int) =~= input_string@);
    string_from_chars(&out)
}

/// The D-Bus object path under which the service manager exposes a unit.
pub fn get_unit_path(full_service_name: &str) -> (r: String)
    ensures
        r@ == "/org/freedesktop/systemd1/unit/"@ + dbus_encoded(full_service_name@),
{
    let encoded = encode_as_dbus_object_path(full_service_name);
    let mut r = String::from_str("/org/freedesktop/systemd1/unit/");
    r.append(encoded.as_str());
    r
}

} // verus!
