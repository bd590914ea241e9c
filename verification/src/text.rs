//! Verified string building: decimal and hexadecimal rendering, boolean
//! rendering and underscore-to-space substitution. These back the exact
//! topic and payload contracts of the reporting code.

use vstd::prelude::*;
use vstd::string::StringExecFns;
use vstd::string::StringSliceAdditionalSpecFns;

verus! {

/// The single decimal digit `d` as a one-character sequence.
pub open spec fn digit_str(d: nat) -> Seq<char> {
    if d == 0 {
        "0"@
    } else if d == 1 {
        "1"@
    } else if d == 2 {
        "2"@
    } else if d == 3 {
        "3"@
    } else if d == 4 {
        "4"@
    } else if d == 5 {
        "5"@
    } else if d == 6 {
        "6"@
    } else if d == 7 {
        "7"@
    } else if d == 8 {
        "8"@
    } else {
        "9"@
    }
}

/// The usual decimal rendering of `n`, most significant digit first and
/// without leading zeroes (`0` renders as `"0"`).
pub open spec fn dec_chars(n: nat) -> Seq<char>
    decreases n,
{
    if n < 10 {
        digit_str(n)
    } else {
        dec_chars(n / 10) + digit_str(n % 10)
    }
}

/// The single hexadecimal digit `d` as a one-character sequence, lower case.
pub open spec fn hex_digit_str(d: nat) -> Seq<char> {
    if d < 10 {
        digit_str(d)
    } else if d == 10 {
        "a"@
    } else if d == 11 {
        "b"@
    } else if d == 12 {
        "c"@
    } else if d == 13 {
        "d"@
    } else if d == 14 {
        "e"@
    } else {
        "f"@
    }
}

/// The byte `b` as exactly two lower-case hexadecimal digits.
pub open spec fn hex_byte_chars(b: u8) -> Seq<char> {
    hex_digit_str(b as nat / 16) + hex_digit_str(b as nat % 16)
}

/// `"true"` or `"false"`.
pub open spec fn bool_chars(b: bool) -> Seq<char> {
    if b {
        "true"@
    } else {
        "false"@
    }
}

fn append_digit(s: &mut String, d: u16)
    requires
        d < 10,
    ensures
        final(s)@ == old(s)@ + digit_str(d as nat),
{
    if d == 0 {
        s.append("0");
    } else if d == 1 {
        s.append("1");
    } else if d == 2 {
        s.append("2");
    } else if d == 3 {
        s.append("3");
    } else if d == 4 {
        s.append("4");
    } else if d == 5 {
        s.append("5");
    } else if d == 6 {
        s.append("6");
    } else if d == 7 {
        s.append("7");
    } else if d == 8 {
        s.append("8");
    } else {
        s.append("9");
    }
}

/// Appends the decimal rendering of `n` to `s`.
pub fn append_u16(s: &mut String, n: u16)
    ensures
        final(s)@ == old(s)@ + dec_chars(n as nat),
    decreases n,
{
    if n >= 10 {
        append_u16(s, n / 10);
        append_digit(s, n % 10);
        assert(s@ =~= old(s)@ + dec_chars(n as nat));
    } else {
        append_digit(s, n);
    }
}

fn append_hex_digit(s: &mut String, d: u8)
    requires
        d < 16,
    ensures
        final(s)@ == old(s)@ + hex_digit_str(d as nat),
{
    if d < 10 {
        append_digit(s, d as u16);
    } else if d == 10 {
        s.append("a");
    } else if d == 11 {
        s.append("b");
    } else if d == 12 {
        s.append("c");
    } else if d == 13 {
        s.append("d");
    } else if d == 14 {
        s.append("e");
    } else {
        s.append("f");
    }
}

/// Appends the byte `b` as two lower-case hexadecimal digits to `s`.
pub fn append_hex_byte(s: &mut String, b: u8)
    ensures
        final(s)@ == old(s)@ + hex_byte_chars(b),
{
    append_hex_digit(s, b / 16);
    append_hex_digit(s, b % 16);
    assert(s@ =~= old(s)@ + hex_byte_chars(b));
}

/// Appends `"true"` or `"false"` to `s`.
pub fn append_bool(s: &mut String, b: bool)
    ensures
        final(s)@ == old(s)@ + bool_chars(b),
{
    if b {
        s.append("true");
    } else {
        s.append("false");
    }
}

/// `s` with every underscore replaced by a space.
pub open spec fn spaced_chars(s: Seq<char>) -> Seq<char> {
    s.map_values(|c: char| if c == '_' { ' ' } else { c })
}

/// Returns a copy of `s` in which every underscore has become a space.
pub fn underscores_to_spaces(s: &str) -> (r: String)
    requires
        s.is_ascii(),
    ensures
        r@ == spaced_chars(s@),
{
    proof {
        vstd::string::is_ascii_spec_bytes(s);
    }
    let bytes: &[u8] = s.as_bytes();
    let mut r = String::new();
    let mut i: usize = 0;
    while i < bytes.len()
        invariant
            s.is_ascii(),
            bytes@ == s.spec_bytes(),
            bytes@.len() == s@.len(),
            forall|j: int| 0 <= j < s@.len() ==> bytes@[j] == s@[j] as u8,
            i <= s@.len(),
            r@ == spaced_chars(s@).subrange(0, i as int),
        decreases s@.len() - i,
    {
        let b = bytes[i];
        let ghost prev = r@;
        if b == 95 {
            r.append(" ");
            proof {
                reveal_strlit(" ");
                assert(s@[i as int] == '_');
                assert(r@ =~= prev.push(spaced_chars(s@)[i as int]));
            }
        } else {
            push_char(&mut r, b as char);
            proof {
                assert(s@[i as int] as u8 == b && '\0' <= s@[i as int] <= '\u{7f}');
                assert(b as char == s@[i as int]);
                assert(r@ =~= prev.push(spaced_chars(s@)[i as int]));
            }
        }
        proof {
            assert(spaced_chars(s@).subrange(0, i + 1 as int) =~= spaced_chars(s@).subrange(
                0,
                i as int,
            ).push(spaced_chars(s@)[i as int]));
        }
        i = i + 1;
    }
    proof {
        assert(spaced_chars(s@).subrange(0, s@.len() as int) =~= spaced_chars(s@));
    }
    r
}

/// Relies on `String::push`: appends the given character to the end of the
/// string.
#[verifier::external_body]
fn push_char(s: &mut String, c: char)
    ensures
        final(s)@ == old(s)@.push(c),
{
    s.push(c);
}

} // verus!
