//! Small executable string utilities with exact specifications: equality of
//! string slices, and decimal parsing and formatting of `i32` values.

use vstd::prelude::*;
use vstd::string::*;

verus! {

/// Character-for-character equality of two string slices.
pub fn str_eq(a: &str, b: &str) -> (r: bool)
    ensures
        r == (a@ == b@),
{
    let sa: String = a.to_owned();
    let sb: String = b.to_owned();
    sa == sb
}

pub open spec fn is_digit_char(c: char) -> bool {
    48 <= c as int <= 57
}

pub open spec fn digit_value(c: char) -> nat
    recommends
        is_digit_char(c),
{
    (c as int - 48) as nat
}

pub open spec fn digit_char(d: nat) -> char
    recommends
        d < 10,
{
    if d == 0 {
        '0'
    } else if d == 1 {
        '1'
    } else if d == 2 {
        '2'
    } else if d == 3 {
        '3'
    } else if d == 4 {
        '4'
    } else if d == 5 {
        '5'
    } else if d == 6 {
        '6'
    } else if d == 7 {
        '7'
    } else if d == 8 {
        '8'
    } else {
        '9'
    }
}

pub open spec fn all_digits(s: Seq<char>) -> bool {
    forall|i: int| 0 <= i < s.len() ==> is_digit_char(s[i])
}

/// Value of a sequence of decimal digit characters, most significant first.
pub open spec fn dec_val(s: Seq<char>) -> nat
    recommends
        all_digits(s),
    decreases s.len(),
{
    if s.len() == 0 {
        0
    } else {
        dec_val(s.drop_last()) * 10 + digit_value(s.last())
    }
}

/// Whether an integer literal begins with a minus sign.
pub open spec fn int_str_negative(s: Seq<char>) -> bool {
    s.len() > 0 && s[0] == '-'
}

/// The digit characters of an integer literal, the optional sign removed.
pub open spec fn int_str_digits(s: Seq<char>) -> Seq<char> {
    if s.len() > 0 && (s[0] == '-' || s[0] == '+') {
        s.drop_first()
    } else {
        s
    }
}

/// An integer literal: an optional `+` or `-` sign followed by one or more
/// ASCII digits, nothing else.
pub open spec fn is_valid_int_str(s: Seq<char>) -> bool {
    int_str_digits(s).len() > 0 && all_digits(int_str_digits(s))
}

pub open spec fn int_str_value(s: Seq<char>) -> int
    recommends
        is_valid_int_str(s),
{
    if int_str_negative(s) {
        -(dec_val(int_str_digits(s)) as int)
    } else {
        dec_val(int_str_digits(s)) as int
    }
}

/// What decimal parsing of an `i32` returns: the literal's value when the
/// string is a well-formed integer literal in range, nothing otherwise.
pub open spec fn parse_i32_spec(s: Seq<char>) -> Option<i32> {
    if is_valid_int_str(s) && i32::MIN <= int_str_value(s) <= i32::MAX {
        Some(int_str_value(s) as i32)
    } else {
        None
    }
}

proof fn lemma_dec_val_push(s: Seq<char>, c: char)
    ensures
        dec_val(s.push(c)) == dec_val(s) * 10 + digit_value(c),
{
    assert(s.push(c).drop_last() =~= s);
    assert(s.push(c).last() == c);
}

/// Parse a decimal `i32`, accepting exactly an optional sign followed by
/// one or more ASCII digits, and rejecting values outside the `i32` range.
pub fn parse_i32(s: &str) -> (r: Option<i32>)
    ensures
        r == parse_i32_spec(s@),
{
    let n: usize = s.unicode_len();
    if n == 0 {
        return None;
    }
    let c0: char = s.get_char(0);
    let neg: bool = c0 == '-';
    let has_sign: bool = neg || c0 == '+';
    let start: usize = if has_sign {
        1
    } else {
        0
    };
    proof {
        assert(int_str_digits(s@) =~= s@.subrange(start as int, n as int));
        assert(int_str_negative(s@) == neg);
    }
    if start == n {
        // a bare sign has no digits
        return None;
    }
    let mut i: usize = start;
    let mut mag: u64 = 0;
    let mut too_big: bool = false;
    while i < n
        invariant
            start <= i <= n,
            n == s@.len(),
            int_str_digits(s@) == s@.subrange(start as int, n as int),
            all_digits(s@.subrange(start as int, i as int)),
            !too_big ==> mag == dec_val(s@.subrange(start as int, i as int)) && mag
                <= 0xFFFF_FFFFu64,
            too_big ==> dec_val(s@.subrange(start as int, i as int)) > 0xFFFF_FFFF,
        decreases n - i,
    {
        let c: char = s.get_char(i);
        let u: u32 = c as u32;
        if u < 48 || u > 57 {
            proof {
                assert(!is_digit_char(s@[i as int]));
                assert(int_str_digits(s@)[i as int - start as int] == s@[i as int]);
                assert(!all_digits(int_str_digits(s@)));
            }
            return None;
        }
        let d: u64 = (u - 48) as u64;
        proof {
            assert(s@.subrange(start as int, i + 1) =~= s@.subrange(start as int, i as int).push(
                s@[i as int],
            ));
            lemma_dec_val_push(s@.subrange(start as int, i as int), s@[i as int]);
            assert(is_digit_char(s@[i as int]));
            assert(digit_value(s@[i as int]) == d);
        }
        if !too_big {
            let m2: u64 = mag * 10 + d;
            if m2 > 0xFFFF_FFFF {
                too_big = true;
                mag = 0;
            } else {
                mag = m2;
            }
        }
        i = i + 1;
    }
    proof {
        assert(s@.subrange(start as int, n as int) == int_str_digits(s@));
        assert(is_valid_int_str(s@));
    }
    if too_big {
        // magnitude exceeds every i32 whatever the sign
        return None;
    }
    if neg {
        if mag <= 0x7FFF_FFFF {
            Some(-(mag as i32))
        } else if mag == 0x8000_0000 {
            Some(i32::MIN)
        } else {
            None
        }
    } else {
        if mag <= 0x7FFF_FFFF {
            Some(mag as i32)
        } else {
            None
        }
    }
}

/// Decimal digit characters of a natural number, most significant first.
pub open spec fn dec_digits_of(n: nat) -> Seq<char>
    decreases n,
{
    if n < 10 {
        seq![digit_char(n)]
    } else {
        dec_digits_of(n / 10).push(digit_char(n % 10))
    }
}

/// The decimal rendering of an `i32`: a minus sign for negative values,
/// then the digits of the magnitude with no leading zeros.
pub open spec fn i32_dec_str(v: int) -> Seq<char> {
    if v < 0 {
        seq!['-'] + dec_digits_of((-v) as nat)
    } else {
        dec_digits_of(v as nat)
    }
}

fn push_digit(d: u64, out: &mut String)
    requires
        d < 10,
    ensures
        final(out)@ == old(out)@ + seq![digit_char(d as nat)],
{
    if d == 0 {
        out.append("0");
        proof {
            reveal_strlit("0");
            assert("0"@ =~= seq![digit_char(d as nat)]);
        }
    } else if d == 1 {
        out.append("1");
        proof {
            reveal_strlit("1");
            assert("1"@ =~= seq![digit_char(d as nat)]);
        }
    } else if d == 2 {
        out.append("2");
        proof {
            reveal_strlit("2");
            assert("2"@ =~= seq![digit_char(d as nat)]);
        }
    } else if d == 3 {
        out.append("3");
        proof {
            reveal_strlit("3");
            assert("3"@ =~= seq![digit_char(d as nat)]);
        }
    } else if d == 4 {
        out.append("4");
        proof {
            reveal_strlit("4");
            assert("4"@ =~= seq![digit_char(d as nat)]);
        }
    } else if d == 5 {
        out.append("5");
        proof {
            reveal_strlit("5");
            assert("5"@ =~= seq![digit_char(d as nat)]);
        }
    } else if d == 6 {
        out.append("6");
        proof {
            reveal_strlit("6");
            assert("6"@ =~= seq![digit_char(d as nat)]);
        }
    } else if d == 7 {
        out.append("7");
        proof {
            reveal_strlit("7");
            assert("7"@ =~= seq![digit_char(d as nat)]);
        }
    } else if d == 8 {
        out.append("8");
        proof {
            reveal_strlit("8");
            assert("8"@ =~= seq![digit_char(d as nat)]);
        }
    } else {
        out.append("9");
        proof {
            reveal_strlit("9");
            assert("9"@ =~= seq![digit_char(d as nat)]);
        }
    }
}

fn push_dec_digits(mag: u64, out: &mut String)
    ensures
        final(out)@ == old(out)@ + dec_digits_of(mag as nat),
    decreases mag,
{
    if mag >= 10 {
        push_dec_digits(mag / 10, out);
        push_digit(mag % 10, out);
        proof {
            assert(dec_digits_of(mag as nat) =~= dec_digits_of((mag as nat) / 10) + seq![
                digit_char((mag as nat) % 10),
            ]);
            assert(final(out)@ =~= old(out)@ + dec_digits_of(mag as nat));
        }
    } else {
        push_digit(mag, out);
        proof {
            assert(dec_digits_of(mag as nat) =~= seq![digit_char(mag as nat)]);
            assert(final(out)@ =~= old(out)@ + dec_digits_of(mag as nat));
        }
    }
}

/// Render an `i32` in decimal, as its standard formatting does.
pub fn i32_to_string(v: i32) -> (r: String)
    ensures
        r@ == i32_dec_str(v as int),
{
    let mut out: String = String::new();
    let mag: u64;
    if v < 0 {
        out.append("-");
        proof {
            reveal_strlit("-");
            assert("-"@ =~= seq!['-']);
        }
        mag = (-(v as i64)) as u64;
        proof {
            assert(mag as nat == (-(v as int)) as nat);
        }
    } else {
        mag = v as u64;
    }
    push_dec_digits(mag, &mut out);
    proof {
        assert(out@ =~= i32_dec_str(v as int));
    }
    out
}

} // verus!
