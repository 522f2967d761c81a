//! Character-level helpers shared by the configuration loader: string
//! equality and decimal parsing/formatting of 16-bit port numbers.

use vstd::prelude::*;

verus! {

/// Whether `c` is an ASCII decimal digit.
pub open spec fn is_digit(c: char) -> bool {
    '0' <= c && c <= '9'
}

/// The numeric value of the digit `c`.
pub open spec fn digit_val(c: char) -> int {
    c as int - '0' as int
}

/// Whether every character of `s` is an ASCII decimal digit.
pub open spec fn all_digits(s: Seq<char>) -> bool {
    forall|i: int| 0 <= i < s.len() ==> is_digit(#[trigger] s[i])
}

/// The value of `s` read as a base-10 numeral.
pub open spec fn decimal_value(s: Seq<char>) -> int
    decreases s.len(),
{
    if s.len() == 0 {
        0
    } else {
        decimal_value(s.drop_last()) * 10 + digit_val(s.last())
    }
}

/// A numeral that names a port: non-empty, all digits, value at most 65535.
pub open spec fn valid_port_digits(s: Seq<char>) -> bool {
    s.len() > 0 && all_digits(s) && decimal_value(s) <= u16::MAX
}

/// The digit part of a port field: std's unsigned-integer grammar allows
/// one optional leading `+` sign before the digits, and nothing else.
pub open spec fn port_digits(s: Seq<char>) -> Seq<char> {
    if s.len() > 0 && s[0] == '+' {
        s.subrange(1, s.len() as int)
    } else {
        s
    }
}

/// What parsing a port field returns for a given source string.
pub open spec fn spec_parse_port(s: Seq<char>) -> Option<u16> {
    if valid_port_digits(port_digits(s)) {
        Some(decimal_value(port_digits(s)) as u16)
    } else {
        None
    }
}

/// Once a prefix of a digit string exceeds the largest port, the whole
/// string does too: appending digits can only grow a positive value.
proof fn lemma_prefix_dominates(s: Seq<char>, k: int)
    requires
        all_digits(s),
        0 <= k <= s.len(),
        decimal_value(s.take(k)) > u16::MAX,
    ensures
        decimal_value(s) > u16::MAX,
    decreases s.len() - k,
{
    if k == s.len() {
        assert(s.take(k) =~= s);
    } else {
        assert(s.take(k + 1).drop_last() =~= s.take(k));
        assert(s.take(k + 1).last() == s[k]);
        assert(is_digit(s[k]));
        assert(decimal_value(s.take(k + 1)) == decimal_value(s.take(k)) * 10 + digit_val(s[k]));
        lemma_prefix_dominates(s, k + 1);
    }
}

/// Parses a port field as an unsigned 16-bit integer, following std's
/// unsigned grammar: one optional leading `+` sign, then decimal digits;
/// any other string, or a value over 65535, yields nothing.
pub fn parse_port(s: &str) -> (r: Option<u16>)
    ensures
        r == spec_parse_port(s@),
{
    let len = s.unicode_len();
    let start: usize = if len > 0 && s.get_char(0) == '+' {
        1
    } else {
        0
    };
    let ghost digits: Seq<char> = port_digits(s@);
    proof {
        assert(digits =~= s@.subrange(start as int, len as int));
    }
    if len == start {
        return None;
    }
    let mut acc: u32 = 0;
    let mut i: usize = start;
    while i < len
        invariant
            len == s@.len(),
            start <= i <= len,
            start < len,
            digits == port_digits(s@),
            digits =~= s@.subrange(start as int, len as int),
            all_digits(digits.take(i - start)),
            acc == decimal_value(digits.take(i - start)),
            acc <= u16::MAX,
        decreases len - i,
    {
        let c = s.get_char(i);
        proof {
            assert(digits[i - start] == s@[i as int]);
        }
        if c < '0' || c > '9' {
            proof {
                assert(!is_digit(digits[i - start]));
            }
            return None;
        }
        let d: u32 = (c as u32) - ('0' as u32);
        let next: u32 = acc * 10 + d;
        proof {
            assert(digits.take(i - start + 1).drop_last() =~= digits.take(i - start));
            assert(digits.take(i - start + 1).last() == digits[i - start]);
        }
        if next > 65535 {
            proof {
                if all_digits(digits) {
                    lemma_prefix_dominates(digits, i - start + 1);
                }
            }
            return None;
        }
        acc = next;
        i += 1;
    }
    proof {
        assert(digits.take(len - start) =~= digits);
    }
    Some(acc as u16)
}

/// The character that names the digit `d`.
pub open spec fn digit_char(d: int) -> char {
    if d == 0 {
        '0'
    } else if d == 1 {
        '1'
    } else if d == 2 {
        '2'
    } else if d == 3 {
        '3'
    } else if d == 4 {
        '4'
    } else if d == 5 {
        '5'
    } else if d == 6 {
        '6'
    } else if d == 7 {
        '7'
    } else if d == 8 {
        '8'
    } else {
        '9'
    }
}

/// The canonical decimal numeral of `n`: no sign, no leading zero.
pub open spec fn spec_format_u16(n: nat) -> Seq<char>
    decreases n,
{
    if n < 10 {
        seq![digit_char(n as int)]
    } else {
        spec_format_u16(n / 10) + seq![digit_char((n % 10) as int)]
    }
}

/// The canonical numeral consists of digits only.
pub proof fn lemma_format_all_digits(n: nat)
    ensures
        spec_format_u16(n).len() > 0,
        all_digits(spec_format_u16(n)),
    decreases n,
{
    if n >= 10 {
        lemma_format_all_digits(n / 10);
        let s = spec_format_u16(n);
        let p = spec_format_u16(n / 10);
        assert forall|i: int| 0 <= i < s.len() implies is_digit(#[trigger] s[i]) by {
            if i < p.len() {
                assert(s[i] == p[i]);
            } else {
                assert(s[i] == digit_char((n % 10) as int));
            }
        }
    }
}

/// The canonical numeral reads back as the number it names.
pub proof fn lemma_format_value(n: nat)
    ensures
        decimal_value(spec_format_u16(n)) == n,
    decreases n,
{
    if n < 10 {
        let s = spec_format_u16(n);
        assert(s.len() == 1);
        assert(s.last() == digit_char(n as int));
        assert(s.drop_last() =~= Seq::<char>::empty());
        assert(decimal_value(s.drop_last()) == 0);
        assert(decimal_value(s) == digit_val(digit_char(n as int)));
    } else {
        lemma_format_value(n / 10);
        let s = spec_format_u16(n);
        let p = spec_format_u16(n / 10);
        assert(s.drop_last() =~= p);
        assert(s.last() == digit_char((n % 10) as int));
        assert(decimal_value(s) == (n / 10) * 10 + (n % 10));
        assert((n / 10) * 10 + (n % 10) == n) by {
            vstd::arithmetic::div_mod::lemma_fundamental_div_mod(n as int, 10);
        }
    }
}

/// A port number written out and parsed back is itself: formatting and
/// parsing are mutually inverse on every 16-bit value.
pub proof fn lemma_port_round_trip(n: u16)
    ensures
        spec_parse_port(spec_format_u16(n as nat)) == Some(n),
{
    lemma_format_all_digits(n as nat);
    lemma_format_value(n as nat);
    let s = spec_format_u16(n as nat);
    assert(is_digit(s[0]));
    assert(s[0] != '+');
    assert(port_digits(s) == s);
}

/// The digit's own one-character string.
fn digit_str(d: u16) -> (r: &'static str)
    requires
        d < 10,
    ensures
        r@ == seq![digit_char(d as int)],
{
    if d == 0 {
        proof {
            reveal_strlit("0");
            assert("0"@ =~= seq![digit_char(0int)]);
        }
        "0"
    } else if d == 1 {
        proof {
            reveal_strlit("1");
            assert("1"@ =~= seq![digit_char(1int)]);
        }
        "1"
    } else if d == 2 {
        proof {
            reveal_strlit("2");
            assert("2"@ =~= seq![digit_char(2int)]);
        }
        "2"
    } else if d == 3 {
        proof {
            reveal_strlit("3");
            assert("3"@ =~= seq![digit_char(3int)]);
        }
        "3"
    } else if d == 4 {
        proof {
            reveal_strlit("4");
            assert("4"@ =~= seq![digit_char(4int)]);
        }
        "4"
    } else if d == 5 {
        proof {
            reveal_strlit("5");
            assert("5"@ =~= seq![digit_char(5int)]);
        }
        "5"
    } else if d == 6 {
        proof {
            reveal_strlit("6");
            assert("6"@ =~= seq![digit_char(6int)]);
        }
        "6"
    } else if d == 7 {
        proof {
            reveal_strlit("7");
            assert("7"@ =~= seq![digit_char(7int)]);
        }
        "7"
    } else if d == 8 {
        proof {
            reveal_strlit("8");
            assert("8"@ =~= seq![digit_char(8int)]);
        }
        "8"
    } else {
        proof {
            reveal_strlit("9");
            assert("9"@ =~= seq![digit_char(9int)]);
        }
        "9"
    }
}

/// Writes a port number as its canonical decimal numeral.
pub fn format_u16(n: u16) -> (r: String)
    ensures
        r@ == spec_format_u16(n as nat),
    decreases n,
{
    if n < 10 {
        let s = digit_str(n);
        s.to_owned()
    } else {
        let mut prefix = format_u16(n / 10);
        let last = digit_str(n % 10);
        prefix.append(last);
        prefix
    }
}

/// Exec equality of two strings, decided character by character.
pub fn str_eq(a: &str, b: &str) -> (r: bool)
    ensures
        r == (a@ == b@),
{
    let a_len = a.unicode_len();
    let b_len = b.unicode_len();
    if a_len != b_len {
        return false;
    }
    let mut i: usize = 0;
    while i < a_len
        invariant
            a_len == a@.len(),
            b_len == b@.len(),
            a_len == b_len,
            0 <= i <= a_len,
            forall|j: int| 0 <= j < i ==> a@[j] == b@[j],
        decreases a_len - i,
    {
        if a.get_char(i) != b.get_char(i) {
            return false;
        }
        i += 1;
    }
    proof {
        assert(a@ =~= b@);
    }
    true
}

} // verus!
