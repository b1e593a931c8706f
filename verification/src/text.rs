//! Decimal text: rendering unsigned integers as decimal strings and parsing
//! them back.
//!
//! The session state codec stores a session's duration as whole minutes in
//! decimal text inside an annotation; this module gives that text an exact
//! meaning. Parsing accepts what the platform wrote there or what an operator
//! may have typed: an optional leading `+`, then one or more decimal digits,
//! with a value that fits in 64 bits. Everything else is rejected.

use vstd::prelude::*;

verus! {

use vstd::arithmetic::div_mod::lemma_fundamental_div_mod;
use vstd::string::StrSliceExecFns;
use vstd::string::StringExecFns;

/// Whether `c` is a decimal digit.
pub open spec fn is_dec_digit(c: char) -> bool {
    48 <= c as int && c as int <= 57
}

/// The numeric value of the decimal digit `c`.
pub open spec fn digit_of(c: char) -> int {
    c as int - 48
}

/// The decimal digit whose numeric value is `d`.
pub open spec fn digit_char(d: int) -> char {
    if d == 0 {
        '0'
    } else if d == 1 {
        '1'
    } else if d == 2 {
        '2'
    } else if d == 3 {
        '3'
    } else if d == 4 {
        '4'
    } else if d == 5 {
        '5'
    } else if d == 6 {
        '6'
    } else if d == 7 {
        '7'
    } else if d == 8 {
        '8'
    } else {
        '9'
    }
}

/// The decimal rendering of `n`: most significant digit first, no sign, no
/// leading zero except for zero itself.
pub open spec fn dec_chars(n: nat) -> Seq<char>
    decreases n,
{
    if n < 10 {
        seq![digit_char(n as int)]
    } else {
        dec_chars(n / 10) + seq![digit_char((n % 10) as int)]
    }
}

/// Whether every character of `s` is a decimal digit.
pub open spec fn all_dec_digits(s: Seq<char>) -> bool {
    forall|i: int| 0 <= i < s.len() ==> is_dec_digit(s[i])
}

/// The numeric value of `s` read as decimal digits, most significant first.
pub open spec fn dec_value(s: Seq<char>) -> int
    decreases s.len(),
{
    if s.len() == 0 {
        0
    } else {
        dec_value(s.drop_last()) * 10 + digit_of(s.last())
    }
}

/// The text of `s` after an optional leading `+` sign.
pub open spec fn plus_stripped(s: Seq<char>) -> Seq<char> {
    if s.len() > 0 && s[0] == '+' {
        s.drop_first()
    } else {
        s
    }
}

/// What parsing `s` as an unsigned 64-bit decimal number yields: the digits'
/// value after an optional leading `+`, if there is at least one digit, all
/// characters are digits, and the value fits; nothing otherwise.
pub open spec fn spec_parse_u64(s: Seq<char>) -> Option<u64> {
    let t = plus_stripped(s);
    if t.len() > 0 && all_dec_digits(t) && dec_value(t) <= u64::MAX {
        Some(dec_value(t) as u64)
    } else {
        None
    }
}

/// A string of digits never has a negative value.
pub proof fn lemma_dec_value_nonneg(s: Seq<char>)
    requires
        all_dec_digits(s),
    ensures
        dec_value(s) >= 0,
    decreases s.len(),
{
    if s.len() > 0 {
        assert(all_dec_digits(s.drop_last()));
        lemma_dec_value_nonneg(s.drop_last());
    }
}

/// The rendering of `n` consists of digits only, and is never empty.
pub proof fn lemma_dec_chars_digits(n: nat)
    ensures
        all_dec_digits(dec_chars(n)),
        dec_chars(n).len() >= 1,
    decreases n,
{
    if n >= 10 {
        lemma_dec_chars_digits(n / 10);
    }
}

/// Reading the rendering of `n` back as a decimal number yields `n`.
pub proof fn lemma_dec_value_of_dec_chars(n: nat)
    ensures
        dec_value(dec_chars(n)) == n,
    decreases n,
{
    if n < 10 {
        let s = dec_chars(n);
        assert(s == seq![digit_char(n as int)]);
        assert(s.drop_last() =~= Seq::<char>::empty());
        assert(dec_value(Seq::<char>::empty()) == 0);
        assert(s.last() == digit_char(n as int));
        assert(dec_value(s) == 0 * 10 + digit_of(digit_char(n as int)));
        assert(digit_of(digit_char(n as int)) == n);
    } else {
        lemma_dec_value_of_dec_chars(n / 10);
        let s = dec_chars(n);
        assert(s == dec_chars(n / 10) + seq![digit_char((n % 10) as int)]);
        assert(s.drop_last() =~= dec_chars(n / 10));
        assert(s.last() == digit_char((n % 10) as int));
        assert(dec_value(s) == dec_value(dec_chars(n / 10)) * 10 + digit_of(
            digit_char((n % 10) as int),
        ));
        assert(digit_of(digit_char((n % 10) as int)) == n % 10);
        lemma_fundamental_div_mod(n as int, 10);
    }
}

/// Rendering then parsing is the identity on every unsigned 64-bit value.
pub proof fn lemma_parse_of_dec_chars(n: u64)
    ensures
        spec_parse_u64(dec_chars(n as nat)) == Some(n),
{
    lemma_dec_chars_digits(n as nat);
    lemma_dec_value_of_dec_chars(n as nat);
    assert(!is_dec_digit('+'));
}

/// The single-character string holding the decimal digit of value `d`.
fn digit_str(d: u64) -> (r: &'static str)
    requires
        d < 10,
    ensures
        r@ =~= seq![digit_char(d as int)],
{
    proof {
        reveal_strlit("0");
        reveal_strlit("1");
        reveal_strlit("2");
        reveal_strlit("3");
        reveal_strlit("4");
        reveal_strlit("5");
        reveal_strlit("6");
        reveal_strlit("7");
        reveal_strlit("8");
        reveal_strlit("9");
    }
    if d == 0 {
        "0"
    } else if d == 1 {
        "1"
    } else if d == 2 {
        "2"
    } else if d == 3 {
        "3"
    } else if d == 4 {
        "4"
    } else if d == 5 {
        "5"
    } else if d == 6 {
        "6"
    } else if d == 7 {
        "7"
    } else if d == 8 {
        "8"
    } else {
        "9"
    }
}

/// Renders `n` in decimal.
pub fn u64_to_dec_string(n: u64) -> (r: String)
    ensures
        r@ == dec_chars(n as nat),
    decreases n,
{
    if n < 10 {
        String::from_str(digit_str(n))
    } else {
        let mut s = u64_to_dec_string(n / 10);
        s.append(digit_str(n % 10));
        proof {
            assert(s@ =~= dec_chars(n as nat));
        }
        s
    }
}

/// Whether two strings hold the same characters.
pub fn str_eq(a: &str, b: &str) -> (r: bool)
    ensures
        r == (a@ == b@),
{
    let x = a.to_owned();
    let y = b.to_owned();
    x == y
}

/// The numeric value of `c` where `c` is a decimal digit; nothing otherwise.
fn char_digit(c: char) -> (r: Option<u64>)
    ensures
        r is Some <==> is_dec_digit(c),
        r is Some ==> r->0 == digit_of(c),
{
    if c == '0' {
        Some(0)
    } else if c == '1' {
        Some(1)
    } else if c == '2' {
        Some(2)
    } else if c == '3' {
        Some(3)
    } else if c == '4' {
        Some(4)
    } else if c == '5' {
        Some(5)
    } else if c == '6' {
        Some(6)
    } else if c == '7' {
        Some(7)
    } else if c == '8' {
        Some(8)
    } else if c == '9' {
        Some(9)
    } else {
        None
    }
}

/// Parses `s` as an unsigned 64-bit decimal number: an optional leading `+`,
/// then one or more digits whose value fits. Returns nothing on any other
/// input.
pub fn parse_dec_u64(s: &str) -> (r: Option<u64>)
    ensures
        r == spec_parse_u64(s@),
{
    let n = s.unicode_len();
    if n == 0 {
        return None;
    }
    let c0 = s.get_char(0);
    let offset: usize = if c0 == '+' {
        1
    } else {
        0
    };
    let ghost t: Seq<char> = plus_stripped(s@);
    proof {
        assert(t =~= s@.skip(offset as int));
    }
    if n == offset {
        return None;
    }
    let mut acc: u64 = 0;
    let mut overflowed: bool = false;
    let mut j: usize = offset;
    while j < n
        invariant
            n == s@.len(),
            offset <= j <= n,
            offset == 0 || offset == 1,
            t == plus_stripped(s@),
            t =~= s@.skip(offset as int),
            n > offset,
            all_dec_digits(t.take(j - offset)),
            overflowed ==> dec_value(t.take(j - offset)) > u64::MAX,
            !overflowed ==> acc == dec_value(t.take(j - offset)),
        decreases n - j,
    {
        let c = s.get_char(j);
        let ghost i: int = j - offset;
        proof {
            assert(t[i] == s@[j as int]);
        }
        match char_digit(c) {
            None => {
                proof {
                    assert(!is_dec_digit(t[i]));
                    assert(!all_dec_digits(t));
                    assert(spec_parse_u64(s@) is None);
                }
                return None;
            },
            Some(d) => {
                proof {
                    assert(d == digit_of(t[i]));
                    assert(0 <= digit_of(t[i]) <= 9);
                    assert(t.take(i + 1).drop_last() =~= t.take(i));
                    assert(t.take(i + 1).last() == t[i]);
                    assert(dec_value(t.take(i + 1)) == dec_value(t.take(i)) * 10 + digit_of(t[i]));
                    lemma_dec_value_nonneg(t.take(i));
                }
                if overflowed {
                    proof {
                        let prev = dec_value(t.take(i));
                        assert(prev * 10 + digit_of(t[i]) > u64::MAX) by (nonlinear_arith)
                            requires
                                prev > u64::MAX,
                                digit_of(t[i]) >= 0,
                        ;
                    }
                } else if acc > (u64::MAX - d) / 10 {
                    overflowed = true;
                    proof {
                        let bound: int = u64::MAX - d;
                        lemma_fundamental_div_mod(bound, 10);
                        assert(acc * 10 + d > u64::MAX) by (nonlinear_arith)
                            requires
                                acc > bound / 10,
                                bound == (bound / 10) * 10 + bound % 10,
                                0 <= bound % 10 < 10,
                                bound == u64::MAX - d,
                        ;
                    }
                } else {
                    proof {
                        let bound: int = u64::MAX - d;
                        lemma_fundamental_div_mod(bound, 10);
                        assert(acc * 10 + d <= u64::MAX) by (nonlinear_arith)
                            requires
                                acc <= bound / 10,
                                bound == (bound / 10) * 10 + bound % 10,
                                0 <= bound % 10 < 10,
                                bound == u64::MAX - d,
                                acc >= 0,
                        ;
                    }
                    acc = acc * 10 + d;
                }
            },
        }
        j = j + 1;
    }
    proof {
        assert(t.take(n - offset) =~= t);
    }
    if overflowed {
        None
    } else {
        Some(acc)
    }
}

} // verus!
