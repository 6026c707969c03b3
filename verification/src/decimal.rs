//! Decimal rendering of integers into strings.

use vstd::prelude::*;
use vstd::string::StringExecFns;

verus! {

/// The ASCII digit for a value below ten.
pub open spec fn digit_char(d: nat) -> char {
    if d == 0 {
        '0'
    } else if d == 1 {
        '1'
    } else if d == 2 {
        '2'
    } else if d == 3 {
        '3'
    } else if d == 4 {
        '4'
    } else if d == 5 {
        '5'
    } else if d == 6 {
        '6'
    } else if d == 7 {
        '7'
    } else if d == 8 {
        '8'
    } else {
        '9'
    }
}

/// The shortest base-ten representation of a natural number.
pub open spec fn decimal(n: nat) -> Seq<char>
    decreases n,
{
    if n < 10 {
        seq![digit_char(n)]
    } else {
        decimal(n / 10).push(digit_char(n % 10))
    }
}

/// The base-ten representation of an integer, with a leading `-` when negative.
pub open spec fn signed_decimal(n: int) -> Seq<char> {
    if n < 0 {
        seq!['-'] + decimal((-n) as nat)
    } else {
        decimal(n as nat)
    }
}

/// Whether `c` is one of the ASCII digits `0` to `9`.
pub open spec fn is_digit(c: char) -> bool {
    48 <= (c as int) && (c as int) <= 57
}

/// The value of an ASCII digit.
pub open spec fn digit_value(c: char) -> int {
    (c as int) - 48
}

/// The number that a string of digits denotes in base ten.
pub open spec fn digits_value(s: Seq<char>) -> int
    decreases s.len(),
{
    if s.len() == 0 {
        0
    } else {
        digits_value(s.drop_last()) * 10 + digit_value(s.last())
    }
}

/// `s` is the canonical base-ten text of the natural number `n`: a
/// non-empty run of digits, with no leading zero, that denotes `n`.
pub open spec fn is_decimal_text(s: Seq<char>, n: int) -> bool {
    &&& s.len() > 0
    &&& forall|i: int| 0 <= i < s.len() ==> is_digit(#[trigger] s[i])
    &&& (s.len() > 1 ==> s[0] != '0')
    &&& digits_value(s) == n
}

/// `s` is the base-ten text of the integer `n`: that of `n` itself when `n`
/// is not negative, otherwise `-` followed by the text of `-n`.
pub open spec fn reads_as(s: Seq<char>, n: int) -> bool {
    if n < 0 {
        s.len() > 0 && s[0] == '-' && is_decimal_text(s.drop_first(), -n)
    } else {
        is_decimal_text(s, n)
    }
}

/// The rendering of a natural number is its true base-ten text: digits
/// only, no leading zero, and reading it back gives the number.
pub proof fn lemma_decimal_reads_back(n: nat)
    ensures
        is_decimal_text(decimal(n), n as int),
    decreases n,
{
    if n >= 10 {
        let q: nat = n / 10;
        let d: nat = n % 10;
        lemma_decimal_reads_back(q);
        let s = decimal(n);
        assert(s == decimal(q).push(digit_char(d)));
        assert(s.drop_last() =~= decimal(q));
        assert(digit_value(digit_char(d)) == d as int);
        vstd::arithmetic::div_mod::lemma_fundamental_div_mod(n as int, 10);
        assert(digits_value(s) == n as int);
        assert(is_digit(digit_char(d)));
        assert forall|i: int| 0 <= i < s.len() implies is_digit(#[trigger] s[i]) by {
            if i < s.len() - 1 {
                assert(s[i] == decimal(q)[i]);
            }
        }
        if q < 10 {
            assert(s[0] == digit_char(q));
            assert(q >= 1);
            assert(s[0] != '0');
        } else {
            assert(decimal(q) == decimal(q / 10).push(digit_char(q % 10)));
            assert(decimal(q).len() > 1);
            assert(s[0] == decimal(q)[0]);
            assert(s[0] != '0');
        }
        assert(s.len() > 0);
        assert(is_decimal_text(s, n as int));
    } else {
        let s = decimal(n);
        assert(s.drop_last() =~= Seq::<char>::empty());
        assert(digit_value(digit_char(n)) == n as int);
        assert(is_digit(s[0]));
        assert(digits_value(s.drop_last()) == 0);
        assert(digits_value(s) == n as int);
        assert(is_decimal_text(s, n as int));
    }
}

/// The rendering of an integer reads back as that integer: a non-negative
/// number as its digits, a negative one as `-` and the digits of its magnitude.
pub proof fn lemma_signed_decimal_reads_back(n: int)
    ensures
        reads_as(signed_decimal(n), n),
{
    if n < 0 {
        lemma_decimal_reads_back((-n) as nat);
        assert((seq!['-'] + decimal((-n) as nat)).drop_first() =~= decimal((-n) as nat));
    } else {
        lemma_decimal_reads_back(n as nat);
    }
}

/// A one-character string holding the digit `d`.
fn digit_str(d: u64) -> (s: &'static str)
    requires
        d < 10,
    ensures
        s@ == seq![digit_char(d as nat)],
{
    proof {
        reveal_strlit("0");
        reveal_strlit("1");
        reveal_strlit("2");
        reveal_strlit("3");
        reveal_strlit("4");
        reveal_strlit("5");
        reveal_strlit("6");
        reveal_strlit("7");
        reveal_strlit("8");
        reveal_strlit("9");
    }
    if d == 0 {
        "0"
    } else if d == 1 {
        "1"
    } else if d == 2 {
        "2"
    } else if d == 3 {
        "3"
    } else if d == 4 {
        "4"
    } else if d == 5 {
        "5"
    } else if d == 6 {
        "6"
    } else if d == 7 {
        "7"
    } else if d == 8 {
        "8"
    } else {
        "9"
    }
}

/// Appends the decimal digits of `n` to `s`.
pub fn append_decimal(s: &mut String, n: u64)
    ensures
        final(s)@ == old(s)@ + decimal(n as nat),
    decreases n,
{
    if n >= 10 {
        append_decimal(s, n / 10);
    }
    let d: &str = digit_str(n % 10);
    s.append(d);
    assert(decimal(n as nat) =~= if n < 10 {
        seq![digit_char(n as nat)]
    } else {
        decimal((n / 10) as nat) + seq![digit_char((n % 10) as nat)]
    });
}

/// Appends the decimal representation of `n` (with a `-` sign when negative) to `s`.
pub fn append_signed_decimal(s: &mut String, n: i64)
    ensures
        final(s)@ == old(s)@ + signed_decimal(n as int),
{
    if n < 0 {
        proof {
            reveal_strlit("-");
        }
        s.append("-");
        let magnitude: u64 = (0i128 - (n as i128)) as u64;
        append_decimal(s, magnitude);
    } else {
        append_decimal(s, n as u64);
    }
}

} // verus!
