//! Decimal text: the value of a digit string, the canonical decimal
//! rendering of a number, and an executable parser and formatter proved
//! against those definitions.

use vstd::prelude::*;

verus! {

/// An ASCII decimal digit.
pub open spec fn is_digit(c: char) -> bool {
    48 <= c as u32 && c as u32 <= 57
}

/// Numeric value of one digit character.
pub open spec fn digit_to_val(c: char) -> int {
    c as u32 - 48
}

/// Every character of `s` is a decimal digit.
pub open spec fn all_digits(s: Seq<char>) -> bool {
    forall|i: int| 0 <= i < s.len() ==> is_digit(#[trigger] s[i])
}

/// Value of a digit string read in base ten, most significant digit first.
pub open spec fn digits_value(s: Seq<char>) -> int
    decreases s.len(),
{
    if s.len() == 0 {
        0
    } else {
        digits_value(s.drop_last()) * 10 + digit_to_val(s.last())
    }
}

/// The digit character for a value below ten.
pub open spec fn val_to_digit(d: int) -> char
    recommends
        0 <= d < 10,
{
    if d == 0 {
        '0'
    } else if d == 1 {
        '1'
    } else if d == 2 {
        '2'
    } else if d == 3 {
        '3'
    } else if d == 4 {
        '4'
    } else if d == 5 {
        '5'
    } else if d == 6 {
        '6'
    } else if d == 7 {
        '7'
    } else if d == 8 {
        '8'
    } else {
        '9'
    }
}

/// Canonical decimal rendering of `n`: no sign, no leading zero except for
/// `n == 0` itself.
pub open spec fn dec_repr(n: nat) -> Seq<char>
    decreases n,
{
    if n < 10 {
        seq![val_to_digit(n as int)]
    } else {
        dec_repr(n / 10) + seq![val_to_digit(n as int % 10)]
    }
}

proof fn lemma_val_to_digit(d: int)
    requires
        0 <= d < 10,
    ensures
        is_digit(val_to_digit(d)),
        digit_to_val(val_to_digit(d)) == d,
{
}

/// The canonical rendering is made of digits and reads back to the same
/// number.
pub proof fn lemma_dec_repr_value(n: nat)
    ensures
        dec_repr(n).len() >= 1,
        all_digits(dec_repr(n)),
        digits_value(dec_repr(n)) == n,
    decreases n,
{
    if n < 10 {
        lemma_val_to_digit(n as int);
        let s = dec_repr(n);
        assert(s.drop_last() =~= Seq::<char>::empty());
        assert(s.last() == val_to_digit(n as int));
        assert(digits_value(s.drop_last()) == 0);
        assert(digits_value(s) == digit_to_val(val_to_digit(n as int)));
    } else {
        lemma_dec_repr_value(n / 10);
        lemma_val_to_digit(n as int % 10);
        let a = dec_repr(n / 10);
        let c = val_to_digit(n as int % 10);
        assert((a + seq![c]).drop_last() =~= a);
        assert((a + seq![c]).last() == c);
        assert(digits_value(a + seq![c]) == (n / 10) * 10 + (n % 10));
        assert(n == (n / 10) * 10 + (n % 10)) by {
            vstd::arithmetic::div_mod::lemma_fundamental_div_mod(n as int, 10);
        }
        assert(all_digits(a + seq![c]));
    }
}

/// Value of an optionally signed decimal integer literal: a `+` or `-`
/// sign followed by one or more digits, or bare digits.  Anything else has
/// no value.
pub open spec fn int_literal_value(s: Seq<char>) -> Option<int> {
    if s.len() == 0 {
        None
    } else if s[0] == '+' || s[0] == '-' {
        let digits = s.subrange(1, s.len() as int);
        if digits.len() > 0 && all_digits(digits) {
            if s[0] == '-' {
                Some(-digits_value(digits))
            } else {
                Some(digits_value(digits))
            }
        } else {
            None
        }
    } else if all_digits(s) {
        Some(digits_value(s))
    } else {
        None
    }
}

/// A digit string has a non-negative value.
pub proof fn lemma_digits_value_nonneg(s: Seq<char>)
    requires
        all_digits(s),
    ensures
        digits_value(s) >= 0,
    decreases s.len(),
{
    if s.len() > 0 {
        lemma_digits_value_nonneg(s.drop_last());
    }
}

/// The canonical rendering of `n` is an integer literal with value `n`.
pub proof fn lemma_dec_repr_parses_back(n: nat)
    ensures
        int_literal_value(dec_repr(n)) == Some(n as int),
{
    lemma_dec_repr_value(n);
    let s = dec_repr(n);
    assert(is_digit(s[0]));
}

fn digit_str(d: u64) -> (s: &'static str)
    requires
        d < 10,
    ensures
        s@ == seq![val_to_digit(d as int)],
{
    let s: &'static str = if d == 0 {
        "0"
    } else if d == 1 {
        "1"
    } else if d == 2 {
        "2"
    } else if d == 3 {
        "3"
    } else if d == 4 {
        "4"
    } else if d == 5 {
        "5"
    } else if d == 6 {
        "6"
    } else if d == 7 {
        "7"
    } else if d == 8 {
        "8"
    } else {
        "9"
    };
    proof {
        reveal_strlit("0");
        reveal_strlit("1");
        reveal_strlit("2");
        reveal_strlit("3");
        reveal_strlit("4");
        reveal_strlit("5");
        reveal_strlit("6");
        reveal_strlit("7");
        reveal_strlit("8");
        reveal_strlit("9");
        assert(s@ =~= seq![val_to_digit(d as int)]);
    }
    s
}

/// Render `n` in decimal.
pub fn u64_to_dec(n: u64) -> (s: String)
    ensures
        s@ == dec_repr(n as nat),
    decreases n,
{
    if n < 10 {
        digit_str(n).to_owned()
    } else {
        let mut s = u64_to_dec(n / 10);
        s.append(digit_str(n % 10));
        proof {
            assert(s@ =~= dec_repr(n as nat));
        }
        s
    }
}

} // verus!
