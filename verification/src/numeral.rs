//! Decimal numerals and the six-character number field.
//!
//! `cat`-style numbering prints the counter right-aligned in a field of six
//! characters followed by a tab.  This module gives the decimal numeral of a
//! number and its right-aligned form, as spec functions, and executable
//! functions proved against them.

use vstd::prelude::*;
use vstd::string::StrSliceExecFns;
use vstd::string::StringExecFns;

verus! {

/// The digit character for a value below ten.
pub open spec fn digit_char(d: nat) -> char {
    if d == 0 {
        '0'
    } else if d == 1 {
        '1'
    } else if d == 2 {
        '2'
    } else if d == 3 {
        '3'
    } else if d == 4 {
        '4'
    } else if d == 5 {
        '5'
    } else if d == 6 {
        '6'
    } else if d == 7 {
        '7'
    } else if d == 8 {
        '8'
    } else {
        '9'
    }
}

/// The decimal numeral of `n`, most significant digit first, without sign
/// or leading zeros (the numeral of zero is `"0"`).
pub open spec fn decimal(n: nat) -> Seq<char>
    decreases n,
{
    if n < 10 {
        seq![digit_char(n)]
    } else {
        decimal(n / 10).push(digit_char(n % 10))
    }
}

/// A run of `n` spaces.
pub open spec fn spaces(n: nat) -> Seq<char>
    decreases n,
{
    if n == 0 {
        Seq::empty()
    } else {
        spaces((n - 1) as nat).push(' ')
    }
}

/// `s` right-aligned in a field of width six: a shorter text gains leading
/// spaces, a longer one is kept whole.
pub open spec fn right_aligned(s: Seq<char>) -> Seq<char> {
    if s.len() >= 6 {
        s
    } else {
        spaces((6 - s.len()) as nat) + s
    }
}

pub proof fn lemma_spaces_len(n: nat)
    ensures
        spaces(n).len() == n,
    decreases n,
{
    if n > 0 {
        lemma_spaces_len((n - 1) as nat);
    }
}

/// The number field is never narrower than six characters.
pub proof fn lemma_right_aligned_len(s: Seq<char>)
    ensures
        right_aligned(s).len() == if s.len() >= 6 { s.len() } else { 6nat },
        right_aligned(s).len() >= 6,
{
    if s.len() < 6 {
        lemma_spaces_len((6 - s.len()) as nat);
    }
}

fn digit_str(d: u64) -> (r: &'static str)
    requires
        d < 10,
    ensures
        r@ =~= seq![digit_char(d as nat)],
{
    proof {
        reveal_strlit("0");
        reveal_strlit("1");
        reveal_strlit("2");
        reveal_strlit("3");
        reveal_strlit("4");
        reveal_strlit("5");
        reveal_strlit("6");
        reveal_strlit("7");
        reveal_strlit("8");
        reveal_strlit("9");
    }
    if d == 0 {
        "0"
    } else if d == 1 {
        "1"
    } else if d == 2 {
        "2"
    } else if d == 3 {
        "3"
    } else if d == 4 {
        "4"
    } else if d == 5 {
        "5"
    } else if d == 6 {
        "6"
    } else if d == 7 {
        "7"
    } else if d == 8 {
        "8"
    } else {
        "9"
    }
}

/// The decimal numeral of `n` as a string.
pub fn decimal_string(n: u64) -> (r: String)
    ensures
        r@ == decimal(n as nat),
    decreases n,
{
    if n < 10 {
        let s = String::from_str(digit_str(n));
        proof {
            assert(s@ =~= decimal(n as nat));
        }
        s
    } else {
        let mut s = decimal_string(n / 10);
        s.append(digit_str(n % 10));
        proof {
            assert(s@ =~= decimal(n as nat));
        }
        s
    }
}

/// The decimal numeral of `n`, right-aligned in a field of width six.
pub fn aligned_decimal(n: u64) -> (r: String)
    ensures
        r@ == right_aligned(decimal(n as nat)),
{
    let digits = decimal_string(n);
    let len = digits.as_str().unicode_len();
    if len >= 6 {
        digits
    } else {
        let mut s = String::new();
        let mut i: usize = 0;
        while i < 6 - len
            invariant
                len == decimal(n as nat).len(),
                len < 6,
                i <= 6 - len,
                s@ =~= spaces(i as nat),
            decreases 6 - len - i,
        {
            s.append(" ");
            proof {
                reveal_strlit(" ");
                assert(s@ =~= spaces((i + 1) as nat));
            }
            i = i + 1;
        }
        s.append(digits.as_str());
        proof {
            assert(s@ =~= right_aligned(decimal(n as nat)));
        }
        s
    }
}

} // verus!
