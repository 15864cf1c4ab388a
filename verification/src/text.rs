//! Text that the analysis writes and reads: decimal numbers, amounts of money,
//! case folding and substring search.

use vstd::prelude::*;

verus! {

/// The character that stands for one decimal digit.
pub open spec fn digit_char(d: int) -> char {
    if d == 0 {
        '0'
    } else if d == 1 {
        '1'
    } else if d == 2 {
        '2'
    } else if d == 3 {
        '3'
    } else if d == 4 {
        '4'
    } else if d == 5 {
        '5'
    } else if d == 6 {
        '6'
    } else if d == 7 {
        '7'
    } else if d == 8 {
        '8'
    } else {
        '9'
    }
}

/// A natural number in decimal, without leading zeros; zero is "0".
pub open spec fn decimal_text(n: nat) -> Seq<char>
    decreases n,
{
    if n < 10 {
        seq![digit_char(n as int)]
    } else {
        decimal_text(n / 10).push(digit_char((n % 10) as int))
    }
}

/// The size of an amount, whatever its sign.
pub open spec fn magnitude(amount: int) -> int {
    if amount < 0 {
        -amount
    } else {
        amount
    }
}

/// An amount in cents as units, a point and two digits of cents, with a
/// leading minus sign when it is below zero: `-8950` is "-89.50".
pub open spec fn money_text(cents: int) -> Seq<char> {
    let size = magnitude(cents);
    let sign = if cents < 0 {
        seq!['-']
    } else {
        Seq::<char>::empty()
    };
    sign + decimal_text((size / 100) as nat) + seq![
        '.',
        digit_char(size % 100 / 10),
        digit_char(size % 10),
    ]
}

/// Whether `needle` stands in `text` at position `at`.
pub open spec fn occurs_at(needle: Seq<char>, text: Seq<char>, at: int) -> bool {
    &&& 0 <= at
    &&& at + needle.len() <= text.len()
    &&& text.subrange(at, at + needle.len()) == needle
}

/// Whether `needle` is a contiguous part of `text`.
pub open spec fn occurs_in(needle: Seq<char>, text: Seq<char>) -> bool {
    exists|at: int| occurs_at(needle, text, at)
}

/// The lowercase form of a text as `str::to_lowercase` gives it.
pub uninterp spec fn lowercase_of(text: Seq<char>) -> Seq<char>;

/// Calls `str::to_lowercase`. The result depends on the characters of `text`
/// alone; the contract gives it the name [`lowercase_of`] and says nothing
/// else about it.
#[verifier::external_body]
pub(crate) fn to_lowercase(text: &str) -> (lowered: String)
    ensures
        lowered@ == lowercase_of(text@),
{
    text.to_lowercase()
}

/// Calls `str::contains` with a string pattern: true exactly when the
/// characters of `needle` appear in `text` as one contiguous run.
#[verifier::external_body]
pub(crate) fn contains(text: &str, needle: &str) -> (found: bool)
    ensures
        found == occurs_in(needle@, text@),
{
    text.contains(needle)
}

/// The one-character string of a decimal digit.
fn digit_str(d: u8) -> (s: &'static str)
    requires
        d < 10,
    ensures
        s@ == seq![digit_char(d as int)],
{
    proof {
        reveal_strlit("0");
        reveal_strlit("1");
        reveal_strlit("2");
        reveal_strlit("3");
        reveal_strlit("4");
        reveal_strlit("5");
        reveal_strlit("6");
        reveal_strlit("7");
        reveal_strlit("8");
        reveal_strlit("9");
    }
    let s = if d == 0 {
        "0"
    } else if d == 1 {
        "1"
    } else if d == 2 {
        "2"
    } else if d == 3 {
        "3"
    } else if d == 4 {
        "4"
    } else if d == 5 {
        "5"
    } else if d == 6 {
        "6"
    } else if d == 7 {
        "7"
    } else if d == 8 {
        "8"
    } else {
        "9"
    };
    assert(s@ =~= seq![digit_char(d as int)]);
    s
}

/// Writes a number in decimal.
pub fn decimal_string(n: u128) -> (s: String)
    ensures
        s@ == decimal_text(n as nat),
    decreases n,
{
    if n < 10 {
        String::from_str(digit_str(n as u8))
    } else {
        let mut s = decimal_string(n / 10);
        s.append(digit_str((n % 10) as u8));
        assert(s@ =~= decimal_text((n / 10) as nat).push(digit_char((n % 10) as int)));
        s
    }
}

/// Writes an amount of cents as money, as [`money_text`] describes it.
pub fn money_string(cents: i128) -> (s: String)
    ensures
        s@ == money_text(cents as int),
{
    let size: u128 = if cents < 0 {
        (-(cents + 1)) as u128 + 1
    } else {
        cents as u128
    };
    let mut s = String::new();
    if cents < 0 {
        proof {
            reveal_strlit("-");
        }
        s.append("-");
    }
    let units = decimal_string(size / 100);
    s.append(units.as_str());
    proof {
        reveal_strlit(".");
    }
    s.append(".");
    s.append(digit_str((size % 100 / 10) as u8));
    s.append(digit_str((size % 10) as u8));
    assert(s@ =~= money_text(cents as int));
    s
}

} // verus!
