//! Decimal numerals: what the standard formatting of an integer writes.

use vstd::prelude::*;

verus! {

/// The character of a decimal digit.
pub open spec fn digit(d: nat) -> char {
    (48 + d) as char
}

/// Whether a character is a decimal digit.
pub open spec fn is_digit(c: char) -> bool {
    '0' <= c <= '9'
}

/// The decimal numeral of a natural number, without leading zeros.
pub open spec fn decimal(n: nat) -> Seq<char>
    decreases n,
{
    if n < 10 {
        seq![digit(n)]
    } else {
        decimal(n / 10).push(digit(n % 10))
    }
}

/// The decimal numeral of an integer, with a leading minus sign where it is negative.
pub open spec fn signed_decimal(n: int) -> Seq<char> {
    if n < 0 {
        seq!['-'] + decimal((-n) as nat)
    } else {
        decimal(n as nat)
    }
}

fn digit_text(d: u128) -> (text: &'static str)
    requires
        d < 10,
    ensures
        text@ == seq![digit(d as nat)],
{
    proof {
        reveal_strlit("0");
        reveal_strlit("1");
        reveal_strlit("2");
        reveal_strlit("3");
        reveal_strlit("4");
        reveal_strlit("5");
        reveal_strlit("6");
        reveal_strlit("7");
        reveal_strlit("8");
        reveal_strlit("9");
    }
    let text = match d {
        0 => "0",
        1 => "1",
        2 => "2",
        3 => "3",
        4 => "4",
        5 => "5",
        6 => "6",
        7 => "7",
        8 => "8",
        _ => "9",
    };
    assert(text@ =~= seq![digit(d as nat)]);
    text
}

/// The decimal numeral of an unsigned integer.
pub fn decimal_text(n: u128) -> (text: String)
    ensures
        text@ == decimal(n as nat),
    decreases n,
{
    if n < 10 {
        digit_text(n).to_owned()
    } else {
        let mut text = decimal_text(n / 10);
        text.append(digit_text(n % 10));
        assert(text@ =~= decimal(n as nat));
        text
    }
}

/// The decimal numeral of a signed integer.
pub fn signed_decimal_text(n: i128) -> (text: String)
    ensures
        text@ == signed_decimal(n as int),
{
    if n < 0 {
        proof {
            reveal_strlit("-");
        }
        let mut text = "-".to_owned();
        assert(text@ =~= seq!['-']);
        let magnitude: u128 = (-(n + 1)) as u128 + 1;
        text.append(decimal_text(magnitude).as_str());
        text
    } else {
        decimal_text(n as u128)
    }
}

proof fn lemma_digit(d: nat)
    requires
        d < 10,
    ensures
        is_digit(digit(d)),
        digit(d) as nat == 48 + d,
{
}

/// A decimal numeral is not empty and consists of digits.
pub proof fn lemma_decimal_digits(n: nat)
    ensures
        decimal(n).len() > 0,
        forall|i: int| 0 <= i < decimal(n).len() ==> is_digit(#[trigger] decimal(n)[i]),
    decreases n,
{
    lemma_digit(n % 10);
    if n >= 10 {
        lemma_decimal_digits(n / 10);
    }
}

/// Different numbers have different numerals.
pub proof fn lemma_decimal_injective(m: nat, n: nat)
    requires
        decimal(m) == decimal(n),
    ensures
        m == n,
    decreases m,
{
    lemma_digit(m % 10);
    lemma_digit(n % 10);
    if m < 10 {
        assert(decimal(m).last() == digit(m));
        if n >= 10 {
            lemma_decimal_digits(n / 10);
            assert(decimal(n).len() > 1);
        } else {
            assert(decimal(n).last() == digit(n));
        }
    } else {
        lemma_decimal_digits(m / 10);
        assert(decimal(m).len() > 1);
        assert(decimal(m).last() == digit(m % 10));
        assert(decimal(n).last() == digit(n % 10));
        assert(decimal(m).drop_last() =~= decimal(m / 10));
        assert(decimal(n).drop_last() =~= decimal(n / 10));
        lemma_decimal_injective(m / 10, n / 10);
    }
}

/// Different integers have different signed numerals.
pub proof fn lemma_signed_decimal_injective(m: int, n: int)
    requires
        signed_decimal(m) == signed_decimal(n),
    ensures
        m == n,
{
    let p: nat = if m < 0 { (-m) as nat } else { m as nat };
    let q: nat = if n < 0 { (-n) as nat } else { n as nat };
    lemma_decimal_digits(p);
    lemma_decimal_digits(q);
    assert(is_digit(decimal(p)[0]));
    assert(is_digit(decimal(q)[0]));
    assert(signed_decimal(m)[0] == signed_decimal(n)[0]);
    if m < 0 {
        assert(signed_decimal(m).skip(1) =~= decimal(p));
        assert(signed_decimal(n).skip(1) =~= decimal(q));
    }
    lemma_decimal_injective(p, q);
}

} // verus!
