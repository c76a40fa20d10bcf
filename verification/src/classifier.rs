//! The classification rule: which label a number gets.
//!
//! The rule is stated by `classify`, over natural numbers and sequences of
//! characters. `check_number` computes it.

use vstd::prelude::*;

verus! {

/// The character that stands for a single decimal digit.
pub open spec fn digit_char(d: nat) -> char
    recommends
        d < 10,
{
    if d == 0 {
        '0'
    } else if d == 1 {
        '1'
    } else if d == 2 {
        '2'
    } else if d == 3 {
        '3'
    } else if d == 4 {
        '4'
    } else if d == 5 {
        '5'
    } else if d == 6 {
        '6'
    } else if d == 7 {
        '7'
    } else if d == 8 {
        '8'
    } else {
        '9'
    }
}

/// The decimal representation of `n`: most significant digit first, no
/// leading zero except for zero itself.
pub open spec fn decimal(n: nat) -> Seq<char>
    decreases n,
{
    if n < 10 {
        seq![digit_char(n)]
    } else {
        decimal(n / 10).push(digit_char(n % 10))
    }
}

/// The number that a digit character stands for.
pub open spec fn digit_value(c: char) -> nat
    recommends
        '0' <= c <= '9',
{
    if c == '0' {
        0
    } else if c == '1' {
        1
    } else if c == '2' {
        2
    } else if c == '3' {
        3
    } else if c == '4' {
        4
    } else if c == '5' {
        5
    } else if c == '6' {
        6
    } else if c == '7' {
        7
    } else if c == '8' {
        8
    } else {
        9
    }
}

/// The number that a sequence of digits denotes in base ten.
pub open spec fn decimal_value(digits: Seq<char>) -> nat
    decreases digits.len(),
{
    if digits.len() == 0 {
        0
    } else {
        10 * decimal_value(digits.drop_last()) + digit_value(digits.last())
    }
}

/// Label of the multiples of three that are not multiples of five.
pub open spec fn type_one() -> Seq<char> {
    seq!['T', 'y', 'p', 'e', ' ', '1']
}

/// Label of the multiples of five that are not multiples of three.
pub open spec fn type_two() -> Seq<char> {
    seq!['T', 'y', 'p', 'e', ' ', '2']
}

/// Label of the multiples of both three and five.
pub open spec fn type_three() -> Seq<char> {
    seq!['T', 'y', 'p', 'e', ' ', '3']
}

/// The label of `n`: `Type 3` for a multiple of fifteen, `Type 1` for any
/// other multiple of three, `Type 2` for any other multiple of five, and
/// the decimal representation of `n` for every other number.
pub open spec fn classify(n: nat) -> Seq<char> {
    if n % 15 == 0 {
        type_three()
    } else if n % 3 == 0 {
        type_one()
    } else if n % 5 == 0 {
        type_two()
    } else {
        decimal(n)
    }
}

/// What the divisors contribute to a label, in this order: `Type 1` where
/// three divides `n`, then `Type 2` where five divides `n`.
pub open spec fn contributions(n: nat) -> Seq<char> {
    (if n % 3 == 0 {
        type_one()
    } else {
        Seq::empty()
    }) + (if n % 5 == 0 {
        type_two()
    } else {
        Seq::empty()
    })
}

/// A decimal representation is never empty, holds digits only, and starts
/// with a zero only where the number is zero.
pub proof fn lemma_decimal_is_digits(n: nat)
    ensures
        decimal(n).len() >= 1,
        forall|i: int| 0 <= i < decimal(n).len() ==> '0' <= #[trigger] decimal(n)[i] <= '9',
        decimal(n)[0] == '0' <==> n == 0,
    decreases n,
{
    if n >= 10 {
        lemma_decimal_is_digits(n / 10);
    }
}

/// A decimal representation denotes the number it was made from.
pub proof fn lemma_decimal_value(n: nat)
    ensures
        decimal_value(decimal(n)) == n,
    decreases n,
{
    if n < 10 {
        assert(decimal(n).drop_last() =~= Seq::<char>::empty());
        assert(decimal_value(decimal(n).drop_last()) == 0);
    } else {
        lemma_decimal_value(n / 10);
        assert(decimal(n).drop_last() =~= decimal(n / 10));
    }
}

/// Different numbers have different decimal representations.
pub proof fn lemma_decimal_injective(a: nat, b: nat)
    requires
        decimal(a) == decimal(b),
    ensures
        a == b,
{
    lemma_decimal_value(a);
    lemma_decimal_value(b);
}

/// The rule, told by construction: the label is what the divisors
/// contribute, with both contributions together replaced by `Type 3`, and
/// the decimal representation where there is no contribution.
pub proof fn lemma_classify_by_contributions(n: nat)
    ensures
        classify(n) == if contributions(n).len() == 0 {
            decimal(n)
        } else if contributions(n) == type_one() + type_two() {
            type_three()
        } else {
            contributions(n)
        },
{
    let both = type_one() + type_two();
    assert(both.len() == 12);
    if n % 3 == 0 && n % 5 == 0 {
        assert(contributions(n) =~= both);
    } else if n % 3 == 0 {
        assert(contributions(n) =~= type_one());
    } else if n % 5 == 0 {
        assert(contributions(n) =~= type_two());
    } else {
        assert(contributions(n) =~= Seq::<char>::empty());
    }
}

/// The four cases of the rule exclude one another: each of the three named
/// labels is given on exactly its own divisibility class, and the decimal
/// representation on exactly the numbers that neither three nor five
/// divides.
pub proof fn lemma_classify_cases(n: nat)
    ensures
        classify(n) == type_three() <==> n % 15 == 0,
        classify(n) == type_one() <==> n % 3 == 0 && n % 15 != 0,
        classify(n) == type_two() <==> n % 5 == 0 && n % 15 != 0,
        classify(n) == decimal(n) <==> n % 3 != 0 && n % 5 != 0,
{
    lemma_decimal_is_digits(n);
    assert(type_one()[5] == '1' && type_two()[5] == '2' && type_three()[5] == '3');
    assert(type_one()[0] == 'T' && type_two()[0] == 'T' && type_three()[0] == 'T');
    assert('0' <= decimal(n)[0] <= '9');
}

/// One decimal digit as a string of one character.
fn digit_str(d: usize) -> (s: &'static str)
    requires
        d < 10,
    ensures
        s@ == seq![digit_char(d as nat)],
{
    proof {
        reveal_strlit("0");
        reveal_strlit("1");
        reveal_strlit("2");
        reveal_strlit("3");
        reveal_strlit("4");
        reveal_strlit("5");
        reveal_strlit("6");
        reveal_strlit("7");
        reveal_strlit("8");
        reveal_strlit("9");
    }
    if d == 0 {
        "0"
    } else if d == 1 {
        "1"
    } else if d == 2 {
        "2"
    } else if d == 3 {
        "3"
    } else if d == 4 {
        "4"
    } else if d == 5 {
        "5"
    } else if d == 6 {
        "6"
    } else if d == 7 {
        "7"
    } else if d == 8 {
        "8"
    } else {
        "9"
    }
}

/// The decimal representation of `n` as an owned string.
fn decimal_string(n: usize) -> (s: String)
    ensures
        s@ == decimal(n as nat),
    decreases n,
{
    if n < 10 {
        digit_str(n).to_owned()
    } else {
        let mut s = decimal_string(n / 10);
        s.append(digit_str(n % 10));
        s
    }
}

/// The label of `number`, by the rule that `classify` states: one of the
/// three named labels where three or five divides the number, else the
/// number written out in decimal.

pub fn check_number(number: usize) -> (label: String)
    ensures
        label@ == classify(number as nat),
        label@ == "Type 3"@ <==> number % 15 == 0,
        label@ == "Type 1"@ <==> number % 3 == 0 && number % 15 != 0,
        label@ == "Type 2"@ <==> number % 5 == 0 && number % 15 != 0,
        label@ == decimal(number as nat) <==> number % 3 != 0 && number % 5 != 0,
{
    proof {
        reveal_strlit("Type 1");
        reveal_strlit("Type 2");
        reveal_strlit("Type 3");
        lemma_classify_cases(number as nat);
        assert("Type 1"@ =~= type_one());
        assert("Type 2"@ =~= type_two());
        assert("Type 3"@ =~= type_three());
    }
    let by_three = number % 3 == 0;
    let by_five = number % 5 == 0;
    if by_three && by_five {
        "Type 3".to_owned()
    } else if by_three {
        "Type 1".to_owned()
    } else if by_five {
        "Type 2".to_owned()
    } else {
        decimal_string(number)
    }
}

} // verus!
