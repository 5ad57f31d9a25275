//! Decimal rendering of integers, as it appears in SQL placeholders and in
//! the messages sent to clients.

use vstd::prelude::*;
use vstd::string::StringExecFns;

verus! {

/// The character that stands for the decimal digit `d`.
pub open spec fn digit(d: nat) -> char
    recommends
        d < 10,
{
    if d == 0 {
        '0'
    } else if d == 1 {
        '1'
    } else if d == 2 {
        '2'
    } else if d == 3 {
        '3'
    } else if d == 4 {
        '4'
    } else if d == 5 {
        '5'
    } else if d == 6 {
        '6'
    } else if d == 7 {
        '7'
    } else if d == 8 {
        '8'
    } else {
        '9'
    }
}

/// The decimal numeral of `n`: most significant digit first, no leading
/// zero, and the single digit `0` for zero.
pub open spec fn natural_text(n: nat) -> Seq<char>
    decreases n,
{
    if n < 10 {
        seq![digit(n)]
    } else {
        natural_text(n / 10).push(digit(n % 10))
    }
}

/// The decimal numeral of `i`, with a leading minus sign when `i` is
/// negative.
pub open spec fn integer_text(i: int) -> Seq<char> {
    if i < 0 {
        seq!['-'] + natural_text((-i) as nat)
    } else {
        natural_text(i as nat)
    }
}

fn digit_str(d: u32) -> (s: &'static str)
    requires
        d < 10,
    ensures
        s@ == seq![digit(d as nat)],
{
    proof {
        reveal_strlit("0");
        reveal_strlit("1");
        reveal_strlit("2");
        reveal_strlit("3");
        reveal_strlit("4");
        reveal_strlit("5");
        reveal_strlit("6");
        reveal_strlit("7");
        reveal_strlit("8");
        reveal_strlit("9");
    }
    let s = match d {
        0 => "0",
        1 => "1",
        2 => "2",
        3 => "3",
        4 => "4",
        5 => "5",
        6 => "6",
        7 => "7",
        8 => "8",
        _ => "9",
    };
    assert(s@ =~= seq![digit(d as nat)]);
    s
}

/// Appends the decimal numeral of `n` to `out`.
pub fn push_natural(out: &mut String, n: u32)
    ensures
        final(out)@ == old(out)@ + natural_text(n as nat),
    decreases n,
{
    if n >= 10 {
        push_natural(out, n / 10);
    }
    out.append(digit_str(n % 10));
    assert(out@ =~= old(out)@ + natural_text(n as nat));
}

/// Appends the decimal numeral of `i` to `out`.
pub fn push_integer(out: &mut String, i: i32)
    ensures
        final(out)@ == old(out)@ + integer_text(i as int),
{
    if i < 0 {
        proof {
            reveal_strlit("-");
        }
        out.append("-");
        let magnitude: u32 = (-(i as i64)) as u32;
        push_natural(out, magnitude);
        assert(out@ =~= old(out)@ + integer_text(i as int));
    } else {
        push_natural(out, i as u32);
    }
}

/// The number that the decimal digit `c` stands for.
pub open spec fn digit_value(c: char) -> nat {
    if c == '0' {
        0
    } else if c == '1' {
        1
    } else if c == '2' {
        2
    } else if c == '3' {
        3
    } else if c == '4' {
        4
    } else if c == '5' {
        5
    } else if c == '6' {
        6
    } else if c == '7' {
        7
    } else if c == '8' {
        8
    } else {
        9
    }
}

/// Whether `c` is one of the ten decimal digits.
pub open spec fn is_digit(c: char) -> bool {
    c == '0' || c == '1' || c == '2' || c == '3' || c == '4' || c == '5' || c == '6' || c == '7'
        || c == '8' || c == '9'
}

/// The number that a string of decimal digits stands for.
pub open spec fn natural_value(s: Seq<char>) -> nat
    decreases s.len(),
{
    if s.len() == 0 {
        0
    } else {
        natural_value(s.drop_last()) * 10 + digit_value(s.last())
    }
}

/// A numeral is never empty and holds nothing but digits.
pub proof fn lemma_natural_text_digits(n: nat)
    ensures
        natural_text(n).len() >= 1,
        forall|i: int| 0 <= i < natural_text(n).len() ==> is_digit(#[trigger] natural_text(n)[i]),
    decreases n,
{
    if n >= 10 {
        lemma_natural_text_digits(n / 10);
    }
}

/// Reading a numeral gives back the number it was written for.
pub proof fn lemma_natural_round_trip(n: nat)
    ensures
        natural_value(natural_text(n)) == n,
    decreases n,
{
    let s = natural_text(n);
    if n < 10 {
        assert(s.drop_last() =~= Seq::<char>::empty());
        assert(natural_value(s.drop_last()) == 0);
    } else {
        lemma_natural_round_trip(n / 10);
        assert(s.drop_last() =~= natural_text(n / 10));
    }
}

/// Two numbers with the same numeral are the same number.
pub proof fn lemma_natural_text_injective(a: nat, b: nat)
    requires
        natural_text(a) == natural_text(b),
    ensures
        a == b,
{
    lemma_natural_round_trip(a);
    lemma_natural_round_trip(b);
}

/// Two integers with the same numeral are the same integer.
pub proof fn lemma_integer_text_injective(a: int, b: int)
    requires
        integer_text(a) == integer_text(b),
    ensures
        a == b,
{
    let minus = seq!['-'];
    if a < 0 && b < 0 {
        let x = natural_text((-a) as nat);
        let y = natural_text((-b) as nat);
        let sx = minus + x;
        let sy = minus + y;
        assert(sx == sy);
        assert(x =~= sx.subrange(1, sx.len() as int));
        assert(y =~= sy.subrange(1, sy.len() as int));
        lemma_natural_text_injective((-a) as nat, (-b) as nat);
    } else if a < 0 {
        lemma_natural_text_digits(b as nat);
        assert(integer_text(a)[0] == '-');
        assert(is_digit(natural_text(b as nat)[0]));
    } else if b < 0 {
        lemma_natural_text_digits(a as nat);
        assert(integer_text(b)[0] == '-');
        assert(is_digit(natural_text(a as nat)[0]));
    } else {
        lemma_natural_text_injective(a as nat, b as nat);
    }
}

} // verus!
