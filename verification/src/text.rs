//! Numbers as text, as they appear in file names, queries and messages.

use vstd::prelude::*;

verus! {

/// The character of a decimal digit.
pub open spec fn digit(d: nat) -> char
    recommends
        d < 10,
{
    (48 + d) as char
}

/// The decimal notation of a number, without leading zeroes.
pub open spec fn decimal(n: nat) -> Seq<char>
    decreases n,
{
    if n < 10 {
        seq![digit(n)]
    } else {
        decimal(n / 10).push(digit(n % 10))
    }
}

/// The decimal notation of a number, padded with a zero to at least two digits.
pub open spec fn padded(n: nat) -> Seq<char> {
    if n < 10 {
        seq!['0', digit(n)]
    } else {
        decimal(n)
    }
}

/// Two numbers with the same decimal notation are equal.
pub proof fn decimal_injective(a: nat, b: nat)
    requires
        decimal(a) == decimal(b),
    ensures
        a == b,
    decreases a,
{
    let da = decimal(a);
    let db = decimal(b);
    decimal_shape(a);
    decimal_shape(b);
    assert(da.last() == db.last());
    if a >= 10 && b >= 10 {
        assert(da.drop_last() =~= decimal(a / 10));
        assert(db.drop_last() =~= decimal(b / 10));
        decimal_injective(a / 10, b / 10);
    }
}

/// A decimal notation is made of digits, and is a single digit exactly below ten.
pub proof fn decimal_shape(n: nat)
    ensures
        decimal(n).len() >= 1,
        decimal(n).len() == 1 <==> n < 10,
        decimal(n).last() == digit(n % 10),
        forall|i: int| 0 <= i < decimal(n).len() ==> '0' <= #[trigger] decimal(n)[i] <= '9',
    decreases n,
{
    if n >= 10 {
        decimal_shape(n / 10);
    }
}

/// Two numbers with the same padded notation are equal.
pub proof fn padded_injective(a: nat, b: nat)
    requires
        padded(a) == padded(b),
    ensures
        a == b,
{
    decimal_shape(a);
    decimal_shape(b);
    if a < 10 && b < 10 {
        assert(padded(a)[1] == padded(b)[1]);
    } else if a < 10 {
        padded_digit_not_decimal(a, b);
    } else if b < 10 {
        padded_digit_not_decimal(b, a);
    } else {
        decimal_injective(a, b);
    }
}

/// A decimal notation of more than one digit does not start with a zero.
proof fn decimal_leading(n: nat)
    requires
        n >= 1,
    ensures
        decimal(n)[0] != '0',
    decreases n,
{
    if n >= 10 {
        decimal_leading(n / 10);
        decimal_shape(n / 10);
    }
}

proof fn padded_digit_not_decimal(a: nat, b: nat)
    requires
        a < 10 <= b,
    ensures
        padded(a) != padded(b),
{
    decimal_leading(b);
    assert(padded(a)[0] == '0');
}

/// What stands between a given front and a given back is determined by the whole.
pub proof fn middle_is_determined(front: Seq<char>, a: Seq<char>, b: Seq<char>, back: Seq<char>)
    requires
        front + a + back == front + b + back,
    ensures
        a == b,
{
    let whole_a = front + a + back;
    let whole_b = front + b + back;
    assert(whole_a.len() == whole_b.len());
    assert(a =~= whole_a.subrange(front.len() as int, (front.len() + a.len()) as int));
    assert(b =~= whole_b.subrange(front.len() as int, (front.len() + b.len()) as int));
}

/// A decimal notation holds the digits of its number: the character `k` places from the right is
/// the digit of the power `k` of ten, and there are as many characters as the number has digits.
pub proof fn decimal_digits(n: nat)
    ensures
        decimal(n).len() >= 1,
        n < vstd::arithmetic::power::pow(10, decimal(n).len()),
        decimal(n).len() > 1 ==> vstd::arithmetic::power::pow(10, (decimal(n).len() - 1) as nat) <= n,
        forall|k: nat|
            k < decimal(n).len() ==> decimal(n)[decimal(n).len() - 1 - k] as int == 48 + (n as int
                / #[trigger] vstd::arithmetic::power::pow(10, k)) % 10,
    decreases n,
{
    let d = decimal(n);
    vstd::arithmetic::power::lemma_pow0(10);
    vstd::arithmetic::power::lemma_pow1(10);
    if n < 10 {
        assert forall|k: nat| k < d.len() implies d[d.len() - 1 - k] as int == 48 + (n as int
            / #[trigger] vstd::arithmetic::power::pow(10, k)) % 10 by {
            assert(k == 0);
        }
    } else {
        let front = decimal(n / 10);
        decimal_digits(n / 10);
        assert(d.len() == front.len() + 1);
        reveal(vstd::arithmetic::power::pow);
        assert(vstd::arithmetic::power::pow(10, d.len()) == 10 * vstd::arithmetic::power::pow(10, front.len()));
        assert(vstd::arithmetic::power::pow(10, front.len()) == 10 * vstd::arithmetic::power::pow(10, (front.len() - 1) as nat));
        assert forall|k: nat| k < d.len() implies d[d.len() - 1 - k] as int == 48 + (n as int
            / #[trigger] vstd::arithmetic::power::pow(10, k)) % 10 by {
            if k > 0 {
                let j = (k - 1) as nat;
                assert(d[d.len() - 1 - k] == front[front.len() - 1 - j]);
                assert(vstd::arithmetic::power::pow(10, k) == 10 * vstd::arithmetic::power::pow(10, j));
                vstd::arithmetic::power::lemma_pow_positive(10, j);
                vstd::arithmetic::div_mod::lemma_div_denominator(n as int, 10, vstd::arithmetic::power::pow(10, j));
            }
        }
    }
}

/// A padded notation holds the digits of its number, and at least two of them.
pub proof fn padded_digits(n: nat)
    ensures
        padded(n).len() >= 2,
        n < vstd::arithmetic::power::pow(10, padded(n).len()),
        padded(n).len() > 2 ==> vstd::arithmetic::power::pow(10, (padded(n).len() - 1) as nat) <= n,
        forall|k: nat|
            k < padded(n).len() ==> padded(n)[padded(n).len() - 1 - k] as int == 48 + (n as int
                / #[trigger] vstd::arithmetic::power::pow(10, k)) % 10,
{
    decimal_digits(n);
    vstd::arithmetic::power::lemma_pow0(10);
    vstd::arithmetic::power::lemma_pow1(10);
    if n < 10 {
        reveal(vstd::arithmetic::power::pow);
        assert(vstd::arithmetic::power::pow(10, 2) == 10 * vstd::arithmetic::power::pow(10, 1));
        assert forall|k: nat| k < padded(n).len() implies padded(n)[padded(n).len() - 1 - k] as int
            == 48 + (n as int / #[trigger] vstd::arithmetic::power::pow(10, k)) % 10 by {
            assert(k == 0 || k == 1);
        }
    } else {
        decimal_shape(n);
    }
}

/// What is appended to a text stays its end, and the text stays the start.
pub(crate) proof fn ends_of_sum(front: Seq<char>, back: Seq<char>)
    ensures
        front.is_prefix_of(front + back),
        back.is_suffix_of(front + back),
{
    assert((front + back).subrange(0, front.len() as int) =~= front);
    assert((front + back).subrange(front.len() as int, (front + back).len() as int) =~= back);
}

fn digit_text(d: u32) -> (text: &'static str)
    requires
        d < 10,
    ensures
        text@ == seq![digit(d as nat)],
{
    proof {
        reveal_strlit("0");
        reveal_strlit("1");
        reveal_strlit("2");
        reveal_strlit("3");
        reveal_strlit("4");
        reveal_strlit("5");
        reveal_strlit("6");
        reveal_strlit("7");
        reveal_strlit("8");
        reveal_strlit("9");
    }
    match d {
        0 => "0",
        1 => "1",
        2 => "2",
        3 => "3",
        4 => "4",
        5 => "5",
        6 => "6",
        7 => "7",
        8 => "8",
        _ => "9",
    }
}

/// Appends the decimal notation of a number.
pub fn append_decimal(text: &mut String, n: u32)
    ensures
        final(text)@ == old(text)@ + decimal(n as nat),
    decreases n,
{
    if n < 10 {
        text.append(digit_text(n));
    } else {
        append_decimal(text, n / 10);
        text.append(digit_text(n % 10));
    }
}

/// Appends the decimal notation of a number, padded to at least two digits.
pub fn append_padded(text: &mut String, n: u32)
    ensures
        final(text)@ == old(text)@ + padded(n as nat),
{
    if n < 10 {
        proof {
            reveal_strlit("0");
        }
        text.append("0");
    }
    append_decimal(text, n);
}

/// Whether two texts hold the same words between what they start with and what they end in.
pub open spec fn same_words(
    a: Seq<char>,
    a_front: Seq<char>,
    a_back: Seq<char>,
    b: Seq<char>,
    b_front: Seq<char>,
    b_back: Seq<char>,
) -> bool {
    &&& a_front.is_prefix_of(a)
    &&& a_back.is_suffix_of(a)
    &&& a_front.len() + a_back.len() <= a.len()
    &&& b_front.is_prefix_of(b)
    &&& b_back.is_suffix_of(b)
    &&& b_front.len() + b_back.len() <= b.len()
    &&& a.subrange(a_front.len() as int, a.len() - a_back.len()) == b.subrange(
        b_front.len() as int,
        b.len() - b_back.len(),
    )
}

/// Texts that are put together around the same words hold the same words.
pub(crate) proof fn words_of_sums(
    words: Seq<char>,
    a_front: Seq<char>,
    a_back: Seq<char>,
    b_front: Seq<char>,
    b_back: Seq<char>,
)
    ensures
        same_words(
            a_front + words + a_back,
            a_front,
            a_back,
            b_front + words + b_back,
            b_front,
            b_back,
        ),
{
    let a = a_front + words + a_back;
    let b = b_front + words + b_back;
    assert(a =~= a_front + (words + a_back));
    assert(b =~= b_front + (words + b_back));
    ends_of_sum(a_front, words + a_back);
    ends_of_sum(a_front + words, a_back);
    ends_of_sum(b_front, words + b_back);
    ends_of_sum(b_front + words, b_back);
    assert(a.subrange(a_front.len() as int, a.len() - a_back.len()) =~= words);
    assert(b.subrange(b_front.len() as int, b.len() - b_back.len()) =~= words);
}

} // verus!
