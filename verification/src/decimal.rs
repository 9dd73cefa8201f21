//! Decimal rendering of integers, as messages and descriptions show them.
use vstd::prelude::*;
use vstd::string::*;

verus! {

/// The character of a decimal digit.
pub open spec fn digit_char(d: int) -> char {
    if d == 0 { '0' }
    else if d == 1 { '1' }
    else if d == 2 { '2' }
    else if d == 3 { '3' }
    else if d == 4 { '4' }
    else if d == 5 { '5' }
    else if d == 6 { '6' }
    else if d == 7 { '7' }
    else if d == 8 { '8' }
    else { '9' }
}

/// The decimal digits of a natural number, most significant first, with
/// no leading zeros (zero itself is `0`).
pub open spec fn digits(n: nat) -> Seq<char>
    decreases n,
{
    if n < 10 {
        seq![digit_char(n as int)]
    } else {
        digits(n / 10).push(digit_char((n % 10) as int))
    }
}

/// The decimal rendering of an integer: a `-` before the digits of its
/// magnitude when it is negative.
pub open spec fn decimal(i: int) -> Seq<char> {
    if i < 0 {
        seq!['-'] + digits((-i) as nat)
    } else {
        digits(i as nat)
    }
}

fn digit_str(d: u64) -> (s: &'static str)
    requires
        d < 10,
    ensures
        s@ == seq![digit_char(d as int)],
{
    if d == 0 {
        proof { reveal_strlit("0"); }
        "0"
    } else if d == 1 {
        proof { reveal_strlit("1"); }
        "1"
    } else if d == 2 {
        proof { reveal_strlit("2"); }
        "2"
    } else if d == 3 {
        proof { reveal_strlit("3"); }
        "3"
    } else if d == 4 {
        proof { reveal_strlit("4"); }
        "4"
    } else if d == 5 {
        proof { reveal_strlit("5"); }
        "5"
    } else if d == 6 {
        proof { reveal_strlit("6"); }
        "6"
    } else if d == 7 {
        proof { reveal_strlit("7"); }
        "7"
    } else if d == 8 {
        proof { reveal_strlit("8"); }
        "8"
    } else {
        proof { reveal_strlit("9"); }
        "9"
    }
}

/// Appends the decimal digits of `n`.
pub fn push_digits(s: &mut String, n: u64)
    ensures
        final(s)@ == old(s)@ + digits(n as nat),
    decreases n,
{
    if n >= 10 {
        push_digits(s, n / 10);
    }
    let d = digit_str(n % 10);
    s.append(d);
    proof {
        if n >= 10 {
            assert(old(s)@ + digits((n / 10) as nat) + seq![digit_char((n % 10) as int)]
                =~= old(s)@ + digits(n as nat));
        } else {
            assert(old(s)@ + seq![digit_char(n as int)] =~= old(s)@ + digits(n as nat));
        }
    }
}

/// Appends the decimal rendering of `i`.
pub fn push_decimal(s: &mut String, i: i64)
    requires
        i > i64::MIN,
    ensures
        final(s)@ == old(s)@ + decimal(i as int),
{
    if i < 0 {
        proof {
            reveal_strlit("-");
        }
        s.append("-");
        let ghost mid = s@;
        push_digits(s, (-i) as u64);
        proof {
            assert(mid + digits((-i) as nat) =~= old(s)@ + (seq!['-'] + digits((-i) as nat)));
        }
    } else {
        push_digits(s, i as u64);
    }
}

/// The value of a decimal digit character (`-1` for any other character).
pub open spec fn digit_value(c: char) -> int {
    if c == '0' { 0 }
    else if c == '1' { 1 }
    else if c == '2' { 2 }
    else if c == '3' { 3 }
    else if c == '4' { 4 }
    else if c == '5' { 5 }
    else if c == '6' { 6 }
    else if c == '7' { 7 }
    else if c == '8' { 8 }
    else if c == '9' { 9 }
    else { -1 }
}

/// The number a string of decimal digits stands for, most significant
/// digit first: each digit's value times the power of ten of its place.
pub open spec fn numeral_value(s: Seq<char>) -> int
    decreases s.len(),
{
    if s.len() == 0 {
        0
    } else {
        numeral_value(s.drop_last()) * 10 + digit_value(s.last())
    }
}

/// `digits(n)` is the standard base-10 numeral of `n`: it is made of
/// decimal digits only, reads back as `n`, and has no leading zero (zero
/// itself is the single digit `0`).
pub proof fn lemma_digits_numeral(n: nat)
    ensures
        digits(n).len() >= 1,
        forall|i: int| 0 <= i < digits(n).len() ==> 0 <= #[trigger] digit_value(digits(n)[i]) <= 9,
        numeral_value(digits(n)) == n,
        n == 0 <==> digits(n)[0] == '0',
        n < 10 <==> digits(n).len() == 1,
    decreases n,
{
    if n < 10 {
        assert(digits(n) =~= seq![digit_char(n as int)]);
        assert(seq![digit_char(n as int)].drop_last() =~= Seq::<char>::empty());
        assert(numeral_value(Seq::<char>::empty()) == 0);
        assert(digit_value(digit_char(n as int)) == n);
        assert(numeral_value(digits(n)) == numeral_value(Seq::<char>::empty()) * 10 + n);
    } else {
        let m = n / 10;
        let d = n % 10;
        lemma_digits_numeral(m);
        let s = digits(n);
        assert(s =~= digits(m).push(digit_char(d as int)));
        assert(s.drop_last() =~= digits(m));
        assert(digit_value(digit_char(d as int)) == d);
        assert(n == m * 10 + d);
        assert(numeral_value(s) == numeral_value(digits(m)) * 10 + d);
        assert forall|i: int| 0 <= i < s.len() implies 0 <= #[trigger] digit_value(s[i]) <= 9 by {
            if i < s.len() - 1 {
                assert(s[i] == digits(m)[i]);
            }
        }
        assert(s[0] == digits(m)[0]);
    }
}

/// Appending a zero digit multiplies by ten: the numeral of `10 * m` is
/// that of `m` followed by `0`, for every positive `m`.
pub proof fn lemma_digits_times_ten(m: nat)
    requires
        m > 0,
    ensures
        digits(10 * m) == digits(m).push('0'),
{
    let n = 10 * m;
    assert(n / 10 == m);
    assert(n % 10 == 0);
}

/// `decimal(i)` is the numeral of `i`: for a negative number a `-` and the
/// numeral of its magnitude, otherwise the numeral itself, which reads
/// back as `i`.
pub proof fn lemma_decimal_numeral(i: int)
    ensures
        i >= 0 ==> numeral_value(decimal(i)) == i && decimal(i) == digits(i as nat)
            && decimal(i)[0] != '-',
        i < 0 ==> decimal(i)[0] == '-' && numeral_value(decimal(i).skip(1)) == -i
            && decimal(i).skip(1) == digits((-i) as nat),
{
    if i >= 0 {
        lemma_digits_numeral(i as nat);
        assert(digit_value(digits(i as nat)[0]) >= 0);
    } else {
        lemma_digits_numeral((-i) as nat);
        assert(decimal(i).skip(1) =~= digits((-i) as nat));
    }
}

} // verus!
