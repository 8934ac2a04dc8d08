//! Decimal rendering of integers, with the zero padding that `{:02}` and `{:04}` give.
use vstd::prelude::*;

verus! {

/// The character of a decimal digit.
pub open spec fn digit_char(d: nat) -> char {
    if d == 0 { '0' } else if d == 1 { '1' } else if d == 2 { '2' } else if d == 3 { '3' }
    else if d == 4 { '4' } else if d == 5 { '5' } else if d == 6 { '6' } else if d == 7 { '7' }
    else if d == 8 { '8' } else { '9' }
}

/// The decimal digits of `n`, most significant first, without leading zeros.
pub open spec fn digits(n: nat) -> Seq<char>
    decreases n,
{
    if n < 10 {
        seq![digit_char(n)]
    } else {
        digits(n / 10).push(digit_char(n % 10))
    }
}

/// `n` in decimal, with a leading `-` when negative.
pub open spec fn decimal(n: int) -> Seq<char> {
    if n < 0 {
        seq!['-'] + digits((-n) as nat)
    } else {
        digits(n as nat)
    }
}

/// `n` as `{:0w$}` writes it: the sign, then zeros, then the digits, at least `w` wide.
pub open spec fn padded(n: int, w: nat) -> Seq<char> {
    let sign: Seq<char> = if n < 0 { seq!['-'] } else { seq![] };
    let ds = digits(if n < 0 { (-n) as nat } else { n as nat });
    let fill = w - sign.len() - ds.len();
    if fill > 0 {
        sign + Seq::new(fill as nat, |i: int| '0') + ds
    } else {
        sign + ds
    }
}

fn digit_str(d: u64) -> (r: &'static str)
    requires
        d < 10,
    ensures
        r@ == seq![digit_char(d as nat)],
{
    proof {
        reveal_strlit("0");
        reveal_strlit("1");
        reveal_strlit("2");
        reveal_strlit("3");
        reveal_strlit("4");
        reveal_strlit("5");
        reveal_strlit("6");
        reveal_strlit("7");
        reveal_strlit("8");
        reveal_strlit("9");
    }
    if d == 0 { "0" } else if d == 1 { "1" } else if d == 2 { "2" } else if d == 3 { "3" }
    else if d == 4 { "4" } else if d == 5 { "5" } else if d == 6 { "6" } else if d == 7 { "7" }
    else if d == 8 { "8" } else { "9" }
}

fn push_digits(out: &mut String, n: u64)
    ensures
        final(out)@ == old(out)@ + digits(n as nat),
    decreases n,
{
    if n >= 10 {
        push_digits(out, n / 10);
    }
    out.append(digit_str(n % 10));
    assert(n >= 10 ==> digits(n as nat) == digits((n / 10) as nat).push(digit_char((n % 10) as nat)));
    assert(final(out)@ =~= old(out)@ + digits(n as nat));
}

/// Appends `n` in decimal.
pub fn push_decimal(out: &mut String, n: i64)
    ensures
        final(out)@ == old(out)@ + decimal(n as int),
{
    if n < 0 {
        proof { reveal_strlit("-"); }
        out.append("-");
        let m: u64 = if n == i64::MIN { 9223372036854775808u64 } else { (-n) as u64 };
        push_digits(out, m);
        assert(final(out)@ =~= old(out)@ + decimal(n as int));
    } else {
        push_digits(out, n as u64);
    }
}

/// Appends `n` as `{:0w$}` writes it.
pub fn push_padded(out: &mut String, n: i64, w: usize)
    ensures
        final(out)@ == old(out)@ + padded(n as int, w as nat),
{
    let ghost start = out@;
    let neg = n < 0;
    let m: u64 = if n == i64::MIN { 9223372036854775808u64 } else if neg { (-n) as u64 } else { n as u64 };
    if neg {
        proof { reveal_strlit("-"); }
        out.append("-");
    }
    let ghost sign: Seq<char> = if neg { seq!['-'] } else { seq![] };
    assert(out@ =~= start + sign);
    let width = digit_count(m) + if neg { 1 } else { 0 };
    let mut k: usize = width;
    proof { reveal_strlit("0"); }
    while k < w
        invariant
            width <= k <= (if width <= w { w } else { width }),
            out@ == start + sign + Seq::new((k - width) as nat, |i: int| '0'),
        decreases w - k,
    {
        proof { reveal_strlit("0"); }
        out.append("0");
        assert(out@ =~= start + sign + Seq::new((k + 1 - width) as nat, |i: int| '0'));
        k = k + 1;
    }
    push_digits(out, m);
    proof {
        let ds = digits(m as nat);
        let fill = w - sign.len() - ds.len();
        if fill > 0 {
            assert(k == w);
        } else {
            assert(k == width);
            assert(Seq::new(0nat, |i: int| '0') =~= Seq::<char>::empty());
        }
        assert(final(out)@ =~= start + padded(n as int, w as nat));
    }
}

fn digit_count(n: u64) -> (r: usize)
    ensures
        r == digits(n as nat).len(),
        r <= 20,
    decreases n,
{
    if n < 10 {
        1
    } else {
        let k = digit_count(n / 10);
        assert(digits(n as nat) == digits((n / 10) as nat).push(digit_char((n % 10) as nat)));
        proof { lemma_digit_count_bound(n as nat); }
        k + 1
    }
}

proof fn lemma_digit_count_bound(n: nat)
    requires
        n <= u64::MAX,
    ensures
        digits(n).len() <= 20,
{
    assert(pow10(20) == 100000000000000000000nat) by {
        reveal_with_fuel(pow10, 21);
    }
    lemma_digits_len_pow(n, 20);
}

proof fn lemma_digits_len_pow(n: nat, k: nat)
    requires
        k >= 1,
        n < pow10(k),
    ensures
        digits(n).len() <= k,
    decreases n,
{
    if n >= 10 {
        assert(k >= 2) by {
            if k == 1 {
                assert(pow10(1) == 10 * pow10(0));
            }
        }
        assert(pow10(k) == 10 * pow10((k - 1) as nat));
        assert(n / 10 < pow10((k - 1) as nat));
        lemma_digits_len_pow(n / 10, (k - 1) as nat);
    }
}

spec fn pow10(k: nat) -> nat
    decreases k,
{
    if k == 0 { 1 } else { 10 * pow10((k - 1) as nat) }
}

} // verus!
