//! Whole numbers of any size, written in base 1000 with the lowest digit
//! first. Dividing such a number by a power of 1000 drops its lowest
//! digits, which is what makes exact arithmetic in thousandths cheap.

use vstd::arithmetic::div_mod::{
    lemma_basic_div, lemma_div_denominator, lemma_div_multiples_vanish_fancy,
};
use vstd::arithmetic::power::{lemma_pow0, lemma_pow_increases, lemma_pow_positive, pow};
use vstd::prelude::*;

verus! {

/// Every entry is a digit: below 1000.
pub open spec fn are_digits(s: Seq<u32>) -> bool {
    forall|i: int| 0 <= i < s.len() ==> #[trigger] s[i] < 1000
}

/// The number that digits write, the lowest digit first.
pub open spec fn value(s: Seq<u32>) -> nat
    decreases s.len(),
{
    if s.len() == 0 {
        0
    } else {
        s[0] as nat + 1000 * value(s.drop_first())
    }
}

/// One more digit at the top adds that digit times 1000 to the power of
/// the number of digits below it.
pub proof fn lemma_value_push(s: Seq<u32>, d: u32)
    ensures
        value(s.push(d)) == value(s) + d * pow(1000, s.len()),
    decreases s.len(),
{
    reveal(pow);
    if s.len() == 0 {
        assert(s.push(d).drop_first() =~= Seq::<u32>::empty());
        assert(value(s.push(d)) == d as nat + 1000 * value(Seq::<u32>::empty()));
        assert(pow(1000, 0) == 1);
    } else {
        let rest = s.drop_first();
        lemma_value_push(rest, d);
        assert(s.push(d).drop_first() =~= rest.push(d));
        assert(s.push(d)[0] == s[0]);
        let p = pow(1000, rest.len());
        assert(pow(1000, s.len()) == 1000 * p);
        assert(1000 * (value(rest) + d * p) == 1000 * value(rest) + d * (1000 * p))
            by (nonlinear_arith);
    }
}

/// Dividing by 1000 to the power of `k` drops the `k` lowest digits.
pub proof fn lemma_value_shift(s: Seq<u32>, k: nat)
    requires
        are_digits(s),
        k <= s.len(),
    ensures
        value(s) as int / pow(1000, k) == value(s.skip(k as int)),
    decreases k,
{
    reveal(pow);
    if k == 0 {
        assert(s.skip(0) =~= s);
        assert(pow(1000, 0) == 1);
    } else {
        let rest = s.drop_first();
        let n = (k - 1) as nat;
        lemma_value_shift(rest, n);
        assert(rest.skip(n as int) =~= s.skip(k as int));
        lemma_pow_positive(1000, n);
        lemma_div_multiples_vanish_fancy(value(rest) as int, s[0] as int, 1000);
        assert(value(s) as int == 1000 * value(rest) + s[0]);
        assert(value(s) as int / 1000 == value(rest));
        lemma_div_denominator(value(s) as int, 1000, pow(1000, n));
        assert(pow(1000, k) == 1000 * pow(1000, n));
    }
}

/// Digits write a number below 1000 to the power of their count.
pub proof fn lemma_value_bound(s: Seq<u32>)
    requires
        are_digits(s),
    ensures
        value(s) < pow(1000, s.len()),
    decreases s.len(),
{
    reveal(pow);
    if s.len() > 0 {
        let rest = s.drop_first();
        lemma_value_bound(rest);
        let p = pow(1000, rest.len());
        assert(pow(1000, s.len()) == 1000 * p);
        assert(s[0] as nat + 1000 * value(rest) < 1000 * p) by (nonlinear_arith)
            requires
                s[0] < 1000,
                value(rest) < p,
        ;
    }
}

/// The digits from a higher place on write no more than those from a
/// lower place on.
pub proof fn lemma_skip_monotone(s: Seq<u32>, k: int, j: int)
    requires
        0 <= k <= j <= s.len(),
    ensures
        value(s.skip(j)) <= value(s.skip(k)),
    decreases j - k,
{
    if k < j {
        lemma_skip_monotone(s, k + 1, j);
        assert(s.skip(k).drop_first() =~= s.skip(k + 1));
    }
}

/// The digits of a number.
pub fn to_digits(n: u64) -> (r: Vec<u32>)
    ensures
        are_digits(r@),
        value(r@) == n,
{
    let mut out: Vec<u32> = Vec::new();
    let mut rest: u64 = n;
    proof {
        lemma_pow0(1000);
    }
    while rest > 0
        invariant
            are_digits(out@),
            value(out@) + rest * pow(1000, out@.len()) == n,
        decreases rest,
    {
        let d = (rest % 1000) as u32;
        proof {
            reveal(pow);
            lemma_value_push(out@, d);
            let p = pow(1000, out@.len());
            assert(pow(1000, (out@.len() + 1) as nat) == 1000 * p);
            assert(d * p + (rest / 1000) * (1000 * p) == rest * p) by (nonlinear_arith)
                requires
                    d == rest % 1000,
                    rest == 1000 * (rest / 1000) + rest % 1000,
            ;
        }
        out.push(d);
        rest = rest / 1000;
    }
    out
}

/// The digits of a number multiplied by `factor`.
pub fn mul_small(digits: &Vec<u32>, factor: u32) -> (r: Vec<u32>)
    requires
        are_digits(digits@),
    ensures
        are_digits(r@),
        value(r@) == value(digits@) * factor,
{
    let mut out: Vec<u32> = Vec::new();
    let mut carry: u64 = 0;
    let mut i: usize = 0;
    proof {
        lemma_pow0(1000);
        assert(digits@.take(0) =~= Seq::<u32>::empty());
        assert(value(digits@.take(0)) * factor == 0) by (nonlinear_arith)
            requires
                value(digits@.take(0)) == 0,
        ;
        assert(carry * pow(1000, 0) == 0) by (nonlinear_arith)
            requires
                carry == 0,
        ;
    }
    while i < digits.len()
        invariant
            i <= digits.len(),
            are_digits(digits@),
            are_digits(out@),
            out@.len() == i,
            carry <= factor,
            value(out@) + carry * pow(1000, i as nat) == value(digits@.take(i as int)) * factor,
        decreases digits.len() - i,
    {
        assert(digits[i as int] * factor + carry <= 999 * 0xffff_ffff + 0xffff_ffff)
            by (nonlinear_arith)
            requires
                digits[i as int] <= 999,
                factor <= 0xffff_ffff,
                carry <= factor,
        ;
        let t: u64 = (digits[i] as u64) * (factor as u64) + carry;
        let d = (t % 1000) as u32;
        proof {
            reveal(pow);
            let p = pow(1000, i as nat);
            lemma_value_push(out@, d);
            lemma_value_push(digits@.take(i as int), digits[i as int]);
            assert(digits@.take(i + 1) =~= digits@.take(i as int).push(digits[i as int]));
            assert(pow(1000, (i + 1) as nat) == 1000 * p);
            let before = value(digits@.take(i as int)) as int;
            let x = digits[i as int] as int;
            assert(value(out@) + d * p + (t / 1000) * (1000 * p) == (before + x * p) * factor)
                by (nonlinear_arith)
                requires
                    value(out@) + carry * p == before * factor,
                    t == x * factor + carry,
                    t == 1000 * (t / 1000) + d,
            ;
            assert(t / 1000 <= factor) by (nonlinear_arith)
                requires
                    t == x * factor + carry,
                    x <= 999,
                    carry <= factor,
                    factor >= 0,
            ;
        }
        out.push(d);
        carry = t / 1000;
        i += 1;
    }
    proof {
        assert(digits@.take(i as int) =~= digits@);
    }
    while carry > 0
        invariant
            are_digits(out@),
            value(out@) + carry * pow(1000, out@.len()) == value(digits@) * factor,
        decreases carry,
    {
        let d = (carry % 1000) as u32;
        proof {
            reveal(pow);
            lemma_value_push(out@, d);
            let p = pow(1000, out@.len());
            assert(pow(1000, (out@.len() + 1) as nat) == 1000 * p);
            assert(d * p + (carry / 1000) * (1000 * p) == carry * p) by (nonlinear_arith)
                requires
                    d == carry % 1000,
                    carry == 1000 * (carry / 1000) + carry % 1000,
            ;
        }
        out.push(d);
        carry = carry / 1000;
    }
    out
}

/// The number divided by 1000 to the power of `k`, rounded down: `Some`
/// of it where it fits into 64 bits, `None` where it does not.
pub fn shifted_value(digits: &Vec<u32>, k: usize) -> (r: Option<u64>)
    requires
        are_digits(digits@),
    ensures
        r matches Some(v) ==> v == value(digits@) as int / pow(1000, k as nat),
        r is None ==> value(digits@) as int / pow(1000, k as nat) > u64::MAX,
{
    if k >= digits.len() {
        proof {
            lemma_value_bound(digits@);
            lemma_pow_increases(1000, digits@.len(), k as nat);
            lemma_basic_div(value(digits@) as int, pow(1000, k as nat));
        }
        return Some(0);
    }
    let mut acc: u128 = 0;
    let mut j: usize = digits.len();
    proof {
        assert(digits@.skip(j as int) =~= Seq::<u32>::empty());
        lemma_value_shift(digits@, k as nat);
    }
    while j > k
        invariant
            k <= j <= digits.len(),
            are_digits(digits@),
            acc == value(digits@.skip(j as int)),
            acc <= u64::MAX,
            value(digits@) as int / pow(1000, k as nat) == value(digits@.skip(k as int)),
        decreases j,
    {
        j -= 1;
        let d = digits[j];
        proof {
            assert(digits@.skip(j as int).drop_first() =~= digits@.skip(j + 1));
            assert(digits@.skip(j as int)[0] == d);
        }
        let next: u128 = acc * 1000 + d as u128;
        if next > u64::MAX as u128 {
            proof {
                lemma_skip_monotone(digits@, k as int, j as int);
            }
            return None;
        }
        acc = next;
    }
    Some(acc as u64)
}

} // verus!
