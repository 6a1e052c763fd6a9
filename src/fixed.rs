//! Fixed-point quantities.
//!
//! Prices, sizes, amounts of money and fractions are held as `u64` counts of
//! millionths: the value `1.0` is `SCALE`, a price of `0.48` is `480_000`.

use vstd::prelude::*;

verus! {

/// The number of units in one whole.
pub const SCALE: u64 = 1_000_000;

/// `a * b` in fixed point, rounded down.
pub open spec fn mul_spec(a: int, b: int) -> int {
    a * b / (SCALE as int)
}

/// Product of two fixed-point quantities, rounded down; `None` when it does
/// not fit in a `u64`.
pub fn mul_fixed(a: u64, b: u64) -> (r: Option<u64>)
    ensures
        match r {
            Some(v) => v as int == mul_spec(a as int, b as int),
            None => mul_spec(a as int, b as int) > u64::MAX as int,
        },
{
    assert(a as int * b as int <= u64::MAX as int * u64::MAX as int) by (nonlinear_arith);
    let p: u128 = (a as u128) * (b as u128);
    let q: u128 = p / (SCALE as u128);
    if q > u64::MAX as u128 {
        None
    } else {
        Some(q as u64)
    }
}

pub open spec fn is_digit(c: char) -> bool {
    '0' <= c && c <= '9'
}

pub open spec fn all_digits(s: Seq<char>) -> bool {
    forall|i: int| 0 <= i < s.len() ==> is_digit(#[trigger] s[i])
}

/// The number a string of decimal digits stands for.
pub open spec fn digits_value(s: Seq<char>) -> int
    decreases s.len(),
{
    if s.len() == 0 {
        0
    } else {
        digits_value(s.drop_last()) * 10 + (s.last() as int - '0' as int)
    }
}

/// `s` followed by zeros up to length `n`.
pub open spec fn pad_zeros(s: Seq<char>, n: nat) -> Seq<char>
    decreases n - s.len(),
{
    if s.len() >= n {
        s
    } else {
        pad_zeros(s.push('0'), n)
    }
}

/// The millionths that fractional digits `f` stand for: the first six digits,
/// padded with zeros; later digits are cut off.
pub open spec fn frac_value(f: Seq<char>) -> int {
    if f.len() >= 6 {
        digits_value(f.take(6))
    } else {
        digits_value(pad_zeros(f, 6))
    }
}

/// Whether `s` is digits, a point at `i`, then digits, with at least one digit.
pub open spec fn point_at(s: Seq<char>, i: int) -> bool {
    &&& 0 <= i < s.len()
    &&& s[i] == '.'
    &&& all_digits(s.take(i))
    &&& all_digits(s.skip(i + 1))
    &&& s.len() >= 2
}

/// The fixed-point value written in decimal as `s` (digits, optionally a point
/// and more digits), rounded down to millionths; `None` for any other text.
pub open spec fn fixed_of_text(s: Seq<char>) -> Option<int> {
    if s.len() > 0 && all_digits(s) {
        Some(digits_value(s) * SCALE)
    } else if exists|i: int| point_at(s, i) {
        let i = choose|i: int| point_at(s, i);
        Some(digits_value(s.take(i)) * SCALE + frac_value(s.skip(i + 1)))
    } else {
        None
    }
}

proof fn lemma_digits_value_grows(s: Seq<char>, i: int)
    requires
        0 <= i <= s.len(),
        all_digits(s),
    ensures
        digits_value(s) >= digits_value(s.take(i)),
        digits_value(s.take(i)) >= 0,
    decreases s.len(),
{
    if s.len() > 0 {
        let init = s.drop_last();
        assert(all_digits(init)) by {
            assert forall|k: int| 0 <= k < init.len() implies is_digit(#[trigger] init[k]) by {
                assert(init[k] == s[k]);
            }
        }
        if i == s.len() {
            assert(s.take(i) =~= s);
            lemma_digits_value_grows(init, 0);
            assert(s.take(0) =~= init.take(0));
        } else {
            lemma_digits_value_grows(init, i);
            assert(init.take(i) =~= s.take(i));
        }
        assert(is_digit(s[s.len() - 1]));
    } else {
        assert(s.take(i) =~= s);
    }
}

proof fn lemma_point_unique(s: Seq<char>, i: int, j: int)
    requires
        point_at(s, i),
        point_at(s, j),
    ensures
        i == j,
{
    if i < j {
        assert(s.skip(i + 1)[j - i - 1] == s[j]);
    } else if j < i {
        assert(s.skip(j + 1)[i - j - 1] == s[i]);
    }
}

proof fn lemma_pad_value(s: Seq<char>, n: nat, v: int)
    requires
        s.len() <= n,
        v == digits_value(s),
    ensures
        digits_value(pad_zeros(s, n)) == v * pow10((n - s.len()) as nat),
    decreases n - s.len(),
{
    if s.len() < n {
        let t = s.push('0');
        assert(t.drop_last() =~= s);
        lemma_pad_value(t, n, v * 10);
        lemma_pow10_step((n - t.len()) as nat);
        assert(v * 10 * pow10((n - t.len()) as nat) == v * pow10((n - s.len()) as nat)) by (nonlinear_arith)
            requires pow10((n - s.len()) as nat) == 10 * pow10((n - t.len()) as nat);
    } else {
        assert(pow10(0) == 1);
    }
}

pub open spec fn pow10(n: nat) -> int
    decreases n,
{
    if n == 0 { 1 } else { 10 * pow10((n - 1) as nat) }
}

proof fn lemma_pow10_mono(a: nat, b: nat)
    requires
        a <= b,
    ensures
        pow10(a) <= pow10(b),
        pow10(6) == 1_000_000,
    decreases b - a,
{
    reveal_with_fuel(pow10, 7);
    lemma_pow10_nonneg(a);
    if a < b {
        lemma_pow10_mono(a, (b - 1) as nat);
        assert(pow10(b) == 10 * pow10((b - 1) as nat));
    }
}

proof fn lemma_pow10_step(n: nat)
    ensures
        pow10(n + 1) == 10 * pow10(n),
{
}

/// A valid text whose whole part starts with digits worth more than `u64::MAX`
/// stands for a value past `u64::MAX`.
proof fn lemma_big_prefix(t: Seq<char>, i: int)
    requires
        0 < i <= t.len(),
        all_digits(t.take(i)),
        digits_value(t.take(i)) > u64::MAX,
        fixed_of_text(t) is Some,
    ensures
        fixed_of_text(t).unwrap() > u64::MAX,
{
    if t.len() > 0 && all_digits(t) {
        lemma_digits_value_grows(t, i);
        assert(digits_value(t) * SCALE >= digits_value(t)) by (nonlinear_arith)
            requires digits_value(t) >= 0;
    } else {
        let k = choose|k: int| point_at(t, k);
        if k < i {
            assert(t.take(i)[k] == t[k]);
        }
        let w = t.take(k);
        assert(w.take(i) =~= t.take(i));
        assert(all_digits(w));
        lemma_digits_value_grows(w, i);
        lemma_frac_nonneg(t.skip(k + 1));
        assert(digits_value(w) * SCALE >= digits_value(w)) by (nonlinear_arith)
            requires digits_value(w) >= 0;
    }
}

proof fn lemma_frac_nonneg(f: Seq<char>)
    requires
        all_digits(f),
    ensures
        frac_value(f) >= 0,
{
    if f.len() >= 6 {
        let g = f.take(6);
        assert(all_digits(g)) by {
            assert forall|k: int| 0 <= k < g.len() implies is_digit(#[trigger] g[k]) by {
                assert(g[k] == f[k]);
            }
        }
        lemma_digits_value_grows(g, 0);
    } else {
        lemma_pad_value(f, 6, digits_value(f));
        lemma_digits_value_grows(f, 0);
        assert(f.take(0) =~= Seq::<char>::empty());
        lemma_pow10_nonneg((6 - f.len()) as nat);
        assert(digits_value(f) * pow10((6 - f.len()) as nat) >= 0) by (nonlinear_arith)
            requires digits_value(f) >= 0, pow10((6 - f.len()) as nat) >= 0;
    }
}

proof fn lemma_pow10_nonneg(n: nat)
    ensures
        pow10(n) >= 1,
    decreases n,
{
    if n > 0 {
        lemma_pow10_nonneg((n - 1) as nat);
    }
}

/// Reads a non-negative decimal number as a fixed-point quantity, rounding
/// down past the sixth fractional digit; `None` for other text or a value that
/// does not fit.
pub fn parse_fixed(s: &str) -> (r: Option<u64>)
    ensures
        match r {
            Some(v) => fixed_of_text(s@) == Some(v as int),
            None => fixed_of_text(s@) is None || fixed_of_text(s@).unwrap() > u64::MAX,
        },
{
    let n = s.unicode_len();
    let ghost t = s@;
    let mut whole: u128 = 0;
    let mut i: usize = 0;
    while i < n
        invariant
            n == t.len(),
            t == s@,
            i <= n,
            all_digits(t.take(i as int)),
            whole == digits_value(t.take(i as int)),
            whole <= u64::MAX,
        ensures
            i <= n,
            all_digits(t.take(i as int)),
            whole == digits_value(t.take(i as int)),
            whole <= u64::MAX,
            i < n ==> !is_digit(t[i as int]),
        decreases n - i,
    {
        let c = s.get_char(i);
        if !('0' <= c && c <= '9') {
            break;
        }
        assert(t.take(i + 1).drop_last() =~= t.take(i as int));
        assert(all_digits(t.take(i + 1))) by {
            assert forall|k: int| 0 <= k < i + 1 implies is_digit(#[trigger] t.take(i + 1)[k]) by {
                if k < i {
                    assert(t.take(i + 1)[k] == t.take(i as int)[k]);
                }
            }
        }
        let next: u128 = whole * 10 + (c as u128 - '0' as u128);
        if next > u64::MAX as u128 {
            proof {
                if fixed_of_text(t) is Some {
                    lemma_big_prefix(t, i + 1);
                }
            }
            return None;
        }
        whole = next;
        i = i + 1;
    }
    assert(whole * 1_000_000 <= u64::MAX as int * 1_000_000) by (nonlinear_arith)
        requires whole <= u64::MAX;
    if i == n {
        assert(t.take(i as int) =~= t);
        if n == 0 {
            return None;
        }
        let v: u128 = whole * (SCALE as u128);
        if v > u64::MAX as u128 {
            return None;
        }
        return Some(v as u64);
    }
    if s.get_char(i) != '.' {
        proof {
            assert(!all_digits(t));
            assert forall|k: int| !point_at(t, k) by {
                if point_at(t, k) {
                    if k < i {
                        assert(t.take(i as int)[k] == t[k]);
                    } else if k > i {
                        assert(t.take(k)[i as int] == t[i as int]);
                    }
                }
            }
        }
        return None;
    }
    let ghost f = t.skip(i + 1);
    proof {
        lemma_pow10_mono(0, 6);
        reveal_with_fuel(pow10, 1);
    }
    let mut frac: u64 = 0;
    let mut j: usize = i + 1;
    while j < n
        invariant
            n == t.len(),
            t == s@,
            f == t.skip(i + 1),
            i < n,
            t[i as int] == '.',
            all_digits(t.take(i as int)),
            i + 1 <= j <= n,
            all_digits(f.take(j - i - 1)),
            j - i - 1 <= 6 ==> frac == digits_value(f.take(j - i - 1)),
            j - i - 1 > 6 ==> frac == digits_value(f.take(6)),
            j - i - 1 <= 6 ==> frac < pow10((j - i - 1) as nat),
            frac < pow10(6),
        decreases n - j,
    {
        let c = s.get_char(j);
        if !('0' <= c && c <= '9') {
            proof {
                assert(f[j - i - 1] == t[j as int]);
                assert(!point_at(t, i as int));
                assert(!is_digit(t[i as int]));
                assert(!all_digits(t));
                assert forall|k: int| !point_at(t, k) by {
                    if point_at(t, k) {
                        if k < i {
                            assert(t.take(i as int)[k] == t[k]);
                        } else if k > i {
                            assert(t.take(k)[i as int] == t[i as int]);
                        }
                    }
                }
            }
            return None;
        }
        let ghost m = j - i - 1;
        assert(f.take(m + 1).drop_last() =~= f.take(m));
        assert(f[m] == t[j as int]);
        assert(all_digits(f.take(m + 1))) by {
            assert forall|k: int| 0 <= k < m + 1 implies is_digit(#[trigger] f.take(m + 1)[k]) by {
                if k < m {
                    assert(f.take(m + 1)[k] == f.take(m)[k]);
                }
            }
        }
        if j - i - 1 < 6 {
            proof {
                lemma_pow10_step(m as nat);
                lemma_pow10_mono((m + 1) as nat, 6);
            }
            frac = frac * 10 + (c as u64 - '0' as u64);
        } else {
            proof {
                if m == 6 {
                    assert(f.take(m) =~= f.take(6));
                } else {
                    assert(f.take(m + 1).take(6) =~= f.take(6));
                }
            }
        }
        j = j + 1;
    }
    assert(f.take(f.len() as int) =~= f);
    if n < 2 {
        proof {
            assert forall|k: int| !point_at(t, k) by {}
        }
        return None;
    }
    proof {
        assert(point_at(t, i as int));
        assert forall|k: int| point_at(t, k) implies k == i by {
            lemma_point_unique(t, k, i as int);
        }
        assert(!all_digits(t));
    }
    let count = n - i - 1;
    let mut scaled: u64 = frac;
    if count < 6 {
        let mut k: usize = count;
        proof {
            assert(pow10(0) == 1);
            assert((k - count) as nat == 0);
            assert(frac * pow10(0) == frac);
        }
        while k < 6
            invariant
                count <= k <= 6,
                count == f.len(),
                scaled as int == frac * pow10((k - count) as nat),
                scaled < pow10(k as nat),
            decreases 6 - k,
        {
            proof {
                lemma_pow10_step((k - count) as nat);
                lemma_pow10_step(k as nat);
                lemma_pow10_mono((k + 1) as nat, 6);
                assert(frac * pow10((k - count) as nat) * 10 == frac * pow10((k + 1 - count) as nat)) by (nonlinear_arith)
                    requires pow10((k + 1 - count) as nat) == 10 * pow10((k - count) as nat);
            }
            scaled = scaled * 10;
            k = k + 1;
        }
        proof {
            lemma_pad_value(f, 6, frac as int);
        }
    }
    let v: u128 = whole * (SCALE as u128) + scaled as u128;
    if v > u64::MAX as u128 {
        return None;
    }
    Some(v as u64)
}

} // verus!
