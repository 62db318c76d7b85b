//! Linear-interpolation resampling from the source sample rate to the
//! output device's rate.
//!
//! Samples are fixed-point values: an application-chosen scale maps them
//! to the unit float range at the edges. The resampler walks the source
//! block at a rational step of `in_rate / out_rate`, interpolating between
//! each pair of neighbouring source samples, so the output length is the
//! source length times `out_rate / in_rate`, rounded up.

use vstd::prelude::*;
use vstd::arithmetic::div_mod::{
    lemma_div_is_ordered, lemma_div_multiples_vanish, lemma_fundamental_div_mod,
    lemma_fundamental_div_mod_converse_div, lemma_multiply_divide_lt,
};
use vstd::arithmetic::mul::{
    lemma_mul_is_commutative, lemma_mul_is_distributive_add_other_way, lemma_mul_unary_negation,
};

verus! {

/// Largest magnitude a fixed-point sample may carry through the pipeline.
pub const SAMPLE_LIMIT: i64 = 4294967296;

/// The interpolated value between `a` and `b` at fraction `rem / den`,
/// rounded toward negative infinity.
pub open spec fn lerp_val(a: int, b: int, rem: int, den: int) -> int {
    (a * (den - rem) + b * rem) / den
}

/// The value of output sample `k` when resampling `s` from `in_rate` to
/// `out_rate`: source position `k * in_rate / out_rate`, interpolating
/// between the two neighbouring source samples (the last sample stands in
/// for its missing right neighbour).
pub open spec fn resampled_at(s: Seq<i64>, in_rate: int, out_rate: int, k: int) -> int {
    let num: int = k * in_rate;
    let i: int = num / out_rate;
    let a: int = s[i] as int;
    let b: int = if i + 1 < s.len() { s[i + 1] as int } else { a };
    lerp_val(a, b, num % out_rate, out_rate)
}

/// Interpolate between `a` and `b` at fraction `rem / den` in fixed-point
/// integer arithmetic, rounding toward negative infinity.
fn lerp(a: i64, b: i64, rem: u64, den: u64) -> (r: i64)
    requires
        1 <= den <= 0xFFFF_FFFFu64,
        rem < den,
        -SAMPLE_LIMIT <= a <= SAMPLE_LIMIT,
        -SAMPLE_LIMIT <= b <= SAMPLE_LIMIT,
    ensures
        r as int == lerp_val(a as int, b as int, rem as int, den as int),
        -SAMPLE_LIMIT <= r <= SAMPLE_LIMIT,
{
    proof {
        assert(-((SAMPLE_LIMIT as int) * (den as int))
                <= (a as int) * ((den - rem) as int) + (b as int) * (rem as int)
            && (a as int) * ((den - rem) as int) + (b as int) * (rem as int)
                <= (SAMPLE_LIMIT as int) * (den as int)
            && -0x40000000000000000 <= (a as int) * ((den - rem) as int) <= 0x40000000000000000
            && -0x40000000000000000 <= (b as int) * (rem as int) <= 0x40000000000000000
            && 0 <= (SAMPLE_LIMIT as int) * (den as int) <= 0x40000000000000000) by (nonlinear_arith)
            requires
                -SAMPLE_LIMIT <= a <= SAMPLE_LIMIT,
                -SAMPLE_LIMIT <= b <= SAMPLE_LIMIT,
                0 <= rem < den <= 0xFFFF_FFFFu64,
                SAMPLE_LIMIT == 4294967296,
        {}
    }
    let wa: i128 = (a as i128) * ((den - rem) as i128);
    let wb: i128 = (b as i128) * (rem as i128);
    let num: i128 = wa + wb;
    let off: i128 = (SAMPLE_LIMIT as i128) * (den as i128);
    let shifted: u128 = (num + off) as u128;
    let q: u128 = shifted / (den as u128);
    proof {
        let d: int = den as int;
        let n: int = num as int;
        let nd: int = n / d;
        let lim: int = SAMPLE_LIMIT as int;
        assert(off == lim * d);
        assert(0 <= n + off);
        assert(shifted == n + off);
        lemma_fundamental_div_mod(n, d);
        assert(0 <= n % d < d);
        lemma_mul_is_distributive_add_other_way(d, nd, lim);
        lemma_mul_is_commutative(d, nd);
        lemma_mul_is_commutative(d, lim);
        lemma_mul_is_commutative(d, nd + lim);
        assert(n + off == (nd + lim) * d + n % d);
        lemma_fundamental_div_mod_converse_div(n + off, d, nd + lim, n % d);
        assert((n + off) / d == nd + lim);
        assert(q == nd + lim);
        lemma_div_is_ordered(-(lim * d), n, d);
        lemma_div_is_ordered(n, lim * d, d);
        lemma_div_multiples_vanish(-lim, d);
        lemma_div_multiples_vanish(lim, d);
        lemma_mul_is_commutative(d, -lim);
        lemma_mul_unary_negation(lim, d);
        assert((-(lim * d)) / d == -lim);
        assert((lim * d) / d == lim);
        assert(-lim <= nd <= lim);
    }
    let res: i128 = (q as i128) - (SAMPLE_LIMIT as i128);
    res as i64
}

/// Resample `src` from `in_rate` to `out_rate` by per-sample linear
/// interpolation. The output holds one sample for each rational position
/// `k * in_rate / out_rate` that falls inside the source block, so its
/// length is `src.len() * out_rate / in_rate` rounded up: within one
/// sample of the exact rate ratio.
pub fn resample(src: &Vec<i64>, in_rate: u32, out_rate: u32) -> (r: Vec<i64>)
    requires
        in_rate >= 1,
        out_rate >= 1,
        forall|j: int| 0 <= j < src@.len() ==> -SAMPLE_LIMIT <= #[trigger] src@[j] <= SAMPLE_LIMIT,
        src@.len() * out_rate + in_rate <= u64::MAX,
    ensures
        r@.len() * in_rate >= src@.len() * out_rate,
        r@.len() > 0 ==> (r@.len() - 1) * in_rate < src@.len() * out_rate,
        src@.len() == 0 ==> r@.len() == 0,
        forall|k: int| 0 <= k < r@.len() ==>
            (#[trigger] r@[k]) as int == resampled_at(src@, in_rate as int, out_rate as int, k),
        forall|k: int| 0 <= k < r@.len() ==> -SAMPLE_LIMIT <= #[trigger] r@[k] <= SAMPLE_LIMIT,
{
    let len: usize = src.len();
    let in64: u64 = in_rate as u64;
    let out64: u64 = out_rate as u64;
    let l_out: u64 = (len as u64) * out64;
    let mut r: Vec<i64> = Vec::new();
    let mut num: u64 = 0;
    proof {
        assert(r@.len() == 0);
        assert(r@.len() * in64 == 0);
    }
    while num < l_out
        invariant
            in64 == in_rate,
            out64 == out_rate,
            1 <= in64,
            1 <= out64 <= 0xFFFF_FFFFu64,
            len == src@.len(),
            l_out == src@.len() * out64,
            l_out + in64 <= u64::MAX,
            num == r@.len() * in64,
            r@.len() == 0 || (r@.len() - 1) * in64 < l_out,
            forall|j: int| 0 <= j < src@.len() ==> -SAMPLE_LIMIT <= #[trigger] src@[j] <= SAMPLE_LIMIT,
            forall|k: int| 0 <= k < r@.len() ==>
                (#[trigger] r@[k]) as int == resampled_at(src@, in64 as int, out64 as int, k),
            forall|k: int| 0 <= k < r@.len() ==> -SAMPLE_LIMIT <= #[trigger] r@[k] <= SAMPLE_LIMIT,
        decreases l_out + in64 - num,
    {
        let i64u: u64 = num / out64;
        let rem: u64 = num % out64;
        proof {
            assert(num < out64 * len) by (nonlinear_arith)
                requires
                    num < l_out,
                    l_out == len * out64,
            {}
            lemma_multiply_divide_lt(num as int, out64 as int, len as int);
            assert(i64u < len);
        }
        let i: usize = i64u as usize;
        let a: i64 = src[i];
        let b: i64 = if i + 1 < len { src[i + 1] } else { src[i] };
        let v: i64 = lerp(a, b, rem, out64);
        proof {
            let k: int = r@.len() as int;
            assert(num == k * in64);
            assert(v as int == resampled_at(src@, in64 as int, out64 as int, k));
        }
        r.push(v);
        proof {
            assert(r@.len() * in64 == num + in64) by (nonlinear_arith)
                requires
                    num == (r@.len() - 1) * in64,
            {}
        }
        num = num + in64;
    }
    proof {
        assert(r@.len() * in_rate >= src@.len() * out_rate);
        if src@.len() == 0 && r@.len() > 0 {
            assert(false) by (nonlinear_arith)
                requires
                    l_out == src@.len() * out64,
                    src@.len() == 0,
                    r@.len() >= 1,
                    (r@.len() - 1) * in64 < l_out,
                    in64 >= 1,
            {}
        }
    }
    r
}

/// The output length of [`resample`] is within one sample of the exact
/// product `source length * out_rate / in_rate`: writing `q` for that
/// product rounded down, the length lies in `[q, q + 1]`.
pub proof fn lemma_resample_len_within_one(l: int, in_rate: int, out_rate: int, n: int)
    requires
        in_rate >= 1,
        out_rate >= 1,
        l >= 0,
        n >= 0,
        n * in_rate >= l * out_rate,
        n > 0 ==> (n - 1) * in_rate < l * out_rate,
        l == 0 ==> n == 0,
    ensures
        (l * out_rate) / in_rate <= n,
        n <= (l * out_rate) / in_rate + 1,
{
    let t: int = l * out_rate;
    lemma_div_is_ordered(t, n * in_rate, in_rate);
    lemma_div_multiples_vanish(n, in_rate);
    lemma_mul_is_commutative(in_rate, n);
    assert((n * in_rate) / in_rate == n);
    assert(t / in_rate <= n);
    if n > 0 {
        assert((n - 1) * in_rate <= t - 1);
        lemma_div_is_ordered((n - 1) * in_rate, t - 1, in_rate);
        lemma_div_multiples_vanish(n - 1, in_rate);
        lemma_mul_is_commutative(in_rate, n - 1);
        assert(((n - 1) * in_rate) / in_rate == n - 1);
        lemma_div_is_ordered(t - 1, t, in_rate);
        assert(n - 1 <= t / in_rate);
    }
}

} // verus!
