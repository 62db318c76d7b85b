//! Spectral analysis of sample blocks.
//!
//! The analyzer applies a tabulated Hann window to each incoming block
//! and reduces the magnitude spectrum of its FFT to the 16 bar heights
//! the visualization draws. The FFT itself runs in the application over
//! floats; everything around it — the windowing discipline, the
//! magnitude formula on fixed-point bins, and the band reduction — is
//! verified here on fixed-point integers.

use vstd::prelude::*;
use vstd::arithmetic::div_mod::{
    lemma_div_is_ordered, lemma_div_multiples_vanish, lemma_div_nonincreasing,
};
use vstd::arithmetic::mul::{lemma_mul_inequality, lemma_mul_is_commutative};
use crate::resample::SAMPLE_LIMIT;

verus! {

/// Scale of the fixed-point Hann window weights: a weight of
/// `WINDOW_SCALE` is the real value one.
pub const WINDOW_SCALE: u32 = 65536;

/// Largest magnitude of a windowed sample: a sample at [`SAMPLE_LIMIT`]
/// under the largest window weight.
pub const WINDOWED_LIMIT: i64 = 4294967296i64 * 65536;

/// `r` is the integer square root of `n`: the largest integer whose
/// square does not exceed `n`.
pub open spec fn is_sqrt(n: int, r: int) -> bool {
    r >= 0 && r * r <= n && n < (r + 1) * (r + 1)
}

/// The integer square root as a function, for stating magnitudes.
pub open spec fn sqrt_floor(n: int) -> int {
    choose|r: int| is_sqrt(n, r)
}

/// Any two integer square roots of the same number are equal.
pub proof fn lemma_sqrt_unique(n: int, a: int, b: int)
    requires
        is_sqrt(n, a),
        is_sqrt(n, b),
    ensures
        a == b,
{
    if a < b {
        assert((a + 1) * (a + 1) <= b * b) by (nonlinear_arith)
            requires
                0 <= a + 1 <= b,
        {}
    }
    if b < a {
        assert((b + 1) * (b + 1) <= a * a) by (nonlinear_arith)
            requires
                0 <= b + 1 <= a,
        {}
    }
}

/// Integer square root by bisection.
fn isqrt(n: u128) -> (r: u64)
    requires
        n < 0x10000000000000000000000000u128,
    ensures
        is_sqrt(n as int, r as int),
        r as int == sqrt_floor(n as int),
        r < 0x4000000000000u64,
{
    let mut lo: u64 = 0;
    let mut hi: u64 = 0x4000000000000u64;
    proof {
        assert((hi as int) * (hi as int) > n) by (nonlinear_arith)
            requires
                hi == 0x4000000000000u64,
                n < 0x10000000000000000000000000u128,
        {}
    }
    while hi - lo > 1
        invariant
            lo < hi <= 0x4000000000000u64,
            (lo as int) * (lo as int) <= n as int,
            (hi as int) * (hi as int) > n as int,
        decreases hi - lo,
    {
        let mid: u64 = lo + (hi - lo) / 2;
        proof {
            assert((mid as int) * (mid as int) <= 0x10000000000000000000000000int)
                by (nonlinear_arith)
                requires
                    mid <= 0x4000000000000u64,
            {}
        }
        let sq: u128 = (mid as u128) * (mid as u128);
        if sq <= n {
            lo = mid;
        } else {
            hi = mid;
        }
    }
    proof {
        assert(hi == lo + 1);
        assert(is_sqrt(n as int, lo as int));
        assert(is_sqrt(n as int, sqrt_floor(n as int))) by {
            assert(is_sqrt(n as int, lo as int));
        }
        lemma_sqrt_unique(n as int, lo as int, sqrt_floor(n as int));
    }
    lo
}

/// The displayed magnitude of an FFT bin `(x, y)` for a window of `n`
/// samples, in fixed point at [`WINDOW_SCALE`]: twice the square root of
/// the bin's norm divided by `n`.
pub open spec fn magnitude_of(x: int, y: int, n: int) -> int
    recommends
        n >= 1,
{
    2 * sqrt_floor((sqrt_floor(x * x + y * y) * 65536) / n)
}

/// Stateful spectral analyzer: the tabulated window weights and the
/// windowed-sample buffer the FFT input is built in.
pub struct AudioAnalyzer {
    pub window: Vec<u32>,
    pub buffer: Vec<i64>,
    pub window_size: usize,
}

impl AudioAnalyzer {
    /// The analyzer's invariant: the window table and buffer both span
    /// the window, weights are at most [`WINDOW_SCALE`], and buffered
    /// values are windowed samples.
    pub open spec fn wf(self) -> bool {
        &&& self.window@.len() == self.window_size
        &&& self.buffer@.len() == self.window_size
        &&& 2 <= self.window_size
        &&& self.window_size <= 0x10000000
        &&& forall|i: int| 0 <= i < self.window@.len() ==> #[trigger] self.window@[i] <= 65536
        &&& forall|i: int| 0 <= i < self.buffer@.len()
            ==> -WINDOWED_LIMIT <= #[trigger] self.buffer@[i] <= WINDOWED_LIMIT
    }

    /// A fresh analyzer over the given window table (the application
    /// tabulates the Hann weights in fixed point); the buffer starts at
    /// silence.
    pub fn new(window: Vec<u32>) -> (r: AudioAnalyzer)
        requires
            2 <= window@.len() <= 0x10000000,
            forall|i: int| 0 <= i < window@.len() ==> #[trigger] window@[i] <= 65536,
        ensures
            r.wf(),
            r.window == window,
            r.window_size == window@.len(),
            forall|i: int| 0 <= i < r.buffer@.len() ==> #[trigger] r.buffer@[i] == 0,
    {
        let n: usize = window.len();
        let mut buffer: Vec<i64> = Vec::new();
        let mut i: usize = 0;
        while i < n
            invariant
                i <= n,
                buffer@.len() == i,
                forall|j: int| 0 <= j < i ==> #[trigger] buffer@[j] == 0,
            decreases n - i,
        {
            buffer.push(0);
            i = i + 1;
        }
        AudioAnalyzer { window, buffer, window_size: n }
    }

    /// Weight the leading `window_size` samples of the block by the
    /// window table and store them in the buffer; when the block is
    /// shorter than the window, the tail of the buffer keeps its previous
    /// contents, as each call overwrites only the positions it has input
    /// for. Returns a copy of the buffer as the FFT input frame.
    pub fn window_block(&mut self, samples: &Vec<i64>) -> (frame: Vec<i64>)
        requires
            old(self).wf(),
            forall|j: int| 0 <= j < samples@.len()
                ==> -SAMPLE_LIMIT <= #[trigger] samples@[j] <= SAMPLE_LIMIT,
        ensures
            final(self).wf(),
            final(self).window == old(self).window,
            final(self).window_size == old(self).window_size,
            forall|i: int| 0 <= i < final(self).buffer@.len() && i < samples@.len()
                ==> (#[trigger] final(self).buffer@[i]) as int
                    == samples@[i] * old(self).window@[i],
            forall|i: int| samples@.len() <= i < final(self).buffer@.len()
                ==> #[trigger] final(self).buffer@[i] == old(self).buffer@[i],
            frame@ == final(self).buffer@,
    {
        let n: usize = self.window_size;
        let count: usize = if samples.len() < n { samples.len() } else { n };
        let mut i: usize = 0;
        while i < count
            invariant
                self.wf(),
                self.window == old(self).window,
                self.window_size == old(self).window_size,
                count <= n,
                count <= samples@.len(),
                samples@.len() < n ==> count == samples@.len(),
                n == self.window_size,
                i <= count,
                forall|j: int| 0 <= j < samples@.len()
                    ==> -SAMPLE_LIMIT <= #[trigger] samples@[j] <= SAMPLE_LIMIT,
                forall|j: int| 0 <= j < i
                    ==> (#[trigger] self.buffer@[j]) as int == samples@[j] * old(self).window@[j],
                forall|j: int| i <= j < self.buffer@.len()
                    ==> #[trigger] self.buffer@[j] == old(self).buffer@[j],
            decreases count - i,
        {
            let s: i64 = samples[i];
            let w: u32 = self.window[i];
            proof {
                assert(-WINDOWED_LIMIT <= (s as int) * (w as int) <= WINDOWED_LIMIT)
                    by (nonlinear_arith)
                    requires
                        -SAMPLE_LIMIT <= s <= SAMPLE_LIMIT,
                        0 <= w <= 65536,
                        SAMPLE_LIMIT == 4294967296,
                        WINDOWED_LIMIT == 4294967296i64 * 65536,
                {}
            }
            let v: i64 = s * (w as i64);
            self.buffer[i] = v;
            i = i + 1;
        }
        let mut frame: Vec<i64> = Vec::new();
        let mut k: usize = 0;
        while k < n
            invariant
                n == self.buffer@.len(),
                k <= n,
                frame@.len() == k,
                forall|j: int| 0 <= j < k ==> #[trigger] frame@[j] == self.buffer@[j],
            decreases n - k,
        {
            let v: i64 = self.buffer[k];
            frame.push(v);
            k = k + 1;
        }
        proof {
            assert(frame@ =~= self.buffer@);
        }
        frame
    }

    /// Reduce the FFT output (real and imaginary parts of each bin, in
    /// fixed point) to the magnitude spectrum of the first half of the
    /// bins: `window_size / 2` values, each nonnegative, each twice the
    /// square root of the bin's scaled norm.
    pub fn magnitudes(&self, re: &Vec<i64>, im: &Vec<i64>) -> (r: Vec<u64>)
        requires
            self.wf(),
            re@.len() == self.window_size,
            im@.len() == self.window_size,
            forall|j: int| 0 <= j < re@.len()
                ==> -0x1000000000000 <= #[trigger] re@[j] <= 0x1000000000000,
            forall|j: int| 0 <= j < im@.len()
                ==> -0x1000000000000 <= #[trigger] im@[j] <= 0x1000000000000,
        ensures
            r@.len() == self.window_size / 2,
            forall|j: int| 0 <= j < r@.len() ==> (#[trigger] r@[j]) as int
                == magnitude_of(re@[j] as int, im@[j] as int, self.window_size as int),
            forall|j: int| 0 <= j < r@.len() ==> #[trigger] r@[j] >= 0,
    {
        let half: usize = self.window_size / 2;
        let mut r: Vec<u64> = Vec::new();
        let mut j: usize = 0;
        proof {
            lemma_div_nonincreasing(self.window_size as int, 2);
        }
        while j < half
            invariant
                self.wf(),
                half == self.window_size / 2,
                half <= self.window_size,
                re@.len() == self.window_size,
                im@.len() == self.window_size,
                forall|t: int| 0 <= t < re@.len()
                    ==> -0x1000000000000 <= #[trigger] re@[t] <= 0x1000000000000,
                forall|t: int| 0 <= t < im@.len()
                    ==> -0x1000000000000 <= #[trigger] im@[t] <= 0x1000000000000,
                j <= half,
                r@.len() == j,
                forall|t: int| 0 <= t < j ==> (#[trigger] r@[t]) as int
                    == magnitude_of(re@[t] as int, im@[t] as int, self.window_size as int),
            decreases half - j,
        {
            let x: i64 = re[j];
            let y: i64 = im[j];
            proof {
                assert(0 <= (x as int) * (x as int) <= 0x1000000000000000000000000
                    && 0 <= (y as int) * (y as int) <= 0x1000000000000000000000000)
                    by (nonlinear_arith)
                    requires
                        -0x1000000000000 <= x <= 0x1000000000000,
                        -0x1000000000000 <= y <= 0x1000000000000,
                {}
            }
            let xx: u128 = ((x as i128) * (x as i128)) as u128;
            let yy: u128 = ((y as i128) * (y as i128)) as u128;
            let norm: u64 = isqrt(xx + yy);
            let scaled: u128 = (norm as u128) * 65536u128 / (self.window_size as u128);
            proof {
                lemma_div_nonincreasing((norm as int) * 65536, self.window_size as int);
                assert(scaled <= (norm as int) * 65536);
                assert(scaled < 0x10000000000000000000000000u128);
            }
            let root: u64 = isqrt(scaled);
            proof {
                assert(root <= 0x200000000000u64) by (nonlinear_arith)
                    requires
                        (root as int) * (root as int) <= scaled,
                        scaled <= 0x4000000000000u128 * 65536,
                        root >= 0,
                {}
            }
            let v: u64 = 2 * root;
            r.push(v);
            proof {
                assert(v as int == magnitude_of(x as int, y as int, self.window_size as int));
            }
            j = j + 1;
        }
        r
    }
}

/// The largest value in `s`, at least zero (the fold the bar display
/// starts from).
pub open spec fn seq_max(s: Seq<u64>) -> int
    decreases s.len(),
{
    if s.len() == 0 {
        0
    } else {
        let rest: int = seq_max(s.drop_last());
        if s.last() > rest {
            s.last() as int
        } else {
            rest
        }
    }
}

/// Bar `i` of the display: the largest magnitude in the `i`-th of 16
/// contiguous spectrum bands, amplified fivefold and clamped to the
/// fixed-point unit [`WINDOW_SCALE`].
pub open spec fn band_of(s: Seq<u64>, i: int) -> int {
    let start: int = i * s.len() / 16;
    let end: int = (i + 1) * s.len() / 16;
    let amplified: int = 5 * seq_max(s.subrange(start, end));
    if amplified > 65536 {
        65536
    } else {
        amplified
    }
}

/// Reduce a magnitude spectrum to the 16 bar heights of the display.
pub fn spectrum_bands(spectrum: &Vec<u64>) -> (bars: Vec<u64>)
    requires
        spectrum@.len() * 16 <= usize::MAX,
        forall|j: int| 0 <= j < spectrum@.len()
            ==> #[trigger] spectrum@[j] <= 0x1000000000000000,
    ensures
        bars@.len() == 16,
        forall|i: int| 0 <= i < 16 ==> (#[trigger] bars@[i]) as int == band_of(spectrum@, i),
{
    let len: usize = spectrum.len();
    let mut bars: Vec<u64> = Vec::new();
    let mut i: usize = 0;
    while i < 16
        invariant
            len == spectrum@.len(),
            len * 16 <= usize::MAX,
            forall|j: int| 0 <= j < spectrum@.len()
                ==> #[trigger] spectrum@[j] <= 0x1000000000000000,
            i <= 16,
            bars@.len() == i,
            forall|t: int| 0 <= t < i ==> (#[trigger] bars@[t]) as int == band_of(spectrum@, t),
        decreases 16 - i,
    {
        proof {
            lemma_mul_is_commutative(i as int, len as int);
            lemma_mul_is_commutative(i as int + 1, len as int);
            lemma_mul_inequality(i as int, i as int + 1, len as int);
            lemma_mul_inequality(i as int + 1, 16, len as int);
            lemma_div_is_ordered((i as int) * len, (i as int + 1) * len, 16);
            lemma_div_is_ordered((i as int + 1) * len, 16 * len, 16);
            lemma_div_multiples_vanish(len as int, 16);
            assert((i as int + 1) * len <= len * 16) by (nonlinear_arith)
                requires
                    i as int + 1 <= 16,
                    len >= 0,
            {}
            assert((16 * (len as int)) / 16 == len);
        }
        let start: usize = i * len / 16;
        let end: usize = (i + 1) * len / 16;
        let mut m: u64 = 0;
        let mut j: usize = start;
        proof {
            assert(spectrum@.subrange(start as int, start as int) =~= Seq::<u64>::empty());
        }
        while j < end
            invariant
                len == spectrum@.len(),
                forall|t: int| 0 <= t < spectrum@.len()
                    ==> #[trigger] spectrum@[t] <= 0x1000000000000000,
                start <= j <= end,
                end <= len,
                m as int == seq_max(spectrum@.subrange(start as int, j as int)),
                m <= 0x1000000000000000,
            decreases end - j,
        {
            let v: u64 = spectrum[j];
            proof {
                let pre = spectrum@.subrange(start as int, j as int);
                let post = spectrum@.subrange(start as int, j as int + 1);
                assert(post.drop_last() =~= pre);
                assert(post.last() == spectrum@[j as int]);
            }
            if v > m {
                m = v;
            }
            j = j + 1;
        }
        let amplified: u64 = 5 * m;
        let bar: u64 = if amplified > 65536 { 65536 } else { amplified };
        bars.push(bar);
        i = i + 1;
    }
    bars
}

} // verus!
