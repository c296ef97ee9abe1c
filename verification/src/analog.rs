use vstd::prelude::*;

verus! {

/// Full-scale reading of the 12-bit ADC.
pub const ADC_FULL_SCALE: u32 = 4095;

/// Reference voltage in millivolts: a full-scale reading.
pub const VREF_MV: u32 = 3300;

/// Millivolts of an ADC reading: `counts * 3300 / 4095`, rounded down.
pub open spec fn mv_of(counts: int) -> int {
    counts * 3300 / 4095
}

/// Sum of the samples at even positions (channel PA0 of the interleaved
/// buffer) among the first `n`.
pub open spec fn even_sum(s: Seq<u16>, n: int) -> int
    decreases n,
{
    if n <= 0 {
        0
    } else {
        even_sum(s, n - 1) + if (n - 1) % 2 == 0 {
            s[n - 1] as int
        } else {
            0
        }
    }
}

/// Sum of the samples at odd positions (channel PA1 of the interleaved
/// buffer) among the first `n`.
pub open spec fn odd_sum(s: Seq<u16>, n: int) -> int
    decreases n,
{
    if n <= 0 {
        0
    } else {
        odd_sum(s, n - 1) + if (n - 1) % 2 == 1 {
            s[n - 1] as int
        } else {
            0
        }
    }
}

/// The PA0 reading of the first `n` interleaved samples: the sum of the
/// even-position samples divided by `n / 2`, in millivolts.
pub open spec fn pa0_reading(s: Seq<u16>, n: int) -> int {
    mv_of(even_sum(s, n) / (n / 2))
}

/// The PA1 reading of the first `n` interleaved samples: the sum of the
/// odd-position samples divided by `n / 2`, in millivolts.
pub open spec fn pa1_reading(s: Seq<u16>, n: int) -> int {
    mv_of(odd_sum(s, n) / (n / 2))
}

/// What the sampler holds: the latest two channel readings and the number
/// of samples taken so far.
#[derive(Debug, PartialEq, Eq, Structural, Clone, Copy)]
pub struct SamplerReadings {
    pub pa0_mv: u32,
    pub pa1_mv: u32,
    pub sample_count: u32,
}

/// Averages an interleaved two-channel ADC buffer (PA0 at even positions,
/// PA1 at odd positions) into millivolts.
pub struct AnalogSampler {
    pa0_mv: u32,
    pa1_mv: u32,
    sample_count: u32,
}

impl View for AnalogSampler {
    type V = SamplerReadings;

    closed spec fn view(&self) -> SamplerReadings {
        SamplerReadings {
            pa0_mv: self.pa0_mv,
            pa1_mv: self.pa1_mv,
            sample_count: self.sample_count,
        }
    }
}

proof fn lemma_sums_bounded(s: Seq<u16>, n: int)
    requires
        n >= 0,
    ensures
        0 <= even_sum(s, n) <= 65535 * ((n + 1) / 2),
        0 <= odd_sum(s, n) <= 65535 * (n / 2),
    decreases n,
{
    if n > 0 {
        lemma_sums_bounded(s, n - 1);
    }
}

/// Sums of up to 131071 samples (the firmware takes at most 2048 at a time)
/// fit in a `u32`, as `update_analog` needs.
pub proof fn lemma_buffer_sums_fit(s: Seq<u16>, n: int)
    requires
        0 <= n <= 131071,
    ensures
        even_sum(s, n) <= u32::MAX,
        odd_sum(s, n) <= u32::MAX,
{
    lemma_sums_bounded(s, n);
}

proof fn lemma_sums_monotone(s: Seq<u16>, i: int, n: int)
    requires
        0 <= i <= n,
    ensures
        even_sum(s, i) <= even_sum(s, n),
        odd_sum(s, i) <= odd_sum(s, n),
    decreases n - i,
{
    if i < n {
        lemma_sums_monotone(s, i, n - 1);
    }
}

/// For at least two samples, each channel's average is at most twice the
/// largest 16-bit sample, so its conversion to millivolts cannot overflow.
proof fn lemma_averages_bounded(s: Seq<u16>, n: int)
    requires
        n >= 2,
    ensures
        0 <= even_sum(s, n) / (n / 2) <= 131070,
        0 <= odd_sum(s, n) / (n / 2) <= 65535,
{
    lemma_sums_bounded(s, n);
    let q = n / 2;
    let x = even_sum(s, n);
    let y = odd_sum(s, n);
    assert((n + 1) / 2 <= 2 * q);
    assert(x <= 131070 * q);
    assert(0 <= x / q <= 131070) by (nonlinear_arith)
        requires
            0 <= x <= 131070 * q,
            q >= 1,
    ;
    assert(0 <= y / q <= 65535) by (nonlinear_arith)
        requires
            0 <= y <= 65535 * q,
            q >= 1,
    ;
}

proof fn lemma_sums_of_constant(s: Seq<u16>, n: int, v: u16)
    requires
        n >= 0,
        forall|i: int| 0 <= i < n ==> s[i] == v,
    ensures
        even_sum(s, n) == v * ((n + 1) / 2),
        odd_sum(s, n) == v * (n / 2),
    decreases n,
{
    if n > 0 {
        lemma_sums_of_constant(s, n - 1, v);
        assert(s[n - 1] == v);
        assert(v * ((n + 1) / 2) == v * (n / 2) + if (n - 1) % 2 == 0 { v as int } else { 0 })
            by (nonlinear_arith)
            requires
                n >= 1,
        ;
        assert(v * (n / 2) == v * ((n - 1) / 2) + if (n - 1) % 2 == 1 { v as int } else { 0 })
            by (nonlinear_arith)
            requires
                n >= 1,
        ;
    } else {
        assert(v * ((n + 1) / 2) == 0 && v * (n / 2) == 0) by (nonlinear_arith)
            requires
                n == 0,
        ;
    }
}

/// A constant input is read back as itself: when the first `n` samples
/// (an even number, at least two) all equal `v`, both channels read
/// `mv_of(v)`.
pub proof fn lemma_constant_signal_reads_back(s: Seq<u16>, n: int, v: u16)
    requires
        n >= 2,
        n % 2 == 0,
        forall|i: int| 0 <= i < n ==> s[i] == v,
    ensures
        pa0_reading(s, n) == mv_of(v as int),
        pa1_reading(s, n) == mv_of(v as int),
{
    lemma_sums_of_constant(s, n, v);
    let q = n / 2;
    assert((n + 1) / 2 == q);
    assert((v * q) / q == v) by (nonlinear_arith)
        requires
            q >= 1,
    ;
}

proof fn lemma_sums_bounded_by(s: Seq<u16>, n: int, m: int)
    requires
        n >= 0,
        m >= 0,
        forall|i: int| 0 <= i < n ==> s[i] <= m,
    ensures
        even_sum(s, n) <= m * ((n + 1) / 2),
        odd_sum(s, n) <= m * (n / 2),
    decreases n,
{
    if n > 0 {
        lemma_sums_bounded_by(s, n - 1, m);
        assert(m * ((n + 1) / 2) == m * (n / 2) + if (n - 1) % 2 == 0 { m } else { 0 })
            by (nonlinear_arith)
            requires
                n >= 1,
        ;
        assert(m * (n / 2) == m * ((n - 1) / 2) + if (n - 1) % 2 == 1 { m } else { 0 })
            by (nonlinear_arith)
            requires
                n >= 1,
        ;
    }
}

/// The conversion to millivolts keeps order: a larger reading never gives
/// fewer millivolts.
pub proof fn lemma_mv_monotone(a: int, b: int)
    requires
        0 <= a <= b,
    ensures
        mv_of(a) <= mv_of(b),
{
    assert(a * 3300 <= b * 3300);
    vstd::arithmetic::div_mod::lemma_div_is_ordered(a * 3300, b * 3300, 4095);
}

/// With 12-bit samples and an even number (at least two) of them, neither
/// channel reads above the 3300 mV reference.
pub proof fn lemma_readings_within_reference(s: Seq<u16>, n: int)
    requires
        n >= 2,
        n % 2 == 0,
        forall|i: int| 0 <= i < n ==> s[i] <= ADC_FULL_SCALE,
    ensures
        0 <= pa0_reading(s, n) <= VREF_MV,
        0 <= pa1_reading(s, n) <= VREF_MV,
{
    lemma_sums_bounded_by(s, n, 4095);
    lemma_sums_bounded(s, n);
    let q = n / 2;
    assert((n + 1) / 2 == q);
    let x = even_sum(s, n);
    let y = odd_sum(s, n);
    assert(0 <= x / q <= 4095) by (nonlinear_arith)
        requires
            0 <= x <= 4095 * q,
            q >= 1,
    ;
    assert(0 <= y / q <= 4095) by (nonlinear_arith)
        requires
            0 <= y <= 4095 * q,
            q >= 1,
    ;
    lemma_mv_monotone(x / q, 4095);
    lemma_mv_monotone(y / q, 4095);
    lemma_mv_monotone(0, x / q);
    lemma_mv_monotone(0, y / q);
}

/// Changing one sample changes the sum of its own channel by the change,
/// and leaves the other channel's sum alone.
proof fn lemma_sums_after_update(s: Seq<u16>, p: int, v: u16, n: int)
    requires
        0 <= p < s.len(),
        0 <= n <= s.len(),
    ensures
        even_sum(s.update(p, v), n) == even_sum(s, n) + if p < n && p % 2 == 0 {
            v - s[p]
        } else {
            0
        },
        odd_sum(s.update(p, v), n) == odd_sum(s, n) + if p < n && p % 2 == 1 {
            v - s[p]
        } else {
            0
        },
    decreases n,
{
    if n > 0 {
        lemma_sums_after_update(s, p, v, n - 1);
    }
}

/// `mv_of` rises by at least one millivolt for every two more counts.
proof fn lemma_mv_rises(a: int, b: int)
    requires
        0 <= a,
        a + 2 <= b,
    ensures
        mv_of(a) < mv_of(b),
{
    let x = a * 3300;
    assert(x + 4095 <= b * 3300);
    vstd::arithmetic::div_mod::lemma_div_is_ordered(x + 4095, b * 3300, 4095);
    vstd::arithmetic::div_mod::lemma_hoist_over_denominator(x, 1, 4095);
}

/// The effect on the readings of setting sample `p` (one of the first `n`)
/// to `v`: its own channel's count sum moves by `v - s[p]` over `n / 2`
/// samples, the other channel is unchanged. So a reading takes in every
/// one of the first `n` samples of its channel: raising one never lowers
/// it, and raising one by at least `n` counts raises it.
pub proof fn lemma_every_sample_counts(s: Seq<u16>, n: int, p: int, v: u16)
    requires
        2 <= n <= s.len(),
        0 <= p < n,
    ensures
        p % 2 == 0 ==> pa1_reading(s.update(p, v), n) == pa1_reading(s, n),
        p % 2 == 1 ==> pa0_reading(s.update(p, v), n) == pa0_reading(s, n),
        p % 2 == 0 && s[p] <= v ==> pa0_reading(s, n) <= pa0_reading(s.update(p, v), n),
        p % 2 == 1 && s[p] <= v ==> pa1_reading(s, n) <= pa1_reading(s.update(p, v), n),
        p % 2 == 0 && s[p] + n <= v ==> pa0_reading(s, n) < pa0_reading(s.update(p, v), n),
        p % 2 == 1 && s[p] + n <= v ==> pa1_reading(s, n) < pa1_reading(s.update(p, v), n),
{
    let t = s.update(p, v);
    lemma_sums_after_update(s, p, v, n);
    lemma_sums_bounded(s, n);
    let q = n / 2;
    let (x, y) = if p % 2 == 0 {
        (even_sum(s, n), even_sum(t, n))
    } else {
        (odd_sum(s, n), odd_sum(t, n))
    };
    if s[p] <= v {
        assert(x <= y);
        vstd::arithmetic::div_mod::lemma_div_is_ordered(x, y, q);
        assert(0 <= x / q) by (nonlinear_arith)
            requires
                0 <= x,
                q >= 1,
        ;
        lemma_mv_monotone(x / q, y / q);
        if s[p] + n <= v {
            assert(x + 2 * q <= y);
            vstd::arithmetic::div_mod::lemma_div_is_ordered(x + 2 * q, y, q);
            vstd::arithmetic::div_mod::lemma_hoist_over_denominator(x, 2, q as nat);
            lemma_mv_rises(x / q, y / q);
        }
    }
}

/// Exchanging two samples of the same channel among the first `n` leaves
/// both readings unchanged: a reading is an average, which does not depend
/// on where in the read each sample came.
pub proof fn lemma_reading_ignores_order(s: Seq<u16>, n: int, p: int, r: int)
    requires
        2 <= n <= s.len(),
        0 <= p < n,
        0 <= r < n,
        p % 2 == r % 2,
    ensures
        pa0_reading(s.update(p, s[r]).update(r, s[p]), n) == pa0_reading(s, n),
        pa1_reading(s.update(p, s[r]).update(r, s[p]), n) == pa1_reading(s, n),
{
    let t = s.update(p, s[r]);
    lemma_sums_after_update(s, p, s[r], n);
    lemma_sums_after_update(t, r, s[p], n);
    if p != r {
        assert(t[r] == s[r]);
    }
    assert(even_sum(t.update(r, s[p]), n) == even_sum(s, n));
    assert(odd_sum(t.update(r, s[p]), n) == odd_sum(s, n));
}

/// The conversion to millivolts scales 4095 counts to 3300 mV and rounds
/// down: `mv` millivolts stand for the counts `c` with
/// `4095 * mv <= 3300 * c < 4095 * (mv + 1)`.
pub proof fn lemma_mv_scale(c: int)
    requires
        0 <= c,
    ensures
        4095 * mv_of(c) <= 3300 * c < 4095 * (mv_of(c) + 1),
        mv_of(0) == 0,
        mv_of(4095) == 3300,
{
    let x = 3300 * c;
    assert(4095 * (x / 4095) <= x < 4095 * (x / 4095 + 1)) by (nonlinear_arith)
        requires
            x >= 0,
    ;
}

impl AnalogSampler {
    /// A sampler with both readings and the sample count at zero.
    pub fn new() -> (r: Self)
        ensures
            r@ == (SamplerReadings { pa0_mv: 0, pa1_mv: 0, sample_count: 0 }),
    {
        Self { pa0_mv: 0, pa1_mv: 0, sample_count: 0 }
    }

    /// Converts an ADC reading to millivolts: `counts * 3300 / 4095`.
    pub fn counts_to_mv(counts: u32) -> (r: u32)
        requires
            counts * 3300 <= u32::MAX,
        ensures
            r == mv_of(counts as int),
    {
        (counts * 3300) / 4095
    }

    /// Takes the first `count` samples of an interleaved buffer: PA0's
    /// reading becomes the even-position samples' sum divided by `count / 2`,
    /// PA1's the odd-position samples' sum divided by `count / 2`, both in
    /// millivolts, and the sample count grows by `count`. Fewer than two
    /// samples leave the sampler unchanged.
    pub fn update_analog(&mut self, measurements: &[u16], count: usize)
        requires
            count >= 2 ==> {
                &&& count <= measurements@.len()
                &&& even_sum(measurements@, count as int) <= u32::MAX
                &&& odd_sum(measurements@, count as int) <= u32::MAX
                &&& old(self)@.sample_count + count <= u32::MAX
            },
        ensures
            count < 2 ==> final(self)@ == old(self)@,
            count >= 2 ==> final(self)@ == (SamplerReadings {
                pa0_mv: pa0_reading(measurements@, count as int) as u32,
                pa1_mv: pa1_reading(measurements@, count as int) as u32,
                sample_count: (old(self)@.sample_count + count) as u32,
            }),
            count >= 2 ==> final(self)@.pa0_mv == pa0_reading(measurements@, count as int),
            count >= 2 ==> final(self)@.pa1_mv == pa1_reading(measurements@, count as int),
    {
        if count < 2 {
            return;
        }
        let ghost s = measurements@;
        let mut even: u32 = 0;
        let mut odd: u32 = 0;
        let mut i: usize = 0;
        while i < count
            invariant
                s == measurements@,
                2 <= count <= s.len(),
                0 <= i <= count,
                even_sum(s, count as int) <= u32::MAX,
                odd_sum(s, count as int) <= u32::MAX,
                even == even_sum(s, i as int),
                odd == odd_sum(s, i as int),
            decreases count - i,
        {
            proof {
                lemma_sums_monotone(s, (i + 1) as int, count as int);
            }
            if i % 2 == 0 {
                even = even + measurements[i] as u32;
            } else {
                odd = odd + measurements[i] as u32;
            }
            i = i + 1;
        }
        let half: u32 = (count / 2) as u32;
        proof {
            lemma_averages_bounded(s, count as int);
        }
        self.pa0_mv = Self::counts_to_mv(even / half);
        self.pa1_mv = Self::counts_to_mv(odd / half);
        self.sample_count = self.sample_count + count as u32;
    }

    /// Handles one read of `n` samples from the ring buffer into
    /// `measurements`: at most `measurements.len()` of them are taken, and a
    /// read of none is skipped. Returns whether the sampler took the read
    /// (and so has new readings to log).
    pub fn process_read(&mut self, measurements: &[u16], n: usize) -> (took: bool)
        requires
            ({
                let count = if n < measurements@.len() { n as int } else { measurements@.len() as int };
                count >= 2 ==> {
                    &&& even_sum(measurements@, count) <= u32::MAX
                    &&& odd_sum(measurements@, count) <= u32::MAX
                    &&& old(self)@.sample_count + count <= u32::MAX
                }
            }),
        ensures
            ({
                let count = if n < measurements@.len() { n as int } else { measurements@.len() as int };
                &&& took == (count > 0)
                &&& count < 2 ==> final(self)@ == old(self)@
                &&& count >= 2 ==> final(self)@ == (SamplerReadings {
                    pa0_mv: pa0_reading(measurements@, count) as u32,
                    pa1_mv: pa1_reading(measurements@, count) as u32,
                    sample_count: (old(self)@.sample_count + count) as u32,
                })
            }),
    {
        let count = if n < measurements.len() { n } else { measurements.len() };
        if count == 0 {
            return false;
        }
        self.update_analog(measurements, count);
        true
    }

    /// The sampler's readings, for logging.
    pub fn readings(&self) -> (r: SamplerReadings)
        ensures
            r == self@,
    {
        SamplerReadings {
            pa0_mv: self.pa0_mv,
            pa1_mv: self.pa1_mv,
            sample_count: self.sample_count,
        }
    }
}

} // verus!
