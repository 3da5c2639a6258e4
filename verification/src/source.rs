//! The decoded audio source: an immutable interleaved sample buffer with its
//! sample rate and channel count, the duration arithmetic derived from it,
//! and the sample-index arithmetic that a seek uses to rebuild a session.
use vstd::prelude::*;
use crate::state::MAX_TIME_MILLIS;

verus! {

/// Upper bound on the number of interleaved samples a source may hold, chosen
/// so that `len * 1000` stays below `MAX_TIME_MILLIS` and every duration in
/// milliseconds fits the time bookkeeping.
pub const MAX_TOTAL_SAMPLES: u64 = 0x10_0000_0000_0000;

/// Why a decoded sample buffer was rejected.
#[derive(Clone, Copy, PartialEq, Eq, Debug)]
pub enum LoadError {
    /// The decoder produced no samples at all.
    EmptyAudio,
    /// The reported sample rate was zero or negative.
    InvalidRate,
    /// The reported channel count was zero or absurdly large.
    InvalidChannels,
    /// The sample buffer was too long for the time bookkeeping.
    TooLong,
}

impl LoadError {
    /// A short diagnostic text for this error.
    pub fn describe(&self) -> (r: &'static str)
        ensures
            r@ == self.describe_spec(),
    {
        match self {
            LoadError::EmptyAudio => "no decodable audio in the file",
            LoadError::InvalidRate => "the decoder reported an invalid sample rate",
            LoadError::InvalidChannels => "the decoder reported an invalid channel count",
            LoadError::TooLong => "the decoded audio is too long to play",
        }
    }

    /// The text `describe` returns.
    pub open spec fn describe_spec(self) -> Seq<char> {
        match self {
            LoadError::EmptyAudio => "no decodable audio in the file"@,
            LoadError::InvalidRate => "the decoder reported an invalid sample rate"@,
            LoadError::InvalidChannels => "the decoder reported an invalid channel count"@,
            LoadError::TooLong => "the decoded audio is too long to play"@,
        }
    }
}

/// A fully materialized decoded track. Immutable once built.
pub struct DecodedSource {
    pub sample_rate: u32,
    pub channels: u32,
    pub samples: Vec<i16>,
}

/// The buffer lengths accepted by `DecodedSource::from_parts`, stated over
/// the raw decoder outputs.
pub open spec fn acceptable_parts(sample_rate: i32, channels: usize, samples_len: nat) -> bool {
    &&& samples_len > 0
    &&& sample_rate >= 1
    &&& channels >= 1
    &&& channels <= u32::MAX
    &&& samples_len <= MAX_TOTAL_SAMPLES
}

/// The error `from_parts` reports for a rejected triple, checked in this
/// order: emptiness, rate, channels, length.
pub open spec fn rejection_of(sample_rate: i32, channels: usize, samples_len: nat) -> LoadError {
    if samples_len == 0 {
        LoadError::EmptyAudio
    } else if sample_rate < 1 {
        LoadError::InvalidRate
    } else if channels < 1 || channels > u32::MAX {
        LoadError::InvalidChannels
    } else {
        LoadError::TooLong
    }
}

impl DecodedSource {
    /// Structural invariant: positive rate and channel count, a non-empty
    /// buffer short enough that every millisecond count stays in bounds.
    pub open spec fn wf(self) -> bool {
        &&& self.sample_rate >= 1
        &&& self.channels >= 1
        &&& self.samples@.len() > 0
        &&& self.samples@.len() <= MAX_TOTAL_SAMPLES
        &&& self.total_millis_spec() < MAX_TIME_MILLIS
    }

    /// Track length in whole milliseconds:
    /// `len(samples) * 1000 / (sample_rate * channels)`.
    pub open spec fn total_millis_spec(self) -> int {
        (self.samples@.len() as int * 1000) / (self.sample_rate as int * self.channels as int)
    }

    /// The first sample index of the session a seek to `target_millis`
    /// rebuilds: `target * rate * channels / 1000`, clamped to the buffer.
    pub open spec fn sample_index_spec(self, target_millis: u64) -> int {
        let raw = (target_millis * self.sample_rate * self.channels) / 1000;
        if raw > self.samples@.len() {
            self.samples@.len() as int
        } else {
            raw
        }
    }

    /// Validate the raw decoder output and build the immutable source.
    /// Succeeds exactly on `acceptable_parts`; a rejected triple reports
    /// the error `rejection_of` names.
    pub fn from_parts(sample_rate: i32, channels: usize, samples: Vec<i16>) -> (r: Result<
        DecodedSource,
        LoadError,
    >)
        ensures
            r is Ok <==> acceptable_parts(sample_rate, channels, samples@.len()),
            r matches Ok(s) ==> {
                &&& s.wf()
                &&& s.sample_rate == sample_rate
                &&& s.channels == channels
                &&& s.samples@ == samples@
            },
            r matches Err(e) ==> e == rejection_of(sample_rate, channels, samples@.len()),
    {
        if samples.len() == 0 {
            Err(LoadError::EmptyAudio)
        } else if sample_rate < 1 {
            Err(LoadError::InvalidRate)
        } else if channels < 1 || channels > u32::MAX as usize {
            Err(LoadError::InvalidChannels)
        } else if samples.len() as u64 > MAX_TOTAL_SAMPLES {
            Err(LoadError::TooLong)
        } else {
            let s = DecodedSource {
                sample_rate: sample_rate as u32,
                channels: channels as u32,
                samples,
            };
            proof {
                lemma_total_bounded(s);
            }
            Ok(s)
        }
    }

    /// Track length in whole milliseconds.
    pub fn total_duration_millis(&self) -> (r: u64)
        requires
            self.wf(),
        ensures
            r == self.total_millis_spec(),
            r < MAX_TIME_MILLIS,
    {
        proof {
            lemma_mul_bounds_u32(self.sample_rate, self.channels);
        }
        let divisor: u64 = (self.sample_rate as u64) * (self.channels as u64);
        let wide: u128 = (self.samples.len() as u128) * 1000 / (divisor as u128);
        proof {
            lemma_total_bounded(*self);
        }
        wide as u64
    }

    /// First sample index for a seek to `target_millis`.
    pub fn start_sample_for(&self, target_millis: u64) -> (r: usize)
        requires
            self.wf(),
            target_millis < MAX_TIME_MILLIS,
        ensures
            r == self.sample_index_spec(target_millis),
            r <= self.samples@.len(),
    {
        proof {
            lemma_index_mul_bounded(target_millis, self.sample_rate, self.channels);
        }
        let wide: u128 = (target_millis as u128) * (self.sample_rate as u128)
            * (self.channels as u128) / 1000;
        let len = self.samples.len();
        if wide > len as u128 {
            len
        } else {
            wide as usize
        }
    }

    /// Copy of the sample buffer from `start` to the end: the sub-buffer a
    /// seek hands to the fresh output session.
    pub fn tail_samples(&self, start: usize) -> (r: Vec<i16>)
        requires
            start <= self.samples@.len(),
        ensures
            r@ == self.samples@.skip(start as int),
    {
        let mut r: Vec<i16> = Vec::new();
        let mut i: usize = start;
        while i < self.samples.len()
            invariant
                start <= i <= self.samples@.len(),
                r@ == self.samples@.subrange(start as int, i as int),
            decreases self.samples@.len() - i,
        {
            let v = self.samples[i];
            r.push(v);
            proof {
                assert(r@ =~= self.samples@.subrange(start as int, i + 1 as int));
            }
            i = i + 1;
        }
        proof {
            assert(self.samples@.subrange(start as int, self.samples@.len() as int) =~= self
                .samples@.skip(start as int));
        }
        r
    }
}

/// A seek that clamps to the track's total duration rebuilds a session with
/// less than one millisecond of audio in it (up to one frame of division
/// rounding), so the next drain poll finds it finished at once.
pub proof fn lemma_end_seek_drains(s: DecodedSource)
    requires
        s.wf(),
    ensures
        s.sample_index_spec(s.total_millis_spec() as u64) <= s.samples@.len(),
        (s.samples@.len() - s.sample_index_spec(s.total_millis_spec() as u64)) * 1000
            < s.sample_rate as int * s.channels as int + 1000,
{
    let ln = s.samples@.len() as int;
    let rc = s.sample_rate as int * s.channels as int;
    let total = (ln * 1000) / rc;
    assert(s.sample_rate as int * s.channels as int >= 1) by (nonlinear_arith)
        requires
            s.sample_rate >= 1,
            s.channels >= 1,
    ;
    assert(rc >= 1);
    assert(total == s.total_millis_spec());
    vstd::arithmetic::div_mod::lemma_fundamental_div_mod(ln * 1000, rc);
    vstd::arithmetic::div_mod::lemma_mod_bound(ln * 1000, rc);
    let m1 = (ln * 1000) % rc;
    assert(ln * 1000 == rc * total + m1);
    assert(0 <= m1 < rc);
    // The spec multiplies out `total * rate * channels`; relate it to
    // `total * rc`.
    assert(total * s.sample_rate as int * s.channels as int == total * (s.sample_rate as int
        * s.channels as int)) by (nonlinear_arith);
    assert(total * s.sample_rate as int * s.channels as int == total * rc);
    let raw = (total * rc) / 1000;
    vstd::arithmetic::div_mod::lemma_fundamental_div_mod(total * rc, 1000);
    vstd::arithmetic::div_mod::lemma_mod_bound(total * rc, 1000);
    let m2 = (total * rc) % 1000;
    assert(total * rc == 1000 * raw + m2);
    assert(0 <= m2 < 1000);
    // raw <= ln, so the index is not clamped.
    assert(rc * total == total * rc) by (nonlinear_arith);
    assert(total * rc <= ln * 1000);
    vstd::arithmetic::div_mod::lemma_div_is_ordered(total * rc, ln * 1000, 1000);
    assert(ln * 1000 == 1000 * ln) by (nonlinear_arith);
    vstd::arithmetic::div_mod::lemma_div_multiples_vanish(ln, 1000);
    assert((ln * 1000) / 1000 == ln);
    assert(raw <= ln);
    assert(s.sample_index_spec(s.total_millis_spec() as u64) == raw);
    // ln*1000 - raw*1000 == m1 + m2 < rc + 1000.
    assert((ln - raw) * 1000 == ln * 1000 - 1000 * raw) by (nonlinear_arith);
    assert(ln * 1000 - 1000 * raw == m1 + m2);
}

/// The product of two `u32` values fits a `u64`.
proof fn lemma_mul_bounds_u32(a: u32, b: u32)
    ensures
        a * b <= u64::MAX,
        a >= 1 && b >= 1 ==> a * b >= 1,
{
    assert(a * b <= u64::MAX && (a >= 1 && b >= 1 ==> a * b >= 1)) by (nonlinear_arith);
}

/// With an acceptable sample count and a positive divisor, the millisecond
/// total is bounded by `len * 1000`, hence below `MAX_TIME_MILLIS`.
proof fn lemma_total_bounded(s: DecodedSource)
    requires
        s.sample_rate >= 1,
        s.channels >= 1,
        s.samples@.len() <= MAX_TOTAL_SAMPLES,
    ensures
        0 <= s.total_millis_spec() <= s.samples@.len() * 1000,
        s.total_millis_spec() < MAX_TIME_MILLIS,
{
    let num = s.samples@.len() as int * 1000;
    let den = s.sample_rate as int * s.channels as int;
    assert(s.sample_rate as int * s.channels as int >= 1) by (nonlinear_arith)
        requires
            s.sample_rate >= 1,
            s.channels >= 1,
    ;
    assert(num >= 0);
    assert(0 <= num / den <= num) by (nonlinear_arith)
        requires
            num >= 0,
            den >= 1,
    ;
    assert(num <= MAX_TOTAL_SAMPLES * 1000);
}

/// The widened seek-index products stay below `2^128`.
proof fn lemma_index_mul_bounded(t: u64, rate: u32, ch: u32)
    ensures
        0 <= t as int * rate as int <= u128::MAX,
        0 <= t as int * rate as int * ch as int <= u128::MAX,
{
    assert(0 <= t as int * rate as int <= u64::MAX as int * u32::MAX as int
        && 0 <= t as int * rate as int * ch as int
            <= u64::MAX as int * u32::MAX as int * u32::MAX as int) by (nonlinear_arith)
        requires
            0 <= t <= u64::MAX,
            0 <= rate <= u32::MAX,
            0 <= ch <= u32::MAX,
    ;
}

} // verus!
