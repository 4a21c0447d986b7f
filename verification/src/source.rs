//! The decoded audio asset and the rule that assembles it from interleaved
//! normalized samples.

use vstd::prelude::*;
use crate::sample::SAMPLE_ONE;

verus! {

/// Why a byte buffer could not be turned into an `AudioSource`.
#[derive(Clone, Copy, Debug, PartialEq, Eq, Structural)]
pub enum DecodeError {
    /// The bitstream is malformed or truncated, or its metadata contradicts its samples.
    CorruptStream,
    /// The stream has a channel count other than one or two.
    UnsupportedChannelLayout,
    /// The stream is sound but holds no frame of audio.
    EmptyStream,
}

/// A length of time: whole seconds and the nanoseconds beyond them.
#[derive(Clone, Copy, Debug, PartialEq, Eq, Structural)]
pub struct Span {
    pub secs: u64,
    pub nanos: u32,
}

/// What an `AudioSource` holds, as mathematical sequences.
pub struct SourceView {
    pub mono: Seq<i32>,
    pub stereo: Option<Seq<(i32, i32)>>,
    pub sample_rate: u32,
}

/// A fully decoded audio asset: a mono buffer, a stereo buffer where the file
/// had two channels, and the sample rate. Samples are normalized fixed-point
/// values. It is never changed after it is built.
#[derive(Debug)]
pub struct AudioSource {
    mono: Vec<i32>,
    stereo: Option<Vec<(i32, i32)>>,
    sample_rate: u32,
}

/// The playing time of `frames` frames at `rate` frames per second, rounded
/// down to the nanosecond.
pub open spec fn span_of(frames: nat, rate: u32) -> Span
    recommends
        rate > 0,
{
    Span {
        secs: (frames / (rate as nat)) as u64,
        nanos: (((frames % (rate as nat)) * 1_000_000_000) / (rate as nat)) as u32,
    }
}

/// A span is the quotient of frames by rate in whole nanoseconds: its seconds
/// and nanoseconds together are `frames * 10^9 / rate`, rounded down.
pub proof fn lemma_span_is_quotient(frames: nat, rate: u32)
    requires
        rate > 0,
        frames / (rate as nat) <= u64::MAX,
    ensures
        span_of(frames, rate).secs * 1_000_000_000 + span_of(frames, rate).nanos == (frames
            * 1_000_000_000) / (rate as nat),
        span_of(frames, rate).nanos < 1_000_000_000,
{
    let r = rate as int;
    let n = frames as int;
    let whole = n / r;
    let rest = n % r;
    let scaled = rest * 1_000_000_000;
    let fine = scaled / r;
    assert(n == whole * r + rest && 0 <= rest < r) by (nonlinear_arith)
        requires
            whole == n / r,
            rest == n % r,
            r > 0,
    ;
    assert(scaled == fine * r + scaled % r && 0 <= scaled % r < r) by (nonlinear_arith)
        requires
            fine == scaled / r,
            r > 0,
    ;
    assert(0 <= fine < 1_000_000_000) by (nonlinear_arith)
        requires
            fine == scaled / r,
            scaled == rest * 1_000_000_000,
            0 <= rest < r,
    ;
    assert(n * 1_000_000_000 == (whole * 1_000_000_000 + fine) * r + scaled % r)
        by (nonlinear_arith)
        requires
            n == whole * r + rest,
            scaled == rest * 1_000_000_000,
            scaled == fine * r + scaled % r,
    ;
    vstd::arithmetic::div_mod::lemma_fundamental_div_mod_converse(
        n * 1_000_000_000,
        r,
        whole * 1_000_000_000 + fine,
        scaled % r,
    );
}

/// The stereo frames of an interleaved sample sequence; a trailing sample
/// without a partner is left out.
pub open spec fn paired(samples: Seq<i32>) -> Seq<(i32, i32)> {
    Seq::new(samples.len() / 2, |i: int| (samples[2 * i], samples[2 * i + 1]))
}

/// The mean of the two channels of one frame.
pub open spec fn mean(left: i32, right: i32) -> i32 {
    ((left + right) / 2) as i32
}

/// The mono mixdown of stereo frames: the mean of each frame.
pub open spec fn mixdown(frames: Seq<(i32, i32)>) -> Seq<i32> {
    Seq::new(frames.len(), |i: int| mean(frames[i].0, frames[i].1))
}

/// Whether a sample is normalized: at least -1 and below 1.
pub open spec fn in_range(sample: i32) -> bool {
    -SAMPLE_ONE <= sample < SAMPLE_ONE
}

/// Whether every sample is normalized.
pub open spec fn all_in_range(samples: Seq<i32>) -> bool {
    forall|i: int| 0 <= i < samples.len() ==> in_range(#[trigger] samples[i])
}

/// Whether both channels of every frame are normalized.
pub open spec fn frames_in_range(frames: Seq<(i32, i32)>) -> bool {
    forall|i: int|
        0 <= i < frames.len() ==> in_range((#[trigger] frames[i]).0) && in_range(frames[i].1)
}

/// The invariant of a decoded asset: a positive rate, at least one frame,
/// normalized samples throughout, and a stereo buffer, where there is one, of
/// which the mono buffer is the mixdown.
pub open spec fn well_formed(v: SourceView) -> bool {
    &&& v.sample_rate > 0
    &&& v.mono.len() > 0
    &&& all_in_range(v.mono)
    &&& v.stereo matches Some(frames) ==> v.mono == mixdown(frames) && frames_in_range(frames)
}

/// The asset that interleaved normalized samples make at the given rate and
/// channel count, or the reason there is none.
pub open spec fn assembled(sample_rate: u32, channels: int, samples: Seq<i32>) -> Result<
    SourceView,
    DecodeError,
> {
    if channels != 1 && channels != 2 {
        Err(DecodeError::UnsupportedChannelLayout)
    } else if sample_rate == 0 || !all_in_range(samples) {
        Err(DecodeError::CorruptStream)
    } else if samples.len() / (channels as nat) == 0 {
        Err(DecodeError::EmptyStream)
    } else if channels == 1 {
        Ok(SourceView { mono: samples, stereo: None, sample_rate })
    } else {
        Ok(
            SourceView {
                mono: mixdown(paired(samples)),
                stereo: Some(paired(samples)),
                sample_rate,
            },
        )
    }
}

/// Whether a decoder's outcome is the one wanted: the same error, or an asset
/// with the wanted contents.
pub open spec fn decodes_to(
    out: Result<AudioSource, DecodeError>,
    want: Result<SourceView, DecodeError>,
) -> bool {
    match out {
        Ok(source) => want == Ok::<SourceView, DecodeError>(source@) && well_formed(source@),
        Err(e) => want == Err::<SourceView, DecodeError>(e),
    }
}

/// Whatever is assembled satisfies the asset invariant.
pub proof fn lemma_assembled_well_formed(sample_rate: u32, channels: int, samples: Seq<i32>)
    ensures
        assembled(sample_rate, channels, samples) matches Ok(v) ==> well_formed(v),
{
    if assembled(sample_rate, channels, samples) is Ok && channels == 2 {
        let frames = paired(samples);
        assert forall|i: int| 0 <= i < frames.len() implies in_range((#[trigger] frames[i]).0)
            && in_range(frames[i].1) by {
            assert(in_range(samples[2 * i]));
            assert(in_range(samples[2 * i + 1]));
        }
        assert forall|i: int| 0 <= i < frames.len() implies in_range(
            #[trigger] mixdown(frames)[i],
        ) by {
            assert(in_range(frames[i].0) && in_range(frames[i].1));
        }
    }
}

/// Mono input of N samples at a positive rate gives a mono buffer of those N
/// samples, no stereo buffer, and the rate unchanged.
pub proof fn lemma_mono_lengths(sample_rate: u32, samples: Seq<i32>)
    requires
        sample_rate > 0,
        samples.len() > 0,
        all_in_range(samples),
    ensures
        assembled(sample_rate, 1, samples) matches Ok(v) && v.mono == samples && v.stereo.is_none()
            && v.sample_rate == sample_rate,
{
}

/// Stereo input of 2N samples at a positive rate gives N stereo frames and N
/// mono samples, each mono sample the mean of its frame.
pub proof fn lemma_stereo_lengths(sample_rate: u32, samples: Seq<i32>, n: nat)
    requires
        sample_rate > 0,
        n > 0,
        samples.len() == 2 * n,
        all_in_range(samples),
    ensures
        assembled(sample_rate, 2, samples) matches Ok(v) && v.mono.len() == n && (
        v.stereo matches Some(frames) && frames.len() == n && (forall|i: int|
            0 <= i < n ==> frames[i] == (samples[2 * i], samples[2 * i + 1]) && #[trigger] v.mono[i]
                == mean(frames[i].0, frames[i].1))),
{
}

/// The floor of half the sum of two samples.
fn mean_of(left: i32, right: i32) -> (m: i32)
    ensures
        m == mean(left, right),
{
    let sum: i64 = left as i64 + right as i64;
    let half: i64 = if sum >= 0 {
        sum / 2
    } else {
        -((-sum - 1) / 2) - 1
    };
    half as i32
}

/// The playing time of `frames` frames at `rate` frames per second.
fn span_for(frames: usize, rate: u32) -> (s: Span)
    requires
        rate > 0,
    ensures
        s == span_of(frames as nat, rate),
        s.nanos < 1_000_000_000,
{
    let n: u64 = frames as u64;
    let r: u64 = rate as u64;
    let secs: u64 = n / r;
    let rest: u64 = n % r;
    assert(rest * 1_000_000_000 <= 0xffff_ffff * 1_000_000_000) by (nonlinear_arith)
        requires
            rest <= 0xffff_ffff,
    ;
    let scaled: u64 = rest * 1_000_000_000;
    assert(scaled / r < 1_000_000_000) by (nonlinear_arith)
        requires
            scaled == rest * 1_000_000_000,
            rest < r,
            r > 0,
    ;
    let nanos: u64 = scaled / r;
    Span { secs, nanos: nanos as u32 }
}

impl View for AudioSource {
    type V = SourceView;

    closed spec fn view(&self) -> SourceView {
        SourceView {
            mono: self.mono@,
            stereo: match self.stereo {
                Some(frames) => Some(frames@),
                None => None,
            },
            sample_rate: self.sample_rate,
        }
    }
}

impl Clone for AudioSource {
    /// A copy with the same contents.
    fn clone(&self) -> (out: Self)
        ensures
            out@ == self@,
    {
        proof {
            use_type_invariant(self);
        }
        let mut mono: Vec<i32> = Vec::new();
        let mut i: usize = 0;
        while i < self.mono.len()
            invariant
                i <= self.mono@.len(),
                mono@ == self.mono@.take(i as int),
            decreases self.mono@.len() - i,
        {
            mono.push(self.mono[i]);
            assert(mono@ =~= self.mono@.take(i + 1));
            i = i + 1;
        }
        assert(mono@ =~= self.mono@);
        let stereo = match &self.stereo {
            Some(frames) => {
                let mut copy: Vec<(i32, i32)> = Vec::new();
                let mut j: usize = 0;
                while j < frames.len()
                    invariant
                        j <= frames@.len(),
                        copy@ == frames@.take(j as int),
                    decreases frames@.len() - j,
                {
                    copy.push(frames[j]);
                    assert(copy@ =~= frames@.take(j + 1));
                    j = j + 1;
                }
                assert(copy@ =~= frames@);
                Some(copy)
            },
            None => None,
        };
        AudioSource { mono, stereo, sample_rate: self.sample_rate }
    }
}

impl AudioSource {
    #[verifier::type_invariant]
    closed spec fn holds(self) -> bool {
        well_formed(self@)
    }

    /// Assembles an asset from interleaved normalized samples.
    ///
    /// One channel fills the mono buffer alone. Two channels fill the stereo
    /// buffer with the frames and the mono buffer with their mixdown. Any other
    /// channel count is refused, then a zero rate or a sample that is not
    /// normalized, then a stream with no frame.
    pub fn assemble(sample_rate: u32, channels: usize, samples: Vec<i32>) -> (out: Result<
        AudioSource,
        DecodeError,
    >)
        ensures
            decodes_to(out, assembled(sample_rate, channels as int, samples@)),
    {
        if channels != 1 && channels != 2 {
            return Err(DecodeError::UnsupportedChannelLayout);
        }
        if sample_rate == 0 {
            return Err(DecodeError::CorruptStream);
        }
        let mut k: usize = 0;
        while k < samples.len()
            invariant
                channels == 1 || channels == 2,
                sample_rate > 0,
                k <= samples@.len(),
                forall|j: int| 0 <= j < k ==> in_range(#[trigger] samples@[j]),
            decreases samples@.len() - k,
        {
            let sample: i32 = samples[k];
            if sample < -SAMPLE_ONE || sample >= SAMPLE_ONE {
                assert(!in_range(samples@[k as int]));
                return Err(DecodeError::CorruptStream);
            }
            k = k + 1;
        }
        proof {
            lemma_assembled_well_formed(sample_rate, channels as int, samples@);
        }
        if samples.len() / channels == 0 {
            return Err(DecodeError::EmptyStream);
        }
        if channels == 1 {
            return Ok(AudioSource { mono: samples, stereo: None, sample_rate });
        }
        let total: usize = samples.len();
        let frames_len: usize = total / 2;
        let mut frames: Vec<(i32, i32)> = Vec::new();
        let mut mono: Vec<i32> = Vec::new();
        let mut i: usize = 0;
        while i < frames_len
            invariant
                frames_len == samples@.len() / 2,
                total == samples@.len(),
                2 * frames_len <= total,
                i <= frames_len,
                frames@.len() == i,
                mono@.len() == i,
                forall|k: int| 0 <= k < i ==> #[trigger] frames@[k] == paired(samples@)[k],
                forall|k: int| 0 <= k < i ==> #[trigger] mono@[k] == mixdown(paired(samples@))[k],
            decreases frames_len - i,
        {
            let left: i32 = samples[2 * i];
            let right: i32 = samples[2 * i + 1];
            frames.push((left, right));
            mono.push(mean_of(left, right));
            i = i + 1;
        }
        assert(frames@ =~= paired(samples@));
        assert(mono@ =~= mixdown(paired(samples@)));
        Ok(AudioSource { mono, stereo: Some(frames), sample_rate })
    }

    /// The mono buffer.
    pub fn mono(&self) -> (out: &Vec<i32>)
        ensures
            out@ == self@.mono,
            well_formed(self@),
    {
        proof {
            use_type_invariant(self);
        }
        &self.mono
    }

    /// The stereo buffer, where the file had two channels.
    pub fn stereo(&self) -> (out: Option<&Vec<(i32, i32)>>)
        ensures
            match out {
                Some(frames) => self@.stereo == Some(frames@),
                None => self@.stereo.is_none(),
            },
    {
        match &self.stereo {
            Some(frames) => Some(frames),
            None => None,
        }
    }

    /// The number of frames per second.
    pub fn sample_rate(&self) -> (out: u32)
        ensures
            out == self@.sample_rate,
    {
        self.sample_rate
    }

    /// The playing time: the length of the mono buffer over the sample rate.
    pub fn duration(&self) -> (out: Span)
        ensures
            out == span_of(self@.mono.len(), self@.sample_rate),
            out.nanos < 1_000_000_000,
            well_formed(self@),
    {
        proof {
            use_type_invariant(self);
        }
        span_for(self.mono.len(), self.sample_rate)
    }
}

} // verus!
