//! The MP3 decoder: frames are pulled from `minimp3` one by one, joined and
//! assembled here.

use vstd::prelude::*;
use crate::source::{
    all_in_range, assembled, decodes_to, in_range, mean, paired, AudioSource, DecodeError,
    SourceView,
};

verus! {

/// `minimp3::Decoder`, the frame decoder over a reader. Nothing is known of
/// it but the frames it has yet to yield.
#[verifier::external_type_specification]
#[verifier::external_body]
#[verifier::reject_recursive_types(R)]
pub struct ExMp3Decoder<R>(minimp3::Decoder<R>);

/// `std::io::Cursor`, the reader over a byte buffer that the decoder is given.
#[verifier::external_type_specification]
#[verifier::external_body]
#[verifier::reject_recursive_types(T)]
pub struct ExCursor<T>(std::io::Cursor<T>);

/// One decoded MP3 frame: sixteen-bit levels, channels interleaved, with the
/// rate and channel count that the frame header states.
#[derive(Debug)]
pub struct Mp3Frame {
    pub data: Vec<i16>,
    pub sample_rate: i32,
    pub channels: usize,
}

/// An `Mp3Frame` as mathematical values.
pub struct Mp3FrameData {
    pub data: Seq<i16>,
    pub sample_rate: i32,
    pub channels: usize,
}

impl View for Mp3Frame {
    type V = Mp3FrameData;

    open spec fn view(&self) -> Mp3FrameData {
        Mp3FrameData { data: self.data@, sample_rate: self.sample_rate, channels: self.channels }
    }
}

/// What a pull on the frame decoder gave: a frame, the end of the input, or
/// a failure of any other kind.
pub enum Mp3Step {
    Frame(Mp3Frame),
    End,
    Failed,
}

/// What a frame decoder makes of its input: the frames it yields before it
/// first reports an error, and whether that error is the end of the input.
pub struct Mp3Stream {
    pub frames: Seq<Mp3FrameData>,
    pub clean_end: bool,
}

/// What `minimp3` makes of a byte buffer, as the decoder that this build
/// links computes it.
pub uninterp spec fn mp3_contents(bytes: Seq<u8>) -> Mp3Stream;

/// What a decoder has yet to make of the rest of its input.
pub uninterp spec fn mp3_pending(decoder: minimp3::Decoder<std::io::Cursor<&[u8]>>) -> Mp3Stream;

/// Starts a `minimp3` decoder on a byte buffer: `Decoder::new` on a cursor
/// over the bytes. The contract claims that what it will yield is a function
/// of the bytes, named `mp3_contents`.
#[verifier::external_body]
fn mp3_open<'a>(bytes: &'a [u8]) -> (decoder: minimp3::Decoder<std::io::Cursor<&'a [u8]>>)
    ensures
        mp3_pending(decoder) == mp3_contents(bytes@),
{
    minimp3::Decoder::new(std::io::Cursor::new(bytes))
}

/// Pulls the next frame: `Decoder::next_frame`. The contract claims that a
/// frame handed out is the first of the pending ones and leaves the rest
/// pending with the same ending, and that an error comes only when no frame
/// is pending: `Error::Eof` where the ending is clean, any other error where
/// it is not.
#[verifier::external_body]
fn mp3_next<'a>(decoder: &mut minimp3::Decoder<std::io::Cursor<&'a [u8]>>) -> (out: Mp3Step)
    ensures
        match out {
            Mp3Step::Frame(frame) => mp3_pending(*old(decoder)).frames.len() > 0 && frame@
                == mp3_pending(*old(decoder)).frames[0] && mp3_pending(*final(decoder)) == (
            Mp3Stream {
                frames: mp3_pending(*old(decoder)).frames.skip(1),
                clean_end: mp3_pending(*old(decoder)).clean_end,
            }),
            Mp3Step::End => mp3_pending(*old(decoder)).frames.len() == 0 && mp3_pending(
                *old(decoder),
            ).clean_end,
            Mp3Step::Failed => mp3_pending(*old(decoder)).frames.len() == 0 && !mp3_pending(
                *old(decoder),
            ).clean_end,
        },
{
    match decoder.next_frame() {
        Ok(f) => Mp3Step::Frame(
            Mp3Frame { data: f.data, sample_rate: f.sample_rate, channels: f.channels },
        ),
        Err(minimp3::Error::Eof) => Mp3Step::End,
        Err(minimp3::Error::Io(_)) => Mp3Step::Failed,
        Err(minimp3::Error::InsufficientData) => Mp3Step::Failed,
        Err(minimp3::Error::SkippedData) => Mp3Step::Failed,
    }
}

/// The views of a sequence of frames.
pub open spec fn frame_views(frames: Seq<Mp3Frame>) -> Seq<Mp3FrameData> {
    Seq::new(frames.len(), |i: int| frames[i]@)
}

/// Sixteen-bit levels as normalized samples.
pub open spec fn doubled(levels: Seq<i16>) -> Seq<i32> {
    Seq::new(levels.len(), |i: int| (2 * levels[i]) as i32)
}

/// The normalized samples of all frames, in order.
pub open spec fn joined(frames: Seq<Mp3FrameData>) -> Seq<i32>
    decreases frames.len(),
{
    if frames.len() == 0 {
        Seq::empty()
    } else {
        joined(frames.drop_last()) + doubled(frames.last().data)
    }
}

/// Whether every frame states the rate and channel count of the first.
pub open spec fn uniform(frames: Seq<Mp3FrameData>) -> bool {
    forall|i: int|
        0 <= i < frames.len() ==> (#[trigger] frames[i]).sample_rate == frames[0].sample_rate
            && frames[i].channels == frames[0].channels
}

/// Whether every frame has one channel or two.
pub open spec fn layouts_supported(frames: Seq<Mp3FrameData>) -> bool {
    forall|i: int|
        0 <= i < frames.len() ==> (#[trigger] frames[i]).channels == 1 || frames[i].channels == 2
}

/// The asset that decoded MP3 frames make, or the error. `clean_end` says
/// whether the frames ended with the input rather than with a failure of the
/// decoder, `input_empty` whether the file had no bytes at all.
///
/// A frame anywhere with a channel count other than one or two is an
/// unsupported layout. Then frames that a failure cut short are corrupt,
/// however many came before it. No frame at all is an empty stream where the
/// input was empty and a corrupt one where it was not. Last, a frame that
/// departs from the first in rate or channels, or a rate that is not
/// positive, makes the stream corrupt.
pub open spec fn mp3_source(
    frames: Seq<Mp3FrameData>,
    clean_end: bool,
    input_empty: bool,
) -> Result<SourceView, DecodeError> {
    if !layouts_supported(frames) {
        Err(DecodeError::UnsupportedChannelLayout)
    } else if !clean_end {
        Err(DecodeError::CorruptStream)
    } else if frames.len() == 0 {
        if input_empty {
            Err(DecodeError::EmptyStream)
        } else {
            Err(DecodeError::CorruptStream)
        }
    } else if !uniform(frames) || frames[0].sample_rate <= 0 {
        Err(DecodeError::CorruptStream)
    } else {
        assembled(frames[0].sample_rate as u32, frames[0].channels as int, joined(frames))
    }
}

/// What decoding a byte buffer as MP3 gives, from what the frame decoder
/// makes of it.
pub open spec fn mp3_decoded(stream: Mp3Stream, input_empty: bool) -> Result<
    SourceView,
    DecodeError,
> {
    mp3_source(stream.frames, stream.clean_end, input_empty)
}

proof fn lemma_joined_step(frames: Seq<Mp3FrameData>, i: int)
    requires
        0 <= i < frames.len(),
    ensures
        joined(frames.take(i + 1)) == joined(frames.take(i)) + doubled(frames[i].data),
{
    assert(frames.take(i + 1).drop_last() =~= frames.take(i));
}

/// The joined samples of any frames are normalized.
pub proof fn lemma_joined_in_range(frames: Seq<Mp3FrameData>)
    ensures
        all_in_range(joined(frames)),
    decreases frames.len(),
{
    if frames.len() > 0 {
        lemma_joined_in_range(frames.drop_last());
        let head = joined(frames.drop_last());
        let tail = doubled(frames.last().data);
        assert forall|i: int| 0 <= i < joined(frames).len() implies in_range(
            #[trigger] joined(frames)[i],
        ) by {
            if i < head.len() {
                assert(in_range(head[i]));
            } else {
                assert(joined(frames)[i] == tail[i - head.len()]);
            }
        }
    }
}

/// Uniform mono frames with N samples in all, ended by the end of the input,
/// decode to a mono buffer of those N samples, without a stereo buffer, at the
/// frames' rate.
pub proof fn lemma_mp3_mono(frames: Seq<Mp3FrameData>, input_empty: bool)
    requires
        frames.len() > 0,
        uniform(frames),
        frames[0].channels == 1,
        frames[0].sample_rate > 0,
        joined(frames).len() > 0,
    ensures
        mp3_source(frames, true, input_empty) matches Ok(v) && v.mono == joined(frames)
            && v.stereo.is_none() && v.sample_rate == frames[0].sample_rate,
{
    lemma_joined_in_range(frames);
}

/// Uniform stereo frames with 2N samples in all, ended by the end of the
/// input, decode to N stereo frames and N mono samples, each mono sample the
/// mean of its frame.
pub proof fn lemma_mp3_stereo(frames: Seq<Mp3FrameData>, input_empty: bool, n: nat)
    requires
        frames.len() > 0,
        uniform(frames),
        frames[0].channels == 2,
        frames[0].sample_rate > 0,
        joined(frames).len() == 2 * n,
        n > 0,
    ensures
        mp3_source(frames, true, input_empty) matches Ok(v) && v.mono.len() == n && v.sample_rate
            == frames[0].sample_rate && (v.stereo matches Some(pairs) && pairs.len() == n
            && (forall|i: int|
            0 <= i < n ==> #[trigger] v.mono[i] == mean(pairs[i].0, pairs[i].1))),
{
    lemma_joined_in_range(frames);
}

/// A frame with a channel count other than one or two, wherever it stands
/// and however the frames ended, makes the layout unsupported.
pub proof fn lemma_mp3_unsupported_layout(
    frames: Seq<Mp3FrameData>,
    clean_end: bool,
    input_empty: bool,
    k: int,
)
    requires
        0 <= k < frames.len(),
        frames[k].channels != 1,
        frames[k].channels != 2,
    ensures
        mp3_source(frames, clean_end, input_empty) == Err::<SourceView, DecodeError>(
            DecodeError::UnsupportedChannelLayout,
        ),
{
}

/// Frames of supported layout that a failure of the decoder cut short are a
/// corrupt stream, however many of them there are: no shorter asset is made
/// of them.
pub proof fn lemma_mp3_failure_is_corrupt(frames: Seq<Mp3FrameData>, input_empty: bool)
    requires
        layouts_supported(frames),
    ensures
        mp3_source(frames, false, input_empty) == Err::<SourceView, DecodeError>(
            DecodeError::CorruptStream,
        ),
{
}

/// Whatever the frames and their ending, the outcome is an error or an asset
/// made of all the frames: never of a part of them.
pub proof fn lemma_mp3_whole_or_nothing(
    frames: Seq<Mp3FrameData>,
    clean_end: bool,
    input_empty: bool,
)
    ensures
        mp3_source(frames, clean_end, input_empty) matches Ok(v) ==> clean_end
            && layouts_supported(frames) && uniform(frames) && (v.mono == joined(frames)
            || v.stereo == Some(paired(joined(frames)))),
{
}

/// Loads MP3 files as `AudioSource` assets.
#[derive(Clone, Copy, Debug, Default)]
pub struct Mp3Loader;

impl Mp3Loader {
    /// Joins decoded frames and assembles the asset. `clean_end` says whether
    /// the frames ended with the input rather than with a failure of the
    /// decoder, `input_empty` whether the file had no bytes at all.
    pub fn decode_frames(frames: &Vec<Mp3Frame>, clean_end: bool, input_empty: bool) -> (out:
        Result<AudioSource, DecodeError>)
        ensures
            decodes_to(out, mp3_source(frame_views(frames@), clean_end, input_empty)),
    {
        let ghost views = frame_views(frames@);
        let mut c: usize = 0;
        while c < frames.len()
            invariant
                views == frame_views(frames@),
                c <= frames@.len(),
                forall|k: int|
                    0 <= k < c ==> (#[trigger] views[k]).channels == 1 || views[k].channels == 2,
            decreases frames@.len() - c,
        {
            let count: usize = frames[c].channels;
            assert(views[c as int] == frames@[c as int]@);
            if count != 1 && count != 2 {
                assert(!layouts_supported(views));
                return Err(DecodeError::UnsupportedChannelLayout);
            }
            c = c + 1;
        }
        assert(layouts_supported(views));
        if !clean_end {
            return Err(DecodeError::CorruptStream);
        }
        if frames.len() == 0 {
            return if input_empty {
                Err(DecodeError::EmptyStream)
            } else {
                Err(DecodeError::CorruptStream)
            };
        }
        let channels: usize = frames[0].channels;
        let rate: i32 = frames[0].sample_rate;
        assert(views[0] == frames@[0]@);
        let mut samples: Vec<i32> = Vec::new();
        let mut i: usize = 0;
        assert(joined(views.take(0)) =~= Seq::<i32>::empty());
        while i < frames.len()
            invariant
                views == frame_views(frames@),
                layouts_supported(views),
                clean_end,
                frames@.len() > 0,
                channels == views[0].channels,
                rate == views[0].sample_rate,
                channels == 1 || channels == 2,
                i <= frames@.len(),
                samples@ == joined(views.take(i as int)),
                forall|k: int|
                    0 <= k < i ==> (#[trigger] views[k]).sample_rate == rate && views[k].channels
                        == channels,
            decreases frames@.len() - i,
        {
            let frame = &frames[i];
            assert(views[i as int] == frame@);
            if frame.channels != channels || frame.sample_rate != rate {
                assert(!uniform(views));
                return Err(DecodeError::CorruptStream);
            }
            let ghost before = samples@;
            let mut j: usize = 0;
            while j < frame.data.len()
                invariant
                    j <= frame.data@.len(),
                    samples@.len() == before.len() + j,
                    forall|k: int| 0 <= k < before.len() ==> samples@[k] == before[k],
                    forall|k: int|
                        0 <= k < j ==> samples@[before.len() + k] == #[trigger] doubled(
                            frame.data@,
                        )[k],
                decreases frame.data@.len() - j,
            {
                let level: i32 = frame.data[j] as i32;
                samples.push(2 * level);
                j = j + 1;
            }
            proof {
                assert(samples@ =~= before + doubled(frame.data@));
                lemma_joined_step(views, i as int);
            }
            i = i + 1;
        }
        assert(views.take(frames@.len() as int) =~= views);
        assert(uniform(views));
        if rate <= 0 {
            return Err(DecodeError::CorruptStream);
        }
        AudioSource::assemble(rate as u32, channels, samples)
    }

    /// Decodes an MP3 file: the frames that the frame decoder yields, and how
    /// they ended, decoded as `decode_frames` says.
    pub fn load(&self, bytes: &[u8]) -> (out: Result<AudioSource, DecodeError>)
        ensures
            decodes_to(out, mp3_decoded(mp3_contents(bytes@), bytes@.len() == 0)),
    {
        let mut decoder = mp3_open(bytes);
        let mut frames: Vec<Mp3Frame> = Vec::new();
        let mut clean_end: bool = true;
        loop
            invariant_except_break
                frame_views(frames@) + mp3_pending(decoder).frames == mp3_contents(bytes@).frames,
                mp3_pending(decoder).clean_end == mp3_contents(bytes@).clean_end,
            ensures
                frame_views(frames@) == mp3_contents(bytes@).frames,
                clean_end == mp3_contents(bytes@).clean_end,
            decreases mp3_pending(decoder).frames.len(),
        {
            let ghost earlier = frame_views(frames@);
            let ghost pending = mp3_pending(decoder).frames;
            match mp3_next(&mut decoder) {
                Mp3Step::Frame(frame) => {
                    frames.push(frame);
                    assert(frame_views(frames@) + mp3_pending(decoder).frames =~= earlier
                        + pending);
                },
                Mp3Step::End => {
                    assert(earlier + pending =~= earlier);
                    clean_end = true;
                    break ;
                },
                Mp3Step::Failed => {
                    assert(earlier + pending =~= earlier);
                    clean_end = false;
                    break ;
                },
            }
        }
        Self::decode_frames(&frames, clean_end, bytes.len() == 0)
    }

    /// The file extensions that this loader answers for.
    pub fn extensions(&self) -> (out: Vec<&'static str>)
        ensures
            out@.len() == 1,
            out@[0]@ == "mp3"@,
    {
        let mut out: Vec<&'static str> = Vec::new();
        out.push("mp3");
        out
    }
}

} // verus!
