//! The FLAC decoder: blocks are pulled from `claxon` one by one; their
//! channels are interleaved and the samples normalized and assembled here.

use vstd::prelude::*;
use crate::sample::{fits_depth, lemma_level_range, normalize, normalized};
use crate::source::{
    all_in_range, assembled, decodes_to, in_range, mean, AudioSource, DecodeError, SourceView,
};

verus! {

/// `claxon::Error`, the error of the container reader. It is only told from
/// success, never looked into.
#[verifier::external_type_specification]
#[verifier::external_body]
pub struct ExFlacError(claxon::Error);

/// What a FLAC file holds: its stream metadata and its samples as the
/// container stores them, channels interleaved.
#[derive(Debug)]
pub struct FlacStream {
    pub sample_rate: u32,
    pub channels: u32,
    pub bits_per_sample: u32,
    pub samples: Vec<i32>,
}

/// A `FlacStream` as mathematical values.
pub struct FlacData {
    pub sample_rate: u32,
    pub channels: u32,
    pub bits_per_sample: u32,
    pub samples: Seq<i32>,
}

impl View for FlacStream {
    type V = FlacData;

    open spec fn view(&self) -> FlacData {
        FlacData {
            sample_rate: self.sample_rate,
            channels: self.channels,
            bits_per_sample: self.bits_per_sample,
            samples: self.samples@,
        }
    }
}

/// A `claxon::FlacReader` over a cursor on a byte buffer, held opaquely.
/// Nothing is known of it but its stream metadata and the blocks it has yet
/// to yield.
#[verifier::external_body]
pub struct FlacSource<'a> {
    reader: claxon::FlacReader<std::io::Cursor<&'a [u8]>>,
}

/// The stream metadata that decoding needs.
#[derive(Clone, Copy, Debug)]
pub struct FlacInfo {
    pub sample_rate: u32,
    pub channels: u32,
    pub bits_per_sample: u32,
}

/// One decoded block as the container reader hands it out: `duration` samples
/// of each of `channels` channels, the channels stored one after another.
#[derive(Debug)]
pub struct FlacBlock {
    pub channels: u32,
    pub duration: u32,
    pub buffer: Vec<i32>,
}

/// A `FlacBlock` as mathematical values.
pub struct FlacBlockData {
    pub channels: u32,
    pub duration: u32,
    pub buffer: Seq<i32>,
}

impl View for FlacBlock {
    type V = FlacBlockData;

    open spec fn view(&self) -> FlacBlockData {
        FlacBlockData { channels: self.channels, duration: self.duration, buffer: self.buffer@ }
    }
}

/// What a pull on the container reader gave: a block, the end of the input,
/// or an error.
pub enum FlacStep {
    Block(FlacBlock),
    End,
    Failed,
}

/// What a reader makes of the audio frames of its input: the blocks it yields
/// before the input ends or it first reports an error, and whether the end of
/// the input came first.
pub struct FlacRest {
    pub blocks: Seq<FlacBlockData>,
    pub clean_end: bool,
}

/// What a reader makes of a whole file.
pub struct FlacFile {
    pub info: FlacInfo,
    pub rest: FlacRest,
}

/// What `claxon` makes of a byte buffer, or `None` where it refuses the
/// stream header or the metadata.
pub uninterp spec fn flac_contents(bytes: Seq<u8>) -> Option<FlacFile>;

/// The stream metadata that a reader holds.
pub uninterp spec fn flac_info(reader: FlacSource) -> FlacInfo;

/// What a reader has yet to make of the rest of its input.
pub uninterp spec fn flac_pending(reader: FlacSource) -> FlacRest;

/// Opens a FLAC file: `FlacReader::new` on a cursor over the bytes, which
/// reads the stream header and the metadata. The contract claims only that
/// the outcome is a function of the bytes, named `flac_contents`.
#[verifier::external_body]
fn flac_open<'a>(bytes: &'a [u8]) -> (out: Result<FlacSource<'a>, claxon::Error>)
    ensures
        match out {
            Ok(reader) => flac_contents(bytes@) == Some(
                FlacFile { info: flac_info(reader), rest: flac_pending(reader) },
            ),
            Err(_) => flac_contents(bytes@).is_none(),
        },
{
    let reader = claxon::FlacReader::new(std::io::Cursor::new(bytes))?;
    Ok(FlacSource { reader })
}

/// Reads the stream metadata: `FlacReader::streaminfo`, of which the rate, the
/// channel count and the bit depth are kept.
#[verifier::external_body]
fn flac_streaminfo<'a>(reader: &FlacSource<'a>) -> (out: FlacInfo)
    ensures
        out == flac_info(*reader),
{
    let info = reader.reader.streaminfo();
    FlacInfo {
        sample_rate: info.sample_rate,
        channels: info.channels,
        bits_per_sample: info.bits_per_sample,
    }
}

/// Decodes the next block: `FrameReader::read_next_or_eof` on
/// `FlacReader::blocks`, and of the block `Block::channels`, `Block::duration`
/// and `Block::into_buffer`. The contract claims that a block handed out is
/// the first of the pending ones and leaves the rest pending with the same
/// ending, and that the end of the input or an error comes only when no block
/// is pending: the end where the ending is clean, an error where it is not.
#[verifier::external_body]
fn flac_next<'a>(reader: &mut FlacSource<'a>) -> (out: FlacStep)
    ensures
        match out {
            FlacStep::Block(block) => flac_pending(*old(reader)).blocks.len() > 0 && block@
                == flac_pending(*old(reader)).blocks[0] && flac_pending(*final(reader)) == (
            FlacRest {
                blocks: flac_pending(*old(reader)).blocks.skip(1),
                clean_end: flac_pending(*old(reader)).clean_end,
            }),
            FlacStep::End => flac_pending(*old(reader)).blocks.len() == 0 && flac_pending(
                *old(reader),
            ).clean_end,
            FlacStep::Failed => flac_pending(*old(reader)).blocks.len() == 0 && !flac_pending(
                *old(reader),
            ).clean_end,
        },
{
    match reader.reader.blocks().read_next_or_eof(Vec::new()) {
        Ok(Some(block)) => FlacStep::Block(
            FlacBlock {
                channels: block.channels(),
                duration: block.duration(),
                buffer: block.into_buffer(),
            },
        ),
        Ok(None) => FlacStep::End,
        Err(_) => FlacStep::Failed,
    }
}

/// Whether a block's buffer holds exactly its channels times its duration.
pub open spec fn block_sound(block: FlacBlockData) -> bool {
    block.buffer.len() == block.channels * block.duration
}

/// Whether every block is sound.
pub open spec fn blocks_sound(blocks: Seq<FlacBlockData>) -> bool {
    forall|i: int| 0 <= i < blocks.len() ==> block_sound(#[trigger] blocks[i])
}

/// The samples of all channels at time `t` of a block, in channel order.
pub open spec fn frame_at(block: FlacBlockData, t: int) -> Seq<i32> {
    Seq::new(block.channels as nat, |c: int| block.buffer[c * block.duration + t])
}

/// The first `n` frames of a block, channels interleaved.
pub open spec fn interleaved_upto(block: FlacBlockData, n: nat) -> Seq<i32>
    decreases n,
{
    if n == 0 {
        Seq::empty()
    } else {
        interleaved_upto(block, (n - 1) as nat) + frame_at(block, n - 1)
    }
}

/// The samples of a block, channels interleaved.
pub open spec fn interleaved(block: FlacBlockData) -> Seq<i32> {
    interleaved_upto(block, block.duration as nat)
}

/// The views of a sequence of blocks.
pub open spec fn block_views(blocks: Seq<FlacBlock>) -> Seq<FlacBlockData> {
    Seq::new(blocks.len(), |i: int| blocks[i]@)
}

/// The samples of all blocks in order, channels interleaved.
pub open spec fn all_samples(blocks: Seq<FlacBlockData>) -> Seq<i32>
    decreases blocks.len(),
{
    if blocks.len() == 0 {
        Seq::empty()
    } else {
        all_samples(blocks.drop_last()) + interleaved(blocks.last())
    }
}

proof fn lemma_all_samples_step(blocks: Seq<FlacBlockData>, i: int)
    requires
        0 <= i < blocks.len(),
    ensures
        all_samples(blocks.take(i + 1)) == all_samples(blocks.take(i)) + interleaved(blocks[i]),
{
    assert(blocks.take(i + 1).drop_last() =~= blocks.take(i));
}

/// Whether every raw sample fits the bit depth.
pub open spec fn all_fit(raw: Seq<i32>, bits: u32) -> bool {
    forall|i: int| 0 <= i < raw.len() ==> fits_depth(#[trigger] raw[i] as int, bits as int)
}

/// The raw samples, each normalized from the bit depth.
pub open spec fn normalized_all(raw: Seq<i32>, bits: u32) -> Seq<i32> {
    Seq::new(raw.len(), |i: int| normalized(raw[i], bits).unwrap())
}

/// The asset that a FLAC stream decodes to, or the error. The channel count
/// is judged first, then the bit depth and every sample against it, then rate
/// and length.
pub open spec fn flac_source(data: FlacData) -> Result<SourceView, DecodeError> {
    if data.channels != 1 && data.channels != 2 {
        Err(DecodeError::UnsupportedChannelLayout)
    } else if !(1 <= data.bits_per_sample <= 32) || !all_fit(data.samples, data.bits_per_sample) {
        Err(DecodeError::CorruptStream)
    } else {
        assembled(
            data.sample_rate,
            data.channels as int,
            normalized_all(data.samples, data.bits_per_sample),
        )
    }
}

/// The asset that decoded blocks make under the given metadata, or the
/// error. Blocks that an error of the reader cut short, and a block whose
/// buffer does not match its shape, are a corrupt stream; sound blocks that
/// ran to the end of the input are decoded as one stream of their samples.
pub open spec fn flac_blocks_source(
    info: FlacInfo,
    blocks: Seq<FlacBlockData>,
    clean_end: bool,
) -> Result<SourceView, DecodeError> {
    if !clean_end || !blocks_sound(blocks) {
        Err(DecodeError::CorruptStream)
    } else {
        flac_source(
            FlacData {
                sample_rate: info.sample_rate,
                channels: info.channels,
                bits_per_sample: info.bits_per_sample,
                samples: all_samples(blocks),
            },
        )
    }
}

/// The outcome of decoding a byte buffer as FLAC, given what the container
/// reader made of it.
pub open spec fn flac_decoded(contents: Option<FlacFile>) -> Result<SourceView, DecodeError> {
    match contents {
        Some(file) => flac_blocks_source(file.info, file.rest.blocks, file.rest.clean_end),
        None => Err(DecodeError::CorruptStream),
    }
}

/// Blocks that an error of the reader cut short are a corrupt stream, however
/// many of them there are: no shorter asset is made of them.
pub proof fn lemma_flac_failure_is_corrupt(info: FlacInfo, blocks: Seq<FlacBlockData>)
    ensures
        flac_blocks_source(info, blocks, false) == Err::<SourceView, DecodeError>(
            DecodeError::CorruptStream,
        ),
{
}

/// Samples that fit their depth normalize into range.
pub proof fn lemma_normalized_in_range(raw: Seq<i32>, bits: u32)
    requires
        1 <= bits <= 32,
        all_fit(raw, bits),
    ensures
        all_in_range(normalized_all(raw, bits)),
{
    assert forall|i: int| 0 <= i < raw.len() implies in_range(
        #[trigger] normalized_all(raw, bits)[i],
    ) by {
        assert(fits_depth(raw[i] as int, bits as int));
        lemma_level_range(raw[i] as int, bits as int);
    }
}

/// A sound mono stream of N samples decodes to a mono buffer of the N
/// normalized samples, without a stereo buffer, at the stream's rate.
pub proof fn lemma_flac_mono(data: FlacData)
    requires
        data.channels == 1,
        data.sample_rate > 0,
        1 <= data.bits_per_sample <= 32,
        all_fit(data.samples, data.bits_per_sample),
        data.samples.len() > 0,
    ensures
        flac_source(data) matches Ok(v) && v.mono == normalized_all(
            data.samples,
            data.bits_per_sample,
        ) && v.mono.len() == data.samples.len() && v.stereo.is_none() && v.sample_rate
            == data.sample_rate,
{
    lemma_normalized_in_range(data.samples, data.bits_per_sample);
}

/// A sound stereo stream of 2N samples decodes to N stereo frames and N mono
/// samples, each mono sample the mean of its frame.
pub proof fn lemma_flac_stereo(data: FlacData, n: nat)
    requires
        data.channels == 2,
        data.sample_rate > 0,
        1 <= data.bits_per_sample <= 32,
        all_fit(data.samples, data.bits_per_sample),
        data.samples.len() == 2 * n,
        n > 0,
    ensures
        flac_source(data) matches Ok(v) && v.mono.len() == n && v.sample_rate == data.sample_rate
            && (v.stereo matches Some(frames) && frames.len() == n && (forall|i: int|
            0 <= i < n ==> #[trigger] v.mono[i] == mean(frames[i].0, frames[i].1))),
{
    lemma_normalized_in_range(data.samples, data.bits_per_sample);
}

/// A stream with a channel count other than one or two is refused, whatever
/// else it holds; bytes that the container reader refuses are corrupt.
pub proof fn lemma_flac_refusals(data: FlacData)
    ensures
        data.channels != 1 && data.channels != 2 ==> flac_source(data) == Err::<
            SourceView,
            DecodeError,
        >(DecodeError::UnsupportedChannelLayout),
        flac_decoded(None::<FlacFile>) == Err::<SourceView, DecodeError>(
            DecodeError::CorruptStream,
        ),
{
}

/// Loads FLAC files as `AudioSource` assets.
#[derive(Clone, Copy, Debug, Default)]
pub struct FlacLoader;

impl FlacLoader {
    /// Normalizes the samples of a FLAC stream and assembles the asset.
    pub fn decode_stream(stream: &FlacStream) -> (out: Result<AudioSource, DecodeError>)
        ensures
            decodes_to(out, flac_source(stream@)),
    {
        if stream.channels != 1 && stream.channels != 2 {
            return Err(DecodeError::UnsupportedChannelLayout);
        }
        let bits: u32 = stream.bits_per_sample;
        if bits == 0 || bits > 32 {
            return Err(DecodeError::CorruptStream);
        }
        let total: usize = stream.samples.len();
        let mut samples: Vec<i32> = Vec::new();
        let mut i: usize = 0;
        while i < total
            invariant
                total == stream.samples@.len(),
                bits == stream.bits_per_sample,
                1 <= bits <= 32,
                stream.channels == 1 || stream.channels == 2,
                i <= total,
                samples@.len() == i,
                forall|k: int| 0 <= k < i ==> fits_depth(#[trigger] stream.samples@[k] as int, bits as int),
                forall|k: int|
                    0 <= k < i ==> #[trigger] samples@[k] == normalized_all(
                        stream.samples@,
                        bits,
                    )[k],
            decreases total - i,
        {
            match normalize(stream.samples[i], bits) {
                Some(sample) => {
                    samples.push(sample);
                },
                None => {
                    assert(!fits_depth(stream@.samples[i as int] as int, bits as int));
                    assert(!all_fit(stream@.samples, bits));
                    return Err(DecodeError::CorruptStream);
                },
            }
            i = i + 1;
        }
        assert(samples@ =~= normalized_all(stream.samples@, bits));
        let channels: usize = if stream.channels == 1 {
            1
        } else {
            2
        };
        AudioSource::assemble(stream.sample_rate, channels, samples)
    }

    /// Interleaves the channels of decoded blocks into one stream and decodes
    /// it. `clean_end` says whether the blocks ran to the end of the input
    /// rather than to an error of the reader.
    pub fn decode_blocks(info: FlacInfo, blocks: &Vec<FlacBlock>, clean_end: bool) -> (out: Result<
        AudioSource,
        DecodeError,
    >)
        ensures
            decodes_to(out, flac_blocks_source(info, block_views(blocks@), clean_end)),
    {
        let ghost views = block_views(blocks@);
        if !clean_end {
            return Err(DecodeError::CorruptStream);
        }
        let mut samples: Vec<i32> = Vec::new();
        let mut i: usize = 0;
        assert(all_samples(views.take(0)) =~= Seq::<i32>::empty());
        while i < blocks.len()
            invariant
                views == block_views(blocks@),
                clean_end,
                i <= blocks@.len(),
                forall|k: int| 0 <= k < i ==> block_sound(#[trigger] views[k]),
                samples@ == all_samples(views.take(i as int)),
            decreases blocks@.len() - i,
        {
            let block = &blocks[i];
            assert(views[i as int] == block@);
            let channels: usize = block.channels as usize;
            let duration: usize = block.duration as usize;
            assert(block.channels * block.duration <= 0xffff_ffff * 0xffff_ffff)
                by (nonlinear_arith)
                requires
                    block.channels <= 0xffff_ffff,
                    block.duration <= 0xffff_ffff,
            ;
            let shape: u64 = (block.channels as u64) * (block.duration as u64);
            let total: usize = block.buffer.len();
            if total as u64 != shape {
                assert(!block_sound(views[i as int]));
                assert(!blocks_sound(views));
                return Err(DecodeError::CorruptStream);
            }
            let ghost before = samples@;
            let mut t: usize = 0;
            while t < duration
                invariant
                    block_sound(block@),
                    channels == block.channels,
                    duration == block.duration,
                    total == channels * duration,
                    t <= duration,
                    samples@ == before + interleaved_upto(block@, t as nat),
                decreases duration - t,
            {
                let ghost row = samples@;
                let mut c: usize = 0;
                while c < channels
                    invariant
                        block_sound(block@),
                        channels == block.channels,
                        duration == block.duration,
                        total == channels * duration,
                        t < duration,
                        c <= channels,
                        samples@ == row + frame_at(block@, t as int).take(c as int),
                    decreases channels - c,
                {
                    assert(0 <= c * duration && c * duration + t < total) by (nonlinear_arith)
                        requires
                            c < channels,
                            t < duration,
                            total == channels * duration,
                    ;
                    samples.push(block.buffer[c * duration + t]);
                    assert(samples@ =~= row + frame_at(block@, t as int).take(c + 1));
                    c = c + 1;
                }
                assert(frame_at(block@, t as int).take(channels as int) =~= frame_at(
                    block@,
                    t as int,
                ));
                assert(samples@ =~= before + interleaved_upto(block@, (t + 1) as nat));
                t = t + 1;
            }
            proof {
                lemma_all_samples_step(views, i as int);
            }
            i = i + 1;
        }
        assert(views.take(blocks@.len() as int) =~= views);
        let stream = FlacStream {
            sample_rate: info.sample_rate,
            channels: info.channels,
            bits_per_sample: info.bits_per_sample,
            samples,
        };
        Self::decode_stream(&stream)
    }

    /// Decodes a FLAC file. Bytes whose header or metadata the container
    /// reader refuses are a corrupt stream; the blocks it reads, and how they
    /// ended, are decoded as `decode_blocks` says.
    pub fn load(&self, bytes: &[u8]) -> (out: Result<AudioSource, DecodeError>)
        ensures
            decodes_to(out, flac_decoded(flac_contents(bytes@))),
    {
        match flac_open(bytes) {
            Err(_) => Err(DecodeError::CorruptStream),
            Ok(opened) => {
                let mut reader = opened;
                let info = flac_streaminfo(&reader);
                let ghost file = flac_contents(bytes@).unwrap();
                let mut blocks: Vec<FlacBlock> = Vec::new();
                let mut clean_end: bool = true;
                loop
                    invariant_except_break
                        block_views(blocks@) + flac_pending(reader).blocks == file.rest.blocks,
                        flac_pending(reader).clean_end == file.rest.clean_end,
                    invariant
                        flac_contents(bytes@) == Some(file),
                        info == file.info,
                    ensures
                        block_views(blocks@) == file.rest.blocks,
                        clean_end == file.rest.clean_end,
                    decreases flac_pending(reader).blocks.len(),
                {
                    let ghost earlier = block_views(blocks@);
                    let ghost pending = flac_pending(reader).blocks;
                    match flac_next(&mut reader) {
                        FlacStep::Block(block) => {
                            blocks.push(block);
                            assert(block_views(blocks@) + flac_pending(reader).blocks =~= earlier
                                + pending);
                        },
                        FlacStep::End => {
                            assert(earlier + pending =~= earlier);
                            clean_end = true;
                            break ;
                        },
                        FlacStep::Failed => {
                            assert(earlier + pending =~= earlier);
                            clean_end = false;
                            break ;
                        },
                    }
                }
                Self::decode_blocks(info, &blocks, clean_end)
            },
        }
    }

    /// The file extensions that this loader answers for.
    pub fn extensions(&self) -> (out: Vec<&'static str>)
        ensures
            out@.len() == 1,
            out@[0]@ == "flac"@,
    {
        let mut out: Vec<&'static str> = Vec::new();
        out.push("flac");
        out
    }
}

} // verus!
