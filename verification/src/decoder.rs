//! The registry of decoders: which format a file extension selects, and the
//! one entry point that decodes a byte buffer in a given format.

use vstd::prelude::*;
use crate::flac::{flac_contents, flac_decoded, FlacLoader};
use crate::mp3::{mp3_contents, mp3_decoded, Mp3Loader};
use crate::source::{decodes_to, AudioSource, DecodeError, SourceView};

verus! {

/// A supported container format.
#[derive(Clone, Copy, Debug, PartialEq, Eq, Structural)]
pub enum Format {
    Flac,
    Mp3,
}

/// The bytes of the extension `flac`.
pub open spec fn flac_extension() -> Seq<u8> {
    seq![0x66u8, 0x6cu8, 0x61u8, 0x63u8]
}

/// The bytes of the extension `mp3`.
pub open spec fn mp3_extension() -> Seq<u8> {
    seq![0x6du8, 0x70u8, 0x33u8]
}

/// The format that a file extension selects, by its bytes, case kept.
pub open spec fn format_of(extension: Seq<u8>) -> Option<Format> {
    if extension == flac_extension() {
        Some(Format::Flac)
    } else if extension == mp3_extension() {
        Some(Format::Mp3)
    } else {
        None
    }
}

/// What decoding a byte buffer in a format gives.
pub open spec fn decoded(format: Format, bytes: Seq<u8>) -> Result<SourceView, DecodeError> {
    match format {
        Format::Flac => flac_decoded(flac_contents(bytes)),
        Format::Mp3 => mp3_decoded(mp3_contents(bytes), bytes.len() == 0),
    }
}

impl Format {
    /// The format that a file extension selects, if any.
    pub fn from_extension(extension: &[u8]) -> (out: Option<Format>)
        ensures
            out == format_of(extension@),
    {
        if extension.len() == 4 && extension[0] == 0x66 && extension[1] == 0x6c && extension[2]
            == 0x61 && extension[3] == 0x63 {
            assert(extension@ =~= flac_extension());
            Some(Format::Flac)
        } else if extension.len() == 3 && extension[0] == 0x6d && extension[1] == 0x70
            && extension[2] == 0x33 {
            assert(extension@ =~= mp3_extension());
            Some(Format::Mp3)
        } else {
            assert(extension@ != flac_extension()) by {
                if extension@.len() == 4 {
                    assert(flac_extension()[0] == 0x66 && flac_extension()[1] == 0x6c
                        && flac_extension()[2] == 0x61 && flac_extension()[3] == 0x63);
                }
            }
            assert(extension@ != mp3_extension()) by {
                if extension@.len() == 3 {
                    assert(mp3_extension()[0] == 0x6d && mp3_extension()[1] == 0x70
                        && mp3_extension()[2] == 0x33);
                }
            }
            None
        }
    }

    /// Decodes a whole file in this format. Either a complete asset comes
    /// back or an error: there is no partial result.
    pub fn decode(self, bytes: &[u8]) -> (out: Result<AudioSource, DecodeError>)
        ensures
            decodes_to(out, decoded(self, bytes@)),
    {
        match self {
            Format::Flac => FlacLoader.load(bytes),
            Format::Mp3 => Mp3Loader.load(bytes),
        }
    }
}

} // verus!
