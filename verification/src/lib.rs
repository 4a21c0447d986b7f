//! Decoding of compressed audio into fixed-point playback buffers, and the
//! per-tick rules that keep speakers in step with a realtime mixing graph.
//!
//! The library decides; its caller acts. Decoders turn bytes into an
//! `AudioSource`. Speakers record what should play, and every change and every
//! pass yields the operations that the caller carries out on the mixing graph.

pub mod decoder;
pub mod flac;
pub mod global;
pub mod mp3;
pub mod sample;
pub mod source;
pub mod spatial;
pub mod speaker;

pub use decoder::Format;
pub use flac::{FlacBlock, FlacInfo, FlacLoader, FlacStream};
pub use global::{nonspatial_audio_system, GlobalSpeaker};
pub use mp3::{Mp3Frame, Mp3Loader};
pub use sample::{normalize, SAMPLE_ONE};
pub use source::{AudioSource, DecodeError, Span};
pub use spatial::{spatial_audio_system, SpatialSpeaker};
pub use speaker::{
    AssetRef, AudioVelocity, ControlHandle, ControlOp, Listener, Motion, Playback, SpeakerState,
    Vector, UNIT_GAIN,
};
