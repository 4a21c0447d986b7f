//! The non-positional speaker and its per-tick pass.

use vstd::prelude::*;
use crate::source::AudioSource;
use crate::speaker::{
    fresh, global_playback, pushed, rebind_ops, rebound, retired, unbound, with_paused,
    with_track, with_volume, AssetRef, ControlHandle, ControlOp, Playback, SpeakerState,
    UNIT_GAIN,
};

verus! {

/// A speaker heard everywhere alike. It plays the stereo buffer of its track
/// where there is one, else the mono buffer on both channels.
#[derive(Debug)]
pub struct GlobalSpeaker {
    state: SpeakerState,
}

impl View for GlobalSpeaker {
    type V = SpeakerState;

    closed spec fn view(&self) -> SpeakerState {
        self.state
    }
}

impl Default for GlobalSpeaker {
    /// A silent speaker: no track, unit gain, playing, unbound. It is dirty,
    /// so its first pass settles it.
    fn default() -> (out: Self)
        ensures
            out@ == (SpeakerState {
                track: None,
                dirty: true,
                volume: UNIT_GAIN,
                paused: false,
                handle: None,
            }),
    {
        GlobalSpeaker {
            state: SpeakerState {
                track: None,
                dirty: true,
                volume: UNIT_GAIN,
                paused: false,
                handle: None,
            },
        }
    }
}

/// Whether an asset that is there has a stereo buffer; `None` where it is not there.
pub open spec fn stereo_of(asset: Option<&AudioSource>) -> Option<bool> {
    match asset {
        Some(source) => Some(source@.stereo.is_some()),
        None => None,
    }
}

impl GlobalSpeaker {
    /// A speaker for a track, to be bound by the next pass.
    pub fn new(track: AssetRef) -> (out: Self)
        ensures
            out@ == fresh(track),
    {
        GlobalSpeaker {
            state: SpeakerState {
                track: Some(track),
                dirty: true,
                volume: UNIT_GAIN,
                paused: false,
                handle: None,
            },
        }
    }

    /// Resumes playback. Returns the operation to push to the live node, if
    /// there is one.
    pub fn play(&mut self) -> (op: Option<ControlOp>)
        ensures
            final(self)@ == with_paused(old(self)@, false),
            op == pushed(old(self)@, ControlOp::Resume),
    {
        self.state.set_paused(false)
    }

    /// Pauses playback. Returns the operation to push to the live node, if
    /// there is one.
    pub fn pause(&mut self) -> (op: Option<ControlOp>)
        ensures
            final(self)@ == with_paused(old(self)@, true),
            op == pushed(old(self)@, ControlOp::Pause),
    {
        self.state.set_paused(true)
    }

    /// Whether playback is paused.
    pub fn paused(&self) -> (out: bool)
        ensures
            out == self@.paused,
    {
        self.state.paused
    }

    /// The gain, as a bit pattern.
    pub fn volume(&self) -> (out: u32)
        ensures
            out == self@.volume,
    {
        self.state.volume
    }

    /// Sets the gain. Returns the operation to push to the live node, if
    /// there is one.
    pub fn set_volume(&mut self, v: u32) -> (op: Option<ControlOp>)
        ensures
            final(self)@ == with_volume(old(self)@, v),
            op == pushed(old(self)@, ControlOp::SetGain(v)),
    {
        self.state.set_volume(v)
    }

    /// Sets the track and marks the speaker dirty. A live node goes on
    /// playing the old track until the next pass.
    pub fn set_track(&mut self, track: AssetRef)
        ensures
            final(self)@ == with_track(old(self)@, Some(track)),
    {
        self.state.track = Some(track);
        self.state.dirty = true;
    }

    /// Clears the track and marks the speaker dirty.
    pub fn clear_track(&mut self)
        ensures
            final(self)@ == with_track(old(self)@, None),
    {
        self.state.track = None;
        self.state.dirty = true;
    }

    /// The track.
    pub fn get_track(&self) -> (out: &Option<AssetRef>)
        ensures
            *out == self@.track,
    {
        &self.state.track
    }

    /// Whether the next pass has to rebind.
    pub fn dirty(&self) -> (out: bool)
        ensures
            out == self@.dirty,
    {
        self.state.dirty
    }

    /// The control state of the live node, if there is one.
    pub fn handle(&self) -> (out: Option<ControlHandle>)
        ensures
            out == self@.handle,
    {
        self.state.handle
    }

    /// Gives up the live node, as when the speaker is destroyed: the handle is
    /// dropped and nothing else changes. Returns the release to carry out, if
    /// there was a node.
    pub fn retire(&mut self) -> (op: Option<ControlOp>)
        ensures
            final(self)@ == retired(old(self)@),
            op == pushed(old(self)@, ControlOp::Release),
    {
        let op = if self.state.handle.is_some() {
            Some(ControlOp::Release)
        } else {
            None
        };
        self.state.handle = None;
        op
    }

    /// Records that the mixing graph refused the last binding: the handle is
    /// dropped and the speaker is dirty again.
    pub fn submission_failed(&mut self)
        ensures
            final(self)@ == unbound(old(self)@),
    {
        self.state.handle = None;
        self.state.dirty = true;
    }
}

/// One pass over one non-positional speaker. `asset` is what the speaker's
/// track resolves to, `None` while it is not there. Returns the operations to
/// carry out on the mixing graph, in order.
pub fn nonspatial_audio_system(speaker: &mut GlobalSpeaker, asset: Option<&AudioSource>) -> (ops:
    Vec<ControlOp>)
    ensures
        final(speaker)@ == rebound(old(speaker)@, global_playback(stereo_of(asset))),
        ops@ == rebind_ops(old(speaker)@, global_playback(stereo_of(asset))),
{
    let playback = match asset {
        Some(source) => {
            if source.stereo().is_some() {
                Some(Playback::Stereo)
            } else {
                Some(Playback::UpmixedMono)
            }
        },
        None => None,
    };
    speaker.state.rebind(playback)
}

} // verus!
