//! The positional speaker and its per-tick pass.

use vstd::prelude::*;
use crate::source::AudioSource;
use crate::speaker::{
    fresh, motion_ops, pushed, retired, spatial_pass, spatial_pass_ops, unbound, with_paused,
    with_track, with_volume, AssetRef, AudioVelocity, ControlHandle, ControlOp, Motion, Playback,
    SpeakerState, Vector, UNIT_GAIN,
};

verus! {

/// A speaker placed in space. It plays the mono buffer of its track, and its
/// position and velocity are pushed to its node on every pass.
#[derive(Debug)]
pub struct SpatialSpeaker {
    state: SpeakerState,
}

impl View for SpatialSpeaker {
    type V = SpeakerState;

    closed spec fn view(&self) -> SpeakerState {
        self.state
    }
}

impl Default for SpatialSpeaker {
    /// A silent speaker: no track, clean, unit gain, playing, unbound.
    fn default() -> (out: Self)
        ensures
            out@ == (SpeakerState {
                track: None,
                dirty: false,
                volume: UNIT_GAIN,
                paused: false,
                handle: None,
            }),
    {
        SpatialSpeaker {
            state: SpeakerState {
                track: None,
                dirty: false,
                volume: UNIT_GAIN,
                paused: false,
                handle: None,
            },
        }
    }
}

/// The motion of an entity: its position, and its velocity where it has one,
/// else rest.
pub open spec fn motion_of(position: Vector, velocity: Option<AudioVelocity>) -> Motion {
    Motion {
        position,
        velocity: match velocity {
            Some(v) => v.0,
            None => Vector { x: 0, y: 0, z: 0 },
        },
    }
}

impl SpatialSpeaker {
    /// A speaker for a track, to be bound by the next pass.
    pub fn new(track: AssetRef) -> (out: Self)
        ensures
            out@ == fresh(track),
    {
        SpatialSpeaker {
            state: SpeakerState {
                track: Some(track),
                dirty: true,
                volume: UNIT_GAIN,
                paused: false,
                handle: None,
            },
        }
    }

    /// Resumes playback. Returns the operation to push to the live node, if
    /// there is one.
    pub fn play(&mut self) -> (op: Option<ControlOp>)
        ensures
            final(self)@ == with_paused(old(self)@, false),
            op == pushed(old(self)@, ControlOp::Resume),
    {
        self.state.set_paused(false)
    }

    /// Pauses playback. Returns the operation to push to the live node, if
    /// there is one.
    pub fn pause(&mut self) -> (op: Option<ControlOp>)
        ensures
            final(self)@ == with_paused(old(self)@, true),
            op == pushed(old(self)@, ControlOp::Pause),
    {
        self.state.set_paused(true)
    }

    /// Whether playback is paused.
    pub fn paused(&self) -> (out: bool)
        ensures
            out == self@.paused,
    {
        self.state.paused
    }

    /// The gain, as a bit pattern.
    pub fn volume(&self) -> (out: u32)
        ensures
            out == self@.volume,
    {
        self.state.volume
    }

    /// Sets the gain. Returns the operation to push to the live node, if
    /// there is one.
    pub fn set_volume(&mut self, v: u32) -> (op: Option<ControlOp>)
        ensures
            final(self)@ == with_volume(old(self)@, v),
            op == pushed(old(self)@, ControlOp::SetGain(v)),
    {
        self.state.set_volume(v)
    }

    /// Sets the track and marks the speaker dirty. A live node goes on
    /// playing the old track until the next pass.
    pub fn set_track(&mut self, track: AssetRef)
        ensures
            final(self)@ == with_track(old(self)@, Some(track)),
    {
        self.state.track = Some(track);
        self.state.dirty = true;
    }

    /// Clears the track and marks the speaker dirty.
    pub fn clear_track(&mut self)
        ensures
            final(self)@ == with_track(old(self)@, None),
    {
        self.state.track = None;
        self.state.dirty = true;
    }

    /// The track.
    pub fn get_track(&self) -> (out: &Option<AssetRef>)
        ensures
            *out == self@.track,
    {
        &self.state.track
    }

    /// Whether the next pass has to rebind.
    pub fn dirty(&self) -> (out: bool)
        ensures
            out == self@.dirty,
    {
        self.state.dirty
    }

    /// The control state of the live node, if there is one.
    pub fn handle(&self) -> (out: Option<ControlHandle>)
        ensures
            out == self@.handle,
    {
        self.state.handle
    }

    /// Gives up the live node, as when the speaker is destroyed: the handle is
    /// dropped and nothing else changes. Returns the release to carry out, if
    /// there was a node.
    pub fn retire(&mut self) -> (op: Option<ControlOp>)
        ensures
            final(self)@ == retired(old(self)@),
            op == pushed(old(self)@, ControlOp::Release),
    {
        let op = if self.state.handle.is_some() {
            Some(ControlOp::Release)
        } else {
            None
        };
        self.state.handle = None;
        op
    }

    /// Records that the mixing graph refused the last binding: the handle is
    /// dropped and the speaker is dirty again.
    pub fn submission_failed(&mut self)
        ensures
            final(self)@ == unbound(old(self)@),
    {
        self.state.handle = None;
        self.state.dirty = true;
    }
}

/// One pass over one positional speaker. `asset` is what the speaker's track
/// resolves to, `None` while it is not there. Rebinding comes first, so a new
/// node gets its motion in the same pass. Returns the operations to carry out
/// on the mixing graph, in order.
pub fn spatial_audio_system(
    speaker: &mut SpatialSpeaker,
    asset: Option<&AudioSource>,
    position: Vector,
    velocity: Option<AudioVelocity>,
) -> (ops: Vec<ControlOp>)
    ensures
        final(speaker)@ == spatial_pass(
            old(speaker)@,
            asset.is_some(),
            motion_of(position, velocity),
        ),
        ops@ == spatial_pass_ops(old(speaker)@, asset.is_some(), motion_of(position, velocity)),
{
    let motion = Motion {
        position,
        velocity: match velocity {
            Some(v) => v.0,
            None => Vector { x: 0, y: 0, z: 0 },
        },
    };
    let playback = if asset.is_some() {
        Some(Playback::Spatial)
    } else {
        None
    };
    let mut ops = speaker.state.rebind(playback);
    let ghost mid = speaker.state;
    let ghost first = ops@;
    match speaker.state.handle {
        Some(h) => {
            speaker.state.handle = Some(ControlHandle { motion: Some(motion), ..h });
            ops.push(ControlOp::SetMotion(motion));
        },
        None => {},
    }
    assert(ops@ =~= first + motion_ops(mid, motion));
    ops
}

} // verus!
