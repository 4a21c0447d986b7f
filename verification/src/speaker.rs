//! Speakers: what each entity wants played, the control handle that mirrors
//! its live node in the mixing graph, and the operations to push to that node.
//!
//! Gains and coordinates are carried as IEEE 754 single-precision bit
//! patterns: they are stored and handed on, never computed with.

use vstd::prelude::*;

verus! {

/// The bit pattern of the gain 1.0.
pub const UNIT_GAIN: u32 = 0x3f80_0000;

/// A non-owning reference to a decoded asset.
#[derive(Clone, Copy, Debug, PartialEq, Eq, Hash)]
pub struct AssetRef(pub u64);

/// Three coordinates, as bit patterns.
#[derive(Clone, Copy, Debug, PartialEq, Eq)]
pub struct Vector {
    pub x: u32,
    pub y: u32,
    pub z: u32,
}

/// Where a positional speaker is and how it moves.
#[derive(Clone, Copy, Debug, PartialEq, Eq)]
pub struct Motion {
    pub position: Vector,
    pub velocity: Vector,
}

/// The velocity of an entity that carries a positional speaker.
#[derive(Clone, Copy, Debug, PartialEq, Eq)]
pub struct AudioVelocity(pub Vector);

/// Marks the entity that hears.
#[derive(Clone, Copy, Debug, Default, PartialEq, Eq)]
pub struct Listener;

/// Which buffer of an asset a node plays, and how.
#[derive(Clone, Copy, Debug, PartialEq, Eq)]
pub enum Playback {
    /// The mono buffer, placed in space.
    Spatial,
    /// The stereo buffer as it is.
    Stereo,
    /// The mono buffer on both channels.
    UpmixedMono,
}

/// The control state of a live node, as last pushed to it.
#[derive(Clone, Copy, Debug, PartialEq, Eq)]
pub struct ControlHandle {
    pub track: AssetRef,
    pub playback: Playback,
    pub gain: u32,
    pub paused: bool,
    pub motion: Option<Motion>,
}

/// One operation on the mixing graph, to be carried out by the caller.
#[derive(Clone, Copy, Debug, PartialEq, Eq)]
pub enum ControlOp {
    /// Stop the speaker's node and let the graph release it.
    Release,
    /// Submit a new signal over the given buffer; its node replaces the old.
    Bind { track: AssetRef, playback: Playback },
    SetGain(u32),
    Pause,
    Resume,
    SetMotion(Motion),
}

/// The state of a speaker of either kind.
#[derive(Clone, Copy, Debug, PartialEq, Eq)]
pub struct SpeakerState {
    /// The asset to play; `None` is silence.
    pub track: Option<AssetRef>,
    /// Set when `track` changes, cleared when a pass has rebound the node.
    pub dirty: bool,
    pub volume: u32,
    pub paused: bool,
    pub handle: Option<ControlHandle>,
}

/// A speaker just made for a track: dirty, unit gain, playing, unbound.
pub open spec fn fresh(track: AssetRef) -> SpeakerState {
    SpeakerState {
        track: Some(track),
        dirty: true,
        volume: UNIT_GAIN,
        paused: false,
        handle: None,
    }
}

/// The state after the pause flag is set to `paused`: cached, and pushed to
/// the handle where there is one.
pub open spec fn with_paused(s: SpeakerState, paused: bool) -> SpeakerState {
    SpeakerState {
        paused,
        handle: match s.handle {
            Some(h) => Some(ControlHandle { paused, ..h }),
            None => None,
        },
        ..s
    }
}

/// The state after the gain is set: cached, and pushed to the handle where
/// there is one.
pub open spec fn with_volume(s: SpeakerState, volume: u32) -> SpeakerState {
    SpeakerState {
        volume,
        handle: match s.handle {
            Some(h) => Some(ControlHandle { gain: volume, ..h }),
            None => None,
        },
        ..s
    }
}

/// The state after the track is set or cleared: dirty, the handle untouched.
pub open spec fn with_track(s: SpeakerState, track: Option<AssetRef>) -> SpeakerState {
    SpeakerState { track, dirty: true, ..s }
}

/// The operation that a mutator pushes at once: `op` where a handle is live.
pub open spec fn pushed(s: SpeakerState, op: ControlOp) -> Option<ControlOp> {
    if s.handle.is_some() {
        Some(op)
    } else {
        None
    }
}

/// The operation that sets the pause state.
pub open spec fn pause_op(paused: bool) -> ControlOp {
    if paused {
        ControlOp::Pause
    } else {
        ControlOp::Resume
    }
}

/// The state after the rebinding step of a pass. `playback` tells how the
/// track's asset is to be played, or is `None` where the asset is not there
/// yet. A clean speaker is left alone; a dirty one without a track loses its
/// handle; a dirty one whose asset is there gets a new handle with the cached
/// gain and pause state; a dirty one whose asset is missing waits.
pub open spec fn rebound(s: SpeakerState, playback: Option<Playback>) -> SpeakerState {
    if !s.dirty {
        s
    } else {
        match (s.track, playback) {
            (None, _) => SpeakerState { handle: None, dirty: false, ..s },
            (Some(_), None) => s,
            (Some(track), Some(p)) => SpeakerState {
                handle: Some(
                    ControlHandle {
                        track,
                        playback: p,
                        gain: s.volume,
                        paused: s.paused,
                        motion: None,
                    },
                ),
                dirty: false,
                ..s
            },
        }
    }
}

/// The operations that release the present handle, if any.
pub open spec fn release_ops(s: SpeakerState) -> Seq<ControlOp> {
    if s.handle.is_some() {
        seq![ControlOp::Release]
    } else {
        Seq::empty()
    }
}

/// The operations of the rebinding step, in order: release of the old node,
/// then the new binding, its gain, and its pause state last.
pub open spec fn rebind_ops(s: SpeakerState, playback: Option<Playback>) -> Seq<ControlOp> {
    if !s.dirty {
        Seq::empty()
    } else {
        match (s.track, playback) {
            (None, _) => release_ops(s),
            (Some(_), None) => Seq::empty(),
            (Some(track), Some(p)) => release_ops(s) + seq![
                ControlOp::Bind { track, playback: p },
                ControlOp::SetGain(s.volume),
                pause_op(s.paused),
            ],
        }
    }
}

/// The state after the motion is pushed to the handle, where there is one.
pub open spec fn moved(s: SpeakerState, motion: Motion) -> SpeakerState {
    SpeakerState {
        handle: match s.handle {
            Some(h) => Some(ControlHandle { motion: Some(motion), ..h }),
            None => None,
        },
        ..s
    }
}

/// The operations of the motion step.
pub open spec fn motion_ops(s: SpeakerState, motion: Motion) -> Seq<ControlOp> {
    if s.handle.is_some() {
        seq![ControlOp::SetMotion(motion)]
    } else {
        Seq::empty()
    }
}

/// The state of a positional speaker after one pass: rebinding, then motion.
pub open spec fn spatial_pass(s: SpeakerState, found: bool, motion: Motion) -> SpeakerState {
    moved(rebound(s, spatial_playback(found)), motion)
}

/// The operations of one pass over a positional speaker.
pub open spec fn spatial_pass_ops(s: SpeakerState, found: bool, motion: Motion) -> Seq<ControlOp> {
    rebind_ops(s, spatial_playback(found)) + motion_ops(rebound(s, spatial_playback(found)), motion)
}

/// How a positional speaker plays an asset: always the mono buffer.
pub open spec fn spatial_playback(found: bool) -> Option<Playback> {
    if found {
        Some(Playback::Spatial)
    } else {
        None
    }
}

/// How a non-positional speaker plays an asset: the stereo buffer where the
/// asset has one, else the mono buffer on both channels. `stereo` tells, for
/// an asset that is there, whether it has a stereo buffer.
pub open spec fn global_playback(stereo: Option<bool>) -> Option<Playback> {
    match stereo {
        Some(true) => Some(Playback::Stereo),
        Some(false) => Some(Playback::UpmixedMono),
        None => None,
    }
}

/// The state after a failed submission: the handle is gone and the speaker
/// is dirty again, so the next pass tries anew.
pub open spec fn unbound(s: SpeakerState) -> SpeakerState {
    SpeakerState { handle: None, dirty: true, ..s }
}

/// The state after the live node is given up: no handle, all else as it was.
pub open spec fn retired(s: SpeakerState) -> SpeakerState {
    SpeakerState { handle: None, ..s }
}

impl SpeakerState {
    /// Caches the pause state and pushes it to the handle, where there is one.
    pub fn set_paused(&mut self, paused: bool) -> (op: Option<ControlOp>)
        ensures
            *final(self) == with_paused(*old(self), paused),
            op == pushed(*old(self), pause_op(paused)),
    {
        self.paused = paused;
        match self.handle {
            Some(h) => {
                self.handle = Some(ControlHandle { paused, ..h });
                if paused {
                    Some(ControlOp::Pause)
                } else {
                    Some(ControlOp::Resume)
                }
            },
            None => None,
        }
    }

    /// Caches the gain and pushes it to the handle, where there is one.
    pub fn set_volume(&mut self, volume: u32) -> (op: Option<ControlOp>)
        ensures
            *final(self) == with_volume(*old(self), volume),
            op == pushed(*old(self), ControlOp::SetGain(volume)),
    {
        self.volume = volume;
        match self.handle {
            Some(h) => {
                self.handle = Some(ControlHandle { gain: volume, ..h });
                Some(ControlOp::SetGain(volume))
            },
            None => None,
        }
    }

    /// The rebinding step of a pass. Returns its operations in order.
    pub fn rebind(&mut self, playback: Option<Playback>) -> (ops: Vec<ControlOp>)
        ensures
            *final(self) == rebound(*old(self), playback),
            ops@ == rebind_ops(*old(self), playback),
    {
        let mut ops: Vec<ControlOp> = Vec::new();
        if !self.dirty {
            return ops;
        }
        match self.track {
            None => {
                if self.handle.is_some() {
                    ops.push(ControlOp::Release);
                }
                self.handle = None;
                self.dirty = false;
                assert(ops@ =~= rebind_ops(*old(self), playback));
            },
            Some(track) => {
                match playback {
                    None => {},
                    Some(p) => {
                        if self.handle.is_some() {
                            ops.push(ControlOp::Release);
                        }
                        ops.push(ControlOp::Bind { track, playback: p });
                        ops.push(ControlOp::SetGain(self.volume));
                        if self.paused {
                            ops.push(ControlOp::Pause);
                        } else {
                            ops.push(ControlOp::Resume);
                        }
                        self.handle = Some(
                            ControlHandle {
                                track,
                                playback: p,
                                gain: self.volume,
                                paused: self.paused,
                                motion: None,
                            },
                        );
                        self.dirty = false;
                        assert(ops@ =~= rebind_ops(*old(self), playback));
                    },
                }
            },
        }
        ops
    }
}

/// A speaker made for a track is clean after its first pass with the asset
/// there, and its new handle carries the gain that was set before that pass.
pub proof fn lemma_first_pass_binds(track: AssetRef, volume: u32, playback: Playback)
    ensures
        ({
            let before = with_volume(fresh(track), volume);
            let after = rebound(before, Some(playback));
            &&& !after.dirty
            &&& after.handle matches Some(h) && h.gain == volume && h.track == track && h.playback
                == playback && !h.paused
            &&& rebind_ops(before, Some(playback)) =~= seq![
                ControlOp::Bind { track, playback },
                ControlOp::SetGain(volume),
                ControlOp::Resume,
            ]
        }),
{
}

/// A speaker that is paused while it has neither track nor handle, and is
/// given a track later, gets a handle that is paused from the start: the pause
/// is pushed after the binding and is the last operation of the pass.
pub proof fn lemma_pause_survives_binding(s: SpeakerState, track: AssetRef, playback: Playback)
    requires
        s.track.is_none(),
        s.handle.is_none(),
    ensures
        ({
            let before = with_track(with_paused(s, true), Some(track));
            let after = rebound(before, Some(playback));
            &&& !after.dirty
            &&& after.paused
            &&& after.handle matches Some(h) && h.paused && h.track == track
            &&& rebind_ops(before, Some(playback)) =~= seq![
                ControlOp::Bind { track, playback },
                ControlOp::SetGain(s.volume),
                ControlOp::Pause,
            ]
        }),
{
}

/// Changing the track of a speaker that has a handle: the next pass with the
/// new asset there releases the old node first, binds the new asset's buffer,
/// and leaves the speaker clean.
pub proof fn lemma_track_change_rebinds(s: SpeakerState, track: AssetRef, playback: Playback)
    requires
        s.handle.is_some(),
    ensures
        ({
            let before = with_track(s, Some(track));
            let after = rebound(before, Some(playback));
            let ops = rebind_ops(before, Some(playback));
            &&& before.handle == s.handle
            &&& !after.dirty
            &&& after.handle matches Some(h) && h.track == track && h.playback == playback
            &&& ops.len() == 4
            &&& ops[0] == ControlOp::Release
            &&& ops[1] == (ControlOp::Bind { track, playback })
        }),
{
}

/// Clearing the track of a speaker that has a handle: the next pass releases
/// the node and leaves the speaker silent and clean.
pub proof fn lemma_clear_track_releases(s: SpeakerState, playback: Option<Playback>)
    requires
        s.handle.is_some(),
    ensures
        ({
            let before = with_track(s, None);
            let after = rebound(before, playback);
            &&& !after.dirty
            &&& after.handle.is_none()
            &&& rebind_ops(before, playback) =~= seq![ControlOp::Release]
        }),
{
}

/// A dirty speaker whose asset is not there yet is left as it is, dirty, and
/// nothing is pushed: the next pass tries again.
pub proof fn lemma_missing_asset_waits(s: SpeakerState)
    requires
        s.dirty,
        s.track.is_some(),
    ensures
        rebound(s, None) == s,
        rebind_ops(s, None) =~= Seq::<ControlOp>::empty(),
{
}

/// Every pass over a positional speaker pushes the motion to whatever handle
/// the speaker has after rebinding, and it is the last operation of the pass.
/// For a clean speaker with a handle it is the only one, and nothing else of
/// the speaker changes.
pub proof fn lemma_motion_pushed_each_pass(s: SpeakerState, found: bool, motion: Motion)
    ensures
        ({
            let after = spatial_pass(s, found, motion);
            let ops = spatial_pass_ops(s, found, motion);
            &&& after.handle matches Some(h) ==> h.motion == Some(motion) && ops.len() > 0
                && ops.last() == ControlOp::SetMotion(motion)
            &&& !s.dirty && s.handle.is_some() ==> after == moved(s, motion) && ops =~= seq![
                ControlOp::SetMotion(motion),
            ]
        }),
{
}

} // verus!
