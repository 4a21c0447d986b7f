use bevy_oddio::global::{nonspatial_audio_system, GlobalSpeaker};
use bevy_oddio::source::AudioSource;
use bevy_oddio::spatial::{spatial_audio_system, SpatialSpeaker};
use bevy_oddio::speaker::{
    AssetRef, AudioVelocity, ControlHandle, ControlOp, Motion, Playback, SpeakerState, Vector,
    UNIT_GAIN,
};

const HALF_GAIN: u32 = 0x3f00_0000;

fn mono_asset() -> AudioSource {
    AudioSource::assemble(44100, 1, vec![2, 4, 6]).unwrap()
}

fn stereo_asset() -> AudioSource {
    AudioSource::assemble(44100, 2, vec![2, 4, 6, 8]).unwrap()
}

fn at(x: u32, y: u32, z: u32) -> Vector {
    Vector { x, y, z }
}

#[test]
fn unit_gain_is_one() {
    assert_eq!(f32::from_bits(UNIT_GAIN), 1.0);
    assert_eq!(f32::from_bits(HALF_GAIN), 0.5);
}

#[test]
fn defaults() {
    let spatial = SpatialSpeaker::default();
    assert_eq!(spatial.get_track(), &None);
    assert!(!spatial.dirty());
    assert_eq!(spatial.volume(), UNIT_GAIN);
    assert!(!spatial.paused());
    assert_eq!(spatial.handle(), None);
    let global = GlobalSpeaker::default();
    assert_eq!(global.get_track(), &None);
    assert!(global.dirty());
    assert_eq!(global.volume(), UNIT_GAIN);
    assert!(!global.paused());
    assert_eq!(global.handle(), None);
}

#[test]
fn new_speaker_is_dirty_and_unbound() {
    let spatial = SpatialSpeaker::new(AssetRef(7));
    assert_eq!(spatial.get_track(), &Some(AssetRef(7)));
    assert!(spatial.dirty());
    assert_eq!(spatial.handle(), None);
    let global = GlobalSpeaker::new(AssetRef(9));
    assert_eq!(global.get_track(), &Some(AssetRef(9)));
    assert!(global.dirty());
    assert_eq!(global.handle(), None);
}

#[test]
fn mutators_without_handle_push_nothing() {
    let mut speaker = GlobalSpeaker::new(AssetRef(1));
    assert_eq!(speaker.pause(), None);
    assert!(speaker.paused());
    assert_eq!(speaker.play(), None);
    assert!(!speaker.paused());
    assert_eq!(speaker.set_volume(HALF_GAIN), None);
    assert_eq!(speaker.volume(), HALF_GAIN);
    let mut spatial = SpatialSpeaker::new(AssetRef(1));
    assert_eq!(spatial.pause(), None);
    assert_eq!(spatial.set_volume(HALF_GAIN), None);
    assert_eq!(spatial.play(), None);
}

#[test]
fn first_pass_binds_with_cached_volume() {
    let asset = stereo_asset();
    let mut speaker = GlobalSpeaker::new(AssetRef(3));
    speaker.set_volume(HALF_GAIN);
    let ops = nonspatial_audio_system(&mut speaker, Some(&asset));
    assert_eq!(
        ops,
        vec![
            ControlOp::Bind { track: AssetRef(3), playback: Playback::Stereo },
            ControlOp::SetGain(HALF_GAIN),
            ControlOp::Resume,
        ]
    );
    assert!(!speaker.dirty());
    assert_eq!(
        speaker.handle(),
        Some(ControlHandle {
            track: AssetRef(3),
            playback: Playback::Stereo,
            gain: HALF_GAIN,
            paused: false,
            motion: None,
        })
    );
}

#[test]
fn global_speaker_upmixes_mono_asset() {
    let asset = mono_asset();
    let mut speaker = GlobalSpeaker::new(AssetRef(3));
    let ops = nonspatial_audio_system(&mut speaker, Some(&asset));
    assert_eq!(ops[0], ControlOp::Bind { track: AssetRef(3), playback: Playback::UpmixedMono });
    assert_eq!(speaker.handle().unwrap().playback, Playback::UpmixedMono);
}

#[test]
fn pause_before_track_gives_paused_handle() {
    let asset = mono_asset();
    let mut speaker = GlobalSpeaker::default();
    assert_eq!(speaker.pause(), None);
    speaker.set_track(AssetRef(5));
    let ops = nonspatial_audio_system(&mut speaker, Some(&asset));
    assert_eq!(
        ops,
        vec![
            ControlOp::Bind { track: AssetRef(5), playback: Playback::UpmixedMono },
            ControlOp::SetGain(UNIT_GAIN),
            ControlOp::Pause,
        ]
    );
    assert!(speaker.handle().unwrap().paused);
    assert!(!speaker.dirty());
}

#[test]
fn track_change_releases_then_rebinds() {
    let first = mono_asset();
    let second = stereo_asset();
    let mut speaker = GlobalSpeaker::new(AssetRef(1));
    nonspatial_audio_system(&mut speaker, Some(&first));
    speaker.set_track(AssetRef(2));
    assert!(speaker.dirty());
    assert_eq!(speaker.handle().unwrap().track, AssetRef(1));
    let ops = nonspatial_audio_system(&mut speaker, Some(&second));
    assert_eq!(
        ops,
        vec![
            ControlOp::Release,
            ControlOp::Bind { track: AssetRef(2), playback: Playback::Stereo },
            ControlOp::SetGain(UNIT_GAIN),
            ControlOp::Resume,
        ]
    );
    assert!(!speaker.dirty());
    assert_eq!(speaker.handle().unwrap().track, AssetRef(2));
}

#[test]
fn clear_track_releases_handle() {
    let asset = mono_asset();
    let mut speaker = GlobalSpeaker::new(AssetRef(1));
    nonspatial_audio_system(&mut speaker, Some(&asset));
    speaker.clear_track();
    assert!(speaker.dirty());
    assert!(speaker.handle().is_some());
    let ops = nonspatial_audio_system(&mut speaker, None);
    assert_eq!(ops, vec![ControlOp::Release]);
    assert_eq!(speaker.handle(), None);
    assert!(!speaker.dirty());
    assert_eq!(nonspatial_audio_system(&mut speaker, None), vec![]);
}

#[test]
fn missing_asset_waits_for_next_pass() {
    let mut speaker = GlobalSpeaker::new(AssetRef(1));
    assert_eq!(nonspatial_audio_system(&mut speaker, None), vec![]);
    assert!(speaker.dirty());
    assert_eq!(speaker.handle(), None);
    let asset = mono_asset();
    let ops = nonspatial_audio_system(&mut speaker, Some(&asset));
    assert_eq!(ops.len(), 3);
    assert!(!speaker.dirty());
}

#[test]
fn clean_pass_does_nothing() {
    let asset = mono_asset();
    let mut speaker = GlobalSpeaker::new(AssetRef(1));
    nonspatial_audio_system(&mut speaker, Some(&asset));
    let before = speaker.handle();
    assert_eq!(nonspatial_audio_system(&mut speaker, Some(&asset)), vec![]);
    assert_eq!(speaker.handle(), before);
}

#[test]
fn mutators_with_handle_push_at_once() {
    let asset = mono_asset();
    let mut speaker = GlobalSpeaker::new(AssetRef(1));
    nonspatial_audio_system(&mut speaker, Some(&asset));
    assert_eq!(speaker.pause(), Some(ControlOp::Pause));
    assert!(speaker.handle().unwrap().paused);
    assert_eq!(speaker.play(), Some(ControlOp::Resume));
    assert!(!speaker.handle().unwrap().paused);
    assert_eq!(speaker.set_volume(HALF_GAIN), Some(ControlOp::SetGain(HALF_GAIN)));
    assert_eq!(speaker.handle().unwrap().gain, HALF_GAIN);
    assert!(!speaker.dirty());
}

#[test]
fn submission_failure_retries() {
    let asset = mono_asset();
    let mut speaker = SpatialSpeaker::new(AssetRef(1));
    spatial_audio_system(&mut speaker, Some(&asset), at(0, 0, 0), None);
    speaker.submission_failed();
    assert!(speaker.dirty());
    assert_eq!(speaker.handle(), None);
    let ops = spatial_audio_system(&mut speaker, Some(&asset), at(0, 0, 0), None);
    assert_eq!(ops.len(), 4);
    assert_eq!(ops[0], ControlOp::Bind { track: AssetRef(1), playback: Playback::Spatial });
    let mut global = GlobalSpeaker::new(AssetRef(1));
    nonspatial_audio_system(&mut global, Some(&asset));
    global.submission_failed();
    assert!(global.dirty());
    assert_eq!(global.handle(), None);
}

#[test]
fn spatial_pass_binds_then_moves() {
    let asset = stereo_asset();
    let mut speaker = SpatialSpeaker::new(AssetRef(4));
    speaker.set_volume(HALF_GAIN);
    speaker.pause();
    let velocity = AudioVelocity(at(10, 20, 30));
    let ops = spatial_audio_system(&mut speaker, Some(&asset), at(1, 2, 3), Some(velocity));
    let motion = Motion { position: at(1, 2, 3), velocity: at(10, 20, 30) };
    assert_eq!(
        ops,
        vec![
            ControlOp::Bind { track: AssetRef(4), playback: Playback::Spatial },
            ControlOp::SetGain(HALF_GAIN),
            ControlOp::Pause,
            ControlOp::SetMotion(motion),
        ]
    );
    assert_eq!(
        speaker.handle(),
        Some(ControlHandle {
            track: AssetRef(4),
            playback: Playback::Spatial,
            gain: HALF_GAIN,
            paused: true,
            motion: Some(motion),
        })
    );
    assert!(!speaker.dirty());
}

#[test]
fn spatial_motion_is_pushed_every_pass() {
    let asset = mono_asset();
    let mut speaker = SpatialSpeaker::new(AssetRef(4));
    spatial_audio_system(&mut speaker, Some(&asset), at(1, 2, 3), None);
    assert!(!speaker.dirty());
    let ops = spatial_audio_system(&mut speaker, Some(&asset), at(7, 8, 9), None);
    let motion = Motion { position: at(7, 8, 9), velocity: at(0, 0, 0) };
    assert_eq!(ops, vec![ControlOp::SetMotion(motion)]);
    assert_eq!(speaker.handle().unwrap().motion, Some(motion));
    assert!(!speaker.dirty());
    let ops = spatial_audio_system(&mut speaker, None, at(7, 8, 10), Some(AudioVelocity(at(1, 1, 1))));
    assert_eq!(ops, vec![ControlOp::SetMotion(Motion { position: at(7, 8, 10), velocity: at(1, 1, 1) })]);
}

#[test]
fn spatial_without_handle_pushes_no_motion() {
    let mut speaker = SpatialSpeaker::default();
    assert_eq!(spatial_audio_system(&mut speaker, None, at(1, 2, 3), None), vec![]);
    let mut waiting = SpatialSpeaker::new(AssetRef(1));
    assert_eq!(spatial_audio_system(&mut waiting, None, at(1, 2, 3), None), vec![]);
    assert!(waiting.dirty());
}

#[test]
fn spatial_stale_handle_still_moves_while_asset_is_missing() {
    let asset = mono_asset();
    let mut speaker = SpatialSpeaker::new(AssetRef(1));
    spatial_audio_system(&mut speaker, Some(&asset), at(0, 0, 0), None);
    speaker.set_track(AssetRef(2));
    let ops = spatial_audio_system(&mut speaker, None, at(5, 5, 5), None);
    assert_eq!(ops, vec![ControlOp::SetMotion(Motion { position: at(5, 5, 5), velocity: at(0, 0, 0) })]);
    assert!(speaker.dirty());
    assert_eq!(speaker.handle().unwrap().track, AssetRef(1));
}

#[test]
fn state_transitions_on_plain_state() {
    let mut state = SpeakerState { track: None, dirty: false, volume: UNIT_GAIN, paused: false, handle: None };
    assert_eq!(state.set_paused(true), None);
    assert_eq!(state.set_volume(HALF_GAIN), None);
    assert_eq!(state.rebind(Some(Playback::Stereo)), vec![]);
    state.track = Some(AssetRef(8));
    state.dirty = true;
    assert_eq!(state.rebind(None), vec![]);
    assert!(state.dirty);
    let ops = state.rebind(Some(Playback::Stereo));
    assert_eq!(ops.len(), 3);
    assert_eq!(ops[2], ControlOp::Pause);
    assert_eq!(state.handle.unwrap().gain, HALF_GAIN);
}

#[test]
fn retire_releases_live_node_only() {
    let asset = mono_asset();
    let mut speaker = SpatialSpeaker::new(AssetRef(1));
    assert_eq!(speaker.retire(), None);
    assert!(speaker.dirty());
    spatial_audio_system(&mut speaker, Some(&asset), at(0, 0, 0), None);
    assert_eq!(speaker.retire(), Some(ControlOp::Release));
    assert_eq!(speaker.handle(), None);
    assert!(!speaker.dirty());
    assert_eq!(speaker.get_track(), &Some(AssetRef(1)));
    let mut global = GlobalSpeaker::new(AssetRef(2));
    nonspatial_audio_system(&mut global, Some(&asset));
    assert_eq!(global.retire(), Some(ControlOp::Release));
    assert_eq!(global.retire(), None);
}
