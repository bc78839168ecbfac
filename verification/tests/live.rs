use nexrad_workbench::live::{
    derive_app_mode, AppMode, ExpectedSweep, Live, LiveExitReason, LivePhase, LiveScan,
    PlannedSweep, Projection, StreamEffect,
};
use nexrad_workbench::playback::{PlaybackState, TimeModel};

fn pinned() -> PlaybackState {
    PlaybackState {
        time_model: TimeModel::Pinned,
        position_ms: 1_000_000,
        ..PlaybackState::default()
    }
}

fn streaming() -> Live {
    let mut l = Live::new();
    l.mode_state.phase = LivePhase::Streaming;
    l
}

fn effects(stop_channel: bool, forget_observations: bool) -> StreamEffect {
    StreamEffect {
        stop_channel,
        forget_observations,
    }
}

#[test]
fn new_starts_idle_and_unprojected() {
    let l = Live::new();
    assert_eq!(l.app_mode, AppMode::Idle);
    assert!(l.frame_projection.is_none());
    assert!(!l.mode_state.is_active());
    assert_eq!(l.mode_state.phase, LivePhase::Idle);
    assert_eq!(l.mode_state.detached_since_ms, None);
}

#[test]
fn stop_resets_mode_state_and_records_reason() {
    let mut l = streaming();
    l.mode_state.detached_since_ms = Some(12_000);
    assert!(l.mode_state.is_active());
    let effect = l.stop(LiveExitReason::ConnectionError);
    assert_eq!(effect, effects(false, true));
    assert_eq!(l.mode_state.phase, LivePhase::Idle);
    assert!(!l.mode_state.is_active());
    assert_eq!(l.mode_state.detached_since_ms, None);
    assert_eq!(
        l.mode_state.last_exit_reason,
        Some(LiveExitReason::ConnectionError)
    );
}

#[test]
fn stop_preserves_exact_reason_variant() {
    let mut l = Live::new();
    l.stop(LiveExitReason::DetachedTimeout);
    assert_eq!(
        l.mode_state.last_exit_reason,
        Some(LiveExitReason::DetachedTimeout)
    );
}

#[test]
fn is_detached_false_when_stream_inactive() {
    assert!(!Live::new().is_detached(&PlaybackState::default()));
}

#[test]
fn is_detached_true_when_active_and_playhead_free() {
    assert!(streaming().is_detached(&PlaybackState::default()));
}

#[test]
fn is_detached_false_when_pinned() {
    assert!(!streaming().is_detached(&pinned()));
}

#[test]
fn is_detached_false_when_lookback() {
    let lookback = PlaybackState {
        time_model: TimeModel::Lookback,
        ..pinned()
    };
    assert!(!streaming().is_detached(&lookback));
}

#[test]
fn countdown_none_when_not_waiting_for_chunk() {
    let mut l = streaming();
    l.frame_projection = Some(projection());
    assert_eq!(l.countdown_remaining_ms(), None);
    l.mode_state.phase = LivePhase::WaitingForChunk;
    assert_eq!(l.countdown_remaining_ms(), Some(4_000));
}

#[test]
fn countdown_none_when_waiting_but_no_frame_projection() {
    let mut l = Live::new();
    l.mode_state.phase = LivePhase::WaitingForChunk;
    assert_eq!(l.countdown_remaining_ms(), None);
}

#[test]
fn detach_playhead_inactive_only_exits_live() {
    let mut l = Live::new();
    let mut pb = pinned();
    assert_eq!(l.detach_playhead(&mut pb, 500_000, false), effects(false, false));
    assert_eq!(pb.time_model, TimeModel::Free);
    assert_eq!(pb.position_ms, 1_000_000);
    assert_eq!(l.mode_state.phase, LivePhase::Idle);
    assert_eq!(l.mode_state.detached_since_ms, None);
}

#[test]
fn detach_playhead_data_saver_stops_stream() {
    let mut l = streaming();
    let mut pb = pinned();
    assert_eq!(l.detach_playhead(&mut pb, 700_000, true), effects(true, true));
    assert_eq!(pb.time_model, TimeModel::Free);
    assert_eq!(l.mode_state.phase, LivePhase::Idle);
    assert_eq!(
        l.mode_state.last_exit_reason,
        Some(LiveExitReason::UserStopped)
    );
    assert_eq!(l.mode_state.detached_since_ms, None);
}

#[test]
fn detach_playhead_default_latches_detached_since_once() {
    let mut l = streaming();
    let mut pb = pinned();
    assert_eq!(l.detach_playhead(&mut pb, 123_000, false), effects(false, false));
    assert_eq!(l.mode_state.detached_since_ms, Some(123_000));
    assert!(l.mode_state.is_active());
    l.detach_playhead(&mut pb, 999_000, false);
    assert_eq!(l.mode_state.detached_since_ms, Some(123_000));
}

fn sweep(elevation_number: u8, angle: i32) -> PlannedSweep {
    PlannedSweep {
        elevation_number,
        angle,
    }
}

fn projection() -> Projection {
    Projection {
        live_scan: Some(LiveScan {
            sweeps: vec![sweep(1, 500), sweep(2, 900)],
            next: Some(vec![sweep(2, 1_300), sweep(3, 1_800)]),
        }),
        expected: Some(ExpectedSweep {
            elevation_number: Some(2),
            angle: None,
        }),
        next_available_in_ms: Some(4_000),
    }
}

#[test]
fn the_expected_sweep_gets_its_angle() {
    let mut l = streaming();
    l.refresh(Some(projection()), &pinned(), false);
    assert_eq!(l.app_mode, AppMode::Live);
    assert_eq!(l.live_scan().map(|s| s.sweeps.len()), Some(2));
    assert_eq!(
        l.expected_sweep,
        Some(ExpectedSweep {
            elevation_number: Some(2),
            angle: Some(900),
        })
    );
    let mut later = projection();
    later.expected = Some(ExpectedSweep {
        elevation_number: Some(3),
        angle: None,
    });
    assert_eq!(later.expect().and_then(|e| e.angle), Some(1_800));
}

#[test]
fn an_idle_stream_knows_nothing_ahead() {
    let mut l = Live::new();
    l.refresh(Some(projection()), &pinned(), true);
    assert!(l.frame_projection.is_none());
    assert!(l.live_scan().is_none());
    assert_eq!(l.expected_sweep, None);
    assert_eq!(l.app_mode, AppMode::Archive);
}

#[test]
fn what_the_workbench_does_follows_from_stream_playhead_and_data() {
    assert_eq!(derive_app_mode(true, true, false), AppMode::Live);
    assert_eq!(derive_app_mode(true, true, true), AppMode::Live);
    assert_eq!(derive_app_mode(true, false, true), AppMode::Archive);
    assert_eq!(derive_app_mode(true, false, false), AppMode::Idle);
    assert_eq!(derive_app_mode(false, true, true), AppMode::Archive);
    assert_eq!(derive_app_mode(false, true, false), AppMode::Idle);
    let mut l = streaming();
    let free = PlaybackState::default();
    l.refresh(None, &free, true);
    assert_eq!(l.app_mode, AppMode::Archive);
    assert!(l.is_detached(&free));
    let lookback = PlaybackState {
        time_model: TimeModel::Lookback,
        ..pinned()
    };
    l.refresh(None, &lookback, true);
    assert_eq!(l.app_mode, AppMode::Live);
    assert!(!l.is_detached(&lookback));
}
