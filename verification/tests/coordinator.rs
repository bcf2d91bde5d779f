use memorata::coordinator::{
    is_transcribe_binding, update_stage_flags, Effect, Stage, StageFlags, TranscriptionCoordinator,
    DEBOUNCE_NS,
};
use memorata::session::{get_recording_state, RecordingSessionState, StartSessionOptions};

fn is_start(e: &Effect, binding: &str) -> bool {
    matches!(e, Effect::Start { binding_id, .. } if binding_id == binding)
}

fn is_stop(e: &Effect, binding: &str) -> bool {
    matches!(e, Effect::Stop { binding_id, .. } if binding_id == binding)
}

#[test]
fn transcribe_bindings() {
    assert!(is_transcribe_binding("transcribe"));
    assert!(is_transcribe_binding("transcribe_with_post_process"));
    assert!(!is_transcribe_binding("cancel"));
    assert!(!is_transcribe_binding("Transcribe"));
}

#[test]
fn toggle_press_starts_then_stops() {
    let mut c = TranscriptionCoordinator::new();
    let e = c.send_input("transcribe", "ctrl+space", true, false, 0);
    assert!(is_start(&e, "transcribe"));
    c.apply_outcome(true);
    assert!(c.is_recording());
    let e = c.send_input("transcribe", "ctrl+space", true, false, DEBOUNCE_NS);
    assert!(is_stop(&e, "transcribe"));
    c.apply_outcome(true);
    assert!(c.is_processing());
    assert!(!c.is_recording());
    c.notify_processing_finished();
    assert_eq!(c.stage_flags(), StageFlags { is_recording: false, is_paused: false, is_processing: false });
}

#[test]
fn press_within_debounce_window_is_ignored() {
    let mut c = TranscriptionCoordinator::new();
    let e = c.send_input("transcribe", "k", true, false, 1_000);
    c.apply_outcome(true);
    let e = c.send_input("transcribe", "k", true, false, 1_000 + DEBOUNCE_NS - 1);
    assert!(matches!(e, Effect::Nothing));
    assert!(c.is_recording());
    // a clock reading before the last press counts as no time elapsed
    let e = c.send_input("transcribe", "k", true, false, 10);
    assert!(matches!(e, Effect::Nothing));
}

#[test]
fn push_to_talk_release_stops_immediately() {
    let mut c = TranscriptionCoordinator::new();
    let e = c.send_input("transcribe", "k", true, true, 5);
    assert!(is_start(&e, "transcribe"));
    c.apply_outcome(true);
    let e = c.send_input("other", "k", false, true, 6);
    assert!(matches!(e, Effect::Nothing));
    let e = c.send_input("transcribe", "k", false, true, 6);
    assert!(is_stop(&e, "transcribe"));
}

#[test]
fn press_for_another_binding_while_recording_is_ignored() {
    let mut c = TranscriptionCoordinator::new();
    let e = c.send_input("transcribe", "k", true, false, 0);
    c.apply_outcome(true);
    let e = c.send_input("transcribe_with_post_process", "k", true, false, DEBOUNCE_NS * 2);
    assert!(matches!(e, Effect::Nothing));
}

#[test]
fn failed_start_stays_idle() {
    let mut c = TranscriptionCoordinator::new();
    let e = c.start_session_with_options(StartSessionOptions { enable_diarization: true, speakers_expected: 3 });
    assert!(is_start(&e, "transcribe"));
    c.apply_outcome(false);
    assert!(!c.is_recording());
    assert!(c.get_session_options().is_none());
}

#[test]
fn ui_session_snapshots_options_until_stopped() {
    let mut c = TranscriptionCoordinator::new();
    let opts = StartSessionOptions { enable_diarization: true, speakers_expected: 3 };
    let e = c.start_session_with_options(opts);
    match &e {
        Effect::Start { binding_id, hotkey_string, session } => {
            assert_eq!(binding_id, "transcribe");
            assert_eq!(hotkey_string, "UI:start");
            assert_eq!(session.unwrap().speakers_expected, 3);
        }
        _ => panic!("expected a start"),
    }
    c.apply_outcome(true);
    assert_eq!(c.get_session_options().unwrap().speakers_expected, 3);
    // a second start while recording asks for nothing
    assert!(matches!(c.start_session(), Effect::Nothing));

    let e = c.pause_session();
    assert!(matches!(&e, Effect::Pause { binding_id } if binding_id == "transcribe"));
    c.apply_outcome(true);
    assert!(c.is_paused());
    let e = c.resume_session();
    assert!(matches!(&e, Effect::Resume { binding_id } if binding_id == "transcribe"));
    c.apply_outcome(true);
    assert!(c.is_recording());

    let e = c.stop_session();
    match &e {
        Effect::Stop { binding_id, hotkey_string } => {
            assert_eq!(binding_id, "transcribe");
            assert_eq!(hotkey_string, "UI:stop");
        }
        _ => panic!("expected a stop"),
    }
    c.apply_outcome(true);
    assert!(c.is_processing());
    // the snapshot ends with the stop
    assert!(c.get_session_options().is_none());
    c.notify_processing_finished();
    assert!(c.get_session_options().is_none());
}

#[test]
fn cancel_does_not_interrupt_processing() {
    let mut c = TranscriptionCoordinator::new();
    let e = c.start_session();
    c.apply_outcome(true);
    let e = c.stop_session();
    c.apply_outcome(true);
    c.notify_cancel(true);
    assert!(c.is_processing());
    assert!(matches!(c.pause_session(), Effect::Nothing));
    assert!(matches!(c.resume_session(), Effect::Nothing));
    assert!(matches!(c.stop_session(), Effect::Nothing));
    assert!(matches!(c.send_input("transcribe", "k", true, false, 0), Effect::Nothing));
}

#[test]
fn cancel_while_paused_returns_to_idle() {
    let mut c = TranscriptionCoordinator::new();
    let e = c.start_session();
    c.apply_outcome(true);
    let e = c.pause_session();
    c.apply_outcome(true);
    c.notify_cancel(false);
    assert!(!c.is_paused());
    assert!(c.get_session_options().is_none());
    assert!(matches!(c.resume_session(), Effect::Nothing));
}

#[test]
fn failed_pause_keeps_recording() {
    let mut c = TranscriptionCoordinator::new();
    let e = c.start_session();
    c.apply_outcome(true);
    let e = c.pause_session();
    c.apply_outcome(false);
    assert!(c.is_recording());
}

#[test]
fn stage_flags_follow_stage() {
    assert_eq!(update_stage_flags(&Stage::Idle), StageFlags { is_recording: false, is_paused: false, is_processing: false });
    assert_eq!(update_stage_flags(&Stage::Recording("b".to_string())), StageFlags { is_recording: true, is_paused: false, is_processing: false });
    assert_eq!(update_stage_flags(&Stage::Paused("b".to_string())), StageFlags { is_recording: false, is_paused: true, is_processing: false });
    assert_eq!(update_stage_flags(&Stage::Processing), StageFlags { is_recording: false, is_paused: false, is_processing: true });
}

#[test]
fn reported_state_follows_coordinator_stage() {
    
    let mut c = TranscriptionCoordinator::new();
    assert_eq!(get_recording_state(Some(c.stage_flags())), RecordingSessionState::Idle);
    let e = c.start_session();
    c.apply_outcome(true);
    assert_eq!(get_recording_state(Some(c.stage_flags())), RecordingSessionState::Recording);
    let e = c.pause_session();
    c.apply_outcome(true);
    assert_eq!(get_recording_state(Some(c.stage_flags())), RecordingSessionState::Paused);
    let e = c.stop_session();
    c.apply_outcome(true);
    assert_eq!(get_recording_state(Some(c.stage_flags())), RecordingSessionState::Processing);
}

#[test]
fn only_a_successful_stop_enters_processing() {
    let mut c = TranscriptionCoordinator::new();
    let e = c.start_session();
    c.apply_outcome(true);
    let e = c.pause_session();
    c.apply_outcome(true);
    let e = c.resume_session();
    c.apply_outcome(true);
    assert!(!c.is_processing());
    let e = c.stop_session();
    c.apply_outcome(false);
    assert!(c.is_recording());
    let e = c.stop_session();
    c.apply_outcome(true);
    assert!(c.is_processing());
}

#[test]
fn outcome_applies_only_the_pending_effect() {
    let mut c = TranscriptionCoordinator::new();
    // nothing pending: a reported success changes nothing
    c.apply_outcome(true);
    assert!(!c.is_recording() && !c.is_processing());
    let e = c.start_session();
    c.apply_outcome(true);
    let e2 = c.stop_session();
    assert!(is_stop(&e2, "transcribe"));
    c.apply_outcome(true);
    assert!(c.is_processing());
    // the stop was consumed: another report cannot leave processing
    c.apply_outcome(true);
    assert!(c.is_processing());
    // a request made while processing asks for nothing, so its outcome changes nothing
    let _ = c.start_session();
    c.apply_outcome(true);
    assert!(c.is_processing());
    drop(e);
}

#[test]
fn cancel_drops_the_pending_effect() {
    let mut c = TranscriptionCoordinator::new();
    let e = c.start_session();
    c.apply_outcome(true);
    let _ = c.stop_session();
    c.notify_cancel(false);
    c.apply_outcome(true);
    assert!(!c.is_processing());
    assert!(!c.is_recording());
    drop(e);
}
