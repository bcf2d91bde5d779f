use memorata::coordinator::StageFlags;
use memorata::session::{
    get_recording_state, pause_recording_session, resume_recording_session, start_recording_session,
    stop_recording_session, validate_session_start_preconditions, CoordinatorRequest,
    RecordingSessionState, StartSessionOptions, TranscriptionBackend, TranscriptionSettings,
};

fn local(model: &str) -> TranscriptionSettings {
    TranscriptionSettings {
        transcription_backend: TranscriptionBackend::Local,
        selected_model: model.to_string(),
        assembly_ai_api_key: String::new(),
        assembly_ai_base_url: String::new(),
        assembly_ai_language_code: String::new(),
        assembly_ai_poll_interval_ms: 0,
        assembly_ai_timeout_seconds: 0,
    }
}

fn assembly(key: &str, url: &str, code: &str) -> TranscriptionSettings {
    TranscriptionSettings {
        transcription_backend: TranscriptionBackend::AssemblyAi,
        selected_model: String::new(),
        assembly_ai_api_key: key.to_string(),
        assembly_ai_base_url: url.to_string(),
        assembly_ai_language_code: code.to_string(),
        assembly_ai_poll_interval_ms: 0,
        assembly_ai_timeout_seconds: 0,
    }
}

#[test]
fn recording_state_precedence() {
    let f = |r, p, q| Some(StageFlags { is_recording: r, is_paused: p, is_processing: q });
    assert_eq!(get_recording_state(None), RecordingSessionState::Idle);
    assert_eq!(get_recording_state(f(false, false, false)), RecordingSessionState::Idle);
    assert_eq!(get_recording_state(f(true, false, false)), RecordingSessionState::Recording);
    assert_eq!(get_recording_state(f(true, true, false)), RecordingSessionState::Paused);
    assert_eq!(get_recording_state(f(true, true, true)), RecordingSessionState::Processing);
}

#[test]
fn session_start_preconditions() {
    assert!(validate_session_start_preconditions(&local("small")).is_ok());
    assert_eq!(validate_session_start_preconditions(&local("  ")).unwrap_err(), "local_model_not_selected");
    assert!(validate_session_start_preconditions(&assembly("k", " https://x ", "pt-BR")).is_ok());
    assert_eq!(
        validate_session_start_preconditions(&assembly(" ", "https://x", "pt")).unwrap_err(),
        "assembly_ai_api_key_missing"
    );
    assert_eq!(
        validate_session_start_preconditions(&assembly("k", "ws://x", "pt")).unwrap_err(),
        "assembly_ai_base_url_invalid"
    );
    assert_eq!(
        validate_session_start_preconditions(&assembly("k", "  ", "pt")).unwrap_err(),
        "assembly_ai_base_url_invalid"
    );
    assert_eq!(
        validate_session_start_preconditions(&assembly("k", "http://x", "p t")).unwrap_err(),
        "assembly_ai_language_code_invalid"
    );
}

#[test]
fn start_command_decisions() {
    let s = local("m");
    let r = start_recording_session(RecordingSessionState::Idle, &s, None, true).unwrap();
    assert_eq!(r.state, RecordingSessionState::Recording);
    match r.request {
        Some(CoordinatorRequest::Start(o)) => {
            assert!(o.enable_diarization);
            assert_eq!(o.speakers_expected, 2);
        }
        _ => panic!("expected a start request"),
    }
    let off = StartSessionOptions { enable_diarization: false, speakers_expected: 9 };
    match start_recording_session(RecordingSessionState::Idle, &s, Some(off), true).unwrap().request {
        Some(CoordinatorRequest::Start(o)) => assert_eq!(o.speakers_expected, 1),
        _ => panic!("expected a start request"),
    }
    let bad = StartSessionOptions { enable_diarization: true, speakers_expected: 1 };
    assert_eq!(
        start_recording_session(RecordingSessionState::Idle, &s, Some(bad), true).err().unwrap(),
        "assembly_ai_speakers_expected_invalid"
    );
    assert_eq!(
        start_recording_session(RecordingSessionState::Idle, &local(""), Some(bad), true).err().unwrap(),
        "local_model_not_selected"
    );
    assert_eq!(
        start_recording_session(RecordingSessionState::Idle, &s, None, false).err().unwrap(),
        "coordinator_unavailable"
    );
    let r = start_recording_session(RecordingSessionState::Recording, &s, None, false).unwrap();
    assert_eq!(r.state, RecordingSessionState::Recording);
    assert!(r.request.is_none());
    assert_eq!(
        start_recording_session(RecordingSessionState::Paused, &s, None, true).err().unwrap(),
        "session_paused_use_resume"
    );
    assert_eq!(
        start_recording_session(RecordingSessionState::Processing, &s, None, true).err().unwrap(),
        "processing_in_progress"
    );
}

#[test]
fn pause_resume_stop_decisions() {
    let (idle, recording, paused, processing) = (
        RecordingSessionState::Idle,
        RecordingSessionState::Recording,
        RecordingSessionState::Paused,
        RecordingSessionState::Processing,
    );
    assert_eq!(pause_recording_session(processing, true).err().unwrap(), "processing_in_progress");
    assert_eq!(pause_recording_session(idle, true).err().unwrap(), "recording_not_active");
    let r = pause_recording_session(paused, false).unwrap();
    assert_eq!(r.state, paused);
    assert!(r.request.is_none());
    let r = pause_recording_session(recording, true).unwrap();
    assert_eq!(r.state, paused);
    assert!(matches!(r.request, Some(CoordinatorRequest::Pause)));
    assert_eq!(pause_recording_session(recording, false).err().unwrap(), "coordinator_unavailable");

    assert_eq!(resume_recording_session(processing, true).err().unwrap(), "processing_in_progress");
    assert_eq!(resume_recording_session(idle, true).err().unwrap(), "recording_not_active");
    let r = resume_recording_session(recording, false).unwrap();
    assert_eq!(r.state, recording);
    assert!(r.request.is_none());
    let r = resume_recording_session(paused, true).unwrap();
    assert_eq!(r.state, recording);
    assert!(matches!(r.request, Some(CoordinatorRequest::Resume)));

    assert_eq!(stop_recording_session(processing, true).err().unwrap(), "processing_in_progress");
    assert_eq!(stop_recording_session(idle, true).err().unwrap(), "recording_not_active");
    for s in [recording, paused] {
        let r = stop_recording_session(s, true).unwrap();
        assert_eq!(r.state, processing);
        assert!(matches!(r.request, Some(CoordinatorRequest::Stop)));
        assert_eq!(stop_recording_session(s, false).err().unwrap(), "coordinator_unavailable");
    }
}
