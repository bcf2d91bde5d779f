use memorata::assembly::{
    build_assembly_transcript_payload, diarization_config_from_session_options,
    format_completed_transcript, format_diarized_transcript, plan_assembly_ai_transcription,
    polling_deadline, transcript_id_from_response, transcript_poll_outcome,
    transcript_request_payload, AssemblyTranscriptResponse, AssemblyUtterance, DiarizationConfig,
};
use memorata::language::{
    classify_language_code, normalize_assembly_ai_language_code,
    validate_assembly_ai_language_code,
};
use memorata::session::{StartSessionOptions, TranscriptionBackend, TranscriptionSettings};

fn utterance(speaker: Option<&str>, text: Option<&str>, start: Option<i64>, end: Option<i64>) -> AssemblyUtterance {
    AssemblyUtterance {
        speaker: speaker.map(|s| s.to_string()),
        text: text.map(|s| s.to_string()),
        start,
        end,
    }
}

fn response(status: &str, text: Option<&str>, error: Option<&str>, utterances: Option<Vec<AssemblyUtterance>>) -> AssemblyTranscriptResponse {
    AssemblyTranscriptResponse {
        id: Some("abc".to_string()),
        status: status.to_string(),
        text: text.map(|s| s.to_string()),
        error: error.map(|s| s.to_string()),
        utterances,
    }
}

#[test]
fn payload_diarization_off_does_not_send_speaker_fields() {
    let diarization = DiarizationConfig {
        enabled: false,
        speakers_expected: None,
    };
    let payload = build_assembly_transcript_payload("https://audio", "auto", &diarization);

    assert_eq!(payload["audio_url"], "https://audio");
    assert_eq!(payload["language_detection"], true);
    assert!(payload.get("speaker_labels").is_none());
    assert!(payload.get("speakers_expected").is_none());
}

#[test]
fn payload_diarization_on_sends_speaker_fields() {
    let diarization = DiarizationConfig {
        enabled: true,
        speakers_expected: Some(2),
    };
    let payload = build_assembly_transcript_payload("https://audio", "pt", &diarization);

    assert_eq!(payload["audio_url"], "https://audio");
    assert_eq!(payload["language_code"], "pt");
    assert_eq!(payload["speaker_labels"], true);
    assert_eq!(payload["speakers_expected"], 2);
}

#[test]
fn diarized_formatting_preserves_temporal_order_and_labels() {
    let utterances = vec![
        AssemblyUtterance {
            speaker: Some("spk_1".to_string()),
            text: Some("segunda fala".to_string()),
            start: Some(200),
            end: Some(260),
        },
        AssemblyUtterance {
            speaker: Some("spk_0".to_string()),
            text: Some("primeira fala".to_string()),
            start: Some(100),
            end: Some(180),
        },
    ];

    let formatted = format_diarized_transcript(&utterances);
    let expected = "Speaker A: primeira fala\nSpeaker B: segunda fala";
    assert_eq!(formatted, expected);
}

#[test]
fn diarization_on_without_utterances_returns_explicit_error() {
    let payload = AssemblyTranscriptResponse {
        id: Some("abc".to_string()),
        status: "completed".to_string(),
        text: Some("fallback text".to_string()),
        error: None,
        utterances: None,
    };
    let diarization = DiarizationConfig {
        enabled: true,
        speakers_expected: Some(2),
    };

    let err = format_completed_transcript(payload, &diarization)
        .expect_err("expected diarization validation error");
    assert!(err
        .to_string()
        .contains("diarization enabled but utterances are empty or invalid"));
}

#[test]
fn normalize_language_code_auto() {
    assert_eq!(normalize_assembly_ai_language_code("auto").unwrap(), "auto");
    assert_eq!(normalize_assembly_ai_language_code("AUTO").unwrap(), "auto");
    assert_eq!(normalize_assembly_ai_language_code("  auto  ").unwrap(), "auto");
}

#[test]
fn normalize_language_code_portuguese_variants() {
    assert_eq!(normalize_assembly_ai_language_code("pt").unwrap(), "pt");
    assert_eq!(normalize_assembly_ai_language_code("pt-BR").unwrap(), "pt");
    assert_eq!(normalize_assembly_ai_language_code("pt_br").unwrap(), "pt");
    assert_eq!(normalize_assembly_ai_language_code("pt_BR").unwrap(), "pt");
    assert_eq!(normalize_assembly_ai_language_code("PT-BR").unwrap(), "pt");
}

#[test]
fn normalize_language_code_chinese_variants() {
    assert_eq!(normalize_assembly_ai_language_code("zh").unwrap(), "zh");
    assert_eq!(normalize_assembly_ai_language_code("zh-Hans").unwrap(), "zh");
    assert_eq!(normalize_assembly_ai_language_code("zh-Hant").unwrap(), "zh");
    assert_eq!(normalize_assembly_ai_language_code("zh-hans").unwrap(), "zh");
}

#[test]
fn normalize_language_code_valid_codes() {
    assert_eq!(normalize_assembly_ai_language_code("en").unwrap(), "en");
    assert_eq!(normalize_assembly_ai_language_code("en_us").unwrap(), "en_us");
    assert_eq!(normalize_assembly_ai_language_code("en_uk").unwrap(), "en_uk");
    assert_eq!(normalize_assembly_ai_language_code("es").unwrap(), "es");
    assert_eq!(normalize_assembly_ai_language_code("de").unwrap(), "de");
}

#[test]
fn normalize_language_code_invalid() {
    assert!(normalize_assembly_ai_language_code("").is_err());
    assert!(normalize_assembly_ai_language_code("   ").is_err());
    assert!(normalize_assembly_ai_language_code("123").is_err());
    assert!(normalize_assembly_ai_language_code("pt-BR-xx").is_err());
    assert!(normalize_assembly_ai_language_code("invalid!code").is_err());
}

#[test]
fn validate_language_code_delegates_to_normalize() {
    assert!(validate_assembly_ai_language_code("auto").is_ok());
    assert!(validate_assembly_ai_language_code("pt-BR").is_ok());
    assert!(validate_assembly_ai_language_code("invalid!").is_err());
}

#[test]
fn invalid_language_code_error_quotes_the_code() {
    assert_eq!(
        normalize_assembly_ai_language_code(" en__us ").unwrap_err(),
        "Invalid language code ' en__us '. Use 'auto' or a valid code like 'pt', 'en', 'en_us'."
    );
    assert!(normalize_assembly_ai_language_code("_en").is_err());
    assert!(normalize_assembly_ai_language_code("en_").is_err());
}

#[test]
fn classify_language_code_on_lowered_input() {
    assert_eq!(classify_language_code("pt-br", "PT-BR").unwrap(), "pt");
    assert_eq!(classify_language_code("zh-hant", "zh-Hant").unwrap(), "zh");
    assert_eq!(classify_language_code("fr_ca", "FR_CA").unwrap(), "fr_ca");
    assert_eq!(
        classify_language_code("fr-ca", "FR-CA").unwrap_err(),
        "Invalid language code 'FR-CA'. Use 'auto' or a valid code like 'pt', 'en', 'en_us'."
    );
    // a normalised code normalises to itself
    assert_eq!(classify_language_code("fr_ca", "fr_ca").unwrap(), "fr_ca");
}

#[test]
fn diarized_formatting_drops_blank_and_labels_by_first_appearance() {
    let utterances = vec![
        utterance(Some("x"), Some("  tres  "), Some(30), Some(40)),
        utterance(Some("y"), Some("   "), Some(5), Some(6)),
        utterance(Some("y"), Some("um"), Some(10), Some(20)),
        utterance(None, Some("sem orador"), None, None),
        utterance(Some("  "), Some("em branco"), Some(30), Some(35)),
        utterance(Some("y"), None, Some(1), Some(2)),
        utterance(Some("x"), Some("dois"), Some(10), Some(20)),
    ];
    let formatted = format_diarized_transcript(&utterances);
    assert_eq!(
        formatted,
        "Speaker A: um\nSpeaker B: dois\nSpeaker C: em branco\nSpeaker B: tres\nSpeaker C: sem orador"
    );
}

#[test]
fn diarized_formatting_numbers_speakers_after_z() {
    let mut utterances = Vec::new();
    for i in 0..28i64 {
        let name = format!("s{}", i);
        utterances.push(utterance(Some(&name), Some("oi"), Some(i), Some(i)));
    }
    let formatted = format_diarized_transcript(&utterances);
    let lines: Vec<&str> = formatted.split('\n').collect();
    assert_eq!(lines.len(), 28);
    assert_eq!(lines[0], "Speaker A: oi");
    assert_eq!(lines[25], "Speaker Z: oi");
    assert_eq!(lines[26], "Speaker 27: oi");
    assert_eq!(lines[27], "Speaker 28: oi");
}

#[test]
fn diarized_formatting_of_nothing_is_empty() {
    assert_eq!(format_diarized_transcript(&[]), "");
}

#[test]
fn completed_transcript_without_diarization_uses_text() {
    let d = DiarizationConfig { enabled: false, speakers_expected: None };
    assert_eq!(format_completed_transcript(response("completed", Some("ola"), None, None), &d).unwrap(), "ola");
    assert_eq!(format_completed_transcript(response("completed", None, None, None), &d).unwrap(), "");
}

#[test]
fn completed_transcript_with_diarization_formats_utterances() {
    let d = DiarizationConfig { enabled: true, speakers_expected: Some(2) };
    let utts = vec![utterance(Some("a"), Some("oi"), Some(1), Some(2))];
    assert_eq!(
        format_completed_transcript(response("completed", Some("x"), None, Some(utts)), &d).unwrap(),
        "Speaker A: oi"
    );
    let blank = vec![utterance(Some("a"), Some("  "), Some(1), Some(2))];
    assert_eq!(
        format_completed_transcript(response("completed", Some("x"), None, Some(blank)), &d).unwrap_err(),
        "AssemblyAI diarization enabled but utterances are empty or invalid"
    );
}

#[test]
fn poll_outcomes() {
    let d = DiarizationConfig { enabled: false, speakers_expected: None };
    assert_eq!(transcript_poll_outcome(response("completed", Some("t"), None, None), &d), Some(Ok("t".to_string())));
    assert_eq!(
        transcript_poll_outcome(response("error", None, Some("bad audio"), None), &d),
        Some(Err("AssemblyAI transcription failed: bad audio".to_string()))
    );
    assert_eq!(
        transcript_poll_outcome(response("failed", None, None, None), &d),
        Some(Err("AssemblyAI transcription failed: unknown AssemblyAI error".to_string()))
    );
    assert_eq!(transcript_poll_outcome(response("queued", None, None, None), &d), None);
    assert_eq!(transcript_poll_outcome(response("processing", None, None, None), &d), None);
    assert_eq!(transcript_poll_outcome(response("whatever", None, None, None), &d), None);
}

#[test]
fn polling_deadline_after_timeout() {
    assert_eq!(polling_deadline(60_000_000_000, 60, "tid"), None);
    assert_eq!(
        polling_deadline(60_000_000_001, 60, "tid"),
        Some("AssemblyAI polling timed out after 60s for transcript tid".to_string())
    );
    assert_eq!(
        polling_deadline(u128::MAX, 1234, "x"),
        Some("AssemblyAI polling timed out after 1234s for transcript x".to_string())
    );
}

#[test]
fn transcript_id_required() {
    assert_eq!(transcript_id_from_response(&response("queued", None, None, None)).unwrap(), "abc");
    let mut r = response("queued", None, None, None);
    r.id = None;
    assert_eq!(
        transcript_id_from_response(&r).unwrap_err(),
        "AssemblyAI /transcript response missing id"
    );
}

#[test]
fn diarization_follows_session_options() {
    let on = StartSessionOptions { enable_diarization: true, speakers_expected: 3 };
    let d = diarization_config_from_session_options(Some(&on));
    assert!(d.enabled);
    assert_eq!(d.speakers_expected, Some(3));
    let off = StartSessionOptions { enable_diarization: false, speakers_expected: 3 };
    let d = diarization_config_from_session_options(Some(&off));
    assert!(!d.enabled);
    assert_eq!(d.speakers_expected, None);
    let d = diarization_config_from_session_options(None);
    assert!(!d.enabled);
    assert_eq!(d.speakers_expected, None);
}

#[test]
fn request_payload_normalises_the_settings_code() {
    let d = DiarizationConfig { enabled: true, speakers_expected: None };
    let p = transcript_request_payload("u", "  PT-BR ", &d).unwrap();
    assert_eq!(p["language_code"], "pt");
    assert_eq!(p["speaker_labels"], true);
    assert!(p.get("speakers_expected").is_none());
    assert!(p.get("language_detection").is_none());
    let p = transcript_request_payload("u", "Auto", &d).unwrap();
    assert_eq!(p["language_detection"], true);
    assert!(p.get("language_code").is_none());
    assert_eq!(
        transcript_request_payload("u", " pt br ", &d).unwrap_err(),
        "Invalid language code 'pt br'. Use 'auto' or a valid code like 'pt', 'en', 'en_us'."
    );
}

fn settings() -> TranscriptionSettings {
    TranscriptionSettings {
        transcription_backend: TranscriptionBackend::AssemblyAi,
        selected_model: String::new(),
        assembly_ai_api_key: "  key  ".to_string(),
        assembly_ai_base_url: " https://api.example.com/v2// ".to_string(),
        assembly_ai_language_code: "auto".to_string(),
        assembly_ai_poll_interval_ms: 100,
        assembly_ai_timeout_seconds: 600,
    }
}

#[test]
fn assembly_plan_checks_and_normalises_settings() {
    let s = settings();
    assert!(plan_assembly_ai_transcription(true, &s, None).unwrap().is_none());
    let plan = plan_assembly_ai_transcription(false, &s, None).unwrap().unwrap();
    assert_eq!(plan.api_key, "key");
    assert_eq!(plan.base_url, "https://api.example.com/v2");
    assert_eq!(plan.poll_interval_ms, 500);
    assert_eq!(plan.timeout_secs, 600);
    assert!(!plan.diarization.enabled);

    let mut s2 = settings();
    s2.assembly_ai_timeout_seconds = 5;
    s2.assembly_ai_poll_interval_ms = 2000;
    let opts = StartSessionOptions { enable_diarization: true, speakers_expected: 4 };
    let plan = plan_assembly_ai_transcription(false, &s2, Some(&opts)).unwrap().unwrap();
    assert_eq!(plan.timeout_secs, 60);
    assert_eq!(plan.poll_interval_ms, 2000);
    assert_eq!(plan.diarization.speakers_expected, Some(4));

    let mut s3 = settings();
    s3.assembly_ai_api_key = "   ".to_string();
    assert_eq!(
        plan_assembly_ai_transcription(false, &s3, None).err().unwrap(),
        "AssemblyAI API key is empty. Configure settings.assembly_ai_api_key"
    );
    let mut s4 = settings();
    s4.assembly_ai_base_url = "ftp://x".to_string();
    assert_eq!(
        plan_assembly_ai_transcription(false, &s4, None).err().unwrap(),
        "AssemblyAI base URL is invalid. Configure settings.assembly_ai_base_url with a valid http(s) URL"
    );
}
