use memorata::history::{
    check_post_process_settings, export_transcript_text, history_entry_not_found,
    parse_retention_period, retry_audio_check, retry_transcription_check, transcript_file_name,
    PostProcessPrompt, PostProcessSettings, ProviderMap, RecordingRetentionPeriod,
};
use memorata::text::{i64_to_decimal, trim_str, u64_to_decimal};

#[test]
fn export_prefers_post_processed_text() {
    assert_eq!(export_transcript_text(Some("  refined "), "raw").unwrap(), "refined");
    assert_eq!(export_transcript_text(None, "\n raw text\t").unwrap(), "raw text");
    assert_eq!(
        export_transcript_text(Some("   "), "raw").unwrap_err(),
        "No transcript available for this entry"
    );
}

#[test]
fn entry_not_found_messages() {
    assert_eq!(history_entry_not_found(42), "History entry 42 not found");
    assert_eq!(history_entry_not_found(-7), "History entry -7 not found");
    assert_eq!(history_entry_not_found(i64::MIN), "History entry -9223372036854775808 not found");
}

#[test]
fn transcript_file_names() {
    assert_eq!(transcript_file_name("memorata-1.wav"), "memorata-1.txt");
    assert_eq!(transcript_file_name("notes"), "notes.txt");
    assert_eq!(transcript_file_name("a.wav.wav"), "a.wav.txt");
    assert_eq!(transcript_file_name(".wav"), ".txt");
    assert_eq!(transcript_file_name("wav"), "wav.txt");
}

#[test]
fn retention_periods() {
    assert_eq!(parse_retention_period("never").unwrap(), RecordingRetentionPeriod::Never);
    assert_eq!(parse_retention_period("preserve_limit").unwrap(), RecordingRetentionPeriod::PreserveLimit);
    assert_eq!(parse_retention_period("days3").unwrap(), RecordingRetentionPeriod::Days3);
    assert_eq!(parse_retention_period("weeks2").unwrap(), RecordingRetentionPeriod::Weeks2);
    assert_eq!(parse_retention_period("months3").unwrap(), RecordingRetentionPeriod::Months3);
    assert_eq!(parse_retention_period("forever").unwrap_err(), "Invalid retention period: forever");
}

#[test]
fn retry_checks() {
    assert_eq!(retry_audio_check(0).unwrap_err(), "Recording has no audio samples");
    assert!(retry_audio_check(3).is_ok());
    assert_eq!(retry_transcription_check("").unwrap_err(), "Recording contains no speech");
    assert!(retry_transcription_check(" ").is_ok());
}

fn map(pairs: &[(&str, &str)]) -> ProviderMap {
    let mut m = ProviderMap::new();
    for (k, v) in pairs {
        m.insert(k.to_string(), v.to_string());
    }
    m
}

fn pp() -> PostProcessSettings {
    PostProcessSettings {
        post_process_enabled: true,
        active_provider_id: Some("openai".to_string()),
        post_process_models: map(&[("openai", " gpt ")]),
        post_process_selected_prompt_id: Some("p1".to_string()),
        post_process_prompts: vec![PostProcessPrompt { id: "p1".to_string(), prompt: "fix it".to_string() }],
        post_process_api_keys: map(&[("openai", "sk")]),
    }
}

#[test]
fn post_process_settings_checks() {
    assert!(check_post_process_settings(&pp()).is_ok());
    let mut s = pp();
    s.post_process_enabled = false;
    assert_eq!(check_post_process_settings(&s).unwrap_err(), "post_process_disabled");
    let mut s = pp();
    s.active_provider_id = None;
    assert_eq!(check_post_process_settings(&s).unwrap_err(), "post_process_provider_missing");
    let mut s = pp();
    s.post_process_models = map(&[("openai", "  ")]);
    assert_eq!(check_post_process_settings(&s).unwrap_err(), "post_process_model_missing");
    let mut s = pp();
    s.post_process_selected_prompt_id = None;
    assert_eq!(check_post_process_settings(&s).unwrap_err(), "post_process_prompt_not_selected");
    let mut s = pp();
    s.post_process_selected_prompt_id = Some("p2".to_string());
    assert_eq!(check_post_process_settings(&s).unwrap_err(), "post_process_prompt_not_found");
    let mut s = pp();
    s.post_process_prompts = vec![PostProcessPrompt { id: "p1".to_string(), prompt: " \n".to_string() }];
    assert_eq!(check_post_process_settings(&s).unwrap_err(), "post_process_prompt_empty");
    let mut s = pp();
    s.post_process_api_keys = ProviderMap::new();
    assert_eq!(check_post_process_settings(&s).unwrap_err(), "post_process_api_key_missing");
    let mut s = pp();
    s.active_provider_id = Some("custom".to_string());
    s.post_process_models = map(&[("custom", "m")]);
    s.post_process_api_keys = ProviderMap::new();
    assert!(check_post_process_settings(&s).is_ok());
    s.active_provider_id = Some("apple_intelligence".to_string());
    s.post_process_models = map(&[("apple_intelligence", "m")]);
    assert!(check_post_process_settings(&s).is_ok());
}

#[test]
fn text_helpers() {
    assert_eq!(trim_str("\u{3000}\u{85} a b \u{2029}"), "a b");
    assert_eq!(trim_str(" \t\n"), "");
    assert_eq!(trim_str("\u{200b}x"), "\u{200b}x");
    assert_eq!(u64_to_decimal(0), "0");
    assert_eq!(u64_to_decimal(u64::MAX), "18446744073709551615");
    assert_eq!(i64_to_decimal(-10), "-10");
}

#[test]
fn trimming_twice_changes_nothing() {
    for s in ["  a  ", "\u{a0}x\u{2000}", "", "  ", "b"] {
        let once = trim_str(s);
        assert_eq!(trim_str(&once), once);
    }
}

#[test]
fn provider_map_keeps_one_value_per_key() {
    let mut m = map(&[("a", "1"), ("b", "2")]);
    assert_eq!(m.get("a").unwrap(), "1");
    m.insert("a".to_string(), "3".to_string());
    assert_eq!(m.get("a").unwrap(), "3");
    assert_eq!(m.get("b").unwrap(), "2");
    assert!(m.get("c").is_none());
}
