//! Per-session options and the recording-session commands that the UI sends.

use vstd::prelude::*;
use vstd::string::*;
use crate::coordinator::{flags_of, StageFlags, StageView};
use crate::language::{normalized_language_code, unicode_lowercase, validate_assembly_ai_language_code};
use crate::text::{is_blank_str, starts_with, str_starts_with, trim, trim_str};

verus! {

/// Session options captured at session start for diarization configuration.
#[derive(Clone, Copy, Debug)]
pub struct StartSessionOptions {
    /// Whether speaker diarization is enabled for this session.
    pub enable_diarization: bool,
    /// Number of expected speakers (at least 2 with diarization, forced to 1 without).
    pub speakers_expected: u8,
}

/// The options a session gets when none are given: diarization on, two speakers.
pub open spec fn default_session_options() -> StartSessionOptions {
    StartSessionOptions { enable_diarization: true, speakers_expected: 2 }
}

/// The error that `validate` returns for too few speakers.
pub open spec fn speakers_expected_invalid() -> Seq<char> {
    "assembly_ai_speakers_expected_invalid"@
}

impl Default for StartSessionOptions {
    fn default() -> (r: Self)
        ensures
            r == default_session_options(),
    {
        StartSessionOptions { enable_diarization: true, speakers_expected: 2 }
    }
}

impl StartSessionOptions {
    /// Creates default options with diarization enabled and 2 speakers.
    pub fn new() -> (r: Self)
        ensures
            r == default_session_options(),
    {
        StartSessionOptions { enable_diarization: true, speakers_expected: 2 }
    }

    /// Validates the options: with diarization on, fewer than 2 speakers is an error;
    /// with diarization off, the speaker count is normalised to 1.
    pub fn validate(&mut self) -> (r: Result<(), String>)
        ensures
            old(self).enable_diarization && old(self).speakers_expected < 2 ==> {
                &&& r is Err
                &&& r->Err_0@ == speakers_expected_invalid()
                &&& *final(self) == *old(self)
            },
            old(self).enable_diarization && old(self).speakers_expected >= 2 ==> {
                &&& r is Ok
                &&& *final(self) == *old(self)
            },
            !old(self).enable_diarization ==> {
                &&& r is Ok
                &&& *final(self) == (StartSessionOptions { enable_diarization: false, speakers_expected: 1 })
            },
    {
        if self.enable_diarization {
            if self.speakers_expected < 2 {
                return Err(String::from_str("assembly_ai_speakers_expected_invalid"));
            }
        } else {
            self.speakers_expected = 1;
        }
        Ok(())
    }
}

/// The state of the recording session as the UI sees it.
#[derive(Clone, Copy, Debug, PartialEq, Eq, Structural)]
pub enum RecordingSessionState {
    Idle,
    Recording,
    Paused,
    Processing,
}

/// Whether a transcription model is loaded, and which.
pub struct ModelLoadStatus {
    pub is_loaded: bool,
    pub current_model: Option<String>,
}

/// The session state that the coordinator's flags report; without a coordinator, idle.
/// Processing outranks paused, which outranks recording.
pub open spec fn recording_state_of(flags: Option<StageFlags>) -> RecordingSessionState {
    match flags {
        Some(f) => if f.is_processing {
            RecordingSessionState::Processing
        } else if f.is_paused {
            RecordingSessionState::Paused
        } else if f.is_recording {
            RecordingSessionState::Recording
        } else {
            RecordingSessionState::Idle
        },
        None => RecordingSessionState::Idle,
    }
}

/// The session state from the coordinator's flags, `None` where there is no coordinator.
pub fn get_recording_state(flags: Option<StageFlags>) -> (r: RecordingSessionState)
    ensures
        r == recording_state_of(flags),
{
    match flags {
        Some(f) => {
            if f.is_processing {
                RecordingSessionState::Processing
            } else if f.is_paused {
                RecordingSessionState::Paused
            } else if f.is_recording {
                RecordingSessionState::Recording
            } else {
                RecordingSessionState::Idle
            }
        },
        None => RecordingSessionState::Idle,
    }
}

/// The transcription backend that the settings select.
#[derive(Clone, Copy, Debug, PartialEq, Eq, Structural)]
pub enum TranscriptionBackend {
    Local,
    AssemblyAi,
}

/// The settings that decide whether and how a session can be transcribed.
pub struct TranscriptionSettings {
    pub transcription_backend: TranscriptionBackend,
    pub selected_model: String,
    pub assembly_ai_api_key: String,
    pub assembly_ai_base_url: String,
    pub assembly_ai_language_code: String,
    pub assembly_ai_poll_interval_ms: u64,
    pub assembly_ai_timeout_seconds: u64,
}

/// A base URL that is not blank and names the `http` or `https` scheme.
pub open spec fn is_http_base_url(url: Seq<char>) -> bool {
    url.len() > 0 && (starts_with(url, "http://"@) || starts_with(url, "https://"@))
}

/// The first reason why the settings cannot start a session, if any.
pub open spec fn session_start_problem(s: TranscriptionSettings) -> Option<Seq<char>> {
    match s.transcription_backend {
        TranscriptionBackend::AssemblyAi => if trim(s.assembly_ai_api_key@).len() == 0 {
            Some("assembly_ai_api_key_missing"@)
        } else if !is_http_base_url(trim(s.assembly_ai_base_url@)) {
            Some("assembly_ai_base_url_invalid"@)
        } else if normalized_language_code(unicode_lowercase(trim(s.assembly_ai_language_code@))) is None {
            Some("assembly_ai_language_code_invalid"@)
        } else {
            None
        },
        TranscriptionBackend::Local => if trim(s.selected_model@).len() == 0 {
            Some("local_model_not_selected"@)
        } else {
            None
        },
    }
}

fn is_http_base_url_str(url: &str) -> (r: bool)
    ensures
        r == is_http_base_url(url@),
{
    !url.is_empty() && (str_starts_with(url, "http://") || str_starts_with(url, "https://"))
}

/// Checks that the selected backend is configured well enough to start a session.
pub fn validate_session_start_preconditions(settings: &TranscriptionSettings) -> (r: Result<(), String>)
    ensures
        match r {
            Ok(_) => session_start_problem(*settings) is None,
            Err(e) => session_start_problem(*settings) == Some(e@),
        },
{
    match settings.transcription_backend {
        TranscriptionBackend::AssemblyAi => {
            if is_blank_str(settings.assembly_ai_api_key.as_str()) {
                return Err(String::from_str("assembly_ai_api_key_missing"));
            }
            let base_url = trim_str(settings.assembly_ai_base_url.as_str());
            if !is_http_base_url_str(base_url.as_str()) {
                return Err(String::from_str("assembly_ai_base_url_invalid"));
            }
            if validate_assembly_ai_language_code(settings.assembly_ai_language_code.as_str()).is_err() {
                return Err(String::from_str("assembly_ai_language_code_invalid"));
            }
        },
        TranscriptionBackend::Local => {
            if is_blank_str(settings.selected_model.as_str()) {
                return Err(String::from_str("local_model_not_selected"));
            }
        },
    }
    Ok(())
}

/// What the UI's session command asks of the coordinator.
pub enum CoordinatorRequest {
    Start(StartSessionOptions),
    Pause,
    Resume,
    Stop,
}

/// The reply to a session command, and the request that goes to the coordinator with it.
pub struct SessionReply {
    pub state: RecordingSessionState,
    pub request: Option<CoordinatorRequest>,
}

/// The options after `validate`, or its error.
pub open spec fn validated_options(o: StartSessionOptions) -> Result<StartSessionOptions, Seq<char>> {
    if o.enable_diarization {
        if o.speakers_expected < 2 {
            Err(speakers_expected_invalid())
        } else {
            Ok(o)
        }
    } else {
        Ok(StartSessionOptions { enable_diarization: false, speakers_expected: 1 })
    }
}

/// The error for any session command while processing.
pub open spec fn processing_in_progress() -> Seq<char> {
    "processing_in_progress"@
}

/// The error for pause, resume or stop without an active session.
pub open spec fn recording_not_active() -> Seq<char> {
    "recording_not_active"@
}

/// The error where no coordinator is running.
pub open spec fn coordinator_unavailable() -> Seq<char> {
    "coordinator_unavailable"@
}

/// The reply to a start command.
pub open spec fn start_reply(
    state: RecordingSessionState,
    settings: TranscriptionSettings,
    options: Option<StartSessionOptions>,
    coordinator_available: bool,
) -> Result<SessionReply, Seq<char>> {
    match state {
        RecordingSessionState::Processing => Err(processing_in_progress()),
        RecordingSessionState::Recording => Ok(
            SessionReply { state: RecordingSessionState::Recording, request: None },
        ),
        RecordingSessionState::Paused => Err("session_paused_use_resume"@),
        RecordingSessionState::Idle => match session_start_problem(settings) {
            Some(e) => Err(e),
            None => match validated_options(
                match options {
                    Some(o) => o,
                    None => default_session_options(),
                },
            ) {
                Err(e) => Err(e),
                Ok(o) => if coordinator_available {
                    Ok(
                        SessionReply {
                            state: RecordingSessionState::Recording,
                            request: Some(CoordinatorRequest::Start(o)),
                        },
                    )
                } else {
                    Err(coordinator_unavailable())
                },
            },
        },
    }
}

/// The reply to a pause command.
pub open spec fn pause_reply(state: RecordingSessionState, coordinator_available: bool) -> Result<
    SessionReply,
    Seq<char>,
> {
    match state {
        RecordingSessionState::Processing => Err(processing_in_progress()),
        RecordingSessionState::Idle => Err(recording_not_active()),
        RecordingSessionState::Paused => Ok(
            SessionReply { state: RecordingSessionState::Paused, request: None },
        ),
        RecordingSessionState::Recording => if coordinator_available {
            Ok(
                SessionReply {
                    state: RecordingSessionState::Paused,
                    request: Some(CoordinatorRequest::Pause),
                },
            )
        } else {
            Err(coordinator_unavailable())
        },
    }
}

/// The reply to a resume command.
pub open spec fn resume_reply(state: RecordingSessionState, coordinator_available: bool) -> Result<
    SessionReply,
    Seq<char>,
> {
    match state {
        RecordingSessionState::Processing => Err(processing_in_progress()),
        RecordingSessionState::Idle => Err(recording_not_active()),
        RecordingSessionState::Recording => Ok(
            SessionReply { state: RecordingSessionState::Recording, request: None },
        ),
        RecordingSessionState::Paused => if coordinator_available {
            Ok(
                SessionReply {
                    state: RecordingSessionState::Recording,
                    request: Some(CoordinatorRequest::Resume),
                },
            )
        } else {
            Err(coordinator_unavailable())
        },
    }
}

/// The reply to a stop command.
pub open spec fn stop_reply(state: RecordingSessionState, coordinator_available: bool) -> Result<
    SessionReply,
    Seq<char>,
> {
    match state {
        RecordingSessionState::Processing => Err(processing_in_progress()),
        RecordingSessionState::Idle => Err(recording_not_active()),
        _ => if coordinator_available {
            Ok(
                SessionReply {
                    state: RecordingSessionState::Processing,
                    request: Some(CoordinatorRequest::Stop),
                },
            )
        } else {
            Err(coordinator_unavailable())
        },
    }
}

/// A session reply, or its error as characters.
pub open spec fn reply_view(r: Result<SessionReply, String>) -> Result<SessionReply, Seq<char>> {
    match r {
        Ok(v) => Ok(v),
        Err(e) => Err(e@),
    }
}

/// Decides the UI's start command: a running session is reported as recording, a paused
/// one must be resumed, processing refuses; from idle the settings and options are
/// checked and the validated options go to the coordinator.
pub fn start_recording_session(
    state: RecordingSessionState,
    settings: &TranscriptionSettings,
    options: Option<StartSessionOptions>,
    coordinator_available: bool,
) -> (r: Result<SessionReply, String>)
    ensures
        reply_view(r) == start_reply(state, *settings, options, coordinator_available),
{
    match state {
        RecordingSessionState::Processing => {
            return Err(String::from_str("processing_in_progress"));
        },
        RecordingSessionState::Recording => {
            return Ok(SessionReply { state: RecordingSessionState::Recording, request: None });
        },
        RecordingSessionState::Paused => {
            return Err(String::from_str("session_paused_use_resume"));
        },
        RecordingSessionState::Idle => {},
    }
    match validate_session_start_preconditions(settings) {
        Ok(_) => {},
        Err(e) => {
            return Err(e);
        },
    }
    let mut session_options = match options {
        Some(o) => o,
        None => StartSessionOptions::default(),
    };
    match session_options.validate() {
        Ok(_) => {},
        Err(e) => {
            return Err(e);
        },
    }
    if !coordinator_available {
        return Err(String::from_str("coordinator_unavailable"));
    }
    Ok(
        SessionReply {
            state: RecordingSessionState::Recording,
            request: Some(CoordinatorRequest::Start(session_options)),
        },
    )
}

/// Decides the UI's pause command.
pub fn pause_recording_session(state: RecordingSessionState, coordinator_available: bool) -> (r:
    Result<SessionReply, String>)
    ensures
        reply_view(r) == pause_reply(state, coordinator_available),
{
    match state {
        RecordingSessionState::Processing => Err(String::from_str("processing_in_progress")),
        RecordingSessionState::Idle => Err(String::from_str("recording_not_active")),
        RecordingSessionState::Paused => Ok(
            SessionReply { state: RecordingSessionState::Paused, request: None },
        ),
        RecordingSessionState::Recording => {
            if coordinator_available {
                Ok(
                    SessionReply {
                        state: RecordingSessionState::Paused,
                        request: Some(CoordinatorRequest::Pause),
                    },
                )
            } else {
                Err(String::from_str("coordinator_unavailable"))
            }
        },
    }
}

/// Decides the UI's resume command.
pub fn resume_recording_session(state: RecordingSessionState, coordinator_available: bool) -> (r:
    Result<SessionReply, String>)
    ensures
        reply_view(r) == resume_reply(state, coordinator_available),
{
    match state {
        RecordingSessionState::Processing => Err(String::from_str("processing_in_progress")),
        RecordingSessionState::Idle => Err(String::from_str("recording_not_active")),
        RecordingSessionState::Recording => Ok(
            SessionReply { state: RecordingSessionState::Recording, request: None },
        ),
        RecordingSessionState::Paused => {
            if coordinator_available {
                Ok(
                    SessionReply {
                        state: RecordingSessionState::Recording,
                        request: Some(CoordinatorRequest::Resume),
                    },
                )
            } else {
                Err(String::from_str("coordinator_unavailable"))
            }
        },
    }
}

/// Decides the UI's stop command.
pub fn stop_recording_session(state: RecordingSessionState, coordinator_available: bool) -> (r:
    Result<SessionReply, String>)
    ensures
        reply_view(r) == stop_reply(state, coordinator_available),
{
    match state {
        RecordingSessionState::Processing => Err(String::from_str("processing_in_progress")),
        RecordingSessionState::Idle => Err(String::from_str("recording_not_active")),
        _ => {
            if coordinator_available {
                Ok(
                    SessionReply {
                        state: RecordingSessionState::Processing,
                        request: Some(CoordinatorRequest::Stop),
                    },
                )
            } else {
                Err(String::from_str("coordinator_unavailable"))
            }
        },
    }
}

/// A refused session command.
pub open spec fn refusal(e: Seq<char>) -> Result<SessionReply, Seq<char>> {
    Err(e)
}

/// Validating options that already passed validation changes nothing.
pub proof fn lemma_validation_is_stable(o: StartSessionOptions)
    requires
        validated_options(o) is Ok,
    ensures
        validated_options(validated_options(o)->Ok_0) == validated_options(o),
{
}

/// The state reported to the UI names the coordinator's stage.
pub proof fn lemma_reported_state_follows_stage(stage: StageView)
    ensures
        recording_state_of(Some(flags_of(stage))) == match stage {
            StageView::Idle => RecordingSessionState::Idle,
            StageView::Recording(_) => RecordingSessionState::Recording,
            StageView::Paused(_) => RecordingSessionState::Paused,
            StageView::Processing => RecordingSessionState::Processing,
        },
{
}

/// While processing, every session command is refused; without a session, pause, resume
/// and stop are refused; a refused command sends nothing to the coordinator.
pub proof fn lemma_session_commands_respect_state(
    settings: TranscriptionSettings,
    options: Option<StartSessionOptions>,
    coordinator_available: bool,
)
    ensures
        start_reply(RecordingSessionState::Processing, settings, options, coordinator_available) == refusal(processing_in_progress()),
        pause_reply(RecordingSessionState::Processing, coordinator_available) == refusal(processing_in_progress()),
        resume_reply(RecordingSessionState::Processing, coordinator_available) == refusal(processing_in_progress()),
        stop_reply(RecordingSessionState::Processing, coordinator_available) == refusal(processing_in_progress()),
        pause_reply(RecordingSessionState::Idle, coordinator_available) == refusal(recording_not_active()),
        resume_reply(RecordingSessionState::Idle, coordinator_available) == refusal(recording_not_active()),
        stop_reply(RecordingSessionState::Idle, coordinator_available) == refusal(recording_not_active()),
{
}

/// A start request only ever carries validated options: with diarization, at least two
/// speakers; without it, exactly one.
pub proof fn lemma_start_sends_valid_options(
    state: RecordingSessionState,
    settings: TranscriptionSettings,
    options: Option<StartSessionOptions>,
    coordinator_available: bool,
)
    ensures
        start_reply(state, settings, options, coordinator_available) matches Ok(reply) ==> (
        reply.request matches Some(CoordinatorRequest::Start(o)) ==> {
            &&& o.enable_diarization ==> o.speakers_expected >= 2
            &&& !o.enable_diarization ==> o.speakers_expected == 1
            &&& state is Idle
            &&& session_start_problem(settings) is None
        }),
{
}

/// From idle, with settings that can start a session and a coordinator running, the start
/// request carries the options as given when they ask for diarization with at least two
/// speakers, and diarization off with one speaker when they ask for none; the reply is
/// `Recording`.
pub proof fn lemma_start_sends_given_options(
    settings: TranscriptionSettings,
    options: StartSessionOptions,
)
    requires
        session_start_problem(settings) is None,
    ensures
        options.enable_diarization && options.speakers_expected >= 2 ==> start_reply(
            RecordingSessionState::Idle,
            settings,
            Some(options),
            true,
        ) == Ok::<SessionReply, Seq<char>>(
            SessionReply {
                state: RecordingSessionState::Recording,
                request: Some(CoordinatorRequest::Start(options)),
            },
        ),
        !options.enable_diarization ==> start_reply(
            RecordingSessionState::Idle,
            settings,
            Some(options),
            true,
        ) == Ok::<SessionReply, Seq<char>>(
            SessionReply {
                state: RecordingSessionState::Recording,
                request: Some(
                    CoordinatorRequest::Start(
                        StartSessionOptions { enable_diarization: false, speakers_expected: 1 },
                    ),
                ),
            },
        ),
        start_reply(RecordingSessionState::Idle, settings, None, true) == Ok::<SessionReply, Seq<char>>(
            SessionReply {
                state: RecordingSessionState::Recording,
                request: Some(
                    CoordinatorRequest::Start(
                        StartSessionOptions { enable_diarization: true, speakers_expected: 2 },
                    ),
                ),
            },
        ),
{
}

} // verus!
