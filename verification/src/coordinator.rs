//! The transcription coordinator: one state machine that serialises keyboard, signal and
//! UI events, decides what the pipeline does next and tracks the session's stage.
//!
//! Each command returns the `Effect` that the host performs (starting or stopping the
//! recording action, pausing or resuming the recorder) and keeps it as the pending effect;
//! the host then reports through `apply_outcome` whether that effect took hold, and the
//! stage follows.

use vstd::prelude::*;
use vstd::string::*;
use crate::session::{default_session_options, StartSessionOptions};
use crate::text::str_equal;

verus! {

/// Presses that follow an accepted press by less than this many nanoseconds are ignored.
pub const DEBOUNCE_NS: u64 = 30_000_000;

/// The binding that the UI's start command uses.
pub open spec fn ui_binding() -> Seq<char> {
    "transcribe"@
}

/// Pipeline lifecycle.
pub enum Stage {
    Idle,
    /// Recording for the binding with this id.
    Recording(String),
    /// Paused recording for the binding with this id.
    Paused(String),
    Processing,
}

/// The mathematical content of a stage.
pub enum StageView {
    Idle,
    Recording(Seq<char>),
    Paused(Seq<char>),
    Processing,
}

impl View for Stage {
    type V = StageView;

    open spec fn view(&self) -> StageView {
        match self {
            Stage::Idle => StageView::Idle,
            Stage::Recording(b) => StageView::Recording(b@),
            Stage::Paused(b) => StageView::Paused(b@),
            Stage::Processing => StageView::Processing,
        }
    }
}

/// What the host has to do after a command.
pub enum Effect {
    Nothing,
    /// Run the binding's start action; `session` holds the options of a UI-started session.
    Start { binding_id: String, hotkey_string: String, session: Option<StartSessionOptions> },
    /// Run the binding's stop action.
    Stop { binding_id: String, hotkey_string: String },
    /// Pause the recorder for the binding.
    Pause { binding_id: String },
    /// Resume the recorder for the binding.
    Resume { binding_id: String },
}

/// The mathematical content of an effect.
pub enum EffectView {
    Nothing,
    Start { binding_id: Seq<char>, hotkey_string: Seq<char>, session: Option<StartSessionOptions> },
    Stop { binding_id: Seq<char>, hotkey_string: Seq<char> },
    Pause { binding_id: Seq<char> },
    Resume { binding_id: Seq<char> },
}

impl View for Effect {
    type V = EffectView;

    open spec fn view(&self) -> EffectView {
        match self {
            Effect::Nothing => EffectView::Nothing,
            Effect::Start { binding_id, hotkey_string, session } => EffectView::Start {
                binding_id: binding_id@,
                hotkey_string: hotkey_string@,
                session: *session,
            },
            Effect::Stop { binding_id, hotkey_string } => EffectView::Stop {
                binding_id: binding_id@,
                hotkey_string: hotkey_string@,
            },
            Effect::Pause { binding_id } => EffectView::Pause { binding_id: binding_id@ },
            Effect::Resume { binding_id } => EffectView::Resume { binding_id: binding_id@ },
        }
    }
}

/// The three observable flags of a stage.
#[derive(Clone, Copy, Debug, PartialEq, Eq, Structural)]
pub struct StageFlags {
    pub is_recording: bool,
    pub is_paused: bool,
    pub is_processing: bool,
}

/// The flags that belong to a stage: at most one of them is set.
pub open spec fn flags_of(stage: StageView) -> StageFlags {
    StageFlags {
        is_recording: stage is Recording,
        is_paused: stage is Paused,
        is_processing: stage is Processing,
    }
}

/// The mathematical state of a coordinator.
pub struct CoordinatorView {
    pub stage: StageView,
    /// When the last accepted press arrived, in nanoseconds of a monotonic clock.
    pub last_press: Option<u64>,
    /// The options of the session that the UI started, while it records or is paused.
    pub session_options: Option<StartSessionOptions>,
    /// The effect that the last command asked for, until its outcome is reported.
    pub pending: Option<EffectView>,
}

/// A pending effect still fits the stage it was asked for in: a start is only pending
/// while idle, a stop only for the binding that records or is paused, a pause only for the
/// recording binding, a resume only for the paused binding.
pub open spec fn pending_fits(stage: StageView, pending: Option<EffectView>) -> bool {
    match pending {
        None => true,
        Some(EffectView::Nothing) => true,
        Some(EffectView::Start { .. }) => stage is Idle,
        Some(EffectView::Stop { binding_id, .. }) => stage == StageView::Recording(binding_id)
            || stage == StageView::Paused(binding_id),
        Some(EffectView::Pause { binding_id }) => stage == StageView::Recording(binding_id),
        Some(EffectView::Resume { binding_id }) => stage == StageView::Paused(binding_id),
    }
}

/// The invariant of every coordinator: session options are only held while a session
/// records or is paused, and the pending effect fits the stage.
pub open spec fn well_formed(c: CoordinatorView) -> bool {
    &&& c.session_options is Some ==> (c.stage is Recording || c.stage is Paused)
    &&& pending_fits(c.stage, c.pending)
}

/// The coordinator after a command that asked for `effect`, which is now pending.
pub open spec fn awaiting(c: CoordinatorView, effect: EffectView) -> CoordinatorView {
    CoordinatorView { pending: Some(effect), ..c }
}

/// The state and effect of a command that asks for `effect` and changes nothing else.
pub open spec fn request_step(c: CoordinatorView, effect: EffectView) -> (CoordinatorView, EffectView) {
    (awaiting(c, effect), effect)
}

/// A press at `now` falls in the debounce window of the last accepted press.
/// A clock reading earlier than the last press counts as no time elapsed.
pub open spec fn debounced(last_press: Option<u64>, now: u64) -> bool {
    last_press matches Some(t) && now < t + DEBOUNCE_NS
}

/// What a key or signal event asks for in a given stage.
pub open spec fn input_effect(
    stage: StageView,
    binding_id: Seq<char>,
    hotkey_string: Seq<char>,
    is_pressed: bool,
    push_to_talk: bool,
) -> EffectView {
    let start = EffectView::Start { binding_id, hotkey_string, session: None };
    let stop = EffectView::Stop { binding_id, hotkey_string };
    if push_to_talk {
        if is_pressed && stage is Idle {
            start
        } else if !is_pressed && (stage matches StageView::Recording(id) && id == binding_id) {
            stop
        } else {
            EffectView::Nothing
        }
    } else if is_pressed {
        match stage {
            StageView::Idle => start,
            StageView::Recording(id) => if id == binding_id {
                stop
            } else {
                EffectView::Nothing
            },
            _ => EffectView::Nothing,
        }
    } else {
        EffectView::Nothing
    }
}

/// The state and effect after a key or signal event at time `now`.
pub open spec fn input_step(
    c: CoordinatorView,
    binding_id: Seq<char>,
    hotkey_string: Seq<char>,
    is_pressed: bool,
    push_to_talk: bool,
    now: u64,
) -> (CoordinatorView, EffectView) {
    if is_pressed && debounced(c.last_press, now) {
        request_step(c, EffectView::Nothing)
    } else {
        request_step(
            CoordinatorView {
                last_press: if is_pressed {
                    Some(now)
                } else {
                    c.last_press
                },
                ..c
            },
            input_effect(c.stage, binding_id, hotkey_string, is_pressed, push_to_talk),
        )
    }
}

/// What a UI start request asks for: only an idle pipeline starts.
pub open spec fn start_session_effect(stage: StageView, options: StartSessionOptions) -> EffectView {
    if stage is Idle {
        EffectView::Start {
            binding_id: ui_binding(),
            hotkey_string: "UI:start"@,
            session: Some(options),
        }
    } else {
        EffectView::Nothing
    }
}

/// What a UI pause request asks for: only a recording session pauses.
pub open spec fn pause_effect(stage: StageView) -> EffectView {
    match stage {
        StageView::Recording(b) => EffectView::Pause { binding_id: b },
        _ => EffectView::Nothing,
    }
}

/// What a UI resume request asks for: only a paused session resumes.
pub open spec fn resume_effect(stage: StageView) -> EffectView {
    match stage {
        StageView::Paused(b) => EffectView::Resume { binding_id: b },
        _ => EffectView::Nothing,
    }
}

/// What a UI stop request asks for: a recording or paused session stops.
pub open spec fn stop_effect(stage: StageView) -> EffectView {
    match stage {
        StageView::Recording(b) => EffectView::Stop { binding_id: b, hotkey_string: "UI:stop"@ },
        StageView::Paused(b) => EffectView::Stop { binding_id: b, hotkey_string: "UI:stop"@ },
        _ => EffectView::Nothing,
    }
}

/// The state after a cancellation: outside processing, an active or reported-active
/// recording returns to idle, forgets the session options and drops the pending effect.
pub open spec fn cancel_step(c: CoordinatorView, recording_was_active: bool) -> CoordinatorView {
    if !(c.stage is Processing) && (recording_was_active || c.stage is Recording
        || c.stage is Paused) {
        CoordinatorView { stage: StageView::Idle, session_options: None, pending: None, ..c }
    } else {
        c
    }
}

/// The state after processing has finished: idle, with no session options and nothing pending.
pub open spec fn finish_step(c: CoordinatorView) -> CoordinatorView {
    CoordinatorView { stage: StageView::Idle, session_options: None, pending: None, ..c }
}

/// The effect awaiting its outcome, `Nothing` where none is.
pub open spec fn pending_effect(c: CoordinatorView) -> EffectView {
    match c.pending {
        Some(e) => e,
        None => EffectView::Nothing,
    }
}

/// What `effect` does to the coordinator, given whether it took hold (a start began
/// recording, a stop found its action, a pause or resume was accepted). A stop that takes
/// hold ends the session's options snapshot.
pub open spec fn outcome_step(c: CoordinatorView, effect: EffectView, succeeded: bool) -> CoordinatorView {
    match effect {
        EffectView::Nothing => c,
        EffectView::Start { binding_id, session, .. } => CoordinatorView {
            stage: if succeeded {
                StageView::Recording(binding_id)
            } else {
                c.stage
            },
            session_options: match session {
                Some(o) => if succeeded {
                    Some(o)
                } else {
                    None
                },
                None => c.session_options,
            },
            ..c
        },
        EffectView::Stop { .. } => if succeeded {
            CoordinatorView { stage: StageView::Processing, session_options: None, ..c }
        } else {
            c
        },
        EffectView::Pause { binding_id } => if succeeded {
            CoordinatorView { stage: StageView::Paused(binding_id), ..c }
        } else {
            c
        },
        EffectView::Resume { binding_id } => if succeeded {
            CoordinatorView { stage: StageView::Recording(binding_id), ..c }
        } else {
            c
        },
    }
}

/// The state once the host has reported whether the pending effect took hold; nothing is
/// pending afterwards.
pub open spec fn settle(c: CoordinatorView, succeeded: bool) -> CoordinatorView {
    CoordinatorView { pending: None, ..outcome_step(c, pending_effect(c), succeeded) }
}

/// Serialises all transcription lifecycle events through one state machine.
pub struct TranscriptionCoordinator {
    stage: Stage,
    last_press: Option<u64>,
    session_options: Option<StartSessionOptions>,
    pending: Option<Effect>,
}

/// The view of an optional effect.
pub open spec fn opt_effect_view(e: Option<Effect>) -> Option<EffectView> {
    match e {
        Some(x) => Some(x@),
        None => None,
    }
}

impl View for TranscriptionCoordinator {
    type V = CoordinatorView;

    closed spec fn view(&self) -> CoordinatorView {
        CoordinatorView {
            stage: self.stage@,
            last_press: self.last_press,
            session_options: self.session_options,
            pending: opt_effect_view(self.pending),
        }
    }
}

fn copy_string(s: &String) -> (r: String)
    ensures
        r@ == s@,
{
    String::from_str(s.as_str())
}

fn copy_effect(e: &Effect) -> (r: Effect)
    ensures
        r@ == e@,
{
    match e {
        Effect::Nothing => Effect::Nothing,
        Effect::Start { binding_id, hotkey_string, session } => Effect::Start {
            binding_id: copy_string(binding_id),
            hotkey_string: copy_string(hotkey_string),
            session: *session,
        },
        Effect::Stop { binding_id, hotkey_string } => Effect::Stop {
            binding_id: copy_string(binding_id),
            hotkey_string: copy_string(hotkey_string),
        },
        Effect::Pause { binding_id } => Effect::Pause { binding_id: copy_string(binding_id) },
        Effect::Resume { binding_id } => Effect::Resume { binding_id: copy_string(binding_id) },
    }
}

/// The observable flags of a stage.
pub fn update_stage_flags(stage: &Stage) -> (r: StageFlags)
    ensures
        r == flags_of(stage@),
{
    match stage {
        Stage::Idle => StageFlags { is_recording: false, is_paused: false, is_processing: false },
        Stage::Recording(_) => StageFlags {
            is_recording: true,
            is_paused: false,
            is_processing: false,
        },
        Stage::Paused(_) => StageFlags { is_recording: false, is_paused: true, is_processing: false },
        Stage::Processing => StageFlags {
            is_recording: false,
            is_paused: false,
            is_processing: true,
        },
    }
}

impl TranscriptionCoordinator {
    #[verifier::type_invariant]
    spec fn inv(self) -> bool {
        well_formed(self@)
    }

    /// An idle coordinator with no press seen, no session options and nothing pending.
    pub fn new() -> (r: Self)
        ensures
            r@ == (CoordinatorView {
                stage: StageView::Idle,
                last_press: None,
                session_options: None,
                pending: None,
            }),
    {
        TranscriptionCoordinator {
            stage: Stage::Idle,
            last_press: None,
            session_options: None,
            pending: None,
        }
    }

    /// Keeps `e` as the pending effect and hands it to the host.
    fn ask(&mut self, e: Effect) -> (r: Effect)
        requires
            pending_fits(old(self)@.stage, Some(e@)),
        ensures
            final(self)@ == awaiting(old(self)@, e@),
            r@ == e@,
    {
        proof {
            use_type_invariant(&*self);
        }
        self.pending = Some(copy_effect(&e));
        e
    }

    /// A keyboard or signal event for a binding, arriving at `now_ns` on a monotonic clock.
    /// For signal-based toggles use `is_pressed: true` and `push_to_talk: false`.
    pub fn send_input(
        &mut self,
        binding_id: &str,
        hotkey_string: &str,
        is_pressed: bool,
        push_to_talk: bool,
        now_ns: u64,
    ) -> (e: Effect)
        ensures
            (final(self)@, e@) == input_step(old(self)@, binding_id@, hotkey_string@, is_pressed, push_to_talk, now_ns),
    {
        proof {
            use_type_invariant(&*self);
        }
        if is_pressed {
            let bounced = match self.last_press {
                Some(t) => (now_ns as u128) < (t as u128) + (DEBOUNCE_NS as u128),
                None => false,
            };
            if bounced {
                return self.ask(Effect::Nothing);
            }
            self.last_press = Some(now_ns);
        }
        let start = is_pressed && matches!(self.stage, Stage::Idle);
        let stop = match &self.stage {
            Stage::Recording(id) => {
                let same = str_equal(id.as_str(), binding_id);
                if push_to_talk { !is_pressed && same } else { is_pressed && same }
            },
            _ => false,
        };
        let e = if start {
            Effect::Start {
                binding_id: String::from_str(binding_id),
                hotkey_string: String::from_str(hotkey_string),
                session: None,
            }
        } else if stop {
            Effect::Stop {
                binding_id: String::from_str(binding_id),
                hotkey_string: String::from_str(hotkey_string),
            }
        } else {
            Effect::Nothing
        };
        self.ask(e)
    }

    /// A UI request to start a session with explicit options.
    pub fn start_session_with_options(&mut self, options: StartSessionOptions) -> (e: Effect)
        ensures
            (final(self)@, e@) == request_step(old(self)@, start_session_effect(old(self)@.stage, options)),
    {
        let e = match &self.stage {
            Stage::Idle => Effect::Start {
                binding_id: String::from_str("transcribe"),
                hotkey_string: String::from_str("UI:start"),
                session: Some(options),
            },
            _ => Effect::Nothing,
        };
        self.ask(e)
    }

    /// A UI request to start a session with the default options.
    pub fn start_session(&mut self) -> (e: Effect)
        ensures
            (final(self)@, e@) == request_step(old(self)@, start_session_effect(old(self)@.stage, default_session_options())),
    {
        let options = StartSessionOptions::default();
        self.start_session_with_options(options)
    }

    /// A UI request to pause the session.
    pub fn pause_session(&mut self) -> (e: Effect)
        ensures
            (final(self)@, e@) == request_step(old(self)@, pause_effect(old(self)@.stage)),
    {
        let e = match &self.stage {
            Stage::Recording(b) => Effect::Pause { binding_id: copy_string(b) },
            _ => Effect::Nothing,
        };
        self.ask(e)
    }

    /// A UI request to resume the session.
    pub fn resume_session(&mut self) -> (e: Effect)
        ensures
            (final(self)@, e@) == request_step(old(self)@, resume_effect(old(self)@.stage)),
    {
        let e = match &self.stage {
            Stage::Paused(b) => Effect::Resume { binding_id: copy_string(b) },
            _ => Effect::Nothing,
        };
        self.ask(e)
    }

    /// A UI request to stop the session.
    pub fn stop_session(&mut self) -> (e: Effect)
        ensures
            (final(self)@, e@) == request_step(old(self)@, stop_effect(old(self)@.stage)),
    {
        let e = match &self.stage {
            Stage::Recording(b) => Effect::Stop {
                binding_id: copy_string(b),
                hotkey_string: String::from_str("UI:stop"),
            },
            Stage::Paused(b) => Effect::Stop {
                binding_id: copy_string(b),
                hotkey_string: String::from_str("UI:stop"),
            },
            _ => Effect::Nothing,
        };
        self.ask(e)
    }

    /// A cancellation; processing is never interrupted by it.
    pub fn notify_cancel(&mut self, recording_was_active: bool)
        ensures
            final(self)@ == cancel_step(old(self)@, recording_was_active),
    {
        proof {
            use_type_invariant(&*self);
        }
        let active = match &self.stage {
            Stage::Processing => false,
            Stage::Recording(_) => true,
            Stage::Paused(_) => true,
            Stage::Idle => recording_was_active,
        };
        if active {
            self.session_options = None;
            self.pending = None;
            self.stage = Stage::Idle;
        }
    }

    /// The pipeline has finished processing the recording.
    pub fn notify_processing_finished(&mut self)
        ensures
            final(self)@ == finish_step(old(self)@),
    {
        proof {
            use_type_invariant(&*self);
        }
        self.session_options = None;
        self.pending = None;
        self.stage = Stage::Idle;
    }

    /// Records whether the pending effect, which the host performed, took hold.
    pub fn apply_outcome(&mut self, succeeded: bool)
        ensures
            final(self)@ == settle(old(self)@, succeeded),
    {
        proof {
            use_type_invariant(&*self);
        }
        let effect = match &self.pending {
            Some(e) => copy_effect(e),
            None => Effect::Nothing,
        };
        self.pending = None;
        match effect {
            Effect::Nothing => {},
            Effect::Start { binding_id, session, .. } => {
                match session {
                    Some(o) => {
                        if succeeded {
                            self.stage = Stage::Recording(binding_id);
                            self.session_options = Some(o);
                        } else {
                            self.session_options = None;
                        }
                    },
                    None => {
                        if succeeded {
                            self.stage = Stage::Recording(binding_id);
                        }
                    },
                }
            },
            Effect::Stop { .. } => {
                if succeeded {
                    self.session_options = None;
                    self.stage = Stage::Processing;
                }
            },
            Effect::Pause { binding_id } => {
                if succeeded {
                    self.stage = Stage::Paused(binding_id);
                }
            },
            Effect::Resume { binding_id } => {
                if succeeded {
                    self.stage = Stage::Recording(binding_id);
                }
            },
        }
    }

    /// Whether a recording is under way.
    pub fn is_recording(&self) -> (r: bool)
        ensures
            r == (self@.stage is Recording),
    {
        matches!(self.stage, Stage::Recording(_))
    }

    /// Whether the session is paused.
    pub fn is_paused(&self) -> (r: bool)
        ensures
            r == (self@.stage is Paused),
    {
        matches!(self.stage, Stage::Paused(_))
    }

    /// Whether the recording is being processed.
    pub fn is_processing(&self) -> (r: bool)
        ensures
            r == (self@.stage is Processing),
    {
        matches!(self.stage, Stage::Processing)
    }

    /// The flags of the current stage.
    pub fn stage_flags(&self) -> (r: StageFlags)
        ensures
            r == flags_of(self@.stage),
    {
        update_stage_flags(&self.stage)
    }

    /// The options of the session that the UI started, while it records or is paused.
    pub fn get_session_options(&self) -> (r: Option<StartSessionOptions>)
        ensures
            r == self@.session_options,
            r is Some ==> (self@.stage is Recording || self@.stage is Paused),
    {
        proof {
            use_type_invariant(self);
        }
        self.session_options
    }
}

/// Whether `id` names one of the transcription bindings.
pub fn is_transcribe_binding(id: &str) -> (r: bool)
    ensures
        r == (id@ == "transcribe"@ || id@ == "transcribe_with_post_process"@),
{
    str_equal(id, "transcribe") || str_equal(id, "transcribe_with_post_process")
}

/// At most one of the flags of a stage is set, and none is set exactly when idle.
pub proof fn lemma_flags_exclusive(stage: StageView)
    ensures
        !(flags_of(stage).is_recording && flags_of(stage).is_paused),
        !(flags_of(stage).is_recording && flags_of(stage).is_processing),
        !(flags_of(stage).is_paused && flags_of(stage).is_processing),
        (stage is Idle) <==> !(flags_of(stage).is_recording || flags_of(stage).is_paused
            || flags_of(stage).is_processing),
{
}

/// Every command and every reported outcome keeps a coordinator well formed.
pub proof fn lemma_steps_keep_well_formed(
    c: CoordinatorView,
    binding_id: Seq<char>,
    hotkey_string: Seq<char>,
    is_pressed: bool,
    push_to_talk: bool,
    now: u64,
    options: StartSessionOptions,
    recording_was_active: bool,
    succeeded: bool,
)
    requires
        well_formed(c),
    ensures
        well_formed(input_step(c, binding_id, hotkey_string, is_pressed, push_to_talk, now).0),
        well_formed(request_step(c, start_session_effect(c.stage, options)).0),
        well_formed(request_step(c, pause_effect(c.stage)).0),
        well_formed(request_step(c, resume_effect(c.stage)).0),
        well_formed(request_step(c, stop_effect(c.stage)).0),
        well_formed(cancel_step(c, recording_was_active)),
        well_formed(finish_step(c)),
        well_formed(settle(c, succeeded)),
{
}

/// Processing is never interrupted: while processing, no key event, UI request, reported
/// outcome or cancellation changes the stage; only the end of processing returns to idle.
pub proof fn lemma_processing_ends_only_when_finished(
    c: CoordinatorView,
    binding_id: Seq<char>,
    hotkey_string: Seq<char>,
    is_pressed: bool,
    push_to_talk: bool,
    now: u64,
    options: StartSessionOptions,
    recording_was_active: bool,
    succeeded: bool,
)
    requires
        well_formed(c),
        c.stage is Processing,
    ensures
        input_step(c, binding_id, hotkey_string, is_pressed, push_to_talk, now).1 is Nothing,
        input_step(c, binding_id, hotkey_string, is_pressed, push_to_talk, now).0.stage == c.stage,
        start_session_effect(c.stage, options) is Nothing,
        pause_effect(c.stage) is Nothing,
        resume_effect(c.stage) is Nothing,
        stop_effect(c.stage) is Nothing,
        cancel_step(c, recording_was_active) == c,
        settle(c, succeeded).stage == c.stage,
        finish_step(c).stage is Idle,
        finish_step(c).session_options is None,
{
}

/// Processing only begins with a stop that took hold: no start, pause, resume, key event
/// or cancellation moves a session into processing.
pub proof fn lemma_processing_only_after_stop(
    c: CoordinatorView,
    succeeded: bool,
    binding_id: Seq<char>,
    hotkey_string: Seq<char>,
    is_pressed: bool,
    push_to_talk: bool,
    now: u64,
    recording_was_active: bool,
)
    ensures
        settle(c, succeeded).stage is Processing && !(c.stage is Processing) ==> (pending_effect(
            c,
        ) is Stop && succeeded),
        input_step(c, binding_id, hotkey_string, is_pressed, push_to_talk, now).0.stage == c.stage,
        cancel_step(c, recording_was_active).stage is Processing ==> c.stage is Processing,
        !(finish_step(c).stage is Processing),
{
}

/// A press that falls within the debounce window of an accepted press asks for nothing
/// and changes nothing but the pending effect.
pub proof fn lemma_debounced_press_is_ignored(
    c: CoordinatorView,
    binding_id: Seq<char>,
    hotkey_string: Seq<char>,
    push_to_talk: bool,
    now: u64,
    binding_id2: Seq<char>,
    hotkey_string2: Seq<char>,
    push_to_talk2: bool,
    later: u64,
)
    requires
        !debounced(c.last_press, now),
        now <= later < now + DEBOUNCE_NS,
    ensures
        ({
            let after = input_step(c, binding_id, hotkey_string, true, push_to_talk, now).0;
            input_step(after, binding_id2, hotkey_string2, true, push_to_talk2, later) == (
            awaiting(after, EffectView::Nothing),
            EffectView::Nothing,
            )
        }),
{
}

/// Releases are never debounced: a push-to-talk release of the recording binding always
/// asks to stop, however soon it follows the press.
pub proof fn lemma_release_stops_recording(
    c: CoordinatorView,
    binding_id: Seq<char>,
    hotkey_string: Seq<char>,
    now: u64,
)
    requires
        c.stage == StageView::Recording(binding_id),
    ensures
        input_step(c, binding_id, hotkey_string, false, true, now) == request_step(
            c,
            EffectView::Stop { binding_id, hotkey_string },
        ),
{
}

/// A pause that takes hold, followed by a resume that takes hold, returns the coordinator
/// to the state it was recording in, with nothing pending.
pub proof fn lemma_pause_resume_round_trip(c: CoordinatorView, binding_id: Seq<char>)
    requires
        c.stage == StageView::Recording(binding_id),
    ensures
        ({
            let paused = settle(request_step(c, pause_effect(c.stage)).0, true);
            let resumed = settle(request_step(paused, resume_effect(paused.stage)).0, true);
            &&& pause_effect(c.stage) == (EffectView::Pause { binding_id })
            &&& paused.stage == StageView::Paused(binding_id)
            &&& resume_effect(paused.stage) == (EffectView::Resume { binding_id })
            &&& resumed == (CoordinatorView { pending: None, ..c })
        }),
{
}

/// An effect that did not take hold leaves the stage as it was.
pub proof fn lemma_failed_effect_keeps_stage(c: CoordinatorView)
    ensures
        settle(c, false).stage == c.stage,
{
}

/// A UI start from idle snapshots the options exactly when recording began; a stop of
/// that session that takes hold moves it to processing and clears the snapshot.
pub proof fn lemma_ui_session_lifecycle(c: CoordinatorView, options: StartSessionOptions, started: bool)
    requires
        well_formed(c),
        c.stage is Idle,
    ensures
        ({
            let after = settle(request_step(c, start_session_effect(c.stage, options)).0, started);
            let stopped = settle(request_step(after, stop_effect(after.stage)).0, true);
            &&& started ==> after.stage == StageView::Recording(ui_binding())
                && after.session_options == Some(options)
            &&& !started ==> after.stage is Idle && after.session_options is None
            &&& started ==> stopped.stage is Processing && stopped.session_options is None
        }),
{
}

/// In toggle mode a release never asks for anything: whatever the stage, binding, key or
/// time, a release with push-to-talk off yields no effect and leaves the stage as it was.
pub proof fn lemma_toggle_release_is_ignored(
    c: CoordinatorView,
    binding_id: Seq<char>,
    hotkey_string: Seq<char>,
    now: u64,
)
    ensures
        input_effect(c.stage, binding_id, hotkey_string, false, false) is Nothing,
        input_step(c, binding_id, hotkey_string, false, false, now).1 is Nothing,
        input_step(c, binding_id, hotkey_string, false, false, now).0.stage == c.stage,
        input_step(c, binding_id, hotkey_string, false, false, now).0.last_press == c.last_press,
        input_step(c, binding_id, hotkey_string, false, false, now).0.session_options
            == c.session_options,
{
}

/// A key event only ever starts from idle or stops the recording of its own binding,
/// passing on its own binding and key; a press with push-to-talk never stops, and a
/// release never starts.
pub proof fn lemma_input_effects_stay_with_their_binding(
    stage: StageView,
    binding_id: Seq<char>,
    hotkey_string: Seq<char>,
    is_pressed: bool,
    push_to_talk: bool,
)
    ensures
        ({
            let e = input_effect(stage, binding_id, hotkey_string, is_pressed, push_to_talk);
            &&& e is Start ==> stage is Idle && is_pressed && e == (EffectView::Start {
                binding_id,
                hotkey_string,
                session: None,
            })
            &&& e is Stop ==> stage == StageView::Recording(binding_id) && e == (EffectView::Stop {
                binding_id,
                hotkey_string,
            }) && (is_pressed != push_to_talk)
            &&& !(e is Pause) && !(e is Resume)
        }),
{
}

/// A start without session options (a key or signal start) never sets options: the
/// snapshot after its outcome is the one before, so a key-started session from idle has none.
pub proof fn lemma_key_start_sets_no_options(
    c: CoordinatorView,
    binding_id: Seq<char>,
    hotkey_string: Seq<char>,
    succeeded: bool,
)
    requires
        well_formed(c),
    ensures
        outcome_step(c, EffectView::Start { binding_id, hotkey_string, session: None }, succeeded).session_options
            == c.session_options,
        c.stage is Idle ==> outcome_step(
            c,
            EffectView::Start { binding_id, hotkey_string, session: None },
            succeeded,
        ).session_options is None,
        succeeded ==> outcome_step(
            c,
            EffectView::Start { binding_id, hotkey_string, session: None },
            succeeded,
        ).stage == StageView::Recording(binding_id),
{
}

/// Session options change only at a UI start, a stop, a cancellation or the end of
/// processing: key events, pause and resume requests, and the outcomes of pauses and
/// resumes keep them.
pub proof fn lemma_options_change_only_at_session_edges(
    c: CoordinatorView,
    binding_id: Seq<char>,
    hotkey_string: Seq<char>,
    is_pressed: bool,
    push_to_talk: bool,
    now: u64,
    succeeded: bool,
)
    ensures
        input_step(c, binding_id, hotkey_string, is_pressed, push_to_talk, now).0.session_options
            == c.session_options,
        outcome_step(c, EffectView::Pause { binding_id }, succeeded).session_options
            == c.session_options,
        outcome_step(c, EffectView::Resume { binding_id }, succeeded).session_options
            == c.session_options,
        request_step(c, pause_effect(c.stage)).0.session_options == c.session_options,
        request_step(c, resume_effect(c.stage)).0.session_options == c.session_options,
{
}

} // verus!
