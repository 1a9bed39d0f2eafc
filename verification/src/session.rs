//! The session mode and the control surface that moves it: starting,
//! verifying and stopping a recording, entering and leaving the action loop,
//! and routing raw input events by mode.

use crate::recording::{
    fire_scheduled, on_input_event, CaptureLabel, CaptureRequest, InputEvent, RecordingModel,
    RecordingState, ScheduledCapture, SchedulerStep,
};
use crate::text::{chars_of, starts_with, trim, trimmed};
use vstd::prelude::*;

verus! {

/// What the process is doing. Exactly one mode holds at any time.
#[derive(Debug, Clone, Copy, PartialEq, Eq, Structural)]
pub enum AppInputState {
    Idle,
    Recording,
    ExecutingAction,
}

/// The mode, and the flag by which the operator interrupts the action loop.
#[derive(Debug, Clone, Copy, PartialEq, Eq, Structural)]
pub struct GlobalAppState {
    pub input_state: AppInputState,
    pub action_interrupted: bool,
}

/// Why an operation of the control surface was refused.
#[derive(Debug, Clone, Copy, PartialEq, Eq, Structural)]
pub enum SessionError {
    /// A recording or an action loop is already under way, in the given mode.
    AlreadyActive(AppInputState),
    /// The operation needs the mode to be `Recording`.
    NotRecording,
    /// The mode is `Recording` but the session is not active.
    Inactive,
    /// The session has no folder to write to.
    FolderMissing,
    /// A new name is empty or white space only.
    EmptyName,
    /// A new name begins with the prefix kept for generated names.
    ReservedName,
}

impl SessionError {
    /// What the error says to the operator.
    pub open spec fn message_text(self) -> Seq<char> {
        match self {
            SessionError::AlreadyActive(AppInputState::Recording) => "A recording is already active."@,
            SessionError::AlreadyActive(AppInputState::ExecutingAction) => "An action is being executed."@,
            SessionError::AlreadyActive(AppInputState::Idle) => "The session is busy."@,
            SessionError::NotRecording => "Not in Recording state."@,
            SessionError::Inactive => "Recording is not active."@,
            SessionError::FolderMissing => "The session folder is not set."@,
            SessionError::EmptyName => "Action name cannot be empty."@,
            SessionError::ReservedName => "Action name cannot start with 'default_'."@,
        }
    }

    /// What the error says to the operator.
    pub fn message(&self) -> (r: String)
        ensures
            r@ == self.message_text(),
    {
        let text = match self {
            SessionError::AlreadyActive(AppInputState::Recording) => "A recording is already active.",
            SessionError::AlreadyActive(AppInputState::ExecutingAction) => "An action is being executed.",
            SessionError::AlreadyActive(AppInputState::Idle) => "The session is busy.",
            SessionError::NotRecording => "Not in Recording state.",
            SessionError::Inactive => "Recording is not active.",
            SessionError::FolderMissing => "The session folder is not set.",
            SessionError::EmptyName => "Action name cannot be empty.",
            SessionError::ReservedName => "Action name cannot start with 'default_'.",
        };
        text.to_owned()
    }
}

impl GlobalAppState {
    /// The state at process start: idle, not interrupted.
    pub open spec fn initial() -> GlobalAppState {
        GlobalAppState { input_state: AppInputState::Idle, action_interrupted: false }
    }

    /// An attempt to enter `Recording`: it succeeds from `Idle` only, and a
    /// refused attempt changes nothing.
    pub open spec fn try_record(self) -> (GlobalAppState, Result<(), SessionError>) {
        if self.input_state == AppInputState::Idle {
            (GlobalAppState { input_state: AppInputState::Recording, ..self }, Ok(()))
        } else {
            (self, Err(SessionError::AlreadyActive(self.input_state)))
        }
    }

    /// An attempt to enter `ExecutingAction`: it succeeds from `Idle` only
    /// and then clears the interruption flag; a refused attempt changes
    /// nothing.
    pub open spec fn try_execute(self) -> (GlobalAppState, Result<(), SessionError>) {
        if self.input_state == AppInputState::Idle {
            (
                GlobalAppState {
                    input_state: AppInputState::ExecutingAction,
                    action_interrupted: false,
                },
                Ok(()),
            )
        } else {
            (self, Err(SessionError::AlreadyActive(self.input_state)))
        }
    }

    /// The state after a recording was stopped: idle, whatever the mode was.
    pub open spec fn recording_stopped(self) -> GlobalAppState {
        GlobalAppState { input_state: AppInputState::Idle, ..self }
    }

    /// The state after the action loop has returned: idle, flag cleared.
    pub open spec fn action_finished(self) -> GlobalAppState {
        GlobalAppState { input_state: AppInputState::Idle, action_interrupted: false }
    }

    /// The state after an input event was seen outside a recording: the
    /// interrupt key sets the flag while the action loop runs, and nothing
    /// else has any effect.
    pub open spec fn after_event(self, event: InputEvent) -> GlobalAppState {
        if self.input_state == AppInputState::ExecutingAction && event == (InputEvent::KeyPress {
            interrupt: true,
        }) {
            GlobalAppState { action_interrupted: true, ..self }
        } else {
            self
        }
    }
}

impl Default for GlobalAppState {
    fn default() -> (r: Self)
        ensures
            r == GlobalAppState::initial(),
    {
        GlobalAppState { input_state: AppInputState::Idle, action_interrupted: false }
    }
}

/// The mathematical value of a [`SessionContext`].
pub ghost struct ContextModel {
    pub app: GlobalAppState,
    pub recording: RecordingModel,
}

impl ContextModel {
    /// The context after `verify_recording`, and what it answers.
    pub open spec fn verified(self) -> (ContextModel, Result<Option<CaptureRequest>, SessionError>) {
        if self.app.input_state != AppInputState::Recording {
            (self, Err(SessionError::NotRecording))
        } else if !self.recording.active {
            (self, Err(SessionError::Inactive))
        } else if self.recording.verified {
            (self, Ok(None))
        } else {
            let marked = ContextModel {
                recording: RecordingModel { verified: true, ..self.recording },
                ..self
            };
            if self.recording.base_folder is None {
                (marked, Err(SessionError::FolderMissing))
            } else {
                (
                    marked,
                    Ok(
                        Some(
                            CaptureRequest {
                                label: CaptureLabel::Init,
                                pointer: self.recording.pointer,
                            },
                        ),
                    ),
                )
            }
        }
    }

    /// The context after `stop_recording`: the mode is idle; an active
    /// session is stopped, an inactive one is left as it is.
    pub open spec fn stopped(self) -> ContextModel {
        ContextModel {
            app: self.app.recording_stopped(),
            recording: if self.recording.active {
                self.recording.stopped()
            } else {
                self.recording
            },
        }
    }

    /// The folder that `stop_recording` hands over for processing: that of
    /// the session it stopped, and none when no session was active.
    pub open spec fn folder_to_process(self) -> Option<Seq<char>> {
        if self.recording.active {
            self.recording.base_folder
        } else {
            None
        }
    }

    /// The context after a raw input event at `now`, and the ticket to arm.
    /// Idle ignores the event; a recording hands it to the scheduler; the
    /// action loop only watches for the interrupt key.
    pub open spec fn dispatched(self, event: InputEvent, now: u64) -> (
        ContextModel,
        Option<ScheduledCapture>,
    ) {
        match self.app.input_state {
            AppInputState::Idle => (self, None),
            AppInputState::Recording => (
                ContextModel { recording: self.recording.after_event(event, now).0, ..self },
                self.recording.after_event(event, now).1,
            ),
            AppInputState::ExecutingAction => (
                ContextModel { app: self.app.after_event(event), ..self },
                None,
            ),
        }
    }

    /// Whether `name` may replace the generated name of the session's
    /// action, and if so, the base folder and the action folder whose entry
    /// is to be renamed.
    pub open spec fn rename_target(self, name: Seq<char>) -> Result<
        (Seq<char>, Seq<char>),
        SessionError,
    > {
        if trimmed(name).len() == 0 {
            Err(SessionError::EmptyName)
        } else if reserved_prefix().is_prefix_of(name) {
            Err(SessionError::ReservedName)
        } else if self.app.input_state != AppInputState::Recording {
            Err(SessionError::NotRecording)
        } else if !self.recording.active {
            Err(SessionError::Inactive)
        } else {
            match (self.recording.base_folder, self.recording.action_folder) {
                (Some(base), Some(action)) => Ok((base, action)),
                _ => Err(SessionError::FolderMissing),
            }
        }
    }
}

/// The prefix of generated action names, which no chosen name may carry.
pub open spec fn reserved_prefix() -> Seq<char> {
    "default_"@
}

/// The one owner of the session's shared state. The mode and the session
/// change through its operations only.
pub struct SessionContext {
    app: GlobalAppState,
    recording: RecordingState,
}

impl View for SessionContext {
    type V = ContextModel;

    closed spec fn view(&self) -> ContextModel {
        ContextModel { app: self.app, recording: self.recording@ }
    }
}

/// The view of the answer of `update_current_action_name`.
pub open spec fn target_view(r: Result<(String, String), SessionError>) -> Result<
    (Seq<char>, Seq<char>),
    SessionError,
> {
    match r {
        Ok(pair) => Ok((pair.0@, pair.1@)),
        Err(e) => Err(e),
    }
}

impl SessionContext {
    /// The context at process start.
    pub fn new() -> (r: Self)
        ensures
            r@.app == GlobalAppState::initial(),
            r@.recording == RecordingModel::initial(),
            r@.recording.wf(),
    {
        SessionContext { app: GlobalAppState::default(), recording: RecordingState::new() }
    }

    /// The current mode.
    pub fn mode(&self) -> (r: AppInputState)
        ensures
            r == self@.app.input_state,
    {
        self.app.input_state
    }

    /// The mode and the interruption flag.
    pub fn app_state(&self) -> (r: GlobalAppState)
        ensures
            r == self@.app,
    {
        self.app
    }

    /// The recording session, to look at.
    pub fn recording(&self) -> (r: &RecordingState)
        ensures
            r@ == self@.recording,
    {
        &self.recording
    }

    /// The timer of `ticket` has run out at `now`: decides whether the
    /// capture is taken, as the scheduler rules.
    pub fn fire(&mut self, ticket: ScheduledCapture, now: u64) -> (r: Option<CaptureRequest>)
        ensures
            final(self)@.app == old(self)@.app,
            final(self)@.recording == old(self)@.recording.fired(ticket, now).0,
            r == old(self)@.recording.fired(ticket, now).1,
            old(self)@.recording.wf() ==> final(self)@.recording.wf(),
    {
        fire_scheduled(&mut self.recording, ticket, now)
    }

    /// Records the pointer location sampled just now. Returns whether the
    /// sampler should go on, which is while the session is active.
    pub fn update_pointer(&mut self, x: i32, y: i32) -> (keep_sampling: bool)
        ensures
            final(self)@.app == old(self)@.app,
            keep_sampling == old(self)@.recording.active,
            final(self)@.recording == old(self)@.recording.step(SchedulerStep::Pointer(x, y)),
            old(self)@.recording.wf() ==> final(self)@.recording.wf(),
    {
        self.recording.update_pointer(x, y)
    }

    /// Remembers `base_folder` as the folder of the session.
    pub fn set_base_folder(&mut self, base_folder: String)
        ensures
            final(self)@.app == old(self)@.app,
            final(self)@.recording == (RecordingModel {
                base_folder: Some(base_folder@),
                ..old(self)@.recording
            }),
            old(self)@.recording.wf() ==> final(self)@.recording.wf(),
    {
        self.recording.set_base_folder(base_folder);
    }

    /// Enters `Recording`. Check and change are one step.
    pub fn start_recording(&mut self) -> (r: Result<(), SessionError>)
        ensures
            final(self)@.app == old(self)@.app.try_record().0,
            r == old(self)@.app.try_record().1,
            final(self)@.recording == old(self)@.recording,
    {
        if self.app.input_state == AppInputState::Idle {
            self.app.input_state = AppInputState::Recording;
            Ok(())
        } else {
            Err(SessionError::AlreadyActive(self.app.input_state))
        }
    }

    /// Opens the session of the recording just started.
    pub fn open_session(&mut self, base_folder: String, action_folder: String)
        ensures
            final(self)@.app == old(self)@.app,
            final(self)@.recording == old(self)@.recording.started(base_folder@, action_folder@),
            final(self)@.recording.wf(),
    {
        self.recording.start_session(base_folder, action_folder);
    }

    /// Marks the session verified and asks for the initial capture. A
    /// session already verified is left as it is and asks for nothing.
    pub fn verify_recording(&mut self) -> (r: Result<Option<CaptureRequest>, SessionError>)
        ensures
            final(self)@ == old(self)@.verified().0,
            r == old(self)@.verified().1,
            old(self)@.recording.wf() ==> final(self)@.recording.wf(),
    {
        if self.app.input_state != AppInputState::Recording {
            return Err(SessionError::NotRecording);
        }
        if !self.recording.is_active() {
            return Err(SessionError::Inactive);
        }
        if self.recording.is_verified() {
            return Ok(None);
        }
        self.recording.mark_verified();
        match self.recording.base_folder() {
            None => Err(SessionError::FolderMissing),
            Some(_) => Ok(
                Some(
                    CaptureRequest {
                        label: CaptureLabel::Init,
                        pointer: self.recording.pointer_location(),
                    },
                ),
            ),
        }
    }

    /// Stops the recording and returns to `Idle`, from any mode. Returns the
    /// folder to process, when a session was active.
    pub fn stop_recording(&mut self) -> (r: Option<String>)
        ensures
            final(self)@ == old(self)@.stopped(),
            crate::recording::text_view(r) == old(self)@.folder_to_process(),
            final(self)@.app.input_state == AppInputState::Idle,
            final(self)@.recording.active == false,
            old(self)@.recording.wf() ==> final(self)@.recording.wf(),
    {
        self.app.input_state = AppInputState::Idle;
        if !self.recording.is_active() {
            return None;
        }
        self.recording.stop_session();
        self.recording.base_folder()
    }

    /// Enters `ExecutingAction` and clears the interruption flag. Check and
    /// change are one step.
    pub fn start_act(&mut self) -> (r: Result<(), SessionError>)
        ensures
            final(self)@.app == old(self)@.app.try_execute().0,
            r == old(self)@.app.try_execute().1,
            final(self)@.recording == old(self)@.recording,
    {
        if self.app.input_state == AppInputState::Idle {
            self.app.input_state = AppInputState::ExecutingAction;
            self.app.action_interrupted = false;
            Ok(())
        } else {
            Err(SessionError::AlreadyActive(self.app.input_state))
        }
    }

    /// Leaves the action loop: back to `Idle`, flag cleared.
    pub fn finish_act(&mut self)
        ensures
            final(self)@.app == old(self)@.app.action_finished(),
            final(self)@.recording == old(self)@.recording,
    {
        self.app.input_state = AppInputState::Idle;
        self.app.action_interrupted = false;
    }

    /// Whether the operator has asked to interrupt the action loop.
    pub fn is_interrupted(&self) -> (r: bool)
        ensures
            r == self@.app.action_interrupted,
    {
        self.app.action_interrupted
    }

    /// Routes one raw input event, seen at `now`, by the current mode.
    pub fn dispatch_event(&mut self, event: InputEvent, now: u64) -> (r: Option<ScheduledCapture>)
        ensures
            final(self)@ == old(self)@.dispatched(event, now).0,
            r == old(self)@.dispatched(event, now).1,
            old(self)@.recording.wf() ==> final(self)@.recording.wf(),
    {
        match self.app.input_state {
            AppInputState::Idle => None,
            AppInputState::Recording => on_input_event(&mut self.recording, event, now),
            AppInputState::ExecutingAction => {
                match event {
                    InputEvent::KeyPress { interrupt } => {
                        if interrupt {
                            self.app.action_interrupted = true;
                        }
                    },
                    _ => {},
                }
                None
            },
        }
    }

    /// Checks a new name for the action being recorded and says which entry
    /// of the history index is to carry it.
    pub fn update_current_action_name(&self, name: &str) -> (r: Result<
        (String, String),
        SessionError,
    >)
        ensures
            target_view(r) == self@.rename_target(name@),
    {
        let text = chars_of(name);
        if trim(&text).len() == 0 {
            return Err(SessionError::EmptyName);
        }
        if starts_with(&text, "default_") {
            return Err(SessionError::ReservedName);
        }
        if self.app.input_state != AppInputState::Recording {
            return Err(SessionError::NotRecording);
        }
        if !self.recording.is_active() {
            return Err(SessionError::Inactive);
        }
        match (self.recording.base_folder(), self.recording.current_action_folder()) {
            (Some(base), Some(action)) => Ok((base, action)),
            _ => Err(SessionError::FolderMissing),
        }
    }
}

impl Default for SessionContext {
    fn default() -> (r: Self)
        ensures
            r@.app == GlobalAppState::initial(),
            r@.recording == RecordingModel::initial(),
            r@.recording.wf(),
    {
        SessionContext::new()
    }
}

/// No recording and no action loop starts while another mode holds: the
/// attempt is refused and the state is what it was.
pub proof fn lemma_busy_mode_refuses_entry(state: GlobalAppState)
    requires
        state.input_state != AppInputState::Idle,
    ensures
        state.try_record().1 is Err,
        state.try_record().0 == state,
        state.try_execute().1 is Err,
        state.try_execute().0 == state,
{
}

/// From `Idle` both entries succeed, into their own mode.
pub proof fn lemma_idle_mode_admits_entry(state: GlobalAppState)
    requires
        state.input_state == AppInputState::Idle,
    ensures
        state.try_record().1 is Ok,
        state.try_record().0.input_state == AppInputState::Recording,
        state.try_execute().1 is Ok,
        state.try_execute().0.input_state == AppInputState::ExecutingAction,
        !state.try_execute().0.action_interrupted,
{
}

/// Stopping a recording twice is stopping it once: the second call finds the
/// mode idle and the session inactive, changes nothing and has no folder to
/// hand over.
pub proof fn lemma_stop_recording_is_idempotent(context: ContextModel)
    ensures
        context.stopped().app.input_state == AppInputState::Idle,
        !context.stopped().recording.active,
        context.stopped().stopped() == context.stopped(),
        context.stopped().folder_to_process() is None,
{
}

/// Whatever mode the loop ends in and however it ends, leaving it gives an
/// idle state with the flag cleared, from which both entries succeed again.
pub proof fn lemma_finished_action_is_idle(state: GlobalAppState)
    ensures
        state.action_finished() == GlobalAppState::initial(),
        state.action_finished().try_execute().1 is Ok,
        state.action_finished().try_record().1 is Ok,
{
}

/// Outside the action loop no input event touches the interruption flag,
/// and inside it only the interrupt key does; setting it twice is setting it
/// once.
pub proof fn lemma_interrupt_flag(state: GlobalAppState, event: InputEvent)
    ensures
        state.input_state != AppInputState::ExecutingAction ==> state.after_event(event) == state,
        state.after_event(event).input_state == state.input_state,
        state.after_event(event).after_event(event) == state.after_event(event),
        state.input_state == AppInputState::ExecutingAction ==> state.after_event(
            InputEvent::KeyPress { interrupt: true },
        ).action_interrupted,
{
}

} // verus!
