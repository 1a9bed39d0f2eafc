//! The recording session and its capture scheduler: which input events ask
//! for a screenshot, when it is due, and whether a ticket may still fire.
//!
//! Time is a count of milliseconds handed in by the caller. The scheduler
//! never waits: it issues tickets, and is asked again when a ticket's timer
//! has run out.

use std::collections::HashSet;
use vstd::prelude::*;

verus! {

broadcast use vstd::std_specs::hash::group_hash_axioms;

/// Key presses older than this many milliseconds leave the burst window.
pub const KEY_WINDOW_MS: u64 = 2000;

/// More presses than this inside the window count as rapid typing.
pub const RAPID_THRESHOLD: usize = 3;

/// Delay of a capture after a button or wheel event.
pub const CLICK_DELAY_MS: u64 = 1000;

/// Delay of a capture after a key press while typing is sparse.
pub const KEY_DELAY_MS: u64 = 1000;

/// Silence that ends a burst of rapid typing.
pub const IDLE_DELAY_MS: u64 = 1000;

/// The two families of pending captures.
#[derive(Clone, Copy, Debug, PartialEq, Eq, Structural)]
pub enum CaptureCategory {
    Click,
    Key,
}

/// What a capture is labelled with.
#[derive(Clone, Copy, Debug, PartialEq, Eq, Structural)]
pub enum CaptureLabel {
    Init,
    Press,
    Release,
    Scroll,
    KeyPress,
    KeyboardIdle,
}

/// The word that stands for a label in the name of a capture's file. None
/// holds the character that separates the parts of such a name.
pub open spec fn label_text(label: CaptureLabel) -> Seq<char> {
    match label {
        CaptureLabel::Init => "Init"@,
        CaptureLabel::Press => "press"@,
        CaptureLabel::Release => "release"@,
        CaptureLabel::Scroll => "scroll"@,
        CaptureLabel::KeyPress => "keypress"@,
        CaptureLabel::KeyboardIdle => "idle-detected"@,
    }
}

/// The word that stands for `label` in the name of a capture's file.
pub fn label_name(label: CaptureLabel) -> (r: &'static str)
    ensures
        r@ == label_text(label),
{
    match label {
        CaptureLabel::Init => "Init",
        CaptureLabel::Press => "press",
        CaptureLabel::Release => "release",
        CaptureLabel::Scroll => "scroll",
        CaptureLabel::KeyPress => "keypress",
        CaptureLabel::KeyboardIdle => "idle-detected",
    }
}

/// A raw input event, reduced to what the control core tells apart.
#[derive(Clone, Copy, Debug, PartialEq, Eq, Structural)]
pub enum InputEvent {
    ButtonPress,
    ButtonRelease,
    Wheel,
    KeyPress { interrupt: bool },
    Other,
}

/// A pending, cancellable request to capture the screen once `due_time` has
/// come. A ticket labelled `KeyboardIdle` captures only if typing has been
/// silent since.
#[derive(Clone, Copy, Debug, PartialEq, Eq, Structural)]
pub struct ScheduledCapture {
    pub id: u64,
    pub category: CaptureCategory,
    pub label: CaptureLabel,
    pub due_time: u64,
}

/// What is handed to the capture pipeline when a ticket fires.
#[derive(Clone, Copy, Debug, PartialEq, Eq)]
pub struct CaptureRequest {
    pub label: CaptureLabel,
    pub pointer: Option<(i32, i32)>,
}

/// A summary of the session for display.
#[derive(Clone, Copy, Debug, PartialEq, Eq, Structural)]
pub struct RecordingStatus {
    pub active: bool,
    pub verified: bool,
    pub pending_click_screenshots: usize,
    pub pending_key_screenshots: usize,
    pub rapid_typing_detected: bool,
}

/// Whether a press at `t` still lies in the burst window at `now`.
pub open spec fn in_window(t: u64, now: u64) -> bool {
    t > now - KEY_WINDOW_MS
}

/// The presses of `s` that still lie in the burst window at `now`.
pub open spec fn recent_presses(s: Seq<u64>, now: u64) -> Seq<u64> {
    s.filter(|t: u64| in_window(t, now))
}

/// The time `delay` milliseconds after `now`, held at the largest value.
pub open spec fn due_after(now: u64, delay: u64) -> u64 {
    if now + delay > u64::MAX {
        u64::MAX
    } else {
        (now + delay) as u64
    }
}

/// The mathematical value of a [`RecordingState`].
pub ghost struct RecordingModel {
    pub active: bool,
    pub verified: bool,
    pub base_folder: Option<Seq<char>>,
    pub action_folder: Option<Seq<char>>,
    pub pointer: Option<(i32, i32)>,
    pub last_press: Option<u64>,
    pub button_down: bool,
    pub pending_click: Set<u64>,
    pub pending_key: Set<u64>,
    pub key_presses: Seq<u64>,
    pub rapid: bool,
    pub last_key: Option<u64>,
    pub last_id: u64,
}

impl RecordingModel {
    /// A session that has not started: inactive, nothing tracked or pending,
    /// no id handed out.
    pub open spec fn initial() -> RecordingModel {
        RecordingModel {
            active: false,
            verified: false,
            base_folder: None,
            action_folder: None,
            pointer: None,
            last_press: None,
            button_down: false,
            pending_click: Set::empty(),
            pending_key: Set::empty(),
            key_presses: Seq::empty(),
            rapid: false,
            last_key: None,
            last_id: 0,
        }
    }

    /// No pending id is larger than the last id handed out, so the next id
    /// is new.
    pub open spec fn wf(self) -> bool {
        &&& forall|id: u64| self.pending_click.contains(id) ==> id <= self.last_id
        &&& forall|id: u64| self.pending_key.contains(id) ==> id <= self.last_id
    }

    /// The session takes events and lets tickets fire.
    pub open spec fn accepting(self) -> bool {
        self.active && self.verified
    }

    /// The pending ids of one category.
    pub open spec fn pending(self, category: CaptureCategory) -> Set<u64> {
        match category {
            CaptureCategory::Click => self.pending_click,
            CaptureCategory::Key => self.pending_key,
        }
    }

    /// The session with `id` added to the pending ids of `category`.
    pub open spec fn with_pending(self, category: CaptureCategory, id: u64) -> RecordingModel {
        match category {
            CaptureCategory::Click => RecordingModel {
                pending_click: self.pending_click.insert(id),
                ..self
            },
            CaptureCategory::Key => RecordingModel {
                pending_key: self.pending_key.insert(id),
                ..self
            },
        }
    }

    /// The session with `id` taken out of the pending ids of `category`.
    pub open spec fn without_pending(self, category: CaptureCategory, id: u64) -> RecordingModel {
        match category {
            CaptureCategory::Click => RecordingModel {
                pending_click: self.pending_click.remove(id),
                ..self
            },
            CaptureCategory::Key => RecordingModel {
                pending_key: self.pending_key.remove(id),
                ..self
            },
        }
    }

    /// A ticket can be issued: the session is accepting and an id is left.
    pub open spec fn can_schedule(self) -> bool {
        self.accepting() && self.last_id < u64::MAX
    }

    /// Scheduling a capture: the next id is taken, entered among the pending
    /// ids of its category and handed out on a ticket. Nothing happens when
    /// no ticket can be issued.
    pub open spec fn scheduled(
        self,
        delay: u64,
        label: CaptureLabel,
        category: CaptureCategory,
        now: u64,
    ) -> (RecordingModel, Option<ScheduledCapture>) {
        if self.can_schedule() {
            let id = (self.last_id + 1) as u64;
            (
                RecordingModel { last_id: id, ..self }.with_pending(category, id),
                Some(ScheduledCapture { id, category, label, due_time: due_after(now, delay) }),
            )
        } else {
            (self, None)
        }
    }

    /// A key press at `now`: the burst window slides and takes the press;
    /// typing is rapid when the window then holds more than three presses.
    /// The press that makes typing rapid cancels every pending key capture.
    /// Sparse typing schedules a key capture, rapid typing an idle check.
    pub open spec fn after_key_press(self, now: u64) -> (RecordingModel, Option<ScheduledCapture>) {
        let window = recent_presses(self.key_presses, now).push(now);
        let rapid = window.len() > RAPID_THRESHOLD;
        let noted = RecordingModel {
            key_presses: window,
            last_key: Some(now),
            rapid,
            pending_key: if rapid && !self.rapid {
                Set::empty()
            } else {
                self.pending_key
            },
            ..self
        };
        if rapid {
            noted.scheduled(IDLE_DELAY_MS, CaptureLabel::KeyboardIdle, CaptureCategory::Key, now)
        } else {
            noted.scheduled(KEY_DELAY_MS, CaptureLabel::KeyPress, CaptureCategory::Key, now)
        }
    }

    /// The session after an input event at `now`, and the ticket to arm, if
    /// any. A session that is not active and verified ignores every event.
    pub open spec fn after_event(self, event: InputEvent, now: u64) -> (
        RecordingModel,
        Option<ScheduledCapture>,
    ) {
        if !self.accepting() {
            (self, None)
        } else {
            match event {
                InputEvent::ButtonPress => RecordingModel {
                    last_press: Some(now),
                    button_down: true,
                    ..self
                }.scheduled(CLICK_DELAY_MS, CaptureLabel::Press, CaptureCategory::Click, now),
                InputEvent::ButtonRelease => if self.button_down {
                    RecordingModel { button_down: false, ..self }.scheduled(
                        CLICK_DELAY_MS,
                        CaptureLabel::Release,
                        CaptureCategory::Click,
                        now,
                    )
                } else {
                    (self, None)
                },
                InputEvent::Wheel => self.scheduled(
                    CLICK_DELAY_MS,
                    CaptureLabel::Scroll,
                    CaptureCategory::Click,
                    now,
                ),
                InputEvent::KeyPress { interrupt } => self.after_key_press(now),
                InputEvent::Other => (self, None),
            }
        }
    }

    /// Whether typing has been silent for the idle delay at `now`, while
    /// still marked rapid.
    pub open spec fn idle_at(self, now: u64) -> bool {
        self.rapid && match self.last_key {
            Some(t) => now - t >= IDLE_DELAY_MS,
            None => false,
        }
    }

    /// Whether `ticket` fires at `now`: the session is accepting, the ticket
    /// is due and its id is still pending.
    pub open spec fn may_fire(self, ticket: ScheduledCapture, now: u64) -> bool {
        self.accepting() && now >= ticket.due_time && self.pending(ticket.category).contains(
            ticket.id,
        )
    }

    /// The timer of `ticket` has run out at `now`. A ticket that may not fire
    /// changes nothing. One that fires leaves the pending ids, and asks for
    /// a capture with the pointer location known at that moment; an idle
    /// check does so only when typing has been silent, and then resets the
    /// burst window.
    pub open spec fn fired(self, ticket: ScheduledCapture, now: u64) -> (
        RecordingModel,
        Option<CaptureRequest>,
    ) {
        if !self.may_fire(ticket, now) {
            (self, None)
        } else {
            let taken = self.without_pending(ticket.category, ticket.id);
            let request = CaptureRequest { label: ticket.label, pointer: self.pointer };
            if ticket.label != CaptureLabel::KeyboardIdle {
                (taken, Some(request))
            } else if self.idle_at(now) {
                (RecordingModel { rapid: false, key_presses: Seq::empty(), ..taken }, Some(request))
            } else {
                (taken, None)
            }
        }
    }

    /// The session as a new recording starts in `base_folder`, writing to
    /// `action_folder`: active, not yet verified, nothing tracked or pending.
    pub open spec fn started(self, base_folder: Seq<char>, action_folder: Seq<char>) -> RecordingModel {
        RecordingModel {
            active: true,
            verified: false,
            base_folder: Some(base_folder),
            action_folder: Some(action_folder),
            pointer: None,
            last_press: None,
            button_down: false,
            pending_click: Set::empty(),
            pending_key: Set::empty(),
            key_presses: Seq::empty(),
            rapid: false,
            last_key: None,
            last_id: self.last_id,
        }
    }

    /// The session after the recording has stopped: nothing is pending and
    /// no event is taken; the folders are kept.
    pub open spec fn stopped(self) -> RecordingModel {
        RecordingModel {
            active: false,
            verified: false,
            pending_click: Set::empty(),
            pending_key: Set::empty(),
            ..self
        }
    }
}

/// The state of the recording session, with the scheduler's bookkeeping.
pub struct RecordingState {
    active: bool,
    verified: bool,
    base_folder: Option<String>,
    current_action_folder: Option<String>,
    mouse_location: Option<(i32, i32)>,
    last_mouse_press: Option<u64>,
    mouse_button_pressed: bool,
    pending_click_screenshots: HashSet<u64>,
    pending_key_screenshots: HashSet<u64>,
    key_presses: Vec<u64>,
    rapid_typing_detected: bool,
    last_key_activity: Option<u64>,
    last_screenshot_id: u64,
}

/// The view of an optional string.
pub open spec fn text_view(s: Option<String>) -> Option<Seq<char>> {
    match s {
        Some(t) => Some(t@),
        None => None,
    }
}

impl View for RecordingState {
    type V = RecordingModel;

    closed spec fn view(&self) -> RecordingModel {
        RecordingModel {
            active: self.active,
            verified: self.verified,
            base_folder: text_view(self.base_folder),
            action_folder: text_view(self.current_action_folder),
            pointer: self.mouse_location,
            last_press: self.last_mouse_press,
            button_down: self.mouse_button_pressed,
            pending_click: self.pending_click_screenshots@,
            pending_key: self.pending_key_screenshots@,
            key_presses: self.key_presses@,
            rapid: self.rapid_typing_detected,
            last_key: self.last_key_activity,
            last_id: self.last_screenshot_id,
        }
    }
}

fn clone_text(s: &Option<String>) -> (r: Option<String>)
    ensures
        text_view(r) == text_view(*s),
{
    match s {
        Some(t) => Some(t.clone()),
        None => None,
    }
}

/// The presses of `v` that still lie in the burst window at `now`.
fn prune_presses(v: &Vec<u64>, now: u64) -> (r: Vec<u64>)
    ensures
        r@ == recent_presses(v@, now),
{
    let mut out: Vec<u64> = Vec::new();
    let mut i: usize = 0;
    assert(v@.take(0).filter(|t: u64| in_window(t, now)) =~= Seq::<u64>::empty()) by {
        reveal(Seq::filter);
    }
    while i < v.len()
        invariant
            i <= v.len(),
            out@ == v@.take(i as int).filter(|t: u64| in_window(t, now)),
        decreases v.len() - i,
    {
        let t: u64 = v[i];
        proof {
            reveal(Seq::filter);
            assert(v@.take(i + 1).drop_last() =~= v@.take(i as int));
            assert(v@.take(i + 1).last() == t);
        }
        if now < KEY_WINDOW_MS || t > now - KEY_WINDOW_MS {
            out.push(t);
        }
        i += 1;
    }
    assert(v@.take(v.len() as int) =~= v@);
    out
}

impl RecordingState {
    /// A session that has not started: inactive, with nothing pending.
    pub fn new() -> (r: Self)
        ensures
            r@ == RecordingModel::initial(),
            r@.wf(),
    {
        RecordingState {
            active: false,
            verified: false,
            base_folder: None,
            current_action_folder: None,
            mouse_location: None,
            last_mouse_press: None,
            mouse_button_pressed: false,
            pending_click_screenshots: HashSet::new(),
            pending_key_screenshots: HashSet::new(),
            key_presses: Vec::new(),
            rapid_typing_detected: false,
            last_key_activity: None,
            last_screenshot_id: 0,
        }
    }

    /// Starts a new recording in `base_folder`, writing to `action_folder`.
    pub fn start_session(&mut self, base_folder: String, action_folder: String)
        ensures
            final(self)@ == old(self)@.started(base_folder@, action_folder@),
            old(self)@.wf() ==> final(self)@.wf(),
    {
        self.active = true;
        self.verified = false;
        self.base_folder = Some(base_folder);
        self.current_action_folder = Some(action_folder);
        self.mouse_location = None;
        self.last_mouse_press = None;
        self.mouse_button_pressed = false;
        self.key_presses = Vec::new();
        self.pending_click_screenshots.clear();
        self.pending_key_screenshots.clear();
        self.rapid_typing_detected = false;
        self.last_key_activity = None;
    }

    /// Marks the session verified, so that events ask for captures.
    pub fn mark_verified(&mut self)
        ensures
            final(self)@ == (RecordingModel { verified: true, ..old(self)@ }),
            old(self)@.wf() ==> final(self)@.wf(),
    {
        self.verified = true;
    }

    /// Ends the recording: no event is taken any more and nothing stays
    /// pending.
    pub fn stop_session(&mut self)
        ensures
            final(self)@ == old(self)@.stopped(),
            old(self)@.wf() ==> final(self)@.wf(),
    {
        self.active = false;
        self.verified = false;
        self.pending_click_screenshots.clear();
        self.pending_key_screenshots.clear();
    }

    /// Records the pointer location sampled just now; the last sample wins.
    /// Returns whether the sampler should go on, which is while the session
    /// is active; an inactive session takes no sample.
    pub fn update_pointer(&mut self, x: i32, y: i32) -> (keep_sampling: bool)
        ensures
            keep_sampling == old(self)@.active,
            final(self)@ == if old(self)@.active {
                RecordingModel { pointer: Some((x, y)), ..old(self)@ }
            } else {
                old(self)@
            },
            old(self)@.wf() ==> final(self)@.wf(),
    {
        if self.active {
            self.mouse_location = Some((x, y));
            true
        } else {
            false
        }
    }

    /// Whether a recording is under way.
    pub fn is_active(&self) -> (r: bool)
        ensures
            r == self@.active,
    {
        self.active
    }

    /// Whether the recording was verified.
    pub fn is_verified(&self) -> (r: bool)
        ensures
            r == self@.verified,
    {
        self.verified
    }

    /// Whether the last key press found typing rapid.
    pub fn is_rapid_typing(&self) -> (r: bool)
        ensures
            r == self@.rapid,
    {
        self.rapid_typing_detected
    }

    /// Whether a button press is being tracked.
    pub fn is_button_down(&self) -> (r: bool)
        ensures
            r == self@.button_down,
    {
        self.mouse_button_pressed
    }

    /// The pointer location last sampled.
    pub fn pointer_location(&self) -> (r: Option<(i32, i32)>)
        ensures
            r == self@.pointer,
    {
        self.mouse_location
    }

    /// The folder of the session.
    pub fn base_folder(&self) -> (r: Option<String>)
        ensures
            text_view(r) == self@.base_folder,
    {
        clone_text(&self.base_folder)
    }

    /// The folder of the action being recorded.
    pub fn current_action_folder(&self) -> (r: Option<String>)
        ensures
            text_view(r) == self@.action_folder,
    {
        clone_text(&self.current_action_folder)
    }

    /// Remembers `base_folder` as the folder of the session.
    pub fn set_base_folder(&mut self, base_folder: String)
        ensures
            final(self)@ == (RecordingModel { base_folder: Some(base_folder@), ..old(self)@ }),
            old(self)@.wf() ==> final(self)@.wf(),
    {
        self.base_folder = Some(base_folder);
    }

    /// Whether `id` is pending in `category`.
    pub fn is_pending(&self, category: CaptureCategory, id: u64) -> (r: bool)
        ensures
            r == self@.pending(category).contains(id),
    {
        match category {
            CaptureCategory::Click => self.pending_click_screenshots.contains(&id),
            CaptureCategory::Key => self.pending_key_screenshots.contains(&id),
        }
    }

    /// The number of key presses in the burst window.
    pub fn key_burst_len(&self) -> (r: usize)
        ensures
            r == self@.key_presses.len(),
    {
        self.key_presses.len()
    }

    /// The last id handed out; 0 before the first.
    pub fn last_screenshot_id(&self) -> (r: u64)
        ensures
            r == self@.last_id,
    {
        self.last_screenshot_id
    }
}

impl Default for RecordingState {
    fn default() -> (r: Self)
        ensures
            r@ == RecordingModel::initial(),
            r@.wf(),
    {
        RecordingState::new()
    }
}

/// Whether the session is active and verified.
pub fn is_recording_active_and_verified(state: &RecordingState) -> (r: bool)
    ensures
        r == state@.accepting(),
{
    state.is_active() && state.is_verified()
}

/// Whether a recording is active.
pub fn is_recording_active(state: &RecordingState) -> (r: bool)
    ensures
        r == state@.active,
{
    state.is_active()
}

/// The session's summary for display.
pub fn get_recording_status(state: &RecordingState) -> (r: RecordingStatus)
    ensures
        r.active == state@.active,
        r.verified == state@.verified,
        r.pending_click_screenshots == state@.pending_click.len(),
        r.pending_key_screenshots == state@.pending_key.len(),
        r.rapid_typing_detected == state@.rapid,
{
    RecordingStatus {
        active: state.active,
        verified: state.verified,
        pending_click_screenshots: state.pending_click_screenshots.len(),
        pending_key_screenshots: state.pending_key_screenshots.len(),
        rapid_typing_detected: state.rapid_typing_detected,
    }
}

/// Takes the next ticket id. Ids start at 1 and grow by one.
pub fn get_next_screenshot_id(state: &mut RecordingState) -> (id: u64)
    requires
        old(state)@.last_id < u64::MAX,
    ensures
        id == old(state)@.last_id + 1,
        final(state)@ == (RecordingModel { last_id: id, ..old(state)@ }),
        old(state)@.wf() ==> final(state)@.wf(),
{
    state.last_screenshot_id = state.last_screenshot_id + 1;
    state.last_screenshot_id
}

/// Schedules a capture labelled `label`, due `delay_ms` after `now`.
pub fn schedule_screenshot(
    state: &mut RecordingState,
    delay_ms: u64,
    label: CaptureLabel,
    category: CaptureCategory,
    now: u64,
) -> (r: Option<ScheduledCapture>)
    ensures
        final(state)@ == old(state)@.scheduled(delay_ms, label, category, now).0,
        r == old(state)@.scheduled(delay_ms, label, category, now).1,
        old(state)@.wf() ==> final(state)@.wf(),
{
    if !is_recording_active_and_verified(state) || state.last_screenshot_id == u64::MAX {
        return None;
    }
    let id = get_next_screenshot_id(state);
    match category {
        CaptureCategory::Click => {
            state.pending_click_screenshots.insert(id);
        },
        CaptureCategory::Key => {
            state.pending_key_screenshots.insert(id);
        },
    }
    let due_time: u64 = if now > u64::MAX - delay_ms {
        u64::MAX
    } else {
        now + delay_ms
    };
    Some(ScheduledCapture { id, category, label, due_time })
}

/// Cancels every pending key capture: none of their tickets will fire.
pub fn cancel_pending_key_screenshots(state: &mut RecordingState)
    ensures
        final(state)@ == (RecordingModel { pending_key: Set::empty(), ..old(state)@ }),
        old(state)@.wf() ==> final(state)@.wf(),
{
    state.pending_key_screenshots.clear();
}

/// Feeds one input event, seen at `now`, to the scheduler. Returns the
/// ticket whose timer the caller arms.
pub fn on_input_event(state: &mut RecordingState, event: InputEvent, now: u64) -> (r: Option<
    ScheduledCapture,
>)
    ensures
        final(state)@ == old(state)@.after_event(event, now).0,
        r == old(state)@.after_event(event, now).1,
        old(state)@.wf() ==> final(state)@.wf(),
{
    if !is_recording_active_and_verified(state) {
        return None;
    }
    match event {
        InputEvent::ButtonPress => {
            state.last_mouse_press = Some(now);
            state.mouse_button_pressed = true;
            schedule_screenshot(state, CLICK_DELAY_MS, CaptureLabel::Press, CaptureCategory::Click, now)
        },
        InputEvent::ButtonRelease => {
            let was_pressed = state.mouse_button_pressed;
            state.mouse_button_pressed = false;
            if was_pressed {
                schedule_screenshot(
                    state,
                    CLICK_DELAY_MS,
                    CaptureLabel::Release,
                    CaptureCategory::Click,
                    now,
                )
            } else {
                None
            }
        },
        InputEvent::Wheel => schedule_screenshot(
            state,
            CLICK_DELAY_MS,
            CaptureLabel::Scroll,
            CaptureCategory::Click,
            now,
        ),
        InputEvent::KeyPress { interrupt } => {
            let mut window = prune_presses(&state.key_presses, now);
            window.push(now);
            let rapid = window.len() > RAPID_THRESHOLD;
            let was_rapid = state.rapid_typing_detected;
            state.key_presses = window;
            state.last_key_activity = Some(now);
            state.rapid_typing_detected = rapid;
            if rapid && !was_rapid {
                cancel_pending_key_screenshots(state);
            }
            if rapid {
                schedule_screenshot(
                    state,
                    IDLE_DELAY_MS,
                    CaptureLabel::KeyboardIdle,
                    CaptureCategory::Key,
                    now,
                )
            } else {
                schedule_screenshot(
                    state,
                    KEY_DELAY_MS,
                    CaptureLabel::KeyPress,
                    CaptureCategory::Key,
                    now,
                )
            }
        },
        InputEvent::Other => None,
    }
}

/// The timer of `ticket` has run out at `now`: decides, in one step, whether
/// the capture is taken, and takes the ticket out of the pending ids.
pub fn fire_scheduled(state: &mut RecordingState, ticket: ScheduledCapture, now: u64) -> (r: Option<
    CaptureRequest,
>)
    ensures
        final(state)@ == old(state)@.fired(ticket, now).0,
        r == old(state)@.fired(ticket, now).1,
        old(state)@.wf() ==> final(state)@.wf(),
{
    if !is_recording_active_and_verified(state) || now < ticket.due_time || !state.is_pending(
        ticket.category,
        ticket.id,
    ) {
        return None;
    }
    match ticket.category {
        CaptureCategory::Click => {
            state.pending_click_screenshots.remove(&ticket.id);
        },
        CaptureCategory::Key => {
            state.pending_key_screenshots.remove(&ticket.id);
        },
    }
    let request = CaptureRequest { label: ticket.label, pointer: state.mouse_location };
    match ticket.label {
        CaptureLabel::KeyboardIdle => {
            let idle = state.rapid_typing_detected && match state.last_key_activity {
                Some(t) => now >= t && now - t >= IDLE_DELAY_MS,
                None => false,
            };
            if idle {
                state.rapid_typing_detected = false;
                state.key_presses = Vec::new();
                Some(request)
            } else {
                None
            }
        },
        _ => Some(request),
    }
}

/// One thing that can happen to a recording session.
pub ghost enum SchedulerStep {
    /// A recording starts, with its base folder and its action folder.
    Start(Seq<char>, Seq<char>),
    /// The session is verified.
    Verify,
    /// The recording stops.
    Stop,
    /// The pointer is sampled.
    Pointer(i32, i32),
    /// An input event is seen at the given time.
    Event(InputEvent, u64),
    /// The timer of a ticket runs out at the given time.
    Fire(ScheduledCapture, u64),
    /// Every pending key capture is cancelled.
    CancelKeys,
}

impl RecordingModel {
    /// The session after one step.
    pub open spec fn step(self, s: SchedulerStep) -> RecordingModel {
        match s {
            SchedulerStep::Start(base, action) => self.started(base, action),
            SchedulerStep::Verify => RecordingModel { verified: true, ..self },
            SchedulerStep::Stop => self.stopped(),
            SchedulerStep::Pointer(x, y) => if self.active {
                RecordingModel { pointer: Some((x, y)), ..self }
            } else {
                self
            },
            SchedulerStep::Event(event, now) => self.after_event(event, now).0,
            SchedulerStep::Fire(ticket, now) => self.fired(ticket, now).0,
            SchedulerStep::CancelKeys => RecordingModel { pending_key: Set::empty(), ..self },
        }
    }

    /// The session after a sequence of steps.
    pub open spec fn run(self, steps: Seq<SchedulerStep>) -> RecordingModel
        decreases steps.len(),
    {
        if steps.len() == 0 {
            self
        } else {
            self.run(steps.drop_last()).step(steps.last())
        }
    }

    /// The ticket was issued at some time and is pending no more: it has
    /// fired or was cancelled.
    pub open spec fn retired(self, ticket: ScheduledCapture) -> bool {
        ticket.id <= self.last_id && !self.pending(ticket.category).contains(ticket.id)
    }
}

/// A ticket that an event issues is new and pending: its id is one above
/// every id issued before, it belonged to no pending set, and it now belongs
/// to the pending ids of its category.
pub proof fn lemma_issued_ticket_is_pending(session: RecordingModel, event: InputEvent, now: u64)
    requires
        session.wf(),
        session.after_event(event, now).1 is Some,
    ensures
        ({
            let after = session.after_event(event, now);
            let ticket = after.1->0;
            &&& ticket.id == session.last_id + 1
            &&& after.0.last_id == ticket.id
            &&& !session.pending_click.contains(ticket.id)
            &&& !session.pending_key.contains(ticket.id)
            &&& after.0.pending(ticket.category).contains(ticket.id)
            &&& ticket.due_time >= now
        }),
{
}

/// A pending ticket that is not an idle check fires once it is due, as long
/// as the session is active and verified: the capture carries the ticket's
/// label and the pointer location of that moment.
pub proof fn lemma_pending_ticket_fires_when_due(
    session: RecordingModel,
    ticket: ScheduledCapture,
    now: u64,
)
    requires
        session.accepting(),
        session.pending(ticket.category).contains(ticket.id),
        ticket.label != CaptureLabel::KeyboardIdle,
        now >= ticket.due_time,
    ensures
        session.fired(ticket, now).1 == Some(
            CaptureRequest { label: ticket.label, pointer: session.pointer },
        ),
        !session.fired(ticket, now).0.pending(ticket.category).contains(ticket.id),
{
}

/// A ticket whose id is not pending does not fire: no capture is asked for
/// and the session stays as it is.
pub proof fn lemma_cancelled_ticket_never_fires(
    session: RecordingModel,
    ticket: ScheduledCapture,
    now: u64,
)
    requires
        !session.pending(ticket.category).contains(ticket.id),
    ensures
        session.fired(ticket, now) == (session, None::<CaptureRequest>),
{
}

/// Every step keeps the session well formed, and a retired ticket stays
/// retired: ids only grow, so no later ticket brings its id back.
pub proof fn lemma_step_keeps_retired(
    session: RecordingModel,
    ticket: ScheduledCapture,
    s: SchedulerStep,
)
    requires
        session.wf(),
    ensures
        session.step(s).wf(),
        session.last_id <= session.step(s).last_id,
        session.retired(ticket) ==> session.step(s).retired(ticket),
{
}

/// Once a ticket is retired, whatever happens to the session afterwards, its
/// timer running out asks for no capture.
pub proof fn lemma_retired_ticket_stays_dead(
    session: RecordingModel,
    ticket: ScheduledCapture,
    steps: Seq<SchedulerStep>,
    now: u64,
)
    requires
        session.wf(),
        session.retired(ticket),
    ensures
        session.run(steps).wf(),
        session.run(steps).retired(ticket),
        session.run(steps).fired(ticket, now) == (session.run(steps), None::<CaptureRequest>),
    decreases steps.len(),
{
    if steps.len() > 0 {
        lemma_retired_ticket_stays_dead(session, ticket, steps.drop_last(), now);
        lemma_step_keeps_retired(session.run(steps.drop_last()), ticket, steps.last());
    }
}

/// A ticket fires at most once: after it has fired, it is retired.
pub proof fn lemma_ticket_fires_at_most_once(
    session: RecordingModel,
    ticket: ScheduledCapture,
    now: u64,
    later: u64,
)
    requires
        session.wf(),
        session.fired(ticket, now).1 is Some,
    ensures
        session.fired(ticket, now).0.retired(ticket),
        session.fired(ticket, now).0.fired(ticket, later).1 is None,
{
}

/// Cancelling the pending key captures retires every key ticket issued so
/// far.
pub proof fn lemma_cancel_retires_key_tickets(session: RecordingModel, ticket: ScheduledCapture)
    requires
        ticket.category == CaptureCategory::Key,
        ticket.id <= session.last_id,
    ensures
        session.step(SchedulerStep::CancelKeys).retired(ticket),
{
}

/// A key press while typing is sparse asks for exactly one key capture, due
/// one second after the press. Left alone, its ticket does not fire before
/// that time, fires once it has come, and does not fire a second time.
pub proof fn lemma_sparse_key_press_fires_once(
    session: RecordingModel,
    press: u64,
    early: u64,
    now: u64,
    later: u64,
)
    requires
        session.wf(),
        session.can_schedule(),
        recent_presses(session.key_presses, press).len() < RAPID_THRESHOLD,
        press + KEY_DELAY_MS <= u64::MAX,
        early < press + KEY_DELAY_MS <= now,
    ensures
        ({
            let after = session.after_event(InputEvent::KeyPress { interrupt: false }, press);
            let ticket = ScheduledCapture {
                id: (session.last_id + 1) as u64,
                category: CaptureCategory::Key,
                label: CaptureLabel::KeyPress,
                due_time: (press + KEY_DELAY_MS) as u64,
            };
            &&& after.1 == Some(ticket)
            &&& !after.0.rapid
            &&& after.0.fired(ticket, early) == (after.0, None::<CaptureRequest>)
            &&& after.0.fired(ticket, now).1 == Some(
                CaptureRequest { label: CaptureLabel::KeyPress, pointer: session.pointer },
            )
            &&& after.0.fired(ticket, now).0.fired(ticket, later).1 is None
        }),
{
}

/// The key press that makes typing rapid cancels the key captures that were
/// pending: every key ticket issued before it is retired, and the only key
/// ticket pending afterwards is the idle check just issued.
pub proof fn lemma_rapid_press_cancels_pending(
    session: RecordingModel,
    earlier: ScheduledCapture,
    press: u64,
)
    requires
        session.wf(),
        session.accepting(),
        !session.rapid,
        recent_presses(session.key_presses, press).len() >= RAPID_THRESHOLD,
        earlier.category == CaptureCategory::Key,
        earlier.id <= session.last_id,
    ensures
        ({
            let after = session.after_event(InputEvent::KeyPress { interrupt: false }, press);
            &&& after.0.rapid
            &&& after.0.retired(earlier)
            &&& after.1 is Some ==> after.1->0.label == CaptureLabel::KeyboardIdle
                && after.0.pending_key == Set::<u64>::empty().insert(after.1->0.id)
            &&& after.1 is None ==> after.0.pending_key == Set::<u64>::empty()
        }),
{
    let after = session.after_event(InputEvent::KeyPress { interrupt: false }, press);
    if after.1 is Some {
        assert(after.0.pending_key =~= Set::<u64>::empty().insert(after.1->0.id));
    } else {
        assert(after.0.pending_key =~= Set::<u64>::empty());
    }
}

/// An idle check that finds a key press less than a second old asks for no
/// capture: the burst is still going on.
pub proof fn lemma_superseded_idle_check_is_silent(
    session: RecordingModel,
    ticket: ScheduledCapture,
    last_press: u64,
    now: u64,
)
    requires
        ticket.label == CaptureLabel::KeyboardIdle,
        session.last_key == Some(last_press),
        now - last_press < IDLE_DELAY_MS,
    ensures
        session.fired(ticket, now).1 is None,
{
}

/// The idle check that captures ends the burst: typing is no longer rapid,
/// the burst window is empty, and any other idle check whose timer runs out
/// before the next key press asks for no capture.
pub proof fn lemma_idle_capture_ends_burst(
    session: RecordingModel,
    ticket: ScheduledCapture,
    other: ScheduledCapture,
    now: u64,
    later: u64,
)
    requires
        ticket.label == CaptureLabel::KeyboardIdle,
        other.label == CaptureLabel::KeyboardIdle,
        session.fired(ticket, now).1 is Some,
    ensures
        !session.fired(ticket, now).0.rapid,
        session.fired(ticket, now).0.key_presses.len() == 0,
        session.fired(ticket, now).0.fired(other, later).1 is None,
{
}

/// When every press of `s` lies in the burst window, the window keeps them
/// all.
pub proof fn lemma_recent_keeps_all(s: Seq<u64>, now: u64)
    requires
        forall|i: int| 0 <= i < s.len() ==> in_window(#[trigger] s[i], now),
    ensures
        recent_presses(s, now) == s,
    decreases s.len(),
{
    reveal(Seq::filter);
    if s.len() > 0 {
        lemma_recent_keeps_all(s.drop_last(), now);
        assert(s.drop_last().push(s.last()) =~= s);
    }
}

/// A key ticket as the scheduler issues it.
pub open spec fn key_ticket(id: int, label: CaptureLabel, press: u64) -> ScheduledCapture {
    ScheduledCapture {
        id: id as u64,
        category: CaptureCategory::Key,
        label,
        due_time: due_after(press, KEY_DELAY_MS),
    }
}

/// The capture that an idle check asks for.
pub open spec fn idle_capture(pointer: Option<(i32, i32)>) -> CaptureRequest {
    CaptureRequest { label: CaptureLabel::KeyboardIdle, pointer }
}

/// A burst of five key presses is captured once. The session starts with an
/// empty burst window and no pending key capture. The presses come within
/// a second and a half, the fourth before the first capture is due and the
/// fifth before the idle check of the fourth is due. Then the fourth press
/// retires the three tickets of sparse typing, and of the two idle checks
/// exactly one takes the capture of the burst: that of the fifth press,
/// unless the last two presses fell into the same millisecond.
pub proof fn lemma_burst_of_five_captures_once(
    session: RecordingModel,
    t1: u64,
    t2: u64,
    t3: u64,
    t4: u64,
    t5: u64,
)
    requires
        session.wf(),
        session.accepting(),
        !session.rapid,
        session.key_presses.len() == 0,
        session.pending_key == Set::<u64>::empty(),
        session.last_id + 5 <= u64::MAX,
        t1 <= t2 <= t3 <= t4 <= t5,
        t5 - t1 <= 1500,
        t4 < t1 + KEY_DELAY_MS,
        t5 < t4 + IDLE_DELAY_MS,
        t5 + IDLE_DELAY_MS <= u64::MAX,
    ensures
        ({
            let key = InputEvent::KeyPress { interrupt: false };
            let s1 = session.after_event(key, t1);
            let s2 = s1.0.after_event(key, t2);
            let s3 = s2.0.after_event(key, t3);
            let s4 = s3.0.after_event(key, t4);
            let s5 = s4.0.after_event(key, t5);
            let first = key_ticket(session.last_id + 1, CaptureLabel::KeyPress, t1);
            let second = key_ticket(session.last_id + 2, CaptureLabel::KeyPress, t2);
            let third = key_ticket(session.last_id + 3, CaptureLabel::KeyPress, t3);
            let fourth = key_ticket(session.last_id + 4, CaptureLabel::KeyboardIdle, t4);
            let fifth = key_ticket(session.last_id + 5, CaptureLabel::KeyboardIdle, t5);
            let s6 = s5.0.fired(fourth, fourth.due_time);
            let s7 = s6.0.fired(fifth, fifth.due_time);
            &&& s1.1 == Some(first)
            &&& s2.1 == Some(second)
            &&& s3.1 == Some(third)
            &&& s4.1 == Some(fourth)
            &&& s5.1 == Some(fifth)
            &&& s4.0.wf()
            &&& s4.0.retired(first)
            &&& s4.0.retired(second)
            &&& s4.0.retired(third)
            &&& s6.1 is Some != s7.1 is Some
            &&& t4 < t5 ==> s6.1 is None
            &&& s6.1 is Some ==> s6.1 == Some(idle_capture(session.pointer))
            &&& s7.1 is Some ==> s7.1 == Some(idle_capture(session.pointer))
            &&& s7.0.pending_key == Set::<u64>::empty()
            &&& !s7.0.rapid
        }),
{
    let key = InputEvent::KeyPress { interrupt: false };
    let s1 = session.after_event(key, t1);
    assert(recent_presses(session.key_presses, t1) =~= Seq::<u64>::empty()) by {
        lemma_recent_keeps_all(session.key_presses, t1);
    }
    assert(s1.0.key_presses =~= seq![t1]);
    let s2 = s1.0.after_event(key, t2);
    lemma_recent_keeps_all(s1.0.key_presses, t2);
    assert(s2.0.key_presses =~= seq![t1, t2]);
    let s3 = s2.0.after_event(key, t3);
    lemma_recent_keeps_all(s2.0.key_presses, t3);
    assert(s3.0.key_presses =~= seq![t1, t2, t3]);
    let s4 = s3.0.after_event(key, t4);
    lemma_recent_keeps_all(s3.0.key_presses, t4);
    assert(s4.0.key_presses =~= seq![t1, t2, t3, t4]);
    assert(s4.0.rapid);
    let s5 = s4.0.after_event(key, t5);
    lemma_recent_keeps_all(s4.0.key_presses, t5);
    assert(s5.0.key_presses =~= seq![t1, t2, t3, t4, t5]);
    let fourth = key_ticket(session.last_id + 4, CaptureLabel::KeyboardIdle, t4);
    let fifth = key_ticket(session.last_id + 5, CaptureLabel::KeyboardIdle, t5);
    let s6 = s5.0.fired(fourth, fourth.due_time);
    let s7 = s6.0.fired(fifth, fifth.due_time);
    assert(s7.0.pending_key =~= Set::<u64>::empty());
}

} // verus!
