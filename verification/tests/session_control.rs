use metis_agent::recording::{CaptureLabel, CaptureRequest, InputEvent};
use metis_agent::session::{AppInputState, GlobalAppState, SessionContext, SessionError};

#[test]
fn process_starts_idle() {
    let state = GlobalAppState::default();
    assert_eq!(state.input_state, AppInputState::Idle);
    assert!(!state.action_interrupted);
    let ctx = SessionContext::new();
    assert_eq!(ctx.app_state(), state);
    assert_eq!(ctx.mode(), AppInputState::Idle);
    assert!(!ctx.recording().is_active());
    assert_eq!(SessionContext::default().mode(), AppInputState::Idle);
}

#[test]
fn recording_starts_only_from_idle() {
    let mut ctx = SessionContext::new();
    assert_eq!(ctx.start_recording(), Ok(()));
    assert_eq!(ctx.mode(), AppInputState::Recording);
    assert_eq!(
        ctx.start_recording(),
        Err(SessionError::AlreadyActive(AppInputState::Recording))
    );
    assert_eq!(ctx.start_act(), Err(SessionError::AlreadyActive(AppInputState::Recording)));
    assert_eq!(ctx.mode(), AppInputState::Recording);
}

#[test]
fn action_loop_starts_only_from_idle() {
    let mut ctx = SessionContext::new();
    ctx.start_act().unwrap();
    ctx.dispatch_event(InputEvent::KeyPress { interrupt: true }, 0);
    assert!(ctx.is_interrupted());
    ctx.finish_act();
    assert_eq!(ctx.start_act(), Ok(()));
    assert_eq!(ctx.mode(), AppInputState::ExecutingAction);
    assert!(!ctx.is_interrupted());
    assert_eq!(
        ctx.start_recording(),
        Err(SessionError::AlreadyActive(AppInputState::ExecutingAction))
    );
    assert_eq!(ctx.start_act(), Err(SessionError::AlreadyActive(AppInputState::ExecutingAction)));
    assert_eq!(ctx.mode(), AppInputState::ExecutingAction);
    ctx.finish_act();
    assert_eq!(ctx.mode(), AppInputState::Idle);
    assert_eq!(ctx.start_act(), Ok(()));
}

#[test]
fn stop_recording_twice_leaves_idle() {
    let mut ctx = SessionContext::new();
    ctx.start_recording().unwrap();
    ctx.open_session("base".to_string(), "action_0".to_string());
    assert_eq!(ctx.stop_recording(), Some("base".to_string()));
    assert_eq!(ctx.mode(), AppInputState::Idle);
    assert!(!ctx.recording().is_active());
    assert_eq!(ctx.stop_recording(), None);
    assert_eq!(ctx.mode(), AppInputState::Idle);
    assert!(!ctx.recording().is_active());
}

#[test]
fn stop_recording_forces_idle_from_any_mode() {
    let mut ctx = SessionContext::new();
    assert_eq!(ctx.stop_recording(), None);
    ctx.start_act().unwrap();
    assert_eq!(ctx.stop_recording(), None);
    assert_eq!(ctx.mode(), AppInputState::Idle);
}

#[test]
fn verify_needs_an_active_recording() {
    let mut ctx = SessionContext::new();
    assert_eq!(ctx.verify_recording(), Err(SessionError::NotRecording));
    ctx.start_recording().unwrap();
    assert_eq!(ctx.verify_recording(), Err(SessionError::Inactive));
    ctx.open_session("base".to_string(), "action_0".to_string());
    ctx.update_pointer(7, 8);
    assert_eq!(
        ctx.verify_recording(),
        Ok(Some(CaptureRequest { label: CaptureLabel::Init, pointer: Some((7, 8)) }))
    );
    assert!(ctx.recording().is_verified());
    assert_eq!(ctx.verify_recording(), Ok(None));
    assert!(ctx.recording().is_verified());
}

#[test]
fn events_are_routed_by_mode() {
    let mut ctx = SessionContext::new();
    let escape = InputEvent::KeyPress { interrupt: true };
    assert_eq!(ctx.dispatch_event(escape, 0), None);
    assert_eq!(ctx.dispatch_event(InputEvent::ButtonPress, 0), None);
    assert!(!ctx.is_interrupted());

    ctx.start_recording().unwrap();
    ctx.open_session("base".to_string(), "action_0".to_string());
    ctx.verify_recording().unwrap();
    let ticket = ctx.dispatch_event(InputEvent::ButtonPress, 50).unwrap();
    assert_eq!(ticket.label, CaptureLabel::Press);
    let key = ctx.dispatch_event(escape, 60).unwrap();
    assert_eq!(key.label, CaptureLabel::KeyPress);
    assert!(!ctx.is_interrupted());
    ctx.stop_recording();

    ctx.start_act().unwrap();
    assert_eq!(ctx.dispatch_event(InputEvent::ButtonPress, 70), None);
    assert_eq!(ctx.dispatch_event(InputEvent::KeyPress { interrupt: false }, 80), None);
    assert!(!ctx.is_interrupted());
    assert_eq!(ctx.dispatch_event(escape, 90), None);
    assert!(ctx.is_interrupted());
    assert_eq!(ctx.dispatch_event(escape, 95), None);
    assert!(ctx.is_interrupted());
    ctx.finish_act();
    assert!(!ctx.is_interrupted());
}

#[test]
fn rename_is_checked_before_the_index_is_touched() {
    let mut ctx = SessionContext::new();
    assert_eq!(ctx.update_current_action_name("   "), Err(SessionError::EmptyName));
    assert_eq!(ctx.update_current_action_name(""), Err(SessionError::EmptyName));
    assert_eq!(ctx.update_current_action_name("default_7"), Err(SessionError::ReservedName));
    assert_eq!(ctx.update_current_action_name("open mail"), Err(SessionError::NotRecording));
    ctx.start_recording().unwrap();
    assert_eq!(ctx.update_current_action_name("open mail"), Err(SessionError::Inactive));
    ctx.set_base_folder("base".to_string());
    ctx.update_pointer(0, 0);
    ctx.open_session("base".to_string(), "action_3".to_string());
    assert_eq!(
        ctx.update_current_action_name("open mail"),
        Ok(("base".to_string(), "action_3".to_string()))
    );
    assert_eq!(
        ctx.update_current_action_name(" default_7"),
        Ok(("base".to_string(), "action_3".to_string()))
    );
}

#[test]
fn refusals_have_their_words() {
    assert_eq!(
        SessionError::AlreadyActive(AppInputState::Recording).message(),
        "A recording is already active."
    );
    assert_eq!(
        SessionError::AlreadyActive(AppInputState::ExecutingAction).message(),
        "An action is being executed."
    );
    assert_eq!(SessionError::NotRecording.message(), "Not in Recording state.");
    assert_eq!(SessionError::Inactive.message(), "Recording is not active.");
    assert_eq!(SessionError::FolderMissing.message(), "The session folder is not set.");
    assert_eq!(SessionError::EmptyName.message(), "Action name cannot be empty.");
    assert_eq!(SessionError::ReservedName.message(), "Action name cannot start with 'default_'.");
}

#[test]
fn tickets_fire_through_the_context() {
    let mut ctx = SessionContext::new();
    ctx.start_recording().unwrap();
    ctx.open_session("base".to_string(), "action_0".to_string());
    ctx.verify_recording().unwrap();
    assert!(ctx.update_pointer(3, 4));
    let ticket = ctx.dispatch_event(InputEvent::Wheel, 10).unwrap();
    assert_eq!(ctx.fire(ticket, 500), None);
    assert_eq!(
        ctx.fire(ticket, 1010),
        Some(CaptureRequest { label: CaptureLabel::Scroll, pointer: Some((3, 4)) })
    );
    assert_eq!(ctx.fire(ticket, 1011), None);
    ctx.stop_recording();
    assert!(!ctx.update_pointer(5, 6));
    assert_eq!(ctx.recording().pointer_location(), Some((3, 4)));
}
