use metis_agent::recording::{
    cancel_pending_key_screenshots, fire_scheduled, get_next_screenshot_id, get_recording_status,
    is_recording_active, is_recording_active_and_verified, label_name, on_input_event,
    schedule_screenshot,
    CaptureCategory, CaptureLabel, CaptureRequest, InputEvent, RecordingState, ScheduledCapture,
};

fn ready() -> RecordingState {
    let mut state = RecordingState::new();
    state.start_session("base".to_string(), "action_0".to_string());
    state.mark_verified();
    state
}

const KEY: InputEvent = InputEvent::KeyPress { interrupt: false };

#[test]
fn new_session_is_inactive() {
    let state = RecordingState::new();
    assert!(!state.is_active());
    assert!(!state.is_verified());
    assert!(!is_recording_active(&state));
    assert!(!is_recording_active_and_verified(&state));
    assert_eq!(state.base_folder(), None);
    assert_eq!(state.last_screenshot_id(), 0);
    let status = get_recording_status(&state);
    assert!(!status.active && !status.verified && !status.rapid_typing_detected);
    assert_eq!(status.pending_click_screenshots, 0);
    assert_eq!(status.pending_key_screenshots, 0);
    let by_default = RecordingState::default();
    assert!(!by_default.is_active());
}

#[test]
fn events_are_ignored_until_verified() {
    let mut state = RecordingState::new();
    assert_eq!(on_input_event(&mut state, InputEvent::ButtonPress, 10), None);
    state.start_session("base".to_string(), "action_0".to_string());
    assert!(is_recording_active(&state));
    assert!(!is_recording_active_and_verified(&state));
    assert_eq!(on_input_event(&mut state, InputEvent::ButtonPress, 10), None);
    assert_eq!(on_input_event(&mut state, KEY, 10), None);
    assert!(!state.is_button_down());
    assert_eq!(state.key_burst_len(), 0);
    assert_eq!(schedule_screenshot(&mut state, 5, CaptureLabel::Press, CaptureCategory::Click, 1), None);
    state.mark_verified();
    assert!(is_recording_active_and_verified(&state));
    assert!(on_input_event(&mut state, InputEvent::ButtonPress, 10).is_some());
}

#[test]
fn ids_grow_by_one() {
    let mut state = ready();
    assert_eq!(get_next_screenshot_id(&mut state), 1);
    assert_eq!(get_next_screenshot_id(&mut state), 2);
    let ticket = schedule_screenshot(&mut state, 250, CaptureLabel::Scroll, CaptureCategory::Click, 1000);
    assert_eq!(
        ticket,
        Some(ScheduledCapture {
            id: 3,
            category: CaptureCategory::Click,
            label: CaptureLabel::Scroll,
            due_time: 1250
        })
    );
    assert!(state.is_pending(CaptureCategory::Click, 3));
    assert!(!state.is_pending(CaptureCategory::Key, 3));
}

#[test]
fn due_time_is_held_at_the_largest_value() {
    let mut state = ready();
    let ticket = schedule_screenshot(&mut state, 1000, CaptureLabel::Press, CaptureCategory::Click, u64::MAX - 5);
    assert_eq!(ticket.map(|t| t.due_time), Some(u64::MAX));
}

#[test]
fn press_and_release_each_ask_for_a_capture() {
    let mut state = ready();
    state.update_pointer(4, 9);
    let press = on_input_event(&mut state, InputEvent::ButtonPress, 100).unwrap();
    assert_eq!(press.label, CaptureLabel::Press);
    assert_eq!(press.category, CaptureCategory::Click);
    assert_eq!(press.due_time, 1100);
    assert!(state.is_button_down());
    let release = on_input_event(&mut state, InputEvent::ButtonRelease, 300).unwrap();
    assert_eq!(release.label, CaptureLabel::Release);
    assert_eq!(release.due_time, 1300);
    assert!(!state.is_button_down());
    state.update_pointer(5, 10);
    assert_eq!(
        fire_scheduled(&mut state, press, 1100),
        Some(CaptureRequest { label: CaptureLabel::Press, pointer: Some((5, 10)) })
    );
    assert_eq!(
        fire_scheduled(&mut state, release, 1300),
        Some(CaptureRequest { label: CaptureLabel::Release, pointer: Some((5, 10)) })
    );
    assert_eq!(get_recording_status(&state).pending_click_screenshots, 0);
}

#[test]
fn release_without_press_asks_for_nothing() {
    let mut state = ready();
    assert_eq!(on_input_event(&mut state, InputEvent::ButtonRelease, 300), None);
    assert_eq!(on_input_event(&mut state, InputEvent::Other, 300), None);
    assert_eq!(state.last_screenshot_id(), 0);
}

#[test]
fn wheel_asks_for_a_scroll_capture_each_time() {
    let mut state = ready();
    let a = on_input_event(&mut state, InputEvent::Wheel, 0).unwrap();
    let b = on_input_event(&mut state, InputEvent::Wheel, 10).unwrap();
    assert_eq!(a.label, CaptureLabel::Scroll);
    assert_eq!(b.label, CaptureLabel::Scroll);
    assert_eq!(get_recording_status(&state).pending_click_screenshots, 2);
    assert!(fire_scheduled(&mut state, a, 1000).is_some());
    assert!(fire_scheduled(&mut state, b, 1010).is_some());
}

#[test]
fn single_key_press_fires_once_after_a_second() {
    let mut state = ready();
    let ticket = on_input_event(&mut state, KEY, 5000).unwrap();
    assert_eq!(
        ticket,
        ScheduledCapture {
            id: 1,
            category: CaptureCategory::Key,
            label: CaptureLabel::KeyPress,
            due_time: 6000
        }
    );
    assert!(!state.is_rapid_typing());
    assert_eq!(fire_scheduled(&mut state, ticket, 5999), None);
    assert!(state.is_pending(CaptureCategory::Key, 1));
    assert_eq!(
        fire_scheduled(&mut state, ticket, 6000),
        Some(CaptureRequest { label: CaptureLabel::KeyPress, pointer: None })
    );
    assert_eq!(fire_scheduled(&mut state, ticket, 7000), None);
    assert_eq!(get_recording_status(&state).pending_key_screenshots, 0);
}

#[test]
fn burst_of_five_key_presses_is_captured_once() {
    let mut state = ready();
    let times = [0u64, 300, 600, 900, 1200];
    let mut tickets = Vec::new();
    for t in times {
        tickets.push(on_input_event(&mut state, KEY, t).unwrap());
    }
    assert_eq!(tickets[0].label, CaptureLabel::KeyPress);
    assert_eq!(tickets[2].label, CaptureLabel::KeyPress);
    assert_eq!(tickets[3].label, CaptureLabel::KeyboardIdle);
    assert_eq!(tickets[4].label, CaptureLabel::KeyboardIdle);
    assert!(state.is_rapid_typing());
    assert_eq!(state.key_burst_len(), 5);
    let mut captures = Vec::new();
    for ticket in tickets {
        if let Some(request) = fire_scheduled(&mut state, ticket, ticket.due_time) {
            captures.push(request);
        }
    }
    assert_eq!(captures, vec![CaptureRequest { label: CaptureLabel::KeyboardIdle, pointer: None }]);
    assert!(!state.is_rapid_typing());
    assert_eq!(state.key_burst_len(), 0);
    assert_eq!(get_recording_status(&state).pending_key_screenshots, 0);
}

#[test]
fn crossing_the_threshold_cancels_pending_key_captures() {
    let mut state = ready();
    let a = on_input_event(&mut state, KEY, 0).unwrap();
    let b = on_input_event(&mut state, KEY, 10).unwrap();
    let c = on_input_event(&mut state, KEY, 20).unwrap();
    assert_eq!(get_recording_status(&state).pending_key_screenshots, 3);
    let idle = on_input_event(&mut state, KEY, 30).unwrap();
    assert_eq!(get_recording_status(&state).pending_key_screenshots, 1);
    assert!(!state.is_pending(CaptureCategory::Key, a.id));
    assert!(!state.is_pending(CaptureCategory::Key, b.id));
    assert!(!state.is_pending(CaptureCategory::Key, c.id));
    assert!(state.is_pending(CaptureCategory::Key, idle.id));
    assert_eq!(fire_scheduled(&mut state, a, 1000), None);
}

#[test]
fn burst_window_drops_presses_older_than_two_seconds() {
    let mut state = ready();
    on_input_event(&mut state, KEY, 0);
    on_input_event(&mut state, KEY, 100);
    on_input_event(&mut state, KEY, 200);
    assert_eq!(state.key_burst_len(), 3);
    let late = on_input_event(&mut state, KEY, 2100).unwrap();
    assert_eq!(state.key_burst_len(), 2);
    assert_eq!(late.label, CaptureLabel::KeyPress);
    let later = on_input_event(&mut state, KEY, 4200).unwrap();
    assert_eq!(state.key_burst_len(), 1);
    assert_eq!(later.label, CaptureLabel::KeyPress);
}

#[test]
fn cancelled_ticket_never_fires() {
    let mut state = ready();
    let ticket = on_input_event(&mut state, KEY, 0).unwrap();
    cancel_pending_key_screenshots(&mut state);
    assert_eq!(fire_scheduled(&mut state, ticket, 1000), None);
    let next = on_input_event(&mut state, KEY, 5000).unwrap();
    assert!(next.id > ticket.id);
    assert_eq!(fire_scheduled(&mut state, ticket, 6000), None);
    assert!(fire_scheduled(&mut state, next, 6000).is_some());
}

#[test]
fn cancelling_keys_leaves_click_captures() {
    let mut state = ready();
    let click = on_input_event(&mut state, InputEvent::ButtonPress, 0).unwrap();
    let key = on_input_event(&mut state, KEY, 0).unwrap();
    cancel_pending_key_screenshots(&mut state);
    assert_eq!(fire_scheduled(&mut state, key, 1000), None);
    assert!(fire_scheduled(&mut state, click, 1000).is_some());
}

#[test]
fn tickets_do_not_fire_after_the_session_stopped() {
    let mut state = ready();
    let ticket = on_input_event(&mut state, InputEvent::ButtonPress, 0).unwrap();
    state.stop_session();
    assert_eq!(fire_scheduled(&mut state, ticket, 1000), None);
    state.start_session("base".to_string(), "action_1".to_string());
    state.mark_verified();
    assert_eq!(fire_scheduled(&mut state, ticket, 1000), None);
    let fresh = on_input_event(&mut state, InputEvent::ButtonPress, 2000).unwrap();
    assert_eq!(fresh.id, ticket.id + 1);
}

#[test]
fn idle_check_waits_for_a_second_of_silence() {
    let mut state = ready();
    for t in [0u64, 10, 20] {
        on_input_event(&mut state, KEY, t);
    }
    let first_idle = on_input_event(&mut state, KEY, 30).unwrap();
    let second_idle = on_input_event(&mut state, KEY, 500).unwrap();
    assert_eq!(first_idle.due_time, 1030);
    assert_eq!(fire_scheduled(&mut state, first_idle, 1030), None);
    assert!(state.is_rapid_typing());
    assert_eq!(fire_scheduled(&mut state, second_idle, 1499), None);
    assert_eq!(
        fire_scheduled(&mut state, second_idle, 1500),
        Some(CaptureRequest { label: CaptureLabel::KeyboardIdle, pointer: None })
    );
    assert!(!state.is_rapid_typing());
}

#[test]
fn pointer_samples_stop_with_the_session() {
    let mut state = RecordingState::new();
    assert!(!state.update_pointer(1, 2));
    assert_eq!(state.pointer_location(), None);
    state.start_session("base".to_string(), "action_0".to_string());
    assert!(state.update_pointer(1, 2));
    assert!(state.update_pointer(3, 4));
    assert_eq!(state.pointer_location(), Some((3, 4)));
    assert_eq!(state.base_folder(), Some("base".to_string()));
    assert_eq!(state.current_action_folder(), Some("action_0".to_string()));
    state.set_base_folder("elsewhere".to_string());
    assert_eq!(state.base_folder(), Some("elsewhere".to_string()));
}

#[test]
fn labels_have_their_words() {
    assert_eq!(label_name(CaptureLabel::Init), "Init");
    assert_eq!(label_name(CaptureLabel::Press), "press");
    assert_eq!(label_name(CaptureLabel::Release), "release");
    assert_eq!(label_name(CaptureLabel::Scroll), "scroll");
    assert_eq!(label_name(CaptureLabel::KeyPress), "keypress");
    assert_eq!(label_name(CaptureLabel::KeyboardIdle), "idle-detected");
}
