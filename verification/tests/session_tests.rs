use mouse_keyboard_automation::automation::{
    AutomationController, Outbound, DEFAULT_MAX_FACTOR, DEFAULT_MIN_FACTOR,
};
use mouse_keyboard_automation::models::{
    default_loop_count, AutomationCompleted, MacroStep, RandomTimingConfig, StatusUpdate,
    StepsUpdate, WebSocketMessage,
};
use serde_json::Value;

fn session_value(text: &str) -> Value {
    serde_json::from_str(text).unwrap()
}

fn session_step(id: &str, kind: &str) -> MacroStep {
    MacroStep { id: id.to_string(), type_: kind.to_string(), data: session_value("{}") }
}

#[test]
fn new_session_is_idle_and_empty() {
    let s = AutomationController::new();
    assert!(s.steps.is_empty());
    assert!(s.clients.is_empty());
    assert!(!s.is_running);
    assert!(!s.is_recording);
    assert!(!s.is_recording_toggle_pending);
    assert!(!s.random_enabled);
}

#[test]
fn default_factors_are_the_bits_of_0_8_and_1_2() {
    assert_eq!(f32::from_bits(DEFAULT_MIN_FACTOR), 0.8f32);
    assert_eq!(f32::from_bits(DEFAULT_MAX_FACTOR), 1.2f32);
    let s = AutomationController::new();
    assert_eq!(
        s.timing(),
        RandomTimingConfig {
            enabled: false,
            min_factor: 0.8f32.to_bits(),
            max_factor: 1.2f32.to_bits()
        }
    );
}

#[test]
fn default_loop_count_is_one() {
    assert_eq!(default_loop_count(), 1);
}

#[test]
fn add_client_registers_each_identifier_once() {
    let mut s = AutomationController::new();
    s.add_client("a".to_string());
    s.add_client("b".to_string());
    s.add_client("a".to_string());
    assert_eq!(s.clients, vec!["a".to_string(), "b".to_string()]);
    assert!(s.is_connected("a"));
    assert!(!s.is_connected("c"));
}

#[test]
fn remove_client_takes_out_only_that_client() {
    let mut s = AutomationController::new();
    s.add_client("a".to_string());
    s.add_client("b".to_string());
    s.add_client("c".to_string());
    s.remove_client("b");
    assert_eq!(s.clients, vec!["a".to_string(), "c".to_string()]);
    s.remove_client("zzz");
    assert_eq!(s.clients, vec!["a".to_string(), "c".to_string()]);
}

#[test]
fn broadcast_addresses_every_client() {
    let mut s = AutomationController::new();
    s.add_client("a".to_string());
    s.add_client("b".to_string());
    let out = s.broadcast_message(WebSocketMessage::RecordingStarted);
    assert_eq!(
        out,
        Outbound {
            to: vec!["a".to_string(), "b".to_string()],
            message: WebSocketMessage::RecordingStarted
        }
    );
}

#[test]
fn broadcast_after_disconnect_excludes_the_client() {
    let mut s = AutomationController::new();
    s.add_client("a".to_string());
    s.add_client("b".to_string());
    s.is_running = true;
    s.remove_client("a");
    assert!(s.is_running);
    let out = s.broadcast_message(WebSocketMessage::RecordingStopped);
    assert_eq!(out.to, vec!["b".to_string()]);
}

#[test]
fn unicast_addresses_a_registered_client_only() {
    let mut s = AutomationController::new();
    s.add_client("a".to_string());
    assert_eq!(s.unicast("a", WebSocketMessage::RecordingStarted).to, vec!["a".to_string()]);
    assert!(s.unicast("b", WebSocketMessage::RecordingStarted).to.is_empty());
}

#[test]
fn add_step_appends_with_a_fresh_identifier() {
    let mut s = AutomationController::new();
    s.add_step("mouse_move", session_value(r#"{"x":1}"#));
    s.add_step("wait", session_value(r#"{"wait_time":2}"#));
    assert_eq!(s.steps.len(), 2);
    assert_eq!(s.steps[0].type_, "mouse_move");
    assert_eq!(s.steps[0].data, session_value(r#"{"x":1}"#));
    assert_eq!(s.steps[1].type_, "wait");
    assert_eq!(s.steps[0].id.chars().count(), 36);
    assert_eq!(s.steps[1].id.chars().count(), 36);
    assert_ne!(s.steps[0].id, s.steps[1].id);
}

#[test]
fn push_step_keeps_the_given_identifier() {
    let mut s = AutomationController::new();
    s.push_step(session_step("one", "wait"));
    s.push_step(session_step("two", "group"));
    assert_eq!(s.steps, vec![session_step("one", "wait"), session_step("two", "group")]);
}

#[test]
fn clear_and_replace_steps() {
    let mut s = AutomationController::new();
    s.push_step(session_step("one", "wait"));
    s.replace_steps(vec![session_step("b", "wait"), session_step("a", "wait")]);
    assert_eq!(s.steps, vec![session_step("b", "wait"), session_step("a", "wait")]);
    s.clear_steps();
    assert!(s.steps.is_empty());
}

#[test]
fn add_recorded_step_broadcasts_the_new_list() {
    let mut s = AutomationController::new();
    s.add_client("a".to_string());
    let out = s.add_recorded_step("key_press", session_value(r#"{"key":"a"}"#));
    assert_eq!(out.to, vec!["a".to_string()]);
    match out.message {
        WebSocketMessage::StepsUpdate(StepsUpdate { steps }) => {
            assert_eq!(steps.len(), 1);
            assert_eq!(steps[0].type_, "key_press");
            assert_eq!(steps, s.steps);
        }
        other => panic!("unexpected event {:?}", other),
    }
}

#[test]
fn update_timing_fills_in_defaults() {
    let mut s = AutomationController::new();
    s.add_client("a".to_string());
    let out = s.update_timing(true, Some(1.0f32.to_bits()), None);
    let expected = RandomTimingConfig {
        enabled: true,
        min_factor: 1.0f32.to_bits(),
        max_factor: DEFAULT_MAX_FACTOR,
    };
    assert_eq!(s.timing(), expected);
    assert_eq!(out.message, WebSocketMessage::RandomTimingUpdated(expected));
    assert_eq!(out.to, vec!["a".to_string()]);
    let out = s.update_timing(false, None, Some(2.0f32.to_bits()));
    assert_eq!(
        out.message,
        WebSocketMessage::RandomTimingUpdated(RandomTimingConfig {
            enabled: false,
            min_factor: DEFAULT_MIN_FACTOR,
            max_factor: 2.0f32.to_bits()
        })
    );
}

#[test]
fn complete_pass_clears_the_running_flag() {
    let mut s = AutomationController::new();
    s.add_client("a".to_string());
    s.is_running = true;
    let done = AutomationCompleted { total_loops: 2, completed_loops: 2 };
    let (first, second) = s.complete_pass(done);
    assert!(!s.is_running);
    assert_eq!(first.message, WebSocketMessage::AutomationCompleted(done));
    assert_eq!(
        second.message,
        WebSocketMessage::StatusUpdate(StatusUpdate {
            status: "idle".to_string(),
            message: "Automation completed".to_string()
        })
    );
    assert_eq!(first.to, vec!["a".to_string()]);
    assert_eq!(second.to, vec!["a".to_string()]);
}

#[test]
fn note_recording_hotkey_sets_the_flag() {
    let mut s = AutomationController::new();
    s.note_recording_hotkey();
    assert!(s.is_recording_toggle_pending);
}
