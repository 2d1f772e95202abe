use mouse_keyboard_automation::models::{
    KeyboardEvent, MouseButton, MouseEvent, MousePosition, WebSocketMessage,
};
use mouse_keyboard_automation::recorder::{
    button_name, describe_combo, detect_click, has_shift, is_function_key, is_letter_key,
    is_shift_key, start_keyboard_listener, start_mouse_listener, start_mouse_position_tracking,
    EventRecorder, InputSample, PositionTracker, RecordedStep,
};

fn names(keys: &[&str]) -> Vec<String> {
    keys.iter().map(|k| k.to_string()).collect()
}

fn sample(now_ms: u64, buttons: &[bool], keys: &[&str]) -> InputSample {
    InputSample { x: 7, y: 9, buttons: buttons.to_vec(), keys: names(keys), now_ms }
}

fn key_press(key: &str) -> RecordedStep {
    RecordedStep::KeyPress { key: key.to_string() }
}

const UP: [bool; 5] = [false; 5];
const LEFT_DOWN: [bool; 5] = [false, true, false, false, false];
const RIGHT_DOWN: [bool; 5] = [false, false, true, false, false];

#[test]
fn letter_keys() {
    assert!(is_letter_key("A"));
    assert!(is_letter_key("Z"));
    assert!(!is_letter_key("a"));
    assert!(!is_letter_key("AB"));
    assert!(!is_letter_key(""));
    assert!(!is_letter_key("1"));
    assert!(!is_letter_key("Enter"));
}

#[test]
fn function_and_shift_keys() {
    for k in ["F1", "F2", "F3", "F4", "F5", "F6", "F7", "F8", "F9", "F10", "F11", "F12"] {
        assert!(is_function_key(k));
    }
    assert!(!is_function_key("F13"));
    assert!(!is_function_key("f7"));
    assert!(!is_function_key("F"));
    assert!(is_shift_key("LShift"));
    assert!(is_shift_key("RShift"));
    assert!(!is_shift_key("Shift"));
    assert!(has_shift(&names(&["A", "RShift"])));
    assert!(!has_shift(&names(&["A", "LControl"])));
}

#[test]
fn recorded_step_kinds_and_waits() {
    assert_eq!(RecordedStep::MouseMove { x: 1, y: 2 }.kind(), "mouse_move");
    assert_eq!(RecordedStep::MouseMove { x: 1, y: 2 }.wait_millis(), 200);
    assert_eq!(RecordedStep::MouseClick { button: MouseButton::Left }.kind(), "mouse_click");
    assert_eq!(RecordedStep::MouseClick { button: MouseButton::Left }.wait_millis(), 500);
    assert_eq!(key_press("a").kind(), "key_press");
    assert_eq!(key_press("a").wait_millis(), 300);
    assert_eq!(button_name(MouseButton::Left), "left");
    assert_eq!(button_name(MouseButton::Right), "right");
    assert_eq!(button_name(MouseButton::Middle), "middle");
}

#[test]
fn click_detection_by_button_index() {
    let up = UP.to_vec();
    assert_eq!(detect_click(&LEFT_DOWN.to_vec(), &up), Some(MouseButton::Left));
    assert_eq!(detect_click(&RIGHT_DOWN.to_vec(), &up), Some(MouseButton::Right));
    for i in [0usize, 3, 4] {
        let mut now = UP.to_vec();
        now[i] = true;
        assert_eq!(detect_click(&now, &up), Some(MouseButton::Middle));
    }
    assert_eq!(detect_click(&vec![false, true, true, true], &up), Some(MouseButton::Left));
    assert_eq!(detect_click(&vec![true, false, true], &up), Some(MouseButton::Right));
    assert_eq!(detect_click(&LEFT_DOWN.to_vec(), &LEFT_DOWN.to_vec()), None);
    assert_eq!(detect_click(&up, &LEFT_DOWN.to_vec()), None);
    assert_eq!(detect_click(&vec![], &vec![]), None);
    assert_eq!(detect_click(&LEFT_DOWN.to_vec(), &vec![]), Some(MouseButton::Left));
    assert_eq!(detect_click(&vec![false, false, false, false, false, true], &up), None);
}

#[test]
fn describe_combo_joins_names() {
    assert_eq!(describe_combo(&names(&["LControl", "C"]), false), "LControl+c");
    assert_eq!(describe_combo(&names(&["LShift", "A"]), true), "LShift+A");
    assert_eq!(describe_combo(&names(&["A"]), false), "a");
    assert_eq!(describe_combo(&names(&["Enter"]), false), "Enter");
    assert_eq!(describe_combo(&names(&[]), false), "");
    assert_eq!(describe_combo(&names(&["A", "B", "Key1"]), false), "a+b+Key1");
}

#[test]
fn click_yields_move_then_click() {
    let mut r = EventRecorder::new();
    let seen = r.observe(sample(0, &LEFT_DOWN, &[]));
    assert!(!seen.hotkey);
    assert_eq!(
        seen.steps,
        vec![
            RecordedStep::MouseMove { x: 7, y: 9 },
            RecordedStep::MouseClick { button: MouseButton::Left }
        ]
    );
    assert!(r.cooldown);
    assert_eq!(r.last_click_ms, 0);
}

#[test]
fn held_button_is_not_clicked_again() {
    let mut r = EventRecorder::new();
    r.observe(sample(0, &LEFT_DOWN, &[]));
    assert!(r.observe(sample(50, &LEFT_DOWN, &[])).steps.is_empty());
    assert!(r.observe(sample(1000, &LEFT_DOWN, &[])).steps.is_empty());
}

#[test]
fn cooldown_suppresses_a_click_that_follows_at_once() {
    let mut r = EventRecorder::new();
    r.observe(sample(0, &LEFT_DOWN, &[]));
    r.observe(sample(50, &UP, &[]));
    assert!(r.observe(sample(100, &RIGHT_DOWN, &[])).steps.is_empty());
    assert!(r.cooldown);
    r.observe(sample(300, &UP, &[]));
    assert!(r.cooldown);
    let seen = r.observe(sample(301, &RIGHT_DOWN, &[]));
    assert_eq!(
        seen.steps,
        vec![
            RecordedStep::MouseMove { x: 7, y: 9 },
            RecordedStep::MouseClick { button: MouseButton::Right }
        ]
    );
    assert_eq!(r.last_click_ms, 301);
}

#[test]
fn cooldown_ends_after_three_hundred_milliseconds() {
    let mut r = EventRecorder::new();
    r.observe(sample(1000, &LEFT_DOWN, &[]));
    r.observe(sample(1300, &UP, &[]));
    assert!(r.cooldown);
    r.observe(sample(1301, &UP, &[]));
    assert!(!r.cooldown);
}

#[test]
fn single_letter_is_recorded_in_lower_case_on_release() {
    let mut r = EventRecorder::new();
    assert!(r.observe(sample(0, &UP, &["A"])).steps.is_empty());
    assert!(r.observe(sample(50, &UP, &["A"])).steps.is_empty());
    assert_eq!(r.observe(sample(100, &UP, &[])).steps, vec![key_press("a")]);
    assert!(r.combo.is_empty());
    assert!(r.observe(sample(150, &UP, &[])).steps.is_empty());
}

#[test]
fn single_special_key_keeps_its_name() {
    let mut r = EventRecorder::new();
    r.observe(sample(0, &UP, &["Enter"]));
    assert_eq!(r.observe(sample(50, &UP, &[])).steps, vec![key_press("Enter")]);
    r.observe(sample(100, &UP, &["LShift"]));
    assert_eq!(r.observe(sample(150, &UP, &[])).steps, vec![key_press("LShift")]);
}

#[test]
fn combination_is_recorded_when_all_keys_are_released() {
    let mut r = EventRecorder::new();
    r.observe(sample(0, &UP, &["LControl"]));
    r.observe(sample(50, &UP, &["LControl", "C"]));
    assert_eq!(r.combo, names(&["LControl", "C"]));
    assert_eq!(r.observe(sample(100, &UP, &[])).steps, vec![key_press("LControl+c")]);
}

#[test]
fn combination_with_shift_keeps_capital_letters() {
    let mut r = EventRecorder::new();
    r.observe(sample(0, &UP, &["LShift", "A"]));
    assert_eq!(r.observe(sample(50, &UP, &[])).steps, vec![key_press("LShift+A")]);
}

#[test]
fn combination_breaks_when_a_key_is_let_go_after_the_dwell_time() {
    let mut r = EventRecorder::new();
    r.observe(sample(0, &UP, &["LControl"]));
    r.observe(sample(50, &UP, &["LControl", "V"]));
    let seen = r.observe(sample(300, &UP, &["LControl"]));
    assert_eq!(seen.steps, vec![key_press("LControl+v")]);
    assert!(r.combo.is_empty());
    assert!(r.observe(sample(350, &UP, &[])).steps.is_empty());
}

#[test]
fn combination_that_is_let_go_early_is_recorded_on_full_release() {
    let mut r = EventRecorder::new();
    r.observe(sample(0, &UP, &["LControl"]));
    r.observe(sample(50, &UP, &["LControl", "V"]));
    assert!(r.observe(sample(299, &UP, &["LControl"])).steps.is_empty());
    assert_eq!(r.observe(sample(350, &UP, &[])).steps, vec![key_press("LControl+v")]);
}

#[test]
fn more_than_four_keys_are_not_recorded() {
    let mut r = EventRecorder::new();
    r.observe(sample(0, &UP, &["A", "B", "C", "D", "E"]));
    assert!(r.observe(sample(50, &UP, &[])).steps.is_empty());
    assert!(r.combo.is_empty());
    r.observe(sample(100, &UP, &["A", "B", "C", "D"]));
    assert_eq!(r.observe(sample(150, &UP, &[])).steps, vec![key_press("a+b+c+d")]);
}

#[test]
fn lone_function_key_is_the_hotkey_and_is_never_recorded() {
    let mut r = EventRecorder::new();
    let seen = r.observe(sample(0, &LEFT_DOWN, &["F7"]));
    assert!(seen.hotkey);
    assert!(seen.steps.is_empty());
    assert_eq!(r.last_keys, names(&["F7"]));
    assert!(r.last_buttons.is_empty());
    assert!(!r.cooldown);
    let seen = r.observe(sample(50, &UP, &[]));
    assert!(!seen.hotkey);
    assert!(seen.steps.is_empty());
}

#[test]
fn function_key_in_a_combination_is_recorded() {
    let mut r = EventRecorder::new();
    let seen = r.observe(sample(0, &UP, &["LAlt", "F4"]));
    assert!(!seen.hotkey);
    assert_eq!(r.observe(sample(50, &UP, &[])).steps, vec![key_press("LAlt+F4")]);
}

#[test]
fn click_and_key_in_one_sample() {
    let mut r = EventRecorder::new();
    r.observe(sample(0, &UP, &["B"]));
    let seen = r.observe(sample(50, &LEFT_DOWN, &[]));
    assert_eq!(
        seen.steps,
        vec![
            RecordedStep::MouseMove { x: 7, y: 9 },
            RecordedStep::MouseClick { button: MouseButton::Left },
            key_press("b")
        ]
    );
}

#[test]
fn mouse_listener_reports_presses() {
    let mut l = start_mouse_listener();
    assert!(l.observe(&vec![true, false, false, false], 1, 2).is_empty());
    assert_eq!(
        l.observe(&vec![false, true, false, true], 1, 2),
        vec![
            MouseEvent::Click { button: MouseButton::Left, x: 1, y: 2 },
            MouseEvent::Click { button: MouseButton::Middle, x: 1, y: 2 }
        ]
    );
    assert_eq!(
        l.observe(&vec![false, true, true, true], 3, 4),
        vec![MouseEvent::Click { button: MouseButton::Right, x: 3, y: 4 }]
    );
    assert!(l.observe(&vec![false, false, false, false], 3, 4).is_empty());
    assert!(!l.left && !l.right && !l.middle);
}

#[test]
fn keyboard_listener_reports_keys_that_go_down() {
    let mut l = start_keyboard_listener();
    assert_eq!(
        l.observe(names(&["A", "B"])),
        vec![
            KeyboardEvent::KeyPress { key: "A".to_string() },
            KeyboardEvent::KeyPress { key: "B".to_string() }
        ]
    );
    assert_eq!(
        l.observe(names(&["B", "C"])),
        vec![KeyboardEvent::KeyPress { key: "C".to_string() }]
    );
    assert!(l.observe(names(&[])).is_empty());
    assert_eq!(l.observe(names(&["B"])), vec![KeyboardEvent::KeyPress { key: "B".to_string() }]);
}

#[test]
fn position_is_reported_when_it_changes() {
    let mut t = start_mouse_position_tracking();
    assert_eq!(t, PositionTracker::new());
    assert_eq!(t.observe(0, 0), None);
    assert_eq!(
        t.observe(5, 6),
        Some(WebSocketMessage::MousePosition(MousePosition { x: 5, y: 6 }))
    );
    assert_eq!(t.observe(5, 6), None);
    assert_eq!(
        t.observe(5, 7),
        Some(WebSocketMessage::MousePosition(MousePosition { x: 5, y: 7 }))
    );
}
