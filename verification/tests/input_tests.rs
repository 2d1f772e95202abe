use mouse_keyboard_automation::input::{
    control_plan, keyboard_press_key, mouse_click, mouse_double_click, mouse_move, perform_copy,
    perform_paste, perform_select_all, plain_plan, second_piece, special_key_named, Key, KeyPlan,
    Stroke,
};
use mouse_keyboard_automation::models::MouseButton;
use mouse_keyboard_automation::text::same_text;

fn chord_of(c: char) -> Vec<Stroke> {
    vec![
        Stroke::KeyDown(Key::Control),
        Stroke::Pause { millis: 100 },
        Stroke::KeyClick(Key::Layout(c)),
        Stroke::Pause { millis: 100 },
        Stroke::KeyUp(Key::Control),
        Stroke::Pause { millis: 300 },
    ]
}

fn held(key: Key) -> Vec<Stroke> {
    vec![
        Stroke::KeyDown(Key::Control),
        Stroke::Pause { millis: 100 },
        Stroke::KeyClick(key),
        Stroke::Pause { millis: 100 },
        Stroke::KeyUp(Key::Control),
    ]
}

#[test]
fn same_text_compares_characters() {
    assert!(same_text("abc", "abc"));
    assert!(!same_text("abc", "abd"));
    assert!(!same_text("abc", "ab"));
    assert!(same_text("", ""));
}

#[test]
fn special_keys_by_name() {
    let table = [
        ("tab", Key::Tab),
        ("enter", Key::Return),
        ("backspace", Key::Backspace),
        ("delete", Key::Delete),
        ("home", Key::Home),
        ("end", Key::End),
        ("pageup", Key::PageUp),
        ("pagedown", Key::PageDown),
        ("up", Key::UpArrow),
        ("down", Key::DownArrow),
        ("left", Key::LeftArrow),
        ("right", Key::RightArrow),
        ("space", Key::Space),
        ("escape", Key::Escape),
        ("f1", Key::F1),
        ("f2", Key::F2),
        ("f3", Key::F3),
        ("f4", Key::F4),
        ("f5", Key::F5),
        ("f6", Key::F6),
        ("f7", Key::F7),
        ("f8", Key::F8),
        ("f9", Key::F9),
        ("f10", Key::F10),
        ("f11", Key::F11),
        ("f12", Key::F12),
    ];
    for (name, key) in table {
        assert_eq!(special_key_named(name), Some(key));
    }
    assert_eq!(special_key_named("Tab"), None);
    assert_eq!(special_key_named("f13"), None);
    assert_eq!(special_key_named(""), None);
}

#[test]
fn single_character_is_pressed_and_released() {
    assert_eq!(
        keyboard_press_key("a"),
        KeyPlan {
            strokes: vec![
                Stroke::KeyDown(Key::Layout('a')),
                Stroke::Pause { millis: 50 },
                Stroke::KeyUp(Key::Layout('a')),
                Stroke::Pause { millis: 50 },
            ],
            supported: true
        }
    );
    assert_eq!(
        keyboard_press_key("Q").strokes[0],
        Stroke::KeyDown(Key::Layout('Q'))
    );
}

#[test]
fn special_key_is_clicked_in_any_letter_case() {
    assert_eq!(
        keyboard_press_key("ENTER"),
        KeyPlan { strokes: vec![Stroke::KeyClick(Key::Return)], supported: true }
    );
    assert_eq!(
        keyboard_press_key("PageDown"),
        KeyPlan { strokes: vec![Stroke::KeyClick(Key::PageDown)], supported: true }
    );
    assert_eq!(
        plain_plan("F5", "f5"),
        KeyPlan { strokes: vec![Stroke::KeyClick(Key::F5)], supported: true }
    );
}

#[test]
fn unsupported_key_fails_without_strokes() {
    assert_eq!(keyboard_press_key("hyper"), KeyPlan { strokes: vec![], supported: false });
    assert_eq!(keyboard_press_key(""), KeyPlan { strokes: vec![], supported: false });
    assert_eq!(keyboard_press_key("é"), KeyPlan { strokes: vec![], supported: false });
}

#[test]
fn control_chords() {
    assert_eq!(keyboard_press_key("ctrl+a"), KeyPlan { strokes: chord_of('a'), supported: true });
    assert_eq!(keyboard_press_key("ctrl+c"), KeyPlan { strokes: chord_of('c'), supported: true });
    assert_eq!(keyboard_press_key("ctrl+V"), KeyPlan { strokes: chord_of('v'), supported: true });
    assert_eq!(keyboard_press_key("control+c"), KeyPlan { strokes: chord_of('c'), supported: true });
    assert_eq!(
        keyboard_press_key("ctrl+x"),
        KeyPlan {
            strokes: vec![
                Stroke::KeyDown(Key::Control),
                Stroke::Pause { millis: 100 },
                Stroke::KeyClick(Key::Layout('a')),
                Stroke::Pause { millis: 300 },
                Stroke::KeyClick(Key::Layout('x')),
                Stroke::Pause { millis: 100 },
                Stroke::KeyUp(Key::Control),
                Stroke::Pause { millis: 300 },
            ],
            supported: true
        }
    );
    assert_eq!(
        keyboard_press_key("ctrl+z"),
        KeyPlan { strokes: held(Key::Layout('z')), supported: true }
    );
    assert_eq!(
        keyboard_press_key("ctrl+Tab"),
        KeyPlan { strokes: held(Key::Tab), supported: true }
    );
    assert_eq!(control_plan("f12"), KeyPlan { strokes: held(Key::F12), supported: true });
}

#[test]
fn unsupported_control_chord_leaves_control_down() {
    assert_eq!(
        keyboard_press_key("ctrl+hyper"),
        KeyPlan {
            strokes: vec![Stroke::KeyDown(Key::Control), Stroke::Pause { millis: 100 }],
            supported: false
        }
    );
    assert_eq!(
        control_plan(""),
        KeyPlan {
            strokes: vec![Stroke::KeyDown(Key::Control), Stroke::Pause { millis: 100 }],
            supported: false
        }
    );
}

#[test]
fn modifier_in_another_letter_case_fails() {
    assert_eq!(keyboard_press_key("Ctrl+a"), KeyPlan { strokes: vec![], supported: false });
    assert_eq!(keyboard_press_key("CONTROL+c"), KeyPlan { strokes: vec![], supported: false });
}

#[test]
fn chord_key_is_what_stands_between_two_modifiers() {
    assert_eq!(keyboard_press_key("ctrl+c+ctrl+v"), KeyPlan {
        strokes: vec![Stroke::KeyDown(Key::Control), Stroke::Pause { millis: 100 }],
        supported: false
    });
    assert_eq!(keyboard_press_key("ctrl+cctrl+v"), KeyPlan { strokes: chord_of('c'), supported: true });
    assert_eq!(second_piece("xctrl+yctrl+z", "ctrl+"), Some("y"));
    assert_eq!(second_piece("xctrl+y", "ctrl+"), Some("y"));
    assert_eq!(second_piece("ctrl+", "ctrl+"), Some(""));
    assert_eq!(second_piece("plain", "ctrl+"), None);
}

#[test]
fn fixed_chords() {
    assert_eq!(perform_copy(), chord_of('c'));
    assert_eq!(perform_paste(), chord_of('v'));
    assert_eq!(perform_select_all(), chord_of('a'));
}

#[test]
fn pointer_strokes() {
    assert_eq!(mouse_move(3, -4), vec![Stroke::MouseMoveTo { x: 3, y: -4 }]);
    assert_eq!(mouse_click(MouseButton::Right), vec![Stroke::MouseClick(MouseButton::Right)]);
    assert_eq!(
        mouse_double_click(MouseButton::Left),
        vec![
            Stroke::MouseClick(MouseButton::Left),
            Stroke::Pause { millis: 50 },
            Stroke::MouseClick(MouseButton::Left)
        ]
    );
}
