use mouse_keyboard_automation::wire::create_message;
use serde_json::Value;

fn wire_value(text: &str) -> Value {
    serde_json::from_str(text).unwrap()
}

#[test]
fn envelope_holds_type_and_data() {
    let text = create_message("status_update", wire_value(r#"{"status":"idle","message":"m"}"#));
    let doc = wire_value(&text);
    assert_eq!(doc.get("type"), Some(&Value::from("status_update")));
    assert_eq!(doc.get("data"), Some(&wire_value(r#"{"status":"idle","message":"m"}"#)));
    assert_eq!(doc.as_object().map(|o| o.len()), Some(2));
}

#[test]
fn envelope_is_compact_json() {
    assert_eq!(
        create_message("automation_completed", wire_value("{}")),
        r#"{"data":{},"type":"automation_completed"}"#
    );
    assert_eq!(
        create_message("mouse_position", wire_value(r#"{"x":1,"y":-2}"#)),
        r#"{"data":{"x":1,"y":-2},"type":"mouse_position"}"#
    );
}

#[test]
fn envelope_escapes_the_event_name() {
    let text = create_message("a\"b", Value::Null);
    assert_eq!(text, r#"{"data":null,"type":"a\"b"}"#);
}
