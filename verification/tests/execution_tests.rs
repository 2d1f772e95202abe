use mouse_keyboard_automation::execution::{
    button_from_name, device_action, filter_steps, parse_button, position_of, step_action,
    step_wait, Cursor, DeviceAction, ExecutionPass, PassAction, WaitSpec,
};
use mouse_keyboard_automation::models::{
    AutomationCompleted, MacroStep, MouseButton, StepExecuting,
};
use serde_json::Value;

fn exec_value(text: &str) -> Value {
    serde_json::from_str(text).unwrap()
}

fn exec_step(id: &str, kind: &str, data: &str) -> MacroStep {
    MacroStep { id: id.to_string(), type_: kind.to_string(), data: exec_value(data) }
}

fn zero_wait_steps(count: usize) -> Vec<MacroStep> {
    (0..count).map(|i| exec_step(&format!("s{}", i), "wait", r#"{"wait_time":0}"#)).collect()
}

#[test]
fn button_names() {
    assert_eq!(button_from_name("right"), MouseButton::Right);
    assert_eq!(button_from_name("middle"), MouseButton::Middle);
    assert_eq!(button_from_name("left"), MouseButton::Left);
    assert_eq!(button_from_name("anything"), MouseButton::Left);
    assert_eq!(button_from_name("RIGHT"), MouseButton::Left);
}

#[test]
fn parse_button_ignores_letter_case() {
    assert_eq!(parse_button(Some("RIGHT")), MouseButton::Right);
    assert_eq!(parse_button(Some("Middle")), MouseButton::Middle);
    assert_eq!(parse_button(Some("left")), MouseButton::Left);
    assert_eq!(parse_button(None), MouseButton::Left);
}

#[test]
fn device_action_by_kind() {
    assert_eq!(
        device_action("mouse_move", Some(10), Some(20), MouseButton::Left, None),
        DeviceAction::MoveTo { x: 10, y: 20 }
    );
    assert_eq!(
        device_action("mouse_move", Some(10), None, MouseButton::Left, None),
        DeviceAction::Nothing
    );
    assert_eq!(
        device_action("mouse_click", None, None, MouseButton::Right, None),
        DeviceAction::Click { button: MouseButton::Right }
    );
    assert_eq!(
        device_action("mouse_double_click", None, None, MouseButton::Middle, None),
        DeviceAction::DoubleClick { button: MouseButton::Middle }
    );
    assert_eq!(
        device_action("key_press", None, None, MouseButton::Left, Some("enter")),
        DeviceAction::PressKey { key: "enter".to_string() }
    );
    assert_eq!(
        device_action("key_press", None, None, MouseButton::Left, None),
        DeviceAction::Nothing
    );
    assert_eq!(device_action("wait", None, None, MouseButton::Left, None), DeviceAction::Nothing);
    assert_eq!(device_action("group", None, None, MouseButton::Left, None), DeviceAction::Nothing);
    assert_eq!(device_action("bogus", Some(1), Some(2), MouseButton::Left, Some("a")), DeviceAction::Nothing);
}

#[test]
fn device_action_cuts_coordinates_to_32_bits() {
    assert_eq!(
        device_action("mouse_move", Some(4294967297), Some(-1), MouseButton::Left, None),
        DeviceAction::MoveTo { x: 1, y: -1 }
    );
}

#[test]
fn step_action_reads_the_payload() {
    assert_eq!(
        step_action(&exec_step("a", "mouse_move", r#"{"x":10,"y":20,"wait_time":0}"#)),
        DeviceAction::MoveTo { x: 10, y: 20 }
    );
    assert_eq!(
        step_action(&exec_step("a", "mouse_move", r#"{"x":"10","y":20}"#)),
        DeviceAction::Nothing
    );
    assert_eq!(
        step_action(&exec_step("a", "mouse_click", r#"{"button":"Right"}"#)),
        DeviceAction::Click { button: MouseButton::Right }
    );
    assert_eq!(
        step_action(&exec_step("a", "mouse_click", r#"{}"#)),
        DeviceAction::Click { button: MouseButton::Left }
    );
    assert_eq!(
        step_action(&exec_step("a", "mouse_double_click", r#"{"button":"middle"}"#)),
        DeviceAction::DoubleClick { button: MouseButton::Middle }
    );
    assert_eq!(
        step_action(&exec_step("a", "key_press", r#"{"key":"ctrl+c"}"#)),
        DeviceAction::PressKey { key: "ctrl+c".to_string() }
    );
}

#[test]
fn step_wait_reads_wait_time_and_randomize() {
    assert_eq!(
        step_wait(&exec_step("a", "wait", r#"{"wait_time":1.5,"randomize":true}"#)),
        WaitSpec { wait_time: Some(exec_value("1.5")), randomize: true }
    );
    assert_eq!(
        step_wait(&exec_step("a", "wait", r#"{}"#)),
        WaitSpec { wait_time: None, randomize: false }
    );
    assert_eq!(
        step_wait(&exec_step("a", "wait", r#"{"randomize":"yes","wait_time":0}"#)),
        WaitSpec { wait_time: Some(exec_value("0")), randomize: false }
    );
}

#[test]
fn degenerate_randomisation_leaves_the_wait_unchanged() {
    let wait = step_wait(&exec_step("a", "wait", r#"{"wait_time":0.75,"randomize":true}"#));
    assert!(wait.randomize);
    let base = wait.wait_time.and_then(|v| v.as_f64()).unwrap_or(1.0);
    let min = f32::from_bits(1.0f32.to_bits()) as f64;
    let max = f32::from_bits(1.0f32.to_bits()) as f64;
    for draw in [0.0f64, 0.25, 0.999] {
        assert_eq!(base * (min + draw * (max - min)), 0.75);
    }
}

#[test]
fn filter_keeps_selected_steps_in_order() {
    let steps = vec![
        exec_step("a", "wait", "{}"),
        exec_step("b", "wait", "{}"),
        exec_step("c", "wait", "{}"),
        exec_step("d", "wait", "{}"),
    ];
    let ids = vec!["d".to_string(), "b".to_string(), "zzz".to_string()];
    let picked = filter_steps(&steps, &ids);
    assert_eq!(picked, vec![exec_step("b", "wait", "{}"), exec_step("d", "wait", "{}")]);
    assert!(filter_steps(&steps, &vec![]).is_empty());
}

#[test]
fn position_of_finds_the_first_place() {
    let steps = vec![
        exec_step("a", "wait", "{}"),
        exec_step("b", "wait", "{}"),
        exec_step("a", "wait", "{}"),
    ];
    assert_eq!(position_of(&steps, "a"), Some(0));
    assert_eq!(position_of(&steps, "b"), Some(1));
    assert_eq!(position_of(&steps, "c"), None);
}

#[test]
fn cursor_walks_loops_and_steps() {
    let mut c = Cursor::start(2, 2);
    assert_eq!(c.advance(true), Some((0, 0)));
    assert_eq!(c.advance(true), Some((0, 1)));
    assert_eq!(c.advance(true), Some((1, 0)));
    assert_eq!(c.advance(true), Some((1, 1)));
    assert_eq!(c.advance(true), None);
    assert!(c.finished);
    assert_eq!(c.advance(true), None);
}

#[test]
fn pass_of_n_loops_and_m_steps_runs_n_times_m_steps() {
    for (loops, count) in [(1i32, 1usize), (3, 4), (2, 0), (0, 3), (-2, 3), (5, 1)] {
        let mut pass = ExecutionPass::new(zero_wait_steps(count), loops, None);
        let mut executed = 0usize;
        let mut completed = 0usize;
        for _ in 0..100 {
            match pass.advance(true) {
                PassAction::Execute(_) => {
                    assert_eq!(completed, 0);
                    executed += 1;
                }
                PassAction::Complete(_) => {
                    completed += 1;
                    break;
                }
            }
        }
        let expected = if loops > 0 { loops as usize * count } else { 0 };
        assert_eq!(executed, expected);
        assert_eq!(completed, 1);
        assert!(pass.cursor.finished);
    }
}

#[test]
fn pass_reports_progress_of_each_step() {
    let mut pass = ExecutionPass::new(zero_wait_steps(2), 2, None);
    let mut events = Vec::new();
    loop {
        match pass.advance(true) {
            PassAction::Execute(plan) => {
                assert_eq!(plan.action, DeviceAction::Nothing);
                assert_eq!(plan.wait.wait_time, Some(exec_value("0")));
                events.push(plan.event);
            }
            PassAction::Complete(done) => {
                assert_eq!(done, AutomationCompleted { total_loops: 2, completed_loops: 2 });
                break;
            }
        }
    }
    let event = |index, current_loop| StepExecuting {
        index,
        total_steps: 2,
        completed_steps: index,
        current_loop,
        total_loops: 2,
    };
    assert_eq!(events, vec![event(0, 0), event(1, 0), event(0, 1), event(1, 1)]);
}

#[test]
fn stop_between_steps_ends_the_pass() {
    let mut pass = ExecutionPass::new(zero_wait_steps(3), 2, None);
    assert!(matches!(pass.advance(true), PassAction::Execute(_)));
    assert!(matches!(pass.advance(true), PassAction::Execute(_)));
    assert_eq!(
        pass.advance(false),
        PassAction::Complete(AutomationCompleted { total_loops: 2, completed_loops: 0 })
    );
    assert!(matches!(pass.advance(true), PassAction::Complete(_)));
    assert!(matches!(pass.advance(true), PassAction::Complete(_)));
}

#[test]
fn stop_before_the_first_step_runs_nothing() {
    let mut pass = ExecutionPass::new(zero_wait_steps(3), 2, None);
    assert!(matches!(pass.advance(false), PassAction::Complete(_)));
    assert!(matches!(pass.advance(true), PassAction::Complete(_)));
}

#[test]
fn selected_steps_report_their_place_in_the_full_list() {
    let steps = vec![
        exec_step("a", "wait", "{}"),
        exec_step("b", "mouse_click", r#"{"button":"right"}"#),
        exec_step("c", "wait", "{}"),
        exec_step("d", "key_press", r#"{"key":"x"}"#),
    ];
    let ids = vec!["d".to_string(), "b".to_string()];
    let mut pass = ExecutionPass::new(steps, 1, Some(ids));
    assert_eq!(pass.steps.len(), 2);
    assert_eq!(pass.indices, vec![1, 3]);
    match pass.advance(true) {
        PassAction::Execute(plan) => {
            assert_eq!(plan.event.index, 1);
            assert_eq!(plan.event.completed_steps, 0);
            assert_eq!(plan.event.total_steps, 2);
            assert_eq!(plan.action, DeviceAction::Click { button: MouseButton::Right });
        }
        other => panic!("unexpected {:?}", other),
    }
    match pass.advance(true) {
        PassAction::Execute(plan) => {
            assert_eq!(plan.event.index, 3);
            assert_eq!(plan.event.completed_steps, 1);
            assert_eq!(plan.action, DeviceAction::PressKey { key: "x".to_string() });
        }
        other => panic!("unexpected {:?}", other),
    }
    assert!(matches!(pass.advance(true), PassAction::Complete(_)));
}

#[test]
fn unselected_pass_reports_the_place_in_the_pass() {
    let pass = ExecutionPass::new(zero_wait_steps(3), 1, None);
    assert_eq!(pass.indices, vec![0, 1, 2]);
}
