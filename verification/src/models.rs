//! The data that travels between clients and the session.
//!
//! Every type that owns a `String` or a `Vec` has a view: the same record
//! over sequences of characters, which is what the contracts speak of.

use vstd::prelude::*;
use serde_json::Value;
use crate::json::{Json, json_of};

verus! {

/// One recorded or authored action: an identifier, a kind tag and a payload
/// whose shape depends on the kind.
#[derive(Debug, PartialEq)]
pub struct MacroStep {
    pub id: String,
    pub type_: String,
    pub data: Value,
}

/// A step as contracts see it.
pub struct StepModel {
    pub id: Seq<char>,
    pub kind: Seq<char>,
    pub data: Json,
}

impl View for MacroStep {
    type V = StepModel;

    open spec fn view(&self) -> StepModel {
        StepModel { id: self.id@, kind: self.type_@, data: json_of(self.data) }
    }
}

impl Clone for MacroStep {
    fn clone(&self) -> (r: Self)
        ensures
            r == *self,
    {
        MacroStep { id: self.id.clone(), type_: self.type_.clone(), data: self.data.clone() }
    }
}

/// The models of a list of steps, in order.
pub open spec fn step_models(steps: Seq<MacroStep>) -> Seq<StepModel> {
    steps.map_values(|s: MacroStep| s@)
}

/// The identifiers of a list of steps, in order.
pub open spec fn step_ids(steps: Seq<MacroStep>) -> Seq<Seq<char>> {
    steps.map_values(|s: MacroStep| s.id@)
}

/// No identifier occurs twice in the list.
pub open spec fn distinct_ids(steps: Seq<MacroStep>) -> bool {
    forall|i: int, j: int| 0 <= i < j < steps.len() ==> steps[i].id@ != steps[j].id@
}

/// Copies a list of steps.
pub fn clone_steps(steps: &Vec<MacroStep>) -> (r: Vec<MacroStep>)
    ensures
        r@ == steps@,
{
    let mut out: Vec<MacroStep> = Vec::new();
    let mut i: usize = 0;
    while i < steps.len()
        invariant
            i <= steps.len(),
            out@ == steps@.subrange(0, i as int),
        decreases steps.len() - i,
    {
        out.push(steps[i].clone());
        i += 1;
    }
    out
}

/// The kinds of click a client can ask for.
#[derive(Debug, Clone, Copy, PartialEq, Eq, Structural)]
pub enum ClickType {
    Left,
    Right,
    Double,
    Middle,
}

/// A button of the pointer device.
#[derive(Debug, Clone, Copy, PartialEq, Eq, Structural)]
pub enum MouseButton {
    Left,
    Right,
    Middle,
}

/// A pointer event observed on the host.
#[derive(Debug, Clone, Copy, PartialEq, Eq, Structural)]
pub enum MouseEvent {
    Click { button: MouseButton, x: i32, y: i32 },
}

/// A keyboard event observed on the host.
#[derive(Debug, PartialEq)]
pub enum KeyboardEvent {
    KeyPress { key: String },
}

/// The state of the session as reported to clients.
#[derive(Debug, PartialEq)]
pub struct StatusUpdate {
    pub status: String,
    pub message: String,
}

/// The whole step list, as sent after every change.
#[derive(Debug, PartialEq)]
pub struct StepsUpdate {
    pub steps: Vec<MacroStep>,
}

/// A position of the pointer.
#[derive(Debug, Clone, Copy, PartialEq, Eq, Structural)]
pub struct MousePosition {
    pub x: i32,
    pub y: i32,
}

/// Progress of a pass: the step about to run and where the pass stands.
#[derive(Debug, Clone, Copy, PartialEq, Eq, Structural)]
pub struct StepExecuting {
    /// Position of the step in the list the pass was started on.
    pub index: usize,
    /// Number of steps the pass runs in each loop.
    pub total_steps: usize,
    /// Number of steps of this loop that ran before this one.
    pub completed_steps: usize,
    pub current_loop: i32,
    pub total_loops: i32,
}

/// The randomisation of wait times. The two factors are single-precision
/// numbers carried by their bit patterns; this crate stores and reports them
/// and never computes with them.
#[derive(Debug, Clone, Copy, PartialEq, Eq, Structural)]
pub struct RandomTimingConfig {
    pub enabled: bool,
    pub min_factor: u32,
    pub max_factor: u32,
}

/// What a request to run the stored steps carries.
#[derive(Debug, Clone, Copy, PartialEq, Eq, Structural)]
pub struct RunAutomationData {
    pub loop_count: i32,
}

/// The number of loops of a pass whose request names none.
pub fn default_loop_count() -> (r: i32)
    ensures
        r == 1,
{
    1
}

/// The end of a pass.
#[derive(Debug, Clone, Copy, PartialEq, Eq, Structural)]
pub struct AutomationCompleted {
    pub total_loops: i32,
    pub completed_loops: i32,
}

/// How a one-shot command ended.
#[derive(Debug, Clone, Copy, PartialEq, Eq, Structural)]
pub enum ActionStatus {
    Success,
    Error,
    Skipped,
}

/// The reply to a one-shot command.
#[derive(Debug, PartialEq)]
pub struct ActionCompleted {
    pub action: String,
    pub status: ActionStatus,
    pub clipboard_text: Option<String>,
    pub key: Option<String>,
    pub message: Option<String>,
}

/// An event sent to clients.
#[derive(Debug, PartialEq)]
pub enum WebSocketMessage {
    StatusUpdate(StatusUpdate),
    StepsUpdate(StepsUpdate),
    MousePosition(MousePosition),
    StepExecuting(StepExecuting),
    AutomationCompleted(AutomationCompleted),
    RecordingStarted,
    RecordingStopped,
    RandomTimingUpdated(RandomTimingConfig),
    ActionCompleted(ActionCompleted),
    ClipboardText(String),
}

/// The view of an optional text.
pub open spec fn text_model(text: Option<String>) -> Option<Seq<char>> {
    match text {
        Some(t) => Some(t@),
        None => None,
    }
}

/// An event as contracts see it.
#[allow(inconsistent_fields)]
pub enum EventModel {
    Status { status: Seq<char>, message: Seq<char> },
    Steps { steps: Seq<StepModel> },
    Position { x: i32, y: i32 },
    Executing(StepExecuting),
    Completed(AutomationCompleted),
    RecordingStarted,
    RecordingStopped,
    Timing(RandomTimingConfig),
    Action {
        action: Seq<char>,
        status: ActionStatus,
        clipboard_text: Option<Seq<char>>,
        key: Option<Seq<char>>,
        message: Option<Seq<char>>,
    },
    Clipboard { text: Seq<char> },
}

impl View for WebSocketMessage {
    type V = EventModel;

    open spec fn view(&self) -> EventModel {
        match *self {
            WebSocketMessage::StatusUpdate(u) => EventModel::Status {
                status: u.status@,
                message: u.message@,
            },
            WebSocketMessage::StepsUpdate(u) => EventModel::Steps { steps: step_models(u.steps@) },
            WebSocketMessage::MousePosition(p) => EventModel::Position { x: p.x, y: p.y },
            WebSocketMessage::StepExecuting(e) => EventModel::Executing(e),
            WebSocketMessage::AutomationCompleted(c) => EventModel::Completed(c),
            WebSocketMessage::RecordingStarted => EventModel::RecordingStarted,
            WebSocketMessage::RecordingStopped => EventModel::RecordingStopped,
            WebSocketMessage::RandomTimingUpdated(c) => EventModel::Timing(c),
            WebSocketMessage::ActionCompleted(a) => EventModel::Action {
                action: a.action@,
                status: a.status,
                clipboard_text: text_model(a.clipboard_text),
                key: text_model(a.key),
                message: text_model(a.message),
            },
            WebSocketMessage::ClipboardText(t) => EventModel::Clipboard { text: t@ },
        }
    }
}

/// The event that reports a state of the session.
pub fn status_message(status: &str, message: &str) -> (r: WebSocketMessage)
    ensures
        r@ == (EventModel::Status { status: status@, message: message@ }),
{
    WebSocketMessage::StatusUpdate(
        StatusUpdate { status: status.to_owned(), message: message.to_owned() },
    )
}

/// The event that carries a copy of the step list.
pub fn steps_message(steps: &Vec<MacroStep>) -> (r: WebSocketMessage)
    ensures
        r@ == (EventModel::Steps { steps: step_models(steps@) }),
{
    WebSocketMessage::StepsUpdate(StepsUpdate { steps: clone_steps(steps) })
}

} // verus!
