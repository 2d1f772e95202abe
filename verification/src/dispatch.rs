//! The dispatcher: what a request does to the session and what follows from
//! it.
//!
//! Handling a message changes the session and yields a list of effects for
//! the caller to carry out: events to deliver, a device command to perform,
//! a pass or a recorder to start. The dispatcher never waits for a device;
//! the reply to a device command is made once its outcome is known.

use vstd::prelude::*;
use vstd::string::StringExecFns;
use serde_json::Value;
use crate::automation::{AutomationController, Outbound, fresh_id};
use crate::execution::{ExecutionPass, ids_model, pass_steps, reports};
use crate::json::str_model;
use crate::models::{
    ActionCompleted, ActionStatus, EventModel, MacroStep, StepModel, WebSocketMessage,
    clone_steps, status_message, step_models,
};
use crate::protocol::{Command, Inbound, Request};
use crate::text::{decimal, decimal_text, texts};

verus! {

/// A one-shot device action with everything it needs.
#[derive(Debug, PartialEq)]
#[allow(inconsistent_fields)]
pub enum DeviceCommand {
    Copy,
    Paste { text: Option<String> },
    GetClipboard,
    SetClipboard { text: String },
    SelectAll,
    KeyPress { key: String },
}

/// What the caller is to carry out after a message was handled.
#[derive(Debug, PartialEq)]
pub enum Effect {
    /// Deliver an event to the clients it is addressed to.
    Send(Outbound),
    /// Perform a device command away from the session, then reply.
    Perform(DeviceCommand),
    /// Run a pass.
    StartPass(ExecutionPass),
    /// Start sampling input for the recorder.
    StartRecorder,
    /// Read the two factors as numbers and update the timing with them.
    ResolveTiming { enabled: bool, min_factor: Option<Value>, max_factor: Option<Value> },
}

/// The effect delivers this event to every client of the session.
pub open spec fn to_all(session: AutomationController, effect: Effect, event: EventModel) -> bool {
    &&& effect matches Effect::Send(out)
    &&& texts(out.to@) == session.client_ids()
    &&& out.message@ == event
}

/// The effect delivers this event to the one client, if it is registered,
/// and to nobody else.
pub open spec fn to_one(
    session: AutomationController,
    client: Seq<char>,
    effect: Effect,
    event: EventModel,
) -> bool {
    &&& effect matches Effect::Send(out)
    &&& out.message@ == event
    &&& texts(out.to@) == if session.has_client(client) {
        seq![client]
    } else {
        Seq::<Seq<char>>::empty()
    }
}

/// The effect starts a pass that has not begun, over these steps.
pub open spec fn starts_pass(
    effect: Effect,
    all: Seq<MacroStep>,
    loops: i32,
    ids: Option<Seq<Seq<char>>>,
) -> bool {
    &&& effect matches Effect::StartPass(pass)
    &&& pass.wf()
    &&& pass.cursor.fresh()
    &&& pass.cursor.total_loops == loops
    &&& pass.steps@ == pass_steps(all, ids)
    &&& reports(all, ids, pass.indices@)
}

/// The status message of a run of the stored or submitted steps.
pub open spec fn run_message(loops: i32) -> Seq<char> {
    "Running automation with "@ + decimal_text(loops as int) + " loops"@
}

/// The status message of a run of selected steps.
pub open spec fn selection_message(count: nat) -> Seq<char> {
    "Running "@ + decimal_text(count as int) + " selected steps"@
}

/// The note sent with a select-all that was passed over.
pub const SKIPPED_NOTE: &'static str =
    "Select All skipped because it was triggered by F7 key used for recording";

/// The session after recording was switched on or off.
pub open spec fn recording_set(before: AutomationController, on: bool) -> AutomationController {
    AutomationController { is_recording: on, is_recording_toggle_pending: true, ..before }
}

/// What handling a command does.
pub open spec fn handled_command(
    before: AutomationController,
    client: Seq<char>,
    command: Command,
    after: AutomationController,
    effects: Seq<Effect>,
) -> bool {
    match command {
        Command::PerformCopy => after == before && effects.len() == 1 && effects[0]
            == Effect::Perform(DeviceCommand::Copy),
        Command::PerformPaste { text } => after == before && effects.len() == 1 && effects[0]
            == Effect::Perform(DeviceCommand::Paste { text }),
        Command::GetClipboard => after == before && effects.len() == 1 && effects[0]
            == Effect::Perform(DeviceCommand::GetClipboard),
        Command::SetClipboard { text: Some(text) } => after == before && effects.len() == 1
            && effects[0] == Effect::Perform(DeviceCommand::SetClipboard { text }),
        Command::SetClipboard { text: None } => after == before && effects.len() == 0,
        Command::PerformSelectAll => if before.is_recording_toggle_pending {
            &&& after == (AutomationController { is_recording_toggle_pending: false, ..before })
            &&& effects.len() == 1
            &&& to_one(
                after,
                client,
                effects[0],
                EventModel::Action {
                    action: "select_all"@,
                    status: ActionStatus::Skipped,
                    clipboard_text: None,
                    key: None,
                    message: Some(SKIPPED_NOTE@),
                },
            )
        } else {
            after == before && effects.len() == 1 && effects[0] == Effect::Perform(
                DeviceCommand::SelectAll,
            )
        },
        Command::KeyPress { key: Some(key) } => after == before && effects.len() == 1 && effects[0]
            == Effect::Perform(DeviceCommand::KeyPress { key }),
        Command::KeyPress { key: None } => after == before && effects.len() == 0,
        Command::Unknown => after == before && effects.len() == 0,
    }
}

/// What switching recording on does: nothing while it is on already.
pub open spec fn recording_started(
    before: AutomationController,
    after: AutomationController,
    effects: Seq<Effect>,
) -> bool {
    if before.is_recording {
        after == before && effects.len() == 0
    } else {
        &&& after == recording_set(before, true)
        &&& effects.len() == 2
        &&& effects[0] is StartRecorder
        &&& to_all(
            after,
            effects[1],
            EventModel::Status {
                status: "recording"@,
                message: "Recording started - Capturing mouse clicks and keyboard presses"@,
            },
        )
    }
}

/// What switching recording off does: nothing while it is off already.
pub open spec fn recording_stopped(
    before: AutomationController,
    after: AutomationController,
    effects: Seq<Effect>,
) -> bool {
    if !before.is_recording {
        after == before && effects.len() == 0
    } else {
        &&& after == recording_set(before, false)
        &&& effects.len() == 1
        &&& to_all(
            after,
            effects[0],
            EventModel::Status { status: "idle"@, message: "Recording stopped"@ },
        )
    }
}

/// What starting a run does: the running flag is set, the status goes to
/// every client, and a pass over the given steps is handed out.
pub open spec fn run_started(
    before: AutomationController,
    after: AutomationController,
    effects: Seq<Effect>,
    message: Seq<char>,
    all: Seq<MacroStep>,
    loops: i32,
    ids: Option<Seq<Seq<char>>>,
) -> bool {
    &&& after == (AutomationController { is_running: true, ..before })
    &&& effects.len() == 2
    &&& to_all(after, effects[0], EventModel::Status { status: "running"@, message })
    &&& starts_pass(effects[1], all, loops, ids)
}

/// What handling a request does.
pub open spec fn handled_request(
    before: AutomationController,
    client: Seq<char>,
    request: Request,
    after: AutomationController,
    effects: Seq<Effect>,
) -> bool {
    match request {
        Request::GetSteps => after == before && effects.len() == 1 && to_one(
            after,
            client,
            effects[0],
            EventModel::Steps { steps: step_models(before.steps@) },
        ),
        Request::GetRandomTiming => after == before && effects.len() == 1 && to_one(
            after,
            client,
            effects[0],
            EventModel::Timing(before.timing_model()),
        ),
        Request::ClearSteps => {
            &&& after == (AutomationController { steps: after.steps, ..before })
            &&& after.steps@.len() == 0
            &&& effects.len() == 1
            &&& to_all(after, effects[0], EventModel::Steps { steps: Seq::empty() })
        },
        Request::AddStep { step_type, data } => {
            &&& after == (AutomationController { steps: after.steps, ..before })
            &&& after.steps@.len() == before.steps@.len() + 1
            &&& after.steps@.drop_last() == before.steps@
            &&& after.steps@.last().type_@ == step_type@
            &&& after.steps@.last().data == data
            &&& after.steps@.last().id@.len() == 36
            &&& effects.len() == 1
            &&& to_all(after, effects[0], EventModel::Steps { steps: step_models(after.steps@) })
        },
        Request::RunAutomation { loop_count, steps } => run_started(
            before,
            after,
            effects,
            run_message(loop_count),
            match steps {
                Some(list) => list@,
                None => before.steps@,
            },
            loop_count,
            None,
        ),
        Request::RunInlineSteps { steps, submitted } => run_started(
            before,
            after,
            effects,
            selection_message(submitted as nat),
            steps@,
            1,
            None,
        ),
        Request::RunStepsById { ids } => run_started(
            before,
            after,
            effects,
            selection_message(ids@.len()),
            before.steps@,
            1,
            Some(texts(ids@)),
        ),
        Request::StopAutomation => {
            &&& after == (AutomationController { is_running: false, ..before })
            &&& effects.len() == 1
            &&& to_all(
                after,
                effects[0],
                EventModel::Status { status: "stopped"@, message: "Automation stopped"@ },
            )
        },
        Request::StartRecording => recording_started(before, after, effects),
        Request::StopRecording => recording_stopped(before, after, effects),
        Request::ToggleRecording => if before.is_recording {
            recording_stopped(before, after, effects)
        } else {
            recording_started(before, after, effects)
        },
        Request::UpdateRandomTiming { enabled, min_factor, max_factor } => after == before
            && effects.len() == 1 && effects[0] == (Effect::ResolveTiming {
            enabled,
            min_factor,
            max_factor,
        }),
        Request::UpdateStepsOrder { steps } => {
            &&& after == (AutomationController { steps, ..before })
            &&& effects.len() == 1
            &&& to_all(after, effects[0], EventModel::Steps { steps: step_models(steps@) })
        },
        Request::Nothing => after == before && effects.len() == 0,
    }
}

/// What handling a message does to the session, and the effects it yields.
pub open spec fn handled(
    before: AutomationController,
    client: Seq<char>,
    inbound: Inbound,
    after: AutomationController,
    effects: Seq<Effect>,
) -> bool {
    match inbound {
        Inbound::Ignored => after == before && effects.len() == 0,
        Inbound::Command(command) => handled_command(before, client, command, after, effects),
        Inbound::Request(request) => handled_request(before, client, request, after, effects),
    }
}

/// The text of a number between two fixed texts.
fn numbered(front: &str, n: i128, back: &str) -> (r: String)
    ensures
        r@ == front@ + decimal_text(n as int) + back@,
{
    let mut out = String::from_str(front);
    let digits = decimal(n);
    out.append(digits.as_str());
    out.append(back);
    out
}

fn start_run(
    session: &mut AutomationController,
    message: String,
    all: Vec<MacroStep>,
    loops: i32,
    ids: Option<Vec<String>>,
) -> (effects: Vec<Effect>)
    ensures
        run_started(
            *old(session),
            *final(session),
            effects@,
            message@,
            all@,
            loops,
            ids_model(ids),
        ),
{
    session.is_running = true;
    let status = session.broadcast_message(status_message("running", message.as_str()));
    let pass = ExecutionPass::new(all, loops, ids);
    let mut effects: Vec<Effect> = Vec::new();
    effects.push(Effect::Send(status));
    effects.push(Effect::StartPass(pass));
    effects
}

fn start_recording(session: &mut AutomationController) -> (effects: Vec<Effect>)
    ensures
        recording_started(*old(session), *final(session), effects@),
{
    let mut effects: Vec<Effect> = Vec::new();
    if !session.is_recording {
        session.is_recording = true;
        session.is_recording_toggle_pending = true;
        let status = session.broadcast_message(
            status_message(
                "recording",
                "Recording started - Capturing mouse clicks and keyboard presses",
            ),
        );
        effects.push(Effect::StartRecorder);
        effects.push(Effect::Send(status));
    }
    effects
}

fn stop_recording(session: &mut AutomationController) -> (effects: Vec<Effect>)
    ensures
        recording_stopped(*old(session), *final(session), effects@),
{
    let mut effects: Vec<Effect> = Vec::new();
    if session.is_recording {
        session.is_recording = false;
        session.is_recording_toggle_pending = true;
        let status = session.broadcast_message(status_message("idle", "Recording stopped"));
        effects.push(Effect::Send(status));
    }
    effects
}

/// Handles a command of a client.
pub fn handle_command(
    session: &mut AutomationController,
    client_id: &str,
    command: Command,
) -> (effects: Vec<Effect>)
    ensures
        handled_command(*old(session), client_id@, command, *final(session), effects@),
{
    let mut effects: Vec<Effect> = Vec::new();
    match command {
        Command::PerformCopy => {
            effects.push(Effect::Perform(DeviceCommand::Copy));
        },
        Command::PerformPaste { text } => {
            effects.push(Effect::Perform(DeviceCommand::Paste { text }));
        },
        Command::GetClipboard => {
            effects.push(Effect::Perform(DeviceCommand::GetClipboard));
        },
        Command::SetClipboard { text } => {
            match text {
                Some(text) => {
                    effects.push(Effect::Perform(DeviceCommand::SetClipboard { text }));
                },
                None => {},
            }
        },
        Command::PerformSelectAll => {
            if session.is_recording_toggle_pending {
                session.is_recording_toggle_pending = false;
                let reply = WebSocketMessage::ActionCompleted(
                    ActionCompleted {
                        action: "select_all".to_owned(),
                        status: ActionStatus::Skipped,
                        clipboard_text: None,
                        key: None,
                        message: Some(SKIPPED_NOTE.to_owned()),
                    },
                );
                effects.push(Effect::Send(session.unicast(client_id, reply)));
            } else {
                effects.push(Effect::Perform(DeviceCommand::SelectAll));
            }
        },
        Command::KeyPress { key } => {
            match key {
                Some(key) => {
                    effects.push(Effect::Perform(DeviceCommand::KeyPress { key }));
                },
                None => {},
            }
        },
        Command::Unknown => {},
    }
    effects
}

/// Handles a request of a client.
pub fn handle_request(
    session: &mut AutomationController,
    client_id: &str,
    request: Request,
) -> (effects: Vec<Effect>)
    ensures
        handled_request(*old(session), client_id@, request, *final(session), effects@),
{
    let mut effects: Vec<Effect> = Vec::new();
    match request {
        Request::GetSteps => {
            let event = session.steps_event();
            effects.push(Effect::Send(session.unicast(client_id, event)));
        },
        Request::GetRandomTiming => {
            let event = WebSocketMessage::RandomTimingUpdated(session.timing());
            effects.push(Effect::Send(session.unicast(client_id, event)));
        },
        Request::ClearSteps => {
            session.clear_steps();
            let event = session.steps_event();
            assert(step_models(session.steps@) =~= Seq::<StepModel>::empty());
            effects.push(Effect::Send(session.broadcast_message(event)));
        },
        Request::AddStep { step_type, data } => {
            effects.push(Effect::Send(session.add_recorded_step(step_type.as_str(), data)));
        },
        Request::RunAutomation { loop_count, steps } => {
            let message = numbered("Running automation with ", loop_count as i128, " loops");
            let all = match steps {
                Some(list) => list,
                None => clone_steps(&session.steps),
            };
            return start_run(session, message, all, loop_count, None);
        },
        Request::RunInlineSteps { steps, submitted } => {
            let message = numbered("Running ", submitted as i128, " selected steps");
            return start_run(session, message, steps, 1, None);
        },
        Request::RunStepsById { ids } => {
            let message = numbered("Running ", ids.len() as i128, " selected steps");
            let all = clone_steps(&session.steps);
            return start_run(session, message, all, 1, Some(ids));
        },
        Request::StopAutomation => {
            session.is_running = false;
            let status = session.broadcast_message(status_message("stopped", "Automation stopped"));
            effects.push(Effect::Send(status));
        },
        Request::StartRecording => {
            return start_recording(session);
        },
        Request::StopRecording => {
            return stop_recording(session);
        },
        Request::ToggleRecording => {
            if session.is_recording {
                return stop_recording(session);
            } else {
                return start_recording(session);
            }
        },
        Request::UpdateRandomTiming { enabled, min_factor, max_factor } => {
            effects.push(Effect::ResolveTiming { enabled, min_factor, max_factor });
        },
        Request::UpdateStepsOrder { steps } => {
            session.replace_steps(steps);
            let event = session.steps_event();
            effects.push(Effect::Send(session.broadcast_message(event)));
        },
        Request::Nothing => {},
    }
    effects
}

/// Handles what a client's message asks for.
pub fn dispatch(
    session: &mut AutomationController,
    client_id: &str,
    inbound: Inbound,
) -> (effects: Vec<Effect>)
    ensures
        handled(*old(session), client_id@, inbound, *final(session), effects@),
{
    match inbound {
        Inbound::Ignored => Vec::new(),
        Inbound::Command(command) => handle_command(session, client_id, command),
        Inbound::Request(request) => handle_request(session, client_id, request),
    }
}

/// One thing to do on the host for a device command.
#[derive(Debug, PartialEq)]
pub enum DeviceOp {
    SelectAll,
    Copy,
    Paste,
    Pause { millis: u64 },
    /// Read the text of the clipboard; the reply carries it.
    ReadClipboard,
    /// Write a text to the clipboard; the reply may depend on whether that
    /// worked.
    WriteClipboard { text: String },
    /// Press a key; the reply depends on whether that worked.
    PressKey { key: String },
}

/// A device operation as contracts see it.
pub enum OpModel {
    SelectAll,
    Copy,
    Paste,
    Pause { millis: u64 },
    ReadClipboard,
    WriteClipboard { text: Seq<char> },
    PressKey { key: Seq<char> },
}

impl View for DeviceOp {
    type V = OpModel;

    open spec fn view(&self) -> OpModel {
        match *self {
            DeviceOp::SelectAll => OpModel::SelectAll,
            DeviceOp::Copy => OpModel::Copy,
            DeviceOp::Paste => OpModel::Paste,
            DeviceOp::Pause { millis } => OpModel::Pause { millis },
            DeviceOp::ReadClipboard => OpModel::ReadClipboard,
            DeviceOp::WriteClipboard { text } => OpModel::WriteClipboard { text: text@ },
            DeviceOp::PressKey { key } => OpModel::PressKey { key: key@ },
        }
    }
}

/// The models of a list of device operations, in order.
pub open spec fn op_models(ops: Seq<DeviceOp>) -> Seq<OpModel> {
    ops.map_values(|op: DeviceOp| op@)
}

/// The operations of a device command, in order. A copy selects
/// everything first and reads the clipboard last; a paste of a given text
/// writes it to the clipboard first.
pub open spec fn script_of(command: DeviceCommand) -> Seq<OpModel> {
    match command {
        DeviceCommand::Copy => seq![
            OpModel::SelectAll,
            OpModel::Pause { millis: 300 },
            OpModel::Copy,
            OpModel::Pause { millis: 300 },
            OpModel::ReadClipboard,
        ],
        DeviceCommand::Paste { text: Some(text) } => seq![
            OpModel::WriteClipboard { text: text@ },
            OpModel::Pause { millis: 300 },
            OpModel::Paste,
        ],
        DeviceCommand::Paste { text: None } => seq![OpModel::Paste],
        DeviceCommand::GetClipboard => seq![OpModel::ReadClipboard],
        DeviceCommand::SetClipboard { text } => seq![OpModel::WriteClipboard { text: text@ }],
        DeviceCommand::SelectAll => seq![OpModel::SelectAll],
        DeviceCommand::KeyPress { key } => seq![OpModel::PressKey { key: key@ }],
    }
}

/// The operations of a device command, in order.
pub fn command_script(command: &DeviceCommand) -> (r: Vec<DeviceOp>)
    ensures
        op_models(r@) == script_of(*command),
{
    let mut ops: Vec<DeviceOp> = Vec::new();
    match command {
        DeviceCommand::Copy => {
            ops.push(DeviceOp::SelectAll);
            ops.push(DeviceOp::Pause { millis: 300 });
            ops.push(DeviceOp::Copy);
            ops.push(DeviceOp::Pause { millis: 300 });
            ops.push(DeviceOp::ReadClipboard);
        },
        DeviceCommand::Paste { text } => {
            match text {
                Some(text) => {
                    ops.push(DeviceOp::WriteClipboard { text: text.clone() });
                    ops.push(DeviceOp::Pause { millis: 300 });
                },
                None => {},
            }
            ops.push(DeviceOp::Paste);
        },
        DeviceCommand::GetClipboard => {
            ops.push(DeviceOp::ReadClipboard);
        },
        DeviceCommand::SetClipboard { text } => {
            ops.push(DeviceOp::WriteClipboard { text: text.clone() });
        },
        DeviceCommand::SelectAll => {
            ops.push(DeviceOp::SelectAll);
        },
        DeviceCommand::KeyPress { key } => {
            ops.push(DeviceOp::PressKey { key: key.clone() });
        },
    }
    assert(op_models(ops@) =~= script_of(*command));
    ops
}

/// A reply that reports how a command ended, with no details.
pub open spec fn plain_reply(action: Seq<char>, status: ActionStatus) -> EventModel {
    EventModel::Action { action, status, clipboard_text: None, key: None, message: None }
}

/// Success where the operation worked, an error where it did not.
pub open spec fn status_of(succeeded: bool) -> ActionStatus {
    if succeeded {
        ActionStatus::Success
    } else {
        ActionStatus::Error
    }
}

/// The reply to a device command, from the text that was read from the
/// clipboard, if any was, and from whether the write or the key press
/// worked. A clipboard that could not be read counts as empty.
pub open spec fn reply_for(
    command: DeviceCommand,
    clipboard: Option<Seq<char>>,
    succeeded: bool,
) -> EventModel {
    let held = match clipboard {
        Some(text) => text,
        None => Seq::empty(),
    };
    match command {
        DeviceCommand::Copy => EventModel::Action {
            action: "copy"@,
            status: ActionStatus::Success,
            clipboard_text: Some(held),
            key: None,
            message: None,
        },
        DeviceCommand::Paste { .. } => plain_reply("paste"@, ActionStatus::Success),
        DeviceCommand::GetClipboard => EventModel::Clipboard { text: held },
        DeviceCommand::SetClipboard { .. } => plain_reply("set_clipboard"@, status_of(succeeded)),
        DeviceCommand::SelectAll => plain_reply("select_all"@, ActionStatus::Success),
        DeviceCommand::KeyPress { key } => EventModel::Action {
            action: "key_press"@,
            status: status_of(succeeded),
            clipboard_text: None,
            key: Some(key@),
            message: None,
        },
    }
}

fn reply(action: &str, status: ActionStatus) -> (r: WebSocketMessage)
    ensures
        r@ == plain_reply(action@, status),
{
    WebSocketMessage::ActionCompleted(
        ActionCompleted {
            action: action.to_owned(),
            status,
            clipboard_text: None,
            key: None,
            message: None,
        },
    )
}

/// The reply to a device command once its operations were carried out.
pub fn command_reply(
    command: &DeviceCommand,
    clipboard: Option<&str>,
    succeeded: bool,
) -> (r: WebSocketMessage)
    ensures
        r@ == reply_for(*command, str_model(clipboard), succeeded),
{
    let held = match clipboard {
        Some(text) => text.to_owned(),
        None => {
            let empty = String::new();
            assert(empty@ =~= Seq::<char>::empty());
            empty
        },
    };
    let status = if succeeded {
        ActionStatus::Success
    } else {
        ActionStatus::Error
    };
    match command {
        DeviceCommand::Copy => WebSocketMessage::ActionCompleted(
            ActionCompleted {
                action: "copy".to_owned(),
                status: ActionStatus::Success,
                clipboard_text: Some(held),
                key: None,
                message: None,
            },
        ),
        DeviceCommand::Paste { .. } => reply("paste", ActionStatus::Success),
        DeviceCommand::GetClipboard => WebSocketMessage::ClipboardText(held),
        DeviceCommand::SetClipboard { .. } => reply("set_clipboard", status),
        DeviceCommand::SelectAll => reply("select_all", ActionStatus::Success),
        DeviceCommand::KeyPress { key } => WebSocketMessage::ActionCompleted(
            ActionCompleted {
                action: "key_press".to_owned(),
                status,
                clipboard_text: None,
                key: Some(key.clone()),
                message: None,
            },
        ),
    }
}

/// Registers a new connection under a newly drawn identifier and gives the
/// identifier. Where the draw repeats an identifier that is registered, the
/// registry stays as it was and both connections answer to it.
pub fn handle_connection(session: &mut AutomationController) -> (client_id: String)
    requires
        old(session).wf(),
    ensures
        final(session).wf(),
        final(session).has_client(client_id@),
        client_id@.len() == 36,
        final(session).client_ids() == if old(session).has_client(client_id@) {
            old(session).client_ids()
        } else {
            old(session).client_ids().push(client_id@)
        },
        *final(session) == (AutomationController {
            clients: final(session).clients,
            ..*old(session)
        }),
{
    let client_id = fresh_id();
    session.add_client(client_id.clone());
    assert(final(session).has_client(client_id@)) by {
        let ids = session.client_ids();
        if !old(session).has_client(client_id@) {
            assert(ids[ids.len() - 1] == client_id@);
        }
    }
    client_id
}

} // verus!
