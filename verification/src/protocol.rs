//! The inbound protocol: what a client's message asks for.
//!
//! A message is a JSON object. One that has a `command` asks for a one-shot
//! device action; any other is read by its `type` as a request on the
//! session. A message that is no JSON, has neither field, names something
//! unknown or lacks the payload its request needs asks for nothing.

use vstd::prelude::*;
use serde_json::Value;
use crate::json::{
    Json, as_text, borrowed_json, get_flag, get_integer, get_items, get_member, get_text, json_of,
    json_parsed, jsons, lookup, member, member_flag, member_integer, member_items, member_text,
    option_json, parse, str_model, text_of,
};
use crate::models::{MacroStep, StepModel, step_models, text_model};
use crate::text::{same_text, texts};

verus! {

/// A one-shot device action that a client asks for.
#[derive(Debug, PartialEq)]
#[allow(inconsistent_fields)]
pub enum Command {
    PerformCopy,
    PerformPaste { text: Option<String> },
    GetClipboard,
    SetClipboard { text: Option<String> },
    PerformSelectAll,
    KeyPress { key: Option<String> },
    Unknown,
}

/// An operation on the session that a client asks for.
#[derive(Debug, PartialEq)]
#[allow(inconsistent_fields)]
pub enum Request {
    GetSteps,
    GetRandomTiming,
    ClearSteps,
    AddStep { step_type: String, data: Value },
    /// Run the given steps, or the stored ones where none are given.
    RunAutomation { loop_count: i32, steps: Option<Vec<MacroStep>> },
    /// Run once the steps given inline; `submitted` counts the entries of
    /// the list as sent, well-formed or not.
    RunInlineSteps { steps: Vec<MacroStep>, submitted: usize },
    /// Run once the stored steps whose identifier is listed.
    RunStepsById { ids: Vec<String> },
    StopAutomation,
    StartRecording,
    StopRecording,
    ToggleRecording,
    /// The two factors are the JSON numbers as sent, if any were.
    UpdateRandomTiming { enabled: bool, min_factor: Option<Value>, max_factor: Option<Value> },
    UpdateStepsOrder { steps: Vec<MacroStep> },
    /// An unknown type, or a known one without the payload it needs.
    Nothing,
}

/// What a message asks for.
#[derive(Debug, PartialEq)]
pub enum Inbound {
    /// No JSON, or JSON with neither a command nor a type.
    Ignored,
    Command(Command),
    Request(Request),
}

/// The command of a given name, with the `text` and `key` of its message.
pub open spec fn is_command(
    name: Seq<char>,
    text: Option<Seq<char>>,
    key: Option<Seq<char>>,
    r: Command,
) -> bool {
    if name == "perform_copy"@ {
        r is PerformCopy
    } else if name == "perform_paste"@ {
        r matches Command::PerformPaste { text: t } && text_model(t) == text
    } else if name == "get_clipboard"@ {
        r is GetClipboard
    } else if name == "set_clipboard"@ {
        r matches Command::SetClipboard { text: t } && text_model(t) == text
    } else if name == "perform_select_all"@ {
        r is PerformSelectAll
    } else if name == "key_press"@ {
        r matches Command::KeyPress { key: k } && text_model(k) == key
    } else {
        r is Unknown
    }
}

/// Copies an optional text.
pub fn owned_text(text: Option<&str>) -> (r: Option<String>)
    ensures
        text_model(r) == str_model(text),
{
    match text {
        Some(t) => Some(t.to_owned()),
        None => None,
    }
}

/// The command of a given name.
pub fn command_from(name: &str, text: Option<&str>, key: Option<&str>) -> (r: Command)
    ensures
        is_command(name@, str_model(text), str_model(key), r),
{
    if same_text(name, "perform_copy") {
        Command::PerformCopy
    } else if same_text(name, "perform_paste") {
        Command::PerformPaste { text: owned_text(text) }
    } else if same_text(name, "get_clipboard") {
        Command::GetClipboard
    } else if same_text(name, "set_clipboard") {
        Command::SetClipboard { text: owned_text(text) }
    } else if same_text(name, "perform_select_all") {
        Command::PerformSelectAll
    } else if same_text(name, "key_press") {
        Command::KeyPress { key: owned_text(key) }
    } else {
        Command::Unknown
    }
}

/// The step that an entry of a submitted list describes: it needs a text
/// under `id`, a text under `type` and anything under `data`.
pub open spec fn step_from(item: Json) -> Option<StepModel> {
    match (member_text(item, "id"@), member_text(item, "type"@), lookup(item, "data"@)) {
        (Some(id), Some(kind), Some(data)) => Some(StepModel { id, kind, data }),
        _ => None,
    }
}

/// The steps that a submitted list describes, in order; entries that
/// describe none are passed over.
pub open spec fn steps_from(items: Seq<Json>) -> Seq<StepModel>
    decreases items.len(),
{
    if items.len() == 0 {
        Seq::empty()
    } else {
        let rest = steps_from(items.drop_last());
        match step_from(items.last()) {
            Some(step) => rest.push(step),
            None => rest,
        }
    }
}

/// The texts among the entries of a list, in order.
pub open spec fn texts_from(items: Seq<Json>) -> Seq<Seq<char>>
    decreases items.len(),
{
    if items.len() == 0 {
        Seq::empty()
    } else {
        let rest = texts_from(items.drop_last());
        match as_text(items.last()) {
            Some(t) => rest.push(t),
            None => rest,
        }
    }
}

/// Reads the step that an entry of a submitted list describes.
pub fn parse_step(item: &Value) -> (r: Option<MacroStep>)
    ensures
        match r {
            Some(step) => step_from(json_of(*item)) == Some(step@),
            None => step_from(json_of(*item)) is None,
        },
{
    let id = get_text(item, "id");
    let kind = get_text(item, "type");
    let data = get_member(item, "data");
    match (id, kind, data) {
        (Some(id), Some(kind), Some(data)) => Some(
            MacroStep { id: id.to_owned(), type_: kind.to_owned(), data },
        ),
        _ => None,
    }
}

/// Reads the steps that a submitted list describes.
pub fn parse_steps(items: &Vec<Value>) -> (r: Vec<MacroStep>)
    ensures
        step_models(r@) == steps_from(jsons(items@)),
{
    let mut out: Vec<MacroStep> = Vec::new();
    let mut i: usize = 0;
    assert(step_models(out@) =~= Seq::<StepModel>::empty());
    while i < items.len()
        invariant
            i <= items.len(),
            step_models(out@) == steps_from(jsons(items@).take(i as int)),
        decreases items.len() - i,
    {
        assert(jsons(items@).take(i + 1).drop_last() =~= jsons(items@).take(i as int));
        assert(jsons(items@).take(i + 1).last() == json_of(items@[i as int]));
        let ghost before = step_models(out@);
        match parse_step(&items[i]) {
            Some(step) => {
                out.push(step);
                assert(step_models(out@) =~= before.push(step@));
            },
            None => {},
        }
        i += 1;
    }
    assert(jsons(items@).take(i as int) =~= jsons(items@));
    out
}

/// Reads the texts among the entries of a list.
pub fn parse_ids(items: &Vec<Value>) -> (r: Vec<String>)
    ensures
        texts(r@) == texts_from(jsons(items@)),
{
    let mut out: Vec<String> = Vec::new();
    let mut i: usize = 0;
    assert(texts(out@) =~= Seq::<Seq<char>>::empty());
    while i < items.len()
        invariant
            i <= items.len(),
            texts(out@) == texts_from(jsons(items@).take(i as int)),
        decreases items.len() - i,
    {
        assert(jsons(items@).take(i + 1).drop_last() =~= jsons(items@).take(i as int));
        assert(jsons(items@).take(i + 1).last() == json_of(items@[i as int]));
        let ghost before = texts(out@);
        match text_of(&items[i]) {
            Some(t) => {
                out.push(t.to_owned());
                assert(texts(out@) =~= before.push(t@));
            },
            None => {},
        }
        i += 1;
    }
    assert(jsons(items@).take(i as int) =~= jsons(items@));
    out
}

/// The kind of a step that a client adds: the text under `step_type`, else
/// the text under `type`, else `unknown`.
pub open spec fn added_kind(data: Json) -> Seq<char> {
    match member_text(data, "step_type"@) {
        Some(k) => k,
        None => match member_text(data, "type"@) {
            Some(k) => k,
            None => "unknown"@,
        },
    }
}

/// The number of loops that a payload asks for: the integer under
/// `loop_count` cut to 32 bits, and one where there is none.
pub open spec fn asked_loops(data: Json) -> i32 {
    match member_integer(data, "loop_count"@) {
        Some(n) => n as i32,
        None => 1,
    }
}

/// The truth value under `enabled`, and no where there is none.
pub open spec fn asked_enabled(data: Json) -> bool {
    match member_flag(data, "enabled"@) {
        Some(b) => b,
        None => false,
    }
}

/// A request to add a step carries the whole payload as the step's data.
pub open spec fn is_add_step(data: Json, r: Request) -> bool {
    &&& r matches Request::AddStep { step_type, data: step_data }
    &&& step_type@ == added_kind(data)
    &&& json_of(step_data) == data
}

/// A request to run carries the steps of the list under `steps`, where the
/// payload has a list there.
pub open spec fn is_run_automation(data: Json, r: Request) -> bool {
    &&& r matches Request::RunAutomation { loop_count, steps }
    &&& loop_count == asked_loops(data)
    &&& match member_items(data, "steps"@) {
        Some(items) => steps matches Some(list) && step_models(list@) == steps_from(items),
        None => steps is None,
    }
}

/// A request to run a selection goes by the list under `steps` where the
/// payload has one, else by the texts in the list under `step_ids`. An empty
/// selection asks for nothing.
pub open spec fn is_run_selected(data: Json, r: Request) -> bool {
    match member_items(data, "steps"@) {
        Some(items) => if items.len() > 0 {
            &&& r matches Request::RunInlineSteps { steps, submitted }
            &&& submitted == items.len()
            &&& step_models(steps@) == steps_from(items)
        } else {
            r is Nothing
        },
        None => match member_items(data, "step_ids"@) {
            Some(items) => if texts_from(items).len() > 0 {
                r matches Request::RunStepsById { ids } && texts(ids@) == texts_from(items)
            } else {
                r is Nothing
            },
            None => r is Nothing,
        },
    }
}

/// A request to update the timing carries the two factors as they stand in
/// the payload.
pub open spec fn is_update_timing(data: Json, r: Request) -> bool {
    &&& r matches Request::UpdateRandomTiming { enabled, min_factor, max_factor }
    &&& enabled == asked_enabled(data)
    &&& option_json(min_factor) == lookup(data, "min_factor"@)
    &&& option_json(max_factor) == lookup(data, "max_factor"@)
}

/// A request to reorder carries the steps of the list under `steps`; without
/// a list there it asks for nothing.
pub open spec fn is_update_order(data: Json, r: Request) -> bool {
    match member_items(data, "steps"@) {
        Some(items) => r matches Request::UpdateStepsOrder { steps } && step_models(steps@)
            == steps_from(items),
        None => r is Nothing,
    }
}

/// The request of a given type, read from the payload under `data`.
pub open spec fn is_request(kind: Seq<char>, data: Option<Json>, r: Request) -> bool {
    if kind == "get_steps"@ {
        r is GetSteps
    } else if kind == "get_random_timing"@ {
        r is GetRandomTiming
    } else if kind == "clear_steps"@ {
        r is ClearSteps
    } else if kind == "stop_automation"@ {
        r is StopAutomation
    } else if kind == "start_recording"@ {
        r is StartRecording
    } else if kind == "stop_recording"@ {
        r is StopRecording
    } else if kind == "toggle_recording"@ {
        r is ToggleRecording
    } else {
        match data {
            None => r is Nothing,
            Some(d) => if kind == "add_step"@ {
                is_add_step(d, r)
            } else if kind == "run_automation"@ {
                is_run_automation(d, r)
            } else if kind == "run_selected_steps"@ {
                is_run_selected(d, r)
            } else if kind == "update_random_timing"@ {
                is_update_timing(d, r)
            } else if kind == "update_steps_order"@ {
                is_update_order(d, r)
            } else {
                r is Nothing
            },
        }
    }
}

/// Reads the request of a given type from the payload under `data`.
pub fn request_from(kind: &str, data: Option<&Value>) -> (r: Request)
    ensures
        is_request(kind@, borrowed_json(data), r),
{
    if same_text(kind, "get_steps") {
        return Request::GetSteps;
    }
    if same_text(kind, "get_random_timing") {
        return Request::GetRandomTiming;
    }
    if same_text(kind, "clear_steps") {
        return Request::ClearSteps;
    }
    if same_text(kind, "stop_automation") {
        return Request::StopAutomation;
    }
    if same_text(kind, "start_recording") {
        return Request::StartRecording;
    }
    if same_text(kind, "stop_recording") {
        return Request::StopRecording;
    }
    if same_text(kind, "toggle_recording") {
        return Request::ToggleRecording;
    }
    let d = match data {
        Some(d) => d,
        None => {
            return Request::Nothing;
        },
    };
    if same_text(kind, "add_step") {
        let step_type = match get_text(d, "step_type") {
            Some(k) => k.to_owned(),
            None => match get_text(d, "type") {
                Some(k) => k.to_owned(),
                None => "unknown".to_owned(),
            },
        };
        Request::AddStep { step_type, data: d.clone() }
    } else if same_text(kind, "run_automation") {
        let loop_count: i32 = match get_integer(d, "loop_count") {
            Some(n) => #[verifier::truncate]
            (n as i32),
            None => 1,
        };
        let steps = match get_items(d, "steps") {
            Some(items) => Some(parse_steps(items)),
            None => None,
        };
        Request::RunAutomation { loop_count, steps }
    } else if same_text(kind, "run_selected_steps") {
        match get_items(d, "steps") {
            Some(items) => {
                if items.len() > 0 {
                    Request::RunInlineSteps { steps: parse_steps(items), submitted: items.len() }
                } else {
                    Request::Nothing
                }
            },
            None => match get_items(d, "step_ids") {
                Some(items) => {
                    let ids = parse_ids(items);
                    if ids.len() > 0 {
                        Request::RunStepsById { ids }
                    } else {
                        Request::Nothing
                    }
                },
                None => Request::Nothing,
            },
        }
    } else if same_text(kind, "update_random_timing") {
        let enabled = match get_flag(d, "enabled") {
            Some(b) => b,
            None => false,
        };
        Request::UpdateRandomTiming {
            enabled,
            min_factor: get_member(d, "min_factor"),
            max_factor: get_member(d, "max_factor"),
        }
    } else if same_text(kind, "update_steps_order") {
        match get_items(d, "steps") {
            Some(items) => Request::UpdateStepsOrder { steps: parse_steps(items) },
            None => Request::Nothing,
        }
    } else {
        Request::Nothing
    }
}

/// What a JSON document asks for: its command where it has one, else the
/// request of its type.
pub open spec fn is_inbound(doc: Json, r: Inbound) -> bool {
    match member_text(doc, "command"@) {
        Some(name) => r matches Inbound::Command(c) && is_command(
            name,
            member_text(doc, "text"@),
            member_text(doc, "key"@),
            c,
        ),
        None => match member_text(doc, "type"@) {
            Some(kind) => r matches Inbound::Request(q) && is_request(
                kind,
                lookup(doc, "data"@),
                q,
            ),
            None => r is Ignored,
        },
    }
}

/// Reads what a JSON document asks for.
pub fn decode_document(doc: &Value) -> (r: Inbound)
    ensures
        is_inbound(json_of(*doc), r),
{
    match get_text(doc, "command") {
        Some(name) => Inbound::Command(
            command_from(name, get_text(doc, "text"), get_text(doc, "key")),
        ),
        None => match get_text(doc, "type") {
            Some(kind) => Inbound::Request(request_from(kind, member(doc, "data"))),
            None => Inbound::Ignored,
        },
    }
}

/// Reads what a client's message asks for. A text that is no JSON asks for
/// nothing.
pub fn decode(text: &str) -> (r: Inbound)
    ensures
        match json_parsed(text@) {
            Some(doc) => is_inbound(doc, r),
            None => r is Ignored,
        },
{
    match parse(text) {
        Some(doc) => decode_document(&doc),
        None => Inbound::Ignored,
    }
}

} // verus!
