//! The execution engine: which steps a pass runs, what each asks of the
//! input driver, and the cursor that walks the pass step by step.
//!
//! The engine performs nothing itself. The caller asks the pass for its next
//! action, handing in the session's running flag as it stands at that
//! moment; it then sends the progress event, performs the device action and
//! waits, and asks again.

use vstd::prelude::*;
use serde_json::Value;
use crate::json::{
    Json, get_flag, get_integer, get_member, get_text, json_of, lookup, member_flag,
    member_integer, member_text, option_json, str_model,
};
use crate::models::{
    AutomationCompleted, MacroStep, MouseButton, StepExecuting, StepModel, distinct_ids,
};
use crate::text::{contains_text, lowercase, lowercased, same_text, texts};

verus! {

/// What a step asks of the input driver.
#[derive(Debug, PartialEq)]
pub enum DeviceAction {
    MoveTo { x: i32, y: i32 },
    Click { button: MouseButton },
    DoubleClick { button: MouseButton },
    PressKey { key: String },
    Nothing,
}

/// A device action as contracts see it.
pub enum ActionModel {
    MoveTo { x: i32, y: i32 },
    Click { button: MouseButton },
    DoubleClick { button: MouseButton },
    PressKey { key: Seq<char> },
    Nothing,
}

impl View for DeviceAction {
    type V = ActionModel;

    open spec fn view(&self) -> ActionModel {
        match *self {
            DeviceAction::MoveTo { x, y } => ActionModel::MoveTo { x, y },
            DeviceAction::Click { button } => ActionModel::Click { button },
            DeviceAction::DoubleClick { button } => ActionModel::DoubleClick { button },
            DeviceAction::PressKey { key } => ActionModel::PressKey { key: key@ },
            DeviceAction::Nothing => ActionModel::Nothing,
        }
    }
}

/// The button that a lower-case name stands for: `right`, `middle`, and the
/// left button for every other name.
pub open spec fn button_named(name: Seq<char>) -> MouseButton {
    if name == "right"@ {
        MouseButton::Right
    } else if name == "middle"@ {
        MouseButton::Middle
    } else {
        MouseButton::Left
    }
}

/// The button that a lower-case name stands for.
pub fn button_from_name(name: &str) -> (r: MouseButton)
    ensures
        r == button_named(name@),
{
    if same_text(name, "right") {
        MouseButton::Right
    } else if same_text(name, "middle") {
        MouseButton::Middle
    } else {
        MouseButton::Left
    }
}

/// The button that a payload names, in any letter case; the left button
/// where it names none.
pub fn parse_button(name: Option<&str>) -> (r: MouseButton)
    ensures
        r == match name {
            Some(n) => button_named(lowercased(n@)),
            None => MouseButton::Left,
        },
{
    match name {
        Some(n) => {
            let lower = lowercase(n);
            button_from_name(lower.as_str())
        },
        None => MouseButton::Left,
    }
}

/// The device action of a step, from its kind and what its payload holds
/// under `x`, `y` and `key`, and the button it names.
pub open spec fn action_for(
    kind: Seq<char>,
    x: Option<i64>,
    y: Option<i64>,
    button: MouseButton,
    key: Option<Seq<char>>,
) -> ActionModel {
    if kind == "mouse_move"@ {
        match (x, y) {
            (Some(x), Some(y)) => ActionModel::MoveTo { x: x as i32, y: y as i32 },
            _ => ActionModel::Nothing,
        }
    } else if kind == "mouse_click"@ {
        ActionModel::Click { button }
    } else if kind == "mouse_double_click"@ {
        ActionModel::DoubleClick { button }
    } else if kind == "key_press"@ {
        match key {
            Some(k) => ActionModel::PressKey { key: k },
            None => ActionModel::Nothing,
        }
    } else {
        ActionModel::Nothing
    }
}

/// The device action of a step. A move needs both coordinates and a key
/// press needs its key; a step that lacks them, a `wait`, a `group` and a
/// step of unknown kind ask nothing of the device. Coordinates are cut to 32
/// bits.
pub fn device_action(
    kind: &str,
    x: Option<i64>,
    y: Option<i64>,
    button: MouseButton,
    key: Option<&str>,
) -> (r: DeviceAction)
    ensures
        r@ == action_for(kind@, x, y, button, str_model(key)),
{
    if same_text(kind, "mouse_move") {
        match (x, y) {
            (Some(x), Some(y)) => DeviceAction::MoveTo {
                x: #[verifier::truncate]
                (x as i32),
                y: #[verifier::truncate]
                (y as i32),
            },
            _ => DeviceAction::Nothing,
        }
    } else if same_text(kind, "mouse_click") {
        DeviceAction::Click { button }
    } else if same_text(kind, "mouse_double_click") {
        DeviceAction::DoubleClick { button }
    } else if same_text(kind, "key_press") {
        match key {
            Some(k) => DeviceAction::PressKey { key: k.to_owned() },
            None => DeviceAction::Nothing,
        }
    } else {
        DeviceAction::Nothing
    }
}

/// The button that a step's payload names.
pub open spec fn step_button(data: Json) -> MouseButton {
    match member_text(data, "button"@) {
        Some(n) => button_named(lowercased(n)),
        None => MouseButton::Left,
    }
}

/// The device action of a step, read from its payload.
pub open spec fn step_action_model(kind: Seq<char>, data: Json) -> ActionModel {
    action_for(
        kind,
        member_integer(data, "x"@),
        member_integer(data, "y"@),
        step_button(data),
        member_text(data, "key"@),
    )
}

/// Reads a step's payload and gives its device action.
pub fn step_action(step: &MacroStep) -> (r: DeviceAction)
    ensures
        r@ == step_action_model(step.type_@, json_of(step.data)),
{
    let x = get_integer(&step.data, "x");
    let y = get_integer(&step.data, "y");
    let button = parse_button(get_text(&step.data, "button"));
    let key = get_text(&step.data, "key");
    device_action(step.type_.as_str(), x, y, button, key)
}

/// Whether a step's wait is to be randomised: the truth value under
/// `randomize`, and no where there is none.
pub open spec fn step_randomized(data: Json) -> bool {
    match member_flag(data, "randomize"@) {
        Some(b) => b,
        None => false,
    }
}

/// How long to wait after a step, as its payload states it. The number under
/// `wait_time` is handed on as it stands; the caller reads it, takes one
/// second where there is none, and scales it where `randomize` is set.
#[derive(Debug, PartialEq)]
pub struct WaitSpec {
    pub wait_time: Option<Value>,
    pub randomize: bool,
}

/// Reads the wait of a step from its payload.
pub fn step_wait(step: &MacroStep) -> (r: WaitSpec)
    ensures
        option_json(r.wait_time) == lookup(json_of(step.data), "wait_time"@),
        r.randomize == step_randomized(json_of(step.data)),
{
    let randomize = match get_flag(&step.data, "randomize") {
        Some(b) => b,
        None => false,
    };
    WaitSpec { wait_time: get_member(&step.data, "wait_time"), randomize }
}

/// The steps whose identifier is among `ids`, in the order they have in
/// `steps`.
pub open spec fn selected(steps: Seq<MacroStep>, ids: Seq<Seq<char>>) -> Seq<MacroStep>
    decreases steps.len(),
{
    if steps.len() == 0 {
        Seq::empty()
    } else {
        let rest = selected(steps.drop_last(), ids);
        if ids.contains(steps.last().id@) {
            rest.push(steps.last())
        } else {
            rest
        }
    }
}

/// The places in `steps` of the steps whose identifier is among `ids`,
/// ascending.
pub open spec fn selected_places(steps: Seq<MacroStep>, ids: Seq<Seq<char>>) -> Seq<int>
    decreases steps.len(),
{
    if steps.len() == 0 {
        Seq::empty()
    } else {
        let rest = selected_places(steps.drop_last(), ids);
        if ids.contains(steps.last().id@) {
            rest.push(steps.len() - 1)
        } else {
            rest
        }
    }
}

/// `index` is the first place in `steps` of a step with this identifier.
pub open spec fn is_first_position(steps: Seq<MacroStep>, id: Seq<char>, index: int) -> bool {
    &&& 0 <= index < steps.len()
    &&& steps[index].id@ == id
    &&& forall|k: int| 0 <= k < index ==> steps[k].id@ != id
}

/// `index` is what a progress event reports for a step: the first place of
/// its identifier in the list the pass was started on, or `fallback` where
/// that list holds no such identifier.
pub open spec fn is_reported_index(
    all: Seq<MacroStep>,
    id: Seq<char>,
    fallback: int,
    index: int,
) -> bool {
    ||| is_first_position(all, id, index)
    ||| (index == fallback && forall|k: int| 0 <= k < all.len() ==> all[k].id@ != id)
}

/// Keeps the steps whose identifier is among `ids`, in their order.
pub fn filter_steps(steps: &Vec<MacroStep>, ids: &Vec<String>) -> (r: Vec<MacroStep>)
    ensures
        r@ == selected(steps@, texts(ids@)),
{
    let mut out: Vec<MacroStep> = Vec::new();
    let mut i: usize = 0;
    while i < steps.len()
        invariant
            i <= steps.len(),
            out@ == selected(steps@.take(i as int), texts(ids@)),
        decreases steps.len() - i,
    {
        assert(steps@.take(i + 1).drop_last() =~= steps@.take(i as int));
        if contains_text(ids, steps[i].id.as_str()) {
            out.push(steps[i].clone());
        }
        i += 1;
    }
    assert(steps@.take(i as int) =~= steps@);
    out
}

/// The first place in `steps` of a step with this identifier.
pub fn position_of(steps: &Vec<MacroStep>, id: &str) -> (r: Option<usize>)
    ensures
        match r {
            Some(i) => is_first_position(steps@, id@, i as int),
            None => forall|k: int| 0 <= k < steps.len() ==> steps@[k].id@ != id@,
        },
{
    let mut i: usize = 0;
    while i < steps.len()
        invariant
            i <= steps.len(),
            forall|k: int| 0 <= k < i ==> steps@[k].id@ != id@,
        decreases steps.len() - i,
    {
        if same_text(steps[i].id.as_str(), id) {
            return Some(i);
        }
        i += 1;
    }
    None
}

/// Where a pass stands: the loop it is in and the next step of that loop.
#[derive(Debug, Clone, Copy, PartialEq, Eq, Structural)]
pub struct Cursor {
    /// Number of steps in each loop.
    pub total_steps: usize,
    /// Number of loops asked for; none is run where it is not positive.
    pub total_loops: i32,
    /// Number of loops in which every step has run.
    pub loop_index: i32,
    /// Number of steps of the current loop that have run.
    pub step_index: usize,
    /// Set once the pass has completed or was stopped.
    pub finished: bool,
}

impl Cursor {
    /// The cursor points at a step of the pass, or at the start of a loop.
    pub open spec fn wf(self) -> bool {
        &&& 0 <= self.loop_index
        &&& (self.step_index < self.total_steps || self.step_index == 0)
    }

    /// The cursor of a pass that has not started.
    pub open spec fn fresh(self) -> bool {
        self.loop_index == 0 && self.step_index == 0 && !self.finished
    }

    /// Whether a step is run when the pass is asked to go on and the session's
    /// running flag is as given.
    pub open spec fn due(self, running: bool) -> bool {
        running && !self.finished && self.total_steps > 0 && self.loop_index < self.total_loops
    }

    /// The cursor after the pass was asked to go on: moved past the step that
    /// was due, or finished where none was.
    pub open spec fn after(self, running: bool) -> Cursor {
        if self.due(running) {
            if self.step_index + 1 == self.total_steps {
                Cursor { loop_index: (self.loop_index + 1) as i32, step_index: 0, ..self }
            } else {
                Cursor { step_index: (self.step_index + 1) as usize, ..self }
            }
        } else {
            Cursor { finished: true, ..self }
        }
    }

    /// Number of steps that are still to run if the pass is never stopped.
    pub open spec fn remaining(self) -> nat {
        if self.finished || self.total_steps == 0 || self.loop_index >= self.total_loops {
            0
        } else {
            ((self.total_loops - self.loop_index) * self.total_steps - self.step_index) as nat
        }
    }

    /// The cursor after the pass was asked `k` times to go on while the
    /// session kept running.
    pub open spec fn run(self, k: nat) -> Cursor
        decreases k,
    {
        if k == 0 {
            self
        } else {
            self.run((k - 1) as nat).after(true)
        }
    }

    /// Number of steps that a whole pass runs.
    pub open spec fn pass_length(self) -> nat {
        if self.total_loops > 0 {
            (self.total_loops * self.total_steps) as nat
        } else {
            0
        }
    }

    /// The cursor of a pass of `total_loops` loops over `total_steps` steps
    /// that has not started.
    pub fn start(total_steps: usize, total_loops: i32) -> (r: Cursor)
        ensures
            r.wf(),
            r.fresh(),
            r.total_steps == total_steps,
            r.total_loops == total_loops,
    {
        Cursor { total_steps, total_loops, loop_index: 0, step_index: 0, finished: false }
    }

    /// Asks the pass to go on. Gives the loop and the step that is to run
    /// now, or `None` where the pass is over: it was stopped, or every step
    /// of every loop has run.
    pub fn advance(&mut self, running: bool) -> (r: Option<(i32, usize)>)
        requires
            old(self).wf(),
        ensures
            final(self).wf(),
            *final(self) == old(self).after(running),
            r == if old(self).due(running) {
                Some((old(self).loop_index, old(self).step_index))
            } else {
                None::<(i32, usize)>
            },
    {
        if running && !self.finished && self.total_steps > 0 && self.loop_index
            < self.total_loops {
            let at = (self.loop_index, self.step_index);
            if self.step_index + 1 == self.total_steps {
                self.loop_index = self.loop_index + 1;
                self.step_index = 0;
            } else {
                self.step_index = self.step_index + 1;
            }
            Some(at)
        } else {
            self.finished = true;
            None
        }
    }
}

/// A step is due exactly while steps remain, and running it leaves one
/// fewer.
pub proof fn lemma_remaining_counts_down(c: Cursor)
    requires
        c.wf(),
    ensures
        c.due(true) <==> c.remaining() > 0,
        c.after(true).wf(),
        c.due(true) ==> c.after(true).remaining() == c.remaining() - 1,
        !c.due(true) ==> c.after(true).remaining() == 0,
{
    let n = c.total_loops - c.loop_index;
    let m = c.total_steps as int;
    let s = c.step_index as int;
    if c.due(true) {
        assert(n * m >= m) by (nonlinear_arith)
            requires
                n >= 1,
                m >= 0,
        ;
        assert((n - 1) * m == n * m - m) by (nonlinear_arith);
        assert(c.remaining() == n * m - s);
        let next = c.after(true);
        if s + 1 == m {
            assert(next.total_loops - next.loop_index == n - 1);
            assert(next.step_index == 0);
            if n == 1 {
                assert(n * m == m) by (nonlinear_arith)
                    requires
                        n == 1,
                ;
            } else {
                assert(next.remaining() == (n - 1) * m - 0);
            }
        } else {
            assert(next.step_index == s + 1);
            assert(next.remaining() == n * m - (s + 1));
        }
    }
}

/// A pass of `N` loops over `M` steps that is never stopped runs a step at
/// each of its first `N * M` requests to go on and at none after them: the
/// request that follows them ends the pass.
pub proof fn law_uninterrupted_pass(c: Cursor, k: nat)
    requires
        c.wf(),
        c.fresh(),
    ensures
        c.run(k).wf(),
        k < c.pass_length() ==> c.run(k).due(true),
        k >= c.pass_length() ==> !c.run(k).due(true),
        k > c.pass_length() ==> c.run(k).finished,
        k <= c.pass_length() ==> c.run(k).remaining() == c.pass_length() - k,
    decreases k,
{
    if k == 0 {
        if c.total_loops > 0 && c.total_steps > 0 {
        } else {
            assert(c.total_loops * c.total_steps <= 0 || c.total_loops <= 0) by (nonlinear_arith)
                requires
                    c.total_loops <= 0 || c.total_steps == 0,
                    c.total_steps >= 0,
            ;
        }
        lemma_remaining_counts_down(c);
    } else {
        let before = c.run((k - 1) as nat);
        law_uninterrupted_pass(c, (k - 1) as nat);
        lemma_remaining_counts_down(before);
        lemma_remaining_counts_down(before.after(true));
    }
}

/// Once the session has stopped running, the pass runs no further step: the
/// request to go on ends it, and it stays ended whatever the flag says
/// later.
pub proof fn law_stop_ends_pass(c: Cursor, later: bool)
    requires
        c.wf(),
    ensures
        !c.due(false),
        c.after(false).finished,
        !c.after(false).due(later),
        c.after(false).after(later) == c.after(false),
{
}

/// What a pass selects, in order, is exactly the steps at the selected
/// places: every one of them carries a selected identifier, the places
/// ascend, and no step with a selected identifier is left out.
pub proof fn lemma_selection_shape(steps: Seq<MacroStep>, ids: Seq<Seq<char>>)
    ensures
        selected(steps, ids).len() == selected_places(steps, ids).len(),
        forall|k: int|
            0 <= k < selected_places(steps, ids).len() ==> {
                &&& 0 <= #[trigger] selected_places(steps, ids)[k] < steps.len()
                &&& selected(steps, ids)[k] == steps[selected_places(steps, ids)[k]]
                &&& ids.contains(selected(steps, ids)[k].id@)
            },
        forall|a: int, b: int|
            0 <= a < b < selected_places(steps, ids).len() ==> selected_places(steps, ids)[a]
                < selected_places(steps, ids)[b],
        forall|j: int|
            0 <= j < steps.len() && ids.contains(#[trigger] steps[j].id@) ==> selected_places(
                steps,
                ids,
            ).contains(j),
    decreases steps.len(),
{
    if steps.len() > 0 {
        let front = steps.drop_last();
        lemma_selection_shape(front, ids);
        let places = selected_places(steps, ids);
        let rest = selected_places(front, ids);
        assert forall|j: int|
            0 <= j < steps.len() && ids.contains(#[trigger] steps[j].id@) implies places.contains(
            j,
        ) by {
            if j < front.len() {
                assert(front[j] == steps[j]);
                let k = choose|k: int| 0 <= k < rest.len() && rest[k] == j;
                assert(places[k] == j);
            } else {
                assert(places[places.len() - 1] == j);
            }
        }
    }
}

/// Where no identifier occurs twice in the list a pass was started on, the
/// index reported for each selected step is its own place in that list, and
/// the steps run in the order of their places.
pub proof fn law_selected_steps_report_their_places(
    steps: Seq<MacroStep>,
    ids: Seq<Seq<char>>,
    k: int,
    index: int,
)
    requires
        distinct_ids(steps),
        0 <= k < selected(steps, ids).len(),
        is_reported_index(steps, selected(steps, ids)[k].id@, k, index),
    ensures
        index == selected_places(steps, ids)[k],
        0 <= index < steps.len(),
        steps[index] == selected(steps, ids)[k],
        ids.contains(steps[index].id@),
        forall|a: int, b: int|
            0 <= a < b < selected_places(steps, ids).len() ==> selected_places(steps, ids)[a]
                < selected_places(steps, ids)[b],
{
    lemma_selection_shape(steps, ids);
    let place = selected_places(steps, ids)[k];
    assert(steps[place].id@ == selected(steps, ids)[k].id@);
    if index < place {
        assert(steps[index].id@ != steps[place].id@);
    } else if place < index {
        assert(steps[place].id@ != steps[index].id@);
    }
}

/// What is to be done for one step of a pass.
#[derive(Debug, PartialEq)]
pub struct StepPlan {
    /// The progress event to send before the step runs.
    pub event: StepExecuting,
    pub action: DeviceAction,
    pub wait: WaitSpec,
}

/// What a pass asks of its caller next.
#[derive(Debug, PartialEq)]
pub enum PassAction {
    /// Send the event, perform the action, wait, and ask again.
    Execute(StepPlan),
    /// The pass is over: report it and clear the session's running flag.
    Complete(AutomationCompleted),
}

/// One run of a list of steps for a number of loops.
#[derive(Debug, PartialEq)]
pub struct ExecutionPass {
    /// The steps of each loop, in order.
    pub steps: Vec<MacroStep>,
    /// For each of them, the index that its progress event reports.
    pub indices: Vec<usize>,
    pub cursor: Cursor,
}

/// The views of an optional list of identifiers.
pub open spec fn ids_model(ids: Option<Vec<String>>) -> Option<Seq<Seq<char>>> {
    match ids {
        Some(list) => Some(texts(list@)),
        None => None,
    }
}

/// The steps that a pass runs in each loop: all of them, or those that an
/// allow-list of identifiers selects.
pub open spec fn pass_steps(all: Seq<MacroStep>, ids: Option<Seq<Seq<char>>>) -> Seq<MacroStep> {
    match ids {
        Some(ids) => selected(all, ids),
        None => all,
    }
}

/// The indices that the progress events of a pass report: without an
/// allow-list each step's place in the pass, with one its place in the list
/// the pass was started on.
pub open spec fn reports(
    all: Seq<MacroStep>,
    ids: Option<Seq<Seq<char>>>,
    indices: Seq<usize>,
) -> bool {
    &&& indices.len() == pass_steps(all, ids).len()
    &&& forall|k: int|
        0 <= k < indices.len() ==> match ids {
            Some(_) => is_reported_index(
                all,
                pass_steps(all, ids)[k].id@,
                k,
                #[trigger] indices[k] as int,
            ),
            None => indices[k] == k,
        }
}

impl ExecutionPass {
    /// The pass has an index for each step and its cursor walks its steps.
    pub open spec fn wf(&self) -> bool {
        &&& self.cursor.wf()
        &&& self.cursor.total_steps == self.steps@.len()
        &&& self.indices@.len() == self.steps@.len()
    }

    /// The step that the cursor points at.
    pub open spec fn step_at_cursor(&self) -> StepModel {
        self.steps@[self.cursor.step_index as int]@
    }

    /// The progress event of the step that the cursor points at.
    pub open spec fn event_at_cursor(&self) -> StepExecuting {
        StepExecuting {
            index: self.indices@[self.cursor.step_index as int],
            total_steps: self.cursor.total_steps,
            completed_steps: self.cursor.step_index,
            current_loop: self.cursor.loop_index,
            total_loops: self.cursor.total_loops,
        }
    }

    /// Prepares a pass over a snapshot of steps. With an allow-list the pass
    /// runs the steps whose identifier is on it, in their order.
    pub fn new(
        steps: Vec<MacroStep>,
        loop_count: i32,
        selected_ids: Option<Vec<String>>,
    ) -> (r: ExecutionPass)
        ensures
            r.wf(),
            r.cursor.fresh(),
            r.cursor.total_loops == loop_count,
            r.steps@ == pass_steps(steps@, ids_model(selected_ids)),
            reports(steps@, ids_model(selected_ids), r.indices@),
    {
        let mut indices: Vec<usize> = Vec::new();
        match selected_ids {
            Some(ids) => {
                let run = filter_steps(&steps, &ids);
                let mut k: usize = 0;
                while k < run.len()
                    invariant
                        k <= run.len(),
                        indices@.len() == k,
                        forall|j: int|
                            0 <= j < k ==> is_reported_index(
                                steps@,
                                run@[j].id@,
                                j,
                                #[trigger] indices@[j] as int,
                            ),
                    decreases run.len() - k,
                {
                    let index = match position_of(&steps, run[k].id.as_str()) {
                        Some(i) => i,
                        None => k,
                    };
                    indices.push(index);
                    k += 1;
                }
                let cursor = Cursor::start(run.len(), loop_count);
                ExecutionPass { steps: run, indices, cursor }
            },
            None => {
                let mut k: usize = 0;
                while k < steps.len()
                    invariant
                        k <= steps.len(),
                        indices@.len() == k,
                        forall|j: int| 0 <= j < k ==> indices@[j] == j,
                    decreases steps.len() - k,
                {
                    indices.push(k);
                    k += 1;
                }
                let cursor = Cursor::start(steps.len(), loop_count);
                ExecutionPass { steps, indices, cursor }
            },
        }
    }

    /// Asks the pass to go on, with the session's running flag as it stands
    /// now. While the flag is set and steps remain, the answer is the plan
    /// of the next step; otherwise the pass is over and stays so.
    pub fn advance(&mut self, running: bool) -> (r: PassAction)
        requires
            old(self).wf(),
        ensures
            final(self).wf(),
            final(self).steps == old(self).steps,
            final(self).indices == old(self).indices,
            final(self).cursor == old(self).cursor.after(running),
            match r {
                PassAction::Execute(plan) => {
                    &&& old(self).cursor.due(running)
                    &&& plan.event == old(self).event_at_cursor()
                    &&& plan.action@ == step_action_model(
                        old(self).step_at_cursor().kind,
                        old(self).step_at_cursor().data,
                    )
                    &&& option_json(plan.wait.wait_time) == lookup(
                        old(self).step_at_cursor().data,
                        "wait_time"@,
                    )
                    &&& plan.wait.randomize == step_randomized(old(self).step_at_cursor().data)
                },
                PassAction::Complete(done) => {
                    &&& !old(self).cursor.due(running)
                    &&& done == (AutomationCompleted {
                        total_loops: old(self).cursor.total_loops,
                        completed_loops: old(self).cursor.loop_index,
                    })
                },
            },
    {
        let total_steps = self.cursor.total_steps;
        let total_loops = self.cursor.total_loops;
        let completed_loops = self.cursor.loop_index;
        match self.cursor.advance(running) {
            Some((current_loop, at)) => {
                let step = &self.steps[at];
                let event = StepExecuting {
                    index: self.indices[at],
                    total_steps,
                    completed_steps: at,
                    current_loop,
                    total_loops,
                };
                PassAction::Execute(
                    StepPlan { event, action: step_action(step), wait: step_wait(step) },
                )
            },
            None => PassAction::Complete(AutomationCompleted { total_loops, completed_loops }),
        }
    }
}

} // verus!
