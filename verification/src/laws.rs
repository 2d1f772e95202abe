//! Laws of the control plane: what holds of every session across several
//! requests, proved from the contracts of the dispatcher, the registry and
//! the pass.

use vstd::prelude::*;
use serde_json::Value;
use crate::automation::{AutomationController, disconnected, lemma_push_keeps_ids_distinct};
use crate::dispatch::{Effect, handled_request, to_one};
use crate::execution::{
    Cursor, law_selected_steps_report_their_places, law_uninterrupted_pass, selected,
    selected_places,
};
use crate::models::{EventModel, MacroStep, distinct_ids, step_ids, step_models};
use crate::protocol::Request;
use crate::text::texts;

verus! {

/// Steps that are added one after the other are read back in the order they
/// were added, behind the steps that were there before, each with the kind
/// and the payload it was added with.
pub proof fn law_added_steps_keep_their_order(
    s0: AutomationController,
    s1: AutomationController,
    s2: AutomationController,
    s3: AutomationController,
    client: Seq<char>,
    first: MacroStep,
    second: MacroStep,
    e1: Seq<Effect>,
    e2: Seq<Effect>,
    e3: Seq<Effect>,
)
    requires
        handled_request(
            s0,
            client,
            Request::AddStep { step_type: first.type_, data: first.data },
            s1,
            e1,
        ),
        handled_request(
            s1,
            client,
            Request::AddStep { step_type: second.type_, data: second.data },
            s2,
            e2,
        ),
        handled_request(s2, client, Request::GetSteps, s3, e3),
    ensures
        s3.steps@.len() == s0.steps@.len() + 2,
        s3.steps@.subrange(0, s0.steps@.len() as int) == s0.steps@,
        s3.steps@[s0.steps@.len() as int].type_@ == first.type_@,
        s3.steps@[s0.steps@.len() as int].data == first.data,
        s3.steps@[s0.steps@.len() as int + 1].type_@ == second.type_@,
        s3.steps@[s0.steps@.len() as int + 1].data == second.data,
        to_one(s3, client, e3[0], EventModel::Steps { steps: step_models(s3.steps@) }),
{
    let n = s0.steps@.len() as int;
    assert(s1.steps@.drop_last() == s0.steps@);
    assert(s2.steps@.drop_last() == s1.steps@);
    assert(s2.steps@[n] == s1.steps@[n]) by {
        assert(s2.steps@.drop_last()[n] == s2.steps@[n]);
    }
    assert(s2.steps@.subrange(0, n) =~= s0.steps@) by {
        assert forall|i: int| 0 <= i < n implies s2.steps@[i] == s0.steps@[i] by {
            assert(s2.steps@.drop_last()[i] == s1.steps@[i]);
            assert(s1.steps@.drop_last()[i] == s0.steps@[i]);
        }
    }
}

/// A step that is added under an identifier which the list does not hold
/// yet leaves the identifiers of the list distinct.
pub proof fn law_added_step_keeps_ids_distinct(
    s0: AutomationController,
    s1: AutomationController,
    client: Seq<char>,
    step_type: String,
    data: Value,
    e1: Seq<Effect>,
)
    requires
        handled_request(s0, client, Request::AddStep { step_type, data }, s1, e1),
        distinct_ids(s0.steps@),
        !step_ids(s0.steps@).contains(s1.steps@.last().id@),
    ensures
        distinct_ids(s1.steps@),
{
    let step = s1.steps@.last();
    assert(s1.steps@ =~= s0.steps@.push(step)) by {
        assert(s1.steps@.drop_last() == s0.steps@);
    }
    lemma_push_keeps_ids_distinct(s0.steps@, step);
}

/// After a new order was submitted, the client that asks reads back exactly
/// the submitted list, identifiers included; submitting the same list again
/// leaves the session as it is.
pub proof fn law_submitted_order_is_read_back(
    s0: AutomationController,
    s1: AutomationController,
    s2: AutomationController,
    s3: AutomationController,
    client: Seq<char>,
    steps: Vec<MacroStep>,
    e1: Seq<Effect>,
    e2: Seq<Effect>,
    e3: Seq<Effect>,
)
    requires
        handled_request(s0, client, Request::UpdateStepsOrder { steps }, s1, e1),
        handled_request(s1, client, Request::GetSteps, s2, e2),
        handled_request(s2, client, Request::UpdateStepsOrder { steps }, s3, e3),
    ensures
        s2.steps == steps,
        to_one(s2, client, e2[0], EventModel::Steps { steps: step_models(steps@) }),
        s3 == s2,
{
}

/// A run of the stored steps that is never stopped runs every stored step
/// once in each loop, and the request to go on that follows the last step
/// ends the pass.
pub proof fn law_run_request_runs_every_step(
    s0: AutomationController,
    s1: AutomationController,
    client: Seq<char>,
    loop_count: i32,
    effects: Seq<Effect>,
    k: nat,
)
    requires
        handled_request(
            s0,
            client,
            Request::RunAutomation { loop_count, steps: None },
            s1,
            effects,
        ),
    ensures
        s1.is_running,
        effects[1] matches Effect::StartPass(pass) && {
            &&& pass.steps@ == s0.steps@
            &&& pass.cursor.pass_length() == if loop_count > 0 {
                loop_count * s0.steps@.len()
            } else {
                0
            }
            &&& (pass.cursor.run(k).due(true) <==> k < pass.cursor.pass_length())
            &&& (k > pass.cursor.pass_length() ==> pass.cursor.run(k).finished)
        },
{
    let pass = effects[1]->StartPass_0;
    law_uninterrupted_pass(pass.cursor, k);
}

/// A run of selected steps runs exactly the stored steps whose identifier
/// was selected, in the order in which they are stored. Where no identifier
/// occurs twice among the stored steps, the index that is reported for each
/// of them is its place among the stored steps.
pub proof fn law_selected_run_reports_stored_places(
    s0: AutomationController,
    s1: AutomationController,
    client: Seq<char>,
    ids: Vec<String>,
    effects: Seq<Effect>,
    k: int,
)
    requires
        handled_request(s0, client, Request::RunStepsById { ids }, s1, effects),
        distinct_ids(s0.steps@),
        0 <= k < selected(s0.steps@, texts(ids@)).len(),
    ensures
        effects[1] matches Effect::StartPass(pass) && {
            &&& pass.steps@ == selected(s0.steps@, texts(ids@))
            &&& pass.cursor.total_loops == 1
            &&& texts(ids@).contains(pass.steps@[k].id@)
            &&& 0 <= pass.indices@[k] < s0.steps@.len()
            &&& s0.steps@[pass.indices@[k] as int] == pass.steps@[k]
            &&& pass.indices@[k] == selected_places(s0.steps@, texts(ids@))[k]
            &&& forall|a: int, b: int|
                0 <= a < b < selected_places(s0.steps@, texts(ids@)).len() ==> selected_places(
                    s0.steps@,
                    texts(ids@),
                )[a] < selected_places(s0.steps@, texts(ids@))[b]
        },
{
    let pass = effects[1]->StartPass_0;
    law_selected_steps_report_their_places(
        s0.steps@,
        texts(ids@),
        k,
        pass.indices@[k] as int,
    );
}

/// After a request to stop, a pass that is asked to go on runs no further
/// step and ends.
pub proof fn law_stop_request_ends_pass(
    s0: AutomationController,
    s1: AutomationController,
    client: Seq<char>,
    effects: Seq<Effect>,
    cursor: Cursor,
)
    requires
        handled_request(s0, client, Request::StopAutomation, s1, effects),
    ensures
        !s1.is_running,
        !cursor.due(s1.is_running),
        cursor.after(s1.is_running).finished,
{
}

/// A client that disconnects while a pass is under way changes nothing for
/// the pass: the running flag and the steps stay as they are, so the pass
/// goes on exactly as it would have. Events that are sent afterwards go to
/// every other client and not to the one that left.
pub proof fn law_disconnect_leaves_pass_alone(
    before: AutomationController,
    after: AutomationController,
    id: Seq<char>,
    cursor: Cursor,
)
    requires
        before.wf(),
        disconnected(before, id, after),
    ensures
        cursor.due(after.is_running) == cursor.due(before.is_running),
        cursor.after(after.is_running) == cursor.after(before.is_running),
        after.steps == before.steps,
        !after.client_ids().contains(id),
        forall|other: Seq<char>|
            other != id ==> after.client_ids().contains(other) == before.client_ids().contains(
                other,
            ),
{
    assert forall|other: Seq<char>| other != id implies after.client_ids().contains(other)
        == before.client_ids().contains(other) by {
        assert(after.has_client(other) == before.has_client(other));
    }
}

} // verus!
