//! The session record shared by every client: the step list, the running and
//! recording flags, the timing randomisation and the registry of connected
//! clients.
//!
//! The registry holds client identifiers only. The transport keeps the
//! channel that belongs to each identifier and delivers what an `Outbound`
//! addresses to it.

use vstd::prelude::*;
use serde_json::Value;
use crate::models::{
    AutomationCompleted, EventModel, MacroStep, RandomTimingConfig, WebSocketMessage, distinct_ids,
    status_message, step_ids, step_models, steps_message,
};
use crate::text::{contains_text, same_text, texts};

verus! {

/// The session record.
#[derive(Debug, PartialEq)]
pub struct AutomationController {
    pub steps: Vec<MacroStep>,
    pub is_running: bool,
    pub is_recording: bool,
    pub random_enabled: bool,
    /// Bit pattern of the lower randomisation factor.
    pub random_min: u32,
    /// Bit pattern of the upper randomisation factor.
    pub random_max: u32,
    /// Identifiers of the connected clients, none of them twice.
    pub clients: Vec<String>,
    pub is_recording_toggle_pending: bool,
}

/// An event and the clients it is to be delivered to.
#[derive(Debug, PartialEq)]
pub struct Outbound {
    pub to: Vec<String>,
    pub message: WebSocketMessage,
}

/// Bit pattern of the single-precision number nearest to 0.8.
pub const DEFAULT_MIN_FACTOR: u32 = 0x3F4C_CCCD;

/// Bit pattern of the single-precision number nearest to 1.2.
pub const DEFAULT_MAX_FACTOR: u32 = 0x3F99_999A;

/// Calls `Uuid::new_v4` and writes the identifier in its hyphenated form,
/// which has 36 characters. Which identifier comes out is left to chance, so
/// nothing more is claimed of it.
#[verifier::external_body]
pub(crate) fn fresh_id() -> (r: String)
    ensures
        r@.len() == 36,
{
    uuid::Uuid::new_v4().to_string()
}

/// What a disconnect does to the session: the client is gone from the
/// registry, every other client is still there, and nothing else has
/// changed.
pub open spec fn disconnected(
    before: AutomationController,
    id: Seq<char>,
    after: AutomationController,
) -> bool {
    &&& after == (AutomationController { clients: after.clients, ..before })
    &&& after.wf()
    &&& !after.has_client(id)
    &&& forall|c: Seq<char>| c != id ==> after.has_client(c) == before.has_client(c)
}

impl AutomationController {
    /// The identifiers of the connected clients, in the order they joined.
    pub open spec fn client_ids(&self) -> Seq<Seq<char>> {
        texts(self.clients@)
    }

    /// Whether a client is registered under this identifier.
    pub open spec fn has_client(&self, id: Seq<char>) -> bool {
        self.client_ids().contains(id)
    }

    /// The registry holds no identifier twice.
    pub open spec fn wf(&self) -> bool {
        self.client_ids().no_duplicates()
    }

    /// The randomisation of wait times as one record.
    pub open spec fn timing_model(&self) -> RandomTimingConfig {
        RandomTimingConfig {
            enabled: self.random_enabled,
            min_factor: self.random_min,
            max_factor: self.random_max,
        }
    }

    /// An idle session: no steps, no clients, randomisation off with the
    /// default factors.
    pub fn new() -> (r: Self)
        ensures
            r.wf(),
            r.steps@.len() == 0,
            r.clients@.len() == 0,
            !r.is_running,
            !r.is_recording,
            !r.is_recording_toggle_pending,
            r.timing_model() == (RandomTimingConfig {
                enabled: false,
                min_factor: DEFAULT_MIN_FACTOR,
                max_factor: DEFAULT_MAX_FACTOR,
            }),
    {
        let r = AutomationController {
            steps: Vec::new(),
            is_running: false,
            is_recording: false,
            random_enabled: false,
            random_min: DEFAULT_MIN_FACTOR,
            random_max: DEFAULT_MAX_FACTOR,
            clients: Vec::new(),
            is_recording_toggle_pending: false,
        };
        assert(r.client_ids() =~= Seq::<Seq<char>>::empty());
        r
    }

    /// Whether a client is registered under this identifier.
    pub fn is_connected(&self, id: &str) -> (r: bool)
        ensures
            r == self.has_client(id@),
    {
        contains_text(&self.clients, id)
    }

    /// Registers a client. An identifier that is already registered stays
    /// registered once.
    pub fn add_client(&mut self, id: String)
        requires
            old(self).wf(),
        ensures
            final(self).wf(),
            final(self).client_ids() == if old(self).has_client(id@) {
                old(self).client_ids()
            } else {
                old(self).client_ids().push(id@)
            },
            *final(self) == (AutomationController { clients: final(self).clients, ..*old(self) }),
    {
        if !self.is_connected(id.as_str()) {
            let ghost before = self.client_ids();
            self.clients.push(id);
            assert(self.client_ids() =~= before.push(id@));
        }
    }

    /// Takes a client out of the registry. The others keep their order.
    pub fn remove_client(&mut self, id: &str)
        requires
            old(self).wf(),
        ensures
            disconnected(*old(self), id@, *final(self)),
            final(self).client_ids().len() == if old(self).has_client(id@) {
                old(self).client_ids().len() - 1
            } else {
                old(self).client_ids().len() as int
            },
    {
        let ghost before = self.client_ids();
        let mut i: usize = 0;
        while i < self.clients.len()
            invariant
                i <= self.clients.len(),
                *self == *old(self),
                before == self.client_ids(),
                before.no_duplicates(),
                forall|k: int| 0 <= k < i ==> before[k] != id@,
            decreases self.clients.len() - i,
        {
            if same_text(self.clients[i].as_str(), id) {
                self.clients.remove(i);
                assert(self.client_ids() =~= before.remove(i as int));
                assert forall|c: Seq<char>| c != id@ implies self.has_client(c) == before.contains(
                    c,
                ) by {
                    if before.contains(c) {
                        let k = choose|k: int| 0 <= k < before.len() && before[k] == c;
                        if k < i {
                            assert(self.client_ids()[k] == c);
                        } else {
                            assert(self.client_ids()[k - 1] == c);
                        }
                    }
                    if self.has_client(c) {
                        let k = choose|k: int|
                            0 <= k < self.client_ids().len() && self.client_ids()[k] == c;
                        if k < i {
                            assert(before[k] == c);
                        } else {
                            assert(before[k + 1] == c);
                        }
                    }
                }
                assert(before[i as int] == id@);
                assert forall|a: int, b: int|
                    0 <= a < b < self.client_ids().len() implies self.client_ids()[a]
                    != self.client_ids()[b] by {
                    let a0 = if a < i { a } else { a + 1 };
                    let b0 = if b < i { b } else { b + 1 };
                    assert(self.client_ids()[a] == before[a0]);
                    assert(self.client_ids()[b] == before[b0]);
                }
                assert forall|k: int| 0 <= k < self.client_ids().len() implies self.client_ids()[k]
                    != id@ by {
                    let k0 = if k < i { k } else { k + 1 };
                    assert(self.client_ids()[k] == before[k0]);
                }
                return ;
            }
            i += 1;
        }
    }

    /// Addresses an event to every connected client.
    pub fn broadcast_message(&self, message: WebSocketMessage) -> (r: Outbound)
        ensures
            texts(r.to@) == self.client_ids(),
            r.message == message,
    {
        let mut to: Vec<String> = Vec::new();
        let mut i: usize = 0;
        while i < self.clients.len()
            invariant
                i <= self.clients.len(),
                texts(to@) == self.client_ids().subrange(0, i as int),
            decreases self.clients.len() - i,
        {
            let ghost sent = texts(to@);
            to.push(self.clients[i].clone());
            assert(texts(to@) =~= sent.push(self.clients@[i as int]@));
            assert(texts(to@) =~= self.client_ids().subrange(0, i + 1));
            i += 1;
        }
        assert(self.client_ids().subrange(0, i as int) =~= self.client_ids());
        Outbound { to, message }
    }

    /// Addresses an event to one client, or to nobody where no client is
    /// registered under the identifier.
    pub fn unicast(&self, client_id: &str, message: WebSocketMessage) -> (r: Outbound)
        ensures
            texts(r.to@) == if self.has_client(client_id@) {
                seq![client_id@]
            } else {
                Seq::<Seq<char>>::empty()
            },
            r.message == message,
    {
        let mut to: Vec<String> = Vec::new();
        if self.is_connected(client_id) {
            to.push(client_id.to_owned());
            assert(texts(to@) =~= seq![client_id@]);
        } else {
            assert(texts(to@) =~= Seq::<Seq<char>>::empty());
        }
        Outbound { to, message }
    }

    /// Appends a step under an identifier that the caller supplies.
    pub fn push_step(&mut self, step: MacroStep)
        ensures
            final(self).steps@ == old(self).steps@.push(step),
            *final(self) == (AutomationController { steps: final(self).steps, ..*old(self) }),
    {
        self.steps.push(step);
    }

    /// Appends a step of the given kind and payload under a newly drawn
    /// identifier.
    pub fn add_step(&mut self, step_type: &str, data: Value)
        ensures
            final(self).steps@.len() == old(self).steps@.len() + 1,
            final(self).steps@.drop_last() == old(self).steps@,
            final(self).steps@.last().type_@ == step_type@,
            final(self).steps@.last().data == data,
            final(self).steps@.last().id@.len() == 36,
            *final(self) == (AutomationController { steps: final(self).steps, ..*old(self) }),
    {
        let step = MacroStep { id: fresh_id(), type_: step_type.to_owned(), data };
        self.push_step(step);
        assert(self.steps@.drop_last() =~= old(self).steps@);
    }

    /// Empties the step list.
    pub fn clear_steps(&mut self)
        ensures
            final(self).steps@.len() == 0,
            *final(self) == (AutomationController { steps: final(self).steps, ..*old(self) }),
    {
        self.steps.clear();
    }

    /// Replaces the step list by the one given, identifiers included.
    pub fn replace_steps(&mut self, steps: Vec<MacroStep>)
        ensures
            final(self).steps == steps,
            *final(self) == (AutomationController { steps: final(self).steps, ..*old(self) }),
    {
        self.steps = steps;
    }

    /// The randomisation of wait times.
    pub fn timing(&self) -> (r: RandomTimingConfig)
        ensures
            r == self.timing_model(),
    {
        RandomTimingConfig {
            enabled: self.random_enabled,
            min_factor: self.random_min,
            max_factor: self.random_max,
        }
    }

    /// Replaces the randomisation of wait times.
    pub fn set_timing(&mut self, config: RandomTimingConfig)
        ensures
            final(self).timing_model() == config,
            final(self).steps == old(self).steps,
            final(self).clients == old(self).clients,
            final(self).is_running == old(self).is_running,
            final(self).is_recording == old(self).is_recording,
            final(self).is_recording_toggle_pending == old(self).is_recording_toggle_pending,
    {
        self.random_enabled = config.enabled;
        self.random_min = config.min_factor;
        self.random_max = config.max_factor;
    }

    /// Appends a recorded step under a newly drawn identifier and addresses
    /// the new step list to every client.
    pub fn add_recorded_step(&mut self, step_type: &str, data: Value) -> (r: Outbound)
        ensures
            final(self).steps@.len() == old(self).steps@.len() + 1,
            final(self).steps@.drop_last() == old(self).steps@,
            final(self).steps@.last().type_@ == step_type@,
            final(self).steps@.last().data == data,
            final(self).steps@.last().id@.len() == 36,
            *final(self) == (AutomationController { steps: final(self).steps, ..*old(self) }),
            texts(r.to@) == final(self).client_ids(),
            r.message@ == (EventModel::Steps { steps: step_models(final(self).steps@) }),
    {
        self.add_step(step_type, data);
        let message = self.steps_event();
        self.broadcast_message(message)
    }

    /// Replaces the randomisation of wait times and addresses the new one to
    /// every client. A factor that the request does not give takes its
    /// default.
    pub fn update_timing(
        &mut self,
        enabled: bool,
        min_factor: Option<u32>,
        max_factor: Option<u32>,
    ) -> (r: Outbound)
        ensures
            final(self).timing_model() == (RandomTimingConfig {
                enabled,
                min_factor: match min_factor {
                    Some(f) => f,
                    None => DEFAULT_MIN_FACTOR,
                },
                max_factor: match max_factor {
                    Some(f) => f,
                    None => DEFAULT_MAX_FACTOR,
                },
            }),
            final(self).steps == old(self).steps,
            final(self).clients == old(self).clients,
            final(self).is_running == old(self).is_running,
            final(self).is_recording == old(self).is_recording,
            final(self).is_recording_toggle_pending == old(self).is_recording_toggle_pending,
            texts(r.to@) == final(self).client_ids(),
            r.message@ == EventModel::Timing(final(self).timing_model()),
    {
        let config = RandomTimingConfig {
            enabled,
            min_factor: match min_factor {
                Some(f) => f,
                None => DEFAULT_MIN_FACTOR,
            },
            max_factor: match max_factor {
                Some(f) => f,
                None => DEFAULT_MAX_FACTOR,
            },
        };
        self.set_timing(config);
        self.broadcast_message(WebSocketMessage::RandomTimingUpdated(config))
    }

    /// Ends a pass: addresses its completion to every client, clears the
    /// running flag and addresses the idle status to every client.
    pub fn complete_pass(&mut self, done: AutomationCompleted) -> (r: (Outbound, Outbound))
        ensures
            *final(self) == (AutomationController { is_running: false, ..*old(self) }),
            texts(r.0.to@) == final(self).client_ids(),
            r.0.message@ == EventModel::Completed(done),
            texts(r.1.to@) == final(self).client_ids(),
            r.1.message@ == (EventModel::Status {
                status: "idle"@,
                message: "Automation completed"@,
            }),
    {
        let first = self.broadcast_message(WebSocketMessage::AutomationCompleted(done));
        self.is_running = false;
        let second = self.broadcast_message(status_message("idle", "Automation completed"));
        (first, second)
    }

    /// Records that the hotkey which starts and stops recording was seen, so
    /// that the select-all it may bring with it is passed over once.
    pub fn note_recording_hotkey(&mut self)
        ensures
            *final(self) == (AutomationController {
                is_recording_toggle_pending: true,
                ..*old(self)
            }),
    {
        self.is_recording_toggle_pending = true;
    }

    /// The event that reports the step list to clients.
    pub fn steps_event(&self) -> (r: WebSocketMessage)
        ensures
            r@ == (EventModel::Steps { steps: step_models(self.steps@) }),
    {
        steps_message(&self.steps)
    }
}

/// Appending a step whose identifier is not yet in the list keeps the
/// identifiers distinct, and the steps already there keep their places.
pub proof fn lemma_push_keeps_ids_distinct(steps: Seq<MacroStep>, step: MacroStep)
    requires
        distinct_ids(steps),
        !step_ids(steps).contains(step.id@),
    ensures
        distinct_ids(steps.push(step)),
        forall|i: int| 0 <= i < steps.len() ==> steps.push(step)[i] == steps[i],
        steps.push(step)[steps.len() as int] == step,
{
    let after = steps.push(step);
    assert forall|i: int, j: int| 0 <= i < j < after.len() implies after[i].id@ != after[j].id@ by {
        if j == steps.len() {
            assert(step_ids(steps)[i] == steps[i].id@);
        }
    }
}

} // verus!
