//! The decisions of registration and heartbeat, as a machine that is told
//! what happened and answers what to do next. Whoever runs it performs the
//! calls and the waits.

use vstd::prelude::*;
use crate::mdns::NmosMdnsRegistry;
use crate::model::{Graph, ModelView};
use crate::propagator::one_more;
use crate::registration::{
    after, delete_target, heartbeat_target, lemma_plan_size, resource_target,
    Attempt, HttpOutcome, Plan, Progress, RegistrationApi,
};
use crate::registry_queue::{best, RegistryQueue};
use crate::version::APIVersion;

verus! {

/// Where the machine stands.
#[derive(Clone, Copy, Debug, PartialEq, Eq, Structural)]
pub enum Phase {
    /// No registry is being served; the selection timer runs.
    Idle,
    /// A registration pass is under way. The call `attempt` for the step at
    /// place `index` of the plan is out. A pass is `recovering` where a
    /// heartbeat that was not found has caused it.
    Registering { index: usize, attempt: Attempt, recovering: bool },
    /// The node is registered. Either a heartbeat is out (`in_flight`) or
    /// the heartbeat timer runs. The heartbeat is the `first` until one has
    /// been answered with success or the registration has been repeated.
    Heartbeating { first: bool, in_flight: bool },
}

/// What happened.
#[derive(Clone, Copy, Debug, PartialEq, Eq, Structural)]
pub enum Event {
    /// The timer that was asked for has run out.
    Tick,
    /// The call that was asked for has come back.
    Reply(HttpOutcome),
}

/// What is to be done next. Each action ends in one event.
#[derive(Clone, Copy, Debug, PartialEq, Eq, Structural)]
pub enum Action {
    /// Wait for the selection interval, then report a tick.
    WaitSelection,
    /// Wait for the heartbeat interval, then report a tick.
    WaitHeartbeat,
    /// Post the request of the plan's step at this place to the resource
    /// URL, then report the reply.
    Post(usize),
    /// Send a delete to the delete URL, which is that of the plan's step at
    /// this place, then report the reply.
    Delete(usize),
    /// Post an empty body to the heartbeat URL, then report the reply.
    Heartbeat,
}

/// What the machine's surroundings come to at one step.
#[derive(Clone, Copy, Debug, PartialEq, Eq, Structural)]
pub struct Facts {
    /// The queue holds a registry that speaks the revision.
    pub candidate: bool,
    /// A pass can begin: the registry's URLs resolve and there is a plan,
    /// which there is for every graph under a supported revision.
    pub pass_ready: bool,
    /// The graph holds no resource.
    pub graph_empty: bool,
    /// The plan has a step at the place that the phase names.
    pub has_step: bool,
    /// The plan has a step at the place after that.
    pub has_next: bool,
    /// The URL at which that step's resource is deleted resolves.
    pub can_delete: bool,
    /// The plan registers a node and its heartbeat URL resolves.
    pub can_heartbeat: bool,
}

/// How a pass begins: with the first step where there is one. A pass over
/// nothing is over at once: a recovering one goes back to the heartbeat, any
/// other has no node to send a heartbeat for.
pub open spec fn begin(pass_ready: bool, graph_empty: bool, recovering: bool) -> (Phase, Action) {
    if !pass_ready {
        (Phase::Idle, Action::WaitSelection)
    } else if !graph_empty {
        (Phase::Registering { index: 0, attempt: Attempt::Post, recovering }, Action::Post(0))
    } else if recovering {
        (Phase::Heartbeating { first: false, in_flight: true }, Action::Heartbeat)
    } else {
        (Phase::Idle, Action::WaitSelection)
    }
}

/// The machine's step: the phase that follows and what is to be done.
pub open spec fn next(phase: Phase, event: Event, facts: Facts) -> (Phase, Action) {
    match (phase, event) {
        (Phase::Idle, Event::Tick) => if facts.candidate {
            begin(facts.pass_ready, facts.graph_empty, false)
        } else {
            (Phase::Idle, Action::WaitSelection)
        },
        (Phase::Registering { index, attempt, recovering }, Event::Reply(outcome)) => if !facts.has_step {
            (Phase::Idle, Action::WaitSelection)
        } else {
            match after(attempt, outcome) {
                Progress::Call(Attempt::Delete) => if facts.can_delete {
                    (
                        Phase::Registering { index, attempt: Attempt::Delete, recovering },
                        Action::Delete(index),
                    )
                } else {
                    (Phase::Idle, Action::WaitSelection)
                },
                Progress::Call(again) => (
                    Phase::Registering { index, attempt: again, recovering },
                    Action::Post(index),
                ),
                Progress::Registered => if facts.has_next && index < usize::MAX {
                    (
                        Phase::Registering {
                            index: (index + 1) as usize,
                            attempt: Attempt::Post,
                            recovering,
                        },
                        Action::Post((index + 1) as usize),
                    )
                } else if recovering {
                    (Phase::Heartbeating { first: false, in_flight: true }, Action::Heartbeat)
                } else if facts.can_heartbeat {
                    (Phase::Heartbeating { first: true, in_flight: true }, Action::Heartbeat)
                } else {
                    (Phase::Idle, Action::WaitSelection)
                },
                Progress::Failed => (Phase::Idle, Action::WaitSelection),
            }
        },
        (Phase::Heartbeating { first, in_flight: true }, Event::Reply(outcome)) => if outcome.success() {
            (Phase::Heartbeating { first: false, in_flight: false }, Action::WaitHeartbeat)
        } else if outcome.not_found() && first {
            begin(facts.pass_ready, facts.graph_empty, true)
        } else {
            (Phase::Idle, Action::WaitSelection)
        },
        (Phase::Heartbeating { first, in_flight: false }, Event::Tick) => (
            Phase::Heartbeating { first, in_flight: true },
            Action::Heartbeat,
        ),
        _ => (Phase::Idle, Action::WaitSelection),
    }
}

/// The step takes a registry from the queue: the machine is idle and the
/// selection timer has run out.
pub open spec fn selects(phase: Phase, event: Event) -> bool {
    phase is Idle && event is Tick
}

/// The step needs a plan: it has taken a registry from the queue, or a
/// first heartbeat was not found. `candidate` says whether the queue had a
/// registry to take.
pub open spec fn wants_plan(phase: Phase, event: Event, candidate: bool) -> bool {
    ||| selects(phase, event) && candidate
    ||| phase matches Phase::Heartbeating { first: true, in_flight: true } && event matches Event::Reply(
        outcome,
    ) && !outcome.success() && outcome.not_found()
}

/// The step tries to begin a pass.
pub open spec fn tries_pass(phase: Phase, event: Event, facts: Facts) -> bool {
    wants_plan(phase, event, facts.candidate)
}

/// The step ends idle for a reason that shows elsewhere: the queue had no
/// registry to take, the registry refused a call of the pass, or the
/// heartbeat was lost.
pub open spec fn explained(phase: Phase, event: Event, facts: Facts) -> bool {
    match (phase, event) {
        (Phase::Idle, Event::Tick) => !facts.candidate,
        (Phase::Registering { attempt, .. }, Event::Reply(outcome)) => facts.has_step && after(
            attempt,
            outcome,
        ) == Progress::Failed,
        (Phase::Heartbeating { first, in_flight: true }, Event::Reply(outcome)) => !outcome.success()
            && !(outcome.not_found() && first),
        _ => false,
    }
}

/// The step stalls: it ends idle and nothing else shows why. A registry was
/// taken but no pass could begin or there was nothing to register, a URL of
/// the pass did not resolve, the plan had no node to send heartbeats for, or
/// an event came out of turn.
pub open spec fn stalls(phase: Phase, event: Event, facts: Facts) -> bool {
    next(phase, event, facts).0 is Idle && !explained(phase, event, facts)
}

/// The machine with what it works on.
#[derive(Debug)]
pub struct Driver {
    /// The revision of the protocol that is spoken.
    pub api_version: APIVersion,
    /// The registry that is served now, if any.
    pub registry: Option<NmosMdnsRegistry>,
    /// Where resources are posted to at that registry.
    pub resource_url: String,
    /// Where the resource of the step in hand is deleted.
    pub delete_url: String,
    /// Where the heartbeat is posted to at that registry.
    pub heartbeat_url: String,
    /// The plan of the pass in hand, or of the last one.
    pub plan: Plan,
    /// Where the machine stands.
    pub phase: Phase,
    /// How many steps have stalled. The count stops at the largest number it
    /// can hold.
    pub stalled: u64,
}

impl Driver {
    /// The URL of the registry that a step works with: that of the registry
    /// it takes from the queue where it takes one, else that of the one
    /// that is served.
    pub open spec fn registry_url(
        self,
        event: Event,
        queue: Seq<NmosMdnsRegistry>,
    ) -> Option<Seq<char>> {
        if selects(self.phase, event) {
            match best(queue, self.api_version) {
                Some(i) => Some(queue[i].url@),
                None => None,
            }
        } else {
            match self.registry {
                Some(r) => Some(r.url@),
                None => None,
            }
        }
    }

    /// What the surroundings come to for a step of this machine.
    pub open spec fn facts(self, event: Event, queue: Seq<NmosMdnsRegistry>, graph: ModelView) -> Facts {
        let index = match self.phase {
            Phase::Registering { index, .. } => index as int,
            _ => 0,
        };
        let steps = self.plan.flat();
        Facts {
            candidate: best(queue, self.api_version) is Some,
            pass_ready: match self.registry_url(event, queue) {
                Some(url) => resource_target(url, self.api_version) is Some
                    && self.api_version.supported(),
                None => false,
            },
            graph_empty: Self::graph_empty(graph),
            has_step: index < steps.len(),
            has_next: index + 1 < steps.len() && index + 1 <= usize::MAX,
            can_delete: index < steps.len() && delete_target(self.resource_url@, steps[index].path@)
                is Some,
            can_heartbeat: match self.registry {
                Some(r) => self.plan.nodes@.len() > 0 && heartbeat_target(
                    r.url@,
                    self.api_version,
                    self.plan.nodes@[0].id,
                ) is Some,
                None => false,
            },
        }
    }

    /// A machine that serves no registry yet. It speaks one of the
    /// supported revisions.
    pub fn new(api_version: APIVersion) -> (r: Driver)
        requires
            api_version.supported(),
        ensures
            r.api_version == api_version,
            r.registry is None,
            r.phase == Phase::Idle,
            r.plan.flat().len() == 0,
            r.stalled == 0,
    {
        Driver {
            api_version,
            registry: None,
            resource_url: String::new(),
            delete_url: String::new(),
            heartbeat_url: String::new(),
            plan: Plan::empty(),
            phase: Phase::Idle,
            stalled: 0,
        }
    }

    /// The graph holds no resource.
    pub open spec fn graph_empty(graph: ModelView) -> bool {
        graph.nodes.dom().len() == 0 && graph.devices.dom().len() == 0 && graph.sources.dom().len()
            == 0 && graph.flows.dom().len() == 0 && graph.senders.dom().len() == 0
            && graph.receivers.dom().len() == 0
    }

    /// What a step comes to where the registry taken from the queue and the
    /// plan are given: `candidate` is the registry that was taken, if the
    /// queue had one, and `plan` the plan of the graph, if there is one.
    pub open spec fn given_facts(
        self,
        event: Event,
        candidate: Option<NmosMdnsRegistry>,
        plan: Option<Plan>,
    ) -> Facts {
        let index = match self.phase {
            Phase::Registering { index, .. } => index as int,
            _ => 0,
        };
        let steps = self.plan.flat();
        let registry = if selects(self.phase, event) {
            candidate
        } else {
            self.registry
        };
        Facts {
            candidate: candidate is Some,
            pass_ready: match registry {
                Some(r) => resource_target(r.url@, self.api_version) is Some && plan is Some,
                None => false,
            },
            graph_empty: match plan {
                Some(p) => p.flat().len() == 0,
                None => false,
            },
            has_step: index < steps.len(),
            has_next: index + 1 < steps.len() && index + 1 <= usize::MAX,
            can_delete: index < steps.len() && delete_target(self.resource_url@, steps[index].path@)
                is Some,
            can_heartbeat: match self.registry {
                Some(r) => self.plan.nodes@.len() > 0 && heartbeat_target(
                    r.url@,
                    self.api_version,
                    self.plan.nodes@[0].id,
                ) is Some,
                None => false,
            },
        }
    }

    /// What a step on `facts` that leads to `after` and `action` does to the
    /// URLs and the count: a call is made for a step that the plan has, a
    /// delete at the URL of that step's resource, the first heartbeat after
    /// a pass goes to the URL of the first node of the plan, and a step that
    /// stalls is counted.
    pub open spec fn settles(self, event: Event, facts: Facts, after: Driver, action: Action) -> bool {
        let api = self.api_version;
        &&& after.api_version == api
        &&& match action {
            Action::Delete(i) => {
                &&& i < after.plan.flat().len()
                &&& Some(after.delete_url@) == delete_target(
                    after.resource_url@,
                    after.plan.flat()[i as int].path@,
                )
            },
            Action::Post(i) => i < after.plan.flat().len() && after.delete_url == self.delete_url,
            _ => after.delete_url == self.delete_url,
        }
        &&& if self.phase is Registering && after.phase == (Phase::Heartbeating {
            first: true,
            in_flight: true,
        }) {
            &&& after.registry is Some
            &&& after.plan.nodes@.len() > 0
            &&& Some(after.heartbeat_url@) == heartbeat_target(
                after.registry->0.url@,
                api,
                after.plan.nodes@[0].id,
            )
        } else {
            after.heartbeat_url == self.heartbeat_url
        }
        &&& after.stalled == (if stalls(self.phase, event, facts) {
            one_more(self.stalled)
        } else {
            self.stalled
        })
    }

    /// The step from `self` on `event`, given the registry that was taken
    /// from the queue and the plan of the graph, leads to `after` and to
    /// `action`. The phase and the action are those of the machine's step on
    /// the facts of the moment. On a selection the registry that was taken
    /// is served from now on, or none where none was taken. A pass that
    /// begins has the given plan and the resource URL of the registry.
    /// Outside a selection the given registry is not looked at, and the plan
    /// is looked at only where a pass is tried.
    pub open spec fn advances(
        self,
        event: Event,
        candidate: Option<NmosMdnsRegistry>,
        plan: Option<Plan>,
        after: Driver,
        action: Action,
    ) -> bool {
        let facts = self.given_facts(event, candidate, plan);
        let api = self.api_version;
        &&& (after.phase, action) == next(self.phase, event, facts)
        &&& after.registry == (if selects(self.phase, event) {
            candidate
        } else {
            self.registry
        })
        &&& if tries_pass(self.phase, event, facts) && facts.pass_ready {
            &&& Some(after.plan) == plan
            &&& after.registry is Some
            &&& Some(after.resource_url@) == resource_target(after.registry->0.url@, api)
        } else {
            after.plan == self.plan && after.resource_url == self.resource_url
        }
        &&& self.settles(event, facts, after, action)
    }

    /// The step from `self` on `event`, with the queue as it was and the
    /// graph, leads to `after` with the queue as it is and to `action`. The
    /// phase and the action are those of the machine's step on the facts of
    /// the moment. A selection replaces the registry that is served by the
    /// best of the queue. A pass that begins has a plan that registers the
    /// graph and the resource URL of the registry. Everything else stays as
    /// it was, but for the URLs and the count of stalled steps.
    pub open spec fn follows(
        self,
        event: Event,
        queue: Seq<NmosMdnsRegistry>,
        graph: ModelView,
        after: Driver,
        queue_after: Seq<NmosMdnsRegistry>,
        action: Action,
    ) -> bool {
        let facts = self.facts(event, queue, graph);
        let api = self.api_version;
        &&& (after.phase, action) == next(self.phase, event, facts)
        &&& if selects(self.phase, event) {
            match best(queue, api) {
                Some(i) => after.registry == Some(queue[i]) && queue_after == queue.remove(i),
                None => after.registry is None && queue_after == queue,
            }
        } else {
            after.registry == self.registry && queue_after == queue
        }
        &&& if tries_pass(self.phase, event, facts) && facts.pass_ready {
            &&& after.plan.registers_graph(graph, api)
            &&& after.registry is Some
            &&& Some(after.resource_url@) == resource_target(after.registry->0.url@, api)
        } else {
            after.plan == self.plan && after.resource_url == self.resource_url
        }
        &&& self.settles(event, facts, after, action)
    }

    /// The machine's step on given facts: the phase that follows and what
    /// is to be done.
    pub fn decide(phase: Phase, event: Event, facts: &Facts) -> (r: (Phase, Action))
        ensures
            r == next(phase, event, *facts),
    {
        match (phase, event) {
            (Phase::Idle, Event::Tick) => {
                if facts.candidate {
                    Self::decide_pass(facts, false)
                } else {
                    (Phase::Idle, Action::WaitSelection)
                }
            },
            (Phase::Registering { index, attempt, recovering }, Event::Reply(outcome)) => {
                if !facts.has_step {
                    return (Phase::Idle, Action::WaitSelection);
                }
                match RegistrationApi::register_resource(attempt, outcome) {
                    Progress::Call(Attempt::Delete) => {
                        if facts.can_delete {
                            (
                                Phase::Registering { index, attempt: Attempt::Delete, recovering },
                                Action::Delete(index),
                            )
                        } else {
                            (Phase::Idle, Action::WaitSelection)
                        }
                    },
                    Progress::Call(again) => (
                        Phase::Registering { index, attempt: again, recovering },
                        Action::Post(index),
                    ),
                    Progress::Registered => {
                        if facts.has_next && index < usize::MAX {
                            let place: usize = index + 1;
                            (
                                Phase::Registering {
                                    index: place,
                                    attempt: Attempt::Post,
                                    recovering,
                                },
                                Action::Post(place),
                            )
                        } else if recovering {
                            (Phase::Heartbeating { first: false, in_flight: true }, Action::Heartbeat)
                        } else if facts.can_heartbeat {
                            (Phase::Heartbeating { first: true, in_flight: true }, Action::Heartbeat)
                        } else {
                            (Phase::Idle, Action::WaitSelection)
                        }
                    },
                    Progress::Failed => (Phase::Idle, Action::WaitSelection),
                }
            },
            (Phase::Heartbeating { first, in_flight: true }, Event::Reply(outcome)) => {
                if outcome.is_success() {
                    (Phase::Heartbeating { first: false, in_flight: false }, Action::WaitHeartbeat)
                } else if outcome.is_not_found() && first {
                    Self::decide_pass(facts, true)
                } else {
                    (Phase::Idle, Action::WaitSelection)
                }
            },
            (Phase::Heartbeating { first, in_flight: false }, Event::Tick) => (
                Phase::Heartbeating { first, in_flight: true },
                Action::Heartbeat,
            ),
            _ => (Phase::Idle, Action::WaitSelection),
        }
    }

    fn decide_pass(facts: &Facts, recovering: bool) -> (r: (Phase, Action))
        ensures
            r == begin(facts.pass_ready, facts.graph_empty, recovering),
    {
        if !facts.pass_ready {
            (Phase::Idle, Action::WaitSelection)
        } else if !facts.graph_empty {
            (Phase::Registering { index: 0, attempt: Attempt::Post, recovering }, Action::Post(0))
        } else if recovering {
            (Phase::Heartbeating { first: false, in_flight: true }, Action::Heartbeat)
        } else {
            (Phase::Idle, Action::WaitSelection)
        }
    }

    /// Whether a step on given facts stalls.
    pub fn is_stall(phase: Phase, event: Event, facts: &Facts) -> (r: bool)
        ensures
            r == stalls(phase, event, *facts),
    {
        let (after, _) = Self::decide(phase, event, facts);
        let told = match (phase, event) {
            (Phase::Idle, Event::Tick) => !facts.candidate,
            (Phase::Registering { attempt, .. }, Event::Reply(outcome)) => facts.has_step
                && RegistrationApi::register_resource(attempt, outcome) == Progress::Failed,
            (Phase::Heartbeating { first, in_flight: true }, Event::Reply(outcome)) => {
                !outcome.is_success() && !(outcome.is_not_found() && first)
            },
            _ => false,
        };
        after == Phase::Idle && !told
    }

    /// Whether the step on `event` takes a registry from the queue.
    pub fn selects_on(&self, event: Event) -> (r: bool)
        ensures
            r == selects(self.phase, event),
    {
        self.phase == Phase::Idle && event == Event::Tick
    }

    /// Whether the step on `event` needs a plan of the graph. `candidate`
    /// says whether the queue had a registry to take.
    pub fn plans_on(&self, event: Event, candidate: bool) -> (r: bool)
        ensures
            r == wants_plan(self.phase, event, candidate),
    {
        match (self.phase, event) {
            (Phase::Idle, Event::Tick) => candidate,
            (Phase::Heartbeating { first: true, in_flight: true }, Event::Reply(outcome)) => {
                !outcome.is_success() && outcome.is_not_found()
            },
            _ => false,
        }
    }

    /// Makes ready for a pass at the registry that is served: where its
    /// URLs resolve and a plan is given, the plan and the resource URL are
    /// those of the pass. Returns whether a pass can begin and whether it
    /// is a pass over nothing.
    fn take_plan(&mut self, plan: Option<Plan>) -> (r: (bool, bool))
        ensures
            r.0 == match old(self).registry {
                Some(registry) => resource_target(registry.url@, old(self).api_version) is Some
                    && plan is Some,
                None => false,
            },
            r.0 ==> r.1 == (plan->0.flat().len() == 0),
            final(self).api_version == old(self).api_version,
            final(self).registry == old(self).registry,
            final(self).delete_url == old(self).delete_url,
            final(self).heartbeat_url == old(self).heartbeat_url,
            final(self).phase == old(self).phase,
            final(self).stalled == old(self).stalled,
            if r.0 {
                &&& Some(final(self).plan) == plan
                &&& Some(final(self).resource_url@) == resource_target(
                    old(self).registry->0.url@,
                    old(self).api_version,
                )
            } else {
                final(self).plan == old(self).plan && final(self).resource_url == old(
                    self,
                ).resource_url
            },
    {
        let url = match &self.registry {
            Some(r) => RegistrationApi::resource_url(r, &self.api_version),
            None => None,
        };
        match (url, plan) {
            (Some(url), Some(plan)) => {
                self.resource_url = url;
                self.plan = plan;
                (true, !self.plan.has(0))
            },
            _ => (false, false),
        }
    }

    /// Takes in what happened and says what is to be done next, given the
    /// registry that was taken from the queue for this step and the plan of
    /// the graph. It gathers the facts that the step depends on and decides
    /// on them. Whoever calls this takes a registry from the queue only
    /// where `selects_on` says so and makes a plan only where `plans_on`
    /// says so; what is given without being asked for is not looked at.
    pub fn advance(
        &mut self,
        event: Event,
        candidate: Option<NmosMdnsRegistry>,
        plan: Option<Plan>,
    ) -> (action: Action)
        ensures
            old(self).advances(event, candidate, plan, *final(self), action),
    {
        let mut facts = Facts {
            candidate: false,
            pass_ready: false,
            graph_empty: false,
            has_step: false,
            has_next: false,
            can_delete: false,
            can_heartbeat: false,
        };
        let before = self.phase;
        match (self.phase, event) {
            (Phase::Idle, Event::Tick) => {
                self.registry = candidate;
                if self.registry.is_some() {
                    facts.candidate = true;
                    let (ready, empty) = self.take_plan(plan);
                    facts.pass_ready = ready;
                    facts.graph_empty = empty;
                }
            },
            (Phase::Registering { index, attempt, recovering }, Event::Reply(outcome)) => {
                facts.has_step = self.plan.has(index);
                facts.has_next = index < usize::MAX && self.plan.has(index + 1);
                if facts.has_step {
                    match RegistrationApi::register_resource(attempt, outcome) {
                        Progress::Call(Attempt::Delete) => {
                            let url = RegistrationApi::delete_url(
                                self.resource_url.as_str(),
                                self.plan.get(index).path.as_str(),
                            );
                            match url {
                                Some(u) => {
                                    self.delete_url = u;
                                    facts.can_delete = true;
                                },
                                None => {},
                            }
                        },
                        Progress::Registered => {
                            if !facts.has_next && !recovering {
                                let url = match &self.registry {
                                    Some(r) => if self.plan.nodes.len() > 0 {
                                        RegistrationApi::heartbeat_url(
                                            r,
                                            &self.api_version,
                                            self.plan.nodes[0].id,
                                        )
                                    } else {
                                        None
                                    },
                                    None => None,
                                };
                                match url {
                                    Some(u) => {
                                        self.heartbeat_url = u;
                                        facts.can_heartbeat = true;
                                    },
                                    None => {},
                                }
                            }
                        },
                        _ => {},
                    }
                }
            },
            (Phase::Heartbeating { first: true, in_flight: true }, Event::Reply(outcome)) => {
                if !outcome.is_success() && outcome.is_not_found() {
                    let (ready, empty) = self.take_plan(plan);
                    facts.pass_ready = ready;
                    facts.graph_empty = empty;
                }
            },
            _ => {},
        }
        let (phase, action) = Self::decide(before, event, &facts);
        if Self::is_stall(before, event, &facts) && self.stalled < u64::MAX {
            self.stalled = self.stalled + 1;
        }
        self.phase = phase;
        action
    }

    /// Takes in what happened and says what is to be done next, with the
    /// queue and the graph at hand. On a tick while idle the best registry
    /// of the queue becomes the one that is served, in place of whatever was
    /// served before; where the queue has none for the revision, no registry
    /// is served.
    pub fn step(&mut self, event: Event, model: &Graph<'_>, queue: &mut RegistryQueue) -> (action:
        Action)
        ensures
            old(self).follows(event, old(queue)@, model@, *final(self), final(queue)@, action),
    {
        let candidate = if self.selects_on(event) {
            queue.pop(&self.api_version)
        } else {
            None
        };
        let plan = if self.plans_on(event, candidate.is_some()) {
            RegistrationApi::register_resources(model, &self.api_version)
        } else {
            None
        };
        proof {
            if plan is Some {
                lemma_plan_size(plan->0, model@, self.api_version);
            }
        }
        self.advance(event, candidate, plan)
    }

    /// The action with which the machine is started.
    pub fn start(&self) -> (r: Action)
        ensures
            r == Action::WaitSelection,
    {
        Action::WaitSelection
    }
}

/// The machine does not go idle in silence: a step that ends idle either
/// found no registry in the queue, or heard the registry refuse, or lost the
/// heartbeat, or is counted as stalled.
pub proof fn lemma_idle_shows_why(phase: Phase, event: Event, facts: Facts)
    requires
        next(phase, event, facts).0 is Idle,
    ensures
        explained(phase, event, facts) || stalls(phase, event, facts),
        explained(phase, event, facts) ==> match (phase, event) {
            (Phase::Idle, Event::Tick) => !facts.candidate,
            (Phase::Registering { attempt, .. }, Event::Reply(outcome)) => outcome.refused() || (
            attempt == Attempt::Repost && outcome.already_exists()),
            (Phase::Heartbeating { .. }, Event::Reply(outcome)) => !outcome.success(),
            _ => false,
        },
{
}

/// A registry that is taken from the queue is registered with: where its
/// URLs resolve and the graph holds a resource, the pass begins with the
/// first step of the plan, whatever the resources are.
pub proof fn lemma_candidate_begins_pass(facts: Facts)
    requires
        facts.candidate,
        facts.pass_ready,
        !facts.graph_empty,
    ensures
        next(Phase::Idle, Event::Tick, facts) == (
            Phase::Registering { index: 0, attempt: Attempt::Post, recovering: false },
            Action::Post(0),
        ),
        !stalls(Phase::Idle, Event::Tick, facts),
{
}

/// Under a supported revision a pass can begin at every registry whose URLs
/// resolve, whatever the graph holds.
pub proof fn lemma_pass_needs_only_the_urls(
    driver: Driver,
    event: Event,
    queue: Seq<NmosMdnsRegistry>,
    graph: ModelView,
)
    requires
        driver.api_version.supported(),
    ensures
        driver.facts(event, queue, graph).pass_ready == match driver.registry_url(event, queue) {
            Some(url) => resource_target(url, driver.api_version) is Some,
            None => false,
        },
{
}

/// The phase lies behind the first heartbeat: the registration has been
/// repeated, or is being repeated, or a heartbeat has been answered.
pub open spec fn past_first(phase: Phase) -> bool {
    match phase {
        Phase::Idle => false,
        Phase::Registering { recovering, .. } => recovering,
        Phase::Heartbeating { first, .. } => !first,
    }
}

/// A first heartbeat that is not found begins a registration pass over the
/// whole graph.
pub proof fn lemma_first_not_found_reregisters(facts: Facts)
    requires
        facts.pass_ready,
        !facts.graph_empty,
    ensures
        next(
            Phase::Heartbeating { first: true, in_flight: true },
            Event::Reply(HttpOutcome::Status(404)),
            facts,
        ) == (
            Phase::Registering { index: 0, attempt: Attempt::Post, recovering: true },
            Action::Post(0),
        ),
{
}

/// When the last step of a recovering pass is registered, the heartbeat
/// resumes, and it is no first heartbeat any more.
pub proof fn lemma_recovering_pass_resumes(
    index: usize,
    attempt: Attempt,
    outcome: HttpOutcome,
    facts: Facts,
)
    requires
        facts.has_step,
        !facts.has_next,
        after(attempt, outcome) == Progress::Registered,
    ensures
        next(Phase::Registering { index, attempt, recovering: true }, Event::Reply(outcome), facts)
            == (Phase::Heartbeating { first: false, in_flight: true }, Action::Heartbeat),
{
}

/// A heartbeat that is answered with success is followed by the wait for
/// the next one, which is no first heartbeat.
pub proof fn lemma_success_keeps_beating(first: bool, outcome: HttpOutcome, facts: Facts)
    requires
        outcome.success(),
    ensures
        next(Phase::Heartbeating { first, in_flight: true }, Event::Reply(outcome), facts) == (
            Phase::Heartbeating { first: false, in_flight: false },
            Action::WaitHeartbeat,
        ),
{
}

/// A heartbeat that fails, unless it is a first heartbeat that is not found,
/// sends the machine back to selection. So does a heartbeat that is not
/// found and is not the first.
pub proof fn lemma_loss_returns_to_selection(first: bool, outcome: HttpOutcome, facts: Facts)
    requires
        !outcome.success(),
        !(outcome.not_found() && first),
    ensures
        next(Phase::Heartbeating { first, in_flight: true }, Event::Reply(outcome), facts) == (
            Phase::Idle,
            Action::WaitSelection,
        ),
{
}

/// The registration is repeated once: behind the first heartbeat the
/// machine stays behind it until it is idle again, and a recovering pass
/// begins nowhere but at a first heartbeat that is not found.
pub proof fn lemma_recovery_happens_once(phase: Phase, event: Event, facts: Facts)
    ensures
        past_first(phase) ==> past_first(next(phase, event, facts).0) || next(phase, event, facts).0
            is Idle,
        !(phase is Registering) && next(phase, event, facts).0 is Registering && past_first(
            next(phase, event, facts).0,
        ) ==> phase == (Phase::Heartbeating { first: true, in_flight: true }) && event
            == Event::Reply(HttpOutcome::Status(404)),
{
}

/// A pass moves forward: the answer to a call for the step at one place is
/// followed by a call for the same step or for the next one, or the pass is
/// over.
pub proof fn lemma_pass_moves_forward(
    index: usize,
    attempt: Attempt,
    recovering: bool,
    outcome: HttpOutcome,
    facts: Facts,
)
    ensures
        ({
            let (phase, action) = next(
                Phase::Registering { index, attempt, recovering },
                Event::Reply(outcome),
                facts,
            );
            match phase {
                Phase::Registering { index: place, attempt: call, recovering: same } => {
                    &&& same == recovering
                    &&& (place == index && call != Attempt::Post && action == (if call
                        == Attempt::Delete {
                        Action::Delete(index)
                    } else {
                        Action::Post(index)
                    })) || (place == index + 1 && call == Attempt::Post && action == Action::Post(
                        place,
                    ))
                },
                Phase::Heartbeating { first, in_flight } => in_flight && first == !recovering
                    && action == Action::Heartbeat,
                Phase::Idle => action == Action::WaitSelection,
            }
        }),
{
}

/// The place in the plan that an action makes a call for.
pub open spec fn place_of(action: Action) -> Option<usize> {
    match action {
        Action::Post(i) => Some(i),
        Action::Delete(i) => Some(i),
        _ => None,
    }
}

/// What a pass over a plan of `steps` steps comes to for the machine at one
/// of its places.
pub open spec fn pass_facts(
    index: usize,
    steps: nat,
    can_delete: bool,
    can_heartbeat: bool,
) -> Facts {
    Facts {
        candidate: false,
        pass_ready: false,
        graph_empty: false,
        has_step: index < steps,
        has_next: index + 1 < steps && index + 1 <= usize::MAX,
        can_delete,
        can_heartbeat,
    }
}

/// The actions of a pass: what the machine answers, one after the other,
/// while it is registering and the registry gives the answers of
/// `outcomes`. Answers that come after the pass is over are not counted.
pub open spec fn pass_actions(
    phase: Phase,
    outcomes: Seq<HttpOutcome>,
    steps: nat,
    can_delete: bool,
    can_heartbeat: bool,
) -> Seq<Action>
    decreases outcomes.len(),
{
    if outcomes.len() == 0 {
        Seq::empty()
    } else {
        match phase {
            Phase::Registering { index, .. } => {
                let step = next(
                    phase,
                    Event::Reply(outcomes[0]),
                    pass_facts(index, steps, can_delete, can_heartbeat),
                );
                seq![step.1] + pass_actions(
                    step.0,
                    outcomes.drop_first(),
                    steps,
                    can_delete,
                    can_heartbeat,
                )
            },
            _ => Seq::empty(),
        }
    }
}

/// Whatever the registry answers, the calls of a pass go through the plan
/// from front to back: no call is made for a place before the place of an
/// earlier call, nor before the place at which the pass stands, which is
/// the plan's first place when the pass begins.
pub proof fn lemma_pass_is_in_order(
    phase: Phase,
    outcomes: Seq<HttpOutcome>,
    steps: nat,
    can_delete: bool,
    can_heartbeat: bool,
)
    requires
        phase is Registering,
    ensures
        ({
            let actions = pass_actions(phase, outcomes, steps, can_delete, can_heartbeat);
            &&& forall|k: int|
                0 <= k < actions.len() && place_of(#[trigger] actions[k]) is Some ==> phase->index
                    <= place_of(actions[k])->0 < steps
            &&& forall|k: int, l: int|
                0 <= k <= l < actions.len() && place_of(#[trigger] actions[k]) is Some && place_of(
                    #[trigger] actions[l],
                ) is Some ==> place_of(actions[k])->0 <= place_of(actions[l])->0
        }),
    decreases outcomes.len(),
{
    if outcomes.len() > 0 {
        let index = phase->index;
        let step = next(
            phase,
            Event::Reply(outcomes[0]),
            pass_facts(index, steps, can_delete, can_heartbeat),
        );
        let rest = pass_actions(step.0, outcomes.drop_first(), steps, can_delete, can_heartbeat);
        let actions = pass_actions(phase, outcomes, steps, can_delete, can_heartbeat);
        assert(actions == seq![step.1] + rest);
        if step.0 is Registering {
            lemma_pass_is_in_order(step.0, outcomes.drop_first(), steps, can_delete, can_heartbeat);
        } else {
            assert(rest =~= Seq::<Action>::empty()) by {
                reveal_with_fuel(pass_actions, 2);
            }
        }
        assert forall|k: int|
            0 <= k < actions.len() && place_of(#[trigger] actions[k]) is Some implies index
            <= place_of(actions[k])->0 < steps by {
            if k > 0 {
                assert(actions[k] == rest[k - 1]);
            }
        }
        assert forall|k: int, l: int|
            0 <= k <= l < actions.len() && place_of(#[trigger] actions[k]) is Some && place_of(
                #[trigger] actions[l],
            ) is Some implies place_of(actions[k])->0 <= place_of(actions[l])->0 by {
            if l > 0 {
                assert(actions[l] == rest[l - 1]);
            }
            if k > 0 {
                assert(actions[k] == rest[k - 1]);
            }
        }
    }
}

/// Whatever the registry answers, a pass over a plan that registers a graph
/// takes the kinds in their order: nodes, devices, sources, flows, senders,
/// receivers. No call is made for a resource of a kind that comes before
/// the kind of an earlier call, in whatever order the resources came into
/// the graph.
pub proof fn lemma_pass_follows_kinds(
    plan: Plan,
    graph: ModelView,
    api: APIVersion,
    outcomes: Seq<HttpOutcome>,
    can_delete: bool,
    can_heartbeat: bool,
)
    requires
        plan.registers_graph(graph, api),
    ensures
        ({
            let actions = pass_actions(
                Phase::Registering { index: 0, attempt: Attempt::Post, recovering: false },
                outcomes,
                plan.flat().len(),
                can_delete,
                can_heartbeat,
            );
            forall|k: int, l: int|
                0 <= k <= l < actions.len() && place_of(#[trigger] actions[k]) is Some && place_of(
                    #[trigger] actions[l],
                ) is Some ==> {
                    &&& place_of(actions[k])->0 < plan.flat().len()
                    &&& place_of(actions[l])->0 < plan.flat().len()
                    &&& plan.flat()[place_of(actions[k])->0 as int].kind.rank()
                        <= plan.flat()[place_of(actions[l])->0 as int].kind.rank()
                }
        }),
{
    lemma_pass_is_in_order(
        Phase::Registering { index: 0, attempt: Attempt::Post, recovering: false },
        outcomes,
        plan.flat().len(),
        can_delete,
        can_heartbeat,
    );
    crate::registration::lemma_plan_follows_kinds(plan, graph, api);
}

/// A step begins a recovering pass.
pub open spec fn begins_recovery(before: Phase, after: Phase) -> bool {
    !(before is Registering) && after is Registering && past_first(after)
}

/// How many recovering passes begin while the machine takes the events of
/// `inputs`, each with the facts of its moment, until it is idle again.
pub open spec fn recoveries(phase: Phase, inputs: Seq<(Event, Facts)>) -> nat
    decreases inputs.len(),
{
    if inputs.len() == 0 {
        0
    } else {
        let after = next(phase, inputs[0].0, inputs[0].1).0;
        if after is Idle {
            0
        } else {
            (if begins_recovery(phase, after) {
                1nat
            } else {
                0nat
            }) + recoveries(after, inputs.drop_first())
        }
    }
}

/// Between two selections the registration is repeated at most once,
/// whatever happens; and not at all once the machine is behind the first
/// heartbeat.
pub proof fn lemma_at_most_one_recovery(phase: Phase, inputs: Seq<(Event, Facts)>)
    ensures
        recoveries(phase, inputs) <= 1,
        past_first(phase) ==> recoveries(phase, inputs) == 0,
    decreases inputs.len(),
{
    if inputs.len() > 0 {
        let after = next(phase, inputs[0].0, inputs[0].1).0;
        lemma_recovery_happens_once(phase, inputs[0].0, inputs[0].1);
        lemma_at_most_one_recovery(after, inputs.drop_first());
    }
}

} // verus!
