//! Registration with a registry: what is sent for which resource, in which
//! order, and what follows from the registry's answers.

use std::collections::HashMap;
use vstd::prelude::*;
use vstd::std_specs::iter::IteratorSpec;
use vstd::string::*;
use crate::href::{join, text_of, url_joined};
use crate::ident::{id_text, id_to_text};
use crate::mdns::NmosMdnsRegistry;
use crate::model::{Graph, ModelView};
use crate::resource::{Registerable, RegistrationRequest, ResourceKind};
use crate::version::APIVersion;

verus! {

broadcast use vstd::std_specs::hash::group_hash_axioms;

/// One step of a registration pass: the resource that is registered, its
/// place below the registry's resource root, and the request that registers
/// it.
#[derive(Debug, PartialEq, Eq)]
pub struct Registration {
    pub kind: ResourceKind,
    pub id: u128,
    pub path: String,
    pub request: RegistrationRequest,
}

/// The identifiers of a run of steps.
pub open spec fn step_ids(steps: Seq<Registration>) -> Seq<u128> {
    steps.map_values(|s: Registration| s.id)
}

/// `steps` registers the resources of `m`, each once and nothing else: the
/// identifiers of the steps are those of the map, none twice, and each step
/// carries the kind, the path and the request of the resource it names.
pub open spec fn registers<T: Registerable>(
    steps: Seq<Registration>,
    m: Map<u128, T>,
    kind: ResourceKind,
    api: APIVersion,
) -> bool {
    &&& step_ids(steps).no_duplicates()
    &&& step_ids(steps).to_set() == m.dom()
    &&& forall|i: int|
        0 <= i < steps.len() ==> {
            &&& (#[trigger] steps[i]).kind == kind
            &&& steps[i].path@ == m[steps[i].id].path()
            &&& m[steps[i].id].requested_by(api, steps[i].request)
        }
}

/// The steps that register the resources of one kind under a supported
/// revision, in the order in which the map hands its keys out.
pub fn plan_kind<T: Registerable>(m: &HashMap<u128, T>, kind: ResourceKind, api: &APIVersion) -> (r:
    Vec<Registration>)
    requires
        api.supported(),
    ensures
        registers(r@, m@, kind, *api),
{
    let mut steps: Vec<Registration> = Vec::new();
    let ghost keys: Seq<u128> = vstd::std_specs::hash::spec_keys_iter(m).remaining().unref();
    proof {
        let refs = vstd::std_specs::hash::spec_keys_iter(m).remaining();
        assert forall|i: int, j: int| 0 <= i < j < keys.len() implies keys[i] != keys[j] by {
            assert(refs[i] != refs[j]);
        }
    }
    for k in it: m.keys()
        invariant
            api.supported(),
            it.seq().unref() == keys,
            keys.no_duplicates(),
            keys.to_set() == m@.dom(),
            steps@.len() == it.index(),
            forall|i: int|
                0 <= i < steps@.len() ==> {
                    &&& (#[trigger] steps@[i]).id == keys[i]
                    &&& steps@[i].kind == kind
                    &&& steps@[i].path@ == m@[steps@[i].id].path()
                    &&& m@[steps@[i].id].requested_by(*api, steps@[i].request)
                },
    {
        proof {
            assert(keys[it.index() as int] == *k);
            assert(keys.to_set().contains(*k));
        }
        match m.get(k) {
            Some(resource) => {
                steps.push(
                    Registration {
                        kind,
                        id: *k,
                        path: resource.registry_path(),
                        request: resource.registration_request(api),
                    },
                );
            },
            None => {
                assert(false);
            },
        }
    }
    proof {
        assert(step_ids(steps@) =~= keys);
    }
    steps
}

/// The steps of a registration pass, kind by kind.
#[derive(Debug)]
pub struct Plan {
    pub nodes: Vec<Registration>,
    pub devices: Vec<Registration>,
    pub sources: Vec<Registration>,
    pub flows: Vec<Registration>,
    pub senders: Vec<Registration>,
    pub receivers: Vec<Registration>,
}

impl Plan {
    /// The steps in the order in which they are taken: the nodes, then the
    /// devices, the sources, the flows, the senders and the receivers.
    pub open spec fn flat(self) -> Seq<Registration> {
        self.nodes@ + self.devices@ + self.sources@ + self.flows@ + self.senders@
            + self.receivers@
    }

    /// The plan registers the graph under `api`: each kind's steps register
    /// that kind's resources, each once and nothing else.
    pub open spec fn registers_graph(self, graph: ModelView, api: APIVersion) -> bool {
        &&& registers(self.nodes@, graph.nodes, ResourceKind::Node, api)
        &&& registers(self.devices@, graph.devices, ResourceKind::Device, api)
        &&& registers(self.sources@, graph.sources, ResourceKind::Source, api)
        &&& registers(self.flows@, graph.flows, ResourceKind::Flow, api)
        &&& registers(self.senders@, graph.senders, ResourceKind::Sender, api)
        &&& registers(self.receivers@, graph.receivers, ResourceKind::Receiver, api)
    }

    /// A plan without steps: no kind has any.
    pub fn empty() -> (r: Plan)
        ensures
            r.nodes@.len() == 0,
            r.devices@.len() == 0,
            r.sources@.len() == 0,
            r.flows@.len() == 0,
            r.senders@.len() == 0,
            r.receivers@.len() == 0,
            r.flat() == Seq::<Registration>::empty(),
    {
        let r = Plan {
            nodes: Vec::new(),
            devices: Vec::new(),
            sources: Vec::new(),
            flows: Vec::new(),
            senders: Vec::new(),
            receivers: Vec::new(),
        };
        assert(r.flat() =~= Seq::<Registration>::empty());
        r
    }

    /// Whether the plan has a step at place `i`.
    pub fn has(&self, i: usize) -> (r: bool)
        ensures
            r == (i < self.flat().len()),
    {
        let mut left: usize = i;
        if left < self.nodes.len() {
            return true;
        }
        left = left - self.nodes.len();
        if left < self.devices.len() {
            return true;
        }
        left = left - self.devices.len();
        if left < self.sources.len() {
            return true;
        }
        left = left - self.sources.len();
        if left < self.flows.len() {
            return true;
        }
        left = left - self.flows.len();
        if left < self.senders.len() {
            return true;
        }
        left = left - self.senders.len();
        left < self.receivers.len()
    }

    /// The step at place `i`.
    pub fn get(&self, i: usize) -> (r: &Registration)
        requires
            i < self.flat().len(),
        ensures
            *r == self.flat()[i as int],
    {
        let mut left: usize = i;
        if left < self.nodes.len() {
            return &self.nodes[left];
        }
        left = left - self.nodes.len();
        if left < self.devices.len() {
            return &self.devices[left];
        }
        left = left - self.devices.len();
        if left < self.sources.len() {
            return &self.sources[left];
        }
        left = left - self.sources.len();
        if left < self.flows.len() {
            return &self.flows[left];
        }
        left = left - self.flows.len();
        if left < self.senders.len() {
            return &self.senders[left];
        }
        left = left - self.senders.len();
        &self.receivers[left]
    }
}

/// A plan that registers a graph has as many steps of each kind as the
/// graph has resources of it.
pub proof fn lemma_plan_size(plan: Plan, graph: ModelView, api: APIVersion)
    requires
        plan.registers_graph(graph, api),
    ensures
        plan.nodes@.len() == graph.nodes.dom().len(),
        plan.devices@.len() == graph.devices.dom().len(),
        plan.sources@.len() == graph.sources.dom().len(),
        plan.flows@.len() == graph.flows.dom().len(),
        plan.senders@.len() == graph.senders.dom().len(),
        plan.receivers@.len() == graph.receivers.dom().len(),
{
    step_ids(plan.nodes@).unique_seq_to_set();
    step_ids(plan.devices@).unique_seq_to_set();
    step_ids(plan.sources@).unique_seq_to_set();
    step_ids(plan.flows@).unique_seq_to_set();
    step_ids(plan.senders@).unique_seq_to_set();
    step_ids(plan.receivers@).unique_seq_to_set();
}

/// In a plan that registers a graph, no step comes before a step of an
/// earlier kind, whatever the order in which the resources came into the
/// graph.
pub proof fn lemma_plan_follows_kinds(plan: Plan, graph: ModelView, api: APIVersion)
    requires
        plan.registers_graph(graph, api),
    ensures
        forall|i: int, j: int|
            0 <= i <= j < plan.flat().len() ==> plan.flat()[i].kind.rank()
                <= plan.flat()[j].kind.rank(),
{
    let flat = plan.flat();
    let a = plan.nodes@.len();
    let b = a + plan.devices@.len();
    let c = b + plan.sources@.len();
    let d = c + plan.flows@.len();
    let e = d + plan.senders@.len();
    assert forall|i: int| 0 <= i < flat.len() implies (#[trigger] flat[i]).kind.rank() == (if i < a {
        0nat
    } else if i < b {
        1nat
    } else if i < c {
        2nat
    } else if i < d {
        3nat
    } else if i < e {
        4nat
    } else {
        5nat
    }) by {
        if i < a {
            assert(flat[i] == plan.nodes@[i]);
        } else if i < b {
            assert(flat[i] == plan.devices@[i - a]);
        } else if i < c {
            assert(flat[i] == plan.sources@[i - b]);
        } else if i < d {
            assert(flat[i] == plan.flows@[i - c]);
        } else if i < e {
            assert(flat[i] == plan.senders@[i - d]);
        } else {
            assert(flat[i] == plan.receivers@[i - e]);
        }
    }
}

/// What came of a call to the registry: the status of its answer, or no
/// answer at all.
#[derive(Clone, Copy, Debug, PartialEq, Eq, Structural)]
pub enum HttpOutcome {
    Status(u16),
    Failed,
}

impl HttpOutcome {
    /// The call failed: there was no answer, or the answer carries a client
    /// or server error.
    pub open spec fn refused(self) -> bool {
        match self {
            HttpOutcome::Status(s) => 400 <= s <= 599,
            HttpOutcome::Failed => true,
        }
    }

    /// The registry answered that it had the resource already.
    pub open spec fn already_exists(self) -> bool {
        self == HttpOutcome::Status(200)
    }

    /// The registry answered with success.
    pub open spec fn success(self) -> bool {
        match self {
            HttpOutcome::Status(s) => 200 <= s <= 299,
            HttpOutcome::Failed => false,
        }
    }

    /// The registry answered that it does not know what was asked for.
    pub open spec fn not_found(self) -> bool {
        self == HttpOutcome::Status(404)
    }

    pub fn is_refused(&self) -> (r: bool)
        ensures
            r == self.refused(),
    {
        match self {
            HttpOutcome::Status(s) => 400 <= *s && *s <= 599,
            HttpOutcome::Failed => true,
        }
    }

    pub fn is_already_exists(&self) -> (r: bool)
        ensures
            r == self.already_exists(),
    {
        match self {
            HttpOutcome::Status(s) => *s == 200,
            HttpOutcome::Failed => false,
        }
    }

    pub fn is_success(&self) -> (r: bool)
        ensures
            r == self.success(),
    {
        match self {
            HttpOutcome::Status(s) => 200 <= *s && *s <= 299,
            HttpOutcome::Failed => false,
        }
    }

    pub fn is_not_found(&self) -> (r: bool)
        ensures
            r == self.not_found(),
    {
        match self {
            HttpOutcome::Status(s) => *s == 404,
            HttpOutcome::Failed => false,
        }
    }
}

/// The calls that registering one resource can take: the request, the
/// removal of what the registry had already, and the request once more.
#[derive(Clone, Copy, Debug, PartialEq, Eq, Structural)]
pub enum Attempt {
    Post,
    Delete,
    Repost,
}

/// Where the registration of one resource stands after an answer.
#[derive(Clone, Copy, Debug, PartialEq, Eq, Structural)]
pub enum Progress {
    /// This call is to be made next.
    Call(Attempt),
    /// The resource is registered.
    Registered,
    /// The resource could not be registered.
    Failed,
}

/// What follows from the answer to a call: a request that meets the
/// resource in the registry is followed by its removal and that by one more
/// request; a second request that meets it again fails, as does every call
/// that is refused.
pub open spec fn after(attempt: Attempt, outcome: HttpOutcome) -> Progress {
    if outcome.refused() {
        Progress::Failed
    } else {
        match attempt {
            Attempt::Post => if outcome.already_exists() {
                Progress::Call(Attempt::Delete)
            } else {
                Progress::Registered
            },
            Attempt::Delete => Progress::Call(Attempt::Repost),
            Attempt::Repost => if outcome.already_exists() {
                Progress::Failed
            } else {
                Progress::Registered
            },
        }
    }
}

/// The calls that are made for one resource, beginning with `attempt`,
/// while the registry gives the answers of `outcomes` in turn. Answers that
/// come after the last call are not asked for.
pub open spec fn calls_made(attempt: Attempt, outcomes: Seq<HttpOutcome>) -> Seq<Attempt>
    decreases outcomes.len(),
{
    if outcomes.len() == 0 {
        seq![attempt]
    } else {
        match after(attempt, outcomes[0]) {
            Progress::Call(next) => seq![attempt] + calls_made(next, outcomes.drop_first()),
            _ => seq![attempt],
        }
    }
}

/// Where the registration of one resource stands when the registry has
/// given the answers of `outcomes` to the calls beginning with `attempt`.
pub open spec fn standing(attempt: Attempt, outcomes: Seq<HttpOutcome>) -> Progress
    decreases outcomes.len(),
{
    if outcomes.len() == 0 {
        Progress::Call(attempt)
    } else {
        match after(attempt, outcomes[0]) {
            Progress::Call(next) => standing(next, outcomes.drop_first()),
            done => done,
        }
    }
}

/// Whatever the registry answers, registering one resource takes the
/// request, at most one removal and at most one further request, in this
/// order.
pub proof fn lemma_calls_are_bounded(outcomes: Seq<HttpOutcome>)
    ensures
        calls_made(Attempt::Post, outcomes) == seq![Attempt::Post] || calls_made(
            Attempt::Post,
            outcomes,
        ) == seq![Attempt::Post, Attempt::Delete] || calls_made(Attempt::Post, outcomes)
            == seq![Attempt::Post, Attempt::Delete, Attempt::Repost],
{
    reveal_with_fuel(calls_made, 4);
    if outcomes.len() > 0 {
        let o1 = outcomes.drop_first();
        if o1.len() > 0 {
            let o2 = o1.drop_first();
            assert(calls_made(Attempt::Repost, o2) =~= seq![Attempt::Repost]);
            assert(calls_made(Attempt::Delete, o1) =~= seq![Attempt::Delete] || calls_made(
                Attempt::Delete,
                o1,
            ) =~= seq![Attempt::Delete, Attempt::Repost]);
        }
        assert(calls_made(Attempt::Post, outcomes) =~= seq![Attempt::Post] || calls_made(
            Attempt::Post,
            outcomes,
        ) =~= seq![Attempt::Post, Attempt::Delete] || calls_made(Attempt::Post, outcomes)
            =~= seq![Attempt::Post, Attempt::Delete, Attempt::Repost]);
    }
}

/// Registering a resource that the registry has already: where the request
/// meets it, the removal is taken and the second request does not meet it,
/// exactly one removal and one further request are made and the resource is
/// registered.
pub proof fn lemma_reregistration(first: HttpOutcome, removal: HttpOutcome, second: HttpOutcome)
    requires
        first.already_exists(),
        !removal.refused(),
        !second.refused(),
        !second.already_exists(),
    ensures
        calls_made(Attempt::Post, seq![first, removal, second]) == seq![
            Attempt::Post,
            Attempt::Delete,
            Attempt::Repost,
        ],
        standing(Attempt::Post, seq![first, removal, second]) == Progress::Registered,
{
    reveal_with_fuel(calls_made, 4);
    reveal_with_fuel(standing, 4);
    let o = seq![first, removal, second];
    let o1 = o.drop_first();
    let o2 = o1.drop_first();
    assert(o1[0] == removal);
    assert(o2[0] == second);
    assert(calls_made(Attempt::Post, o) =~= seq![Attempt::Post, Attempt::Delete, Attempt::Repost]);
}

/// Where the second request meets the resource again, the registration has
/// failed, and no answer that comes later changes that or causes a call.
pub proof fn lemma_second_exists_is_final(
    first: HttpOutcome,
    removal: HttpOutcome,
    second: HttpOutcome,
    later: Seq<HttpOutcome>,
)
    requires
        first.already_exists(),
        !removal.refused(),
        second.already_exists(),
    ensures
        standing(Attempt::Post, seq![first, removal, second] + later) == Progress::Failed,
        calls_made(Attempt::Post, seq![first, removal, second] + later) == seq![
            Attempt::Post,
            Attempt::Delete,
            Attempt::Repost,
        ],
{
    reveal_with_fuel(calls_made, 4);
    reveal_with_fuel(standing, 4);
    let o = seq![first, removal, second] + later;
    let o1 = o.drop_first();
    let o2 = o1.drop_first();
    assert(o[0] == first);
    assert(o1[0] == removal);
    assert(o2[0] == second);
    assert(calls_made(Attempt::Post, o) =~= seq![Attempt::Post, Attempt::Delete, Attempt::Repost]);
}

/// The root of a registry's interface under `api`: `<api>/` resolved
/// against the registry's URL.
pub open spec fn api_root(registry_url: Seq<char>, api: APIVersion) -> Option<Seq<char>> {
    url_joined(registry_url, api.text() + "/"@)
}

/// Where resources are posted to: `resource` resolved against the
/// interface's root.
pub open spec fn resource_target(registry_url: Seq<char>, api: APIVersion) -> Option<Seq<char>> {
    match api_root(registry_url, api) {
        Some(root) => url_joined(root, "resource"@),
        None => None,
    }
}

/// Where the heartbeat of the node `node` is posted to:
/// `health/nodes/<node>` resolved against the interface's root.
pub open spec fn heartbeat_target(registry_url: Seq<char>, api: APIVersion, node: u128) -> Option<
    Seq<char>,
> {
    match api_root(registry_url, api) {
        Some(root) => url_joined(root, "health/nodes/"@ + id_text(node)),
        None => None,
    }
}

/// Where a resource is deleted: `resource/<path>` resolved against the
/// place where resources are posted to.
pub open spec fn delete_target(resource_url: Seq<char>, path: Seq<char>) -> Option<Seq<char>> {
    url_joined(resource_url, "resource/"@ + path)
}

/// The registration interface of a registry.
#[derive(Debug)]
pub struct RegistrationApi;

impl RegistrationApi {
    /// The URL to which resources are posted at `registry`; `None` where
    /// the URLs do not resolve.
    pub fn resource_url(registry: &NmosMdnsRegistry, api_version: &APIVersion) -> (r: Option<
        String,
    >)
        ensures
            text_of(r) == resource_target(registry.url@, *api_version),
    {
        let mut version = api_version.to_text();
        version.append("/");
        match join(registry.url.as_str(), version.as_str()) {
            Some(root) => join(root.as_str(), "resource"),
            None => None,
        }
    }

    /// The URL to which the heartbeat of the node `node` is posted at
    /// `registry`; `None` where the URLs do not resolve.
    pub fn heartbeat_url(registry: &NmosMdnsRegistry, api_version: &APIVersion, node: u128) -> (r:
        Option<String>)
        ensures
            text_of(r) == heartbeat_target(registry.url@, *api_version, node),
    {
        let mut version = api_version.to_text();
        version.append("/");
        match join(registry.url.as_str(), version.as_str()) {
            Some(root) => {
                let mut reference: String = "health/nodes/".to_owned();
                let id = id_to_text(node);
                reference.append(id.as_str());
                join(root.as_str(), reference.as_str())
            },
            None => None,
        }
    }

    /// The request that is posted to register or update `resource`.
    pub fn post_resource<R: Registerable + ?Sized>(resource: &R, api_version: &APIVersion) -> (r:
        RegistrationRequest)
        requires
            api_version.supported(),
        ensures
            resource.requested_by(*api_version, r),
    {
        resource.registration_request(api_version)
    }

    /// The URL at which `resource` is deleted, given the URL to which
    /// resources are posted; `None` where it does not resolve.
    pub fn delete_resource<R: Registerable + ?Sized>(url: &str, resource: &R) -> (r: Option<
        String,
    >)
        ensures
            text_of(r) == delete_target(url@, resource.path()),
    {
        let path = resource.registry_path();
        Self::delete_url(url, path.as_str())
    }

    /// The URL at which the resource at `path` is deleted, given the URL to
    /// which resources are posted; `None` where it does not resolve.
    pub fn delete_url(url: &str, path: &str) -> (r: Option<String>)
        ensures
            text_of(r) == delete_target(url@, path@),
    {
        let mut reference: String = "resource/".to_owned();
        reference.append(path);
        join(url, reference.as_str())
    }

    /// What follows from the answer to a call made for one resource.
    pub fn register_resource(attempt: Attempt, outcome: HttpOutcome) -> (r: Progress)
        ensures
            r == after(attempt, outcome),
    {
        if outcome.is_refused() {
            Progress::Failed
        } else {
            match attempt {
                Attempt::Post => if outcome.is_already_exists() {
                    Progress::Call(Attempt::Delete)
                } else {
                    Progress::Registered
                },
                Attempt::Delete => Progress::Call(Attempt::Repost),
                Attempt::Repost => if outcome.is_already_exists() {
                    Progress::Failed
                } else {
                    Progress::Registered
                },
            }
        }
    }

    /// The plan of a registration pass over the graph: every resource once,
    /// the kinds in the order of their references. There is a plan for every
    /// graph under every supported revision, and none under any other.
    pub fn register_resources(model: &Graph<'_>, api_version: &APIVersion) -> (r: Option<Plan>)
        ensures
            r is Some <==> api_version.supported(),
            r matches Some(plan) ==> plan.registers_graph(model@, *api_version),
    {
        if !api_version.is_supported() {
            return None;
        }
        Some(
            Plan {
                nodes: plan_kind(model.nodes, ResourceKind::Node, api_version),
                devices: plan_kind(model.devices, ResourceKind::Device, api_version),
                sources: plan_kind(model.sources, ResourceKind::Source, api_version),
                flows: plan_kind(model.flows, ResourceKind::Flow, api_version),
                senders: plan_kind(model.senders, ResourceKind::Sender, api_version),
                receivers: plan_kind(model.receivers, ResourceKind::Receiver, api_version),
            },
        )
    }
}

} // verus!
