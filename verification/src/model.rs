//! The graph of resources: one map from identifier to resource for each
//! kind, with the references between the kinds checked on insertion.

use std::collections::HashMap;
use vstd::prelude::*;
use crate::resource::device::Device;
use crate::resource::flow::Flow;
use crate::resource::node::Node;
use crate::resource::receiver::Receiver;
use crate::resource::sender::Sender;
use crate::resource::source::Source;
use crate::resource::{Identified, Resource, ResourceBundle};

verus! {

broadcast use vstd::std_specs::hash::group_hash_axioms;

/// The reference that kept a resource out of the graph: the kind that was
/// looked for and the identifier that was not found there.
#[derive(Clone, Copy, Debug, PartialEq, Eq, Structural)]
pub enum RejectedReference {
    MissingNode(u128),
    MissingDevice(u128),
    MissingSource(u128),
    MissingFlow(u128),
}

/// Nothing of the kind has the identifier.
#[derive(Clone, Copy, Debug, PartialEq, Eq, Structural)]
pub struct NotFound {
    pub id: u128,
}

/// The map that a list of resources makes: each under its identifier, a
/// later one in place of an earlier one of the same identifier.
pub open spec fn keyed<T: Identified>(items: Seq<T>) -> Map<u128, T>
    decreases items.len(),
{
    if items.len() == 0 {
        Map::empty()
    } else {
        keyed(items.drop_last()).insert(items.last().ident(), items.last())
    }
}

/// Every resource of the map stands under its own identifier.
pub open spec fn keyed_by_id<T: Identified>(m: Map<u128, T>) -> bool {
    forall|id: u128| m.contains_key(id) ==> (#[trigger] m[id]).ident() == id
}

/// What a list of resources makes stands under its own identifiers.
pub proof fn lemma_keyed_by_id<T: Identified>(items: Seq<T>)
    ensures
        keyed_by_id(keyed(items)),
    decreases items.len(),
{
    if items.len() > 0 {
        lemma_keyed_by_id(items.drop_last());
    }
}

fn into_map<T: Identified>(items: Vec<T>) -> (r: HashMap<u128, T>)
    ensures
        r@ == keyed(items@),
{
    let mut r: HashMap<u128, T> = HashMap::new();
    for item in it: items.into_iter()
        invariant
            it.seq() == items@,
            r@ == keyed(items@.subrange(0, it.index() as int)),
    {
        proof {
            let upto = items@.subrange(0, it.index() + 1);
            assert(upto.drop_last() =~= items@.subrange(0, it.index() as int));
            assert(upto.last() == item);
        }
        r.insert(item.id(), item);
    }
    proof {
        assert(items@.subrange(0, items@.len() as int) =~= items@);
    }
    r
}

/// The graph as six maps.
pub struct ModelView {
    pub nodes: Map<u128, Node>,
    pub devices: Map<u128, Device>,
    pub sources: Map<u128, Source>,
    pub flows: Map<u128, Flow>,
    pub senders: Map<u128, Sender>,
    pub receivers: Map<u128, Receiver>,
}

impl ModelView {
    /// The graph without resources.
    pub open spec fn empty() -> ModelView {
        ModelView {
            nodes: Map::empty(),
            devices: Map::empty(),
            sources: Map::empty(),
            flows: Map::empty(),
            senders: Map::empty(),
            receivers: Map::empty(),
        }
    }

    /// Every resource stands under its own identifier.
    pub open spec fn keyed_by_id(self) -> bool {
        &&& keyed_by_id(self.nodes)
        &&& keyed_by_id(self.devices)
        &&& keyed_by_id(self.sources)
        &&& keyed_by_id(self.flows)
        &&& keyed_by_id(self.senders)
        &&& keyed_by_id(self.receivers)
    }

    /// The reference that keeps `device` out, if one does: its node.
    pub open spec fn device_rejection(self, device: Device) -> Option<RejectedReference> {
        if !self.nodes.contains_key(device.node_id) {
            Some(RejectedReference::MissingNode(device.node_id))
        } else {
            None
        }
    }

    /// The reference that keeps `source` out, if one does: its device.
    pub open spec fn source_rejection(self, source: Source) -> Option<RejectedReference> {
        if !self.devices.contains_key(source.device_id) {
            Some(RejectedReference::MissingDevice(source.device_id))
        } else {
            None
        }
    }

    /// The reference that keeps `flow` out, if one does: its device, else
    /// its source.
    pub open spec fn flow_rejection(self, flow: Flow) -> Option<RejectedReference> {
        if !self.devices.contains_key(flow.device_id) {
            Some(RejectedReference::MissingDevice(flow.device_id))
        } else if !self.sources.contains_key(flow.source_id) {
            Some(RejectedReference::MissingSource(flow.source_id))
        } else {
            None
        }
    }

    /// The reference that keeps `sender` out, if one does: its device, else
    /// its flow.
    pub open spec fn sender_rejection(self, sender: Sender) -> Option<RejectedReference> {
        if !self.devices.contains_key(sender.device_id) {
            Some(RejectedReference::MissingDevice(sender.device_id))
        } else if !self.flows.contains_key(sender.flow_id) {
            Some(RejectedReference::MissingFlow(sender.flow_id))
        } else {
            None
        }
    }

    /// The reference that keeps `receiver` out, if one does: its device.
    pub open spec fn receiver_rejection(self, receiver: Receiver) -> Option<RejectedReference> {
        if !self.devices.contains_key(receiver.device_id) {
            Some(RejectedReference::MissingDevice(receiver.device_id))
        } else {
            None
        }
    }

    /// The graph after the insertion of a node, which is never kept out.
    pub open spec fn insert_node(self, node: Node) -> ModelView {
        ModelView { nodes: self.nodes.insert(node.core.id, node), ..self }
    }

    /// The graph after the insertion of a device: unchanged where the
    /// device is kept out.
    pub open spec fn insert_device(self, device: Device) -> ModelView {
        if self.device_rejection(device) is Some {
            self
        } else {
            ModelView { devices: self.devices.insert(device.core.id, device), ..self }
        }
    }

    /// The graph after the insertion of a source: unchanged where the
    /// source is kept out.
    pub open spec fn insert_source(self, source: Source) -> ModelView {
        if self.source_rejection(source) is Some {
            self
        } else {
            ModelView { sources: self.sources.insert(source.core.id, source), ..self }
        }
    }

    /// The graph after the insertion of a flow: unchanged where the flow is
    /// kept out.
    pub open spec fn insert_flow(self, flow: Flow) -> ModelView {
        if self.flow_rejection(flow) is Some {
            self
        } else {
            ModelView { flows: self.flows.insert(flow.core.id, flow), ..self }
        }
    }

    /// The graph after the insertion of a sender: unchanged where the
    /// sender is kept out.
    pub open spec fn insert_sender(self, sender: Sender) -> ModelView {
        if self.sender_rejection(sender) is Some {
            self
        } else {
            ModelView { senders: self.senders.insert(sender.core.id, sender), ..self }
        }
    }

    /// The graph after the insertion of a receiver: unchanged where the
    /// receiver is kept out.
    pub open spec fn insert_receiver(self, receiver: Receiver) -> ModelView {
        if self.receiver_rejection(receiver) is Some {
            self
        } else {
            ModelView { receivers: self.receivers.insert(receiver.core.id, receiver), ..self }
        }
    }
}

impl ModelView {
    /// The graph after the insertion of a resource of any kind.
    pub open spec fn insert(self, resource: Resource) -> ModelView {
        match resource {
            Resource::Node(r) => self.insert_node(r),
            Resource::Device(r) => self.insert_device(r),
            Resource::Source(r) => self.insert_source(r),
            Resource::Flow(r) => self.insert_flow(r),
            Resource::Sender(r) => self.insert_sender(r),
            Resource::Receiver(r) => self.insert_receiver(r),
        }
    }

    /// The reference that keeps a resource of any kind out, if one does.
    pub open spec fn rejection(self, resource: Resource) -> Option<RejectedReference> {
        match resource {
            Resource::Node(_) => None,
            Resource::Device(r) => self.device_rejection(r),
            Resource::Source(r) => self.source_rejection(r),
            Resource::Flow(r) => self.flow_rejection(r),
            Resource::Sender(r) => self.sender_rejection(r),
            Resource::Receiver(r) => self.receiver_rejection(r),
        }
    }

    /// The graph after the insertions of a list, first to last.
    pub open spec fn insert_all(self, resources: Seq<Resource>) -> ModelView
        decreases resources.len(),
    {
        if resources.len() == 0 {
            self
        } else {
            self.insert_all(resources.drop_last()).insert(resources.last())
        }
    }

    /// Every reference leads somewhere: each device's node, each source's
    /// device, each flow's device and source, each sender's device and flow
    /// and each receiver's device is in the graph.
    pub open spec fn references_resolve(self) -> bool {
        &&& forall|id: u128| #[trigger]
            self.devices.contains_key(id) ==> self.nodes.contains_key(self.devices[id].node_id)
        &&& forall|id: u128| #[trigger]
            self.sources.contains_key(id) ==> self.devices.contains_key(self.sources[id].device_id)
        &&& forall|id: u128| #[trigger]
            self.flows.contains_key(id) ==> self.devices.contains_key(self.flows[id].device_id)
                && self.sources.contains_key(self.flows[id].source_id)
        &&& forall|id: u128| #[trigger]
            self.senders.contains_key(id) ==> self.devices.contains_key(self.senders[id].device_id)
                && self.flows.contains_key(self.senders[id].flow_id)
        &&& forall|id: u128| #[trigger]
            self.receivers.contains_key(id) ==> self.devices.contains_key(
                self.receivers[id].device_id,
            )
    }

    /// How many resources each kind holds, node to receiver.
    pub open spec fn counts(self) -> (nat, nat, nat, nat, nat, nat) {
        (
            self.nodes.len(),
            self.devices.len(),
            self.sources.len(),
            self.flows.len(),
            self.senders.len(),
            self.receivers.len(),
        )
    }
}

/// An insertion that is kept out leaves the graph as it is, and with it the
/// number of resources of each kind.
pub proof fn lemma_rejected_insert_changes_nothing(graph: ModelView, resource: Resource)
    requires
        graph.rejection(resource) is Some,
    ensures
        graph.insert(resource) == graph,
        graph.insert(resource).counts() == graph.counts(),
{
}

/// An insertion that is let in puts the resource under its identifier and
/// touches no other kind; its references were in the graph before it.
pub proof fn lemma_accepted_insert(graph: ModelView, resource: Resource)
    requires
        graph.rejection(resource) is None,
    ensures
        match resource {
            Resource::Node(r) => graph.insert(resource) == (ModelView {
                nodes: graph.nodes.insert(r.core.id, r),
                ..graph
            }),
            Resource::Device(r) => graph.nodes.contains_key(r.node_id) && graph.insert(resource)
                == (ModelView { devices: graph.devices.insert(r.core.id, r), ..graph }),
            Resource::Source(r) => graph.devices.contains_key(r.device_id) && graph.insert(resource)
                == (ModelView { sources: graph.sources.insert(r.core.id, r), ..graph }),
            Resource::Flow(r) => graph.devices.contains_key(r.device_id)
                && graph.sources.contains_key(r.source_id) && graph.insert(resource) == (ModelView {
                flows: graph.flows.insert(r.core.id, r),
                ..graph
            }),
            Resource::Sender(r) => graph.devices.contains_key(r.device_id)
                && graph.flows.contains_key(r.flow_id) && graph.insert(resource) == (ModelView {
                senders: graph.senders.insert(r.core.id, r),
                ..graph
            }),
            Resource::Receiver(r) => graph.devices.contains_key(r.device_id) && graph.insert(
                resource,
            ) == (ModelView { receivers: graph.receivers.insert(r.core.id, r), ..graph }),
        },
{
}

/// One insertion keeps a graph in which every reference leads somewhere
/// that way.
pub proof fn lemma_insert_keeps_references(graph: ModelView, resource: Resource)
    requires
        graph.references_resolve(),
    ensures
        graph.insert(resource).references_resolve(),
{
    let after = graph.insert(resource);
    assert forall|id: u128| #[trigger] after.devices.contains_key(id) implies after.nodes.contains_key(
        after.devices[id].node_id,
    ) by {
        if graph.devices.contains_key(id) {
        }
    }
    assert forall|id: u128| #[trigger] after.sources.contains_key(id) implies after.devices.contains_key(
        after.sources[id].device_id,
    ) by {
        if graph.sources.contains_key(id) {
        }
    }
    assert forall|id: u128| #[trigger] after.flows.contains_key(id) implies after.devices.contains_key(
        after.flows[id].device_id,
    ) && after.sources.contains_key(after.flows[id].source_id) by {
        if graph.flows.contains_key(id) {
        }
    }
    assert forall|id: u128| #[trigger] after.senders.contains_key(id) implies after.devices.contains_key(
        after.senders[id].device_id,
    ) && after.flows.contains_key(after.senders[id].flow_id) by {
        if graph.senders.contains_key(id) {
        }
    }
    assert forall|id: u128| #[trigger] after.receivers.contains_key(id) implies after.devices.contains_key(
        after.receivers[id].device_id,
    ) by {
        if graph.receivers.contains_key(id) {
        }
    }
}

/// Whatever is inserted into a graph in which every reference leads
/// somewhere, and in whatever order, every reference still does: a resource
/// is in the graph only if what it refers to was there when it came in, and
/// insertions take nothing out.
pub proof fn lemma_inserts_keep_references(graph: ModelView, resources: Seq<Resource>)
    requires
        graph.references_resolve(),
    ensures
        graph.insert_all(resources).references_resolve(),
    decreases resources.len(),
{
    if resources.len() > 0 {
        lemma_inserts_keep_references(graph, resources.drop_last());
        lemma_insert_keeps_references(graph.insert_all(resources.drop_last()), resources.last());
    }
}

/// In a graph grown from nothing by insertions alone, every reference leads
/// somewhere.
pub proof fn lemma_grown_graph_has_its_references(resources: Seq<Resource>)
    ensures
        ModelView::empty().insert_all(resources).references_resolve(),
{
    lemma_inserts_keep_references(ModelView::empty(), resources);
}

/// Puts a node among the nodes. A node refers to nothing, so this never
/// fails.
pub fn admit_node(nodes: &mut HashMap<u128, Node>, node: Node) -> (r: Result<
    (),
    RejectedReference,
>)
    ensures
        r is Ok,
        final(nodes)@ == old(nodes)@.insert(node.core.id, node),
{
    nodes.insert(node.core.id, node);
    Ok(())
}

/// Puts a device among the devices if its node is among the nodes; else
/// the devices stay as they are.
pub fn admit_device(
    nodes: &HashMap<u128, Node>,
    devices: &mut HashMap<u128, Device>,
    device: Device,
) -> (r: Result<(), RejectedReference>)
    ensures
        r == (if nodes@.contains_key(device.node_id) {
            Ok::<(), RejectedReference>(())
        } else {
            Err(RejectedReference::MissingNode(device.node_id))
        }),
        final(devices)@ == (if r is Ok {
            old(devices)@.insert(device.core.id, device)
        } else {
            old(devices)@
        }),
{
    if !nodes.contains_key(&device.node_id) {
        return Err(RejectedReference::MissingNode(device.node_id));
    }
    devices.insert(device.core.id, device);
    Ok(())
}

/// Puts a source among the sources if its device is among the devices;
/// else the sources stay as they are.
pub fn admit_source(
    devices: &HashMap<u128, Device>,
    sources: &mut HashMap<u128, Source>,
    source: Source,
) -> (r: Result<(), RejectedReference>)
    ensures
        r == (if devices@.contains_key(source.device_id) {
            Ok::<(), RejectedReference>(())
        } else {
            Err(RejectedReference::MissingDevice(source.device_id))
        }),
        final(sources)@ == (if r is Ok {
            old(sources)@.insert(source.core.id, source)
        } else {
            old(sources)@
        }),
{
    if !devices.contains_key(&source.device_id) {
        return Err(RejectedReference::MissingDevice(source.device_id));
    }
    sources.insert(source.core.id, source);
    Ok(())
}

/// Puts a flow among the flows if its device is among the devices and its
/// source among the sources; else the flows stay as they are.
pub fn admit_flow(
    devices: &HashMap<u128, Device>,
    sources: &HashMap<u128, Source>,
    flows: &mut HashMap<u128, Flow>,
    flow: Flow,
) -> (r: Result<(), RejectedReference>)
    ensures
        r == (if !devices@.contains_key(flow.device_id) {
            Err::<(), RejectedReference>(RejectedReference::MissingDevice(flow.device_id))
        } else if !sources@.contains_key(flow.source_id) {
            Err(RejectedReference::MissingSource(flow.source_id))
        } else {
            Ok(())
        }),
        final(flows)@ == (if r is Ok {
            old(flows)@.insert(flow.core.id, flow)
        } else {
            old(flows)@
        }),
{
    if !devices.contains_key(&flow.device_id) {
        return Err(RejectedReference::MissingDevice(flow.device_id));
    }
    if !sources.contains_key(&flow.source_id) {
        return Err(RejectedReference::MissingSource(flow.source_id));
    }
    flows.insert(flow.core.id, flow);
    Ok(())
}

/// Puts a sender among the senders if its device is among the devices and
/// its flow among the flows; else the senders stay as they are.
pub fn admit_sender(
    devices: &HashMap<u128, Device>,
    flows: &HashMap<u128, Flow>,
    senders: &mut HashMap<u128, Sender>,
    sender: Sender,
) -> (r: Result<(), RejectedReference>)
    ensures
        r == (if !devices@.contains_key(sender.device_id) {
            Err::<(), RejectedReference>(RejectedReference::MissingDevice(sender.device_id))
        } else if !flows@.contains_key(sender.flow_id) {
            Err(RejectedReference::MissingFlow(sender.flow_id))
        } else {
            Ok(())
        }),
        final(senders)@ == (if r is Ok {
            old(senders)@.insert(sender.core.id, sender)
        } else {
            old(senders)@
        }),
{
    if !devices.contains_key(&sender.device_id) {
        return Err(RejectedReference::MissingDevice(sender.device_id));
    }
    if !flows.contains_key(&sender.flow_id) {
        return Err(RejectedReference::MissingFlow(sender.flow_id));
    }
    senders.insert(sender.core.id, sender);
    Ok(())
}

/// Puts a receiver among the receivers if its device is among the devices;
/// else the receivers stay as they are.
pub fn admit_receiver(
    devices: &HashMap<u128, Device>,
    receivers: &mut HashMap<u128, Receiver>,
    receiver: Receiver,
) -> (r: Result<(), RejectedReference>)
    ensures
        r == (if devices@.contains_key(receiver.device_id) {
            Ok::<(), RejectedReference>(())
        } else {
            Err(RejectedReference::MissingDevice(receiver.device_id))
        }),
        final(receivers)@ == (if r is Ok {
            old(receivers)@.insert(receiver.core.id, receiver)
        } else {
            old(receivers)@
        }),
{
    if !devices.contains_key(&receiver.device_id) {
        return Err(RejectedReference::MissingDevice(receiver.device_id));
    }
    receivers.insert(receiver.core.id, receiver);
    Ok(())
}

/// Takes the resource of this identifier out of a collection. Nothing else
/// is looked at: what refers to the resource stays where it is.
pub fn dismiss<T>(collection: &mut HashMap<u128, T>, id: &u128) -> (r: Result<(), NotFound>)
    ensures
        r == (if old(collection)@.contains_key(*id) {
            Ok::<(), NotFound>(())
        } else {
            Err(NotFound { id: *id })
        }),
        final(collection)@ == old(collection)@.remove(*id),
{
    match collection.remove(id) {
        Some(_) => Ok(()),
        None => Err(NotFound { id: *id }),
    }
}

/// The six collections of a graph, held for reading. Each may come from a
/// lock of its own.
pub struct Graph<'a> {
    pub nodes: &'a HashMap<u128, Node>,
    pub devices: &'a HashMap<u128, Device>,
    pub sources: &'a HashMap<u128, Source>,
    pub flows: &'a HashMap<u128, Flow>,
    pub senders: &'a HashMap<u128, Sender>,
    pub receivers: &'a HashMap<u128, Receiver>,
}

impl<'a> View for Graph<'a> {
    type V = ModelView;

    open spec fn view(&self) -> ModelView {
        ModelView {
            nodes: self.nodes@,
            devices: self.devices@,
            sources: self.sources@,
            flows: self.flows@,
            senders: self.senders@,
            receivers: self.receivers@,
        }
    }
}

/// The graph of resources. A graph that was made and changed by the
/// functions below has each resource under its own identifier, and an
/// identifier that is inserted again replaces what stood under it. Removing
/// a resource leaves those that refer to it where they are.
#[derive(Debug)]
pub struct Model {
    nodes: HashMap<u128, Node>,
    devices: HashMap<u128, Device>,
    sources: HashMap<u128, Source>,
    flows: HashMap<u128, Flow>,
    senders: HashMap<u128, Sender>,
    receivers: HashMap<u128, Receiver>,
}

impl View for Model {
    type V = ModelView;

    closed spec fn view(&self) -> ModelView {
        ModelView {
            nodes: self.nodes@,
            devices: self.devices@,
            sources: self.sources@,
            flows: self.flows@,
            senders: self.senders@,
            receivers: self.receivers@,
        }
    }
}

impl Model {
    /// The graph without resources.
    pub fn new() -> (r: Model)
        ensures
            r@ == ModelView::empty(),
            r@.keyed_by_id(),
    {
        Model {
            nodes: HashMap::new(),
            devices: HashMap::new(),
            sources: HashMap::new(),
            flows: HashMap::new(),
            senders: HashMap::new(),
            receivers: HashMap::new(),
        }
    }

    /// The graph of the bundle's resources, as they are: no reference is
    /// checked. Of two resources of one kind with the same identifier the
    /// later one stays.
    pub fn from_resources(resource_bundle: ResourceBundle) -> (r: Model)
        ensures
            r@ == (ModelView {
                nodes: keyed(resource_bundle.nodes@),
                devices: keyed(resource_bundle.devices@),
                sources: keyed(resource_bundle.sources@),
                flows: keyed(resource_bundle.flows@),
                senders: keyed(resource_bundle.senders@),
                receivers: keyed(resource_bundle.receivers@),
            }),
            r@.keyed_by_id(),
    {
        proof {
            lemma_keyed_by_id(resource_bundle.nodes@);
            lemma_keyed_by_id(resource_bundle.devices@);
            lemma_keyed_by_id(resource_bundle.sources@);
            lemma_keyed_by_id(resource_bundle.flows@);
            lemma_keyed_by_id(resource_bundle.senders@);
            lemma_keyed_by_id(resource_bundle.receivers@);
        }
        Model {
            nodes: into_map(resource_bundle.nodes),
            devices: into_map(resource_bundle.devices),
            sources: into_map(resource_bundle.sources),
            flows: into_map(resource_bundle.flows),
            senders: into_map(resource_bundle.senders),
            receivers: into_map(resource_bundle.receivers),
        }
    }

    /// The graph taken apart: its collections of nodes, devices, sources,
    /// flows, senders and receivers.
    pub fn into_collections(self) -> (r: (
        HashMap<u128, Node>,
        HashMap<u128, Device>,
        HashMap<u128, Source>,
        HashMap<u128, Flow>,
        HashMap<u128, Sender>,
        HashMap<u128, Receiver>,
    ))
        ensures
            self@ == (ModelView {
                nodes: r.0@,
                devices: r.1@,
                sources: r.2@,
                flows: r.3@,
                senders: r.4@,
                receivers: r.5@,
            }),
    {
        (self.nodes, self.devices, self.sources, self.flows, self.senders, self.receivers)
    }

    /// The six collections, held for reading.
    pub fn graph(&self) -> (r: Graph<'_>)
        ensures
            r@ == self@,
    {
        Graph {
            nodes: &self.nodes,
            devices: &self.devices,
            sources: &self.sources,
            flows: &self.flows,
            senders: &self.senders,
            receivers: &self.receivers,
        }
    }

    /// The nodes, each under its identifier.
    pub fn nodes(&self) -> (r: &HashMap<u128, Node>)
        ensures
            r@ == self@.nodes,
    {
        &self.nodes
    }

    /// The devices, each under its identifier.
    pub fn devices(&self) -> (r: &HashMap<u128, Device>)
        ensures
            r@ == self@.devices,
    {
        &self.devices
    }

    /// The receivers, each under its identifier.
    pub fn receivers(&self) -> (r: &HashMap<u128, Receiver>)
        ensures
            r@ == self@.receivers,
    {
        &self.receivers
    }

    /// The senders, each under its identifier.
    pub fn senders(&self) -> (r: &HashMap<u128, Sender>)
        ensures
            r@ == self@.senders,
    {
        &self.senders
    }

    /// The sources, each under its identifier.
    pub fn sources(&self) -> (r: &HashMap<u128, Source>)
        ensures
            r@ == self@.sources,
    {
        &self.sources
    }

    /// The flows, each under its identifier.
    pub fn flows(&self) -> (r: &HashMap<u128, Flow>)
        ensures
            r@ == self@.flows,
    {
        &self.flows
    }

    /// Puts a node into the graph. A node refers to nothing, so this never
    /// fails.
    pub fn insert_node(&mut self, node: Node) -> (r: Result<(), RejectedReference>)
        ensures
            r is Ok,
            final(self)@ == old(self)@.insert_node(node),
            old(self)@.keyed_by_id() ==> final(self)@.keyed_by_id(),
    {
        admit_node(&mut self.nodes, node)
    }

    /// Puts a device into the graph if its node is there; else the graph
    /// stays as it is.
    pub fn insert_device(&mut self, device: Device) -> (r: Result<(), RejectedReference>)
        ensures
            r is Ok <==> old(self)@.device_rejection(device) is None,
            r matches Err(e) ==> old(self)@.device_rejection(device) == Some(e),
            final(self)@ == old(self)@.insert_device(device),
            old(self)@.keyed_by_id() ==> final(self)@.keyed_by_id(),
    {
        admit_device(&self.nodes, &mut self.devices, device)
    }

    /// Puts a source into the graph if its device is there; else the graph
    /// stays as it is.
    pub fn insert_source(&mut self, source: Source) -> (r: Result<(), RejectedReference>)
        ensures
            r is Ok <==> old(self)@.source_rejection(source) is None,
            r matches Err(e) ==> old(self)@.source_rejection(source) == Some(e),
            final(self)@ == old(self)@.insert_source(source),
            old(self)@.keyed_by_id() ==> final(self)@.keyed_by_id(),
    {
        admit_source(&self.devices, &mut self.sources, source)
    }

    /// Puts a receiver into the graph if its device is there; else the
    /// graph stays as it is.
    pub fn insert_receiver(&mut self, receiver: Receiver) -> (r: Result<(), RejectedReference>)
        ensures
            r is Ok <==> old(self)@.receiver_rejection(receiver) is None,
            r matches Err(e) ==> old(self)@.receiver_rejection(receiver) == Some(e),
            final(self)@ == old(self)@.insert_receiver(receiver),
            old(self)@.keyed_by_id() ==> final(self)@.keyed_by_id(),
    {
        admit_receiver(&self.devices, &mut self.receivers, receiver)
    }

    /// Puts a sender into the graph if its device and its flow are there;
    /// else the graph stays as it is.
    pub fn insert_sender(&mut self, sender: Sender) -> (r: Result<(), RejectedReference>)
        ensures
            r is Ok <==> old(self)@.sender_rejection(sender) is None,
            r matches Err(e) ==> old(self)@.sender_rejection(sender) == Some(e),
            final(self)@ == old(self)@.insert_sender(sender),
            old(self)@.keyed_by_id() ==> final(self)@.keyed_by_id(),
    {
        admit_sender(&self.devices, &self.flows, &mut self.senders, sender)
    }

    /// Puts a flow into the graph if its device and its source are there;
    /// else the graph stays as it is.
    pub fn insert_flow(&mut self, flow: Flow) -> (r: Result<(), RejectedReference>)
        ensures
            r is Ok <==> old(self)@.flow_rejection(flow) is None,
            r matches Err(e) ==> old(self)@.flow_rejection(flow) == Some(e),
            final(self)@ == old(self)@.insert_flow(flow),
            old(self)@.keyed_by_id() ==> final(self)@.keyed_by_id(),
    {
        admit_flow(&self.devices, &self.sources, &mut self.flows, flow)
    }

    /// Puts a resource of any kind into the graph if what it refers to is
    /// there; else the graph stays as it is.
    pub fn insert(&mut self, resource: Resource) -> (r: Result<(), RejectedReference>)
        ensures
            r is Ok <==> old(self)@.rejection(resource) is None,
            r matches Err(e) ==> old(self)@.rejection(resource) == Some(e),
            final(self)@ == old(self)@.insert(resource),
            old(self)@.keyed_by_id() ==> final(self)@.keyed_by_id(),
    {
        match resource {
            Resource::Node(node) => self.insert_node(node),
            Resource::Device(device) => self.insert_device(device),
            Resource::Source(source) => self.insert_source(source),
            Resource::Flow(flow) => self.insert_flow(flow),
            Resource::Sender(sender) => self.insert_sender(sender),
            Resource::Receiver(receiver) => self.insert_receiver(receiver),
        }
    }

    /// Takes the node of this identifier out of the graph. Its devices stay.
    pub fn remove_node(&mut self, id: &u128) -> (r: Result<(), NotFound>)
        ensures
            r is Ok <==> old(self)@.nodes.contains_key(*id),
            r matches Err(e) ==> e.id == *id,
            final(self)@ == (ModelView { nodes: old(self)@.nodes.remove(*id), ..old(self)@ }),
            old(self)@.keyed_by_id() ==> final(self)@.keyed_by_id(),
    {
        dismiss(&mut self.nodes, id)
    }

    /// Takes the device of this identifier out of the graph. What refers to
    /// it stays.
    pub fn remove_device(&mut self, id: &u128) -> (r: Result<(), NotFound>)
        ensures
            r is Ok <==> old(self)@.devices.contains_key(*id),
            r matches Err(e) ==> e.id == *id,
            final(self)@ == (ModelView { devices: old(self)@.devices.remove(*id), ..old(self)@ }),
            old(self)@.keyed_by_id() ==> final(self)@.keyed_by_id(),
    {
        dismiss(&mut self.devices, id)
    }

    /// Takes the source of this identifier out of the graph. Its flows stay.
    pub fn remove_source(&mut self, id: &u128) -> (r: Result<(), NotFound>)
        ensures
            r is Ok <==> old(self)@.sources.contains_key(*id),
            r matches Err(e) ==> e.id == *id,
            final(self)@ == (ModelView { sources: old(self)@.sources.remove(*id), ..old(self)@ }),
            old(self)@.keyed_by_id() ==> final(self)@.keyed_by_id(),
    {
        dismiss(&mut self.sources, id)
    }

    /// Takes the sender of this identifier out of the graph.
    pub fn remove_sender(&mut self, id: &u128) -> (r: Result<(), NotFound>)
        ensures
            r is Ok <==> old(self)@.senders.contains_key(*id),
            r matches Err(e) ==> e.id == *id,
            final(self)@ == (ModelView { senders: old(self)@.senders.remove(*id), ..old(self)@ }),
            old(self)@.keyed_by_id() ==> final(self)@.keyed_by_id(),
    {
        dismiss(&mut self.senders, id)
    }

    /// Takes the receiver of this identifier out of the graph.
    pub fn remove_receiver(&mut self, id: &u128) -> (r: Result<(), NotFound>)
        ensures
            r is Ok <==> old(self)@.receivers.contains_key(*id),
            r matches Err(e) ==> e.id == *id,
            final(self)@ == (ModelView {
                receivers: old(self)@.receivers.remove(*id),
                ..old(self)@
            }),
            old(self)@.keyed_by_id() ==> final(self)@.keyed_by_id(),
    {
        dismiss(&mut self.receivers, id)
    }

    /// Takes the flow of this identifier out of the graph. Its senders stay.
    pub fn remove_flow(&mut self, id: &u128) -> (r: Result<(), NotFound>)
        ensures
            r is Ok <==> old(self)@.flows.contains_key(*id),
            r matches Err(e) ==> e.id == *id,
            final(self)@ == (ModelView { flows: old(self)@.flows.remove(*id), ..old(self)@ }),
            old(self)@.keyed_by_id() ==> final(self)@.keyed_by_id(),
    {
        dismiss(&mut self.flows, id)
    }
}

} // verus!
