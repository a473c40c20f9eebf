use nmos_node::href::Href;
use nmos_node::model::{
    admit_device, admit_flow, admit_node, admit_receiver, admit_sender, admit_source, dismiss, Model,
    NotFound, RejectedReference,
};
use std::collections::HashMap;
use nmos_node::resource::device::{Device, DeviceType};
use nmos_node::resource::flow::Flow;
use nmos_node::resource::node::Node;
use nmos_node::resource::receiver::Receiver;
use nmos_node::resource::sender::Sender;
use nmos_node::resource::source::Source;
use nmos_node::resource::{Format, Resource, ResourceBundle, ResourceCore, Tags, Transport};
use nmos_node::tai::TaiTime;

fn graph_core(id: u128, label: &str) -> ResourceCore {
    ResourceCore {
        id,
        version: TaiTime::new(1, 0),
        label: label.to_string(),
        description: String::new(),
        tags: Tags::new(),
    }
}

fn graph_node(id: u128) -> Node {
    Node {
        core: graph_core(id, "node"),
        href: Href::parse("http://127.0.0.1:3000/").unwrap(),
        hostname: None,
        services: vec![],
    }
}

fn graph_device(id: u128, node_id: u128) -> Device {
    Device {
        core: graph_core(id, "device"),
        type_: DeviceType::Generic,
        node_id,
        senders: vec![],
        receivers: vec![],
    }
}

fn graph_source(id: u128, device_id: u128) -> Source {
    Source { core: graph_core(id, "source"), format: Format::Video, device_id, parents: vec![] }
}

fn graph_flow(id: u128, source_id: u128, device_id: u128) -> Flow {
    Flow {
        core: graph_core(id, "flow"),
        format: Format::Video,
        source_id,
        device_id,
        parents: vec![],
        frame_height: 640,
        frame_width: 480,
        media_type: String::new(),
        colorspace: String::new(),
        grain_rate: None,
        sample_rate: None,
    }
}

fn graph_sender(id: u128, device_id: u128, flow_id: u128) -> Sender {
    Sender {
        core: graph_core(id, "sender"),
        flow_id,
        transport: Transport::Rtp,
        device_id,
        manifest_href: String::new(),
    }
}

fn graph_receiver(id: u128, device_id: u128) -> Receiver {
    Receiver {
        core: graph_core(id, "receiver"),
        format: Format::Video,
        device_id,
        transport: Transport::Rtp,
        subscription: None,
    }
}

fn graph_counts(m: &Model) -> [usize; 6] {
    [
        m.nodes().len(),
        m.devices().len(),
        m.sources().len(),
        m.flows().len(),
        m.senders().len(),
        m.receivers().len(),
    ]
}

fn graph_full() -> Model {
    let mut m = Model::new();
    assert_eq!(m.insert_node(graph_node(1)), Ok(()));
    assert_eq!(m.insert_device(graph_device(2, 1)), Ok(()));
    assert_eq!(m.insert_source(graph_source(3, 2)), Ok(()));
    assert_eq!(m.insert_flow(graph_flow(4, 3, 2)), Ok(()));
    assert_eq!(m.insert_sender(graph_sender(5, 2, 4)), Ok(()));
    assert_eq!(m.insert_receiver(graph_receiver(6, 2)), Ok(()));
    m
}

#[test]
fn new_graph_is_empty() {
    assert_eq!(graph_counts(&Model::new()), [0; 6]);
}

#[test]
fn resources_enter_when_their_references_are_there() {
    let m = graph_full();
    assert_eq!(graph_counts(&m), [1; 6]);
    assert_eq!(m.devices().get(&2).unwrap().node_id, 1);
    assert_eq!(m.flows().get(&4).unwrap().source_id, 3);
    assert_eq!(m.senders().get(&5).unwrap().flow_id, 4);
    assert_eq!(m.receivers().get(&6).unwrap().device_id, 2);
    assert_eq!(m.sources().get(&3).unwrap().device_id, 2);
    assert_eq!(m.nodes().get(&1).unwrap().core.id, 1);
}

#[test]
fn device_without_its_node_is_kept_out() {
    let mut m = Model::new();
    assert_eq!(m.insert_device(graph_device(2, 1)), Err(RejectedReference::MissingNode(1)));
    assert_eq!(graph_counts(&m), [0; 6]);
    m.insert_node(graph_node(7)).unwrap();
    assert_eq!(m.insert_device(graph_device(2, 1)), Err(RejectedReference::MissingNode(1)));
    assert_eq!(graph_counts(&m), [1, 0, 0, 0, 0, 0]);
}

#[test]
fn source_without_its_device_is_kept_out() {
    let mut m = Model::new();
    m.insert_node(graph_node(1)).unwrap();
    assert_eq!(m.insert_source(graph_source(3, 2)), Err(RejectedReference::MissingDevice(2)));
    assert_eq!(graph_counts(&m), [1, 0, 0, 0, 0, 0]);
}

#[test]
fn flow_needs_device_and_source() {
    let mut m = Model::new();
    m.insert_node(graph_node(1)).unwrap();
    assert_eq!(m.insert_flow(graph_flow(4, 3, 2)), Err(RejectedReference::MissingDevice(2)));
    m.insert_device(graph_device(2, 1)).unwrap();
    assert_eq!(m.insert_flow(graph_flow(4, 3, 2)), Err(RejectedReference::MissingSource(3)));
    assert_eq!(graph_counts(&m), [1, 1, 0, 0, 0, 0]);
    m.insert_source(graph_source(3, 2)).unwrap();
    assert_eq!(m.insert_flow(graph_flow(4, 3, 2)), Ok(()));
    assert_eq!(graph_counts(&m), [1, 1, 1, 1, 0, 0]);
}

#[test]
fn sender_needs_device_and_flow() {
    let mut m = Model::new();
    m.insert_node(graph_node(1)).unwrap();
    assert_eq!(m.insert_sender(graph_sender(5, 2, 4)), Err(RejectedReference::MissingDevice(2)));
    m.insert_device(graph_device(2, 1)).unwrap();
    assert_eq!(m.insert_sender(graph_sender(5, 2, 4)), Err(RejectedReference::MissingFlow(4)));
    assert_eq!(graph_counts(&m), [1, 1, 0, 0, 0, 0]);
    m.insert_source(graph_source(3, 2)).unwrap();
    m.insert_flow(graph_flow(4, 3, 2)).unwrap();
    assert_eq!(m.insert_sender(graph_sender(5, 2, 4)), Ok(()));
    assert_eq!(graph_counts(&m), [1, 1, 1, 1, 1, 0]);
}

#[test]
fn receiver_without_its_device_is_kept_out() {
    let mut m = Model::new();
    assert_eq!(m.insert_receiver(graph_receiver(6, 2)), Err(RejectedReference::MissingDevice(2)));
    assert_eq!(graph_counts(&m), [0; 6]);
}

#[test]
fn rejected_insert_leaves_what_was_there() {
    let mut m = graph_full();
    let mut replacement = graph_device(2, 99);
    replacement.core.label = "other".to_string();
    assert_eq!(m.insert_device(replacement), Err(RejectedReference::MissingNode(99)));
    assert_eq!(graph_counts(&m), [1; 6]);
    assert_eq!(m.devices().get(&2).unwrap().core.label, "device");
    assert_eq!(m.devices().get(&2).unwrap().node_id, 1);
}

#[test]
fn same_identifier_replaces() {
    let mut m = graph_full();
    let mut replacement = graph_device(2, 1);
    replacement.core.label = "renamed".to_string();
    replacement.core.version = TaiTime::new(2, 0);
    assert_eq!(m.insert_device(replacement), Ok(()));
    assert_eq!(graph_counts(&m), [1; 6]);
    assert_eq!(m.devices().get(&2).unwrap().core.label, "renamed");
    assert_eq!(m.devices().get(&2).unwrap().core.version, TaiTime::new(2, 0));
    let mut node = graph_node(1);
    node.hostname = Some("h".to_string());
    m.insert_node(node).unwrap();
    assert_eq!(m.nodes().len(), 1);
    assert_eq!(m.nodes().get(&1).unwrap().hostname, Some("h".to_string()));
}

#[test]
fn removal_does_not_cascade() {
    let mut m = graph_full();
    assert_eq!(m.remove_node(&1), Ok(()));
    assert_eq!(graph_counts(&m), [0, 1, 1, 1, 1, 1]);
    assert_eq!(m.remove_device(&2), Ok(()));
    assert_eq!(graph_counts(&m), [0, 0, 1, 1, 1, 1]);
    assert_eq!(m.remove_source(&3), Ok(()));
    assert_eq!(m.remove_flow(&4), Ok(()));
    assert_eq!(m.remove_sender(&5), Ok(()));
    assert_eq!(m.remove_receiver(&6), Ok(()));
    assert_eq!(graph_counts(&m), [0; 6]);
}

#[test]
fn removal_of_what_is_not_there_fails() {
    let mut m = graph_full();
    assert_eq!(m.remove_node(&9), Err(NotFound { id: 9 }));
    assert_eq!(m.remove_device(&9), Err(NotFound { id: 9 }));
    assert_eq!(m.remove_source(&9), Err(NotFound { id: 9 }));
    assert_eq!(m.remove_flow(&9), Err(NotFound { id: 9 }));
    assert_eq!(m.remove_sender(&9), Err(NotFound { id: 9 }));
    assert_eq!(m.remove_receiver(&9), Err(NotFound { id: 9 }));
    assert_eq!(graph_counts(&m), [1; 6]);
    assert_eq!(m.remove_node(&1), Ok(()));
    assert_eq!(m.remove_node(&1), Err(NotFound { id: 1 }));
}

#[test]
fn insert_after_removal_of_the_reference_is_kept_out() {
    let mut m = graph_full();
    m.remove_device(&2).unwrap();
    assert_eq!(m.insert_receiver(graph_receiver(8, 2)), Err(RejectedReference::MissingDevice(2)));
    assert_eq!(m.receivers().len(), 1);
}

#[test]
fn bundle_is_taken_as_it_is() {
    let mut bundle = ResourceBundle::new();
    bundle.devices.push(graph_device(2, 1));
    bundle.devices.push(graph_device(3, 1));
    let mut later = graph_device(2, 77);
    later.core.label = "later".to_string();
    bundle.devices.push(later);
    bundle.nodes.push(graph_node(10));
    bundle.sources.push(graph_source(4, 2));
    bundle.flows.push(graph_flow(5, 4, 2));
    bundle.senders.push(graph_sender(6, 2, 5));
    bundle.receivers.push(graph_receiver(7, 2));
    let m = Model::from_resources(bundle);
    assert_eq!(graph_counts(&m), [1, 2, 1, 1, 1, 1]);
    assert_eq!(m.devices().get(&2).unwrap().core.label, "later");
    assert_eq!(m.devices().get(&2).unwrap().node_id, 77);
    assert!(m.nodes().contains_key(&10));
}

#[test]
fn empty_bundle_makes_an_empty_graph() {
    assert_eq!(graph_counts(&Model::from_resources(ResourceBundle::new())), [0; 6]);
}

#[test]
fn any_order_of_insertions_keeps_the_references() {
    let attempts = vec![
        Resource::Sender(graph_sender(5, 2, 4)),
        Resource::Device(graph_device(2, 1)),
        Resource::Node(graph_node(1)),
        Resource::Flow(graph_flow(4, 3, 2)),
        Resource::Device(graph_device(2, 1)),
        Resource::Receiver(graph_receiver(6, 2)),
        Resource::Source(graph_source(3, 2)),
        Resource::Flow(graph_flow(4, 3, 2)),
        Resource::Sender(graph_sender(5, 2, 4)),
        Resource::Receiver(graph_receiver(7, 9)),
    ];
    let mut m = Model::new();
    let outcomes: Vec<bool> = attempts.into_iter().map(|r| m.insert(r).is_ok()).collect();
    assert_eq!(
        outcomes,
        vec![false, false, true, false, true, true, true, true, true, false]
    );
    assert_eq!(graph_counts(&m), [1, 1, 1, 1, 1, 1]);
    for d in m.devices().values() {
        assert!(m.nodes().contains_key(&d.node_id));
    }
    for f in m.flows().values() {
        assert!(m.devices().contains_key(&f.device_id) && m.sources().contains_key(&f.source_id));
    }
    for s in m.senders().values() {
        assert!(m.devices().contains_key(&s.device_id) && m.flows().contains_key(&s.flow_id));
    }
    for r in m.receivers().values() {
        assert!(m.devices().contains_key(&r.device_id));
    }
}

#[test]
fn collections_can_be_kept_apart() {
    let mut nodes = HashMap::new();
    let mut devices = HashMap::new();
    let mut sources = HashMap::new();
    let mut flows = HashMap::new();
    let mut senders = HashMap::new();
    let mut receivers = HashMap::new();
    assert_eq!(
        admit_device(&nodes, &mut devices, graph_device(2, 1)),
        Err(RejectedReference::MissingNode(1))
    );
    assert!(devices.is_empty());
    assert_eq!(admit_node(&mut nodes, graph_node(1)), Ok(()));
    assert_eq!(admit_device(&nodes, &mut devices, graph_device(2, 1)), Ok(()));
    assert_eq!(
        admit_source(&devices, &mut sources, graph_source(3, 9)),
        Err(RejectedReference::MissingDevice(9))
    );
    assert_eq!(admit_source(&devices, &mut sources, graph_source(3, 2)), Ok(()));
    assert_eq!(
        admit_flow(&devices, &sources, &mut flows, graph_flow(4, 8, 2)),
        Err(RejectedReference::MissingSource(8))
    );
    assert_eq!(
        admit_flow(&devices, &sources, &mut flows, graph_flow(4, 3, 9)),
        Err(RejectedReference::MissingDevice(9))
    );
    assert_eq!(admit_flow(&devices, &sources, &mut flows, graph_flow(4, 3, 2)), Ok(()));
    assert_eq!(
        admit_sender(&devices, &flows, &mut senders, graph_sender(5, 2, 7)),
        Err(RejectedReference::MissingFlow(7))
    );
    assert_eq!(
        admit_sender(&devices, &flows, &mut senders, graph_sender(5, 9, 4)),
        Err(RejectedReference::MissingDevice(9))
    );
    assert_eq!(admit_sender(&devices, &flows, &mut senders, graph_sender(5, 2, 4)), Ok(()));
    assert_eq!(
        admit_receiver(&devices, &mut receivers, graph_receiver(6, 9)),
        Err(RejectedReference::MissingDevice(9))
    );
    assert_eq!(admit_receiver(&devices, &mut receivers, graph_receiver(6, 2)), Ok(()));
    assert_eq!(
        [nodes.len(), devices.len(), sources.len(), flows.len(), senders.len(), receivers.len()],
        [1; 6]
    );
    assert_eq!(dismiss(&mut devices, &2), Ok(()));
    assert_eq!(dismiss(&mut devices, &2), Err(NotFound { id: 2 }));
    assert_eq!(receivers.len(), 1);
}

#[test]
fn graph_view_shows_the_collections() {
    let m = graph_full();
    let g = m.graph();
    assert_eq!(g.nodes.len(), 1);
    assert_eq!(g.devices.get(&2).unwrap().node_id, 1);
    assert!(g.sources.contains_key(&3));
    assert!(g.flows.contains_key(&4));
    assert!(g.senders.contains_key(&5));
    assert!(g.receivers.contains_key(&6));
}

#[test]
fn graph_comes_apart_into_its_collections() {
    let (nodes, devices, sources, flows, senders, receivers) = graph_full().into_collections();
    assert!(nodes.contains_key(&1));
    assert!(devices.contains_key(&2));
    assert!(sources.contains_key(&3));
    assert!(flows.contains_key(&4));
    assert!(senders.contains_key(&5));
    assert!(receivers.contains_key(&6));
}
