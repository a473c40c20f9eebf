use nmos_node::driver::{Action, Driver, Event, Facts, Phase};
use nmos_node::href::Href;
use nmos_node::mdns::NmosMdnsRegistry;
use nmos_node::model::Model;
use nmos_node::registration::{Attempt, HttpOutcome, RegistrationApi};
use nmos_node::registry_queue::RegistryQueue;
use nmos_node::resource::device::{Device, DeviceType};
use nmos_node::resource::flow::Flow;
use nmos_node::resource::node::Node;
use nmos_node::resource::receiver::Receiver;
use nmos_node::resource::source::Source;
use nmos_node::resource::{Format, ResourceBundle, ResourceCore, ResourceKind, Tags, Transport};
use nmos_node::tai::TaiTime;
use nmos_node::version::APIVersion;

fn drv_core(id: u128) -> ResourceCore {
    ResourceCore {
        id,
        version: TaiTime::new(3, 4),
        label: format!("r{}", id),
        description: String::new(),
        tags: Tags::new(),
    }
}

fn drv_node(id: u128) -> Node {
    Node {
        core: drv_core(id),
        href: Href::parse("http://127.0.0.1:3000/").unwrap(),
        hostname: None,
        services: vec![],
    }
}

fn drv_model() -> Model {
    let mut m = Model::new();
    m.insert_node(drv_node(1)).unwrap();
    m.insert_device(Device {
        core: drv_core(2),
        type_: DeviceType::Generic,
        node_id: 1,
        senders: vec![],
        receivers: vec![],
    })
    .unwrap();
    m.insert_receiver(Receiver {
        core: drv_core(3),
        format: Format::Video,
        device_id: 2,
        transport: Transport::Rtp,
        subscription: None,
    })
    .unwrap();
    m
}

fn drv_registry(pri: u8, host: &str) -> NmosMdnsRegistry {
    NmosMdnsRegistry {
        api_proto: "http".to_string(),
        api_ver: vec![APIVersion::v1_3()],
        api_auth: false,
        pri,
        url: format!("http://{}:8010/x-nmos/registration/", host),
    }
}

fn drv_queue(registries: Vec<NmosMdnsRegistry>) -> RegistryQueue {
    let mut q = RegistryQueue::new();
    for r in registries {
        q.push(r);
    }
    q
}

fn drv_registered(model: &Model, queue: &mut RegistryQueue) -> Driver {
    let mut d = Driver::new(APIVersion::v1_3());
    let mut action = d.step(Event::Tick, &model.graph(), queue);
    let mut posts = 0;
    while let Action::Post(_) = action {
        posts += 1;
        action = d.step(Event::Reply(HttpOutcome::Status(201)), &model.graph(), queue);
    }
    assert_eq!(posts, 3);
    assert_eq!(action, Action::Heartbeat);
    assert_eq!(d.phase, Phase::Heartbeating { first: true, in_flight: true });
    d
}

#[test]
fn new_driver_waits_for_selection() {
    let d = Driver::new(APIVersion::v1_3());
    assert_eq!(d.phase, Phase::Idle);
    assert_eq!(d.registry, None);
    assert_eq!(d.start(), Action::WaitSelection);
}

#[test]
fn tick_without_candidate_stays_idle() {
    let model = drv_model();
    let mut q = RegistryQueue::new();
    let mut d = Driver::new(APIVersion::v1_3());
    assert_eq!(d.step(Event::Tick, &model.graph(), &mut q), Action::WaitSelection);
    assert_eq!(d.phase, Phase::Idle);
    assert_eq!(d.registry, None);
}

#[test]
fn incompatible_candidates_are_not_selected() {
    let model = drv_model();
    let mut old = drv_registry(0, "10.0.0.1");
    old.api_ver = vec![APIVersion::v1_0()];
    let mut q = drv_queue(vec![old]);
    let mut d = Driver::new(APIVersion::v1_3());
    assert_eq!(d.step(Event::Tick, &model.graph(), &mut q), Action::WaitSelection);
    assert_eq!(d.registry, None);
    assert_eq!(q.len(), 1);
}

#[test]
fn pass_posts_nodes_devices_receivers_in_turn() {
    let model = drv_model();
    let mut q = drv_queue(vec![drv_registry(5, "10.0.0.5"), drv_registry(1, "10.0.0.1")]);
    let mut d = Driver::new(APIVersion::v1_3());
    assert_eq!(d.step(Event::Tick, &model.graph(), &mut q), Action::Post(0));
    assert_eq!(d.registry.as_ref().unwrap().pri, 1);
    assert_eq!(q.len(), 1);
    assert_eq!(d.resource_url, "http://10.0.0.1:8010/x-nmos/registration/v1.3/resource");
    assert_eq!(d.phase, Phase::Registering { index: 0, attempt: Attempt::Post, recovering: false });
    assert_eq!(d.plan.get(0).kind, ResourceKind::Node);
    assert_eq!(d.plan.get(0).request.type_, "node");
    assert_eq!(d.step(Event::Reply(HttpOutcome::Status(201)), &model.graph(), &mut q), Action::Post(1));
    assert_eq!(d.plan.get(1).kind, ResourceKind::Device);
    assert_eq!(d.step(Event::Reply(HttpOutcome::Status(201)), &model.graph(), &mut q), Action::Post(2));
    assert_eq!(d.plan.get(2).kind, ResourceKind::Receiver);
    assert_eq!(d.step(Event::Reply(HttpOutcome::Status(201)), &model.graph(), &mut q), Action::Heartbeat);
    assert_eq!(d.phase, Phase::Heartbeating { first: true, in_flight: true });
    assert_eq!(
        d.heartbeat_url,
        "http://10.0.0.1:8010/x-nmos/registration/v1.3/health/nodes/00000000-0000-0000-0000-000000000001"
    );
}

#[test]
fn pass_follows_kinds_regardless_of_insertion_order() {
    let mut b = ResourceBundle::new();
    b.receivers.push(Receiver {
        core: drv_core(9),
        format: Format::Audio,
        device_id: 5,
        transport: Transport::Dash,
        subscription: None,
    });
    b.flows.push(Flow {
        core: drv_core(8),
        format: Format::Audio,
        source_id: 7,
        device_id: 5,
        parents: vec![],
        frame_height: 0,
        frame_width: 0,
        media_type: String::new(),
        colorspace: String::new(),
        grain_rate: None,
        sample_rate: None,
    });
    b.sources.push(Source { core: drv_core(7), format: Format::Audio, device_id: 5, parents: vec![] });
    b.devices.push(Device {
        core: drv_core(5),
        type_: DeviceType::Generic,
        node_id: 4,
        senders: vec![],
        receivers: vec![],
    });
    b.nodes.push(drv_node(4));
    let model = Model::from_resources(b);
    let mut q = drv_queue(vec![drv_registry(1, "10.0.0.1")]);
    let mut d = Driver::new(APIVersion::v1_3());
    let mut posted = Vec::new();
    let mut action = d.step(Event::Tick, &model.graph(), &mut q);
    while let Action::Post(i) = action {
        posted.push(d.plan.get(i).request.type_.clone());
        action = d.step(Event::Reply(HttpOutcome::Status(201)), &model.graph(), &mut q);
    }
    assert_eq!(posted, vec!["node", "device", "source", "flow", "receiver"]);
    assert_eq!(action, Action::Heartbeat);
}

#[test]
fn existing_resource_is_deleted_then_posted_again() {
    let model = drv_model();
    let mut q = drv_queue(vec![drv_registry(1, "10.0.0.1")]);
    let mut d = Driver::new(APIVersion::v1_3());
    assert_eq!(d.step(Event::Tick, &model.graph(), &mut q), Action::Post(0));
    assert_eq!(d.step(Event::Reply(HttpOutcome::Status(200)), &model.graph(), &mut q), Action::Delete(0));
    assert_eq!(
        d.delete_url,
        "http://10.0.0.1:8010/x-nmos/registration/v1.3/resource/nodes/00000000-0000-0000-0000-000000000001"
    );
    assert_eq!(d.phase, Phase::Registering { index: 0, attempt: Attempt::Delete, recovering: false });
    assert_eq!(d.step(Event::Reply(HttpOutcome::Status(204)), &model.graph(), &mut q), Action::Post(0));
    assert_eq!(d.phase, Phase::Registering { index: 0, attempt: Attempt::Repost, recovering: false });
    assert_eq!(d.step(Event::Reply(HttpOutcome::Status(201)), &model.graph(), &mut q), Action::Post(1));
}

#[test]
fn second_already_exists_aborts_the_pass() {
    let model = drv_model();
    let mut q = drv_queue(vec![drv_registry(1, "10.0.0.1")]);
    let mut d = Driver::new(APIVersion::v1_3());
    d.step(Event::Tick, &model.graph(), &mut q);
    d.step(Event::Reply(HttpOutcome::Status(200)), &model.graph(), &mut q);
    d.step(Event::Reply(HttpOutcome::Status(200)), &model.graph(), &mut q);
    assert_eq!(d.step(Event::Reply(HttpOutcome::Status(200)), &model.graph(), &mut q), Action::WaitSelection);
    assert_eq!(d.phase, Phase::Idle);
}

#[test]
fn transport_error_aborts_the_pass() {
    let model = drv_model();
    let mut q = drv_queue(vec![drv_registry(1, "10.0.0.1")]);
    let mut d = Driver::new(APIVersion::v1_3());
    d.step(Event::Tick, &model.graph(), &mut q);
    d.step(Event::Reply(HttpOutcome::Status(201)), &model.graph(), &mut q);
    assert_eq!(d.step(Event::Reply(HttpOutcome::Failed), &model.graph(), &mut q), Action::WaitSelection);
    assert_eq!(d.phase, Phase::Idle);
    assert_eq!(d.step(Event::Tick, &model.graph(), &mut q), Action::WaitSelection);
    assert_eq!(d.registry, None);
}

#[test]
fn next_tick_starts_from_scratch_with_the_next_candidate() {
    let model = drv_model();
    let mut q = drv_queue(vec![drv_registry(1, "10.0.0.1"), drv_registry(2, "10.0.0.2")]);
    let mut d = Driver::new(APIVersion::v1_3());
    d.step(Event::Tick, &model.graph(), &mut q);
    d.step(Event::Reply(HttpOutcome::Status(201)), &model.graph(), &mut q);
    assert_eq!(d.step(Event::Reply(HttpOutcome::Status(500)), &model.graph(), &mut q), Action::WaitSelection);
    assert_eq!(d.step(Event::Tick, &model.graph(), &mut q), Action::Post(0));
    assert_eq!(d.registry.as_ref().unwrap().pri, 2);
    assert_eq!(d.resource_url, "http://10.0.0.2:8010/x-nmos/registration/v1.3/resource");
}

#[test]
fn heartbeats_go_on_while_they_succeed() {
    let model = drv_model();
    let mut q = drv_queue(vec![drv_registry(1, "10.0.0.1")]);
    let mut d = drv_registered(&model, &mut q);
    for _ in 0..3 {
        assert_eq!(d.step(Event::Reply(HttpOutcome::Status(200)), &model.graph(), &mut q), Action::WaitHeartbeat);
        assert_eq!(d.phase, Phase::Heartbeating { first: false, in_flight: false });
        assert_eq!(d.step(Event::Tick, &model.graph(), &mut q), Action::Heartbeat);
        assert_eq!(d.phase, Phase::Heartbeating { first: false, in_flight: true });
    }
}

#[test]
fn first_not_found_reregisters_once_then_resumes() {
    let model = drv_model();
    let mut q = drv_queue(vec![drv_registry(1, "10.0.0.1")]);
    let mut d = drv_registered(&model, &mut q);
    assert_eq!(d.step(Event::Reply(HttpOutcome::Status(404)), &model.graph(), &mut q), Action::Post(0));
    assert_eq!(d.phase, Phase::Registering { index: 0, attempt: Attempt::Post, recovering: true });
    assert_eq!(d.step(Event::Reply(HttpOutcome::Status(201)), &model.graph(), &mut q), Action::Post(1));
    assert_eq!(d.step(Event::Reply(HttpOutcome::Status(201)), &model.graph(), &mut q), Action::Post(2));
    assert_eq!(d.step(Event::Reply(HttpOutcome::Status(201)), &model.graph(), &mut q), Action::Heartbeat);
    assert_eq!(d.phase, Phase::Heartbeating { first: false, in_flight: true });
    assert_eq!(d.registry.as_ref().unwrap().pri, 1);
    assert_eq!(d.step(Event::Reply(HttpOutcome::Status(404)), &model.graph(), &mut q), Action::WaitSelection);
    assert_eq!(d.phase, Phase::Idle);
}

#[test]
fn later_not_found_is_loss() {
    let model = drv_model();
    let mut q = drv_queue(vec![drv_registry(1, "10.0.0.1")]);
    let mut d = drv_registered(&model, &mut q);
    d.step(Event::Reply(HttpOutcome::Status(200)), &model.graph(), &mut q);
    d.step(Event::Tick, &model.graph(), &mut q);
    assert_eq!(d.step(Event::Reply(HttpOutcome::Status(404)), &model.graph(), &mut q), Action::WaitSelection);
    assert_eq!(d.phase, Phase::Idle);
}

#[test]
fn other_failures_of_the_heartbeat_are_loss() {
    for outcome in [HttpOutcome::Status(500), HttpOutcome::Status(301), HttpOutcome::Failed] {
        let model = drv_model();
        let mut q = drv_queue(vec![drv_registry(1, "10.0.0.1")]);
        let mut d = drv_registered(&model, &mut q);
        assert_eq!(d.step(Event::Reply(outcome), &model.graph(), &mut q), Action::WaitSelection);
        assert_eq!(d.phase, Phase::Idle);
    }
}

#[test]
fn failed_recovery_returns_to_selection() {
    let model = drv_model();
    let mut q = drv_queue(vec![drv_registry(1, "10.0.0.1")]);
    let mut d = drv_registered(&model, &mut q);
    assert_eq!(d.step(Event::Reply(HttpOutcome::Status(404)), &model.graph(), &mut q), Action::Post(0));
    assert_eq!(d.step(Event::Reply(HttpOutcome::Status(503)), &model.graph(), &mut q), Action::WaitSelection);
    assert_eq!(d.phase, Phase::Idle);
}

#[test]
fn recovery_over_an_emptied_graph_resumes_the_heartbeat() {
    let model = drv_model();
    let mut q = drv_queue(vec![drv_registry(1, "10.0.0.1")]);
    let mut d = drv_registered(&model, &mut q);
    let empty = Model::new();
    assert_eq!(d.step(Event::Reply(HttpOutcome::Status(404)), &empty.graph(), &mut q), Action::Heartbeat);
    assert_eq!(d.phase, Phase::Heartbeating { first: false, in_flight: true });
}

#[test]
fn selection_replaces_the_registry_that_was_served() {
    let model = drv_model();
    let mut q = drv_queue(vec![drv_registry(1, "10.0.0.1")]);
    let mut d = drv_registered(&model, &mut q);
    assert_eq!(d.step(Event::Reply(HttpOutcome::Failed), &model.graph(), &mut q), Action::WaitSelection);
    assert_eq!(d.registry.as_ref().unwrap().pri, 1);
    q.push(drv_registry(7, "10.0.0.7"));
    assert_eq!(d.step(Event::Tick, &model.graph(), &mut q), Action::Post(0));
    assert_eq!(d.registry.as_ref().unwrap().pri, 7);
    let mut e = drv_registered(&model, &mut drv_queue(vec![drv_registry(1, "10.0.0.1")]));
    e.step(Event::Reply(HttpOutcome::Failed), &model.graph(), &mut q);
    assert_eq!(e.step(Event::Tick, &model.graph(), &mut q), Action::WaitSelection);
    assert_eq!(e.registry, None);
}

#[test]
fn graph_without_resources_cannot_be_served() {
    let model = Model::new();
    let mut q = drv_queue(vec![drv_registry(1, "10.0.0.1")]);
    let mut d = Driver::new(APIVersion::v1_3());
    assert_eq!(d.step(Event::Tick, &model.graph(), &mut q), Action::WaitSelection);
    assert_eq!(d.phase, Phase::Idle);
    assert!(q.is_empty());
}

#[test]
fn graph_without_node_has_no_heartbeat() {
    let mut b = ResourceBundle::new();
    b.devices.push(Device {
        core: drv_core(5),
        type_: DeviceType::Generic,
        node_id: 4,
        senders: vec![],
        receivers: vec![],
    });
    let model = Model::from_resources(b);
    let mut q = drv_queue(vec![drv_registry(1, "10.0.0.1")]);
    let mut d = Driver::new(APIVersion::v1_3());
    assert_eq!(d.step(Event::Tick, &model.graph(), &mut q), Action::Post(0));
    assert_eq!(d.step(Event::Reply(HttpOutcome::Status(201)), &model.graph(), &mut q), Action::WaitSelection);
    assert_eq!(d.phase, Phase::Idle);
}

#[test]
fn node_at_a_default_port_and_data_flow_are_registered() {
    let mut b = ResourceBundle::new();
    let mut node = drv_node(1);
    node.href = Href::parse("http://127.0.0.1/").unwrap();
    b.nodes.push(node);
    b.flows.push(Flow {
        core: drv_core(8),
        format: Format::Data,
        source_id: 7,
        device_id: 5,
        parents: vec![],
        frame_height: 0,
        frame_width: 0,
        media_type: String::new(),
        colorspace: String::new(),
        grain_rate: None,
        sample_rate: None,
    });
    let model = Model::from_resources(b);
    let mut q = drv_queue(vec![drv_registry(1, "10.0.0.1")]);
    let mut d = Driver::new(APIVersion::v1_3());
    assert_eq!(d.step(Event::Tick, &model.graph(), &mut q), Action::Post(0));
    assert_eq!(d.plan.get(0).request.type_, "node");
    assert_eq!(d.step(Event::Reply(HttpOutcome::Status(201)), &model.graph(), &mut q), Action::Post(1));
    assert_eq!(d.plan.get(1).request.type_, "flow");
    assert_eq!(d.step(Event::Reply(HttpOutcome::Status(201)), &model.graph(), &mut q), Action::Heartbeat);
    assert_eq!(d.stalled, 0);
}

#[test]
fn stalls_are_counted_and_losses_are_not() {
    let model = drv_model();
    let mut d = Driver::new(APIVersion::v1_3());
    let mut q = RegistryQueue::new();
    assert_eq!(d.stalled, 0);
    d.step(Event::Tick, &model.graph(), &mut q);
    assert_eq!(d.stalled, 0);
    let mut nowhere = drv_registry(1, "10.0.0.1");
    nowhere.url = "nowhere".to_string();
    q.push(nowhere);
    assert_eq!(d.step(Event::Tick, &model.graph(), &mut q), Action::WaitSelection);
    assert_eq!(d.stalled, 1);
    q.push(drv_registry(1, "10.0.0.1"));
    assert_eq!(d.step(Event::Tick, &Model::new().graph(), &mut q), Action::WaitSelection);
    assert_eq!(d.stalled, 2);
    assert_eq!(d.step(Event::Reply(HttpOutcome::Status(200)), &model.graph(), &mut q), Action::WaitSelection);
    assert_eq!(d.stalled, 3);
    q.push(drv_registry(1, "10.0.0.1"));
    assert_eq!(d.step(Event::Tick, &model.graph(), &mut q), Action::Post(0));
    assert_eq!(d.step(Event::Reply(HttpOutcome::Status(500)), &model.graph(), &mut q), Action::WaitSelection);
    assert_eq!(d.stalled, 3);
    let mut q = drv_queue(vec![drv_registry(1, "10.0.0.1")]);
    let mut d = drv_registered(&model, &mut q);
    assert_eq!(d.step(Event::Reply(HttpOutcome::Status(503)), &model.graph(), &mut q), Action::WaitSelection);
    assert_eq!(d.stalled, 0);
    d.stalled = u64::MAX;
    d.step(Event::Reply(HttpOutcome::Status(200)), &model.graph(), &mut q);
    assert_eq!(d.stalled, u64::MAX);
}

#[test]
fn steps_can_be_fed_the_registry_and_the_plan() {
    let model = drv_model();
    let api = APIVersion::v1_3();
    let mut d = Driver::new(api);
    assert!(d.selects_on(Event::Tick));
    assert!(!d.selects_on(Event::Reply(HttpOutcome::Failed)));
    assert!(!d.plans_on(Event::Tick, false));
    assert!(d.plans_on(Event::Tick, true));
    assert_eq!(d.advance(Event::Tick, None, None), Action::WaitSelection);
    assert_eq!(d.stalled, 0);
    assert_eq!(d.advance(Event::Tick, Some(drv_registry(3, "10.0.0.3")), None), Action::WaitSelection);
    assert_eq!(d.stalled, 1);
    assert_eq!(d.registry.as_ref().unwrap().pri, 3);
    let plan = RegistrationApi::register_resources(&model.graph(), &api);
    assert_eq!(d.advance(Event::Tick, Some(drv_registry(4, "10.0.0.4")), plan), Action::Post(0));
    assert_eq!(d.registry.as_ref().unwrap().pri, 4);
    assert_eq!(d.resource_url, "http://10.0.0.4:8010/x-nmos/registration/v1.3/resource");
    assert!(!d.selects_on(Event::Tick));
    assert!(!d.plans_on(Event::Reply(HttpOutcome::Status(404)), true));
    let ignored = RegistrationApi::register_resources(&Model::new().graph(), &api);
    assert_eq!(
        d.advance(Event::Reply(HttpOutcome::Status(201)), Some(drv_registry(9, "10.0.0.9")), ignored),
        Action::Post(1)
    );
    assert_eq!(d.registry.as_ref().unwrap().pri, 4);
    assert!(d.plan.has(2));
    d.advance(Event::Reply(HttpOutcome::Status(201)), None, None);
    assert_eq!(d.advance(Event::Reply(HttpOutcome::Status(201)), None, None), Action::Heartbeat);
    assert!(d.plans_on(Event::Reply(HttpOutcome::Status(404)), false));
    assert!(!d.plans_on(Event::Reply(HttpOutcome::Status(200)), false));
    assert!(!d.plans_on(Event::Reply(HttpOutcome::Status(500)), false));
    let plan = RegistrationApi::register_resources(&model.graph(), &api);
    assert_eq!(d.advance(Event::Reply(HttpOutcome::Status(404)), None, plan), Action::Post(0));
    assert_eq!(d.phase, Phase::Registering { index: 0, attempt: Attempt::Post, recovering: true });
    assert_eq!(d.stalled, 1);
}

#[test]
fn stall_is_told_from_the_facts() {
    let reply = |status| Event::Reply(HttpOutcome::Status(status));
    let at = Phase::Registering { index: 0, attempt: Attempt::Post, recovering: false };
    let beat = Phase::Heartbeating { first: true, in_flight: true };
    let step = Facts { has_step: true, ..drv_facts() };
    assert!(!Driver::is_stall(Phase::Idle, Event::Tick, &drv_facts()));
    assert!(Driver::is_stall(Phase::Idle, Event::Tick, &Facts { candidate: true, ..drv_facts() }));
    assert!(!Driver::is_stall(
        Phase::Idle,
        Event::Tick,
        &Facts { candidate: true, pass_ready: true, ..drv_facts() }
    ));
    assert!(Driver::is_stall(
        Phase::Idle,
        Event::Tick,
        &Facts { candidate: true, pass_ready: true, graph_empty: true, ..drv_facts() }
    ));
    assert!(Driver::is_stall(Phase::Idle, reply(200), &drv_facts()));
    assert!(Driver::is_stall(at, reply(201), &drv_facts()));
    assert!(!Driver::is_stall(at, reply(500), &step));
    assert!(Driver::is_stall(at, reply(200), &step));
    assert!(!Driver::is_stall(at, reply(200), &Facts { can_delete: true, ..step }));
    assert!(Driver::is_stall(at, reply(201), &step));
    assert!(!Driver::is_stall(at, reply(201), &Facts { can_heartbeat: true, ..step }));
    assert!(Driver::is_stall(at, Event::Tick, &step));
    assert!(!Driver::is_stall(beat, reply(500), &drv_facts()));
    assert!(!Driver::is_stall(beat, reply(200), &drv_facts()));
    assert!(Driver::is_stall(beat, reply(404), &drv_facts()));
    assert!(!Driver::is_stall(beat, reply(404), &Facts { pass_ready: true, ..drv_facts() }));
    assert!(Driver::is_stall(beat, Event::Tick, &drv_facts()));
}

#[test]
fn registry_with_unresolvable_url_is_not_registered_with() {
    let model = drv_model();
    let mut r = drv_registry(1, "10.0.0.1");
    r.url = "nowhere".to_string();
    let mut q = drv_queue(vec![r]);
    let mut d = Driver::new(APIVersion::v1_3());
    assert_eq!(d.step(Event::Tick, &model.graph(), &mut q), Action::WaitSelection);
    assert_eq!(d.phase, Phase::Idle);
}

#[test]
fn events_out_of_turn_return_to_selection() {
    let model = drv_model();
    let mut q = drv_queue(vec![drv_registry(1, "10.0.0.1")]);
    let mut d = Driver::new(APIVersion::v1_3());
    assert_eq!(d.step(Event::Reply(HttpOutcome::Status(200)), &model.graph(), &mut q), Action::WaitSelection);
    assert_eq!(q.len(), 1);
    assert_eq!(d.step(Event::Tick, &model.graph(), &mut q), Action::Post(0));
    assert_eq!(d.step(Event::Tick, &model.graph(), &mut q), Action::WaitSelection);
    assert_eq!(d.phase, Phase::Idle);
    let mut q = drv_queue(vec![drv_registry(1, "10.0.0.1")]);
    let mut d = drv_registered(&model, &mut q);
    assert_eq!(d.step(Event::Tick, &model.graph(), &mut q), Action::WaitSelection);
    assert_eq!(d.phase, Phase::Idle);
    d.phase = Phase::Registering { index: 99, attempt: Attempt::Post, recovering: false };
    assert_eq!(d.step(Event::Reply(HttpOutcome::Status(201)), &model.graph(), &mut q), Action::WaitSelection);
    assert_eq!(d.phase, Phase::Idle);
}

fn drv_facts() -> Facts {
    Facts {
        candidate: false,
        pass_ready: false,
        graph_empty: false,
        has_step: false,
        has_next: false,
        can_delete: false,
        can_heartbeat: false,
    }
}

#[test]
fn decision_on_a_tick_while_idle() {
    let idle = (Phase::Idle, Action::WaitSelection);
    assert_eq!(Driver::decide(Phase::Idle, Event::Tick, &drv_facts()), idle);
    let candidate = Facts { candidate: true, ..drv_facts() };
    assert_eq!(Driver::decide(Phase::Idle, Event::Tick, &candidate), idle);
    let ready = Facts { pass_ready: true, ..candidate };
    assert_eq!(
        Driver::decide(Phase::Idle, Event::Tick, &ready),
        (Phase::Registering { index: 0, attempt: Attempt::Post, recovering: false }, Action::Post(0))
    );
    let nothing = Facts { graph_empty: true, ..ready };
    assert_eq!(Driver::decide(Phase::Idle, Event::Tick, &nothing), idle);
    let no_candidate = Facts { candidate: false, ..ready };
    assert_eq!(Driver::decide(Phase::Idle, Event::Tick, &no_candidate), idle);
}

#[test]
fn decision_on_a_reply_while_registering() {
    let idle = (Phase::Idle, Action::WaitSelection);
    let at = |attempt, recovering| Phase::Registering { index: 4, attempt, recovering };
    let reply = |status| Event::Reply(HttpOutcome::Status(status));
    let step = Facts { has_step: true, ..drv_facts() };
    let more = Facts { has_next: true, ..step };
    assert_eq!(Driver::decide(at(Attempt::Post, false), reply(201), &drv_facts()), idle);
    assert_eq!(
        Driver::decide(at(Attempt::Post, false), reply(201), &more),
        (Phase::Registering { index: 5, attempt: Attempt::Post, recovering: false }, Action::Post(5))
    );
    assert_eq!(Driver::decide(at(Attempt::Post, false), reply(201), &step), idle);
    assert_eq!(
        Driver::decide(at(Attempt::Post, false), reply(201), &Facts { can_heartbeat: true, ..step }),
        (Phase::Heartbeating { first: true, in_flight: true }, Action::Heartbeat)
    );
    assert_eq!(
        Driver::decide(at(Attempt::Repost, true), reply(201), &step),
        (Phase::Heartbeating { first: false, in_flight: true }, Action::Heartbeat)
    );
    assert_eq!(Driver::decide(at(Attempt::Post, false), reply(200), &more), idle);
    assert_eq!(
        Driver::decide(at(Attempt::Post, true), reply(200), &Facts { can_delete: true, ..more }),
        (at(Attempt::Delete, true), Action::Delete(4))
    );
    assert_eq!(
        Driver::decide(at(Attempt::Delete, false), reply(204), &more),
        (at(Attempt::Repost, false), Action::Post(4))
    );
    assert_eq!(Driver::decide(at(Attempt::Repost, false), reply(200), &more), idle);
    assert_eq!(Driver::decide(at(Attempt::Post, false), reply(500), &more), idle);
    assert_eq!(Driver::decide(at(Attempt::Post, false), Event::Reply(HttpOutcome::Failed), &more), idle);
    assert_eq!(Driver::decide(at(Attempt::Post, false), Event::Tick, &more), idle);
    let last = Phase::Registering { index: usize::MAX, attempt: Attempt::Post, recovering: true };
    assert_eq!(
        Driver::decide(last, reply(201), &more),
        (Phase::Heartbeating { first: false, in_flight: true }, Action::Heartbeat)
    );
}

#[test]
fn decision_while_heartbeating() {
    let idle = (Phase::Idle, Action::WaitSelection);
    let beat = |first, in_flight| Phase::Heartbeating { first, in_flight };
    let reply = |status| Event::Reply(HttpOutcome::Status(status));
    let ready = Facts { pass_ready: true, ..drv_facts() };
    for first in [true, false] {
        assert_eq!(
            Driver::decide(beat(first, true), reply(200), &drv_facts()),
            (beat(false, false), Action::WaitHeartbeat)
        );
        assert_eq!(
            Driver::decide(beat(first, false), Event::Tick, &drv_facts()),
            (beat(first, true), Action::Heartbeat)
        );
        assert_eq!(Driver::decide(beat(first, true), reply(500), &ready), idle);
        assert_eq!(Driver::decide(beat(first, true), Event::Reply(HttpOutcome::Failed), &ready), idle);
        assert_eq!(Driver::decide(beat(first, true), Event::Tick, &ready), idle);
        assert_eq!(Driver::decide(beat(first, false), reply(200), &ready), idle);
    }
    assert_eq!(
        Driver::decide(beat(true, true), reply(404), &ready),
        (Phase::Registering { index: 0, attempt: Attempt::Post, recovering: true }, Action::Post(0))
    );
    assert_eq!(
        Driver::decide(beat(true, true), reply(404), &Facts { graph_empty: true, ..ready }),
        (beat(false, true), Action::Heartbeat)
    );
    assert_eq!(Driver::decide(beat(true, true), reply(404), &drv_facts()), idle);
    assert_eq!(Driver::decide(beat(false, true), reply(404), &ready), idle);
}
