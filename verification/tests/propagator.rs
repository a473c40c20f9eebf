use nmos_node::href::Href;
use nmos_node::mdns::NmosMdnsRegistry;
use nmos_node::propagator::{Dispatch, Propagator, ResourceUpdate, UpdateMode};
use nmos_node::registration::{Attempt, HttpOutcome};
use nmos_node::resource::flow::Flow;
use nmos_node::resource::node::Node;
use nmos_node::resource::{Format, Registerable, Resource, ResourceCore, Tags};
use nmos_node::tai::TaiTime;
use nmos_node::version::APIVersion;

fn prop_core(id: u128) -> ResourceCore {
    ResourceCore {
        id,
        version: TaiTime::new(3, 4),
        label: format!("r{}", id),
        description: String::new(),
        tags: Tags::new(),
    }
}

fn prop_node() -> Node {
    Node {
        core: prop_core(1),
        href: Href::parse("http://127.0.0.1:3000/").unwrap(),
        hostname: None,
        services: vec![],
    }
}

fn prop_data_flow() -> Flow {
    Flow {
        core: prop_core(4),
        format: Format::Data,
        source_id: 3,
        device_id: 2,
        parents: vec![],
        frame_height: 0,
        frame_width: 0,
        media_type: String::new(),
        colorspace: String::new(),
        grain_rate: None,
        sample_rate: None,
    }
}

fn prop_registry() -> Option<NmosMdnsRegistry> {
    Some(NmosMdnsRegistry {
        api_proto: "http".to_string(),
        api_ver: vec![APIVersion::v1_3()],
        api_auth: false,
        pri: 1,
        url: "http://10.0.0.1:8010/x-nmos/registration/".to_string(),
    })
}

#[test]
fn update_without_registry_is_dropped_and_counted() {
    let mut p = Propagator::new(APIVersion::v1_3());
    assert_eq!(p.dropped, 0);
    assert_eq!(p.accept(ResourceUpdate::Added(Box::new(prop_node())), &None), Dispatch::Dropped);
    assert_eq!(p.dropped, 1);
    assert!(p.pending.is_none());
    assert_eq!(p.accept(ResourceUpdate::Update(Box::new(prop_node())), &None), Dispatch::Dropped);
    assert_eq!(p.accept(ResourceUpdate::Removed(Box::new(prop_node())), &None), Dispatch::Dropped);
    assert_eq!(p.dropped, 3);
    assert!(p.pending.is_none());
}

#[test]
fn dropped_count_stops_at_its_limit() {
    let mut p = Propagator::new(APIVersion::v1_3());
    p.dropped = u64::MAX - 1;
    p.accept(ResourceUpdate::Update(Box::new(prop_node())), &None);
    assert_eq!(p.dropped, u64::MAX);
    p.accept(ResourceUpdate::Update(Box::new(prop_node())), &None);
    assert_eq!(p.dropped, u64::MAX);
}

#[test]
fn dropped_update_is_not_replayed() {
    let mut p = Propagator::new(APIVersion::v1_3());
    p.accept(ResourceUpdate::Added(Box::new(prop_node())), &None);
    assert_eq!(p.reply(HttpOutcome::Status(201)), Dispatch::Done(false));
    assert!(p.pending.is_none());
    assert_eq!(p.dropped, 1);
}

#[test]
fn update_is_one_post() {
    let mut p = Propagator::new(APIVersion::v1_3());
    assert_eq!(
        p.accept(ResourceUpdate::Update(Box::new(prop_node())), &prop_registry()),
        Dispatch::Send(Attempt::Post)
    );
    let pending = p.pending.as_ref().unwrap();
    assert_eq!(pending.mode, UpdateMode::Update);
    assert_eq!(pending.attempt, Attempt::Post);
    assert_eq!(pending.resource_url, "http://10.0.0.1:8010/x-nmos/registration/v1.3/resource");
    assert_eq!(pending.path, "nodes/00000000-0000-0000-0000-000000000001");
    assert_eq!(pending.request, Some(prop_node().registration_request(&APIVersion::v1_3())));
    assert_eq!(p.reply(HttpOutcome::Status(200)), Dispatch::Done(true));
    assert!(p.pending.is_none());
    assert_eq!(p.dropped, 0);
}

#[test]
fn refused_update_is_done_without_success() {
    for outcome in [HttpOutcome::Failed, HttpOutcome::Status(400), HttpOutcome::Status(500)] {
        let mut p = Propagator::new(APIVersion::v1_3());
        p.accept(ResourceUpdate::Update(Box::new(prop_node())), &prop_registry());
        assert_eq!(p.reply(outcome), Dispatch::Done(false));
        assert!(p.pending.is_none());
    }
}

#[test]
fn removal_is_one_delete() {
    let mut p = Propagator::new(APIVersion::v1_3());
    assert_eq!(
        p.accept(ResourceUpdate::Removed(Box::new(prop_node())), &prop_registry()),
        Dispatch::Send(Attempt::Delete)
    );
    let pending = p.pending.as_ref().unwrap();
    assert_eq!(pending.mode, UpdateMode::Removed);
    assert_eq!(
        pending.delete_url,
        "http://10.0.0.1:8010/x-nmos/registration/v1.3/resource/nodes/00000000-0000-0000-0000-000000000001"
    );
    assert_eq!(pending.request, None);
    assert_eq!(p.reply(HttpOutcome::Status(204)), Dispatch::Done(true));
    assert!(p.pending.is_none());
}

#[test]
fn removal_of_a_data_flow_is_one_delete() {
    let mut p = Propagator::new(APIVersion::v1_3());
    assert_eq!(
        p.accept(ResourceUpdate::Removed(Box::new(Resource::Flow(prop_data_flow()))), &prop_registry()),
        Dispatch::Send(Attempt::Delete)
    );
    assert_eq!(p.reply(HttpOutcome::Status(404)), Dispatch::Done(false));
}

#[test]
fn added_resource_is_registered_like_in_a_pass() {
    let mut p = Propagator::new(APIVersion::v1_3());
    assert_eq!(
        p.accept(ResourceUpdate::Added(Box::new(prop_node())), &prop_registry()),
        Dispatch::Send(Attempt::Post)
    );
    assert_eq!(p.reply(HttpOutcome::Status(201)), Dispatch::Done(true));
    assert!(p.pending.is_none());
    p.accept(ResourceUpdate::Added(Box::new(prop_node())), &prop_registry());
    assert_eq!(p.reply(HttpOutcome::Status(200)), Dispatch::Send(Attempt::Delete));
    assert_eq!(
        p.pending.as_ref().unwrap().delete_url,
        "http://10.0.0.1:8010/x-nmos/registration/v1.3/resource/nodes/00000000-0000-0000-0000-000000000001"
    );
    assert_eq!(p.pending.as_ref().unwrap().attempt, Attempt::Delete);
    assert_eq!(p.reply(HttpOutcome::Status(204)), Dispatch::Send(Attempt::Repost));
    assert_eq!(p.pending.as_ref().unwrap().attempt, Attempt::Repost);
    assert_eq!(
        p.pending.as_ref().unwrap().request,
        Some(prop_node().registration_request(&APIVersion::v1_3()))
    );
    assert_eq!(p.reply(HttpOutcome::Status(201)), Dispatch::Done(true));
    assert!(p.pending.is_none());
}

#[test]
fn added_resource_that_stays_in_the_registry_fails() {
    let mut p = Propagator::new(APIVersion::v1_3());
    p.accept(ResourceUpdate::Added(Box::new(prop_node())), &prop_registry());
    assert_eq!(p.reply(HttpOutcome::Status(200)), Dispatch::Send(Attempt::Delete));
    assert_eq!(p.reply(HttpOutcome::Status(200)), Dispatch::Send(Attempt::Repost));
    assert_eq!(p.reply(HttpOutcome::Status(200)), Dispatch::Done(false));
    assert!(p.pending.is_none());
    assert_eq!(p.reply(HttpOutcome::Status(200)), Dispatch::Done(false));
}

#[test]
fn data_flow_is_sent_like_any_resource() {
    let mut p = Propagator::new(APIVersion::v1_3());
    assert_eq!(
        p.accept(ResourceUpdate::Added(Box::new(Resource::Flow(prop_data_flow()))), &prop_registry()),
        Dispatch::Send(Attempt::Post)
    );
    assert_eq!(
        p.pending.as_ref().unwrap().request,
        Some(prop_data_flow().registration_request(&APIVersion::v1_3()))
    );
    assert_eq!(p.reply(HttpOutcome::Status(201)), Dispatch::Done(true));
    assert_eq!(
        p.accept(ResourceUpdate::Update(Box::new(Resource::Flow(prop_data_flow()))), &prop_registry()),
        Dispatch::Send(Attempt::Post)
    );
    assert_eq!(p.dropped, 0);
}

#[test]
fn nothing_is_sent_under_an_unsupported_revision() {
    let mut p = Propagator::new(APIVersion::v1_3());
    p.api_version = APIVersion { major: 1, minor: 2 };
    assert_eq!(
        p.accept(ResourceUpdate::Update(Box::new(prop_node())), &prop_registry()),
        Dispatch::Done(false)
    );
    assert!(p.pending.is_none());
    assert_eq!(
        p.accept(ResourceUpdate::Removed(Box::new(prop_node())), &prop_registry()),
        Dispatch::Send(Attempt::Delete)
    );
}

#[test]
fn unresolvable_registry_url_sends_nothing() {
    let mut r = prop_registry();
    r.as_mut().unwrap().url = "nowhere".to_string();
    let mut p = Propagator::new(APIVersion::v1_3());
    assert_eq!(p.accept(ResourceUpdate::Update(Box::new(prop_node())), &r), Dispatch::Done(false));
    assert_eq!(p.accept(ResourceUpdate::Removed(Box::new(prop_node())), &r), Dispatch::Done(false));
    assert!(p.pending.is_none());
    assert_eq!(p.dropped, 0);
}

#[test]
fn update_goes_to_the_registry_of_the_moment() {
    let mut p = Propagator::new(APIVersion::v1_0());
    let mut other = prop_registry();
    other.as_mut().unwrap().url = "http://10.0.0.2:8010/x-nmos/registration/".to_string();
    p.accept(ResourceUpdate::Update(Box::new(prop_node())), &prop_registry());
    assert_eq!(
        p.pending.as_ref().unwrap().resource_url,
        "http://10.0.0.1:8010/x-nmos/registration/v1.0/resource"
    );
    p.reply(HttpOutcome::Status(200));
    p.accept(ResourceUpdate::Update(Box::new(prop_node())), &other);
    assert_eq!(
        p.pending.as_ref().unwrap().resource_url,
        "http://10.0.0.2:8010/x-nmos/registration/v1.0/resource"
    );
}

#[test]
fn decisions_on_given_urls() {
    let mut p = Propagator::new(APIVersion::v1_3());
    let url = || Some("http://r/resource".to_string());
    let target = || Some("http://r/resource/nodes/x".to_string());
    assert_eq!(
        p.accept_with(ResourceUpdate::Update(Box::new(prop_node())), false, url(), target()),
        Dispatch::Dropped
    );
    assert_eq!(p.dropped, 1);
    assert_eq!(
        p.accept_with(ResourceUpdate::Update(Box::new(prop_node())), true, None, target()),
        Dispatch::Done(false)
    );
    assert_eq!(
        p.accept_with(ResourceUpdate::Removed(Box::new(prop_node())), true, url(), None),
        Dispatch::Done(false)
    );
    assert!(p.pending.is_none());
    assert_eq!(
        p.accept_with(ResourceUpdate::Removed(Box::new(prop_node())), true, url(), target()),
        Dispatch::Send(Attempt::Delete)
    );
    assert_eq!(p.pending.as_ref().unwrap().delete_url, "http://r/resource/nodes/x");
    assert_eq!(p.pending.as_ref().unwrap().resource_url, "http://r/resource");
    assert_eq!(p.reply_with(HttpOutcome::Status(200), None), Dispatch::Done(true));
    assert_eq!(
        p.accept_with(ResourceUpdate::Added(Box::new(prop_node())), true, url(), None),
        Dispatch::Send(Attempt::Post)
    );
    assert_eq!(p.pending.as_ref().unwrap().delete_url, "");
    assert_eq!(p.reply_with(HttpOutcome::Status(200), None), Dispatch::Done(false));
    assert!(p.pending.is_none());
    p.accept_with(ResourceUpdate::Added(Box::new(prop_node())), true, url(), None);
    assert_eq!(p.reply_with(HttpOutcome::Status(200), target()), Dispatch::Send(Attempt::Delete));
    assert_eq!(p.pending.as_ref().unwrap().delete_url, "http://r/resource/nodes/x");
    assert_eq!(p.reply_with(HttpOutcome::Status(204), target()), Dispatch::Send(Attempt::Repost));
    assert_eq!(p.reply_with(HttpOutcome::Status(201), target()), Dispatch::Done(true));
    assert_eq!(p.reply_with(HttpOutcome::Status(201), target()), Dispatch::Done(false));
    assert_eq!(p.dropped, 1);
}
