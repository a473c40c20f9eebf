//! Senders: a device sending a flow.

use vstd::prelude::*;
use vstd::string::*;
use crate::ident::{id_text, id_to_text};
use crate::resource::device::Device;
use crate::resource::flow::Flow;
use crate::resource::{
    with_tag, Registerable, RegistrationRequest, ResourceCore, ResourceCoreBuilder, ResourceJson,
    TagView, Transport,
};
use crate::schema::{v1_0_x, v1_3_x};
use crate::text::views;
use crate::version::APIVersion;

verus! {

/// Collects what a sender will hold.
#[derive(Debug)]
pub struct SenderBuilder {
    pub core: ResourceCoreBuilder,
    pub flow_id: u128,
    pub transport: Transport,
    pub device_id: u128,
    pub manifest_href: Option<String>,
}

/// A sender. It names the device that owns it and the flow it sends.
#[derive(Debug)]
pub struct Sender {
    pub core: ResourceCore,
    pub flow_id: u128,
    pub transport: Transport,
    pub device_id: u128,
    pub manifest_href: String,
}

/// The payload of a sender under one of the supported revisions.
#[derive(Debug, PartialEq, Eq)]
pub enum SenderJson {
    V1_0(v1_0_x::Sender),
    V1_3(v1_3_x::Sender),
}

impl SenderBuilder {
    /// A builder for a sender of the given flow on the given device, without
    /// a manifest.
    pub fn new(label: &str, device: &Device, flow: &Flow, transport: Transport) -> (r:
        SenderBuilder)
        ensures
            r.core.label@ == label@,
            r.core.description@ == Seq::<char>::empty(),
            r.core.tags@ == Seq::<TagView>::empty(),
            r.flow_id == flow.core.id,
            r.transport == transport,
            r.device_id == device.core.id,
            r.manifest_href is None,
    {
        SenderBuilder {
            core: ResourceCoreBuilder::new(label),
            flow_id: flow.core.id,
            transport,
            device_id: device.core.id,
            manifest_href: None,
        }
    }

    /// Sets the description.
    pub fn description(self, description: &str) -> (r: SenderBuilder)
        ensures
            r.core.label == self.core.label,
            r.core.description@ == description@,
            r.core.tags == self.core.tags,
            r == (SenderBuilder { core: r.core, ..self }),
    {
        SenderBuilder { core: self.core.description(description), ..self }
    }

    /// Sets the values under a tag's key.
    pub fn tag(self, key: &str, values: Vec<String>) -> (r: SenderBuilder)
        ensures
            r.core.label == self.core.label,
            r.core.description == self.core.description,
            r.core.tags@ == with_tag(self.core.tags@, key@, views(values@)),
            r == (SenderBuilder { core: r.core, ..self }),
    {
        SenderBuilder { core: self.core.tag(key, values), ..self }
    }

    /// Sets where the manifest is found.
    pub fn manifest(self, manifest: &str) -> (r: SenderBuilder)
        ensures
            r.manifest_href is Some,
            r.manifest_href->0@ == manifest@,
            r == (SenderBuilder { manifest_href: r.manifest_href, ..self }),
    {
        SenderBuilder { manifest_href: Some(manifest.to_owned()), ..self }
    }

    /// The sender, with a fresh identifier and version stamp. Without a
    /// manifest its locator is the empty text.
    pub fn build(self) -> (r: Sender)
        ensures
            r.core.label == self.core.label,
            r.core.description == self.core.description,
            r.core.tags == self.core.tags,
            r.core.fresh(),
            r.flow_id == self.flow_id,
            r.transport == self.transport,
            r.device_id == self.device_id,
            r.manifest_href@ == match self.manifest_href {
                Some(m) => m@,
                None => Seq::<char>::empty(),
            },
    {
        let manifest_href = match self.manifest_href {
            Some(m) => m,
            None => String::new(),
        };
        Sender {
            core: self.core.build(),
            flow_id: self.flow_id,
            transport: self.transport,
            device_id: self.device_id,
            manifest_href,
        }
    }
}

impl Sender {
    /// A builder for a sender of the given flow on the given device.
    pub fn builder(label: &str, device: &Device, flow: &Flow, transport: Transport) -> (r:
        SenderBuilder)
        ensures
            r.core.label@ == label@,
            r.core.description@ == Seq::<char>::empty(),
            r.core.tags@ == Seq::<TagView>::empty(),
            r.flow_id == flow.core.id,
            r.transport == transport,
            r.device_id == device.core.id,
            r.manifest_href is None,
    {
        SenderBuilder::new(label, device, flow, transport)
    }

    /// Both senders say the same.
    pub open spec fn same_as(self, other: Sender) -> bool {
        &&& self.core.same_as(other.core)
        &&& self.flow_id == other.flow_id
        &&& self.transport == other.transport
        &&& self.device_id == other.device_id
        &&& self.manifest_href@ == other.manifest_href@
    }

    /// A copy of the sender.
    pub fn duplicate(&self) -> (r: Sender)
        ensures
            r.same_as(*self),
    {
        Sender {
            core: self.core.duplicate(),
            flow_id: self.flow_id,
            transport: self.transport,
            device_id: self.device_id,
            manifest_href: self.manifest_href.clone(),
        }
    }

    /// `out` is this sender as revision 1.0 writes it: the tags are left out
    /// where there are none.
    pub open spec fn written_v1_0(self, out: v1_0_x::Sender) -> bool {
        &&& out.id@ == id_text(self.core.id)
        &&& out.version@ == self.core.version.text()
        &&& out.label@ == self.core.label@
        &&& out.description@ == self.core.description@
        &&& out.flow_id@ == id_text(self.flow_id)
        &&& out.transport@ == self.transport.urn()
        &&& out.tags is Some <==> self.core.tags@.len() > 0
        &&& out.tags matches Some(t) ==> t@ == self.core.tags@
        &&& out.device_id@ == id_text(self.device_id)
        &&& out.manifest_href@ == self.manifest_href@
    }

    /// `out` is this sender as revision 1.3 writes it: bound to no
    /// interface, without capabilities and without manifest locator, and
    /// subscribed to by no receiver.
    pub open spec fn written_v1_3(self, out: v1_3_x::Sender) -> bool {
        &&& out.interface_bindings@.len() == 0
        &&& out.caps is None
        &&& out.id@ == id_text(self.core.id)
        &&& out.version@ == self.core.version.text()
        &&& out.label@ == self.core.label@
        &&& out.description@ == self.core.description@
        &&& out.flow_id is Some
        &&& out.flow_id->0@ == id_text(self.flow_id)
        &&& out.tags@ == self.core.tags@
        &&& out.device_id@ == id_text(self.device_id)
        &&& out.manifest_href is None
        &&& !out.subscription.active
        &&& out.subscription.receiver_id is None
        &&& out.transport@ == self.transport.urn()
    }

    /// `out` is this sender's payload under `api`.
    pub open spec fn rendered(self, api: APIVersion, out: SenderJson) -> bool {
        match out {
            SenderJson::V1_0(p) => api == (APIVersion { major: 1, minor: 0 }) && self.written_v1_0(
                p,
            ),
            SenderJson::V1_3(p) => api == (APIVersion { major: 1, minor: 3 }) && self.written_v1_3(
                p,
            ),
        }
    }

    /// The sender's payload under `api`.
    pub fn to_json(&self, api: &APIVersion) -> (r: SenderJson)
        requires
            api.supported(),
        ensures
            self.rendered(*api, r),
    {
        if api.minor == 0 {
            let tags = if self.core.tags.is_empty() {
                None
            } else {
                Some(self.core.tags_json())
            };
            SenderJson::V1_0(
                v1_0_x::Sender {
                    id: id_to_text(self.core.id),
                    version: self.core.version.to_text(),
                    label: self.core.label.clone(),
                    description: self.core.description.clone(),
                    flow_id: id_to_text(self.flow_id),
                    transport: self.transport.to_text(),
                    tags,
                    device_id: id_to_text(self.device_id),
                    manifest_href: self.manifest_href.clone(),
                },
            )
        } else {
            SenderJson::V1_3(
                v1_3_x::Sender {
                    interface_bindings: Vec::new(),
                    caps: None,
                    id: id_to_text(self.core.id),
                    version: self.core.version.to_text(),
                    label: self.core.label.clone(),
                    description: self.core.description.clone(),
                    flow_id: Some(id_to_text(self.flow_id)),
                    tags: self.core.tags_json(),
                    device_id: id_to_text(self.device_id),
                    manifest_href: None,
                    subscription: v1_3_x::SenderSubscription { active: false, receiver_id: None },
                    transport: self.transport.to_text(),
                },
            )
        }
    }
}

impl Registerable for Sender {
    open spec fn path(&self) -> Seq<char> {
        "senders/"@ + id_text(self.core.id)
    }

    open spec fn requested_by(&self, api: APIVersion, request: RegistrationRequest) -> bool {
        &&& request.type_@ == "sender"@
        &&& request.data matches ResourceJson::Sender(json)
        &&& self.rendered(api, json)
    }

    fn registry_path(&self) -> (r: String) {
        let mut r: String = "senders/".to_owned();
        let id = id_to_text(self.core.id);
        r.append(id.as_str());
        r
    }

    fn registration_request(&self, api: &APIVersion) -> (r: RegistrationRequest) {
        RegistrationRequest {
            type_: "sender".to_owned(),
            data: ResourceJson::Sender(self.to_json(api)),
        }
    }
}

} // verus!
