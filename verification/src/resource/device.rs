//! Devices: the processing units of a node.

use vstd::prelude::*;
use vstd::string::*;
use crate::ident::{id_text, id_texts, id_to_text, ids_to_texts};
use crate::resource::node::Node;
use crate::resource::{
    Registerable, RegistrationRequest, ResourceCore, ResourceCoreBuilder, ResourceJson, TagView,
};
use crate::schema::{v1_0_x, v1_3_x};
use crate::text::{copy_ids, views};
use crate::version::APIVersion;

verus! {

/// What kind of unit a device is.
#[derive(Clone, Copy, Debug, PartialEq, Eq, Structural)]
pub enum DeviceType {
    Generic,
    Pipeline,
}

impl DeviceType {
    /// The name of the kind on the wire.
    pub open spec fn urn(self) -> Seq<char> {
        match self {
            DeviceType::Generic => "urn:x-nmos:device:generic"@,
            DeviceType::Pipeline => "urn:x-nmos:device:pipeline"@,
        }
    }

    /// Writes the name of the kind.
    pub fn to_text(&self) -> (r: String)
        ensures
            r@ == self.urn(),
    {
        match self {
            DeviceType::Generic => "urn:x-nmos:device:generic".to_owned(),
            DeviceType::Pipeline => "urn:x-nmos:device:pipeline".to_owned(),
        }
    }
}

/// Collects what a device will hold.
#[derive(Debug)]
pub struct DeviceBuilder {
    pub core: ResourceCoreBuilder,
    pub type_: DeviceType,
    pub node_id: u128,
}

/// A device. It names the node that owns it.
#[derive(Debug)]
pub struct Device {
    pub core: ResourceCore,
    pub type_: DeviceType,
    pub node_id: u128,
    pub senders: Vec<u128>,
    pub receivers: Vec<u128>,
}

/// The payload of a device under one of the supported revisions.
#[derive(Debug, PartialEq, Eq)]
pub enum DeviceJson {
    V1_0(v1_0_x::Device),
    V1_3(v1_3_x::Device),
}

impl DeviceBuilder {
    /// A builder for a device of the given node.
    pub fn new(label: &str, node: &Node, device_type: DeviceType) -> (r: DeviceBuilder)
        ensures
            r.core.label@ == label@,
            r.core.description@ == Seq::<char>::empty(),
            r.core.tags@ == Seq::<TagView>::empty(),
            r.type_ == device_type,
            r.node_id == node.core.id,
    {
        DeviceBuilder { core: ResourceCoreBuilder::new(label), type_: device_type, node_id: node.core.id }
    }

    /// The device, with a fresh identifier and version stamp and without
    /// senders or receivers.
    pub fn build(self) -> (r: Device)
        ensures
            r.core.label == self.core.label,
            r.core.description == self.core.description,
            r.core.tags == self.core.tags,
            r.core.fresh(),
            r.type_ == self.type_,
            r.node_id == self.node_id,
            r.senders@.len() == 0,
            r.receivers@.len() == 0,
    {
        Device {
            core: self.core.build(),
            type_: self.type_,
            node_id: self.node_id,
            senders: Vec::new(),
            receivers: Vec::new(),
        }
    }
}

impl Device {
    /// A builder for a device of the given node.
    pub fn builder(label: &str, node: &Node, device_type: DeviceType) -> (r: DeviceBuilder)
        ensures
            r.core.label@ == label@,
            r.core.description@ == Seq::<char>::empty(),
            r.core.tags@ == Seq::<TagView>::empty(),
            r.type_ == device_type,
            r.node_id == node.core.id,
    {
        DeviceBuilder::new(label, node, device_type)
    }

    /// Both devices say the same.
    pub open spec fn same_as(self, other: Device) -> bool {
        &&& self.core.same_as(other.core)
        &&& self.type_ == other.type_
        &&& self.node_id == other.node_id
        &&& self.senders@ == other.senders@
        &&& self.receivers@ == other.receivers@
    }

    /// A copy of the device.
    pub fn duplicate(&self) -> (r: Device)
        ensures
            r.same_as(*self),
    {
        Device {
            core: self.core.duplicate(),
            type_: self.type_,
            node_id: self.node_id,
            senders: copy_ids(&self.senders),
            receivers: copy_ids(&self.receivers),
        }
    }

    /// `out` is this device as revision 1.0 writes it.
    pub open spec fn written_v1_0(self, out: v1_0_x::Device) -> bool {
        &&& out.id@ == id_text(self.core.id)
        &&& out.version@ == self.core.version.text()
        &&& out.label@ == self.core.label@
        &&& out.type_@ == self.type_.urn()
        &&& out.node_id@ == id_text(self.node_id)
        &&& views(out.senders@) == id_texts(self.senders@)
        &&& views(out.receivers@) == id_texts(self.receivers@)
    }

    /// `out` is this device as revision 1.3 writes it: with its tags, an
    /// empty description and no controls.
    pub open spec fn written_v1_3(self, out: v1_3_x::Device) -> bool {
        &&& out.id@ == id_text(self.core.id)
        &&& out.version@ == self.core.version.text()
        &&& out.label@ == self.core.label@
        &&& out.type_@ == self.type_.urn()
        &&& out.node_id@ == id_text(self.node_id)
        &&& views(out.senders@) == id_texts(self.senders@)
        &&& views(out.receivers@) == id_texts(self.receivers@)
        &&& out.tags@ == self.core.tags@
        &&& out.description@ == Seq::<char>::empty()
        &&& out.controls@.len() == 0
    }

    /// `out` is this device's payload under `api`.
    pub open spec fn rendered(self, api: APIVersion, out: DeviceJson) -> bool {
        match out {
            DeviceJson::V1_0(p) => api == (APIVersion { major: 1, minor: 0 }) && self.written_v1_0(
                p,
            ),
            DeviceJson::V1_3(p) => api == (APIVersion { major: 1, minor: 3 }) && self.written_v1_3(
                p,
            ),
        }
    }

    /// The device's payload under `api`.
    pub fn to_json(&self, api: &APIVersion) -> (r: DeviceJson)
        requires
            api.supported(),
        ensures
            self.rendered(*api, r),
    {
        if api.minor == 0 {
            DeviceJson::V1_0(
                v1_0_x::Device {
                    id: id_to_text(self.core.id),
                    version: self.core.version.to_text(),
                    label: self.core.label.clone(),
                    type_: self.type_.to_text(),
                    node_id: id_to_text(self.node_id),
                    senders: ids_to_texts(&self.senders),
                    receivers: ids_to_texts(&self.receivers),
                },
            )
        } else {
            DeviceJson::V1_3(
                v1_3_x::Device {
                    id: id_to_text(self.core.id),
                    version: self.core.version.to_text(),
                    label: self.core.label.clone(),
                    type_: self.type_.to_text(),
                    node_id: id_to_text(self.node_id),
                    senders: ids_to_texts(&self.senders),
                    receivers: ids_to_texts(&self.receivers),
                    tags: self.core.tags_json(),
                    description: String::new(),
                    controls: Vec::new(),
                },
            )
        }
    }
}

impl Registerable for Device {
    open spec fn path(&self) -> Seq<char> {
        "devices/"@ + id_text(self.core.id)
    }

    open spec fn requested_by(&self, api: APIVersion, request: RegistrationRequest) -> bool {
        &&& request.type_@ == "device"@
        &&& request.data matches ResourceJson::Device(json)
        &&& self.rendered(api, json)
    }

    fn registry_path(&self) -> (r: String) {
        let mut r: String = "devices/".to_owned();
        let id = id_to_text(self.core.id);
        r.append(id.as_str());
        r
    }

    fn registration_request(&self, api: &APIVersion) -> (r: RegistrationRequest) {
        RegistrationRequest {
            type_: "device".to_owned(),
            data: ResourceJson::Device(self.to_json(api)),
        }
    }
}

} // verus!
