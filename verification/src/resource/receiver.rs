//! Receivers: where a device takes media in.

use vstd::prelude::*;
use vstd::string::*;
use crate::href::text_of;
use crate::ident::{id_text, id_to_text, optional_id_text, optional_id_to_text};
use crate::resource::device::Device;
use crate::resource::{
    with_tag, Format, Registerable, RegistrationRequest, ResourceCore, ResourceCoreBuilder,
    ResourceJson, TagView, Transport,
};
use crate::schema::{v1_0_x, v1_3_x};
use crate::text::views;
use crate::version::APIVersion;

verus! {

/// Collects what a receiver will hold.
#[derive(Debug)]
pub struct ReceiverBuilder {
    pub core: ResourceCoreBuilder,
    pub format: Format,
    pub device_id: u128,
    pub transport: Transport,
    pub subscription: Option<u128>,
}

/// A receiver. It names the device that owns it and, while it is
/// subscribed, the sender it listens to.
#[derive(Debug)]
pub struct Receiver {
    pub core: ResourceCore,
    pub format: Format,
    pub device_id: u128,
    pub transport: Transport,
    pub subscription: Option<u128>,
}

/// The payload of a receiver under one of the supported revisions.
#[derive(Debug, PartialEq, Eq)]
pub enum ReceiverJson {
    V1_0(v1_0_x::Receiver),
    V1_3(v1_3_x::Receiver),
}

impl ReceiverBuilder {
    /// A builder for a receiver on the given device, subscribed to nothing.
    pub fn new(label: &str, device: &Device, format: Format, transport: Transport) -> (r:
        ReceiverBuilder)
        ensures
            r.core.label@ == label@,
            r.core.description@ == Seq::<char>::empty(),
            r.core.tags@ == Seq::<TagView>::empty(),
            r.format == format,
            r.device_id == device.core.id,
            r.transport == transport,
            r.subscription is None,
    {
        ReceiverBuilder {
            core: ResourceCoreBuilder::new(label),
            format,
            device_id: device.core.id,
            transport,
            subscription: None,
        }
    }

    /// Sets the description.
    pub fn description(self, description: &str) -> (r: ReceiverBuilder)
        ensures
            r.core.label == self.core.label,
            r.core.description@ == description@,
            r.core.tags == self.core.tags,
            r == (ReceiverBuilder { core: r.core, ..self }),
    {
        ReceiverBuilder { core: self.core.description(description), ..self }
    }

    /// Sets the values under a tag's key.
    pub fn tag(self, key: &str, values: Vec<String>) -> (r: ReceiverBuilder)
        ensures
            r.core.label == self.core.label,
            r.core.description == self.core.description,
            r.core.tags@ == with_tag(self.core.tags@, key@, views(values@)),
            r == (ReceiverBuilder { core: r.core, ..self }),
    {
        ReceiverBuilder { core: self.core.tag(key, values), ..self }
    }

    /// The receiver, with a fresh identifier and version stamp.
    pub fn build(self) -> (r: Receiver)
        ensures
            r.core.label == self.core.label,
            r.core.description == self.core.description,
            r.core.tags == self.core.tags,
            r.core.fresh(),
            r.format == self.format,
            r.device_id == self.device_id,
            r.transport == self.transport,
            r.subscription == self.subscription,
    {
        Receiver {
            core: self.core.build(),
            format: self.format,
            device_id: self.device_id,
            transport: self.transport,
            subscription: self.subscription,
        }
    }
}

impl Receiver {
    /// A builder for a receiver on the given device.
    pub fn builder(label: &str, device: &Device, format: Format, transport: Transport) -> (r:
        ReceiverBuilder)
        ensures
            r.core.label@ == label@,
            r.core.description@ == Seq::<char>::empty(),
            r.core.tags@ == Seq::<TagView>::empty(),
            r.format == format,
            r.device_id == device.core.id,
            r.transport == transport,
            r.subscription is None,
    {
        ReceiverBuilder::new(label, device, format, transport)
    }

    /// Both receivers say the same.
    pub open spec fn same_as(self, other: Receiver) -> bool {
        &&& self.core.same_as(other.core)
        &&& self.format == other.format
        &&& self.device_id == other.device_id
        &&& self.transport == other.transport
        &&& self.subscription == other.subscription
    }

    /// A copy of the receiver.
    pub fn duplicate(&self) -> (r: Receiver)
        ensures
            r.same_as(*self),
    {
        Receiver {
            core: self.core.duplicate(),
            format: self.format,
            device_id: self.device_id,
            transport: self.transport,
            subscription: self.subscription,
        }
    }

    /// `out` is this receiver as revision 1.0 writes it.
    pub open spec fn written_v1_0(self, out: v1_0_x::Receiver) -> bool {
        &&& out.id@ == id_text(self.core.id)
        &&& out.version@ == self.core.version.text()
        &&& out.label@ == self.core.label@
        &&& out.description@ == self.core.description@
        &&& out.format@ == self.format.urn()
        &&& out.tags@ == self.core.tags@
        &&& out.device_id@ == id_text(self.device_id)
        &&& out.transport@ == self.transport.urn()
        &&& text_of(out.subscription.sender_id) == optional_id_text(self.subscription)
    }

    /// `out` is the subscription that revision 1.3 writes for this
    /// receiver: to its sender, if it has one, and never active.
    pub open spec fn written_subscription(self, out: v1_3_x::ReceiverSubscription) -> bool {
        &&& !out.active
        &&& text_of(out.sender_id) == optional_id_text(self.subscription)
    }

    /// `out` is this receiver as revision 1.3 writes a receiver of video:
    /// bound to no interface and declaring no media types.
    pub open spec fn written_video(self, out: v1_3_x::ReceiverVideo) -> bool {
        &&& out.interface_bindings@.len() == 0
        &&& out.id@ == id_text(self.core.id)
        &&& out.version@ == self.core.version.text()
        &&& out.tags@ == self.core.tags@
        &&& out.label@ == self.core.label@
        &&& out.description@ == self.core.description@
        &&& out.format@ == self.format.urn()
        &&& out.device_id@ == id_text(self.device_id)
        &&& out.caps.media_types is None
        &&& self.written_subscription(out.subscription)
        &&& out.transport@ == self.transport.urn()
    }

    /// `out` is this receiver as revision 1.3 writes a receiver of audio:
    /// bound to no interface and declaring no media types.
    pub open spec fn written_audio(self, out: v1_3_x::ReceiverAudio) -> bool {
        &&& out.interface_bindings@.len() == 0
        &&& out.id@ == id_text(self.core.id)
        &&& out.version@ == self.core.version.text()
        &&& out.tags@ == self.core.tags@
        &&& out.label@ == self.core.label@
        &&& out.description@ == self.core.description@
        &&& out.format@ == self.format.urn()
        &&& out.device_id@ == id_text(self.device_id)
        &&& out.caps.media_types is None
        &&& self.written_subscription(out.subscription)
        &&& out.transport@ == self.transport.urn()
    }

    /// `out` is this receiver as revision 1.3 writes a receiver of data:
    /// bound to no interface and declaring neither media nor event types.
    pub open spec fn written_data(self, out: v1_3_x::ReceiverData) -> bool {
        &&& out.interface_bindings@.len() == 0
        &&& out.id@ == id_text(self.core.id)
        &&& out.version@ == self.core.version.text()
        &&& out.tags@ == self.core.tags@
        &&& out.label@ == self.core.label@
        &&& out.description@ == self.core.description@
        &&& out.format@ == self.format.urn()
        &&& out.device_id@ == id_text(self.device_id)
        &&& self.written_subscription(out.subscription)
        &&& out.transport@ == self.transport.urn()
        &&& out.caps.media_types is None
        &&& out.caps.event_types is None
    }

    /// `out` is this receiver's payload under `api`.
    pub open spec fn rendered(self, api: APIVersion, out: ReceiverJson) -> bool {
        match out {
            ReceiverJson::V1_0(p) => api == (APIVersion { major: 1, minor: 0 })
                && self.written_v1_0(p),
            ReceiverJson::V1_3(v1_3_x::Receiver::Video(p)) => api == (APIVersion {
                major: 1,
                minor: 3,
            }) && self.format == Format::Video && self.written_video(p),
            ReceiverJson::V1_3(v1_3_x::Receiver::Audio(p)) => api == (APIVersion {
                major: 1,
                minor: 3,
            }) && self.format == Format::Audio && self.written_audio(p),
            ReceiverJson::V1_3(v1_3_x::Receiver::Data(p)) => api == (APIVersion {
                major: 1,
                minor: 3,
            }) && self.format == Format::Data && self.written_data(p),
        }
    }

    fn subscription_json(&self) -> (r: v1_3_x::ReceiverSubscription)
        ensures
            self.written_subscription(r),
    {
        v1_3_x::ReceiverSubscription {
            active: false,
            sender_id: optional_id_to_text(self.subscription),
        }
    }

    /// The receiver's payload under `api`.
    pub fn to_json(&self, api: &APIVersion) -> (r: ReceiverJson)
        requires
            api.supported(),
        ensures
            self.rendered(*api, r),
    {
        if api.minor == 0 {
            ReceiverJson::V1_0(
                v1_0_x::Receiver {
                    id: id_to_text(self.core.id),
                    version: self.core.version.to_text(),
                    label: self.core.label.clone(),
                    description: self.core.description.clone(),
                    format: self.format.to_text(),
                    caps: v1_0_x::Caps {  },
                    tags: self.core.tags_json(),
                    device_id: id_to_text(self.device_id),
                    transport: self.transport.to_text(),
                    subscription: v1_0_x::ReceiverSubscription {
                        sender_id: optional_id_to_text(self.subscription),
                    },
                },
            )
        } else {
            match self.format {
                Format::Video => ReceiverJson::V1_3(
                    v1_3_x::Receiver::Video(
                        v1_3_x::ReceiverVideo {
                            interface_bindings: Vec::new(),
                            id: id_to_text(self.core.id),
                            version: self.core.version.to_text(),
                            tags: self.core.tags_json(),
                            label: self.core.label.clone(),
                            description: self.core.description.clone(),
                            format: self.format.to_text(),
                            device_id: id_to_text(self.device_id),
                            caps: v1_3_x::ReceiverCaps { media_types: None },
                            subscription: self.subscription_json(),
                            transport: self.transport.to_text(),
                        },
                    ),
                ),
                Format::Audio => ReceiverJson::V1_3(
                    v1_3_x::Receiver::Audio(
                        v1_3_x::ReceiverAudio {
                            interface_bindings: Vec::new(),
                            id: id_to_text(self.core.id),
                            version: self.core.version.to_text(),
                            tags: self.core.tags_json(),
                            label: self.core.label.clone(),
                            description: self.core.description.clone(),
                            format: self.format.to_text(),
                            device_id: id_to_text(self.device_id),
                            caps: v1_3_x::ReceiverCaps { media_types: None },
                            subscription: self.subscription_json(),
                            transport: self.transport.to_text(),
                        },
                    ),
                ),
                Format::Data => ReceiverJson::V1_3(
                    v1_3_x::Receiver::Data(
                        v1_3_x::ReceiverData {
                            interface_bindings: Vec::new(),
                            id: id_to_text(self.core.id),
                            version: self.core.version.to_text(),
                            tags: self.core.tags_json(),
                            label: self.core.label.clone(),
                            description: self.core.description.clone(),
                            format: self.format.to_text(),
                            device_id: id_to_text(self.device_id),
                            subscription: self.subscription_json(),
                            transport: self.transport.to_text(),
                            caps: v1_3_x::ReceiverDataCaps { media_types: None, event_types: None },
                        },
                    ),
                ),
            }
        }
    }
}

impl Registerable for Receiver {
    open spec fn path(&self) -> Seq<char> {
        "receivers/"@ + id_text(self.core.id)
    }

    open spec fn requested_by(&self, api: APIVersion, request: RegistrationRequest) -> bool {
        &&& request.type_@ == "receiver"@
        &&& request.data matches ResourceJson::Receiver(json)
        &&& self.rendered(api, json)
    }

    fn registry_path(&self) -> (r: String) {
        let mut r: String = "receivers/".to_owned();
        let id = id_to_text(self.core.id);
        r.append(id.as_str());
        r
    }

    fn registration_request(&self, api: &APIVersion) -> (r: RegistrationRequest) {
        RegistrationRequest {
            type_: "receiver".to_owned(),
            data: ResourceJson::Receiver(self.to_json(api)),
        }
    }
}

} // verus!
