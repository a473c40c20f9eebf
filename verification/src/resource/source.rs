//! Sources: where a device's media comes from.

use vstd::prelude::*;
use vstd::string::*;
use crate::ident::{id_text, id_texts, id_to_text, ids_to_texts};
use crate::resource::device::Device;
use crate::resource::{
    Format, Registerable, RegistrationRequest, ResourceCore, ResourceCoreBuilder, ResourceJson,
    TagView,
};
use crate::schema::{v1_0_x, v1_3_x};
use crate::text::{copy_ids, views};
use crate::version::APIVersion;

verus! {

/// Collects what a source will hold.
#[derive(Debug)]
pub struct SourceBuilder {
    pub core: ResourceCoreBuilder,
    pub format: Format,
    pub device_id: u128,
    pub parents: Vec<u128>,
}

/// A source. It names the device that owns it.
#[derive(Debug)]
pub struct Source {
    pub core: ResourceCore,
    pub format: Format,
    pub device_id: u128,
    pub parents: Vec<u128>,
}

/// The payload of a source under one of the supported revisions.
#[derive(Debug, PartialEq, Eq)]
pub enum SourceJson {
    V1_0(v1_0_x::Source),
    V1_3(v1_3_x::Source),
}

impl SourceBuilder {
    /// A builder for a source of the given device, without parents.
    pub fn new(label: &str, device: &Device, format: Format) -> (r: SourceBuilder)
        ensures
            r.core.label@ == label@,
            r.core.description@ == Seq::<char>::empty(),
            r.core.tags@ == Seq::<TagView>::empty(),
            r.format == format,
            r.device_id == device.core.id,
            r.parents@.len() == 0,
    {
        SourceBuilder {
            core: ResourceCoreBuilder::new(label),
            format,
            device_id: device.core.id,
            parents: Vec::new(),
        }
    }

    /// Sets the description.
    pub fn description(self, description: &str) -> (r: SourceBuilder)
        ensures
            r.core.label == self.core.label,
            r.core.description@ == description@,
            r.core.tags == self.core.tags,
            r.format == self.format,
            r.device_id == self.device_id,
            r.parents == self.parents,
    {
        SourceBuilder {
            core: self.core.description(description),
            format: self.format,
            device_id: self.device_id,
            parents: self.parents,
        }
    }

    /// The source, with a fresh identifier and version stamp.
    pub fn build(self) -> (r: Source)
        ensures
            r.core.label == self.core.label,
            r.core.description == self.core.description,
            r.core.tags == self.core.tags,
            r.core.fresh(),
            r.format == self.format,
            r.device_id == self.device_id,
            r.parents == self.parents,
    {
        Source {
            core: self.core.build(),
            format: self.format,
            device_id: self.device_id,
            parents: self.parents,
        }
    }
}

impl Source {
    /// A builder for a source of the given device.
    pub fn builder(label: &str, device: &Device, format: Format) -> (r: SourceBuilder)
        ensures
            r.core.label@ == label@,
            r.core.description@ == Seq::<char>::empty(),
            r.core.tags@ == Seq::<TagView>::empty(),
            r.format == format,
            r.device_id == device.core.id,
            r.parents@.len() == 0,
    {
        SourceBuilder::new(label, device, format)
    }

    /// Both sources say the same.
    pub open spec fn same_as(self, other: Source) -> bool {
        &&& self.core.same_as(other.core)
        &&& self.format == other.format
        &&& self.device_id == other.device_id
        &&& self.parents@ == other.parents@
    }

    /// A copy of the source.
    pub fn duplicate(&self) -> (r: Source)
        ensures
            r.same_as(*self),
    {
        Source {
            core: self.core.duplicate(),
            format: self.format,
            device_id: self.device_id,
            parents: copy_ids(&self.parents),
        }
    }

    /// `out` is this source as revision 1.0 writes it.
    pub open spec fn written_v1_0(self, out: v1_0_x::Source) -> bool {
        &&& out.id@ == id_text(self.core.id)
        &&& out.version@ == self.core.version.text()
        &&& out.label@ == self.core.label@
        &&& out.description@ == self.core.description@
        &&& out.format@ == self.format.urn()
        &&& out.tags@ == self.core.tags@
        &&& out.device_id@ == id_text(self.device_id)
        &&& views(out.parents@) == id_texts(self.parents@)
    }

    /// `out` is this source as revision 1.3 writes a source of video or data:
    /// without clock and without grain rate.
    pub open spec fn written_generic(self, out: v1_3_x::SourceGeneric) -> bool {
        &&& out.clock_name is None
        &&& out.id@ == id_text(self.core.id)
        &&& out.version@ == self.core.version.text()
        &&& out.label@ == self.core.label@
        &&& out.description@ == self.core.description@
        &&& out.format@ == self.format.urn()
        &&& out.tags@ == self.core.tags@
        &&& views(out.parents@) == id_texts(self.parents@)
        &&& out.device_id@ == id_text(self.device_id)
        &&& out.grain_rate is None
    }

    /// `out` is this source as revision 1.3 writes a source of audio:
    /// without clock and without grain rate, with the two channels `L` and
    /// `R`, neither with a symbol.
    pub open spec fn written_audio(self, out: v1_3_x::SourceAudio) -> bool {
        &&& out.clock_name is None
        &&& out.id@ == id_text(self.core.id)
        &&& out.version@ == self.core.version.text()
        &&& out.label@ == self.core.label@
        &&& out.description@ == self.core.description@
        &&& out.format@ == self.format.urn()
        &&& out.tags@ == self.core.tags@
        &&& views(out.parents@) == id_texts(self.parents@)
        &&& out.device_id@ == id_text(self.device_id)
        &&& out.channels@.len() == 2
        &&& out.channels@[0].label@ == "L"@
        &&& out.channels@[0].symbol is None
        &&& out.channels@[1].label@ == "R"@
        &&& out.channels@[1].symbol is None
        &&& out.grain_rate is None
    }

    /// `out` is this source's payload under `api`.
    pub open spec fn rendered(self, api: APIVersion, out: SourceJson) -> bool {
        match out {
            SourceJson::V1_0(p) => api == (APIVersion { major: 1, minor: 0 }) && self.written_v1_0(
                p,
            ),
            SourceJson::V1_3(v1_3_x::Source::Generic(p)) => api == (APIVersion {
                major: 1,
                minor: 3,
            }) && self.format != Format::Audio && self.written_generic(p),
            SourceJson::V1_3(v1_3_x::Source::Audio(p)) => api == (APIVersion {
                major: 1,
                minor: 3,
            }) && self.format == Format::Audio && self.written_audio(p),
        }
    }

    /// The source's payload under `api`.
    pub fn to_json(&self, api: &APIVersion) -> (r: SourceJson)
        requires
            api.supported(),
        ensures
            self.rendered(*api, r),
    {
        if api.minor == 0 {
            SourceJson::V1_0(
                v1_0_x::Source {
                    id: id_to_text(self.core.id),
                    version: self.core.version.to_text(),
                    label: self.core.label.clone(),
                    description: self.core.description.clone(),
                    format: self.format.to_text(),
                    caps: v1_0_x::Caps {  },
                    tags: self.core.tags_json(),
                    device_id: id_to_text(self.device_id),
                    parents: ids_to_texts(&self.parents),
                },
            )
        } else {
            match self.format {
                Format::Data | Format::Video => SourceJson::V1_3(
                    v1_3_x::Source::Generic(
                        v1_3_x::SourceGeneric {
                            clock_name: None,
                            id: id_to_text(self.core.id),
                            version: self.core.version.to_text(),
                            label: self.core.label.clone(),
                            description: self.core.description.clone(),
                            format: self.format.to_text(),
                            tags: self.core.tags_json(),
                            caps: v1_3_x::Caps {  },
                            parents: ids_to_texts(&self.parents),
                            device_id: id_to_text(self.device_id),
                            grain_rate: None,
                        },
                    ),
                ),
                Format::Audio => {
                    let mut channels: Vec<v1_3_x::SourceAudioItemChannels> = Vec::new();
                    channels.push(
                        v1_3_x::SourceAudioItemChannels { label: "L".to_owned(), symbol: None },
                    );
                    channels.push(
                        v1_3_x::SourceAudioItemChannels { label: "R".to_owned(), symbol: None },
                    );
                    SourceJson::V1_3(
                        v1_3_x::Source::Audio(
                            v1_3_x::SourceAudio {
                                clock_name: None,
                                id: id_to_text(self.core.id),
                                version: self.core.version.to_text(),
                                label: self.core.label.clone(),
                                description: self.core.description.clone(),
                                format: self.format.to_text(),
                                tags: self.core.tags_json(),
                                caps: v1_3_x::Caps {  },
                                parents: ids_to_texts(&self.parents),
                                device_id: id_to_text(self.device_id),
                                channels,
                                grain_rate: None,
                            },
                        ),
                    )
                },
            }
        }
    }
}

impl Registerable for Source {
    open spec fn path(&self) -> Seq<char> {
        "sources/"@ + id_text(self.core.id)
    }

    open spec fn requested_by(&self, api: APIVersion, request: RegistrationRequest) -> bool {
        &&& request.type_@ == "source"@
        &&& request.data matches ResourceJson::Source(json)
        &&& self.rendered(api, json)
    }

    fn registry_path(&self) -> (r: String) {
        let mut r: String = "sources/".to_owned();
        let id = id_to_text(self.core.id);
        r.append(id.as_str());
        r
    }

    fn registration_request(&self, api: &APIVersion) -> (r: RegistrationRequest) {
        RegistrationRequest {
            type_: "source".to_owned(),
            data: ResourceJson::Source(self.to_json(api)),
        }
    }
}

} // verus!
