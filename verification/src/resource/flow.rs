//! Flows: a source's media in one concrete form.

use vstd::prelude::*;
use vstd::string::*;
use crate::ident::{id_text, id_texts, id_to_text, ids_to_texts};
use crate::resource::capabilities::GrainRate;
use crate::resource::device::Device;
use crate::resource::source::Source;
use crate::resource::{
    with_tag, Format, Registerable, RegistrationRequest, ResourceCore, ResourceCoreBuilder,
    ResourceJson, TagView,
};
use crate::schema::{v1_0_x, v1_3_x};
use crate::text::{copy_ids, views};
use crate::version::APIVersion;

verus! {

/// The frame height that a flow has until another is set.
pub const DEFAULT_FRAME_HEIGHT: i64 = 640;

/// The frame width that a flow has until another is set.
pub const DEFAULT_FRAME_WIDTH: i64 = 480;

/// The numerator of the sample rate that is written for an audio flow that
/// has none.
pub const DEFAULT_SAMPLE_RATE: i64 = 44000;

/// Collects what a flow will hold.
#[derive(Debug)]
pub struct FlowBuilder {
    pub core: ResourceCoreBuilder,
    pub format: Format,
    pub source_id: u128,
    pub device_id: u128,
    pub parents: Vec<u128>,
    pub frame_height: i64,
    pub frame_width: i64,
    pub media_type: String,
    pub colorspace: String,
    pub grain_rate: Option<GrainRate>,
    pub sample_rate: Option<GrainRate>,
}

/// A flow. It names the source it renders and the device that owns it.
#[derive(Debug)]
pub struct Flow {
    pub core: ResourceCore,
    pub format: Format,
    pub source_id: u128,
    pub device_id: u128,
    pub parents: Vec<u128>,
    pub frame_height: i64,
    pub frame_width: i64,
    pub media_type: String,
    pub colorspace: String,
    pub grain_rate: Option<GrainRate>,
    pub sample_rate: Option<GrainRate>,
}

/// The payload of a flow under one of the supported revisions.
#[derive(Debug, PartialEq, Eq)]
pub enum FlowJson {
    V1_0(v1_0_x::Flow),
    V1_3(v1_3_x::Flow),
}

impl FlowBuilder {
    /// A builder for a flow of the given source on the given device. The
    /// flow has the source's format, the default frame size, no parents, no
    /// rates, and empty media type and colorspace.
    pub fn new(label: &str, source: &Source, device: &Device) -> (r: FlowBuilder)
        ensures
            r.core.label@ == label@,
            r.core.description@ == Seq::<char>::empty(),
            r.core.tags@ == Seq::<TagView>::empty(),
            r.format == source.format,
            r.source_id == source.core.id,
            r.device_id == device.core.id,
            r.parents@.len() == 0,
            r.frame_height == DEFAULT_FRAME_HEIGHT,
            r.frame_width == DEFAULT_FRAME_WIDTH,
            r.media_type@ == Seq::<char>::empty(),
            r.colorspace@ == Seq::<char>::empty(),
            r.grain_rate is None,
            r.sample_rate is None,
    {
        FlowBuilder {
            core: ResourceCoreBuilder::new(label),
            format: source.format,
            source_id: source.core.id,
            device_id: device.core.id,
            parents: Vec::new(),
            frame_height: DEFAULT_FRAME_HEIGHT,
            frame_width: DEFAULT_FRAME_WIDTH,
            media_type: String::new(),
            colorspace: String::new(),
            grain_rate: None,
            sample_rate: None,
        }
    }

    /// Sets the description.
    pub fn with_description(self, description: &str) -> (r: FlowBuilder)
        ensures
            r.core.label == self.core.label,
            r.core.description@ == description@,
            r.core.tags == self.core.tags,
            r == (FlowBuilder { core: r.core, ..self }),
    {
        FlowBuilder { core: self.core.description(description), ..self }
    }

    /// Sets the media type.
    pub fn with_media_type(self, media_type: String) -> (r: FlowBuilder)
        ensures
            r == (FlowBuilder { media_type, ..self }),
    {
        FlowBuilder { media_type, ..self }
    }

    /// Sets the colorspace.
    pub fn with_colorspace(self, colorspace: String) -> (r: FlowBuilder)
        ensures
            r == (FlowBuilder { colorspace, ..self }),
    {
        FlowBuilder { colorspace, ..self }
    }

    /// Sets the sample rate to `numerator / denominator`.
    pub fn with_sample_rate(self, denominator: i64, numerator: i64) -> (r: FlowBuilder)
        ensures
            r == (FlowBuilder {
                sample_rate: Some(GrainRate { denominator: Some(denominator), numerator }),
                ..self
            }),
    {
        FlowBuilder {
            sample_rate: Some(GrainRate { denominator: Some(denominator), numerator }),
            ..self
        }
    }

    /// Sets the grain rate to `numerator / denominator`.
    pub fn with_grain_rate(self, denominator: i64, numerator: i64) -> (r: FlowBuilder)
        ensures
            r == (FlowBuilder {
                grain_rate: Some(GrainRate { denominator: Some(denominator), numerator }),
                ..self
            }),
    {
        FlowBuilder {
            grain_rate: Some(GrainRate { denominator: Some(denominator), numerator }),
            ..self
        }
    }

    /// Sets the values under a tag's key.
    pub fn tag(self, key: &str, values: Vec<String>) -> (r: FlowBuilder)
        ensures
            r.core.label == self.core.label,
            r.core.description == self.core.description,
            r.core.tags@ == with_tag(self.core.tags@, key@, views(values@)),
            r == (FlowBuilder { core: r.core, ..self }),
    {
        FlowBuilder { core: self.core.tag(key, values), ..self }
    }

    /// The flow, with a fresh identifier and version stamp.
    pub fn build(self) -> (r: Flow)
        ensures
            r.core.label == self.core.label,
            r.core.description == self.core.description,
            r.core.tags == self.core.tags,
            r.core.fresh(),
            r == (Flow {
                core: r.core,
                format: self.format,
                source_id: self.source_id,
                device_id: self.device_id,
                parents: self.parents,
                frame_height: self.frame_height,
                frame_width: self.frame_width,
                media_type: self.media_type,
                colorspace: self.colorspace,
                grain_rate: self.grain_rate,
                sample_rate: self.sample_rate,
            }),
    {
        Flow {
            core: self.core.build(),
            format: self.format,
            source_id: self.source_id,
            device_id: self.device_id,
            parents: self.parents,
            frame_height: self.frame_height,
            frame_width: self.frame_width,
            media_type: self.media_type,
            colorspace: self.colorspace,
            grain_rate: self.grain_rate,
            sample_rate: self.sample_rate,
        }
    }
}

impl Flow {
    /// A builder for a flow of the given source on the given device.
    pub fn builder(label: &str, source: &Source, device: &Device) -> (r: FlowBuilder)
        ensures
            r.core.label@ == label@,
            r.core.description@ == Seq::<char>::empty(),
            r.core.tags@ == Seq::<TagView>::empty(),
            r.format == source.format,
            r.source_id == source.core.id,
            r.device_id == device.core.id,
            r.parents@.len() == 0,
            r.frame_height == DEFAULT_FRAME_HEIGHT,
            r.frame_width == DEFAULT_FRAME_WIDTH,
            r.media_type@ == Seq::<char>::empty(),
            r.colorspace@ == Seq::<char>::empty(),
            r.grain_rate is None,
            r.sample_rate is None,
    {
        FlowBuilder::new(label, source, device)
    }

    /// Both flows say the same.
    pub open spec fn same_as(self, other: Flow) -> bool {
        &&& self.core.same_as(other.core)
        &&& self.format == other.format
        &&& self.source_id == other.source_id
        &&& self.device_id == other.device_id
        &&& self.parents@ == other.parents@
        &&& self.frame_height == other.frame_height
        &&& self.frame_width == other.frame_width
        &&& self.media_type@ == other.media_type@
        &&& self.colorspace@ == other.colorspace@
        &&& self.grain_rate == other.grain_rate
        &&& self.sample_rate == other.sample_rate
    }

    /// A copy of the flow.
    pub fn duplicate(&self) -> (r: Flow)
        ensures
            r.same_as(*self),
    {
        Flow {
            core: self.core.duplicate(),
            format: self.format,
            source_id: self.source_id,
            device_id: self.device_id,
            parents: copy_ids(&self.parents),
            frame_height: self.frame_height,
            frame_width: self.frame_width,
            media_type: self.media_type.clone(),
            colorspace: self.colorspace.clone(),
            grain_rate: self.grain_rate,
            sample_rate: self.sample_rate,
        }
    }

    /// `out` is this flow as revision 1.0 writes it.
    pub open spec fn written_v1_0(self, out: v1_0_x::Flow) -> bool {
        &&& out.id@ == id_text(self.core.id)
        &&& out.version@ == self.core.version.text()
        &&& out.label@ == self.core.label@
        &&& out.description@ == self.core.description@
        &&& out.format@ == self.format.urn()
        &&& out.tags@ == self.core.tags@
        &&& out.source_id@ == id_text(self.source_id)
        &&& views(out.parents@) == id_texts(self.parents@)
    }

    /// `out` is this flow as revision 1.3 writes a flow of coded video:
    /// with its frame size, without interlace mode or transfer
    /// characteristic.
    pub open spec fn written_video(self, out: v1_3_x::FlowVideoCoded) -> bool {
        &&& out.id@ == id_text(self.core.id)
        &&& out.version@ == self.core.version.text()
        &&& out.label@ == self.core.label@
        &&& out.description@ == self.core.description@
        &&& out.format@ == self.format.urn()
        &&& out.tags@ == self.core.tags@
        &&& out.source_id@ == id_text(self.source_id)
        &&& views(out.parents@) == id_texts(self.parents@)
        &&& out.device_id@ == id_text(self.device_id)
        &&& out.media_type@ == self.media_type@
        &&& out.grain_rate == match self.grain_rate {
            Some(g) => Some(
                v1_3_x::FlowVideoCodedGrainRate {
                    denominator: g.denominator,
                    numerator: g.numerator,
                },
            ),
            None => None,
        }
        &&& out.colorspace@ == self.colorspace@
        &&& out.frame_height == self.frame_height
        &&& out.frame_width == self.frame_width
        &&& out.interlace_mode is None
        &&& out.transfer_characteristic is None
    }

    /// The sample rate that is written for this flow: its own, or the
    /// default over no denominator.
    pub open spec fn written_sample_rate(self) -> v1_3_x::FlowAudioCodedSampleRate {
        match self.sample_rate {
            Some(s) => v1_3_x::FlowAudioCodedSampleRate {
                denominator: s.denominator,
                numerator: s.numerator,
            },
            None => v1_3_x::FlowAudioCodedSampleRate {
                denominator: None,
                numerator: DEFAULT_SAMPLE_RATE,
            },
        }
    }

    /// `out` is this flow as revision 1.3 writes a flow of coded audio.
    pub open spec fn written_audio(self, out: v1_3_x::FlowAudioCoded) -> bool {
        &&& out.id@ == id_text(self.core.id)
        &&& out.version@ == self.core.version.text()
        &&& out.label@ == self.core.label@
        &&& out.description@ == self.core.description@
        &&& out.format@ == self.format.urn()
        &&& out.tags@ == self.core.tags@
        &&& out.source_id@ == id_text(self.source_id)
        &&& views(out.parents@) == id_texts(self.parents@)
        &&& out.device_id@ == id_text(self.device_id)
        &&& out.media_type@ == self.media_type@
        &&& out.sample_rate == self.written_sample_rate()
        &&& out.grain_rate == match self.grain_rate {
            Some(g) => Some(
                v1_3_x::FlowAudioCodedGrainRate {
                    denominator: g.denominator,
                    numerator: g.numerator,
                },
            ),
            None => None,
        }
    }

    /// `out` is this flow as revision 1.3 writes a flow of data: what every
    /// flow carries, its media type and its grain rate. Frame size,
    /// colorspace and sample rate are not written.
    pub open spec fn written_data(self, out: v1_3_x::FlowData) -> bool {
        &&& out.id@ == id_text(self.core.id)
        &&& out.version@ == self.core.version.text()
        &&& out.label@ == self.core.label@
        &&& out.description@ == self.core.description@
        &&& out.format@ == self.format.urn()
        &&& out.tags@ == self.core.tags@
        &&& out.source_id@ == id_text(self.source_id)
        &&& views(out.parents@) == id_texts(self.parents@)
        &&& out.device_id@ == id_text(self.device_id)
        &&& out.media_type@ == self.media_type@
        &&& out.grain_rate == match self.grain_rate {
            Some(g) => Some(
                v1_3_x::FlowDataGrainRate { denominator: g.denominator, numerator: g.numerator },
            ),
            None => None,
        }
    }

    /// `out` is this flow's payload under `api`.
    pub open spec fn rendered(self, api: APIVersion, out: FlowJson) -> bool {
        match out {
            FlowJson::V1_0(p) => api == (APIVersion { major: 1, minor: 0 }) && self.written_v1_0(p),
            FlowJson::V1_3(v1_3_x::Flow::VideoCoded(p)) => api == (APIVersion {
                major: 1,
                minor: 3,
            }) && self.format == Format::Video && self.written_video(p),
            FlowJson::V1_3(v1_3_x::Flow::AudioCoded(p)) => api == (APIVersion {
                major: 1,
                minor: 3,
            }) && self.format == Format::Audio && self.written_audio(p),
            FlowJson::V1_3(v1_3_x::Flow::Data(p)) => api == (APIVersion { major: 1, minor: 3 })
                && self.format == Format::Data && self.written_data(p),
        }
    }

    /// The flow's payload under `api`.
    pub fn to_json(&self, api: &APIVersion) -> (r: FlowJson)
        requires
            api.supported(),
        ensures
            self.rendered(*api, r),
    {
        if api.minor == 0 {
            FlowJson::V1_0(
                v1_0_x::Flow {
                    id: id_to_text(self.core.id),
                    version: self.core.version.to_text(),
                    label: self.core.label.clone(),
                    description: self.core.description.clone(),
                    format: self.format.to_text(),
                    tags: self.core.tags_json(),
                    source_id: id_to_text(self.source_id),
                    parents: ids_to_texts(&self.parents),
                },
            )
        } else if self.format == Format::Video {
            let grain_rate = match self.grain_rate {
                Some(g) => Some(g.into_video_grain_rate()),
                None => None,
            };
            FlowJson::V1_3(
                v1_3_x::Flow::VideoCoded(
                    v1_3_x::FlowVideoCoded {
                        id: id_to_text(self.core.id),
                        version: self.core.version.to_text(),
                        label: self.core.label.clone(),
                        description: self.core.description.clone(),
                        format: self.format.to_text(),
                        tags: self.core.tags_json(),
                        source_id: id_to_text(self.source_id),
                        parents: ids_to_texts(&self.parents),
                        device_id: id_to_text(self.device_id),
                        media_type: self.media_type.clone(),
                        grain_rate,
                        colorspace: self.colorspace.clone(),
                        frame_height: self.frame_height,
                        frame_width: self.frame_width,
                        interlace_mode: None,
                        transfer_characteristic: None,
                    },
                ),
            )
        } else if self.format == Format::Data {
            let grain_rate = match self.grain_rate {
                Some(g) => Some(g.into_data_grain_rate()),
                None => None,
            };
            FlowJson::V1_3(
                v1_3_x::Flow::Data(
                    v1_3_x::FlowData {
                        id: id_to_text(self.core.id),
                        version: self.core.version.to_text(),
                        label: self.core.label.clone(),
                        description: self.core.description.clone(),
                        format: self.format.to_text(),
                        tags: self.core.tags_json(),
                        source_id: id_to_text(self.source_id),
                        parents: ids_to_texts(&self.parents),
                        device_id: id_to_text(self.device_id),
                        media_type: self.media_type.clone(),
                        grain_rate,
                    },
                ),
            )
        } else {
            let sample_rate = match self.sample_rate {
                Some(s) => s.into_sample_rate(),
                None => (GrainRate {
                    denominator: None,
                    numerator: DEFAULT_SAMPLE_RATE,
                }).into_sample_rate(),
            };
            let grain_rate = match self.grain_rate {
                Some(g) => Some(g.into_audio_grain_rate()),
                None => None,
            };
            FlowJson::V1_3(
                v1_3_x::Flow::AudioCoded(
                    v1_3_x::FlowAudioCoded {
                        id: id_to_text(self.core.id),
                        version: self.core.version.to_text(),
                        label: self.core.label.clone(),
                        description: self.core.description.clone(),
                        format: self.format.to_text(),
                        tags: self.core.tags_json(),
                        source_id: id_to_text(self.source_id),
                        parents: ids_to_texts(&self.parents),
                        device_id: id_to_text(self.device_id),
                        media_type: self.media_type.clone(),
                        sample_rate,
                        grain_rate,
                    },
                ),
            )
        }
    }
}

impl Registerable for Flow {
    open spec fn path(&self) -> Seq<char> {
        "flows/"@ + id_text(self.core.id)
    }

    open spec fn requested_by(&self, api: APIVersion, request: RegistrationRequest) -> bool {
        &&& request.type_@ == "flow"@
        &&& request.data matches ResourceJson::Flow(json)
        &&& self.rendered(api, json)
    }

    fn registry_path(&self) -> (r: String) {
        let mut r: String = "flows/".to_owned();
        let id = id_to_text(self.core.id);
        r.append(id.as_str());
        r
    }

    fn registration_request(&self, api: &APIVersion) -> (r: RegistrationRequest) {
        RegistrationRequest { type_: "flow".to_owned(), data: ResourceJson::Flow(self.to_json(api)) }
    }
}

} // verus!
