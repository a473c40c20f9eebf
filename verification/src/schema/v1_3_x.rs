//! Payload shapes of revision 1.3.

use vstd::prelude::*;
use crate::resource::Tags;

verus! {

/// The capabilities of a node or source. Nothing is declared in them.
#[derive(Debug, PartialEq, Eq)]
pub struct Caps {}

#[derive(Debug, PartialEq, Eq)]
pub struct NodeItemServices {
    pub authorization: Option<bool>,
    pub href: String,
    pub type_: String,
}

#[derive(Debug, PartialEq, Eq)]
pub struct NodeItemClocks {
    pub name: String,
    pub ref_type: String,
}

#[derive(Debug, PartialEq, Eq)]
pub struct NodeItemInterfaces {
    pub chassis_id: Option<String>,
    pub name: String,
    pub port_id: String,
}

#[derive(Debug, PartialEq, Eq)]
pub struct NodeApiItemEndpoints {
    pub host: String,
    pub port: i64,
    pub protocol: String,
    pub authorization: Option<bool>,
}

#[derive(Debug, PartialEq, Eq)]
pub struct NodeApi {
    pub versions: Vec<String>,
    pub endpoints: Vec<NodeApiItemEndpoints>,
}

#[derive(Debug, PartialEq, Eq)]
pub struct Node {
    pub description: String,
    pub id: String,
    pub version: String,
    pub label: String,
    pub href: String,
    pub hostname: Option<String>,
    pub caps: Caps,
    pub clocks: Vec<NodeItemClocks>,
    pub interfaces: Vec<NodeItemInterfaces>,
    pub api: NodeApi,
    pub tags: Tags,
    pub services: Vec<NodeItemServices>,
}

#[derive(Debug, PartialEq, Eq)]
pub struct DeviceItemControls {
    pub href: String,
    pub type_: String,
}

#[derive(Debug, PartialEq, Eq)]
pub struct Device {
    pub id: String,
    pub version: String,
    pub label: String,
    pub type_: String,
    pub node_id: String,
    pub senders: Vec<String>,
    pub receivers: Vec<String>,
    pub tags: Tags,
    pub description: String,
    pub controls: Vec<DeviceItemControls>,
}

#[derive(Debug, PartialEq, Eq)]
pub struct SourceGrainRate {
    pub denominator: Option<i64>,
    pub numerator: i64,
}

#[derive(Debug, PartialEq, Eq)]
pub struct SourceGeneric {
    pub clock_name: Option<String>,
    pub id: String,
    pub version: String,
    pub label: String,
    pub description: String,
    pub format: String,
    pub tags: Tags,
    pub caps: Caps,
    pub parents: Vec<String>,
    pub device_id: String,
    pub grain_rate: Option<SourceGrainRate>,
}

#[derive(Debug, PartialEq, Eq)]
pub struct SourceAudioItemChannels {
    pub label: String,
    pub symbol: Option<String>,
}

#[derive(Debug, PartialEq, Eq)]
pub struct SourceAudio {
    pub clock_name: Option<String>,
    pub id: String,
    pub version: String,
    pub label: String,
    pub description: String,
    pub format: String,
    pub tags: Tags,
    pub caps: Caps,
    pub parents: Vec<String>,
    pub device_id: String,
    pub channels: Vec<SourceAudioItemChannels>,
    pub grain_rate: Option<SourceGrainRate>,
}

#[derive(Debug, PartialEq, Eq)]
pub enum Source {
    Generic(SourceGeneric),
    Audio(SourceAudio),
}

#[derive(Clone, Copy, Debug, PartialEq, Eq, Structural)]
pub struct FlowVideoCodedGrainRate {
    pub denominator: Option<i64>,
    pub numerator: i64,
}

#[derive(Clone, Copy, Debug, PartialEq, Eq, Structural)]
pub struct FlowAudioCodedGrainRate {
    pub denominator: Option<i64>,
    pub numerator: i64,
}

#[derive(Clone, Copy, Debug, PartialEq, Eq, Structural)]
pub struct FlowAudioCodedSampleRate {
    pub denominator: Option<i64>,
    pub numerator: i64,
}

#[derive(Debug, PartialEq, Eq)]
pub struct FlowVideoCoded {
    pub id: String,
    pub version: String,
    pub label: String,
    pub description: String,
    pub format: String,
    pub tags: Tags,
    pub source_id: String,
    pub parents: Vec<String>,
    pub device_id: String,
    pub media_type: String,
    pub grain_rate: Option<FlowVideoCodedGrainRate>,
    pub colorspace: String,
    pub frame_height: i64,
    pub frame_width: i64,
    pub interlace_mode: Option<String>,
    pub transfer_characteristic: Option<String>,
}

#[derive(Debug, PartialEq, Eq)]
pub struct FlowAudioCoded {
    pub id: String,
    pub version: String,
    pub label: String,
    pub description: String,
    pub format: String,
    pub tags: Tags,
    pub source_id: String,
    pub parents: Vec<String>,
    pub device_id: String,
    pub media_type: String,
    pub sample_rate: FlowAudioCodedSampleRate,
    pub grain_rate: Option<FlowAudioCodedGrainRate>,
}

#[derive(Clone, Copy, Debug, PartialEq, Eq, Structural)]
pub struct FlowDataGrainRate {
    pub denominator: Option<i64>,
    pub numerator: i64,
}

#[derive(Debug, PartialEq, Eq)]
pub struct FlowData {
    pub id: String,
    pub version: String,
    pub label: String,
    pub description: String,
    pub format: String,
    pub tags: Tags,
    pub source_id: String,
    pub parents: Vec<String>,
    pub device_id: String,
    pub media_type: String,
    pub grain_rate: Option<FlowDataGrainRate>,
}

#[derive(Debug, PartialEq, Eq)]
pub enum Flow {
    VideoCoded(FlowVideoCoded),
    AudioCoded(FlowAudioCoded),
    Data(FlowData),
}

#[derive(Debug, PartialEq, Eq)]
pub struct SenderSubscription {
    pub active: bool,
    pub receiver_id: Option<String>,
}

/// The capabilities of a sender. Nothing is declared in them.
#[derive(Debug, PartialEq, Eq)]
pub struct SenderCaps {}

#[derive(Debug, PartialEq, Eq)]
pub struct Sender {
    pub interface_bindings: Vec<String>,
    pub caps: Option<SenderCaps>,
    pub id: String,
    pub version: String,
    pub label: String,
    pub description: String,
    pub flow_id: Option<String>,
    pub tags: Tags,
    pub device_id: String,
    pub manifest_href: Option<String>,
    pub subscription: SenderSubscription,
    pub transport: String,
}

#[derive(Debug, PartialEq, Eq)]
pub struct ReceiverSubscription {
    pub active: bool,
    pub sender_id: Option<String>,
}

#[derive(Debug, PartialEq, Eq)]
pub struct ReceiverCaps {
    pub media_types: Option<Vec<String>>,
}

#[derive(Debug, PartialEq, Eq)]
pub struct ReceiverDataCaps {
    pub media_types: Option<Vec<String>>,
    pub event_types: Option<Vec<String>>,
}

#[derive(Debug, PartialEq, Eq)]
pub struct ReceiverVideo {
    pub interface_bindings: Vec<String>,
    pub id: String,
    pub version: String,
    pub tags: Tags,
    pub label: String,
    pub description: String,
    pub format: String,
    pub device_id: String,
    pub caps: ReceiverCaps,
    pub subscription: ReceiverSubscription,
    pub transport: String,
}

#[derive(Debug, PartialEq, Eq)]
pub struct ReceiverAudio {
    pub interface_bindings: Vec<String>,
    pub id: String,
    pub version: String,
    pub tags: Tags,
    pub label: String,
    pub description: String,
    pub format: String,
    pub device_id: String,
    pub caps: ReceiverCaps,
    pub subscription: ReceiverSubscription,
    pub transport: String,
}

#[derive(Debug, PartialEq, Eq)]
pub struct ReceiverData {
    pub interface_bindings: Vec<String>,
    pub id: String,
    pub version: String,
    pub tags: Tags,
    pub label: String,
    pub description: String,
    pub format: String,
    pub device_id: String,
    pub subscription: ReceiverSubscription,
    pub transport: String,
    pub caps: ReceiverDataCaps,
}

#[derive(Debug, PartialEq, Eq)]
pub enum Receiver {
    Video(ReceiverVideo),
    Audio(ReceiverAudio),
    Data(ReceiverData),
}

} // verus!
