//! Payload shapes of revision 1.0.

use vstd::prelude::*;
use crate::resource::Tags;

verus! {

/// The capabilities of a resource. Nothing is declared in them.
#[derive(Debug, PartialEq, Eq)]
pub struct Caps {}

#[derive(Debug, PartialEq, Eq)]
pub struct NodeItemServices {
    pub href: String,
    pub type_: String,
}

#[derive(Debug, PartialEq, Eq)]
pub struct Node {
    pub id: String,
    pub version: String,
    pub label: String,
    pub href: String,
    pub hostname: Option<String>,
    pub caps: Caps,
    pub services: Vec<NodeItemServices>,
}

#[derive(Debug, PartialEq, Eq)]
pub struct Device {
    pub id: String,
    pub version: String,
    pub label: String,
    pub type_: String,
    pub node_id: String,
    pub senders: Vec<String>,
    pub receivers: Vec<String>,
}

#[derive(Debug, PartialEq, Eq)]
pub struct Source {
    pub id: String,
    pub version: String,
    pub label: String,
    pub description: String,
    pub format: String,
    pub caps: Caps,
    pub tags: Tags,
    pub device_id: String,
    pub parents: Vec<String>,
}

#[derive(Debug, PartialEq, Eq)]
pub struct Flow {
    pub id: String,
    pub version: String,
    pub label: String,
    pub description: String,
    pub format: String,
    pub tags: Tags,
    pub source_id: String,
    pub parents: Vec<String>,
}

#[derive(Debug, PartialEq, Eq)]
pub struct Sender {
    pub id: String,
    pub version: String,
    pub label: String,
    pub description: String,
    pub flow_id: String,
    pub transport: String,
    pub tags: Option<Tags>,
    pub device_id: String,
    pub manifest_href: String,
}

#[derive(Debug, PartialEq, Eq)]
pub struct ReceiverSubscription {
    pub sender_id: Option<String>,
}

#[derive(Debug, PartialEq, Eq)]
pub struct Receiver {
    pub id: String,
    pub version: String,
    pub label: String,
    pub description: String,
    pub format: String,
    pub caps: Caps,
    pub tags: Tags,
    pub device_id: String,
    pub transport: String,
    pub subscription: ReceiverSubscription,
}

} // verus!
