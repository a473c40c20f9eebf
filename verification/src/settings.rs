//! What a node is configured with, and the waits that follow from it.

use vstd::prelude::*;
use crate::driver::Action;
use crate::version::APIVersion;

verus! {

/// Seconds between two attempts to select a registry.
pub const SELECTION_INTERVAL: u64 = 5;

/// Seconds between two heartbeats, unless another interval is set.
pub const DEFAULT_HEARTBEAT_INTERVAL: u64 = 5;

/// Seconds after which a call to the registry is given up, unless another
/// timeout is set.
pub const DEFAULT_REGISTRY_TIMEOUT: u64 = 5;

/// Milliseconds between two polls of the discovery transport.
pub const DISCOVERY_POLL_MILLIS: u64 = 100;

/// The port that a node serves and advertises, unless another address is
/// set.
pub const DEFAULT_PORT: u16 = 3000;

/// The settings of a node.
#[derive(Clone, Copy, Debug, PartialEq, Eq, Structural)]
pub struct NodeSettings {
    /// The revision of the protocol that the node speaks.
    pub api_version: APIVersion,
    /// Seconds between two heartbeats.
    pub heartbeat_interval: u64,
    /// Seconds after which a call to the registry is given up.
    pub registry_timeout: u64,
}

impl NodeSettings {
    /// The settings of a node for which nothing was chosen: revision 1.3
    /// and the default interval and timeout.
    pub fn new() -> (r: NodeSettings)
        ensures
            r == (NodeSettings {
                api_version: APIVersion { major: 1, minor: 3 },
                heartbeat_interval: DEFAULT_HEARTBEAT_INTERVAL,
                registry_timeout: DEFAULT_REGISTRY_TIMEOUT,
            }),
    {
        NodeSettings {
            api_version: APIVersion::v1_3(),
            heartbeat_interval: DEFAULT_HEARTBEAT_INTERVAL,
            registry_timeout: DEFAULT_REGISTRY_TIMEOUT,
        }
    }

    /// Sets the revision of the protocol.
    pub fn with_api_version(self, api_version: APIVersion) -> (r: NodeSettings)
        ensures
            r == (NodeSettings { api_version, ..self }),
    {
        NodeSettings { api_version, ..self }
    }

    /// Sets the seconds after which a call to the registry is given up.
    pub fn with_registration_timeout(self, timeout: u64) -> (r: NodeSettings)
        ensures
            r == (NodeSettings { registry_timeout: timeout, ..self }),
    {
        NodeSettings { registry_timeout: timeout, ..self }
    }

    /// Sets the seconds between two heartbeats.
    pub fn with_heartbeat_interval(self, interval: u64) -> (r: NodeSettings)
        ensures
            r == (NodeSettings { heartbeat_interval: interval, ..self }),
    {
        NodeSettings { heartbeat_interval: interval, ..self }
    }

    /// The seconds to wait where the action is a wait: the selection
    /// interval before a selection, the heartbeat interval before a
    /// heartbeat.
    pub fn delay(&self, action: Action) -> (r: Option<u64>)
        ensures
            r == match action {
                Action::WaitSelection => Some(SELECTION_INTERVAL),
                Action::WaitHeartbeat => Some(self.heartbeat_interval),
                _ => None,
            },
    {
        match action {
            Action::WaitSelection => Some(SELECTION_INTERVAL),
            Action::WaitHeartbeat => Some(self.heartbeat_interval),
            _ => None,
        }
    }
}

} // verus!
