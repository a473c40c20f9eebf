//! The node side of media-resource discovery and registration.
//!
//! A node owns a graph of resources: itself, its devices, their sources,
//! flows, senders and receivers ([`model`], [`resource`]). It finds
//! registries on the network ([`mdns`]), takes the one of highest precedence
//! ([`registry_queue`]), registers its resources there in the order of their
//! references ([`registration`]) and keeps the registration alive with
//! heartbeats ([`driver`]). Single changes of resources follow the registry
//! that is served at the moment ([`propagator`]).
//!
//! The library decides and never waits: timers, calls to the registry and
//! the discovery transport belong to whoever runs it. The machines of
//! [`driver`] and [`propagator`] are told what happened and answer what is
//! to be done next.
//!
//! Payloads are plain values, one set of shapes for each supported revision
//! of the protocol ([`schema`]). Identifiers are 128-bit numbers written as
//! UUIDs ([`ident`]), web addresses are read by the `url` crate ([`href`]).

pub mod driver;
pub mod href;
pub mod ident;
pub mod mdns;
pub mod model;
pub mod propagator;
pub mod registration;
pub mod registry_queue;
pub mod resource;
pub mod schema;
pub mod settings;
pub mod tai;
pub mod text;
pub mod version;
