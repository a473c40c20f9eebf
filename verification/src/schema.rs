//! The payloads that a registry takes, one set of shapes for each supported
//! revision of the protocol. They hold texts and numbers only; how they are
//! put on the wire is not decided here.

pub mod v1_0_x;
pub mod v1_3_x;
