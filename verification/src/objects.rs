//! The resources a cluster reports: pods, events and nodes.
//!
//! These are plain records. Field names follow the wire format except where
//! the doc comment of a field gives the name it has there.

use vstd::prelude::*;

verus! {

/// An instant in UTC: the whole seconds since 1970-01-01T00:00:00Z, and the
/// nanoseconds that have passed since the last of them.
#[derive(Debug, Clone, Copy, PartialEq, Eq, Structural)]
pub struct Timestamp {
    pub seconds: i64,
    pub nanoseconds: u32,
}

/// What every resource says of itself.
#[derive(Debug, PartialEq)]
pub struct Metadata {
    pub name: String,
    pub namespace: Option<String>,
    /// `creationTimestamp` on the wire.
    pub creation_timestamp: Option<Timestamp>,
}

#[derive(Debug, PartialEq)]
pub struct PodStatus {
    pub phase: String,
}

#[derive(Debug, PartialEq)]
pub struct Pod {
    pub metadata: Metadata,
    pub status: PodStatus,
}

#[derive(Debug, PartialEq)]
pub struct PodList {
    pub items: Vec<Pod>,
}

#[derive(Debug, PartialEq)]
pub struct Event {
    pub count: u32,
    pub message: String,
    pub reason: String,
    /// `lastTimestamp` on the wire.
    pub last_timestamp: Timestamp,
}

#[derive(Debug, PartialEq)]
pub struct EventList {
    pub items: Vec<Event>,
}

#[derive(Debug, PartialEq)]
pub struct NodeCondition {
    /// `type` on the wire.
    pub typ: String,
    pub status: String,
}

#[derive(Debug, PartialEq)]
pub struct NodeStatus {
    pub conditions: Vec<NodeCondition>,
}

#[derive(Debug, PartialEq)]
pub struct NodeSpec {
    pub unschedulable: Option<bool>,
}

#[derive(Debug, PartialEq)]
pub struct Node {
    pub metadata: Metadata,
    pub spec: NodeSpec,
    pub status: NodeStatus,
}

#[derive(Debug, PartialEq)]
pub struct NodeList {
    pub items: Vec<Node>,
}

} // verus!
