//! Event types: device lifecycle, tablet AI, scheduler decisions, health.
//!
//! Published on various `*/up/events/**` topics.
use vstd::prelude::*;

use uuid::Uuid;

use crate::json::JsonValue;
use crate::text::{is_non_empty, non_empty};
use crate::validate::{is_known_tier, tier_in_range, PayloadValidation};

verus! {

/// Tablet on-device AI inference result, relayed by nexox.
/// Topic: `nexox/up/events/tablet-ai/<node>/<tablet>`
#[derive(Debug, Clone)]
pub struct TabletAiResult {
    pub tablet_id: String,
    pub model_id: String,
    pub inference_ms: u32,
    pub result: JsonValue,
    pub success: bool,
}

impl TabletAiResult {
    /// A result names the tablet and the model that produced it.
    pub open spec fn valid(&self) -> bool {
        non_empty(self.tablet_id@) && non_empty(self.model_id@)
    }
}

impl PayloadValidation for TabletAiResult {
    fn is_valid(&self) -> (b: bool)
        ensures
            b == self.valid(),
    {
        is_non_empty(&self.tablet_id) && is_non_empty(&self.model_id)
    }
}

/// minox scheduler decision event.
/// Topic: `minox/up/events/decision-made`
#[derive(Debug, Clone)]
pub struct DecisionEvent {
    pub task_id: Uuid,
    pub decision: String,
    pub target_node: String,
    pub target_tier: u8,
    pub latency_ms: u32,
}

impl DecisionEvent {
    /// A decision names its node and one of the tiers 1 to 4.
    pub open spec fn valid(&self) -> bool {
        non_empty(self.target_node@) && tier_in_range(self.target_tier)
    }
}

impl PayloadValidation for DecisionEvent {
    fn is_valid(&self) -> (b: bool)
        ensures
            b == self.valid(),
    {
        is_non_empty(&self.target_node) && is_known_tier(self.target_tier)
    }
}

/// Service health status, published by nexox supervisor.
/// Topic: `nexox/up/health/<service>/heartbeat`
#[derive(Debug, Clone, PartialEq, Eq)]
pub struct HealthStatus {
    pub service: String,
    pub status: HealthState,
    pub uptime_secs: u64,
    pub restart_count: u32,
    pub last_error: Option<String>,
}

#[derive(Debug, Clone, Copy, PartialEq, Eq, Structural)]
pub enum HealthState {
    Healthy,
    Stall,
    Crashed,
    Missing,
    Stopped,
}

impl HealthStatus {
    /// A heartbeat names its service; any state is acceptable.
    pub open spec fn valid(&self) -> bool {
        non_empty(self.service@)
    }
}

impl PayloadValidation for HealthStatus {
    fn is_valid(&self) -> (b: bool)
        ensures
            b == self.valid(),
    {
        is_non_empty(&self.service)
    }
}

/// Device connected event (ECST pattern: full state in payload).
#[derive(Debug, Clone, PartialEq, Eq)]
pub struct DeviceConnectedEvent {
    pub serial: String,
    pub model: String,
    pub os: String,
    pub manufacturer: String,
    pub capabilities: Vec<String>,
}

impl DeviceConnectedEvent {
    /// A device event carries the device's serial.
    pub open spec fn valid(&self) -> bool {
        non_empty(self.serial@)
    }
}

impl PayloadValidation for DeviceConnectedEvent {
    fn is_valid(&self) -> (b: bool)
        ensures
            b == self.valid(),
    {
        is_non_empty(&self.serial)
    }
}

/// An inference result is valid exactly when both the tablet and the
/// model are named, whatever the result and its success flag.
pub proof fn lemma_tablet_ai_result_rule(r: TabletAiResult)
    ensures
        r.tablet_id@.len() == 0 ==> !r.valid(),
        r.model_id@.len() == 0 ==> !r.valid(),
        r.tablet_id@.len() > 0 && r.model_id@.len() > 0 ==> r.valid(),
{
}

/// A decision event is valid exactly when it names a target node and its
/// tier is one of 1, 2, 3, 4.
pub proof fn lemma_decision_event_rule(d: DecisionEvent)
    ensures
        d.valid() ==> d.target_node@.len() > 0,
        d.valid() ==> 1 <= d.target_tier && d.target_tier <= 4,
        d.target_node@.len() > 0 && 1 <= d.target_tier && d.target_tier <= 4 ==> d.valid(),
{
}

/// A heartbeat is valid exactly when it names its service, whatever the
/// state it reports.
pub proof fn lemma_health_status_rule(h: HealthStatus)
    ensures
        h.valid() <==> h.service@.len() > 0,
{
}

/// A device event is valid exactly when it carries the device's serial.
pub proof fn lemma_device_connected_rule(d: DeviceConnectedEvent)
    ensures
        d.valid() <==> d.serial@.len() > 0,
{
}

} // verus!
