//! Scheduler command types: minox publishes, nexox/argox consume.
//!
//! Topics: `minox/down/commands/{schedule-task, route-to-tier, throttle-node}`
//! and `nexox/down/commands/<service>/<cmd>` for operator commands from argox.
use vstd::prelude::*;

use uuid::Uuid;

use crate::json::JsonValue;
use crate::text::{is_non_empty, non_empty};
use crate::validate::{is_known_tier, tier_in_range, PayloadValidation};

verus! {

/// minox scheduler assigns a task to a specific node + tier.
#[derive(Debug, Clone)]
pub struct ScheduleDecision {
    pub task_id: Uuid,
    pub target_node: String,
    pub target_tier: u8,
    pub reason: String,
}

impl ScheduleDecision {
    /// A decision names a node and one of the tiers 1 to 4.
    pub open spec fn valid(&self) -> bool {
        non_empty(self.target_node@) && tier_in_range(self.target_tier)
    }
}

impl PayloadValidation for ScheduleDecision {
    fn is_valid(&self) -> (b: bool)
        ensures
            b == self.valid(),
    {
        is_non_empty(&self.target_node) && is_known_tier(self.target_tier)
    }
}

/// minox requests routing change for a node between tiers.
#[derive(Debug, Clone, PartialEq, Eq)]
pub struct TierRoute {
    pub node: String,
    pub from_tier: u8,
    pub to_tier: u8,
    pub reason: String,
}

impl TierRoute {
    /// A route names a node, and both of its tiers are among 1 to 4.
    pub open spec fn valid(&self) -> bool {
        non_empty(self.node@) && tier_in_range(self.from_tier) && tier_in_range(self.to_tier)
    }
}

impl PayloadValidation for TierRoute {
    fn is_valid(&self) -> (b: bool)
        ensures
            b == self.valid(),
    {
        is_non_empty(&self.node) && is_known_tier(self.from_tier) && is_known_tier(self.to_tier)
    }
}

/// minox requests throttle action on a node.
#[derive(Debug, Clone, PartialEq, Eq)]
pub struct ThrottleCommand {
    pub node: String,
    pub action: ThrottleAction,
}

/// What a throttle command asks of the node's stream.
#[derive(Debug, Clone, Copy, PartialEq, Eq, Structural)]
pub enum ThrottleAction {
    ReduceFps { target_fps: u32 },
    PauseStream,
    ResumeStream,
}

impl ThrottleCommand {
    /// A throttle command names its node; every action is acceptable.
    pub open spec fn valid(&self) -> bool {
        non_empty(self.node@)
    }
}

impl PayloadValidation for ThrottleCommand {
    fn is_valid(&self) -> (b: bool)
        ensures
            b == self.valid(),
    {
        is_non_empty(&self.node)
    }
}

/// Task descriptor for the scheduling pipeline.
#[derive(Debug, Clone)]
pub struct TaskDescriptor {
    pub task_id: Uuid,
    pub task_type: String,
    pub priority: TaskPriority,
    pub payload: JsonValue,
}

#[derive(Debug, Clone, Copy, PartialEq, Eq, Structural)]
pub enum TaskPriority {
    High,
    Normal,
    Low,
}

impl TaskDescriptor {
    /// A task descriptor names its task type; priority and payload are free.
    pub open spec fn valid(&self) -> bool {
        non_empty(self.task_type@)
    }
}

impl PayloadValidation for TaskDescriptor {
    fn is_valid(&self) -> (b: bool)
        ensures
            b == self.valid(),
    {
        is_non_empty(&self.task_type)
    }
}

/// Operator command from argox UI to the nexox supervisor.
#[derive(Debug, Clone)]
pub struct OperatorCommand {
    pub service: String,
    pub command: String,
    pub args: JsonValue,
}

impl OperatorCommand {
    /// An operator command names both the service and the command.
    pub open spec fn valid(&self) -> bool {
        non_empty(self.service@) && non_empty(self.command@)
    }
}

impl PayloadValidation for OperatorCommand {
    fn is_valid(&self) -> (b: bool)
        ensures
            b == self.valid(),
    {
        is_non_empty(&self.service) && is_non_empty(&self.command)
    }
}

/// A schedule decision is valid exactly when it names a target node and
/// its tier is one of 1, 2, 3, 4: tier 0 and tiers above 4 are refused.
pub proof fn lemma_schedule_decision_rule(d: ScheduleDecision)
    ensures
        d.valid() ==> d.target_node@.len() > 0,
        d.valid() ==> 1 <= d.target_tier && d.target_tier <= 4,
        d.target_node@.len() > 0 && 1 <= d.target_tier && d.target_tier <= 4 ==> d.valid(),
{
}

/// A tier route is valid exactly when it names a node and both tiers are
/// among 1 to 4.
pub proof fn lemma_tier_route_rule(r: TierRoute)
    ensures
        r.valid() ==> r.node@.len() > 0,
        r.valid() ==> 1 <= r.from_tier && r.from_tier <= 4,
        r.valid() ==> 1 <= r.to_tier && r.to_tier <= 4,
        r.node@.len() > 0 && 1 <= r.from_tier && r.from_tier <= 4 && 1 <= r.to_tier
            && r.to_tier <= 4 ==> r.valid(),
{
}

/// A throttle command is valid exactly when it names its node, whatever
/// its action.
pub proof fn lemma_throttle_command_rule(c: ThrottleCommand)
    ensures
        c.valid() <==> c.node@.len() > 0,
{
}

/// A task descriptor is valid exactly when it names its task type,
/// whatever its priority and payload.
pub proof fn lemma_task_descriptor_rule(t: TaskDescriptor)
    ensures
        t.valid() <==> t.task_type@.len() > 0,
{
}

/// An operator command is valid exactly when both the service and the
/// command are named.
pub proof fn lemma_operator_command_rule(c: OperatorCommand)
    ensures
        c.service@.len() == 0 ==> !c.valid(),
        c.command@.len() == 0 ==> !c.valid(),
        c.service@.len() > 0 && c.command@.len() > 0 ==> c.valid(),
{
}

} // verus!
