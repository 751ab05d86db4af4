//! Node resource state types.
//!
//! Published on `nexox/up/state/<node>/{gpu,cpu,ram,thermal,battery,network}`.
//! Consumed by minox (scheduler input) and argox (dashboard).
use vstd::prelude::*;

use crate::json::JsonValue;
use crate::text::{is_non_empty, non_empty};
use crate::validate::PayloadValidation;

verus! {

/// Which resource a state sample represents.
#[derive(Debug, Clone, Copy, PartialEq, Eq, Structural)]
pub enum NodeResource {
    Gpu,
    Cpu,
    Ram,
    Thermal,
    Battery,
    Network,
    /// Per-display capture + encoder state (see `StreamState`), published on
    /// `nexox/up/state/<node>/stream`.
    Stream,
    /// Node identity / deployment metadata (see `NodeIdentity`), published
    /// on `nexox/up/state/<node>/identity` at low frequency.
    Identity,
}

#[derive(Debug, Clone, PartialEq, Eq)]
pub struct RamState {
    pub used_mb: u32,
    pub total_mb: u32,
    pub swap_used_mb: u32,
}

impl RamState {
    /// Some memory exists, and no more of it is used than there is.
    pub open spec fn valid(&self) -> bool {
        self.total_mb > 0 && self.used_mb <= self.total_mb
    }
}

impl PayloadValidation for RamState {
    fn is_valid(&self) -> (b: bool)
        ensures
            b == self.valid(),
    {
        self.total_mb > 0 && self.used_mb <= self.total_mb
    }
}

#[derive(Debug, Clone, PartialEq, Eq)]
pub struct NetworkAddressInfo {
    /// LAN/zenoh bind IP: the stable IP the leaf binds the router to
    /// (the `--ip` deploy argument or the detected ethernet IP); the
    /// dashboard shows it first as the internal IP.
    pub bind_ip: Option<String>,
    pub internal_ip: Option<String>,
    pub lan_ip: Option<String>,
    pub public_ip: Option<String>,
    pub vpn_ip: Option<String>,
    pub vpn_context: Option<String>,
    pub nic_candidates: Vec<NicCandidate>,
}

impl NetworkAddressInfo {
    /// At least one of the internal, LAN, public and VPN addresses is
    /// present (the bind address does not count).
    pub open spec fn valid(&self) -> bool {
        ||| self.internal_ip is Some
        ||| self.lan_ip is Some
        ||| self.public_ip is Some
        ||| self.vpn_ip is Some
    }
}

impl PayloadValidation for NetworkAddressInfo {
    fn is_valid(&self) -> (b: bool)
        ensures
            b == self.valid(),
    {
        self.internal_ip.is_some() || self.lan_ip.is_some() || self.public_ip.is_some()
            || self.vpn_ip.is_some()
    }
}

#[derive(Debug, Clone, PartialEq, Eq)]
pub struct NicCandidate {
    pub name: String,
    pub ip: String,
    pub is_wired: bool,
}

/// Node identity / deployment metadata. Published on
/// `nexox/up/state/<node>/identity` at low cadence (every 5 min).
#[derive(Debug, Clone, PartialEq, Eq)]
pub struct NodeIdentity {
    /// Short host name.
    pub hostname: String,
    /// Short git commit hash of the build; `"unknown"` on local dev builds.
    pub git_commit: String,
    /// Git branch name at build time.
    pub git_branch: String,
    /// Build timestamp (RFC 3339 UTC, e.g. `2026-04-25T11:23:45Z`).
    pub build_time: String,
    /// LAN IP the node binds to; differs from `public_ip` behind NAT.
    pub local_ip: String,
    /// External IP as last observed; `None` when the lookup failed.
    pub public_ip: Option<String>,
    /// RFC 3339 UTC of the most recent successful public IP lookup.
    pub public_ip_observed_at: Option<String>,
}

impl NodeIdentity {
    /// An identity names the host, the commit and the build time.
    pub open spec fn valid(&self) -> bool {
        non_empty(self.hostname@) && non_empty(self.git_commit@) && non_empty(self.build_time@)
    }
}

impl PayloadValidation for NodeIdentity {
    fn is_valid(&self) -> (b: bool)
        ensures
            b == self.valid(),
    {
        is_non_empty(&self.hostname) && is_non_empty(&self.git_commit) && is_non_empty(
            &self.build_time,
        )
    }
}

/// Generic resource sample wrapper (for dynamic dispatch).
#[derive(Debug, Clone)]
pub struct NodeResourceSample {
    pub resource: NodeResource,
    pub data: JsonValue,
}

impl NodeResourceSample {
    /// A sample carries some data: anything but JSON `null`.
    pub open spec fn valid(&self) -> bool {
        !(self.data is Null)
    }
}

impl PayloadValidation for NodeResourceSample {
    fn is_valid(&self) -> (b: bool)
        ensures
            b == self.valid(),
    {
        !self.data.is_null()
    }
}

/// RAM state is valid exactly when some memory exists and the used amount
/// does not exceed it; swap usage is free.
pub proof fn lemma_ram_state_rule(r: RamState)
    ensures
        r.total_mb == 0 ==> !r.valid(),
        r.used_mb > r.total_mb ==> !r.valid(),
        0 < r.total_mb && r.used_mb <= r.total_mb ==> r.valid(),
{
}

/// Address info is valid as soon as any one of the internal, LAN, public
/// and VPN addresses is present, and invalid when all four are absent,
/// whatever the bind address and the NIC candidates.
pub proof fn lemma_network_address_rule(n: NetworkAddressInfo)
    ensures
        n.internal_ip is Some ==> n.valid(),
        n.lan_ip is Some ==> n.valid(),
        n.public_ip is Some ==> n.valid(),
        n.vpn_ip is Some ==> n.valid(),
        n.internal_ip is None && n.lan_ip is None && n.public_ip is None && n.vpn_ip is None
            ==> !n.valid(),
{
}

/// An identity is valid exactly when the host name, the commit and the
/// build time are all present; branch and addresses are free.
pub proof fn lemma_node_identity_rule(i: NodeIdentity)
    ensures
        i.hostname@.len() == 0 ==> !i.valid(),
        i.git_commit@.len() == 0 ==> !i.valid(),
        i.build_time@.len() == 0 ==> !i.valid(),
        i.hostname@.len() > 0 && i.git_commit@.len() > 0 && i.build_time@.len() > 0 ==> i.valid(),
{
}

/// A resource sample is valid exactly when its data is not JSON `null`.
pub proof fn lemma_resource_sample_rule(s: NodeResourceSample)
    ensures
        s.data is Null ==> !s.valid(),
        !(s.data is Null) ==> s.valid(),
{
}

} // verus!
