//! Remote-object errors, rights, resources, objects, routes and the grants that create them.
use vstd::prelude::*;
use crate::kernel::swarm::{NodeId, SwarmCredential, rotl5};

verus! {

/// Why a remote-object request is refused.
#[derive(Clone, Copy, Debug, PartialEq, Eq, Structural)]
pub enum RemoteError {
    TableFull,
    BadFd,
    BadGeneration,
    BadSessionGeneration,
    AuthFailed,
    BadRoute,
    PolicyDenied,
    PermissionDenied,
    Revoked,
    WrongResource,
}

/// Counts of refused remote-object requests by reason, each saturating.
#[derive(Clone, Copy, Debug, PartialEq, Eq, Structural)]
pub struct RemoteRejectionTelemetry {
    pub auth_failed: u16,
    pub bad_generation: u16,
    pub bad_route: u16,
    pub permission_denied: u16,
    pub revoked: u16,
    pub wrong_resource: u16,
    pub other: u16,
}

impl RemoteRejectionTelemetry {
    pub open spec fn zero() -> Self {
        RemoteRejectionTelemetry { auth_failed: 0, bad_generation: 0, bad_route: 0, permission_denied: 0, revoked: 0, wrong_resource: 0, other: 0 }
    }

    pub open spec fn recorded(self, error: RemoteError) -> Self {
        match error {
            RemoteError::AuthFailed => RemoteRejectionTelemetry { auth_failed: self.auth_failed.saturating_add(1), ..self },
            RemoteError::BadGeneration | RemoteError::BadSessionGeneration =>
                RemoteRejectionTelemetry { bad_generation: self.bad_generation.saturating_add(1), ..self },
            RemoteError::BadRoute => RemoteRejectionTelemetry { bad_route: self.bad_route.saturating_add(1), ..self },
            RemoteError::PolicyDenied | RemoteError::PermissionDenied =>
                RemoteRejectionTelemetry { permission_denied: self.permission_denied.saturating_add(1), ..self },
            RemoteError::Revoked => RemoteRejectionTelemetry { revoked: self.revoked.saturating_add(1), ..self },
            RemoteError::WrongResource => RemoteRejectionTelemetry { wrong_resource: self.wrong_resource.saturating_add(1), ..self },
            _ => RemoteRejectionTelemetry { other: self.other.saturating_add(1), ..self },
        }
    }

    pub open spec fn spec_total(self) -> u16 {
        self.auth_failed.saturating_add(self.bad_generation).saturating_add(self.bad_route)
            .saturating_add(self.permission_denied).saturating_add(self.revoked)
            .saturating_add(self.wrong_resource).saturating_add(self.other)
    }

    pub fn new() -> (out: Self)
        ensures
            out == Self::zero(),
    {
        RemoteRejectionTelemetry { auth_failed: 0, bad_generation: 0, bad_route: 0, permission_denied: 0, revoked: 0, wrong_resource: 0, other: 0 }
    }

    pub fn auth_failed(self) -> (out: u16)
        ensures
            out == self.auth_failed,
    {
        self.auth_failed
    }

    pub fn bad_generation(self) -> (out: u16)
        ensures
            out == self.bad_generation,
    {
        self.bad_generation
    }

    pub fn bad_route(self) -> (out: u16)
        ensures
            out == self.bad_route,
    {
        self.bad_route
    }

    pub fn permission_denied(self) -> (out: u16)
        ensures
            out == self.permission_denied,
    {
        self.permission_denied
    }

    pub fn revoked(self) -> (out: u16)
        ensures
            out == self.revoked,
    {
        self.revoked
    }

    pub fn wrong_resource(self) -> (out: u16)
        ensures
            out == self.wrong_resource,
    {
        self.wrong_resource
    }

    pub fn other(self) -> (out: u16)
        ensures
            out == self.other,
    {
        self.other
    }

    pub fn total(self) -> (out: u16)
        ensures
            out == self.spec_total(),
    {
        self.auth_failed.saturating_add(self.bad_generation).saturating_add(self.bad_route)
            .saturating_add(self.permission_denied).saturating_add(self.revoked)
            .saturating_add(self.wrong_resource).saturating_add(self.other)
    }

    pub(crate) fn record(&mut self, error: RemoteError)
        ensures
            *final(self) == old(self).recorded(error),
    {
        match error {
            RemoteError::AuthFailed => self.auth_failed = self.auth_failed.saturating_add(1),
            RemoteError::BadGeneration | RemoteError::BadSessionGeneration =>
                self.bad_generation = self.bad_generation.saturating_add(1),
            RemoteError::BadRoute => self.bad_route = self.bad_route.saturating_add(1),
            RemoteError::PolicyDenied | RemoteError::PermissionDenied =>
                self.permission_denied = self.permission_denied.saturating_add(1),
            RemoteError::Revoked => self.revoked = self.revoked.saturating_add(1),
            RemoteError::WrongResource => self.wrong_resource = self.wrong_resource.saturating_add(1),
            _ => self.other = self.other.saturating_add(1),
        }
    }
}

impl Default for RemoteRejectionTelemetry {
    fn default() -> (out: Self)
        ensures
            out == Self::zero(),
    {
        Self::new()
    }
}

pub open spec fn remote_telemetry_after<T>(t: RemoteRejectionTelemetry, r: Result<T, RemoteError>) -> RemoteRejectionTelemetry {
    match r {
        Ok(_) => t,
        Err(e) => t.recorded(e),
    }
}

/// What a remote fd may do.
#[derive(Clone, Copy, Debug, PartialEq, Eq, Structural)]
pub enum RemoteRights {
    Read,
    Write,
    ReadWrite,
}

impl RemoteRights {
    pub open spec fn spec_bits(self) -> u8 {
        match self {
            RemoteRights::Read => 1,
            RemoteRights::Write => 2,
            RemoteRights::ReadWrite => 3,
        }
    }

    /// Whether these rights include `required`.
    pub open spec fn spec_allows(self, required: Self) -> bool {
        match required {
            RemoteRights::Read => self is Read || self is ReadWrite,
            RemoteRights::Write => self is Write || self is ReadWrite,
            RemoteRights::ReadWrite => self is ReadWrite,
        }
    }

    fn bits(self) -> (out: u8)
        ensures
            out == self.spec_bits(),
    {
        match self {
            RemoteRights::Read => 1,
            RemoteRights::Write => 2,
            RemoteRights::ReadWrite => 3,
        }
    }

    pub fn allows(self, required: Self) -> (out: bool)
        ensures
            out == self.spec_allows(required),
    {
        let have = self.bits();
        let need = required.bits();
        let r = have & need == need;
        assert(r == self.spec_allows(required)) by {
            assert(1u8 & 1u8 == 1u8 && 2u8 & 1u8 == 0u8 && 3u8 & 1u8 == 1u8
                && 1u8 & 2u8 == 0u8 && 2u8 & 2u8 == 2u8 && 3u8 & 2u8 == 2u8
                && 1u8 & 3u8 == 1u8 && 2u8 & 3u8 == 2u8 && 3u8 & 3u8 == 3u8) by (bit_vector);
        }
        r
    }
}

/// What a remote object stands for.
#[derive(Clone, Copy, Debug, PartialEq, Eq, Structural)]
pub enum RemoteResource {
    Sensor,
    Actuator,
    Management,
    Telemetry,
}

impl RemoteResource {
    pub open spec fn spec_code(self) -> u8 {
        match self {
            RemoteResource::Sensor => 1,
            RemoteResource::Actuator => 2,
            RemoteResource::Management => 3,
            RemoteResource::Telemetry => 4,
        }
    }

    fn code(self) -> (out: u8)
        ensures
            out == self.spec_code(),
    {
        match self {
            RemoteResource::Sensor => 1,
            RemoteResource::Actuator => 2,
            RemoteResource::Management => 3,
            RemoteResource::Telemetry => 4,
        }
    }
}

/// A materialized remote fd.
#[derive(Clone, Copy, Debug, PartialEq, Eq, Structural)]
pub struct RemoteObject {
    pub fd: u8,
    pub generation: u16,
    pub target_node: NodeId,
    pub target_role: u8,
    pub lane: u8,
    pub route: u8,
    pub session_generation: u16,
    pub policy_slot: u8,
    pub rights: RemoteRights,
    pub resource: RemoteResource,
    pub revoked: bool,
}

/// Where a remote fd leads: node, role, lane, route label, session and policy slot.
#[derive(Clone, Copy, Debug, PartialEq, Eq, Structural)]
pub struct RemoteRoute {
    pub target_node: NodeId,
    pub target_role: u8,
    pub lane: u8,
    pub route: u8,
    pub session_generation: u16,
    pub policy_slot: u8,
}

impl RemoteRoute {
    pub fn new(target_node: NodeId, target_role: u8, lane: u8, route: u8, session_generation: u16) -> (out: Self)
        ensures
            out == (RemoteRoute { target_node, target_role, lane, route, session_generation, policy_slot: 0 }),
    {
        Self::with_policy(target_node, target_role, lane, route, session_generation, 0)
    }

    pub fn with_policy(target_node: NodeId, target_role: u8, lane: u8, route: u8, session_generation: u16, policy_slot: u8) -> (out: Self)
        ensures
            out == (RemoteRoute { target_node, target_role, lane, route, session_generation, policy_slot }),
    {
        RemoteRoute { target_node, target_role, lane, route, session_generation, policy_slot }
    }

    pub fn target_node(&self) -> (out: NodeId)
        ensures
            out == self.target_node,
    {
        self.target_node
    }

    pub fn target_role(&self) -> (out: u8)
        ensures
            out == self.target_role,
    {
        self.target_role
    }

    pub fn lane(&self) -> (out: u8)
        ensures
            out == self.lane,
    {
        self.lane
    }

    pub fn route(&self) -> (out: u8)
        ensures
            out == self.route,
    {
        self.route
    }

    pub fn session_generation(&self) -> (out: u16)
        ensures
            out == self.session_generation,
    {
        self.session_generation
    }

    pub fn policy_slot(&self) -> (out: u8)
        ensures
            out == self.policy_slot,
    {
        self.policy_slot
    }
}

impl RemoteObject {
    pub fn fd(&self) -> (out: u8)
        ensures
            out == self.fd,
    {
        self.fd
    }

    pub fn generation(&self) -> (out: u16)
        ensures
            out == self.generation,
    {
        self.generation
    }

    pub fn target_node(&self) -> (out: NodeId)
        ensures
            out == self.target_node,
    {
        self.target_node
    }

    pub fn target_role(&self) -> (out: u8)
        ensures
            out == self.target_role,
    {
        self.target_role
    }

    pub fn lane(&self) -> (out: u8)
        ensures
            out == self.lane,
    {
        self.lane
    }

    pub fn route(&self) -> (out: u8)
        ensures
            out == self.route,
    {
        self.route
    }

    pub fn session_generation(&self) -> (out: u16)
        ensures
            out == self.session_generation,
    {
        self.session_generation
    }

    pub fn rights(&self) -> (out: RemoteRights)
        ensures
            out == self.rights,
    {
        self.rights
    }

    pub fn resource(&self) -> (out: RemoteResource)
        ensures
            out == self.resource,
    {
        self.resource
    }

    pub fn policy_slot(&self) -> (out: u8)
        ensures
            out == self.policy_slot,
    {
        self.policy_slot
    }

    pub open spec fn spec_route_key(&self) -> RemoteRoute {
        RemoteRoute {
            target_node: self.target_node,
            target_role: self.target_role,
            lane: self.lane,
            route: self.route,
            session_generation: self.session_generation,
            policy_slot: self.policy_slot,
        }
    }

    pub fn route_key(&self) -> (out: RemoteRoute)
        ensures
            out == self.spec_route_key(),
    {
        RemoteRoute::with_policy(self.target_node, self.target_role, self.lane, self.route, self.session_generation, self.policy_slot)
    }

    pub fn is_revoked(&self) -> (out: bool)
        ensures
            out == self.revoked,
    {
        self.revoked
    }
}

/// The tag a remote grant carries for these fields under `key`.
pub open spec fn spec_remote_tag(node_id: NodeId, key: u32, route: RemoteRoute, rights: RemoteRights, resource: RemoteResource) -> u32 {
    let a0 = key ^ 0x5246_4443u32;
    let a1 = rotl5(a0) ^ (node_id.0 as u32);
    let a2 = rotl5(a1) ^ (route.target_node.0 as u32);
    let a3 = rotl5(a2) ^ (route.target_role as u32);
    let a4 = rotl5(a3) ^ (route.lane as u32);
    let a5 = rotl5(a4) ^ (route.route as u32);
    let a6 = rotl5(a5) ^ (route.session_generation as u32);
    let a7 = rotl5(a6) ^ (route.policy_slot as u32);
    let a8 = rotl5(a7) ^ (rights.spec_bits() as u32);
    rotl5(a8) ^ (resource.spec_code() as u32)
}

/// A grant to open a remote fd toward a route.
#[derive(Clone, Copy, Debug, PartialEq, Eq, Structural)]
pub struct RemoteGrant {
    pub node_id: NodeId,
    pub target_node: NodeId,
    pub target_role: u8,
    pub lane: u8,
    pub route: u8,
    pub session_generation: u16,
    pub policy_slot: u8,
    pub rights: RemoteRights,
    pub resource: RemoteResource,
    pub tag: u32,
}

impl RemoteGrant {
    pub open spec fn spec_route_key(&self) -> RemoteRoute {
        RemoteRoute {
            target_node: self.target_node,
            target_role: self.target_role,
            lane: self.lane,
            route: self.route,
            session_generation: self.session_generation,
            policy_slot: self.policy_slot,
        }
    }

    pub open spec fn spec_new(node_id: NodeId, credential: SwarmCredential, route: RemoteRoute, rights: RemoteRights, resource: RemoteResource) -> Self {
        RemoteGrant {
            node_id,
            target_node: route.target_node,
            target_role: route.target_role,
            lane: route.lane,
            route: route.route,
            session_generation: route.session_generation,
            policy_slot: route.policy_slot,
            rights,
            resource,
            tag: spec_remote_tag(node_id, credential.key, route, rights, resource),
        }
    }
}

/// Checking a grant against the node, key and session a request names.
pub open spec fn spec_remote_grant_verify(g: RemoteGrant, node_id: NodeId, credential: SwarmCredential, session_generation: u16) -> Result<(), RemoteError> {
    if g.session_generation != session_generation {
        Err(RemoteError::BadSessionGeneration)
    } else if g.node_id != node_id {
        Err(RemoteError::AuthFailed)
    } else if g.tag != spec_remote_tag(g.node_id, credential.key, g.spec_route_key(), g.rights, g.resource) {
        Err(RemoteError::AuthFailed)
    } else {
        Ok(())
    }
}

fn rotate5(x: u32) -> (out: u32)
    ensures
        out == rotl5(x),
{
    (x << 5u32) | (x >> 27u32)
}

impl RemoteGrant {
    pub fn new(node_id: NodeId, credential: SwarmCredential, route: RemoteRoute, rights: RemoteRights, resource: RemoteResource) -> (out: Self)
        ensures
            out == Self::spec_new(node_id, credential, route, rights, resource),
    {
        RemoteGrant {
            node_id,
            target_node: route.target_node,
            target_role: route.target_role,
            lane: route.lane,
            route: route.route,
            session_generation: route.session_generation,
            policy_slot: route.policy_slot,
            rights,
            resource,
            tag: Self::compute_tag(node_id, credential, route, rights, resource),
        }
    }

    pub fn route_key(&self) -> (out: RemoteRoute)
        ensures
            out == self.spec_route_key(),
    {
        RemoteRoute::with_policy(self.target_node, self.target_role, self.lane, self.route, self.session_generation, self.policy_slot)
    }

    pub(crate) fn verify(self, node_id: NodeId, credential: SwarmCredential, session_generation: u16) -> (out: Result<(), RemoteError>)
        ensures
            out == spec_remote_grant_verify(self, node_id, credential, session_generation),
    {
        if self.session_generation != session_generation {
            return Err(RemoteError::BadSessionGeneration);
        }
        if self.node_id != node_id {
            return Err(RemoteError::AuthFailed);
        }
        let expected = Self::compute_tag(self.node_id, credential, self.route_key(), self.rights, self.resource);
        if self.tag != expected {
            return Err(RemoteError::AuthFailed);
        }
        Ok(())
    }

    fn compute_tag(node_id: NodeId, credential: SwarmCredential, route: RemoteRoute, rights: RemoteRights, resource: RemoteResource) -> (out: u32)
        ensures
            out == spec_remote_tag(node_id, credential.key, route, rights, resource),
    {
        let mut acc = credential.key ^ 0x5246_4443u32;
        acc = rotate5(acc) ^ (node_id.0 as u32);
        acc = rotate5(acc) ^ (route.target_node.0 as u32);
        acc = rotate5(acc) ^ (route.target_role as u32);
        acc = rotate5(acc) ^ (route.lane as u32);
        acc = rotate5(acc) ^ (route.route as u32);
        acc = rotate5(acc) ^ (route.session_generation as u32);
        acc = rotate5(acc) ^ (route.policy_slot as u32);
        acc = rotate5(acc) ^ (rights.bits() as u32);
        acc = rotate5(acc) ^ (resource.code() as u32);
        acc
    }
}

/// A remote control fact: a grant to open an fd, or the revocation of one.
#[derive(Clone, Copy, Debug, PartialEq, Eq, Structural)]
pub enum RemoteControl {
    CapGrant(RemoteGrant),
    CapRevoke { fd: u8 },
}

impl RemoteControl {
    pub fn cap_grant(node_id: NodeId, credential: SwarmCredential, route: RemoteRoute, rights: RemoteRights, resource: RemoteResource) -> (out: Self)
        ensures
            out == RemoteControl::CapGrant(RemoteGrant::spec_new(node_id, credential, route, rights, resource)),
    {
        RemoteControl::CapGrant(RemoteGrant::new(node_id, credential, route, rights, resource))
    }

    pub fn cap_grant_remote(node_id: NodeId, credential: SwarmCredential, route: RemoteRoute, rights: RemoteRights, resource: RemoteResource) -> (out: Self)
        ensures
            out == RemoteControl::CapGrant(RemoteGrant::spec_new(node_id, credential, route, rights, resource)),
    {
        Self::cap_grant(node_id, credential, route, rights, resource)
    }

    pub fn cap_grant_management(node_id: NodeId, credential: SwarmCredential, route: RemoteRoute, rights: RemoteRights) -> (out: Self)
        ensures
            out == RemoteControl::CapGrant(RemoteGrant::spec_new(node_id, credential, route, rights, RemoteResource::Management)),
    {
        Self::cap_grant_remote(node_id, credential, route, rights, RemoteResource::Management)
    }

    pub fn cap_grant_telemetry(node_id: NodeId, credential: SwarmCredential, route: RemoteRoute, rights: RemoteRights) -> (out: Self)
        ensures
            out == RemoteControl::CapGrant(RemoteGrant::spec_new(node_id, credential, route, rights, RemoteResource::Telemetry)),
    {
        Self::cap_grant_remote(node_id, credential, route, rights, RemoteResource::Telemetry)
    }
}

/// A grant made under a key verifies for its node and session under that key; another session is refused.
pub proof fn lemma_remote_grant_verifies_for_what_it_names(node_id: NodeId, credential: SwarmCredential, route: RemoteRoute, rights: RemoteRights, resource: RemoteResource, other_generation: u16)
    requires
        other_generation != route.session_generation,
    ensures
        spec_remote_grant_verify(RemoteGrant::spec_new(node_id, credential, route, rights, resource), node_id, credential, route.session_generation)
            == Ok::<(), RemoteError>(()),
        spec_remote_grant_verify(RemoteGrant::spec_new(node_id, credential, route, rights, resource), node_id, credential, other_generation)
            == Err::<(), RemoteError>(RemoteError::BadSessionGeneration),
{
    let g = RemoteGrant::spec_new(node_id, credential, route, rights, resource);
    assert(g.spec_route_key() == route);
}

} // verus!
