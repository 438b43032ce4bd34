//! Network errors, rights, objects, routes and the grants that create them.
use vstd::prelude::*;
use crate::kernel::swarm::{NodeId, SwarmCredential, rotl5};

verus! {

pub const NET_DATAGRAM_PAYLOAD_CAPACITY: usize = 48;
pub const NET_STREAM_PAYLOAD_CAPACITY: usize = 48;
pub const NET_STREAM_FLAG_FIN: u8 = 1;

/// Why a network request is refused.
#[derive(Clone, Copy, Debug, PartialEq, Eq, Structural)]
pub enum NetworkError {
    TableFull,
    BadFd,
    BadGeneration,
    BadSessionGeneration,
    AuthFailed,
    BadRoute,
    PolicyDenied,
    PermissionDenied,
    PayloadTooLarge,
    BadFlags,
    Revoked,
    WrongProtocol,
}

/// Counts of refused network requests by reason, each saturating.
#[derive(Clone, Copy, Debug, PartialEq, Eq, Structural)]
pub struct NetworkObjectRejectionTelemetry {
    pub auth_failed: u16,
    pub bad_generation: u16,
    pub bad_route: u16,
    pub permission_denied: u16,
    pub revoked: u16,
    pub wrong_protocol: u16,
    pub other: u16,
}

impl NetworkObjectRejectionTelemetry {
    pub open spec fn zero() -> Self {
        NetworkObjectRejectionTelemetry { auth_failed: 0, bad_generation: 0, bad_route: 0, permission_denied: 0, revoked: 0, wrong_protocol: 0, other: 0 }
    }

    pub open spec fn recorded(self, error: NetworkError) -> Self {
        match error {
            NetworkError::AuthFailed => NetworkObjectRejectionTelemetry { auth_failed: self.auth_failed.saturating_add(1), ..self },
            NetworkError::BadGeneration | NetworkError::BadSessionGeneration =>
                NetworkObjectRejectionTelemetry { bad_generation: self.bad_generation.saturating_add(1), ..self },
            NetworkError::BadRoute => NetworkObjectRejectionTelemetry { bad_route: self.bad_route.saturating_add(1), ..self },
            NetworkError::PolicyDenied | NetworkError::PermissionDenied =>
                NetworkObjectRejectionTelemetry { permission_denied: self.permission_denied.saturating_add(1), ..self },
            NetworkError::Revoked => NetworkObjectRejectionTelemetry { revoked: self.revoked.saturating_add(1), ..self },
            NetworkError::WrongProtocol => NetworkObjectRejectionTelemetry { wrong_protocol: self.wrong_protocol.saturating_add(1), ..self },
            _ => NetworkObjectRejectionTelemetry { other: self.other.saturating_add(1), ..self },
        }
    }

    pub open spec fn spec_total(self) -> u16 {
        self.auth_failed.saturating_add(self.bad_generation).saturating_add(self.bad_route)
            .saturating_add(self.permission_denied).saturating_add(self.revoked)
            .saturating_add(self.wrong_protocol).saturating_add(self.other)
    }

    pub fn new() -> (out: Self)
        ensures
            out == Self::zero(),
    {
        NetworkObjectRejectionTelemetry { auth_failed: 0, bad_generation: 0, bad_route: 0, permission_denied: 0, revoked: 0, wrong_protocol: 0, other: 0 }
    }

    pub fn auth_failed(self) -> (out: u16)
        ensures
            out == self.auth_failed,
    {
        self.auth_failed
    }

    pub fn bad_generation(self) -> (out: u16)
        ensures
            out == self.bad_generation,
    {
        self.bad_generation
    }

    pub fn bad_route(self) -> (out: u16)
        ensures
            out == self.bad_route,
    {
        self.bad_route
    }

    pub fn permission_denied(self) -> (out: u16)
        ensures
            out == self.permission_denied,
    {
        self.permission_denied
    }

    pub fn revoked(self) -> (out: u16)
        ensures
            out == self.revoked,
    {
        self.revoked
    }

    pub fn wrong_protocol(self) -> (out: u16)
        ensures
            out == self.wrong_protocol,
    {
        self.wrong_protocol
    }

    pub fn other(self) -> (out: u16)
        ensures
            out == self.other,
    {
        self.other
    }

    pub fn total(self) -> (out: u16)
        ensures
            out == self.spec_total(),
    {
        self.auth_failed.saturating_add(self.bad_generation).saturating_add(self.bad_route)
            .saturating_add(self.permission_denied).saturating_add(self.revoked)
            .saturating_add(self.wrong_protocol).saturating_add(self.other)
    }

    pub(crate) fn record(&mut self, error: NetworkError)
        ensures
            *final(self) == old(self).recorded(error),
    {
        match error {
            NetworkError::AuthFailed => self.auth_failed = self.auth_failed.saturating_add(1),
            NetworkError::BadGeneration | NetworkError::BadSessionGeneration =>
                self.bad_generation = self.bad_generation.saturating_add(1),
            NetworkError::BadRoute => self.bad_route = self.bad_route.saturating_add(1),
            NetworkError::PolicyDenied | NetworkError::PermissionDenied =>
                self.permission_denied = self.permission_denied.saturating_add(1),
            NetworkError::Revoked => self.revoked = self.revoked.saturating_add(1),
            NetworkError::WrongProtocol => self.wrong_protocol = self.wrong_protocol.saturating_add(1),
            _ => self.other = self.other.saturating_add(1),
        }
    }
}

impl Default for NetworkObjectRejectionTelemetry {
    fn default() -> (out: Self)
        ensures
            out == Self::zero(),
    {
        Self::new()
    }
}

pub open spec fn network_telemetry_after<T>(t: NetworkObjectRejectionTelemetry, r: Result<T, NetworkError>) -> NetworkObjectRejectionTelemetry {
    match r {
        Ok(_) => t,
        Err(e) => t.recorded(e),
    }
}

/// What a network fd may do.
#[derive(Clone, Copy, Debug, PartialEq, Eq, Structural)]
pub enum NetworkRights {
    Receive,
    Send,
    SendReceive,
}

impl NetworkRights {
    pub open spec fn spec_bits(self) -> u8 {
        match self {
            NetworkRights::Receive => 1,
            NetworkRights::Send => 2,
            NetworkRights::SendReceive => 3,
        }
    }

    /// Whether these rights include `required`.
    pub open spec fn spec_allows(self, required: Self) -> bool {
        match required {
            NetworkRights::Receive => self is Receive || self is SendReceive,
            NetworkRights::Send => self is Send || self is SendReceive,
            NetworkRights::SendReceive => self is SendReceive,
        }
    }

    fn bits(self) -> (out: u8)
        ensures
            out == self.spec_bits(),
    {
        match self {
            NetworkRights::Receive => 1,
            NetworkRights::Send => 2,
            NetworkRights::SendReceive => 3,
        }
    }

    pub fn allows(self, required: Self) -> (out: bool)
        ensures
            out == self.spec_allows(required),
    {
        let have = self.bits();
        let need = required.bits();
        let r = have & need == need;
        assert(r == self.spec_allows(required)) by {
            assert(1u8 & 1u8 == 1u8 && 2u8 & 1u8 == 0u8 && 3u8 & 1u8 == 1u8
                && 1u8 & 2u8 == 0u8 && 2u8 & 2u8 == 2u8 && 3u8 & 2u8 == 2u8
                && 1u8 & 3u8 == 1u8 && 2u8 & 3u8 == 2u8 && 3u8 & 3u8 == 3u8) by (bit_vector);
        }
        r
    }
}

/// Whether a network object carries datagrams or a stream.
#[derive(Clone, Copy, Debug, PartialEq, Eq, Structural)]
pub enum NetworkRoleProtocol {
    Datagram,
    Stream,
}

impl NetworkRoleProtocol {
    pub open spec fn spec_code(self) -> u8 {
        match self {
            NetworkRoleProtocol::Datagram => 1,
            NetworkRoleProtocol::Stream => 2,
        }
    }

    fn code(self) -> (out: u8)
        ensures
            out == self.spec_code(),
    {
        match self {
            NetworkRoleProtocol::Datagram => 1,
            NetworkRoleProtocol::Stream => 2,
        }
    }
}

/// A materialized network fd.
#[derive(Clone, Copy, Debug, PartialEq, Eq, Structural)]
pub struct NetworkObject {
    pub fd: u8,
    pub generation: u16,
    pub target_node: NodeId,
    pub lane: u8,
    pub route: u8,
    pub session_generation: u16,
    pub policy_slot: u8,
    pub rights: NetworkRights,
    pub protocol: NetworkRoleProtocol,
    pub revoked: bool,
}

/// Where a network fd leads: node, lane, route label, session and policy slot.
#[derive(Clone, Copy, Debug, PartialEq, Eq, Structural)]
pub struct NetworkRoute {
    pub target_node: NodeId,
    pub lane: u8,
    pub route: u8,
    pub session_generation: u16,
    pub policy_slot: u8,
}

impl NetworkRoute {
    pub fn new(target_node: NodeId, lane: u8, route: u8, session_generation: u16) -> (out: Self)
        ensures
            out == (NetworkRoute { target_node, lane, route, session_generation, policy_slot: 0 }),
    {
        Self::with_policy(target_node, lane, route, session_generation, 0)
    }

    pub fn with_policy(target_node: NodeId, lane: u8, route: u8, session_generation: u16, policy_slot: u8) -> (out: Self)
        ensures
            out == (NetworkRoute { target_node, lane, route, session_generation, policy_slot }),
    {
        NetworkRoute { target_node, lane, route, session_generation, policy_slot }
    }

    pub fn target_node(&self) -> (out: NodeId)
        ensures
            out == self.target_node,
    {
        self.target_node
    }

    pub fn lane(&self) -> (out: u8)
        ensures
            out == self.lane,
    {
        self.lane
    }

    pub fn route(&self) -> (out: u8)
        ensures
            out == self.route,
    {
        self.route
    }

    pub fn session_generation(&self) -> (out: u16)
        ensures
            out == self.session_generation,
    {
        self.session_generation
    }

    pub fn policy_slot(&self) -> (out: u8)
        ensures
            out == self.policy_slot,
    {
        self.policy_slot
    }
}

impl NetworkObject {
    pub fn fd(&self) -> (out: u8)
        ensures
            out == self.fd,
    {
        self.fd
    }

    pub fn generation(&self) -> (out: u16)
        ensures
            out == self.generation,
    {
        self.generation
    }

    pub fn target_node(&self) -> (out: NodeId)
        ensures
            out == self.target_node,
    {
        self.target_node
    }

    pub fn lane(&self) -> (out: u8)
        ensures
            out == self.lane,
    {
        self.lane
    }

    pub fn route(&self) -> (out: u8)
        ensures
            out == self.route,
    {
        self.route
    }

    pub fn session_generation(&self) -> (out: u16)
        ensures
            out == self.session_generation,
    {
        self.session_generation
    }

    pub fn rights(&self) -> (out: NetworkRights)
        ensures
            out == self.rights,
    {
        self.rights
    }

    pub fn protocol(&self) -> (out: NetworkRoleProtocol)
        ensures
            out == self.protocol,
    {
        self.protocol
    }

    pub fn policy_slot(&self) -> (out: u8)
        ensures
            out == self.policy_slot,
    {
        self.policy_slot
    }

    pub open spec fn spec_route_key(&self) -> NetworkRoute {
        NetworkRoute {
            target_node: self.target_node,
            lane: self.lane,
            route: self.route,
            session_generation: self.session_generation,
            policy_slot: self.policy_slot,
        }
    }

    pub fn route_key(&self) -> (out: NetworkRoute)
        ensures
            out == self.spec_route_key(),
    {
        NetworkRoute::with_policy(self.target_node, self.lane, self.route, self.session_generation, self.policy_slot)
    }

    pub fn is_revoked(&self) -> (out: bool)
        ensures
            out == self.revoked,
    {
        self.revoked
    }
}

/// The tag a network grant carries for these fields under `key`.
pub open spec fn spec_network_tag(
    node_id: NodeId,
    key: u32,
    target_node: NodeId,
    lane: u8,
    route: u8,
    session_generation: u16,
    policy_slot: u8,
    rights: NetworkRights,
    protocol: NetworkRoleProtocol,
) -> u32 {
    let a0 = key ^ 0x4e46_4443u32;
    let a1 = rotl5(a0) ^ (node_id.0 as u32);
    let a2 = rotl5(a1) ^ (target_node.0 as u32);
    let a3 = rotl5(a2) ^ (lane as u32);
    let a4 = rotl5(a3) ^ (route as u32);
    let a5 = rotl5(a4) ^ (session_generation as u32);
    let a6 = rotl5(a5) ^ (policy_slot as u32);
    let a7 = rotl5(a6) ^ (rights.spec_bits() as u32);
    rotl5(a7) ^ (protocol.spec_code() as u32)
}

/// A grant to open a network fd toward a route.
#[derive(Clone, Copy, Debug, PartialEq, Eq, Structural)]
pub struct NetworkGrant {
    pub node_id: NodeId,
    pub target_node: NodeId,
    pub lane: u8,
    pub route: u8,
    pub session_generation: u16,
    pub policy_slot: u8,
    pub rights: NetworkRights,
    pub protocol: NetworkRoleProtocol,
    pub tag: u32,
}

/// Checking a grant against the node, key and session a request names.
pub open spec fn spec_network_grant_verify(g: NetworkGrant, node_id: NodeId, credential: SwarmCredential, session_generation: u16) -> Result<(), NetworkError> {
    if g.session_generation != session_generation {
        Err(NetworkError::BadSessionGeneration)
    } else if g.node_id != node_id {
        Err(NetworkError::AuthFailed)
    } else if g.tag != spec_network_tag(g.node_id, credential.key, g.target_node, g.lane, g.route, g.session_generation, g.policy_slot, g.rights, g.protocol) {
        Err(NetworkError::AuthFailed)
    } else {
        Ok(())
    }
}

fn rotate5(x: u32) -> (out: u32)
    ensures
        out == rotl5(x),
{
    (x << 5u32) | (x >> 27u32)
}

impl NetworkGrant {
    pub fn new(
        node_id: NodeId,
        credential: SwarmCredential,
        target_node: NodeId,
        lane: u8,
        route: u8,
        session_generation: u16,
        policy_slot: u8,
        rights: NetworkRights,
        protocol: NetworkRoleProtocol,
    ) -> (out: Self)
        ensures
            out == (NetworkGrant {
                node_id,
                target_node,
                lane,
                route,
                session_generation,
                policy_slot,
                rights,
                protocol,
                tag: spec_network_tag(node_id, credential.key, target_node, lane, route, session_generation, policy_slot, rights, protocol),
            }),
    {
        NetworkGrant {
            node_id,
            target_node,
            lane,
            route,
            session_generation,
            policy_slot,
            rights,
            protocol,
            tag: Self::compute_tag(node_id, credential, target_node, lane, route, session_generation, policy_slot, rights, protocol),
        }
    }

    pub(crate) fn verify(self, node_id: NodeId, credential: SwarmCredential, session_generation: u16) -> (out: Result<(), NetworkError>)
        ensures
            out == spec_network_grant_verify(self, node_id, credential, session_generation),
    {
        if self.session_generation != session_generation {
            return Err(NetworkError::BadSessionGeneration);
        }
        if self.node_id != node_id {
            return Err(NetworkError::AuthFailed);
        }
        let expected = Self::compute_tag(self.node_id, credential, self.target_node, self.lane, self.route,
            self.session_generation, self.policy_slot, self.rights, self.protocol);
        if self.tag != expected {
            return Err(NetworkError::AuthFailed);
        }
        Ok(())
    }

    fn compute_tag(
        node_id: NodeId,
        credential: SwarmCredential,
        target_node: NodeId,
        lane: u8,
        route: u8,
        session_generation: u16,
        policy_slot: u8,
        rights: NetworkRights,
        protocol: NetworkRoleProtocol,
    ) -> (out: u32)
        ensures
            out == spec_network_tag(node_id, credential.key, target_node, lane, route, session_generation, policy_slot, rights, protocol),
    {
        let mut acc = credential.key ^ 0x4e46_4443u32;
        acc = rotate5(acc) ^ (node_id.0 as u32);
        acc = rotate5(acc) ^ (target_node.0 as u32);
        acc = rotate5(acc) ^ (lane as u32);
        acc = rotate5(acc) ^ (route as u32);
        acc = rotate5(acc) ^ (session_generation as u32);
        acc = rotate5(acc) ^ (policy_slot as u32);
        acc = rotate5(acc) ^ (rights.bits() as u32);
        acc = rotate5(acc) ^ (protocol.code() as u32);
        acc
    }
}

/// A network control fact: a grant to open an fd, or the revocation of one.
#[derive(Clone, Copy, Debug, PartialEq, Eq, Structural)]
pub enum NetworkControl {
    CapGrant(NetworkGrant),
    CapRevoke { fd: u8 },
}

impl NetworkControl {
    pub fn cap_grant(
        node_id: NodeId,
        credential: SwarmCredential,
        session_generation: u16,
        target_node: NodeId,
        lane: u8,
        route: u8,
        policy_slot: u8,
        rights: NetworkRights,
        protocol: NetworkRoleProtocol,
    ) -> (out: Self)
        ensures
            out == NetworkControl::CapGrant(NetworkGrant {
                node_id,
                target_node,
                lane,
                route,
                session_generation,
                policy_slot,
                rights,
                protocol,
                tag: spec_network_tag(node_id, credential.key, target_node, lane, route, session_generation, policy_slot, rights, protocol),
            }),
    {
        NetworkControl::CapGrant(NetworkGrant::new(node_id, credential, target_node, lane, route, session_generation, policy_slot, rights, protocol))
    }

    pub fn cap_grant_datagram(node_id: NodeId, credential: SwarmCredential, session_generation: u16, target_node: NodeId, lane: u8, route: u8, rights: NetworkRights) -> (out: Self)
        ensures
            out == NetworkControl::CapGrant(NetworkGrant {
                node_id,
                target_node,
                lane,
                route,
                session_generation,
                policy_slot: 0,
                rights,
                protocol: NetworkRoleProtocol::Datagram,
                tag: spec_network_tag(node_id, credential.key, target_node, lane, route, session_generation, 0, rights, NetworkRoleProtocol::Datagram),
            }),
    {
        Self::cap_grant_datagram_with_policy(node_id, credential, session_generation, target_node, lane, route, 0, rights)
    }

    pub fn cap_grant_datagram_with_policy(node_id: NodeId, credential: SwarmCredential, session_generation: u16, target_node: NodeId, lane: u8, route: u8, policy_slot: u8, rights: NetworkRights) -> (out: Self)
        ensures
            out == NetworkControl::CapGrant(NetworkGrant {
                node_id,
                target_node,
                lane,
                route,
                session_generation,
                policy_slot,
                rights,
                protocol: NetworkRoleProtocol::Datagram,
                tag: spec_network_tag(node_id, credential.key, target_node, lane, route, session_generation, policy_slot, rights, NetworkRoleProtocol::Datagram),
            }),
    {
        Self::cap_grant(node_id, credential, session_generation, target_node, lane, route, policy_slot, rights, NetworkRoleProtocol::Datagram)
    }

    pub fn cap_grant_stream(node_id: NodeId, credential: SwarmCredential, session_generation: u16, target_node: NodeId, lane: u8, route: u8, rights: NetworkRights) -> (out: Self)
        ensures
            out == NetworkControl::CapGrant(NetworkGrant {
                node_id,
                target_node,
                lane,
                route,
                session_generation,
                policy_slot: 0,
                rights,
                protocol: NetworkRoleProtocol::Stream,
                tag: spec_network_tag(node_id, credential.key, target_node, lane, route, session_generation, 0, rights, NetworkRoleProtocol::Stream),
            }),
    {
        Self::cap_grant_stream_with_policy(node_id, credential, session_generation, target_node, lane, route, 0, rights)
    }

    pub fn cap_grant_stream_with_policy(node_id: NodeId, credential: SwarmCredential, session_generation: u16, target_node: NodeId, lane: u8, route: u8, policy_slot: u8, rights: NetworkRights) -> (out: Self)
        ensures
            out == NetworkControl::CapGrant(NetworkGrant {
                node_id,
                target_node,
                lane,
                route,
                session_generation,
                policy_slot,
                rights,
                protocol: NetworkRoleProtocol::Stream,
                tag: spec_network_tag(node_id, credential.key, target_node, lane, route, session_generation, policy_slot, rights, NetworkRoleProtocol::Stream),
            }),
    {
        Self::cap_grant(node_id, credential, session_generation, target_node, lane, route, policy_slot, rights, NetworkRoleProtocol::Stream)
    }
}

/// A grant made under a key verifies for its node and session under that key; another session is refused.
pub proof fn lemma_network_grant_verifies_for_what_it_names(g: NetworkGrant, credential: SwarmCredential, other_generation: u16)
    requires
        g.tag == spec_network_tag(g.node_id, credential.key, g.target_node, g.lane, g.route, g.session_generation, g.policy_slot, g.rights, g.protocol),
        other_generation != g.session_generation,
    ensures
        spec_network_grant_verify(g, g.node_id, credential, g.session_generation) == Ok::<(), NetworkError>(()),
        spec_network_grant_verify(g, g.node_id, credential, other_generation) == Err::<(), NetworkError>(NetworkError::BadSessionGeneration),
{
}

} // verus!
