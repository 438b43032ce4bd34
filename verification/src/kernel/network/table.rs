//! The table of network fds: materialization from grants, resolution by fd or by route,
//! revocation by fd, node or generation, and quiescence.
use vstd::prelude::*;
use crate::seqs::{first_index, count, count_upto, lemma_first_index, lemma_first_index_at, lemma_count_upto_bound};
use crate::kernel::guest_ledger::next_nonzero;
use crate::kernel::policy::PolicySlotTable;
use crate::kernel::swarm::{NodeId, SwarmCredential};
use super::object::{
    NetworkControl, NetworkError, NetworkObject, NetworkObjectRejectionTelemetry, NetworkRights, NetworkRoleProtocol,
    NetworkRoute, network_telemetry_after, spec_network_grant_verify,
};

verus! {

/// Where a write on a network fd goes.
#[derive(Clone, Copy, Debug, PartialEq, Eq, Structural)]
pub enum NetworkObjectWriteRoute {
    Datagram(NetworkObject),
    Stream(NetworkObject),
    Rejected(NetworkError),
}

/// Where a read on a network fd comes from.
#[derive(Clone, Copy, Debug, PartialEq, Eq, Structural)]
pub enum NetworkObjectReadRoute {
    Datagram(NetworkObject),
    Stream(NetworkObject),
    Rejected(NetworkError),
}

/// What the table holds: its slots and the generation the next fd gets.
pub struct NetworkTableModel {
    pub slots: Seq<Option<NetworkObject>>,
    pub next_generation: u16,
}

pub open spec fn spec_validate_route(e: NetworkObject, route: NetworkRoute) -> Result<(), NetworkError> {
    if e.target_node != route.target_node || e.lane != route.lane || e.route != route.route || e.policy_slot != route.policy_slot {
        Err(NetworkError::BadRoute)
    } else {
        Ok(())
    }
}

/// Resolving fd `fd` at `generation` for `required` rights in session `session_generation`.
pub open spec fn spec_resolve_network(slots: Seq<Option<NetworkObject>>, fd: u8, generation: u16, required: NetworkRights, session_generation: u16) -> Result<NetworkObject, NetworkError> {
    if fd >= slots.len() || slots[fd as int] is None {
        Err(NetworkError::BadFd)
    } else {
        let e = slots[fd as int]->Some_0;
        if e.revoked {
            Err(NetworkError::Revoked)
        } else if e.generation != generation {
            Err(NetworkError::BadGeneration)
        } else if e.session_generation != session_generation {
            Err(NetworkError::BadSessionGeneration)
        } else if !e.rights.spec_allows(required) {
            Err(NetworkError::PermissionDenied)
        } else {
            Ok(e)
        }
    }
}

pub open spec fn spec_resolve_routed(slots: Seq<Option<NetworkObject>>, fd: u8, generation: u16, required: NetworkRights, route: NetworkRoute) -> Result<NetworkObject, NetworkError> {
    match spec_resolve_network(slots, fd, generation, required, route.session_generation) {
        Err(e) => Err(e),
        Ok(e) => match spec_validate_route(e, route) {
            Err(x) => Err(x),
            Ok(_) => Ok(e),
        },
    }
}

pub open spec fn on_route(route: NetworkRoute) -> spec_fn(Option<NetworkObject>) -> bool {
    |o: Option<NetworkObject>| o is Some && o->Some_0.session_generation == route.session_generation
        && spec_validate_route(o->Some_0, route) is Ok
}

pub open spec fn usable_on_route(route: NetworkRoute, required: NetworkRights) -> spec_fn(Option<NetworkObject>) -> bool {
    |o: Option<NetworkObject>| on_route(route)(o) && !o->Some_0.revoked && o->Some_0.rights.spec_allows(required)
}

pub open spec fn revoked_on_route(route: NetworkRoute) -> spec_fn(Option<NetworkObject>) -> bool {
    |o: Option<NetworkObject>| on_route(route)(o) && o->Some_0.revoked
}

/// Resolving a route for inbound traffic: the first usable fd on it; otherwise why none is.
pub open spec fn spec_resolve_route(slots: Seq<Option<NetworkObject>>, required: NetworkRights, route: NetworkRoute) -> Result<NetworkObject, NetworkError> {
    let i = first_index(slots, usable_on_route(route, required));
    if i < slots.len() {
        Ok(slots[i]->Some_0)
    } else if first_index(slots, revoked_on_route(route)) < slots.len() {
        Err(NetworkError::Revoked)
    } else if first_index(slots, on_route(route)) < slots.len() {
        Err(NetworkError::PermissionDenied)
    } else {
        Err(NetworkError::BadRoute)
    }
}

pub open spec fn write_route_of(r: Result<NetworkObject, NetworkError>) -> NetworkObjectWriteRoute {
    match r {
        Ok(e) => if e.protocol == NetworkRoleProtocol::Datagram {
            NetworkObjectWriteRoute::Datagram(e)
        } else {
            NetworkObjectWriteRoute::Stream(e)
        },
        Err(x) => NetworkObjectWriteRoute::Rejected(x),
    }
}

pub open spec fn read_route_of(r: Result<NetworkObject, NetworkError>) -> NetworkObjectReadRoute {
    match r {
        Ok(e) => if e.protocol == NetworkRoleProtocol::Datagram {
            NetworkObjectReadRoute::Datagram(e)
        } else {
            NetworkObjectReadRoute::Stream(e)
        },
        Err(x) => NetworkObjectReadRoute::Rejected(x),
    }
}

pub open spec fn free_network_slot() -> spec_fn(Option<NetworkObject>) -> bool {
    |o: Option<NetworkObject>| o is None
}

/// Materializing a new fd in the first free slot with the next generation.
pub open spec fn spec_materialize(
    m: NetworkTableModel,
    target_node: NodeId,
    lane: u8,
    route: u8,
    session_generation: u16,
    policy_slot: u8,
    rights: NetworkRights,
    protocol: NetworkRoleProtocol,
) -> (Result<NetworkObject, NetworkError>, NetworkTableModel) {
    let i = first_index(m.slots, free_network_slot());
    if i >= m.slots.len() {
        (Err(NetworkError::TableFull), m)
    } else {
        let e = NetworkObject {
            fd: i as u8,
            generation: m.next_generation,
            target_node,
            lane,
            route,
            session_generation,
            policy_slot,
            rights,
            protocol,
            revoked: false,
        };
        (Ok(e), NetworkTableModel { slots: m.slots.update((i as u8) as int, Some(e)), next_generation: next_nonzero(m.next_generation) })
    }
}

/// Revoking fd `fd`: the revoked entry and the slots afterwards.
pub open spec fn spec_revoke_fd_entry(slots: Seq<Option<NetworkObject>>, fd: u8) -> Result<(NetworkObject, Seq<Option<NetworkObject>>), NetworkError> {
    if fd >= slots.len() || slots[fd as int] is None {
        Err(NetworkError::BadFd)
    } else {
        let e = NetworkObject { revoked: true, ..slots[fd as int]->Some_0 };
        Ok((e, slots.update(fd as int, Some(e))))
    }
}

/// Live fds toward `node`, or toward any node.
/// Live fds toward `node` held at another session generation than `session_generation`.
pub open spec fn stale_live_object(node: NodeId, session_generation: u16) -> spec_fn(Option<NetworkObject>) -> bool {
    |o: Option<NetworkObject>| live_object(Some(node))(o) && o->Some_0.session_generation != session_generation
}

pub open spec fn live_object(node: Option<NodeId>) -> spec_fn(Option<NetworkObject>) -> bool {
    |o: Option<NetworkObject>| o is Some && !o->Some_0.revoked
        && (node is None || o->Some_0.target_node == node->Some_0)
}

/// The slots with every live fd toward `node` (or toward any node) revoked.
pub open spec fn spec_revoke_matching(slots: Seq<Option<NetworkObject>>, node: Option<NodeId>) -> Seq<Option<NetworkObject>> {
    Seq::new(slots.len(), |i: int| if live_object(node)(slots[i]) {
        Some(NetworkObject { revoked: true, ..slots[i]->Some_0 })
    } else {
        slots[i]
    })
}

/// Applying a network control fact: a verified grant materializes an fd; a revocation revokes one.
pub open spec fn spec_apply_network_control(m: NetworkTableModel, control: NetworkControl, node_id: NodeId, credential: SwarmCredential, session_generation: u16) -> (Result<NetworkObject, NetworkError>, NetworkTableModel) {
    match control {
        NetworkControl::CapGrant(g) => match spec_network_grant_verify(g, node_id, credential, session_generation) {
            Err(e) => (Err(e), m),
            Ok(_) => spec_materialize(m, g.target_node, g.lane, g.route, g.session_generation, g.policy_slot, g.rights, g.protocol),
        },
        NetworkControl::CapRevoke { fd } => match spec_revoke_fd_entry(m.slots, fd) {
            Err(e) => (Err(e), m),
            Ok(r) => (Ok(r.0), NetworkTableModel { slots: r.1, ..m }),
        },
    }
}

/// A table of `N` network fds.
pub struct NetworkObjectTable<const N: usize> {
    slots: Vec<Option<NetworkObject>>,
    next_generation: u16,
    rejection_telemetry: NetworkObjectRejectionTelemetry,
}

impl<const N: usize> NetworkObjectTable<N> {
    pub closed spec fn view(&self) -> NetworkTableModel {
        NetworkTableModel { slots: self.slots@, next_generation: self.next_generation }
    }

    pub closed spec fn telemetry(&self) -> NetworkObjectRejectionTelemetry {
        self.rejection_telemetry
    }

    pub open spec fn wf(&self) -> bool {
        self.view().slots.len() == N
    }

    pub fn new() -> (out: Self)
        ensures
            out.wf(),
            out.view() == (NetworkTableModel { slots: Seq::new(N as nat, |i: int| None::<NetworkObject>), next_generation: 1 }),
            out.telemetry() == NetworkObjectRejectionTelemetry::zero(),
    {
        let mut slots: Vec<Option<NetworkObject>> = Vec::new();
        let mut i: usize = 0;
        while i < N
            invariant
                i <= N,
                slots@ == Seq::new(i as nat, |k: int| None::<NetworkObject>),
            decreases N - i,
        {
            slots.push(None);
            i = i + 1;
            assert(slots@ =~= Seq::new(i as nat, |k: int| None::<NetworkObject>));
        }
        NetworkObjectTable { slots, next_generation: 1, rejection_telemetry: NetworkObjectRejectionTelemetry::new() }
    }

    pub fn rejection_telemetry(&self) -> (out: NetworkObjectRejectionTelemetry)
        ensures
            out == self.telemetry(),
    {
        self.rejection_telemetry
    }

    fn record_rejection(&mut self, error: NetworkError) -> (out: NetworkError)
        ensures
            out == error,
            final(self).view() == old(self).view(),
            final(self).telemetry() == old(self).telemetry().recorded(error),
    {
        self.rejection_telemetry.record(error);
        error
    }

    fn bump_generation(&mut self) -> (out: u16)
        ensures
            out == old(self).view().next_generation,
            final(self).view() == (NetworkTableModel { next_generation: next_nonzero(old(self).view().next_generation), ..old(self).view() }),
            final(self).telemetry() == old(self).telemetry(),
    {
        let generation = self.next_generation;
        self.next_generation = if generation == u16::MAX { 1 } else { generation + 1 };
        generation
    }

    fn materialize_cap_grant(
        &mut self,
        target_node: NodeId,
        lane: u8,
        route: u8,
        session_generation: u16,
        policy_slot: u8,
        rights: NetworkRights,
        protocol: NetworkRoleProtocol,
    ) -> (out: Result<NetworkObject, NetworkError>)
        requires
            old(self).wf(),
        ensures
            final(self).wf(),
            ({
                let r = spec_materialize(old(self).view(), target_node, lane, route, session_generation, policy_slot, rights, protocol);
                out == r.0 && final(self).view() == r.1
            }),
            final(self).telemetry() == network_telemetry_after(old(self).telemetry(), out),
    {
        let n = self.slots.len();
        let mut i: usize = 0;
        while i < n && self.slots[i].is_some()
            invariant
                n == self.view().slots.len(),
                i <= n,
                forall|j: int| 0 <= j < i ==> !(#[trigger] free_network_slot()(self.view().slots[j])),
            decreases n - i,
        {
            i = i + 1;
        }
        proof {
            lemma_first_index(self.view().slots, free_network_slot());
        }
        if i == n {
            return Err(self.record_rejection(NetworkError::TableFull));
        }
        proof {
            lemma_first_index_at(self.view().slots, free_network_slot(), i as int);
        }
        let fd = i as u8;
        let generation = self.bump_generation();
        let entry = NetworkObject { fd, generation, target_node, lane, route, session_generation, policy_slot, rights, protocol, revoked: false };
        assert((fd as usize) < n);
        self.slots.set(fd as usize, Some(entry));
        Ok(entry)
    }

    fn revoke_fd_entry(&mut self, fd: u8) -> (out: Result<NetworkObject, NetworkError>)
        requires
            old(self).wf(),
        ensures
            final(self).wf(),
            final(self).telemetry() == network_telemetry_after(old(self).telemetry(), out),
            match spec_revoke_fd_entry(old(self).view().slots, fd) {
                Ok(r) => out == Ok::<NetworkObject, NetworkError>(r.0)
                    && final(self).view() == (NetworkTableModel { slots: r.1, ..old(self).view() }),
                Err(e) => out == Err::<NetworkObject, NetworkError>(e) && final(self).view() == old(self).view(),
            },
    {
        let idx = fd as usize;
        if idx >= self.slots.len() {
            return Err(self.record_rejection(NetworkError::BadFd));
        }
        match self.slots[idx] {
            None => Err(self.record_rejection(NetworkError::BadFd)),
            Some(entry) => {
                let revoked = NetworkObject { revoked: true, ..entry };
                self.slots.set(idx, Some(revoked));
                Ok(revoked)
            },
        }
    }

    pub fn apply_control(&mut self, control: NetworkControl, node_id: NodeId, credential: SwarmCredential, session_generation: u16) -> (out: Result<NetworkObject, NetworkError>)
        requires
            old(self).wf(),
        ensures
            final(self).wf(),
            ({
                let r = spec_apply_network_control(old(self).view(), control, node_id, credential, session_generation);
                out == r.0 && final(self).view() == r.1
            }),
            final(self).telemetry() == network_telemetry_after(old(self).telemetry(), out),
    {
        match control {
            NetworkControl::CapGrant(grant) => {
                match grant.verify(node_id, credential, session_generation) {
                    Ok(()) => {},
                    Err(error) => return Err(self.record_rejection(error)),
                }
                self.materialize_cap_grant(grant.target_node, grant.lane, grant.route, grant.session_generation,
                    grant.policy_slot, grant.rights, grant.protocol)
            },
            NetworkControl::CapRevoke { fd } => self.revoke_fd_entry(fd),
        }
    }

    pub fn apply_cap_grant_datagram(&mut self, node_id: NodeId, credential: SwarmCredential, session_generation: u16, target_node: NodeId, lane: u8, route: u8, rights: NetworkRights) -> (out: Result<NetworkObject, NetworkError>)
        requires
            old(self).wf(),
        ensures
            final(self).wf(),
            ({
                let r = spec_materialize(old(self).view(), target_node, lane, route, session_generation, 0, rights, NetworkRoleProtocol::Datagram);
                out == r.0 && final(self).view() == r.1
            }),
            final(self).telemetry() == network_telemetry_after(old(self).telemetry(), out),
    {
        self.apply_control(NetworkControl::cap_grant_datagram(node_id, credential, session_generation, target_node, lane, route, rights),
            node_id, credential, session_generation)
    }

    pub fn apply_cap_grant_datagram_with_policy(&mut self, node_id: NodeId, credential: SwarmCredential, session_generation: u16, target_node: NodeId, lane: u8, route: u8, policy_slot: u8, rights: NetworkRights) -> (out: Result<NetworkObject, NetworkError>)
        requires
            old(self).wf(),
        ensures
            final(self).wf(),
            ({
                let r = spec_materialize(old(self).view(), target_node, lane, route, session_generation, policy_slot, rights, NetworkRoleProtocol::Datagram);
                out == r.0 && final(self).view() == r.1
            }),
            final(self).telemetry() == network_telemetry_after(old(self).telemetry(), out),
    {
        self.apply_control(NetworkControl::cap_grant_datagram_with_policy(node_id, credential, session_generation, target_node, lane, route, policy_slot, rights),
            node_id, credential, session_generation)
    }

    pub fn apply_cap_grant_stream(&mut self, node_id: NodeId, credential: SwarmCredential, session_generation: u16, target_node: NodeId, lane: u8, route: u8, rights: NetworkRights) -> (out: Result<NetworkObject, NetworkError>)
        requires
            old(self).wf(),
        ensures
            final(self).wf(),
            ({
                let r = spec_materialize(old(self).view(), target_node, lane, route, session_generation, 0, rights, NetworkRoleProtocol::Stream);
                out == r.0 && final(self).view() == r.1
            }),
            final(self).telemetry() == network_telemetry_after(old(self).telemetry(), out),
    {
        self.apply_control(NetworkControl::cap_grant_stream(node_id, credential, session_generation, target_node, lane, route, rights),
            node_id, credential, session_generation)
    }

    pub fn apply_cap_grant_stream_with_policy(&mut self, node_id: NodeId, credential: SwarmCredential, session_generation: u16, target_node: NodeId, lane: u8, route: u8, policy_slot: u8, rights: NetworkRights) -> (out: Result<NetworkObject, NetworkError>)
        requires
            old(self).wf(),
        ensures
            final(self).wf(),
            ({
                let r = spec_materialize(old(self).view(), target_node, lane, route, session_generation, policy_slot, rights, NetworkRoleProtocol::Stream);
                out == r.0 && final(self).view() == r.1
            }),
            final(self).telemetry() == network_telemetry_after(old(self).telemetry(), out),
    {
        self.apply_control(NetworkControl::cap_grant_stream_with_policy(node_id, credential, session_generation, target_node, lane, route, policy_slot, rights),
            node_id, credential, session_generation)
    }

    fn validate_route(entry: NetworkObject, route: NetworkRoute) -> (out: Result<(), NetworkError>)
        ensures
            out == spec_validate_route(entry, route),
    {
        if entry.target_node != route.target_node || entry.lane != route.lane || entry.route != route.route
            || entry.policy_slot != route.policy_slot {
            return Err(NetworkError::BadRoute);
        }
        Ok(())
    }

    pub fn resolve(&mut self, fd: u8, generation: u16, required: NetworkRights, session_generation: u16) -> (out: Result<NetworkObject, NetworkError>)
        requires
            old(self).wf(),
        ensures
            final(self).wf(),
            final(self).view() == old(self).view(),
            out == spec_resolve_network(old(self).view().slots, fd, generation, required, session_generation),
            final(self).telemetry() == network_telemetry_after(old(self).telemetry(), out),
    {
        let idx = fd as usize;
        if idx >= self.slots.len() {
            return Err(self.record_rejection(NetworkError::BadFd));
        }
        let entry = match self.slots[idx] {
            Some(entry) => entry,
            None => return Err(self.record_rejection(NetworkError::BadFd)),
        };
        if entry.revoked {
            return Err(self.record_rejection(NetworkError::Revoked));
        }
        if entry.generation != generation {
            return Err(self.record_rejection(NetworkError::BadGeneration));
        }
        if entry.session_generation != session_generation {
            return Err(self.record_rejection(NetworkError::BadSessionGeneration));
        }
        if !entry.rights.allows(required) {
            return Err(self.record_rejection(NetworkError::PermissionDenied));
        }
        Ok(entry)
    }

    pub fn resolve_routed(&mut self, fd: u8, generation: u16, required: NetworkRights, route: NetworkRoute) -> (out: Result<NetworkObject, NetworkError>)
        requires
            old(self).wf(),
        ensures
            final(self).wf(),
            final(self).view() == old(self).view(),
            out == spec_resolve_routed(old(self).view().slots, fd, generation, required, route),
            final(self).telemetry() == network_telemetry_after(old(self).telemetry(), out),
    {
        let entry = self.resolve(fd, generation, required, route.session_generation)?;
        match Self::validate_route(entry, route) {
            Ok(()) => Ok(entry),
            Err(error) => Err(self.record_rejection(error)),
        }
    }

    pub fn resolve_route(&mut self, required: NetworkRights, route: NetworkRoute) -> (out: Result<NetworkObject, NetworkError>)
        requires
            old(self).wf(),
        ensures
            final(self).wf(),
            final(self).view() == old(self).view(),
            out == spec_resolve_route(old(self).view().slots, required, route),
            final(self).telemetry() == network_telemetry_after(old(self).telemetry(), out),
    {
        let ghost s = self.view().slots;
        let mut saw_revoked = false;
        let mut saw_wrong_rights = false;
        let n = self.slots.len();
        let mut i: usize = 0;
        proof {
            lemma_first_index(s, revoked_on_route(route));
            lemma_first_index(s, on_route(route));
        }
        while i < n
            invariant
                s == self.view().slots,
                *self == *old(self),
                old(self).wf(),
                n == s.len(),
                i <= n,
                forall|j: int| 0 <= j < i ==> !(#[trigger] usable_on_route(route, required)(s[j])),
                saw_revoked <==> first_index(s, revoked_on_route(route)) < i,
                saw_revoked || saw_wrong_rights <==> first_index(s, on_route(route)) < i,
            decreases n - i,
        {
            proof {
                lemma_first_index(s, revoked_on_route(route));
                lemma_first_index(s, on_route(route));
            }
            match self.slots[i] {
                Some(entry) => {
                    if entry.session_generation == route.session_generation && Self::validate_route(entry, route).is_ok() {
                        if entry.revoked {
                            proof {
                                if !saw_revoked {
                                    lemma_first_index_at(s, revoked_on_route(route), i as int);
                                }
                                if !saw_revoked && !saw_wrong_rights {
                                    lemma_first_index_at(s, on_route(route), i as int);
                                }
                            }
                            saw_revoked = true;
                        } else if !entry.rights.allows(required) {
                            proof {
                                if !saw_revoked && !saw_wrong_rights {
                                    lemma_first_index_at(s, on_route(route), i as int);
                                }
                            }
                            saw_wrong_rights = true;
                        } else {
                            proof {
                                lemma_first_index_at(s, usable_on_route(route, required), i as int);
                            }
                            return Ok(entry);
                        }
                    }
                },
                None => {},
            }
            i = i + 1;
        }
        proof {
            lemma_first_index(s, usable_on_route(route, required));
            lemma_first_index(s, revoked_on_route(route));
            lemma_first_index(s, on_route(route));
        }
        if saw_revoked {
            return Err(self.record_rejection(NetworkError::Revoked));
        }
        if saw_wrong_rights {
            return Err(self.record_rejection(NetworkError::PermissionDenied));
        }
        Err(self.record_rejection(NetworkError::BadRoute))
    }

    fn write_route(&mut self, r: Result<NetworkObject, NetworkError>) -> (out: NetworkObjectWriteRoute)
        ensures
            out == write_route_of(r),
            final(self).view() == old(self).view(),
            final(self).telemetry() == old(self).telemetry(),
    {
        match r {
            Ok(entry) => match entry.protocol() {
                NetworkRoleProtocol::Datagram => NetworkObjectWriteRoute::Datagram(entry),
                NetworkRoleProtocol::Stream => NetworkObjectWriteRoute::Stream(entry),
            },
            Err(error) => NetworkObjectWriteRoute::Rejected(error),
        }
    }

    fn read_route(&mut self, r: Result<NetworkObject, NetworkError>) -> (out: NetworkObjectReadRoute)
        ensures
            out == read_route_of(r),
            final(self).view() == old(self).view(),
            final(self).telemetry() == old(self).telemetry(),
    {
        match r {
            Ok(entry) => match entry.protocol() {
                NetworkRoleProtocol::Datagram => NetworkObjectReadRoute::Datagram(entry),
                NetworkRoleProtocol::Stream => NetworkObjectReadRoute::Stream(entry),
            },
            Err(error) => NetworkObjectReadRoute::Rejected(error),
        }
    }

    pub fn route_fd_write(&mut self, fd: u8, generation: u16, session_generation: u16) -> (out: NetworkObjectWriteRoute)
        requires
            old(self).wf(),
        ensures
            final(self).wf(),
            final(self).view() == old(self).view(),
            out == write_route_of(spec_resolve_network(old(self).view().slots, fd, generation, NetworkRights::Send, session_generation)),
            final(self).telemetry() == network_telemetry_after(old(self).telemetry(),
                spec_resolve_network(old(self).view().slots, fd, generation, NetworkRights::Send, session_generation)),
    {
        let r = self.resolve(fd, generation, NetworkRights::Send, session_generation);
        self.write_route(r)
    }

    pub fn route_fd_write_routed(&mut self, fd: u8, generation: u16, route: NetworkRoute) -> (out: NetworkObjectWriteRoute)
        requires
            old(self).wf(),
        ensures
            final(self).wf(),
            final(self).view() == old(self).view(),
            out == write_route_of(spec_resolve_routed(old(self).view().slots, fd, generation, NetworkRights::Send, route)),
            final(self).telemetry() == network_telemetry_after(old(self).telemetry(),
                spec_resolve_routed(old(self).view().slots, fd, generation, NetworkRights::Send, route)),
    {
        let r = self.resolve_routed(fd, generation, NetworkRights::Send, route);
        self.write_route(r)
    }

    pub fn route_fd_write_authorized<const P: usize>(&mut self, fd: u8, generation: u16, route: NetworkRoute, policy: &PolicySlotTable<P>) -> (out: NetworkObjectWriteRoute)
        requires
            old(self).wf(),
            policy.wf(),
        ensures
            final(self).wf(),
            final(self).view() == old(self).view(),
            !policy.spec_is_allowed(route.policy_slot) ==> out == NetworkObjectWriteRoute::Rejected(NetworkError::PolicyDenied)
                && final(self).telemetry() == old(self).telemetry().recorded(NetworkError::PolicyDenied),
            policy.spec_is_allowed(route.policy_slot) ==>
                out == write_route_of(spec_resolve_routed(old(self).view().slots, fd, generation, NetworkRights::Send, route))
                && final(self).telemetry() == network_telemetry_after(old(self).telemetry(),
                    spec_resolve_routed(old(self).view().slots, fd, generation, NetworkRights::Send, route)),
    {
        if !policy.is_allowed(route.policy_slot()) {
            return NetworkObjectWriteRoute::Rejected(self.record_rejection(NetworkError::PolicyDenied));
        }
        self.route_fd_write_routed(fd, generation, route)
    }

    pub fn route_fd_read(&mut self, fd: u8, generation: u16, session_generation: u16) -> (out: NetworkObjectReadRoute)
        requires
            old(self).wf(),
        ensures
            final(self).wf(),
            final(self).view() == old(self).view(),
            out == read_route_of(spec_resolve_network(old(self).view().slots, fd, generation, NetworkRights::Receive, session_generation)),
            final(self).telemetry() == network_telemetry_after(old(self).telemetry(),
                spec_resolve_network(old(self).view().slots, fd, generation, NetworkRights::Receive, session_generation)),
    {
        let r = self.resolve(fd, generation, NetworkRights::Receive, session_generation);
        self.read_route(r)
    }

    pub fn route_fd_read_routed(&mut self, fd: u8, generation: u16, route: NetworkRoute) -> (out: NetworkObjectReadRoute)
        requires
            old(self).wf(),
        ensures
            final(self).wf(),
            final(self).view() == old(self).view(),
            out == read_route_of(spec_resolve_routed(old(self).view().slots, fd, generation, NetworkRights::Receive, route)),
            final(self).telemetry() == network_telemetry_after(old(self).telemetry(),
                spec_resolve_routed(old(self).view().slots, fd, generation, NetworkRights::Receive, route)),
    {
        let r = self.resolve_routed(fd, generation, NetworkRights::Receive, route);
        self.read_route(r)
    }

    pub fn route_receive_routed(&mut self, route: NetworkRoute) -> (out: NetworkObjectReadRoute)
        requires
            old(self).wf(),
        ensures
            final(self).wf(),
            final(self).view() == old(self).view(),
            out == read_route_of(spec_resolve_route(old(self).view().slots, NetworkRights::Receive, route)),
            final(self).telemetry() == network_telemetry_after(old(self).telemetry(),
                spec_resolve_route(old(self).view().slots, NetworkRights::Receive, route)),
    {
        let r = self.resolve_route(NetworkRights::Receive, route);
        self.read_route(r)
    }

    pub fn route_fd_read_authorized<const P: usize>(&mut self, fd: u8, generation: u16, route: NetworkRoute, policy: &PolicySlotTable<P>) -> (out: NetworkObjectReadRoute)
        requires
            old(self).wf(),
            policy.wf(),
        ensures
            final(self).wf(),
            final(self).view() == old(self).view(),
            !policy.spec_is_allowed(route.policy_slot) ==> out == NetworkObjectReadRoute::Rejected(NetworkError::PolicyDenied)
                && final(self).telemetry() == old(self).telemetry().recorded(NetworkError::PolicyDenied),
            policy.spec_is_allowed(route.policy_slot) ==>
                out == read_route_of(spec_resolve_routed(old(self).view().slots, fd, generation, NetworkRights::Receive, route))
                && final(self).telemetry() == network_telemetry_after(old(self).telemetry(),
                    spec_resolve_routed(old(self).view().slots, fd, generation, NetworkRights::Receive, route)),
    {
        if !policy.is_allowed(route.policy_slot()) {
            return NetworkObjectReadRoute::Rejected(self.record_rejection(NetworkError::PolicyDenied));
        }
        self.route_fd_read_routed(fd, generation, route)
    }

    fn revoke_matching(&mut self, node: Option<NodeId>) -> (out: usize)
        requires
            old(self).wf(),
        ensures
            final(self).wf(),
            out == count(old(self).view().slots, live_object(node)),
            final(self).view() == (NetworkTableModel { slots: spec_revoke_matching(old(self).view().slots, node), ..old(self).view() }),
            final(self).telemetry() == old(self).telemetry(),
    {
        let ghost s = self.view().slots;
        let n = self.slots.len();
        let mut revoked: usize = 0;
        let mut i: usize = 0;
        while i < n
            invariant
                n == s.len(),
                n == N,
                self.wf(),
                i <= n,
                revoked == count_upto(s, live_object(node), i as int),
                self.view().next_generation == old(self).view().next_generation,
                self.telemetry() == old(self).telemetry(),
                s == old(self).view().slots,
                forall|j: int| 0 <= j < i ==> #[trigger] self.view().slots[j] == spec_revoke_matching(s, node)[j],
                forall|j: int| i <= j < n ==> #[trigger] self.view().slots[j] == s[j],
            decreases n - i,
        {
            proof {
                lemma_count_upto_bound(s, live_object(node), i as int);
            }
            match self.slots[i] {
                Some(entry) => {
                    let hit = !entry.revoked && match node {
                        Some(target) => entry.target_node == target,
                        None => true,
                    };
                    if hit {
                        self.slots.set(i, Some(NetworkObject { revoked: true, ..entry }));
                        revoked = revoked + 1;
                    }
                },
                None => {},
            }
            i = i + 1;
        }
        assert(self.view().slots =~= spec_revoke_matching(s, node));
        revoked
    }

    pub fn revoke_node(&mut self, node_id: NodeId) -> (out: usize)
        requires
            old(self).wf(),
        ensures
            final(self).wf(),
            out == count(old(self).view().slots, live_object(Some(node_id))),
            final(self).view() == (NetworkTableModel { slots: spec_revoke_matching(old(self).view().slots, Some(node_id)), ..old(self).view() }),
            final(self).telemetry() == old(self).telemetry(),
    {
        self.revoke_matching(Some(node_id))
    }

    pub fn revoke_node_generation(&mut self, node_id: NodeId, session_generation: u16) -> (out: Result<usize, NetworkError>)
        requires
            old(self).wf(),
        ensures
            final(self).wf(),
            final(self).telemetry() == network_telemetry_after(old(self).telemetry(), out),
            ({
                if first_index(old(self).view().slots, stale_live_object(node_id, session_generation)) < old(self).view().slots.len() {
                    out == Err::<usize, NetworkError>(NetworkError::BadSessionGeneration) && final(self).view() == old(self).view()
                } else {
                    out == Ok::<usize, NetworkError>(count(old(self).view().slots, live_object(Some(node_id))) as usize)
                        && final(self).view() == (NetworkTableModel { slots: spec_revoke_matching(old(self).view().slots, Some(node_id)), ..old(self).view() })
                }
            }),
    {
        let ghost s = self.view().slots;
        let n = self.slots.len();
        let mut i: usize = 0;
        while i < n
            invariant
                s == self.view().slots,
                *self == *old(self),
                old(self).wf(),
                n == s.len(),
                i <= n,
                forall|j: int| 0 <= j < i ==> !(#[trigger] stale_live_object(node_id, session_generation)(s[j])),
            decreases n - i,
        {
            match self.slots[i] {
                Some(entry) => {
                    if entry.target_node == node_id && !entry.revoked && entry.session_generation != session_generation {
                        proof {
                            lemma_first_index_at(s, stale_live_object(node_id, session_generation), i as int);
                        }
                        return Err(self.record_rejection(NetworkError::BadSessionGeneration));
                    }
                },
                None => {},
            }
            i = i + 1;
        }
        proof {
            lemma_first_index(s, stale_live_object(node_id, session_generation));
        }
        let revoked = self.revoke_matching(Some(node_id));
        Ok(revoked)
    }

    pub fn revoke_fd(&mut self, fd: u8) -> (out: Result<(), NetworkError>)
        requires
            old(self).wf(),
        ensures
            final(self).wf(),
            final(self).telemetry() == network_telemetry_after(old(self).telemetry(), out),
            match spec_revoke_fd_entry(old(self).view().slots, fd) {
                Ok(r) => out is Ok && final(self).view() == (NetworkTableModel { slots: r.1, ..old(self).view() }),
                Err(e) => out == Err::<(), NetworkError>(e) && final(self).view() == old(self).view(),
            },
    {
        match self.revoke_fd_entry(fd) {
            Ok(_) => Ok(()),
            Err(e) => Err(e),
        }
    }

    pub fn quiesce_all(&mut self) -> (out: usize)
        requires
            old(self).wf(),
        ensures
            final(self).wf(),
            out == count(old(self).view().slots, live_object(None)),
            final(self).view() == (NetworkTableModel { slots: spec_revoke_matching(old(self).view().slots, None), ..old(self).view() }),
            final(self).telemetry() == old(self).telemetry(),
    {
        self.revoke_matching(None)
    }

    pub fn has_active(&self) -> (out: bool)
        ensures
            out == (first_index(self.view().slots, live_object(None)) < self.view().slots.len()),
    {
        let ghost s = self.view().slots;
        let n = self.slots.len();
        let mut i: usize = 0;
        while i < n
            invariant
                s == self.view().slots,
                n == s.len(),
                i <= n,
                forall|j: int| 0 <= j < i ==> !(#[trigger] live_object(None)(s[j])),
            decreases n - i,
        {
            match self.slots[i] {
                Some(entry) => {
                    if !entry.revoked {
                        proof {
                            lemma_first_index_at(s, live_object(None), i as int);
                        }
                        return true;
                    }
                },
                None => {},
            }
            i = i + 1;
        }
        proof {
            lemma_first_index(s, live_object(None));
        }
        false
    }
}

impl<const N: usize> Default for NetworkObjectTable<N> {
    fn default() -> (out: Self)
        ensures
            out.wf(),
            out.view() == (NetworkTableModel { slots: Seq::new(N as nat, |i: int| None::<NetworkObject>), next_generation: 1 }),
            out.telemetry() == NetworkObjectRejectionTelemetry::zero(),
    {
        Self::new()
    }
}

/// A revoked fd resolves to `Revoked` at any generation, rights and session: revocation fails closed.
pub proof fn lemma_revoked_fd_does_not_resolve(slots: Seq<Option<NetworkObject>>, fd: u8, generation: u16, required: NetworkRights, session_generation: u16)
    requires
        spec_revoke_fd_entry(slots, fd) is Ok,
    ensures
        spec_resolve_network(spec_revoke_fd_entry(slots, fd)->Ok_0.1, fd, generation, required, session_generation)
            == Err::<NetworkObject, NetworkError>(NetworkError::Revoked),
{
}

/// After quiescing, no fd is live and every fd resolves to `Revoked` or `BadFd`.
pub proof fn lemma_quiesce_leaves_nothing_active(slots: Seq<Option<NetworkObject>>, fd: u8, generation: u16, required: NetworkRights, session_generation: u16)
    ensures
        ({
            let q = spec_revoke_matching(slots, None);
            &&& first_index(q, live_object(None)) == q.len()
            &&& spec_resolve_network(q, fd, generation, required, session_generation) is Err
        }),
{
    let q = spec_revoke_matching(slots, None);
    assert forall|j: int| 0 <= j < q.len() implies !(#[trigger] live_object(None)(q[j])) by {}
    lemma_first_index(q, live_object(None));
}


/// Revoking a node's network fds revokes exactly the live fds toward that node: every other
/// slot (empty, already revoked, or toward another node) stays as it was, and a revoked fd
/// keeps all its other fields.
pub proof fn lemma_revoke_node_touches_only_that_node(slots: Seq<Option<NetworkObject>>, node: NodeId)
    ensures
        spec_revoke_matching(slots, Some(node)).len() == slots.len(),
        forall|i: int| 0 <= i < slots.len() && (slots[i] is None || slots[i]->Some_0.target_node != node
            || slots[i]->Some_0.revoked) ==> #[trigger] spec_revoke_matching(slots, Some(node))[i] == slots[i],
        forall|i: int| 0 <= i < slots.len() && slots[i] is Some && slots[i]->Some_0.target_node == node
            && !slots[i]->Some_0.revoked ==> #[trigger] spec_revoke_matching(slots, Some(node))[i]
                == Some(NetworkObject { revoked: true, ..slots[i]->Some_0 }),
{
}

} // verus!
