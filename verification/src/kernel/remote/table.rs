//! The table of remote fds: materialization from grants, resolution by fd,
//! revocation by fd, node or generation, and quiescence.
use vstd::prelude::*;
use crate::seqs::{first_index, count, count_upto, lemma_first_index, lemma_first_index_at, lemma_count_upto_bound};
use crate::kernel::guest_ledger::next_nonzero;
use crate::kernel::policy::PolicySlotTable;
use crate::kernel::swarm::{NodeId, SwarmCredential};
use crate::kernel::transaction::{ObjectTransaction, ObjectTransactionDecision};
use super::object::{
    RemoteControl, RemoteError, RemoteObject, RemoteRejectionTelemetry, RemoteRights, RemoteResource,
    RemoteRoute, remote_telemetry_after, spec_remote_grant_verify,
};

verus! {

/// Where a read on a remote fd goes: only a remote sensor can be read.
#[derive(Clone, Copy, Debug, PartialEq, Eq, Structural)]
pub enum RemoteFdReadRoute {
    RemoteSensor(RemoteObject),
    Rejected(RemoteError),
}

/// Where a write on a remote fd goes: an actuator, the management object or telemetry.
#[derive(Clone, Copy, Debug, PartialEq, Eq, Structural)]
pub enum RemoteFdWriteRoute {
    RemoteActuator(RemoteObject),
    RemoteManagement(RemoteObject),
    RemoteTelemetry(RemoteObject),
    Rejected(RemoteError),
}

/// What the table holds: its slots and the generation the next fd gets.
pub struct RemoteTableModel {
    pub slots: Seq<Option<RemoteObject>>,
    pub next_generation: u16,
}

pub open spec fn spec_validate_route(e: RemoteObject, route: RemoteRoute) -> Result<(), RemoteError> {
    if e.target_node != route.target_node || e.target_role != route.target_role || e.lane != route.lane
        || e.route != route.route || e.policy_slot != route.policy_slot {
        Err(RemoteError::BadRoute)
    } else {
        Ok(())
    }
}

/// Resolving fd `fd` at `generation` for `required` rights in session `session_generation`.
pub open spec fn spec_resolve_remote(slots: Seq<Option<RemoteObject>>, fd: u8, generation: u16, required: RemoteRights, session_generation: u16) -> Result<RemoteObject, RemoteError> {
    if fd >= slots.len() || slots[fd as int] is None {
        Err(RemoteError::BadFd)
    } else {
        let e = slots[fd as int]->Some_0;
        if e.revoked {
            Err(RemoteError::Revoked)
        } else if e.generation != generation {
            Err(RemoteError::BadGeneration)
        } else if e.session_generation != session_generation {
            Err(RemoteError::BadSessionGeneration)
        } else if !e.rights.spec_allows(required) {
            Err(RemoteError::PermissionDenied)
        } else {
            Ok(e)
        }
    }
}

pub open spec fn spec_resolve_routed(slots: Seq<Option<RemoteObject>>, fd: u8, generation: u16, required: RemoteRights, route: RemoteRoute) -> Result<RemoteObject, RemoteError> {
    match spec_resolve_remote(slots, fd, generation, required, route.session_generation) {
        Err(e) => Err(e),
        Ok(e) => match spec_validate_route(e, route) {
            Err(x) => Err(x),
            Ok(_) => Ok(e),
        },
    }
}

/// A read resolution narrowed to sensors.
pub open spec fn sensor_read(r: Result<RemoteObject, RemoteError>) -> Result<RemoteObject, RemoteError> {
    match r {
        Ok(e) => if e.resource == RemoteResource::Sensor { Ok(e) } else { Err(RemoteError::WrongResource) },
        Err(x) => Err(x),
    }
}

/// A write resolution narrowed to what can be written: anything but a sensor.
pub open spec fn writable(r: Result<RemoteObject, RemoteError>) -> Result<RemoteObject, RemoteError> {
    match r {
        Ok(e) => if e.resource == RemoteResource::Sensor { Err(RemoteError::WrongResource) } else { Ok(e) },
        Err(x) => Err(x),
    }
}

pub open spec fn read_route_of(r: Result<RemoteObject, RemoteError>) -> RemoteFdReadRoute {
    match sensor_read(r) {
        Ok(e) => RemoteFdReadRoute::RemoteSensor(e),
        Err(x) => RemoteFdReadRoute::Rejected(x),
    }
}

pub open spec fn write_route_of(r: Result<RemoteObject, RemoteError>) -> RemoteFdWriteRoute {
    match writable(r) {
        Ok(e) => match e.resource {
            RemoteResource::Actuator => RemoteFdWriteRoute::RemoteActuator(e),
            RemoteResource::Management => RemoteFdWriteRoute::RemoteManagement(e),
            _ => RemoteFdWriteRoute::RemoteTelemetry(e),
        },
        Err(x) => RemoteFdWriteRoute::Rejected(x),
    }
}

pub open spec fn free_remote_slot() -> spec_fn(Option<RemoteObject>) -> bool {
    |o: Option<RemoteObject>| o is None
}

/// Materializing a new fd in the first free slot with the next generation.
pub open spec fn spec_materialize(m: RemoteTableModel, route: RemoteRoute, rights: RemoteRights, resource: RemoteResource) -> (Result<RemoteObject, RemoteError>, RemoteTableModel) {
    let i = first_index(m.slots, free_remote_slot());
    if i >= m.slots.len() {
        (Err(RemoteError::TableFull), m)
    } else {
        let e = RemoteObject {
            fd: i as u8,
            generation: m.next_generation,
            target_node: route.target_node,
            target_role: route.target_role,
            lane: route.lane,
            route: route.route,
            session_generation: route.session_generation,
            policy_slot: route.policy_slot,
            rights,
            resource,
            revoked: false,
        };
        (Ok(e), RemoteTableModel { slots: m.slots.update((i as u8) as int, Some(e)), next_generation: next_nonzero(m.next_generation) })
    }
}

/// Revoking fd `fd`: the revoked entry and the slots afterwards.
pub open spec fn spec_revoke_fd_entry(slots: Seq<Option<RemoteObject>>, fd: u8) -> Result<(RemoteObject, Seq<Option<RemoteObject>>), RemoteError> {
    if fd >= slots.len() || slots[fd as int] is None {
        Err(RemoteError::BadFd)
    } else {
        let e = RemoteObject { revoked: true, ..slots[fd as int]->Some_0 };
        Ok((e, slots.update(fd as int, Some(e))))
    }
}

/// Live fds toward `node` held at another session generation than `session_generation`.
pub open spec fn stale_live_object(node: NodeId, session_generation: u16) -> spec_fn(Option<RemoteObject>) -> bool {
    |o: Option<RemoteObject>| live_object(Some(node))(o) && o->Some_0.session_generation != session_generation
}

/// Live fds toward `node`, or toward any node.
pub open spec fn live_object(node: Option<NodeId>) -> spec_fn(Option<RemoteObject>) -> bool {
    |o: Option<RemoteObject>| o is Some && !o->Some_0.revoked
        && (node is None || o->Some_0.target_node == node->Some_0)
}

/// The slots with every live fd toward `node` (or toward any node) revoked.
pub open spec fn spec_revoke_matching(slots: Seq<Option<RemoteObject>>, node: Option<NodeId>) -> Seq<Option<RemoteObject>> {
    Seq::new(slots.len(), |i: int| if live_object(node)(slots[i]) {
        Some(RemoteObject { revoked: true, ..slots[i]->Some_0 })
    } else {
        slots[i]
    })
}

/// Applying a remote control fact: a verified grant materializes an fd; a revocation revokes one.
pub open spec fn spec_apply_remote_control(m: RemoteTableModel, control: RemoteControl, node_id: NodeId, credential: SwarmCredential, session_generation: u16) -> (Result<RemoteObject, RemoteError>, RemoteTableModel) {
    match control {
        RemoteControl::CapGrant(g) => match spec_remote_grant_verify(g, node_id, credential, session_generation) {
            Err(e) => (Err(e), m),
            Ok(_) => spec_materialize(m, g.spec_route_key(), g.rights, g.resource),
        },
        RemoteControl::CapRevoke { fd } => match spec_revoke_fd_entry(m.slots, fd) {
            Err(e) => (Err(e), m),
            Ok(r) => (Ok(r.0), RemoteTableModel { slots: r.1, ..m }),
        },
    }
}

/// A table of `N` remote fds.
pub struct RemoteObjectTable<const N: usize> {
    slots: Vec<Option<RemoteObject>>,
    next_generation: u16,
    rejection_telemetry: RemoteRejectionTelemetry,
}

impl<const N: usize> RemoteObjectTable<N> {
    pub closed spec fn view(&self) -> RemoteTableModel {
        RemoteTableModel { slots: self.slots@, next_generation: self.next_generation }
    }

    pub closed spec fn telemetry(&self) -> RemoteRejectionTelemetry {
        self.rejection_telemetry
    }

    pub open spec fn wf(&self) -> bool {
        self.view().slots.len() == N
    }

    pub fn new() -> (out: Self)
        ensures
            out.wf(),
            out.view() == (RemoteTableModel { slots: Seq::new(N as nat, |i: int| None::<RemoteObject>), next_generation: 1 }),
            out.telemetry() == RemoteRejectionTelemetry::zero(),
    {
        let mut slots: Vec<Option<RemoteObject>> = Vec::new();
        let mut i: usize = 0;
        while i < N
            invariant
                i <= N,
                slots@ == Seq::new(i as nat, |k: int| None::<RemoteObject>),
            decreases N - i,
        {
            slots.push(None);
            i = i + 1;
            assert(slots@ =~= Seq::new(i as nat, |k: int| None::<RemoteObject>));
        }
        RemoteObjectTable { slots, next_generation: 1, rejection_telemetry: RemoteRejectionTelemetry::new() }
    }

    pub fn rejection_telemetry(&self) -> (out: RemoteRejectionTelemetry)
        ensures
            out == self.telemetry(),
    {
        self.rejection_telemetry
    }

    fn record_rejection(&mut self, error: RemoteError) -> (out: RemoteError)
        ensures
            out == error,
            final(self).view() == old(self).view(),
            final(self).telemetry() == old(self).telemetry().recorded(error),
    {
        self.rejection_telemetry.record(error);
        error
    }

    fn bump_generation(&mut self) -> (out: u16)
        ensures
            out == old(self).view().next_generation,
            final(self).view() == (RemoteTableModel { next_generation: next_nonzero(old(self).view().next_generation), ..old(self).view() }),
            final(self).telemetry() == old(self).telemetry(),
    {
        let generation = self.next_generation;
        self.next_generation = if generation == u16::MAX { 1 } else { generation + 1 };
        generation
    }

    fn materialize_cap_grant(&mut self, route_key: RemoteRoute, rights: RemoteRights, resource: RemoteResource) -> (out: Result<RemoteObject, RemoteError>)
        requires
            old(self).wf(),
        ensures
            final(self).wf(),
            ({
                let r = spec_materialize(old(self).view(), route_key, rights, resource);
                out == r.0 && final(self).view() == r.1
            }),
            final(self).telemetry() == remote_telemetry_after(old(self).telemetry(), out),
    {
        let n = self.slots.len();
        let mut i: usize = 0;
        while i < n && self.slots[i].is_some()
            invariant
                n == self.view().slots.len(),
                i <= n,
                forall|j: int| 0 <= j < i ==> !(#[trigger] free_remote_slot()(self.view().slots[j])),
            decreases n - i,
        {
            i = i + 1;
        }
        proof {
            lemma_first_index(self.view().slots, free_remote_slot());
        }
        if i == n {
            return Err(self.record_rejection(RemoteError::TableFull));
        }
        proof {
            lemma_first_index_at(self.view().slots, free_remote_slot(), i as int);
        }
        let fd = i as u8;
        let generation = self.bump_generation();
        let cap = RemoteObject {
            fd,
            generation,
            target_node: route_key.target_node(),
            target_role: route_key.target_role(),
            lane: route_key.lane(),
            route: route_key.route(),
            session_generation: route_key.session_generation(),
            policy_slot: route_key.policy_slot(),
            rights,
            resource,
            revoked: false,
        };
        assert((fd as usize) < n);
        self.slots.set(fd as usize, Some(cap));
        Ok(cap)
    }

    fn revoke_fd_entry(&mut self, fd: u8) -> (out: Result<RemoteObject, RemoteError>)
        requires
            old(self).wf(),
        ensures
            final(self).wf(),
            final(self).telemetry() == remote_telemetry_after(old(self).telemetry(), out),
            match spec_revoke_fd_entry(old(self).view().slots, fd) {
                Ok(r) => out == Ok::<RemoteObject, RemoteError>(r.0)
                    && final(self).view() == (RemoteTableModel { slots: r.1, ..old(self).view() }),
                Err(e) => out == Err::<RemoteObject, RemoteError>(e) && final(self).view() == old(self).view(),
            },
    {
        let idx = fd as usize;
        if idx >= self.slots.len() {
            return Err(self.record_rejection(RemoteError::BadFd));
        }
        match self.slots[idx] {
            None => Err(self.record_rejection(RemoteError::BadFd)),
            Some(entry) => {
                let revoked = RemoteObject { revoked: true, ..entry };
                self.slots.set(idx, Some(revoked));
                Ok(revoked)
            },
        }
    }

    pub fn apply_control(&mut self, control: RemoteControl, node_id: NodeId, credential: SwarmCredential, session_generation: u16) -> (out: Result<RemoteObject, RemoteError>)
        requires
            old(self).wf(),
        ensures
            final(self).wf(),
            ({
                let r = spec_apply_remote_control(old(self).view(), control, node_id, credential, session_generation);
                out == r.0 && final(self).view() == r.1
            }),
            final(self).telemetry() == remote_telemetry_after(old(self).telemetry(), out),
    {
        match control {
            RemoteControl::CapGrant(grant) => {
                match grant.verify(node_id, credential, session_generation) {
                    Ok(()) => {},
                    Err(error) => return Err(self.record_rejection(error)),
                }
                self.materialize_cap_grant(grant.route_key(), grant.rights, grant.resource)
            },
            RemoteControl::CapRevoke { fd } => self.revoke_fd_entry(fd),
        }
    }

    pub fn apply_cap_grant(&mut self, node_id: NodeId, credential: SwarmCredential, route: RemoteRoute, rights: RemoteRights, resource: RemoteResource) -> (out: Result<RemoteObject, RemoteError>)
        requires
            old(self).wf(),
        ensures
            final(self).wf(),
            ({
                let r = spec_materialize(old(self).view(), route, rights, resource);
                out == r.0 && final(self).view() == r.1
            }),
            final(self).telemetry() == remote_telemetry_after(old(self).telemetry(), out),
    {
        self.apply_cap_grant_with_policy(node_id, credential, route, rights, resource)
    }

    pub fn apply_cap_grant_with_policy(&mut self, node_id: NodeId, credential: SwarmCredential, route: RemoteRoute, rights: RemoteRights, resource: RemoteResource) -> (out: Result<RemoteObject, RemoteError>)
        requires
            old(self).wf(),
        ensures
            final(self).wf(),
            ({
                let r = spec_materialize(old(self).view(), route, rights, resource);
                out == r.0 && final(self).view() == r.1
            }),
            final(self).telemetry() == remote_telemetry_after(old(self).telemetry(), out),
    {
        let session_generation = route.session_generation();
        self.apply_control(RemoteControl::cap_grant_remote(node_id, credential, route, rights, resource), node_id, credential, session_generation)
    }

    pub fn apply_cap_grant_management(&mut self, node_id: NodeId, credential: SwarmCredential, route: RemoteRoute, rights: RemoteRights) -> (out: Result<RemoteObject, RemoteError>)
        requires
            old(self).wf(),
        ensures
            final(self).wf(),
            ({
                let r = spec_materialize(old(self).view(), route, rights, RemoteResource::Management);
                out == r.0 && final(self).view() == r.1
            }),
            final(self).telemetry() == remote_telemetry_after(old(self).telemetry(), out),
    {
        let session_generation = route.session_generation();
        self.apply_control(RemoteControl::cap_grant_management(node_id, credential, route, rights), node_id, credential, session_generation)
    }

    pub fn apply_cap_grant_telemetry(&mut self, node_id: NodeId, credential: SwarmCredential, route: RemoteRoute, rights: RemoteRights) -> (out: Result<RemoteObject, RemoteError>)
        requires
            old(self).wf(),
        ensures
            final(self).wf(),
            ({
                let r = spec_materialize(old(self).view(), route, rights, RemoteResource::Telemetry);
                out == r.0 && final(self).view() == r.1
            }),
            final(self).telemetry() == remote_telemetry_after(old(self).telemetry(), out),
    {
        let session_generation = route.session_generation();
        self.apply_control(RemoteControl::cap_grant_telemetry(node_id, credential, route, rights), node_id, credential, session_generation)
    }

    /// Applies a control fact inside a transaction that must be committed at the session generation.
    pub fn apply_control_in_tx(&mut self, control: RemoteControl, node_id: NodeId, credential: SwarmCredential, session_generation: u16, tx: ObjectTransaction) -> (out: Result<RemoteObject, RemoteError>)
        requires
            old(self).wf(),
        ensures
            final(self).wf(),
            final(self).telemetry() == remote_telemetry_after(old(self).telemetry(), out),
            tx.generation != session_generation ==> out == Err::<RemoteObject, RemoteError>(RemoteError::BadSessionGeneration)
                && final(self).view() == old(self).view(),
            tx.generation == session_generation && tx.decision != ObjectTransactionDecision::Commit ==>
                out == Err::<RemoteObject, RemoteError>(RemoteError::PolicyDenied) && final(self).view() == old(self).view(),
            tx.generation == session_generation && tx.decision == ObjectTransactionDecision::Commit ==> ({
                let r = spec_apply_remote_control(old(self).view(), control, node_id, credential, session_generation);
                out == r.0 && final(self).view() == r.1
            }),
    {
        if tx.generation() != session_generation {
            return Err(self.record_rejection(RemoteError::BadSessionGeneration));
        }
        if !tx.is_commit() {
            return Err(self.record_rejection(RemoteError::PolicyDenied));
        }
        self.apply_control(control, node_id, credential, session_generation)
    }

    fn validate_route(entry: RemoteObject, route: RemoteRoute) -> (out: Result<(), RemoteError>)
        ensures
            out == spec_validate_route(entry, route),
    {
        if entry.target_node != route.target_node || entry.target_role != route.target_role || entry.lane != route.lane
            || entry.route != route.route || entry.policy_slot != route.policy_slot {
            return Err(RemoteError::BadRoute);
        }
        Ok(())
    }

    pub fn resolve(&mut self, fd: u8, generation: u16, required: RemoteRights, session_generation: u16) -> (out: Result<RemoteObject, RemoteError>)
        requires
            old(self).wf(),
        ensures
            final(self).wf(),
            final(self).view() == old(self).view(),
            out == spec_resolve_remote(old(self).view().slots, fd, generation, required, session_generation),
            final(self).telemetry() == remote_telemetry_after(old(self).telemetry(), out),
    {
        let idx = fd as usize;
        if idx >= self.slots.len() {
            return Err(self.record_rejection(RemoteError::BadFd));
        }
        let entry = match self.slots[idx] {
            Some(entry) => entry,
            None => return Err(self.record_rejection(RemoteError::BadFd)),
        };
        if entry.revoked {
            return Err(self.record_rejection(RemoteError::Revoked));
        }
        if entry.generation != generation {
            return Err(self.record_rejection(RemoteError::BadGeneration));
        }
        if entry.session_generation != session_generation {
            return Err(self.record_rejection(RemoteError::BadSessionGeneration));
        }
        if !entry.rights.allows(required) {
            return Err(self.record_rejection(RemoteError::PermissionDenied));
        }
        Ok(entry)
    }

    pub fn resolve_routed(&mut self, fd: u8, generation: u16, required: RemoteRights, route: RemoteRoute) -> (out: Result<RemoteObject, RemoteError>)
        requires
            old(self).wf(),
        ensures
            final(self).wf(),
            final(self).view() == old(self).view(),
            out == spec_resolve_routed(old(self).view().slots, fd, generation, required, route),
            final(self).telemetry() == remote_telemetry_after(old(self).telemetry(), out),
    {
        let entry = self.resolve(fd, generation, required, route.session_generation)?;
        match Self::validate_route(entry, route) {
            Ok(()) => Ok(entry),
            Err(error) => Err(self.record_rejection(error)),
        }
    }

    fn write_route(&mut self, r: Result<RemoteObject, RemoteError>) -> (out: RemoteFdWriteRoute)
        ensures
            out == write_route_of(r),
            final(self).view() == old(self).view(),
            final(self).telemetry() == (match r {
                Ok(e) => if e.resource == RemoteResource::Sensor { old(self).telemetry().recorded(RemoteError::WrongResource) } else { old(self).telemetry() },
                Err(_) => old(self).telemetry(),
            }),
    {
        match r {
            Ok(cap) => match cap.resource() {
                RemoteResource::Actuator => RemoteFdWriteRoute::RemoteActuator(cap),
                RemoteResource::Management => RemoteFdWriteRoute::RemoteManagement(cap),
                RemoteResource::Telemetry => RemoteFdWriteRoute::RemoteTelemetry(cap),
                RemoteResource::Sensor => RemoteFdWriteRoute::Rejected(self.record_rejection(RemoteError::WrongResource)),
            },
            Err(error) => RemoteFdWriteRoute::Rejected(error),
        }
    }

    fn read_route(&mut self, r: Result<RemoteObject, RemoteError>) -> (out: RemoteFdReadRoute)
        ensures
            out == read_route_of(r),
            final(self).view() == old(self).view(),
            final(self).telemetry() == (match r {
                Ok(e) => if e.resource != RemoteResource::Sensor { old(self).telemetry().recorded(RemoteError::WrongResource) } else { old(self).telemetry() },
                Err(_) => old(self).telemetry(),
            }),
    {
        match r {
            Ok(cap) => match cap.resource() {
                RemoteResource::Sensor => RemoteFdReadRoute::RemoteSensor(cap),
                _ => RemoteFdReadRoute::Rejected(self.record_rejection(RemoteError::WrongResource)),
            },
            Err(error) => RemoteFdReadRoute::Rejected(error),
        }
    }

    pub fn route_fd_write(&mut self, fd: u8, generation: u16, session_generation: u16) -> (out: RemoteFdWriteRoute)
        requires
            old(self).wf(),
        ensures
            final(self).wf(),
            final(self).view() == old(self).view(),
            out == write_route_of(spec_resolve_remote(old(self).view().slots, fd, generation, RemoteRights::Write, session_generation)),
            final(self).telemetry() == remote_telemetry_after(old(self).telemetry(),
                writable(spec_resolve_remote(old(self).view().slots, fd, generation, RemoteRights::Write, session_generation))),
    {
        let r = self.resolve(fd, generation, RemoteRights::Write, session_generation);
        self.write_route(r)
    }

    pub fn route_fd_write_routed(&mut self, fd: u8, generation: u16, route: RemoteRoute) -> (out: RemoteFdWriteRoute)
        requires
            old(self).wf(),
        ensures
            final(self).wf(),
            final(self).view() == old(self).view(),
            out == write_route_of(spec_resolve_routed(old(self).view().slots, fd, generation, RemoteRights::Write, route)),
            final(self).telemetry() == remote_telemetry_after(old(self).telemetry(),
                writable(spec_resolve_routed(old(self).view().slots, fd, generation, RemoteRights::Write, route))),
    {
        let r = self.resolve_routed(fd, generation, RemoteRights::Write, route);
        self.write_route(r)
    }

    pub fn route_fd_write_authorized<const P: usize>(&mut self, fd: u8, generation: u16, route: RemoteRoute, policy: &PolicySlotTable<P>) -> (out: RemoteFdWriteRoute)
        requires
            old(self).wf(),
            policy.wf(),
        ensures
            final(self).wf(),
            final(self).view() == old(self).view(),
            !policy.spec_is_allowed(route.policy_slot) ==> out == RemoteFdWriteRoute::Rejected(RemoteError::PolicyDenied)
                && final(self).telemetry() == old(self).telemetry().recorded(RemoteError::PolicyDenied),
            policy.spec_is_allowed(route.policy_slot) ==>
                out == write_route_of(spec_resolve_routed(old(self).view().slots, fd, generation, RemoteRights::Write, route))
                && final(self).telemetry() == remote_telemetry_after(old(self).telemetry(),
                    writable(spec_resolve_routed(old(self).view().slots, fd, generation, RemoteRights::Write, route))),
    {
        if !policy.is_allowed(route.policy_slot()) {
            return RemoteFdWriteRoute::Rejected(self.record_rejection(RemoteError::PolicyDenied));
        }
        self.route_fd_write_routed(fd, generation, route)
    }

    pub fn route_fd_read(&mut self, fd: u8, generation: u16, session_generation: u16) -> (out: RemoteFdReadRoute)
        requires
            old(self).wf(),
        ensures
            final(self).wf(),
            final(self).view() == old(self).view(),
            out == read_route_of(spec_resolve_remote(old(self).view().slots, fd, generation, RemoteRights::Read, session_generation)),
            final(self).telemetry() == remote_telemetry_after(old(self).telemetry(),
                sensor_read(spec_resolve_remote(old(self).view().slots, fd, generation, RemoteRights::Read, session_generation))),
    {
        let r = self.resolve(fd, generation, RemoteRights::Read, session_generation);
        self.read_route(r)
    }

    pub fn route_fd_read_routed(&mut self, fd: u8, generation: u16, route: RemoteRoute) -> (out: RemoteFdReadRoute)
        requires
            old(self).wf(),
        ensures
            final(self).wf(),
            final(self).view() == old(self).view(),
            out == read_route_of(spec_resolve_routed(old(self).view().slots, fd, generation, RemoteRights::Read, route)),
            final(self).telemetry() == remote_telemetry_after(old(self).telemetry(),
                sensor_read(spec_resolve_routed(old(self).view().slots, fd, generation, RemoteRights::Read, route))),
    {
        let r = self.resolve_routed(fd, generation, RemoteRights::Read, route);
        self.read_route(r)
    }

    pub fn route_fd_read_authorized<const P: usize>(&mut self, fd: u8, generation: u16, route: RemoteRoute, policy: &PolicySlotTable<P>) -> (out: RemoteFdReadRoute)
        requires
            old(self).wf(),
            policy.wf(),
        ensures
            final(self).wf(),
            final(self).view() == old(self).view(),
            !policy.spec_is_allowed(route.policy_slot) ==> out == RemoteFdReadRoute::Rejected(RemoteError::PolicyDenied)
                && final(self).telemetry() == old(self).telemetry().recorded(RemoteError::PolicyDenied),
            policy.spec_is_allowed(route.policy_slot) ==>
                out == read_route_of(spec_resolve_routed(old(self).view().slots, fd, generation, RemoteRights::Read, route))
                && final(self).telemetry() == remote_telemetry_after(old(self).telemetry(),
                    sensor_read(spec_resolve_routed(old(self).view().slots, fd, generation, RemoteRights::Read, route))),
    {
        if !policy.is_allowed(route.policy_slot()) {
            return RemoteFdReadRoute::Rejected(self.record_rejection(RemoteError::PolicyDenied));
        }
        self.route_fd_read_routed(fd, generation, route)
    }

    fn revoke_matching(&mut self, node: Option<NodeId>) -> (out: usize)
        requires
            old(self).wf(),
        ensures
            final(self).wf(),
            out == count(old(self).view().slots, live_object(node)),
            final(self).view() == (RemoteTableModel { slots: spec_revoke_matching(old(self).view().slots, node), ..old(self).view() }),
            final(self).telemetry() == old(self).telemetry(),
    {
        let ghost s = self.view().slots;
        let n = self.slots.len();
        let mut revoked: usize = 0;
        let mut i: usize = 0;
        while i < n
            invariant
                n == s.len(),
                n == N,
                self.wf(),
                i <= n,
                revoked == count_upto(s, live_object(node), i as int),
                self.view().next_generation == old(self).view().next_generation,
                self.telemetry() == old(self).telemetry(),
                s == old(self).view().slots,
                forall|j: int| 0 <= j < i ==> #[trigger] self.view().slots[j] == spec_revoke_matching(s, node)[j],
                forall|j: int| i <= j < n ==> #[trigger] self.view().slots[j] == s[j],
            decreases n - i,
        {
            proof {
                lemma_count_upto_bound(s, live_object(node), i as int);
            }
            match self.slots[i] {
                Some(entry) => {
                    let hit = !entry.revoked && match node {
                        Some(target) => entry.target_node == target,
                        None => true,
                    };
                    if hit {
                        self.slots.set(i, Some(RemoteObject { revoked: true, ..entry }));
                        revoked = revoked + 1;
                    }
                },
                None => {},
            }
            i = i + 1;
        }
        assert(self.view().slots =~= spec_revoke_matching(s, node));
        revoked
    }

    pub fn revoke_node(&mut self, node_id: NodeId) -> (out: usize)
        requires
            old(self).wf(),
        ensures
            final(self).wf(),
            out == count(old(self).view().slots, live_object(Some(node_id))),
            final(self).view() == (RemoteTableModel { slots: spec_revoke_matching(old(self).view().slots, Some(node_id)), ..old(self).view() }),
            final(self).telemetry() == old(self).telemetry(),
    {
        self.revoke_matching(Some(node_id))
    }

    pub fn revoke_node_generation(&mut self, node_id: NodeId, session_generation: u16) -> (out: Result<usize, RemoteError>)
        requires
            old(self).wf(),
        ensures
            final(self).wf(),
            final(self).telemetry() == remote_telemetry_after(old(self).telemetry(), out),
            ({
                if first_index(old(self).view().slots, stale_live_object(node_id, session_generation)) < old(self).view().slots.len() {
                    out == Err::<usize, RemoteError>(RemoteError::BadSessionGeneration) && final(self).view() == old(self).view()
                } else {
                    out == Ok::<usize, RemoteError>(count(old(self).view().slots, live_object(Some(node_id))) as usize)
                        && final(self).view() == (RemoteTableModel { slots: spec_revoke_matching(old(self).view().slots, Some(node_id)), ..old(self).view() })
                }
            }),
    {
        let ghost s = self.view().slots;
        let n = self.slots.len();
        let mut i: usize = 0;
        while i < n
            invariant
                s == self.view().slots,
                *self == *old(self),
                old(self).wf(),
                n == s.len(),
                i <= n,
                forall|j: int| 0 <= j < i ==> !(#[trigger] stale_live_object(node_id, session_generation)(s[j])),
            decreases n - i,
        {
            match self.slots[i] {
                Some(entry) => {
                    if entry.target_node == node_id && !entry.revoked && entry.session_generation != session_generation {
                        proof {
                            lemma_first_index_at(s, stale_live_object(node_id, session_generation), i as int);
                        }
                        return Err(self.record_rejection(RemoteError::BadSessionGeneration));
                    }
                },
                None => {},
            }
            i = i + 1;
        }
        proof {
            lemma_first_index(s, stale_live_object(node_id, session_generation));
        }
        let revoked = self.revoke_matching(Some(node_id));
        Ok(revoked)
    }

    pub fn revoke_fd(&mut self, fd: u8) -> (out: Result<(), RemoteError>)
        requires
            old(self).wf(),
        ensures
            final(self).wf(),
            final(self).telemetry() == remote_telemetry_after(old(self).telemetry(), out),
            match spec_revoke_fd_entry(old(self).view().slots, fd) {
                Ok(r) => out is Ok && final(self).view() == (RemoteTableModel { slots: r.1, ..old(self).view() }),
                Err(e) => out == Err::<(), RemoteError>(e) && final(self).view() == old(self).view(),
            },
    {
        match self.revoke_fd_entry(fd) {
            Ok(_) => Ok(()),
            Err(e) => Err(e),
        }
    }

    pub fn quiesce_all(&mut self) -> (out: usize)
        requires
            old(self).wf(),
        ensures
            final(self).wf(),
            out == count(old(self).view().slots, live_object(None)),
            final(self).view() == (RemoteTableModel { slots: spec_revoke_matching(old(self).view().slots, None), ..old(self).view() }),
            final(self).telemetry() == old(self).telemetry(),
    {
        self.revoke_matching(None)
    }

    pub fn has_active(&self) -> (out: bool)
        ensures
            out == (first_index(self.view().slots, live_object(None)) < self.view().slots.len()),
    {
        let ghost s = self.view().slots;
        let n = self.slots.len();
        let mut i: usize = 0;
        while i < n
            invariant
                s == self.view().slots,
                n == s.len(),
                i <= n,
                forall|j: int| 0 <= j < i ==> !(#[trigger] live_object(None)(s[j])),
            decreases n - i,
        {
            match self.slots[i] {
                Some(entry) => {
                    if !entry.revoked {
                        proof {
                            lemma_first_index_at(s, live_object(None), i as int);
                        }
                        return true;
                    }
                },
                None => {},
            }
            i = i + 1;
        }
        proof {
            lemma_first_index(s, live_object(None));
        }
        false
    }
}

impl<const N: usize> Default for RemoteObjectTable<N> {
    fn default() -> (out: Self)
        ensures
            out.wf(),
            out.view() == (RemoteTableModel { slots: Seq::new(N as nat, |i: int| None::<RemoteObject>), next_generation: 1 }),
            out.telemetry() == RemoteRejectionTelemetry::zero(),
    {
        Self::new()
    }
}

/// A revoked fd resolves to `Revoked` at any generation, rights and session: revocation fails closed.
pub proof fn lemma_revoked_fd_does_not_resolve(slots: Seq<Option<RemoteObject>>, fd: u8, generation: u16, required: RemoteRights, session_generation: u16)
    requires
        spec_revoke_fd_entry(slots, fd) is Ok,
    ensures
        spec_resolve_remote(spec_revoke_fd_entry(slots, fd)->Ok_0.1, fd, generation, required, session_generation)
            == Err::<RemoteObject, RemoteError>(RemoteError::Revoked),
{
}

/// After quiescing, no fd is live and every fd resolves to `Revoked` or `BadFd`.
pub proof fn lemma_quiesce_leaves_nothing_active(slots: Seq<Option<RemoteObject>>, fd: u8, generation: u16, required: RemoteRights, session_generation: u16)
    ensures
        ({
            let q = spec_revoke_matching(slots, None);
            &&& first_index(q, live_object(None)) == q.len()
            &&& spec_resolve_remote(q, fd, generation, required, session_generation) is Err
        }),
{
    let q = spec_revoke_matching(slots, None);
    assert forall|j: int| 0 <= j < q.len() implies !(#[trigger] live_object(None)(q[j])) by {}
    lemma_first_index(q, live_object(None));
}


/// Revoking a node's fds revokes exactly the live fds toward that node: every other slot
/// (empty, already revoked, or toward another node) stays as it was, and a revoked fd keeps
/// all its other fields.
pub proof fn lemma_revoke_node_touches_only_that_node(slots: Seq<Option<RemoteObject>>, node: NodeId)
    ensures
        spec_revoke_matching(slots, Some(node)).len() == slots.len(),
        forall|i: int| 0 <= i < slots.len() && (slots[i] is None || slots[i]->Some_0.target_node != node
            || slots[i]->Some_0.revoked) ==> #[trigger] spec_revoke_matching(slots, Some(node))[i] == slots[i],
        forall|i: int| 0 <= i < slots.len() && slots[i] is Some && slots[i]->Some_0.target_node == node
            && !slots[i]->Some_0.revoked ==> #[trigger] spec_revoke_matching(slots, Some(node))[i]
                == Some(RemoteObject { revoked: true, ..slots[i]->Some_0 }),
{
}

} // verus!
