//! The guest-visible fd view: which fds a guest holds, with which rights, on which route.
use vstd::prelude::*;
use crate::seqs::{first_index, count, count_upto, lemma_first_index, lemma_first_index_at, lemma_count_upto_bound};
use crate::kernel::policy::PolicySlotTable;

verus! {

/// Why an fd in the view cannot be used or changed.
#[derive(Clone, Copy, Debug, PartialEq, Eq, Structural)]
pub enum PicoFdError {
    TableFull,
    BadFd,
    BadGeneration,
    PermissionDenied,
    WrongResource,
    BadRoute,
    BadSessionGeneration,
    PolicyDenied,
    Revoked,
}

/// Counters of rejected fd-view requests, grouped by cause.
#[derive(Clone, Copy, Debug, Default, PartialEq, Eq, Structural)]
pub struct PicoFdRejectionTelemetry {
    pub bad_fd: u16,
    pub bad_generation: u16,
    pub permission_denied: u16,
    pub wrong_resource: u16,
    pub bad_route: u16,
    pub revoked: u16,
    pub other: u16,
}

impl PicoFdRejectionTelemetry {
    /// Every counter at zero.
    pub open spec fn zero() -> Self {
        PicoFdRejectionTelemetry {
            bad_fd: 0, bad_generation: 0, permission_denied: 0, wrong_resource: 0,
            bad_route: 0, revoked: 0, other: 0,
        }
    }

    pub fn new() -> (out: Self)
        ensures
            out == Self::zero(),
    {
        Self { bad_fd: 0, bad_generation: 0, permission_denied: 0, wrong_resource: 0, bad_route: 0, revoked: 0, other: 0 }
    }

    pub fn bad_fd(self) -> (out: u16)
        ensures
            out == self.bad_fd,
    {
        self.bad_fd
    }

    pub fn bad_generation(self) -> (out: u16)
        ensures
            out == self.bad_generation,
    {
        self.bad_generation
    }

    pub fn permission_denied(self) -> (out: u16)
        ensures
            out == self.permission_denied,
    {
        self.permission_denied
    }

    pub fn wrong_resource(self) -> (out: u16)
        ensures
            out == self.wrong_resource,
    {
        self.wrong_resource
    }

    pub fn bad_route(self) -> (out: u16)
        ensures
            out == self.bad_route,
    {
        self.bad_route
    }

    pub fn revoked(self) -> (out: u16)
        ensures
            out == self.revoked,
    {
        self.revoked
    }

    pub fn other(self) -> (out: u16)
        ensures
            out == self.other,
    {
        self.other
    }

    /// The sum of every counter, saturating at `u16::MAX` at each step.
    pub open spec fn spec_total(self) -> u16 {
        self.bad_fd.saturating_add(self.bad_generation).saturating_add(self.permission_denied)
            .saturating_add(self.wrong_resource).saturating_add(self.bad_route)
            .saturating_add(self.revoked).saturating_add(self.other)
    }

    pub fn total(self) -> (out: u16)
        ensures
            out == self.spec_total(),
    {
        self.bad_fd.saturating_add(self.bad_generation).saturating_add(self.permission_denied)
            .saturating_add(self.wrong_resource).saturating_add(self.bad_route)
            .saturating_add(self.revoked).saturating_add(self.other)
    }

    /// The counters after one rejection with `error`.
    pub open spec fn recorded(self, error: PicoFdError) -> Self {
        match error {
            PicoFdError::BadFd => PicoFdRejectionTelemetry { bad_fd: self.bad_fd.saturating_add(1), ..self },
            PicoFdError::BadGeneration | PicoFdError::BadSessionGeneration =>
                PicoFdRejectionTelemetry { bad_generation: self.bad_generation.saturating_add(1), ..self },
            PicoFdError::PermissionDenied | PicoFdError::PolicyDenied =>
                PicoFdRejectionTelemetry { permission_denied: self.permission_denied.saturating_add(1), ..self },
            PicoFdError::WrongResource =>
                PicoFdRejectionTelemetry { wrong_resource: self.wrong_resource.saturating_add(1), ..self },
            PicoFdError::BadRoute => PicoFdRejectionTelemetry { bad_route: self.bad_route.saturating_add(1), ..self },
            PicoFdError::Revoked => PicoFdRejectionTelemetry { revoked: self.revoked.saturating_add(1), ..self },
            PicoFdError::TableFull => PicoFdRejectionTelemetry { other: self.other.saturating_add(1), ..self },
        }
    }

    fn record(&mut self, error: PicoFdError)
        ensures
            *final(self) == old(self).recorded(error),
    {
        match error {
            PicoFdError::BadFd => self.bad_fd = self.bad_fd.saturating_add(1),
            PicoFdError::BadGeneration | PicoFdError::BadSessionGeneration =>
                self.bad_generation = self.bad_generation.saturating_add(1),
            PicoFdError::PermissionDenied | PicoFdError::PolicyDenied =>
                self.permission_denied = self.permission_denied.saturating_add(1),
            PicoFdError::WrongResource => self.wrong_resource = self.wrong_resource.saturating_add(1),
            PicoFdError::BadRoute => self.bad_route = self.bad_route.saturating_add(1),
            PicoFdError::Revoked => self.revoked = self.revoked.saturating_add(1),
            PicoFdError::TableFull => self.other = self.other.saturating_add(1),
        }
    }
}

/// The rights an fd carries.
#[derive(Clone, Copy, Debug, PartialEq, Eq, Structural)]
pub enum PicoFdRights {
    NoAccess,
    Read,
    Write,
    ReadWrite,
}

impl PicoFdRights {
    pub open spec fn spec_bits(self) -> u8 {
        match self {
            PicoFdRights::NoAccess => 0,
            PicoFdRights::Read => 1,
            PicoFdRights::Write => 2,
            PicoFdRights::ReadWrite => 3,
        }
    }

    /// Whether these rights include every right in `required`.
    pub open spec fn spec_allows(self, required: Self) -> bool {
        match required {
            PicoFdRights::NoAccess => true,
            PicoFdRights::Read => self is Read || self is ReadWrite,
            PicoFdRights::Write => self is Write || self is ReadWrite,
            PicoFdRights::ReadWrite => self is ReadWrite,
        }
    }

    fn bits(self) -> (out: u8)
        ensures
            out == self.spec_bits(),
    {
        match self {
            PicoFdRights::NoAccess => 0,
            PicoFdRights::Read => 1,
            PicoFdRights::Write => 2,
            PicoFdRights::ReadWrite => 3,
        }
    }

    #[verifier::when_used_as_spec(spec_allows)]
    pub fn allows(self, required: Self) -> (out: bool)
        ensures
            out == self.spec_allows(required),
    {
        let have = self.bits();
        let need = required.bits();
        let r = have & need == need;
        assert(r == self.spec_allows(required)) by {
            assert(0u8 & 0u8 == 0u8 && 1u8 & 0u8 == 0u8 && 2u8 & 0u8 == 0u8 && 3u8 & 0u8 == 0u8
                && 0u8 & 1u8 == 0u8 && 1u8 & 1u8 == 1u8 && 2u8 & 1u8 == 0u8 && 3u8 & 1u8 == 1u8
                && 0u8 & 2u8 == 0u8 && 1u8 & 2u8 == 0u8 && 2u8 & 2u8 == 2u8 && 3u8 & 2u8 == 2u8
                && 0u8 & 3u8 == 0u8 && 1u8 & 3u8 == 1u8 && 2u8 & 3u8 == 2u8 && 3u8 & 3u8 == 3u8)
                by (bit_vector);
        }
        r
    }
}

/// The kind of resource an fd stands for.
#[derive(Clone, Copy, Debug, PartialEq, Eq, Structural)]
pub enum ChoreoResourceKind {
    Stdin,
    Stdout,
    Stderr,
    Gpio,
    Uart,
    Timer,
    LocalSensor,
    LocalActuator,
    NetworkDatagram,
    NetworkStream,
    Telemetry,
    Management,
    Gateway,
    InterruptSubscription,
    PreopenRoot,
    ChoreoObject,
    DirectoryView,
    NetworkListener,
    RemoteObject,
    EphemeralPipe,
}

/// Whether a view came from a grant or a mint.
#[derive(Clone, Copy, Debug, PartialEq, Eq, Structural)]
pub enum PicoFdViewSource {
    Grant,
    Mint,
}

/// The route an fd is bound to: target node and role, lane, label, session generation and policy slot.
#[derive(Clone, Copy, Debug, PartialEq, Eq, Structural)]
pub struct PicoFdRoute {
    pub target_node: u8,
    pub target_role: u16,
    pub lane: u8,
    pub route_label: u8,
    pub session_generation: u16,
    pub policy_slot: u8,
}

impl PicoFdRoute {
    pub fn new(target_node: u8, target_role: u16, lane: u8, route_label: u8, session_generation: u16, policy_slot: u8) -> (out: Self)
        ensures
            out.target_node == target_node,
            out.target_role == target_role,
            out.lane == lane,
            out.route_label == route_label,
            out.session_generation == session_generation,
            out.policy_slot == policy_slot,
    {
        Self { target_node, target_role, lane, route_label, session_generation, policy_slot }
    }

    pub fn target_node(&self) -> (out: u8)
        ensures
            out == self.target_node,
    {
        self.target_node
    }

    pub fn target_role(&self) -> (out: u16)
        ensures
            out == self.target_role,
    {
        self.target_role
    }

    pub fn lane(&self) -> (out: u8)
        ensures
            out == self.lane,
    {
        self.lane
    }

    pub fn route_label(&self) -> (out: u8)
        ensures
            out == self.route_label,
    {
        self.route_label
    }

    pub fn session_generation(&self) -> (out: u16)
        ensures
            out == self.session_generation,
    {
        self.session_generation
    }

    pub fn policy_slot(&self) -> (out: u8)
        ensures
            out == self.policy_slot,
    {
        self.policy_slot
    }
}

/// A snapshot of everything an fd view names.
#[derive(Clone, Copy, Debug, PartialEq, Eq, Structural)]
pub struct PicoFdMaterializedView {
    pub fd: u8,
    pub generation: u16,
    pub source: PicoFdViewSource,
    pub rights: PicoFdRights,
    pub resource: ChoreoResourceKind,
    pub choreo_resource_kind: ChoreoResourceKind,
    pub choreo_object_id: u16,
    pub choreo_object_generation: u16,
    pub route: PicoFdRoute,
}

impl PicoFdMaterializedView {
    pub fn fd(self) -> (out: u8)
        ensures
            out == self.fd,
    {
        self.fd
    }

    pub fn generation(self) -> (out: u16)
        ensures
            out == self.generation,
    {
        self.generation
    }

    pub fn source(self) -> (out: PicoFdViewSource)
        ensures
            out == self.source,
    {
        self.source
    }

    pub fn rights(self) -> (out: PicoFdRights)
        ensures
            out == self.rights,
    {
        self.rights
    }

    pub fn resource(self) -> (out: ChoreoResourceKind)
        ensures
            out == self.resource,
    {
        self.resource
    }

    pub fn choreo_resource_kind(self) -> (out: ChoreoResourceKind)
        ensures
            out == self.choreo_resource_kind,
    {
        self.choreo_resource_kind
    }

    pub fn choreo_object_id(self) -> (out: u16)
        ensures
            out == self.choreo_object_id,
    {
        self.choreo_object_id
    }

    pub fn choreo_object_generation(self) -> (out: u16)
        ensures
            out == self.choreo_object_generation,
    {
        self.choreo_object_generation
    }

    pub fn route(self) -> (out: PicoFdRoute)
        ensures
            out == self.route,
    {
        self.route
    }
}
/// A grant (or mint) of an fd, carrying the whole route it is bound to.
#[derive(Clone, Copy, Debug, PartialEq, Eq, Structural)]
pub struct PicoFdGrant {
    pub fd: u8,
    pub rights: PicoFdRights,
    pub resource: ChoreoResourceKind,
    pub lane: u8,
    pub route_label: u8,
    pub choreo_object_id: u16,
    pub target_node: u8,
    pub target_role: u16,
    pub session_generation: u16,
    pub choreo_object_generation: u16,
    pub policy_slot: u8,
}

impl PicoFdGrant {
    /// The grant built by `new_mint` with the route's session generation as object generation.
    pub open spec fn spec_new_mint(
        fd: u8,
        rights: PicoFdRights,
        resource: ChoreoResourceKind,
        choreo_object_id: u16,
        choreo_object_generation: u16,
        route: PicoFdRoute,
    ) -> Self {
        PicoFdGrant {
            fd,
            rights,
            resource,
            lane: route.lane,
            route_label: route.route_label,
            choreo_object_id,
            target_node: route.target_node,
            target_role: route.target_role,
            session_generation: route.session_generation,
            choreo_object_generation,
            policy_slot: route.policy_slot,
        }
    }

    pub fn new(
        fd: u8,
        rights: PicoFdRights,
        resource: ChoreoResourceKind,
        choreo_object_id: u16,
        route: PicoFdRoute,
    ) -> (out: Self)
        ensures
            out == Self::spec_new_mint(fd, rights, resource, choreo_object_id, route.session_generation, route),
    {
        Self::new_mint(fd, rights, resource, choreo_object_id, route.session_generation, route)
    }

    pub fn new_mint(
        fd: u8,
        rights: PicoFdRights,
        resource: ChoreoResourceKind,
        choreo_object_id: u16,
        choreo_object_generation: u16,
        route: PicoFdRoute,
    ) -> (out: Self)
        ensures
            out == Self::spec_new_mint(fd, rights, resource, choreo_object_id, choreo_object_generation, route),
    {
        Self {
            fd,
            rights,
            resource,
            lane: route.lane,
            route_label: route.route_label,
            choreo_object_id,
            target_node: route.target_node,
            target_role: route.target_role,
            session_generation: route.session_generation,
            choreo_object_generation,
            policy_slot: route.policy_slot,
        }
    }

    pub fn fd(self) -> (out: u8)
        ensures
            out == self.fd,
    {
        self.fd
    }

    pub fn rights(self) -> (out: PicoFdRights)
        ensures
            out == self.rights,
    {
        self.rights
    }

    pub fn resource(self) -> (out: ChoreoResourceKind)
        ensures
            out == self.resource,
    {
        self.resource
    }
}

/// A control message that changes the fd view.
#[derive(Clone, Copy, Debug, PartialEq, Eq, Structural)]
pub enum PicoFdControl {
    CapGrant(PicoFdGrant),
    CapMint(PicoFdGrant),
    CapRestrict { fd: u8, generation: u16, rights: PicoFdRights },
    CapRevoke { fd: u8 },
    CapClose { fd: u8, generation: u16 },
}

impl PicoFdControl {
    pub fn cap_grant(
        fd: u8,
        rights: PicoFdRights,
        resource: ChoreoResourceKind,
        choreo_object_id: u16,
        route: PicoFdRoute,
    ) -> (out: Self)
        ensures
            out == PicoFdControl::CapGrant(
                PicoFdGrant::spec_new_mint(fd, rights, resource, choreo_object_id, route.session_generation, route),
            ),
    {
        PicoFdControl::CapGrant(PicoFdGrant::new(fd, rights, resource, choreo_object_id, route))
    }

    pub fn cap_mint(
        fd: u8,
        rights: PicoFdRights,
        resource: ChoreoResourceKind,
        choreo_object_id: u16,
        choreo_object_generation: u16,
        route: PicoFdRoute,
    ) -> (out: Self)
        ensures
            out == PicoFdControl::CapMint(
                PicoFdGrant::spec_new_mint(fd, rights, resource, choreo_object_id, choreo_object_generation, route),
            ),
    {
        PicoFdControl::CapMint(
            PicoFdGrant::new_mint(fd, rights, resource, choreo_object_id, choreo_object_generation, route),
        )
    }
}

/// One fd held in the view.
#[derive(Clone, Copy, Debug, PartialEq, Eq, Structural)]
pub struct PicoFdViewEntry {
    pub fd: u8,
    pub generation: u16,
    pub source: PicoFdViewSource,
    pub rights: PicoFdRights,
    pub resource: ChoreoResourceKind,
    pub lane: u8,
    pub route_label: u8,
    pub wait_or_subscription_id: u16,
    pub target_node: u8,
    pub target_role: u16,
    pub session_generation: u16,
    pub choreo_object_generation: u16,
    pub policy_slot: u8,
    pub revoked: bool,
}

impl PicoFdViewEntry {
    pub open spec fn spec_route(&self) -> PicoFdRoute {
        PicoFdRoute {
            target_node: self.target_node,
            target_role: self.target_role,
            lane: self.lane,
            route_label: self.route_label,
            session_generation: self.session_generation,
            policy_slot: self.policy_slot,
        }
    }

    /// The entry that a grant materializes with a fresh generation.
    pub open spec fn from_grant(grant: PicoFdGrant, source: PicoFdViewSource, generation: u16) -> Self {
        PicoFdViewEntry {
            fd: grant.fd,
            generation,
            source,
            rights: grant.rights,
            resource: grant.resource,
            lane: grant.lane,
            route_label: grant.route_label,
            wait_or_subscription_id: grant.choreo_object_id,
            target_node: grant.target_node,
            target_role: grant.target_role,
            session_generation: grant.session_generation,
            choreo_object_generation: grant.choreo_object_generation,
            policy_slot: grant.policy_slot,
            revoked: false,
        }
    }
    pub fn fd(&self) -> (out: u8)
        ensures
            out == self.fd,
    {
        self.fd
    }

    pub fn generation(&self) -> (out: u16)
        ensures
            out == self.generation,
    {
        self.generation
    }

    pub fn source(&self) -> (out: PicoFdViewSource)
        ensures
            out == self.source,
    {
        self.source
    }

    pub fn rights(&self) -> (out: PicoFdRights)
        ensures
            out == self.rights,
    {
        self.rights
    }

    pub fn resource(&self) -> (out: ChoreoResourceKind)
        ensures
            out == self.resource,
    {
        self.resource
    }

    pub fn lane(&self) -> (out: u8)
        ensures
            out == self.lane,
    {
        self.lane
    }

    pub fn route_label(&self) -> (out: u8)
        ensures
            out == self.route_label,
    {
        self.route_label
    }

    pub fn wait_or_subscription_id(&self) -> (out: u16)
        ensures
            out == self.wait_or_subscription_id,
    {
        self.wait_or_subscription_id
    }

    pub fn target_node(&self) -> (out: u8)
        ensures
            out == self.target_node,
    {
        self.target_node
    }

    pub fn target_role(&self) -> (out: u16)
        ensures
            out == self.target_role,
    {
        self.target_role
    }

    pub fn session_generation(&self) -> (out: u16)
        ensures
            out == self.session_generation,
    {
        self.session_generation
    }

    pub fn policy_slot(&self) -> (out: u8)
        ensures
            out == self.policy_slot,
    {
        self.policy_slot
    }

    pub fn choreo_object_generation(&self) -> (out: u16)
        ensures
            out == self.choreo_object_generation,
    {
        self.choreo_object_generation
    }
    #[verifier::when_used_as_spec(spec_route)]
    pub fn route(&self) -> (out: PicoFdRoute)
        ensures
            out == self.spec_route(),
    {
        PicoFdRoute::new(self.target_node, self.target_role, self.lane, self.route_label, self.session_generation, self.policy_slot)
    }

    pub fn is_revoked(&self) -> (out: bool)
        ensures
            out == self.revoked,
    {
        self.revoked
    }

    pub fn materialized_rights(&self) -> (out: PicoFdRights)
        ensures
            out == self.rights,
    {
        self.rights
    }

    pub fn choreo_resource_kind(&self) -> (out: ChoreoResourceKind)
        ensures
            out == self.resource,
    {
        self.resource
    }

    pub fn choreo_object_id(&self) -> (out: u16)
        ensures
            out == self.wait_or_subscription_id,
    {
        self.wait_or_subscription_id
    }

    pub fn materialized_view(&self) -> (out: PicoFdMaterializedView)
        ensures
            out == (PicoFdMaterializedView {
                fd: self.fd,
                generation: self.generation,
                source: self.source,
                rights: self.rights,
                resource: self.resource,
                choreo_resource_kind: self.resource,
                choreo_object_id: self.wait_or_subscription_id,
                choreo_object_generation: self.choreo_object_generation,
                route: self.spec_route(),
            }),
    {
        PicoFdMaterializedView {
            fd: self.fd,
            generation: self.generation,
            source: self.source,
            rights: self.rights,
            resource: self.resource,
            choreo_resource_kind: self.choreo_resource_kind(),
            choreo_object_id: self.choreo_object_id(),
            choreo_object_generation: self.choreo_object_generation,
            route: self.route(),
        }
    }
}

/// The generation that follows `g`: generations count up and skip zero.
pub open spec fn next_generation_after(g: u16) -> u16 {
    if g == u16::MAX { 1 } else { (g + 1) as u16 }
}

/// The generation reached from `g` after `k` steps.
pub open spec fn generation_after(g: u16, k: nat) -> u16
    decreases k,
{
    if k == 0 { g } else { next_generation_after(generation_after(g, (k - 1) as nat)) }
}

pub open spec fn fd_slot(fd: u8) -> spec_fn(Option<PicoFdViewEntry>) -> bool {
    |e: Option<PicoFdViewEntry>| e is Some && e->Some_0.fd == fd
}

pub open spec fn empty_fd_slot() -> spec_fn(Option<PicoFdViewEntry>) -> bool {
    |e: Option<PicoFdViewEntry>| e is None
}

pub open spec fn live_fd_slot() -> spec_fn(Option<PicoFdViewEntry>) -> bool {
    |e: Option<PicoFdViewEntry>| e is Some && !e->Some_0.revoked
}

/// Whether some slot holds `fd` and it is not revoked.
pub open spec fn fd_is_live(s: Seq<Option<PicoFdViewEntry>>, fd: u8) -> bool {
    exists|i: int| 0 <= i < s.len() && (#[trigger] s[i]) is Some && s[i]->Some_0.fd == fd && !s[i]->Some_0.revoked
}

/// The entry of the first slot that holds `fd`.
pub open spec fn find_fd(s: Seq<Option<PicoFdViewEntry>>, fd: u8) -> Result<PicoFdViewEntry, PicoFdError> {
    let i = first_index(s, fd_slot(fd));
    if i < s.len() { Ok(s[i]->Some_0) } else { Err(PicoFdError::BadFd) }
}

/// An entry checked against a generation, rights and resource, in that order of precedence.
pub open spec fn validate_entry(
    entry: PicoFdViewEntry,
    generation: u16,
    rights: PicoFdRights,
    resource: ChoreoResourceKind,
) -> Result<PicoFdViewEntry, PicoFdError> {
    if entry.generation != generation {
        Err(PicoFdError::BadGeneration)
    } else if entry.revoked {
        Err(PicoFdError::Revoked)
    } else if entry.resource != resource {
        Err(PicoFdError::WrongResource)
    } else if !entry.rights.spec_allows(rights) {
        Err(PicoFdError::PermissionDenied)
    } else {
        Ok(entry)
    }
}

/// An entry checked against a route: session generation first, then the route itself.
pub open spec fn validate_entry_route(entry: PicoFdViewEntry, route: PicoFdRoute) -> Result<(), PicoFdError> {
    if entry.session_generation != route.session_generation {
        Err(PicoFdError::BadSessionGeneration)
    } else if entry.target_node != route.target_node || entry.target_role != route.target_role
        || entry.lane != route.lane || entry.route_label != route.route_label
        || entry.policy_slot != route.policy_slot {
        Err(PicoFdError::BadRoute)
    } else {
        Ok(())
    }
}

pub open spec fn spec_resolve(
    s: Seq<Option<PicoFdViewEntry>>,
    fd: u8,
    generation: u16,
    rights: PicoFdRights,
    resource: ChoreoResourceKind,
) -> Result<PicoFdViewEntry, PicoFdError> {
    match find_fd(s, fd) {
        Ok(e) => validate_entry(e, generation, rights, resource),
        Err(x) => Err(x),
    }
}

pub open spec fn spec_resolve_current(
    s: Seq<Option<PicoFdViewEntry>>,
    fd: u8,
    rights: PicoFdRights,
    resource: ChoreoResourceKind,
) -> Result<PicoFdViewEntry, PicoFdError> {
    match find_fd(s, fd) {
        Ok(e) => validate_entry(e, e.generation, rights, resource),
        Err(x) => Err(x),
    }
}

/// A resolution result narrowed further by a route check.
pub open spec fn routed(r: Result<PicoFdViewEntry, PicoFdError>, route: PicoFdRoute) -> Result<PicoFdViewEntry, PicoFdError> {
    match r {
        Ok(e) => match validate_entry_route(e, route) {
            Ok(_) => Ok(e),
            Err(x) => Err(x),
        },
        Err(x) => Err(x),
    }
}

/// The telemetry after a request answered with `r`: one more rejection if it failed.
pub open spec fn fd_telemetry_after<T>(t: PicoFdRejectionTelemetry, r: Result<T, PicoFdError>) -> PicoFdRejectionTelemetry {
    match r {
        Ok(_) => t,
        Err(e) => t.recorded(e),
    }
}

/// Materializing a grant: slots, next generation and answer.
pub open spec fn spec_materialize(
    s: Seq<Option<PicoFdViewEntry>>,
    g: u16,
    grant: PicoFdGrant,
    source: PicoFdViewSource,
) -> (Seq<Option<PicoFdViewEntry>>, u16, Result<PicoFdViewEntry, PicoFdError>) {
    if fd_is_live(s, grant.fd) {
        (s, g, Err(PicoFdError::BadFd))
    } else {
        let e = PicoFdViewEntry::from_grant(grant, source, g);
        let g2 = next_generation_after(g);
        let k = first_index(s, fd_slot(grant.fd));
        if k < s.len() {
            (s.update(k, Some(e)), g2, Ok(e))
        } else {
            let z = first_index(s, empty_fd_slot());
            if z < s.len() {
                (s.update(z, Some(e)), g2, Ok(e))
            } else {
                (s, g2, Err(PicoFdError::TableFull))
            }
        }
    }
}

/// Closing `fd` at `generation`: it becomes revoked.
pub open spec fn spec_close(s: Seq<Option<PicoFdViewEntry>>, fd: u8, generation: u16)
    -> (Seq<Option<PicoFdViewEntry>>, Result<PicoFdViewEntry, PicoFdError>) {
    let i = first_index(s, fd_slot(fd));
    if i >= s.len() {
        (s, Err(PicoFdError::BadFd))
    } else {
        let e = s[i]->Some_0;
        if e.generation != generation {
            (s, Err(PicoFdError::BadGeneration))
        } else if e.revoked {
            (s, Err(PicoFdError::Revoked))
        } else {
            let e2 = PicoFdViewEntry { revoked: true, ..e };
            (s.update(i, Some(e2)), Ok(e2))
        }
    }
}

/// Narrowing the rights of `fd` at `generation`.
pub open spec fn spec_restrict(s: Seq<Option<PicoFdViewEntry>>, fd: u8, generation: u16, rights: PicoFdRights)
    -> (Seq<Option<PicoFdViewEntry>>, Result<PicoFdViewEntry, PicoFdError>) {
    let i = first_index(s, fd_slot(fd));
    if i >= s.len() {
        (s, Err(PicoFdError::BadFd))
    } else {
        let e = s[i]->Some_0;
        if e.generation != generation {
            (s, Err(PicoFdError::BadGeneration))
        } else if e.revoked {
            (s, Err(PicoFdError::Revoked))
        } else if !e.rights.spec_allows(rights) {
            (s, Err(PicoFdError::PermissionDenied))
        } else {
            let e2 = PicoFdViewEntry { rights, ..e };
            (s.update(i, Some(e2)), Ok(e2))
        }
    }
}

/// Revoking `fd` whatever its generation; the answer is the revoked entry.
pub open spec fn spec_revoke(s: Seq<Option<PicoFdViewEntry>>, fd: u8)
    -> (Seq<Option<PicoFdViewEntry>>, Result<PicoFdViewEntry, PicoFdError>) {
    let i = first_index(s, fd_slot(fd));
    if i >= s.len() {
        (s, Err(PicoFdError::BadFd))
    } else {
        let e2 = PicoFdViewEntry { revoked: true, ..s[i]->Some_0 };
        (s.update(i, Some(e2)), Ok(e2))
    }
}

/// A control message applied to the view: slots, next generation and answer.
pub open spec fn spec_apply_control(s: Seq<Option<PicoFdViewEntry>>, g: u16, control: PicoFdControl)
    -> (Seq<Option<PicoFdViewEntry>>, u16, Result<PicoFdViewEntry, PicoFdError>) {
    match control {
        PicoFdControl::CapGrant(grant) => spec_materialize(s, g, grant, PicoFdViewSource::Grant),
        PicoFdControl::CapMint(grant) => spec_materialize(s, g, grant, PicoFdViewSource::Mint),
        PicoFdControl::CapRestrict { fd, generation, rights } => {
            let r = spec_restrict(s, fd, generation, rights);
            (r.0, g, r.1)
        },
        PicoFdControl::CapRevoke { fd } => {
            let r = spec_revoke(s, fd);
            (r.0, g, r.1)
        },
        PicoFdControl::CapClose { fd, generation } => {
            let r = spec_close(s, fd, generation);
            (r.0, g, r.1)
        },
    }
}

/// A slot after a fence that hands out generation `g` if it held a live entry.
pub open spec fn fenced_slot(e: Option<PicoFdViewEntry>, g: u16) -> Option<PicoFdViewEntry> {
    if e is Some && !e->Some_0.revoked {
        Some(PicoFdViewEntry { revoked: true, generation: g, ..e->Some_0 })
    } else {
        e
    }
}

/// The fds a guest holds, in `N` slots, with the next generation to hand out and rejection counters.
pub struct PicoFdView<const N: usize> {
    slots: Vec<Option<PicoFdViewEntry>>,
    next_generation: u16,
    rejection_telemetry: PicoFdRejectionTelemetry,
}

impl<const N: usize> PicoFdView<N> {
    pub closed spec fn view(&self) -> Seq<Option<PicoFdViewEntry>> {
        self.slots@
    }

    pub closed spec fn next_gen(&self) -> u16 {
        self.next_generation
    }

    pub closed spec fn telemetry(&self) -> PicoFdRejectionTelemetry {
        self.rejection_telemetry
    }

    pub closed spec fn wf(&self) -> bool {
        self.slots@.len() == N && self.next_generation != 0
    }

    pub fn new() -> (out: Self)
        ensures
            out.wf(),
            out@ == Seq::new(N as nat, |i: int| None::<PicoFdViewEntry>),
            out.next_gen() == 1,
            out.telemetry() == PicoFdRejectionTelemetry::zero(),
    {
        let mut slots: Vec<Option<PicoFdViewEntry>> = Vec::new();
        let mut i: usize = 0;
        while i < N
            invariant
                i <= N,
                slots@ == Seq::new(i as nat, |j: int| None::<PicoFdViewEntry>),
            decreases N - i,
        {
            slots.push(None);
            i = i + 1;
        }
        Self { slots, next_generation: 1, rejection_telemetry: PicoFdRejectionTelemetry::new() }
    }

    pub fn rejection_telemetry(&self) -> (out: PicoFdRejectionTelemetry)
        ensures
            out == self.telemetry(),
    {
        self.rejection_telemetry
    }

    fn find_index(&self, fd: u8) -> (out: usize)
        requires
            self.wf(),
        ensures
            out as int == first_index(self@, fd_slot(fd)),
            out <= N,
    {
        let ghost s = self@;
        let mut i: usize = 0;
        proof { lemma_first_index(s, fd_slot(fd)); }
        while i < self.slots.len()
            invariant
                s == self@,
                self.slots@.len() == N,
                i <= N,
                forall|j: int| 0 <= j < i ==> !fd_slot(fd)(#[trigger] s[j]),
            decreases N - i,
        {
            match self.slots[i] {
                Some(entry) => {
                    if entry.fd == fd {
                        proof { lemma_first_index_at(s, fd_slot(fd), i as int); }
                        return i;
                    }
                },
                None => {},
            }
            i = i + 1;
        }
        proof {
            lemma_first_index(s, fd_slot(fd));
            if first_index(s, fd_slot(fd)) < s.len() {
                let f = first_index(s, fd_slot(fd));
                assert(fd_slot(fd)(s[f]));
            }
        }
        i
    }

    fn find(&self, fd: u8) -> (out: Result<PicoFdViewEntry, PicoFdError>)
        requires
            self.wf(),
        ensures
            out == find_fd(self@, fd),
    {
        let i = self.find_index(fd);
        proof { lemma_first_index(self@, fd_slot(fd)); }
        if i < self.slots.len() {
            match self.slots[i] {
                Some(entry) => Ok(entry),
                None => Err(PicoFdError::BadFd),
            }
        } else {
            Err(PicoFdError::BadFd)
        }
    }

    fn validate(
        entry: PicoFdViewEntry,
        generation: u16,
        rights: PicoFdRights,
        resource: ChoreoResourceKind,
    ) -> (out: Result<PicoFdViewEntry, PicoFdError>)
        ensures
            out == validate_entry(entry, generation, rights, resource),
    {
        if entry.generation != generation {
            return Err(PicoFdError::BadGeneration);
        }
        if entry.revoked {
            return Err(PicoFdError::Revoked);
        }
        if entry.resource != resource {
            return Err(PicoFdError::WrongResource);
        }
        if !entry.rights.allows(rights) {
            return Err(PicoFdError::PermissionDenied);
        }
        Ok(entry)
    }

    fn validate_route(entry: PicoFdViewEntry, route: PicoFdRoute) -> (out: Result<(), PicoFdError>)
        ensures
            out == validate_entry_route(entry, route),
    {
        if entry.session_generation != route.session_generation {
            return Err(PicoFdError::BadSessionGeneration);
        }
        if entry.target_node != route.target_node || entry.target_role != route.target_role
            || entry.lane != route.lane || entry.route_label != route.route_label
            || entry.policy_slot != route.policy_slot {
            return Err(PicoFdError::BadRoute);
        }
        Ok(())
    }

    fn record_rejection(&mut self, error: PicoFdError) -> (out: PicoFdError)
        requires
            old(self).wf(),
        ensures
            final(self).wf(),
            out == error,
            final(self)@ == old(self)@,
            final(self).next_gen() == old(self).next_gen(),
            final(self).telemetry() == old(self).telemetry().recorded(error),
    {
        self.rejection_telemetry.record(error);
        error
    }

    fn record_result<T>(&mut self, result: Result<T, PicoFdError>) -> (out: Result<T, PicoFdError>)
        requires
            old(self).wf(),
        ensures
            final(self).wf(),
            out == result,
            final(self)@ == old(self)@,
            final(self).next_gen() == old(self).next_gen(),
            final(self).telemetry() == fd_telemetry_after(old(self).telemetry(), result),
    {
        match result {
            Ok(value) => Ok(value),
            Err(error) => Err(self.record_rejection(error)),
        }
    }

    pub fn resolve_current(
        &mut self,
        fd: u8,
        rights: PicoFdRights,
        resource: ChoreoResourceKind,
    ) -> (out: Result<PicoFdViewEntry, PicoFdError>)
        requires
            old(self).wf(),
        ensures
            final(self).wf(),
            out == spec_resolve_current(old(self)@, fd, rights, resource),
            final(self)@ == old(self)@,
            final(self).next_gen() == old(self).next_gen(),
            final(self).telemetry() == fd_telemetry_after(old(self).telemetry(), out),
    {
        let r = match self.find(fd) {
            Ok(entry) => Self::validate(entry, entry.generation, rights, resource),
            Err(error) => Err(error),
        };
        self.record_result(r)
    }

    pub fn resolve(
        &mut self,
        fd: u8,
        generation: u16,
        rights: PicoFdRights,
        resource: ChoreoResourceKind,
    ) -> (out: Result<PicoFdViewEntry, PicoFdError>)
        requires
            old(self).wf(),
        ensures
            final(self).wf(),
            out == spec_resolve(old(self)@, fd, generation, rights, resource),
            final(self)@ == old(self)@,
            final(self).next_gen() == old(self).next_gen(),
            final(self).telemetry() == fd_telemetry_after(old(self).telemetry(), out),
    {
        let r = match self.find(fd) {
            Ok(entry) => Self::validate(entry, generation, rights, resource),
            Err(error) => Err(error),
        };
        self.record_result(r)
    }

    pub fn resolve_routed_current(
        &mut self,
        fd: u8,
        rights: PicoFdRights,
        resource: ChoreoResourceKind,
        route: PicoFdRoute,
    ) -> (out: Result<PicoFdViewEntry, PicoFdError>)
        requires
            old(self).wf(),
        ensures
            final(self).wf(),
            out == routed(spec_resolve_current(old(self)@, fd, rights, resource), route),
            final(self)@ == old(self)@,
            final(self).next_gen() == old(self).next_gen(),
            final(self).telemetry() == fd_telemetry_after(old(self).telemetry(), out),
    {
        let entry = self.resolve_current(fd, rights, resource)?;
        match Self::validate_route(entry, route) {
            Ok(()) => Ok(entry),
            Err(error) => Err(self.record_rejection(error)),
        }
    }

    pub fn resolve_routed_authorized_current<const P: usize>(
        &mut self,
        fd: u8,
        rights: PicoFdRights,
        resource: ChoreoResourceKind,
        route: PicoFdRoute,
        policy: &PolicySlotTable<P>,
    ) -> (out: Result<PicoFdViewEntry, PicoFdError>)
        requires
            old(self).wf(),
            policy.wf(),
        ensures
            final(self).wf(),
            out == (if !policy.spec_is_allowed(route.policy_slot) {
                Err(PicoFdError::PolicyDenied)
            } else {
                routed(spec_resolve_current(old(self)@, fd, rights, resource), route)
            }),
            final(self)@ == old(self)@,
            final(self).next_gen() == old(self).next_gen(),
            final(self).telemetry() == fd_telemetry_after(old(self).telemetry(), out),
    {
        if !policy.is_allowed(route.policy_slot()) {
            return Err(self.record_rejection(PicoFdError::PolicyDenied));
        }
        self.resolve_routed_current(fd, rights, resource, route)
    }

    pub fn resolve_routed(
        &mut self,
        fd: u8,
        generation: u16,
        rights: PicoFdRights,
        resource: ChoreoResourceKind,
        route: PicoFdRoute,
    ) -> (out: Result<PicoFdViewEntry, PicoFdError>)
        requires
            old(self).wf(),
        ensures
            final(self).wf(),
            out == routed(spec_resolve(old(self)@, fd, generation, rights, resource), route),
            final(self)@ == old(self)@,
            final(self).next_gen() == old(self).next_gen(),
            final(self).telemetry() == fd_telemetry_after(old(self).telemetry(), out),
    {
        let entry = self.resolve(fd, generation, rights, resource)?;
        match Self::validate_route(entry, route) {
            Ok(()) => Ok(entry),
            Err(error) => Err(self.record_rejection(error)),
        }
    }

    pub fn resolve_routed_authorized<const P: usize>(
        &mut self,
        fd: u8,
        generation: u16,
        rights: PicoFdRights,
        resource: ChoreoResourceKind,
        route: PicoFdRoute,
        policy: &PolicySlotTable<P>,
    ) -> (out: Result<PicoFdViewEntry, PicoFdError>)
        requires
            old(self).wf(),
            policy.wf(),
        ensures
            final(self).wf(),
            out == (if !policy.spec_is_allowed(route.policy_slot) {
                Err(PicoFdError::PolicyDenied)
            } else {
                routed(spec_resolve(old(self)@, fd, generation, rights, resource), route)
            }),
            final(self)@ == old(self)@,
            final(self).next_gen() == old(self).next_gen(),
            final(self).telemetry() == fd_telemetry_after(old(self).telemetry(), out),
    {
        if !policy.is_allowed(route.policy_slot()) {
            return Err(self.record_rejection(PicoFdError::PolicyDenied));
        }
        self.resolve_routed(fd, generation, rights, resource, route)
    }

    fn bump_generation(&mut self) -> (out: u16)
        requires
            old(self).wf(),
        ensures
            final(self).wf(),
            out == old(self).next_gen(),
            final(self).next_gen() == next_generation_after(old(self).next_gen()),
            final(self)@ == old(self)@,
            final(self).telemetry() == old(self).telemetry(),
    {
        let generation = self.next_generation;
        if self.next_generation == u16::MAX {
            self.next_generation = 1;
        } else {
            self.next_generation = self.next_generation + 1;
        }
        generation
    }

    fn has_live_fd(&self, fd: u8) -> (out: bool)
        requires
            self.wf(),
        ensures
            out == fd_is_live(self@, fd),
    {
        let mut i: usize = 0;
        while i < self.slots.len()
            invariant
                self.slots@.len() == N,
                i <= N,
                forall|j: int| 0 <= j < i ==> !((#[trigger] self@[j]) is Some && self@[j]->Some_0.fd == fd && !self@[j]->Some_0.revoked),
            decreases N - i,
        {
            match self.slots[i] {
                Some(entry) => {
                    if entry.fd == fd && !entry.revoked {
                        assert(self@[i as int] is Some && self@[i as int]->Some_0.fd == fd);
                        return true;
                    }
                },
                None => {},
            }
            i = i + 1;
        }
        false
    }

    fn first_empty(&self) -> (out: usize)
        requires
            self.wf(),
        ensures
            out as int == first_index(self@, empty_fd_slot()),
            out <= N,
    {
        let ghost s = self@;
        let mut i: usize = 0;
        proof { lemma_first_index(s, empty_fd_slot()); }
        while i < self.slots.len()
            invariant
                s == self@,
                self.slots@.len() == N,
                i <= N,
                forall|j: int| 0 <= j < i ==> !empty_fd_slot()(#[trigger] s[j]),
            decreases N - i,
        {
            if self.slots[i].is_none() {
                proof { lemma_first_index_at(s, empty_fd_slot(), i as int); }
                return i;
            }
            i = i + 1;
        }
        proof {
            lemma_first_index(s, empty_fd_slot());
            if first_index(s, empty_fd_slot()) < s.len() {
                let f = first_index(s, empty_fd_slot());
                assert(empty_fd_slot()(s[f]));
            }
        }
        i
    }

    fn materialize(&mut self, grant: PicoFdGrant, source: PicoFdViewSource) -> (out: Result<PicoFdViewEntry, PicoFdError>)
        requires
            old(self).wf(),
        ensures
            final(self).wf(),
            final(self)@ == spec_materialize(old(self)@, old(self).next_gen(), grant, source).0,
            final(self).next_gen() == spec_materialize(old(self)@, old(self).next_gen(), grant, source).1,
            out == spec_materialize(old(self)@, old(self).next_gen(), grant, source).2,
            final(self).telemetry() == fd_telemetry_after(old(self).telemetry(), out),
    {
        if self.has_live_fd(grant.fd) {
            return Err(self.record_rejection(PicoFdError::BadFd));
        }
        let generation = self.bump_generation();
        let entry = PicoFdViewEntry {
            fd: grant.fd,
            generation,
            source,
            rights: grant.rights,
            resource: grant.resource,
            lane: grant.lane,
            route_label: grant.route_label,
            wait_or_subscription_id: grant.choreo_object_id,
            target_node: grant.target_node,
            target_role: grant.target_role,
            session_generation: grant.session_generation,
            choreo_object_generation: grant.choreo_object_generation,
            policy_slot: grant.policy_slot,
            revoked: false,
        };
        let k = self.find_index(grant.fd);
        if k < self.slots.len() {
            self.slots.set(k, Some(entry));
            return Ok(entry);
        }
        let z = self.first_empty();
        if z < self.slots.len() {
            self.slots.set(z, Some(entry));
            return Ok(entry);
        }
        Err(self.record_rejection(PicoFdError::TableFull))
    }

    pub fn apply_control(&mut self, control: PicoFdControl) -> (out: Result<PicoFdViewEntry, PicoFdError>)
        requires
            old(self).wf(),
        ensures
            final(self).wf(),
            final(self)@ == spec_apply_control(old(self)@, old(self).next_gen(), control).0,
            final(self).next_gen() == spec_apply_control(old(self)@, old(self).next_gen(), control).1,
            out == spec_apply_control(old(self)@, old(self).next_gen(), control).2,
            final(self).telemetry() == fd_telemetry_after(old(self).telemetry(), out),
    {
        match control {
            PicoFdControl::CapGrant(grant) => self.materialize(grant, PicoFdViewSource::Grant),
            PicoFdControl::CapMint(grant) => self.materialize(grant, PicoFdViewSource::Mint),
            PicoFdControl::CapRestrict { fd, generation, rights } => self.restrict(fd, generation, rights),
            PicoFdControl::CapRevoke { fd } => self.revoke_entry(fd),
            PicoFdControl::CapClose { fd, generation } => self.close(fd, generation),
        }
    }

    pub fn apply_local_cap_grant(
        &mut self,
        fd: u8,
        rights: PicoFdRights,
        resource: ChoreoResourceKind,
        lane: u8,
        route_label: u8,
        wait_or_subscription_id: u16,
    ) -> (out: Result<PicoFdViewEntry, PicoFdError>)
        requires
            old(self).wf(),
        ensures
            ({
                let route = PicoFdRoute { target_node: 0, target_role: 0, lane, route_label, session_generation: 0, policy_slot: 0 };
                let grant = PicoFdGrant::spec_new_mint(fd, rights, resource, wait_or_subscription_id, 0, route);
                let r = spec_materialize(old(self)@, old(self).next_gen(), grant, PicoFdViewSource::Grant);
                &&& final(self)@ == r.0
                &&& final(self).next_gen() == r.1
                &&& out == r.2
            }),
            final(self).wf(),
            final(self).telemetry() == fd_telemetry_after(old(self).telemetry(), out),
    {
        let route = PicoFdRoute::new(0, 0, lane, route_label, 0, 0);
        self.apply_cap_grant(fd, rights, resource, wait_or_subscription_id, route)
    }

    pub fn apply_cap_grant(
        &mut self,
        fd: u8,
        rights: PicoFdRights,
        resource: ChoreoResourceKind,
        wait_or_subscription_id: u16,
        route: PicoFdRoute,
    ) -> (out: Result<PicoFdViewEntry, PicoFdError>)
        requires
            old(self).wf(),
        ensures
            ({
                let grant = PicoFdGrant::spec_new_mint(fd, rights, resource, wait_or_subscription_id, route.session_generation, route);
                let r = spec_materialize(old(self)@, old(self).next_gen(), grant, PicoFdViewSource::Grant);
                &&& final(self)@ == r.0
                &&& final(self).next_gen() == r.1
                &&& out == r.2
            }),
            final(self).wf(),
            final(self).telemetry() == fd_telemetry_after(old(self).telemetry(), out),
    {
        self.apply_control(PicoFdControl::cap_grant(fd, rights, resource, wait_or_subscription_id, route))
    }

    pub fn apply_cap_mint(
        &mut self,
        fd: u8,
        rights: PicoFdRights,
        resource: ChoreoResourceKind,
        choreo_object_id: u16,
        choreo_object_generation: u16,
        route: PicoFdRoute,
    ) -> (out: Result<PicoFdViewEntry, PicoFdError>)
        requires
            old(self).wf(),
        ensures
            ({
                let grant = PicoFdGrant::spec_new_mint(fd, rights, resource, choreo_object_id, choreo_object_generation, route);
                let r = spec_materialize(old(self)@, old(self).next_gen(), grant, PicoFdViewSource::Mint);
                &&& final(self)@ == r.0
                &&& final(self).next_gen() == r.1
                &&& out == r.2
            }),
            final(self).wf(),
            final(self).telemetry() == fd_telemetry_after(old(self).telemetry(), out),
    {
        self.apply_control(PicoFdControl::cap_mint(fd, rights, resource, choreo_object_id, choreo_object_generation, route))
    }

    pub fn close_current(&mut self, fd: u8) -> (out: Result<PicoFdViewEntry, PicoFdError>)
        requires
            old(self).wf(),
        ensures
            final(self).wf(),
            ({
                let r = match find_fd(old(self)@, fd) {
                    Ok(e) => spec_close(old(self)@, fd, e.generation),
                    Err(x) => (old(self)@, Err(x)),
                };
                final(self)@ == r.0 && out == r.1
            }),
            final(self).next_gen() == old(self).next_gen(),
            final(self).telemetry() == fd_telemetry_after(old(self).telemetry(), out),
    {
        match self.find(fd) {
            Ok(entry) => self.apply_control(PicoFdControl::CapClose { fd, generation: entry.generation }),
            Err(error) => Err(self.record_rejection(error)),
        }
    }

    pub fn close(&mut self, fd: u8, generation: u16) -> (out: Result<PicoFdViewEntry, PicoFdError>)
        requires
            old(self).wf(),
        ensures
            final(self).wf(),
            final(self)@ == spec_close(old(self)@, fd, generation).0,
            out == spec_close(old(self)@, fd, generation).1,
            final(self).next_gen() == old(self).next_gen(),
            final(self).telemetry() == fd_telemetry_after(old(self).telemetry(), out),
    {
        let i = self.find_index(fd);
        proof { lemma_first_index(self@, fd_slot(fd)); }
        let result = if i < self.slots.len() {
            match self.slots[i] {
                Some(entry) => {
                    if entry.generation != generation {
                        Err(PicoFdError::BadGeneration)
                    } else if entry.revoked {
                        Err(PicoFdError::Revoked)
                    } else {
                        let mut closed = entry;
                        closed.revoked = true;
                        self.slots.set(i, Some(closed));
                        Ok(closed)
                    }
                },
                None => Err(PicoFdError::BadFd),
            }
        } else {
            Err(PicoFdError::BadFd)
        };
        self.record_result(result)
    }

    fn revoke_entry(&mut self, fd: u8) -> (out: Result<PicoFdViewEntry, PicoFdError>)
        requires
            old(self).wf(),
        ensures
            final(self).wf(),
            final(self)@ == spec_revoke(old(self)@, fd).0,
            out == spec_revoke(old(self)@, fd).1,
            final(self).next_gen() == old(self).next_gen(),
            final(self).telemetry() == fd_telemetry_after(old(self).telemetry(), out),
    {
        let i = self.find_index(fd);
        proof { lemma_first_index(self@, fd_slot(fd)); }
        let result = if i < self.slots.len() {
            match self.slots[i] {
                Some(entry) => {
                    let mut revoked = entry;
                    revoked.revoked = true;
                    self.slots.set(i, Some(revoked));
                    Ok(revoked)
                },
                None => Err(PicoFdError::BadFd),
            }
        } else {
            Err(PicoFdError::BadFd)
        };
        self.record_result(result)
    }

    pub fn revoke_fd(&mut self, fd: u8) -> (out: Result<(), PicoFdError>)
        requires
            old(self).wf(),
        ensures
            final(self).wf(),
            final(self)@ == spec_revoke(old(self)@, fd).0,
            out is Ok <==> spec_revoke(old(self)@, fd).1 is Ok,
            out is Err ==> out == Err::<(), PicoFdError>(PicoFdError::BadFd),
            final(self).next_gen() == old(self).next_gen(),
            final(self).telemetry() == fd_telemetry_after(old(self).telemetry(), out),
    {
        match self.revoke_entry(fd) {
            Ok(_) => Ok(()),
            Err(error) => Err(error),
        }
    }

    pub fn restrict_current(&mut self, fd: u8, rights: PicoFdRights) -> (out: Result<PicoFdViewEntry, PicoFdError>)
        requires
            old(self).wf(),
        ensures
            final(self).wf(),
            ({
                let r = match find_fd(old(self)@, fd) {
                    Ok(e) => spec_restrict(old(self)@, fd, e.generation, rights),
                    Err(x) => (old(self)@, Err(x)),
                };
                final(self)@ == r.0 && out == r.1
            }),
            final(self).next_gen() == old(self).next_gen(),
            final(self).telemetry() == fd_telemetry_after(old(self).telemetry(), out),
    {
        match self.find(fd) {
            Ok(entry) => self.apply_control(PicoFdControl::CapRestrict { fd, generation: entry.generation, rights }),
            Err(error) => Err(self.record_rejection(error)),
        }
    }

    pub fn restrict(&mut self, fd: u8, generation: u16, rights: PicoFdRights) -> (out: Result<PicoFdViewEntry, PicoFdError>)
        requires
            old(self).wf(),
        ensures
            final(self).wf(),
            final(self)@ == spec_restrict(old(self)@, fd, generation, rights).0,
            out == spec_restrict(old(self)@, fd, generation, rights).1,
            final(self).next_gen() == old(self).next_gen(),
            final(self).telemetry() == fd_telemetry_after(old(self).telemetry(), out),
    {
        let i = self.find_index(fd);
        proof { lemma_first_index(self@, fd_slot(fd)); }
        let result = if i < self.slots.len() {
            match self.slots[i] {
                Some(entry) => {
                    if entry.generation != generation {
                        Err(PicoFdError::BadGeneration)
                    } else if entry.revoked {
                        Err(PicoFdError::Revoked)
                    } else if !entry.rights.allows(rights) {
                        Err(PicoFdError::PermissionDenied)
                    } else {
                        let mut narrowed = entry;
                        narrowed.rights = rights;
                        self.slots.set(i, Some(narrowed));
                        Ok(narrowed)
                    }
                },
                None => Err(PicoFdError::BadFd),
            }
        } else {
            Err(PicoFdError::BadFd)
        };
        self.record_result(result)
    }

    pub fn has_active(&self) -> (out: bool)
        requires
            self.wf(),
        ensures
            out == (count(self@, live_fd_slot()) > 0),
    {
        self.active_count() != 0
    }

    pub fn active_count(&self) -> (out: usize)
        requires
            self.wf(),
        ensures
            out == count(self@, live_fd_slot()),
    {
        let ghost s = self@;
        let mut n: usize = 0;
        let mut i: usize = 0;
        while i < self.slots.len()
            invariant
                s == self@,
                self.slots@.len() == N,
                i <= N,
                n == count_upto(s, live_fd_slot(), i as int),
            decreases N - i,
        {
            proof { lemma_count_upto_bound(s, live_fd_slot(), i as int); }
            match self.slots[i] {
                Some(entry) => {
                    if !entry.revoked {
                        n = n + 1;
                    }
                },
                None => {},
            }
            i = i + 1;
        }
        n
    }

    pub fn fence_all(&mut self) -> (out: usize)
        requires
            old(self).wf(),
        ensures
            final(self).wf(),
            out == count(old(self)@, live_fd_slot()),
            final(self)@.len() == old(self)@.len(),
            forall|i: int| 0 <= i < old(self)@.len() ==> #[trigger] final(self)@[i] == fenced_slot(
                old(self)@[i],
                generation_after(old(self).next_gen(), count_upto(old(self)@, live_fd_slot(), i)),
            ),
            final(self).next_gen() == generation_after(old(self).next_gen(), out as nat),
            final(self).telemetry() == old(self).telemetry(),
    {
        let ghost s = self@;
        let ghost g0 = self.next_generation;
        let mut revoked: usize = 0;
        let mut index: usize = 0;
        while index < self.slots.len()
            invariant
                self.wf(),
                s.len() == N,
                index <= N,
                revoked == count_upto(s, live_fd_slot(), index as int),
                self.next_gen() == generation_after(g0, revoked as nat),
                self.telemetry() == old(self).telemetry(),
                forall|j: int| 0 <= j < index ==> #[trigger] self@[j] == fenced_slot(
                    s[j], generation_after(g0, count_upto(s, live_fd_slot(), j)),
                ),
                forall|j: int| index <= j < N ==> #[trigger] self@[j] == s[j],
            decreases N - index,
        {
            proof {
                lemma_count_upto_bound(s, live_fd_slot(), index as int);
                assert(self@[index as int] == s[index as int]);
                assert(count_upto(s, live_fd_slot(), index as int + 1) == count_upto(s, live_fd_slot(), index as int)
                    + (if live_fd_slot()(s[index as int]) { 1nat } else { 0nat }));
            }
            match self.slots[index] {
                Some(entry) => {
                    if !entry.revoked {
                        let mut fenced = entry;
                        fenced.revoked = true;
                        fenced.generation = self.bump_generation();
                        self.slots.set(index, Some(fenced));
                        revoked = revoked + 1;
                    }
                },
                None => {},
            }
            index = index + 1;
        }
        revoked
    }
}

} // verus!
