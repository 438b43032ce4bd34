//! The guest ledger: one guest's fd view, memory leases, pending syscalls, quotas and errno map.
use vstd::prelude::*;
use crate::seqs::{first_index, count, count_upto, lemma_first_index, lemma_first_index_at, lemma_count_upto_bound};
use crate::choreography::protocol::{
    FdRead, FdWrite, MemBorrow, MemFence, MemFenceReason, MemGrant, MemRelease, MemRights, PollOneoff,
    TimerSleepDone,
};
use crate::kernel::wasi::{
    live_fd_slot, spec_materialize, spec_resolve_current, spec_close, find_fd, fd_telemetry_after, fenced_slot,
    generation_after, spec_grant, spec_get_lease, lease_slot, lease_telemetry_after, ChoreoResourceKind,
    MemoryLeaseError, MemoryLeaseTable, PicoFdError, PicoFdGrant, PicoFdRights, PicoFdRoute, PicoFdView,
    PicoFdViewEntry, PicoFdViewSource,
};

verus! {

pub const WASI_ERRNO_SUCCESS: u16 = 0;
pub const WASI_ERRNO_BADF: u16 = 8;
pub const WASI_ERRNO_FAULT: u16 = 21;
pub const WASI_ERRNO_INVAL: u16 = 28;
pub const WASI_ERRNO_MFILE: u16 = 33;
pub const WASI_ERRNO_NOMEM: u16 = 48;
pub const WASI_ERRNO_NOTCAPABLE: u16 = 76;

/// The WASI tier a guest runs under.
#[derive(Clone, Copy, Debug, PartialEq, Eq, Structural)]
pub enum WasiProfile {
    PicoMin,
    EmbeddedStd,
    HostFull,
}

/// The kind of object a guest fd names.
#[derive(Clone, Copy, Debug, PartialEq, Eq, Structural)]
pub enum GuestFdKind {
    Stdin,
    Stdout,
    Stderr,
    Gpio,
    Uart,
    Timer,
    LocalSensor,
    LocalActuator,
    Datagram,
    Stream,
    Telemetry,
    Management,
    Gateway,
    EventSubscription,
    PreopenRoot,
    ChoreoObject,
    DirectoryView,
    NetworkListener,
    RemoteObject,
    EphemeralPipe,
}

impl GuestFdKind {
    pub open spec fn spec_from_resource(value: ChoreoResourceKind) -> Self {
        match value {
            ChoreoResourceKind::Stdin => GuestFdKind::Stdin,
            ChoreoResourceKind::Stdout => GuestFdKind::Stdout,
            ChoreoResourceKind::Stderr => GuestFdKind::Stderr,
            ChoreoResourceKind::Gpio => GuestFdKind::Gpio,
            ChoreoResourceKind::Uart => GuestFdKind::Uart,
            ChoreoResourceKind::Timer => GuestFdKind::Timer,
            ChoreoResourceKind::LocalSensor => GuestFdKind::LocalSensor,
            ChoreoResourceKind::LocalActuator => GuestFdKind::LocalActuator,
            ChoreoResourceKind::NetworkDatagram => GuestFdKind::Datagram,
            ChoreoResourceKind::NetworkStream => GuestFdKind::Stream,
            ChoreoResourceKind::Telemetry => GuestFdKind::Telemetry,
            ChoreoResourceKind::Management => GuestFdKind::Management,
            ChoreoResourceKind::Gateway => GuestFdKind::Gateway,
            ChoreoResourceKind::InterruptSubscription => GuestFdKind::EventSubscription,
            ChoreoResourceKind::PreopenRoot => GuestFdKind::PreopenRoot,
            ChoreoResourceKind::ChoreoObject => GuestFdKind::ChoreoObject,
            ChoreoResourceKind::DirectoryView => GuestFdKind::DirectoryView,
            ChoreoResourceKind::NetworkListener => GuestFdKind::NetworkListener,
            ChoreoResourceKind::RemoteObject => GuestFdKind::RemoteObject,
            ChoreoResourceKind::EphemeralPipe => GuestFdKind::EphemeralPipe,
        }
    }
}

impl From<ChoreoResourceKind> for GuestFdKind {
    fn from(value: ChoreoResourceKind) -> (out: Self) {
        match value {
            ChoreoResourceKind::Stdin => GuestFdKind::Stdin,
            ChoreoResourceKind::Stdout => GuestFdKind::Stdout,
            ChoreoResourceKind::Stderr => GuestFdKind::Stderr,
            ChoreoResourceKind::Gpio => GuestFdKind::Gpio,
            ChoreoResourceKind::Uart => GuestFdKind::Uart,
            ChoreoResourceKind::Timer => GuestFdKind::Timer,
            ChoreoResourceKind::LocalSensor => GuestFdKind::LocalSensor,
            ChoreoResourceKind::LocalActuator => GuestFdKind::LocalActuator,
            ChoreoResourceKind::NetworkDatagram => GuestFdKind::Datagram,
            ChoreoResourceKind::NetworkStream => GuestFdKind::Stream,
            ChoreoResourceKind::Telemetry => GuestFdKind::Telemetry,
            ChoreoResourceKind::Management => GuestFdKind::Management,
            ChoreoResourceKind::Gateway => GuestFdKind::Gateway,
            ChoreoResourceKind::InterruptSubscription => GuestFdKind::EventSubscription,
            ChoreoResourceKind::PreopenRoot => GuestFdKind::PreopenRoot,
            ChoreoResourceKind::ChoreoObject => GuestFdKind::ChoreoObject,
            ChoreoResourceKind::DirectoryView => GuestFdKind::DirectoryView,
            ChoreoResourceKind::NetworkListener => GuestFdKind::NetworkListener,
            ChoreoResourceKind::RemoteObject => GuestFdKind::RemoteObject,
            ChoreoResourceKind::EphemeralPipe => GuestFdKind::EphemeralPipe,
        }
    }
}

impl vstd::std_specs::convert::FromSpecImpl<ChoreoResourceKind> for GuestFdKind {
    open spec fn obeys_from_spec() -> bool {
        true
    }

    open spec fn from_spec(v: ChoreoResourceKind) -> Self {
        GuestFdKind::spec_from_resource(v)
    }
}

/// A guest fd resolved from the fd view.
#[derive(Clone, Copy, Debug, PartialEq, Eq, Structural)]
pub struct GuestFd {
    pub fd: u8,
    pub generation: u16,
    pub source: PicoFdViewSource,
    pub kind: GuestFdKind,
    pub rights: PicoFdRights,
    pub route: PicoFdRoute,
    pub wait_or_subscription_id: u16,
    pub choreo_object_generation: u16,
}

impl GuestFd {
    pub open spec fn spec_from_entry(value: PicoFdViewEntry) -> Self {
        GuestFd {
            fd: value.fd,
            generation: value.generation,
            source: value.source,
            kind: GuestFdKind::spec_from_resource(value.resource),
            rights: value.rights,
            route: value.spec_route(),
            wait_or_subscription_id: value.wait_or_subscription_id,
            choreo_object_generation: value.choreo_object_generation,
        }
    }

    pub fn from_entry(value: PicoFdViewEntry) -> (out: Self)
        ensures
            out == Self::spec_from_entry(value),
    {
        GuestFd {
            fd: value.fd,
            generation: value.generation,
            source: value.source,
            kind: GuestFdKind::from(value.resource),
            rights: value.rights,
            route: value.route(),
            wait_or_subscription_id: value.wait_or_subscription_id,
            choreo_object_generation: value.choreo_object_generation,
        }
    }

    pub fn fd(&self) -> (out: u8)
        ensures
            out == self.fd,
    {
        self.fd
    }

    pub fn generation(&self) -> (out: u16)
        ensures
            out == self.generation,
    {
        self.generation
    }

    pub fn source(&self) -> (out: PicoFdViewSource)
        ensures
            out == self.source,
    {
        self.source
    }

    pub fn kind(&self) -> (out: GuestFdKind)
        ensures
            out == self.kind,
    {
        self.kind
    }

    pub fn rights(&self) -> (out: PicoFdRights)
        ensures
            out == self.rights,
    {
        self.rights
    }

    pub fn route(&self) -> (out: PicoFdRoute)
        ensures
            out == self.route,
    {
        self.route
    }

    pub fn wait_or_subscription_id(&self) -> (out: u16)
        ensures
            out == self.wait_or_subscription_id,
    {
        self.wait_or_subscription_id
    }

    pub fn choreo_object_generation(&self) -> (out: u16)
        ensures
            out == self.choreo_object_generation,
    {
        self.choreo_object_generation
    }
}

impl From<PicoFdViewEntry> for GuestFd {
    fn from(value: PicoFdViewEntry) -> (out: Self) {
        GuestFd::from_entry(value)
    }
}

impl vstd::std_specs::convert::FromSpecImpl<PicoFdViewEntry> for GuestFd {
    open spec fn obeys_from_spec() -> bool {
        true
    }

    open spec fn from_spec(v: PicoFdViewEntry) -> Self {
        GuestFd::spec_from_entry(v)
    }
}

/// The syscall a pending token stands for.
#[derive(Clone, Copy, Debug, PartialEq, Eq, Structural)]
pub enum PendingSyscallKind {
    FdRead,
    FdWrite,
    PollOneoff,
    ClockSleep,
    NetworkRecv,
    NetworkSend,
    ChoreoFsRead,
    ChoreoFsWrite,
    DirectoryRead,
    SockAccept,
}

/// A linear token for one pending syscall.
#[derive(Clone, Copy, Debug, PartialEq, Eq, Structural)]
pub struct PendingSyscallToken {
    pub id: u16,
    pub generation: u16,
    pub kind: PendingSyscallKind,
}

impl PendingSyscallToken {
    pub fn new(id: u16, generation: u16, kind: PendingSyscallKind) -> (out: Self)
        ensures
            out.id == id,
            out.generation == generation,
            out.kind == kind,
    {
        Self { id, generation, kind }
    }

    pub fn id(&self) -> (out: u16)
        ensures
            out == self.id,
    {
        self.id
    }

    pub fn generation(&self) -> (out: u16)
        ensures
            out == self.generation,
    {
        self.generation
    }

    pub fn kind(&self) -> (out: PendingSyscallKind)
        ensures
            out == self.kind,
    {
        self.kind
    }
}

/// What a pending syscall expects of its completion.
#[derive(Clone, Copy, Debug, PartialEq, Eq, Structural)]
pub struct PendingSyscallSpec {
    pub kind: PendingSyscallKind,
    pub fd: Option<u8>,
    pub lease_id: Option<u8>,
    pub len: Option<u16>,
    pub tick: Option<u64>,
    pub fd_kind: Option<GuestFdKind>,
}

impl PendingSyscallSpec {
    pub fn new(kind: PendingSyscallKind) -> (out: Self)
        ensures
            out == (PendingSyscallSpec { kind, fd: None, lease_id: None, len: None, tick: None, fd_kind: None }),
    {
        Self { kind, fd: None, lease_id: None, len: None, tick: None, fd_kind: None }
    }

    pub fn fd_io(kind: PendingSyscallKind, fd: u8, lease_id: u8, len: u16, fd_kind: GuestFdKind) -> (out: Self)
        ensures
            out == (PendingSyscallSpec { kind, fd: Some(fd), lease_id: Some(lease_id), len: Some(len), tick: None, fd_kind: Some(fd_kind) }),
    {
        Self { kind, fd: Some(fd), lease_id: Some(lease_id), len: Some(len), tick: None, fd_kind: Some(fd_kind) }
    }

    pub fn fd_event(kind: PendingSyscallKind, fd: u8, fd_kind: GuestFdKind) -> (out: Self)
        ensures
            out == (PendingSyscallSpec { kind, fd: Some(fd), lease_id: None, len: None, tick: None, fd_kind: Some(fd_kind) }),
    {
        Self { kind, fd: Some(fd), lease_id: None, len: None, tick: None, fd_kind: Some(fd_kind) }
    }

    pub fn timer(kind: PendingSyscallKind, tick: u64) -> (out: Self)
        ensures
            out == (PendingSyscallSpec { kind, fd: None, lease_id: None, len: None, tick: Some(tick), fd_kind: None }),
    {
        Self { kind, fd: None, lease_id: None, len: None, tick: Some(tick), fd_kind: None }
    }

    pub fn kind(&self) -> (out: PendingSyscallKind)
        ensures
            out == self.kind,
    {
        self.kind
    }

    pub fn fd(&self) -> (out: Option<u8>)
        ensures
            out == self.fd,
    {
        self.fd
    }

    pub fn lease_id(&self) -> (out: Option<u8>)
        ensures
            out == self.lease_id,
    {
        self.lease_id
    }

    pub fn len(&self) -> (out: Option<u16>)
        ensures
            out == self.len,
    {
        self.len
    }

    pub fn tick(&self) -> (out: Option<u64>)
        ensures
            out == self.tick,
    {
        self.tick
    }

    pub fn fd_kind(&self) -> (out: Option<GuestFdKind>)
        ensures
            out == self.fd_kind,
    {
        self.fd_kind
    }

    /// A completion matches when kind, fd, lease and tick agree and its length stays within the expected one.
    pub open spec fn spec_matches_completion(&self, completion: PendingSyscallCompletion) -> bool {
        &&& self.kind == completion.kind
        &&& self.fd == completion.fd
        &&& self.lease_id == completion.lease_id
        &&& match self.len {
            Some(expected) => completion.len is Some && completion.len->Some_0 <= expected,
            None => completion.len is None,
        }
        &&& self.tick == completion.tick
    }

    pub fn matches_completion(&self, completion: PendingSyscallCompletion) -> (out: bool)
        ensures
            out == self.spec_matches_completion(completion),
    {
        if self.kind != completion.kind {
            return false;
        }
        if self.fd != completion.fd {
            return false;
        }
        if self.lease_id != completion.lease_id {
            return false;
        }
        match self.len {
            Some(expected_len) => {
                match completion.len {
                    Some(actual_len) => {
                        if actual_len > expected_len {
                            return false;
                        }
                    },
                    None => return false,
                }
            },
            None => {
                if completion.len.is_some() {
                    return false;
                }
            },
        }
        self.tick == completion.tick
    }
}

/// What a completion reports.
#[derive(Clone, Copy, Debug, PartialEq, Eq, Structural)]
pub struct PendingSyscallCompletion {
    pub kind: PendingSyscallKind,
    pub fd: Option<u8>,
    pub lease_id: Option<u8>,
    pub len: Option<u16>,
    pub tick: Option<u64>,
}

impl PendingSyscallCompletion {
    pub fn fd_io(kind: PendingSyscallKind, fd: u8, lease_id: u8, len: u16) -> (out: Self)
        ensures
            out == (PendingSyscallCompletion { kind, fd: Some(fd), lease_id: Some(lease_id), len: Some(len), tick: None }),
    {
        Self { kind, fd: Some(fd), lease_id: Some(lease_id), len: Some(len), tick: None }
    }

    pub fn fd_event(kind: PendingSyscallKind, fd: u8) -> (out: Self)
        ensures
            out == (PendingSyscallCompletion { kind, fd: Some(fd), lease_id: None, len: None, tick: None }),
    {
        Self { kind, fd: Some(fd), lease_id: None, len: None, tick: None }
    }

    pub fn timer(kind: PendingSyscallKind, tick: u64) -> (out: Self)
        ensures
            out == (PendingSyscallCompletion { kind, fd: None, lease_id: None, len: None, tick: Some(tick) }),
    {
        Self { kind, fd: None, lease_id: None, len: None, tick: Some(tick) }
    }

    pub fn kind(&self) -> (out: PendingSyscallKind)
        ensures
            out == self.kind,
    {
        self.kind
    }
}

/// A pending syscall: its token and what its completion must match.
#[derive(Clone, Copy, Debug, PartialEq, Eq, Structural)]
pub struct PendingSyscallEntry {
    pub token: PendingSyscallToken,
    pub spec: PendingSyscallSpec,
}

/// Why a pending syscall cannot begin or complete.
#[derive(Clone, Copy, Debug, PartialEq, Eq, Structural)]
pub enum PendingSyscallError {
    TableFull,
    NotFound,
    StaleGeneration,
    WrongKind,
    CompletionMismatch,
}

/// The id or generation that follows `x`: they count up and skip zero.
/// The table's next token id and generation after a begin: moved on past the one handed
/// out when it succeeded, else as before.
pub open spec fn pending_ids_after_begin<const N: usize>(
    old: PendingSyscallTable<N>,
    new: PendingSyscallTable<N>,
    began: bool,
) -> bool {
    &&& new.spec_next_id() == if began { next_nonzero(old.spec_next_id()) } else { old.spec_next_id() }
    &&& new.spec_next_generation() == if began { next_nonzero(old.spec_next_generation()) } else { old.spec_next_generation() }
}

pub open spec fn next_nonzero(x: u16) -> u16 {
    if x == u16::MAX { 1 } else { (x + 1) as u16 }
}

pub open spec fn empty_pending_slot() -> spec_fn(Option<PendingSyscallEntry>) -> bool {
    |e: Option<PendingSyscallEntry>| e is None
}

pub open spec fn held_pending_slot() -> spec_fn(Option<PendingSyscallEntry>) -> bool {
    |e: Option<PendingSyscallEntry>| e is Some
}

pub open spec fn token_slot(id: u16) -> spec_fn(Option<PendingSyscallEntry>) -> bool {
    |e: Option<PendingSyscallEntry>| e is Some && e->Some_0.token.id == id
}

/// Completing `token` with `completion`: the slots after it and the answer.
pub open spec fn spec_complete_pending(
    s: Seq<Option<PendingSyscallEntry>>,
    token: PendingSyscallToken,
    completion: PendingSyscallCompletion,
) -> (Seq<Option<PendingSyscallEntry>>, Result<(), PendingSyscallError>) {
    let i = first_index(s, token_slot(token.id));
    if i >= s.len() {
        (s, Err(PendingSyscallError::NotFound))
    } else {
        let entry = s[i]->Some_0;
        if entry.token.generation != token.generation {
            (s, Err(PendingSyscallError::StaleGeneration))
        } else if entry.token.kind != token.kind || entry.token.kind != completion.kind {
            (s, Err(PendingSyscallError::WrongKind))
        } else if !entry.spec.spec_matches_completion(completion) {
            (s, Err(PendingSyscallError::CompletionMismatch))
        } else {
            (s.update(i, None), Ok(()))
        }
    }
}

/// Pending syscalls in `N` slots, with the next token id and generation.
pub struct PendingSyscallTable<const N: usize> {
    slots: Vec<Option<PendingSyscallEntry>>,
    next_id: u16,
    next_generation: u16,
}

impl<const N: usize> PendingSyscallTable<N> {
    pub closed spec fn view(&self) -> Seq<Option<PendingSyscallEntry>> {
        self.slots@
    }

    pub closed spec fn spec_next_id(&self) -> u16 {
        self.next_id
    }

    pub closed spec fn spec_next_generation(&self) -> u16 {
        self.next_generation
    }

    pub closed spec fn wf(&self) -> bool {
        &&& self.slots@.len() == N
        &&& self.next_id != 0
        &&& self.next_generation != 0
    }

    /// A well-formed table hands out nonzero token ids and generations.
    pub proof fn lemma_next_nonzero(&self)
        requires
            self.wf(),
        ensures
            self.spec_next_id() != 0,
            self.spec_next_generation() != 0,
    {
    }

    pub fn new() -> (out: Self)
        ensures
            out.wf(),
            out@ == Seq::new(N as nat, |i: int| None::<PendingSyscallEntry>),
            out.spec_next_id() == 1,
            out.spec_next_generation() == 1,
    {
        let mut slots: Vec<Option<PendingSyscallEntry>> = Vec::new();
        let mut i: usize = 0;
        while i < N
            invariant
                i <= N,
                slots@ == Seq::new(i as nat, |j: int| None::<PendingSyscallEntry>),
            decreases N - i,
        {
            slots.push(None);
            i = i + 1;
        }
        Self { slots, next_id: 1, next_generation: 1 }
    }

    pub fn pending_count(&self) -> (out: usize)
        requires
            self.wf(),
        ensures
            out == count(self@, held_pending_slot()),
    {
        let ghost s = self@;
        let mut n: usize = 0;
        let mut i: usize = 0;
        while i < self.slots.len()
            invariant
                s == self@,
                self.slots@.len() == N,
                i <= N,
                n == count_upto(s, held_pending_slot(), i as int),
            decreases N - i,
        {
            proof { lemma_count_upto_bound(s, held_pending_slot(), i as int); }
            if self.slots[i].is_some() {
                n = n + 1;
            }
            i = i + 1;
        }
        n
    }

    pub fn has_active(&self) -> (out: bool)
        requires
            self.wf(),
        ensures
            out == (count(self@, held_pending_slot()) > 0),
    {
        self.pending_count() != 0
    }

    fn first_empty(&self) -> (out: usize)
        requires
            self.wf(),
        ensures
            out as int == first_index(self@, empty_pending_slot()),
            out <= N,
    {
        let ghost s = self@;
        let mut i: usize = 0;
        proof { lemma_first_index(s, empty_pending_slot()); }
        while i < self.slots.len()
            invariant
                s == self@,
                self.slots@.len() == N,
                i <= N,
                forall|j: int| 0 <= j < i ==> !empty_pending_slot()(#[trigger] s[j]),
            decreases N - i,
        {
            if self.slots[i].is_none() {
                proof { lemma_first_index_at(s, empty_pending_slot(), i as int); }
                return i;
            }
            i = i + 1;
        }
        proof {
            lemma_first_index(s, empty_pending_slot());
            if first_index(s, empty_pending_slot()) < s.len() {
                let f = first_index(s, empty_pending_slot());
                assert(empty_pending_slot()(s[f]));
            }
        }
        i
    }

    fn find_token(&self, id: u16) -> (out: usize)
        requires
            self.wf(),
        ensures
            out as int == first_index(self@, token_slot(id)),
            out <= N,
    {
        let ghost s = self@;
        let mut i: usize = 0;
        proof { lemma_first_index(s, token_slot(id)); }
        while i < self.slots.len()
            invariant
                s == self@,
                self.slots@.len() == N,
                i <= N,
                forall|j: int| 0 <= j < i ==> !token_slot(id)(#[trigger] s[j]),
            decreases N - i,
        {
            match self.slots[i] {
                Some(entry) => {
                    if entry.token.id == id {
                        proof { lemma_first_index_at(s, token_slot(id), i as int); }
                        return i;
                    }
                },
                None => {},
            }
            i = i + 1;
        }
        proof {
            lemma_first_index(s, token_slot(id));
            if first_index(s, token_slot(id)) < s.len() {
                let f = first_index(s, token_slot(id));
                assert(token_slot(id)(s[f]));
            }
        }
        i
    }

    /// A new pending syscall takes the first free slot and the next id and generation.
    pub fn begin(&mut self, spec: PendingSyscallSpec) -> (out: Result<PendingSyscallToken, PendingSyscallError>)
        requires
            old(self).wf(),
        ensures
            final(self).wf(),
            ({
                let s = old(self)@;
                let z = first_index(s, empty_pending_slot());
                let token = PendingSyscallToken { id: old(self).spec_next_id(), generation: old(self).spec_next_generation(), kind: spec.kind };
                if z >= s.len() {
                    &&& out == Err::<PendingSyscallToken, PendingSyscallError>(PendingSyscallError::TableFull)
                    &&& final(self)@ == s
                    &&& final(self).spec_next_id() == old(self).spec_next_id()
                    &&& final(self).spec_next_generation() == old(self).spec_next_generation()
                } else {
                    &&& out == Ok::<PendingSyscallToken, PendingSyscallError>(token)
                    &&& final(self)@ == s.update(z, Some(PendingSyscallEntry { token, spec }))
                    &&& final(self).spec_next_id() == next_nonzero(old(self).spec_next_id())
                    &&& final(self).spec_next_generation() == next_nonzero(old(self).spec_next_generation())
                }
            }),
    {
        let z = self.first_empty();
        if z >= self.slots.len() {
            return Err(PendingSyscallError::TableFull);
        }
        let token = PendingSyscallToken::new(self.next_id, self.next_generation, spec.kind);
        self.slots.set(z, Some(PendingSyscallEntry { token, spec }));
        self.bump();
        Ok(token)
    }

    pub fn begin_poll_oneoff(&mut self, poll: PollOneoff) -> (out: Result<PendingSyscallToken, PendingSyscallError>)
        requires
            old(self).wf(),
        ensures
            final(self).wf(),
            ({
                let spec = PendingSyscallSpec { kind: PendingSyscallKind::PollOneoff, fd: None, lease_id: None, len: None, tick: Some(poll.timeout_tick), fd_kind: None };
                let s = old(self)@;
                let z = first_index(s, empty_pending_slot());
                let token = PendingSyscallToken { id: old(self).spec_next_id(), generation: old(self).spec_next_generation(), kind: spec.kind };
                if z >= s.len() {
                    out == Err::<PendingSyscallToken, PendingSyscallError>(PendingSyscallError::TableFull) && final(self)@ == s
                        && pending_ids_after_begin(*old(self), *final(self), false)
                } else {
                    out == Ok::<PendingSyscallToken, PendingSyscallError>(token)
                        && final(self)@ == s.update(z, Some(PendingSyscallEntry { token, spec }))
                        && pending_ids_after_begin(*old(self), *final(self), true)
                }
            }),
    {
        self.begin(PendingSyscallSpec::timer(PendingSyscallKind::PollOneoff, poll.timeout_tick))
    }

    /// A completion releases its token only when it matches what the syscall expects.
    pub fn complete(&mut self, token: PendingSyscallToken, completion: PendingSyscallCompletion) -> (out: Result<(), PendingSyscallError>)
        requires
            old(self).wf(),
        ensures
            final(self).wf(),
            final(self)@ == spec_complete_pending(old(self)@, token, completion).0,
            out == spec_complete_pending(old(self)@, token, completion).1,
            final(self).spec_next_id() == old(self).spec_next_id(),
            final(self).spec_next_generation() == old(self).spec_next_generation(),
    {
        let i = self.find_token(token.id);
        proof { lemma_first_index(self@, token_slot(token.id)); }
        if i >= self.slots.len() {
            return Err(PendingSyscallError::NotFound);
        }
        let entry = match self.slots[i] {
            Some(entry) => entry,
            None => return Err(PendingSyscallError::NotFound),
        };
        if entry.token.generation != token.generation {
            return Err(PendingSyscallError::StaleGeneration);
        }
        if entry.token.kind != token.kind || entry.token.kind != completion.kind {
            return Err(PendingSyscallError::WrongKind);
        }
        if !entry.spec.matches_completion(completion) {
            return Err(PendingSyscallError::CompletionMismatch);
        }
        self.slots.set(i, None);
        Ok(())
    }

    pub fn complete_poll_oneoff(&mut self, token: PendingSyscallToken, done: TimerSleepDone) -> (out: Result<(), PendingSyscallError>)
        requires
            old(self).wf(),
        ensures
            final(self).wf(),
            ({
                let c = PendingSyscallCompletion { kind: PendingSyscallKind::PollOneoff, fd: None, lease_id: None, len: None, tick: Some(done.tick) };
                final(self)@ == spec_complete_pending(old(self)@, token, c).0 && out == spec_complete_pending(old(self)@, token, c).1
            }),
            pending_ids_after_begin(*old(self), *final(self), false),
    {
        self.complete(token, PendingSyscallCompletion::timer(PendingSyscallKind::PollOneoff, done.tick))
    }

    /// Every pending syscall is dropped; the answer is how many there were.
    pub fn fence(&mut self) -> (out: usize)
        requires
            old(self).wf(),
        ensures
            final(self).wf(),
            out == count(old(self)@, held_pending_slot()),
            final(self)@ == Seq::new(N as nat, |i: int| None::<PendingSyscallEntry>),
            final(self).spec_next_id() == old(self).spec_next_id(),
            final(self).spec_next_generation() == old(self).spec_next_generation(),
    {
        let ghost s = self@;
        let mut cleared: usize = 0;
        let mut i: usize = 0;
        while i < self.slots.len()
            invariant
                self.wf(),
                s.len() == N,
                i <= N,
                cleared == count_upto(s, held_pending_slot(), i as int),
                forall|j: int| 0 <= j < i ==> (#[trigger] self.slots@[j]) is None,
                forall|j: int| i <= j < N ==> #[trigger] self.slots@[j] == s[j],
                self.spec_next_id() == old(self).spec_next_id(),
                self.spec_next_generation() == old(self).spec_next_generation(),
            decreases N - i,
        {
            proof { lemma_count_upto_bound(s, held_pending_slot(), i as int); }
            if self.slots[i].is_some() {
                cleared = cleared + 1;
            }
            self.slots.set(i, None);
            i = i + 1;
        }
        assert(self@ =~= Seq::new(N as nat, |i: int| None::<PendingSyscallEntry>));
        cleared
    }

    fn bump(&mut self)
        requires
            old(self).wf(),
        ensures
            final(self).wf(),
            final(self)@ == old(self)@,
            final(self).spec_next_id() == next_nonzero(old(self).spec_next_id()),
            final(self).spec_next_generation() == next_nonzero(old(self).spec_next_generation()),
    {
        if self.next_id == u16::MAX {
            self.next_id = 1;
        } else {
            self.next_id = self.next_id + 1;
        }
        if self.next_generation == u16::MAX {
            self.next_generation = 1;
        } else {
            self.next_generation = self.next_generation + 1;
        }
    }
}


/// Limits on a guest's open fds and pending syscalls.
#[derive(Clone, Copy, Debug, PartialEq, Eq, Structural)]
pub struct GuestQuotaLimits {
    pub max_fds: u16,
    pub max_pending: u16,
}

impl GuestQuotaLimits {
    pub fn new(max_fds: u16, max_pending: u16) -> (out: Self)
        ensures
            out == (GuestQuotaLimits { max_fds, max_pending }),
    {
        Self { max_fds, max_pending }
    }

    pub fn max_fds(&self) -> (out: u16)
        ensures
            out == self.max_fds,
    {
        self.max_fds
    }

    pub fn max_pending(&self) -> (out: u16)
        ensures
            out == self.max_pending,
    {
        self.max_pending
    }
}

/// A quota that a request would exceed.
#[derive(Clone, Copy, Debug, PartialEq, Eq, Structural)]
pub enum GuestQuotaError {
    FdLimit,
    PendingLimit,
}

/// The map from ledger rejections to WASI errno values.
#[derive(Clone, Copy, Debug, PartialEq, Eq, Structural)]
pub struct WasiErrnoMap {}

pub open spec fn spec_fd_errno(error: PicoFdError) -> u16 {
    match error {
        PicoFdError::BadFd | PicoFdError::BadGeneration | PicoFdError::Revoked => WASI_ERRNO_BADF,
        PicoFdError::PermissionDenied | PicoFdError::PolicyDenied | PicoFdError::WrongResource
        | PicoFdError::BadRoute | PicoFdError::BadSessionGeneration => WASI_ERRNO_NOTCAPABLE,
        PicoFdError::TableFull => WASI_ERRNO_MFILE,
    }
}

pub open spec fn spec_memory_errno(error: MemoryLeaseError) -> u16 {
    match error {
        MemoryLeaseError::OutOfBounds => WASI_ERRNO_FAULT,
        MemoryLeaseError::TableFull => WASI_ERRNO_NOMEM,
        MemoryLeaseError::EpochMismatch | MemoryLeaseError::InvalidLeaseId | MemoryLeaseError::UnknownLease
        | MemoryLeaseError::RightsMismatch | MemoryLeaseError::LeaseMismatch => WASI_ERRNO_NOTCAPABLE,
        MemoryLeaseError::Empty | MemoryLeaseError::TooLarge | MemoryLeaseError::LengthExceeded => WASI_ERRNO_INVAL,
    }
}

pub open spec fn spec_pending_errno(error: PendingSyscallError) -> u16 {
    match error {
        PendingSyscallError::TableFull => WASI_ERRNO_NOMEM,
        _ => WASI_ERRNO_INVAL,
    }
}

pub open spec fn spec_quota_errno(error: GuestQuotaError) -> u16 {
    match error {
        GuestQuotaError::FdLimit => WASI_ERRNO_MFILE,
        GuestQuotaError::PendingLimit => WASI_ERRNO_NOMEM,
    }
}

pub open spec fn spec_ledger_errno(error: GuestLedgerError) -> u16 {
    match error {
        GuestLedgerError::Fd(e) => spec_fd_errno(e),
        GuestLedgerError::Memory(e) => spec_memory_errno(e),
        GuestLedgerError::Pending(e) => spec_pending_errno(e),
        GuestLedgerError::Quota(e) => spec_quota_errno(e),
        GuestLedgerError::LeaseMismatch => WASI_ERRNO_NOTCAPABLE,
    }
}

impl WasiErrnoMap {
    pub fn new() -> (out: Self)
        ensures
            out == (WasiErrnoMap {}),
    {
        WasiErrnoMap {}
    }

    pub fn map_fd_error(self, error: PicoFdError) -> (out: u16)
        ensures
            out == spec_fd_errno(error),
    {
        match error {
            PicoFdError::BadFd | PicoFdError::BadGeneration | PicoFdError::Revoked => WASI_ERRNO_BADF,
            PicoFdError::PermissionDenied | PicoFdError::PolicyDenied | PicoFdError::WrongResource
            | PicoFdError::BadRoute | PicoFdError::BadSessionGeneration => WASI_ERRNO_NOTCAPABLE,
            PicoFdError::TableFull => WASI_ERRNO_MFILE,
        }
    }

    pub fn map_memory_error(self, error: MemoryLeaseError) -> (out: u16)
        ensures
            out == spec_memory_errno(error),
    {
        match error {
            MemoryLeaseError::OutOfBounds => WASI_ERRNO_FAULT,
            MemoryLeaseError::TableFull => WASI_ERRNO_NOMEM,
            MemoryLeaseError::EpochMismatch | MemoryLeaseError::InvalidLeaseId | MemoryLeaseError::UnknownLease
            | MemoryLeaseError::RightsMismatch | MemoryLeaseError::LeaseMismatch => WASI_ERRNO_NOTCAPABLE,
            MemoryLeaseError::Empty | MemoryLeaseError::TooLarge | MemoryLeaseError::LengthExceeded => WASI_ERRNO_INVAL,
        }
    }

    pub fn map_pending_error(self, error: PendingSyscallError) -> (out: u16)
        ensures
            out == spec_pending_errno(error),
    {
        match error {
            PendingSyscallError::TableFull => WASI_ERRNO_NOMEM,
            _ => WASI_ERRNO_INVAL,
        }
    }

    pub fn map_quota_error(self, error: GuestQuotaError) -> (out: u16)
        ensures
            out == spec_quota_errno(error),
    {
        match error {
            GuestQuotaError::FdLimit => WASI_ERRNO_MFILE,
            GuestQuotaError::PendingLimit => WASI_ERRNO_NOMEM,
        }
    }
}

/// Why the guest ledger rejects a request.
#[derive(Clone, Copy, Debug, PartialEq, Eq, Structural)]
pub enum GuestLedgerError {
    Fd(PicoFdError),
    Memory(MemoryLeaseError),
    Pending(PendingSyscallError),
    Quota(GuestQuotaError),
    LeaseMismatch,
}

impl From<PicoFdError> for GuestLedgerError {
    fn from(value: PicoFdError) -> (out: Self) {
        GuestLedgerError::Fd(value)
    }
}

impl vstd::std_specs::convert::FromSpecImpl<PicoFdError> for GuestLedgerError {
    open spec fn obeys_from_spec() -> bool {
        true
    }

    open spec fn from_spec(v: PicoFdError) -> Self {
        GuestLedgerError::Fd(v)
    }
}

impl From<MemoryLeaseError> for GuestLedgerError {
    fn from(value: MemoryLeaseError) -> (out: Self) {
        GuestLedgerError::Memory(value)
    }
}

impl vstd::std_specs::convert::FromSpecImpl<MemoryLeaseError> for GuestLedgerError {
    open spec fn obeys_from_spec() -> bool {
        true
    }

    open spec fn from_spec(v: MemoryLeaseError) -> Self {
        GuestLedgerError::Memory(v)
    }
}

impl From<PendingSyscallError> for GuestLedgerError {
    fn from(value: PendingSyscallError) -> (out: Self) {
        GuestLedgerError::Pending(value)
    }
}

impl vstd::std_specs::convert::FromSpecImpl<PendingSyscallError> for GuestLedgerError {
    open spec fn obeys_from_spec() -> bool {
        true
    }

    open spec fn from_spec(v: PendingSyscallError) -> Self {
        GuestLedgerError::Pending(v)
    }
}

impl From<GuestQuotaError> for GuestLedgerError {
    fn from(value: GuestQuotaError) -> (out: Self) {
        GuestLedgerError::Quota(value)
    }
}

impl vstd::std_specs::convert::FromSpecImpl<GuestQuotaError> for GuestLedgerError {
    open spec fn obeys_from_spec() -> bool {
        true
    }

    open spec fn from_spec(v: GuestQuotaError) -> Self {
        GuestLedgerError::Quota(v)
    }
}

pub open spec fn map_fd_result<T>(r: Result<T, PicoFdError>) -> Result<T, GuestLedgerError> {
    match r {
        Ok(v) => Ok(v),
        Err(e) => Err(GuestLedgerError::Fd(e)),
    }
}

pub open spec fn map_lease_result<T>(r: Result<T, MemoryLeaseError>) -> Result<T, GuestLedgerError> {
    match r {
        Ok(v) => Ok(v),
        Err(e) => Err(GuestLedgerError::Memory(e)),
    }
}

pub open spec fn map_pending_result<T>(r: Result<T, PendingSyscallError>) -> Result<T, GuestLedgerError> {
    match r {
        Ok(v) => Ok(v),
        Err(e) => Err(GuestLedgerError::Pending(e)),
    }
}

/// A read lease must be the one named by the write and cover its bytes.
pub open spec fn spec_validate_write_lease(write: FdWrite, grant: MemGrant) -> Result<(), GuestLedgerError> {
    if write.lease_id != grant.lease_id || write.bytes@.len() > grant.len {
        Err(GuestLedgerError::LeaseMismatch)
    } else {
        Ok(())
    }
}

/// A write lease must be the one named by the read and cover its length.
pub open spec fn spec_validate_read_lease(read: FdRead, grant: MemGrant) -> Result<(), GuestLedgerError> {
    if read.lease_id != grant.lease_id || read.max_len > grant.len || grant.rights != MemRights::Write {
        Err(GuestLedgerError::LeaseMismatch)
    } else {
        Ok(())
    }
}

pub open spec fn is_network_resource(resource: ChoreoResourceKind) -> bool {
    resource is NetworkDatagram || resource is NetworkStream
}

fn ensure_network_resource(resource: ChoreoResourceKind) -> (out: Result<(), GuestLedgerError>)
    ensures
        is_network_resource(resource) <==> out is Ok,
        out is Err ==> out == Err::<(), GuestLedgerError>(GuestLedgerError::Fd(PicoFdError::WrongResource)),
{
    match resource {
        ChoreoResourceKind::NetworkDatagram | ChoreoResourceKind::NetworkStream => Ok(()),
        _ => Err(GuestLedgerError::Fd(PicoFdError::WrongResource)),
    }
}

/// Everything one guest holds: its fd view, memory leases, pending syscalls and quotas.
pub struct GuestLedger<const FDS: usize, const LEASES: usize, const PENDING: usize> {
    tier: WasiProfile,
    fds: PicoFdView<FDS>,
    leases: MemoryLeaseTable<LEASES>,
    pending: PendingSyscallTable<PENDING>,
    quotas: GuestQuotaLimits,
    errno: WasiErrnoMap,
}

impl<const FDS: usize, const LEASES: usize, const PENDING: usize> GuestLedger<FDS, LEASES, PENDING> {
    pub closed spec fn fds(&self) -> PicoFdView<FDS> {
        self.fds
    }

    pub closed spec fn leases(&self) -> MemoryLeaseTable<LEASES> {
        self.leases
    }

    pub closed spec fn pending(&self) -> PendingSyscallTable<PENDING> {
        self.pending
    }

    pub closed spec fn spec_quotas(&self) -> GuestQuotaLimits {
        self.quotas
    }

    pub closed spec fn spec_tier(&self) -> WasiProfile {
        self.tier
    }

    pub closed spec fn wf(&self) -> bool {
        self.fds.wf() && self.leases.wf() && self.pending.wf()
    }

    /// Beginning a pending syscall under the pending quota: slots, next id and generation, answer.
    pub open spec fn spec_begin_pending(
        p: PendingSyscallTable<PENDING>,
        max_pending: u16,
        spec: PendingSyscallSpec,
    ) -> (Seq<Option<PendingSyscallEntry>>, Result<PendingSyscallToken, GuestLedgerError>) {
        let s = p@;
        let z = first_index(s, empty_pending_slot());
        if count(s, held_pending_slot()) >= max_pending {
            (s, Err(GuestLedgerError::Quota(GuestQuotaError::PendingLimit)))
        } else if z >= s.len() {
            (s, Err(GuestLedgerError::Pending(PendingSyscallError::TableFull)))
        } else {
            let token = PendingSyscallToken { id: p.spec_next_id(), generation: p.spec_next_generation(), kind: spec.kind };
            (s.update(z, Some(PendingSyscallEntry { token, spec })), Ok(token))
        }
    }

    pub fn new(
        tier: WasiProfile,
        memory_len: u32,
        memory_epoch: u32,
        quotas: GuestQuotaLimits,
        errno: WasiErrnoMap,
    ) -> (out: Self)
        ensures
            out.wf(),
            out.spec_tier() == tier,
            out.spec_quotas() == quotas,
            out.fds()@ == Seq::new(FDS as nat, |i: int| None::<PicoFdViewEntry>),
            out.fds().next_gen() == 1,
            out.leases()@ == Seq::new(LEASES as nat, |i: int| None::<MemGrant>),
            out.leases().spec_memory_len() == memory_len,
            out.leases().spec_epoch() == memory_epoch,
            out.pending()@ == Seq::new(PENDING as nat, |i: int| None::<PendingSyscallEntry>),
            out.pending().spec_next_id() == 1,
            out.pending().spec_next_generation() == 1,
    {
        Self {
            tier,
            fds: PicoFdView::new(),
            leases: MemoryLeaseTable::new(memory_len, memory_epoch),
            pending: PendingSyscallTable::new(),
            quotas,
            errno,
        }
    }

    /// The smallest profile: quotas equal to the table capacities (as 16-bit counts).
    pub fn pico_min(memory_len: u32, memory_epoch: u32) -> (out: Self)
        ensures
            out.wf(),
            out.spec_tier() == WasiProfile::PicoMin,
            out.spec_quotas() == (GuestQuotaLimits { max_fds: FDS as u16, max_pending: PENDING as u16 }),
            out.fds()@ == Seq::new(FDS as nat, |i: int| None::<PicoFdViewEntry>),
            out.fds().next_gen() == 1,
            out.leases()@ == Seq::new(LEASES as nat, |i: int| None::<MemGrant>),
            out.leases().spec_memory_len() == memory_len,
            out.leases().spec_epoch() == memory_epoch,
            out.pending()@ == Seq::new(PENDING as nat, |i: int| None::<PendingSyscallEntry>),
            out.pending().spec_next_id() == 1,
            out.pending().spec_next_generation() == 1,
    {
        Self::new(WasiProfile::PicoMin, memory_len, memory_epoch, GuestQuotaLimits::new(FDS as u16, PENDING as u16), WasiErrnoMap::new())
    }

    pub fn tier(&self) -> (out: WasiProfile)
        ensures
            out == self.spec_tier(),
    {
        self.tier
    }

    pub fn quotas(&self) -> (out: GuestQuotaLimits)
        ensures
            out == self.spec_quotas(),
    {
        self.quotas
    }

    pub fn errno_contract(&self) -> (out: WasiErrnoMap)
        ensures
            out == (WasiErrnoMap {}),
    {
        self.errno
    }

    pub fn fd_view(&self) -> (out: &PicoFdView<FDS>)
        ensures
            *out == self.fds(),
            self.wf() ==> out.wf(),
    {
        &self.fds
    }

    pub fn lease_table(&self) -> (out: &MemoryLeaseTable<LEASES>)
        ensures
            *out == self.leases(),
            self.wf() ==> out.wf(),
    {
        &self.leases
    }

    pub fn pending_table(&self) -> (out: &PendingSyscallTable<PENDING>)
        ensures
            *out == self.pending(),
            self.wf() ==> out.wf(),
    {
        &self.pending
    }

    pub fn apply_fd_cap_grant(
        &mut self,
        fd: u8,
        rights: PicoFdRights,
        resource: ChoreoResourceKind,
        lane: u8,
        route_label: u8,
        wait_or_subscription_id: u16,
        target_node: u8,
        target_role: u16,
        session_generation: u16,
        policy_slot: u8,
    ) -> (out: Result<GuestFd, GuestLedgerError>)
        requires
            old(self).wf(),
        ensures
            final(self).wf(),
            final(self).leases() == old(self).leases(),
            final(self).pending() == old(self).pending(),
            final(self).spec_quotas() == old(self).spec_quotas(),
            final(self).spec_tier() == old(self).spec_tier(),
            count(old(self).fds()@, live_fd_slot()) >= old(self).spec_quotas().max_fds ==> {
                &&& out == Err::<GuestFd, GuestLedgerError>(GuestLedgerError::Quota(GuestQuotaError::FdLimit))
                &&& final(self).fds() == old(self).fds()
            },
            count(old(self).fds()@, live_fd_slot()) < old(self).spec_quotas().max_fds ==> ({
                let route = PicoFdRoute { target_node, target_role, lane, route_label, session_generation, policy_slot };
                let grant = PicoFdGrant::spec_new_mint(fd, rights, resource, wait_or_subscription_id, session_generation, route);
                let r = spec_materialize(old(self).fds()@, old(self).fds().next_gen(), grant, PicoFdViewSource::Grant);
                &&& final(self).fds()@ == r.0
                &&& final(self).fds().next_gen() == r.1
                &&& final(self).fds().telemetry() == fd_telemetry_after(old(self).fds().telemetry(), r.2)
                &&& out == match r.2 {
                    Ok(e) => Ok::<GuestFd, GuestLedgerError>(GuestFd::spec_from_entry(e)),
                    Err(e) => Err(GuestLedgerError::Fd(e)),
                }
            }),
    {
        if self.fds.active_count() >= self.quotas.max_fds as usize {
            return Err(GuestLedgerError::Quota(GuestQuotaError::FdLimit));
        }
        let route = PicoFdRoute::new(target_node, target_role, lane, route_label, session_generation, policy_slot);
        match self.fds.apply_cap_grant(fd, rights, resource, wait_or_subscription_id, route) {
            Ok(entry) => Ok(GuestFd::from_entry(entry)),
            Err(error) => Err(GuestLedgerError::Fd(error)),
        }
    }

    pub fn apply_fd_cap_mint(
        &mut self,
        fd: u8,
        rights: PicoFdRights,
        resource: ChoreoResourceKind,
        lane: u8,
        route_label: u8,
        choreo_object_id: u16,
        target_node: u8,
        target_role: u16,
        session_generation: u16,
        choreo_object_generation: u16,
        policy_slot: u8,
    ) -> (out: Result<GuestFd, GuestLedgerError>)
        requires
            old(self).wf(),
        ensures
            final(self).wf(),
            final(self).leases() == old(self).leases(),
            final(self).pending() == old(self).pending(),
            final(self).spec_quotas() == old(self).spec_quotas(),
            final(self).spec_tier() == old(self).spec_tier(),
            count(old(self).fds()@, live_fd_slot()) >= old(self).spec_quotas().max_fds ==> {
                &&& out == Err::<GuestFd, GuestLedgerError>(GuestLedgerError::Quota(GuestQuotaError::FdLimit))
                &&& final(self).fds() == old(self).fds()
            },
            count(old(self).fds()@, live_fd_slot()) < old(self).spec_quotas().max_fds ==> ({
                let route = PicoFdRoute { target_node, target_role, lane, route_label, session_generation, policy_slot };
                let grant = PicoFdGrant::spec_new_mint(fd, rights, resource, choreo_object_id, choreo_object_generation, route);
                let r = spec_materialize(old(self).fds()@, old(self).fds().next_gen(), grant, PicoFdViewSource::Mint);
                &&& final(self).fds()@ == r.0
                &&& final(self).fds().next_gen() == r.1
                &&& final(self).fds().telemetry() == fd_telemetry_after(old(self).fds().telemetry(), r.2)
                &&& out == match r.2 {
                    Ok(e) => Ok::<GuestFd, GuestLedgerError>(GuestFd::spec_from_entry(e)),
                    Err(e) => Err(GuestLedgerError::Fd(e)),
                }
            }),
    {
        if self.fds.active_count() >= self.quotas.max_fds as usize {
            return Err(GuestLedgerError::Quota(GuestQuotaError::FdLimit));
        }
        let route = PicoFdRoute::new(target_node, target_role, lane, route_label, session_generation, policy_slot);
        match self.fds.apply_cap_mint(fd, rights, resource, choreo_object_id, choreo_object_generation, route) {
            Ok(entry) => Ok(GuestFd::from_entry(entry)),
            Err(error) => Err(GuestLedgerError::Fd(error)),
        }
    }

    /// A trap revokes every lease (moving to `new_memory_epoch`), every pending syscall and every fd.
    pub fn apply_abort_fence(&mut self, new_memory_epoch: u32)
        requires
            old(self).wf(),
        ensures
            final(self).wf(),
            final(self).spec_tier() == old(self).spec_tier(),
            final(self).leases()@ == Seq::new(LEASES as nat, |i: int| None::<MemGrant>),
            final(self).leases().spec_epoch() == new_memory_epoch,
            final(self).pending()@ == Seq::new(PENDING as nat, |i: int| None::<PendingSyscallEntry>),
            final(self).fds()@.len() == old(self).fds()@.len(),
            forall|i: int| 0 <= i < old(self).fds()@.len() ==> #[trigger] final(self).fds()@[i] == fenced_slot(
                old(self).fds()@[i],
                generation_after(old(self).fds().next_gen(), count_upto(old(self).fds()@, live_fd_slot(), i)),
            ),
            final(self).spec_quotas() == old(self).spec_quotas(),
    {
        self.leases.fence(MemFence::new(MemFenceReason::Trap, new_memory_epoch));
        self.pending.fence();
        self.fds.fence_all();
    }

    pub fn close_fd_current(&mut self, fd: u8) -> (out: Result<GuestFd, GuestLedgerError>)
        requires
            old(self).wf(),
        ensures
            final(self).wf(),
            final(self).spec_tier() == old(self).spec_tier(),
            final(self).leases() == old(self).leases(),
            final(self).pending() == old(self).pending(),
            final(self).spec_quotas() == old(self).spec_quotas(),
            ({
                let r = match find_fd(old(self).fds()@, fd) {
                    Ok(e) => spec_close(old(self).fds()@, fd, e.generation),
                    Err(x) => (old(self).fds()@, Err(x)),
                };
                &&& final(self).fds()@ == r.0
                &&& final(self).fds().next_gen() == old(self).fds().next_gen()
                &&& out == match r.1 {
                    Ok(e) => Ok::<GuestFd, GuestLedgerError>(GuestFd::spec_from_entry(e)),
                    Err(e) => Err(GuestLedgerError::Fd(e)),
                }
            }),
    {
        match self.fds.close_current(fd) {
            Ok(entry) => Ok(GuestFd::from_entry(entry)),
            Err(error) => Err(GuestLedgerError::Fd(error)),
        }
    }

    /// The current fd `fd`, checked for rights and resource (a rejection is counted in the fd view).
    pub fn resolve_fd(&mut self, fd: u8, rights: PicoFdRights, resource: ChoreoResourceKind) -> (out: Result<GuestFd, GuestLedgerError>)
        requires
            old(self).wf(),
        ensures
            final(self).wf(),
            final(self).spec_tier() == old(self).spec_tier(),
            final(self).leases() == old(self).leases(),
            final(self).pending() == old(self).pending(),
            final(self).spec_quotas() == old(self).spec_quotas(),
            final(self).fds()@ == old(self).fds()@,
            final(self).fds().next_gen() == old(self).fds().next_gen(),
            final(self).fds().telemetry() == fd_telemetry_after(old(self).fds().telemetry(),
                spec_resolve_current(old(self).fds()@, fd, rights, resource)),
            out == match spec_resolve_current(old(self).fds()@, fd, rights, resource) {
                Ok(e) => Ok::<GuestFd, GuestLedgerError>(GuestFd::spec_from_entry(e)),
                Err(e) => Err(GuestLedgerError::Fd(e)),
            },
    {
        match self.fds.resolve_current(fd, rights, resource) {
            Ok(entry) => Ok(GuestFd::from_entry(entry)),
            Err(error) => Err(GuestLedgerError::Fd(error)),
        }
    }

    pub fn grant_read_lease(&mut self, borrow: MemBorrow) -> (out: Result<MemGrant, GuestLedgerError>)
        requires
            old(self).wf(),
        ensures
            final(self).wf(),
            final(self).spec_tier() == old(self).spec_tier(),
            final(self).fds() == old(self).fds(),
            final(self).pending() == old(self).pending(),
            final(self).spec_quotas() == old(self).spec_quotas(),
            final(self).leases().spec_epoch() == old(self).leases().spec_epoch(),
            ({
                let l = old(self).leases();
                let r = spec_grant(l@, l.spec_memory_len(), l.spec_epoch(), borrow, MemRights::Read);
                match r {
                    Ok(p) => out == Ok::<MemGrant, GuestLedgerError>(p.1) && final(self).leases()@ == l@.update(p.0, Some(p.1)),
                    Err(e) => out == Err::<MemGrant, GuestLedgerError>(GuestLedgerError::Memory(e)) && final(self).leases()@ == l@,
                }
            }),
    {
        match self.leases.grant_read(borrow) {
            Ok(grant) => Ok(grant),
            Err(error) => Err(GuestLedgerError::Memory(error)),
        }
    }

    pub fn grant_write_lease(&mut self, borrow: MemBorrow) -> (out: Result<MemGrant, GuestLedgerError>)
        requires
            old(self).wf(),
        ensures
            final(self).wf(),
            final(self).spec_tier() == old(self).spec_tier(),
            final(self).fds() == old(self).fds(),
            final(self).pending() == old(self).pending(),
            final(self).spec_quotas() == old(self).spec_quotas(),
            final(self).leases().spec_epoch() == old(self).leases().spec_epoch(),
            ({
                let l = old(self).leases();
                let r = spec_grant(l@, l.spec_memory_len(), l.spec_epoch(), borrow, MemRights::Write);
                match r {
                    Ok(p) => out == Ok::<MemGrant, GuestLedgerError>(p.1) && final(self).leases()@ == l@.update(p.0, Some(p.1)),
                    Err(e) => out == Err::<MemGrant, GuestLedgerError>(GuestLedgerError::Memory(e)) && final(self).leases()@ == l@,
                }
            }),
    {
        match self.leases.grant_write(borrow) {
            Ok(grant) => Ok(grant),
            Err(error) => Err(GuestLedgerError::Memory(error)),
        }
    }

    pub fn release_lease(&mut self, release: MemRelease) -> (out: Result<MemGrant, GuestLedgerError>)
        requires
            old(self).wf(),
        ensures
            final(self).wf(),
            final(self).spec_tier() == old(self).spec_tier(),
            final(self).fds() == old(self).fds(),
            final(self).pending() == old(self).pending(),
            final(self).spec_quotas() == old(self).spec_quotas(),
            out == map_lease_result(spec_get_lease(old(self).leases()@, release.lease_id)),
            out is Ok ==> final(self).leases()@ == old(self).leases()@.update(
                first_index(old(self).leases()@, lease_slot(release.lease_id)), None),
            out is Err ==> final(self).leases()@ == old(self).leases()@,
    {
        match self.leases.release(release) {
            Ok(grant) => Ok(grant),
            Err(error) => Err(GuestLedgerError::Memory(error)),
        }
    }

    pub fn validate_fd_write_lease(&self, write: &FdWrite, grant: MemGrant) -> (out: Result<(), GuestLedgerError>)
        ensures
            out == spec_validate_write_lease(*write, grant),
    {
        if write.lease_id() != grant.lease_id || write.len() > grant.len as usize {
            return Err(GuestLedgerError::LeaseMismatch);
        }
        Ok(())
    }

    pub fn validate_fd_read_lease(&self, read: &FdRead, grant: MemGrant) -> (out: Result<(), GuestLedgerError>)
        ensures
            out == spec_validate_read_lease(*read, grant),
    {
        if read.lease_id() != grant.lease_id || read.max_len() > grant.len || grant.rights != MemRights::Write {
            return Err(GuestLedgerError::LeaseMismatch);
        }
        Ok(())
    }

    fn begin_pending(&mut self, spec: PendingSyscallSpec) -> (out: Result<PendingSyscallToken, GuestLedgerError>)
        requires
            old(self).wf(),
        ensures
            final(self).wf(),
            final(self).spec_tier() == old(self).spec_tier(),
            pending_ids_after_begin(old(self).pending(), final(self).pending(), out is Ok),
            final(self).fds() == old(self).fds(),
            final(self).leases() == old(self).leases(),
            final(self).spec_quotas() == old(self).spec_quotas(),
            final(self).pending()@ == Self::spec_begin_pending(old(self).pending(), old(self).spec_quotas().max_pending, spec).0,
            out == Self::spec_begin_pending(old(self).pending(), old(self).spec_quotas().max_pending, spec).1,
    {
        if self.pending.pending_count() >= self.quotas.max_pending as usize {
            return Err(GuestLedgerError::Quota(GuestQuotaError::PendingLimit));
        }
        match self.pending.begin(spec) {
            Ok(token) => Ok(token),
            Err(error) => Err(GuestLedgerError::Pending(error)),
        }
    }

    fn complete_pending(&mut self, token: PendingSyscallToken, completion: PendingSyscallCompletion) -> (out: Result<(), GuestLedgerError>)
        requires
            old(self).wf(),
        ensures
            final(self).wf(),
            final(self).spec_tier() == old(self).spec_tier(),
            pending_ids_after_begin(old(self).pending(), final(self).pending(), false),
            final(self).fds() == old(self).fds(),
            final(self).leases() == old(self).leases(),
            final(self).spec_quotas() == old(self).spec_quotas(),
            final(self).pending()@ == spec_complete_pending(old(self).pending()@, token, completion).0,
            out == map_pending_result(spec_complete_pending(old(self).pending()@, token, completion).1),
    {
        match self.pending.complete(token, completion) {
            Ok(()) => Ok(()),
            Err(error) => Err(GuestLedgerError::Pending(error)),
        }
    }

    pub fn begin_fd_write(
        &mut self,
        write: &FdWrite,
        grant: MemGrant,
        resource: ChoreoResourceKind,
    ) -> (out: Result<PendingSyscallToken, GuestLedgerError>)
        requires
            old(self).wf(),
        ensures
            final(self).wf(),
            final(self).spec_tier() == old(self).spec_tier(),
            pending_ids_after_begin(old(self).pending(), final(self).pending(), out is Ok),
            final(self).leases() == old(self).leases(),
            final(self).spec_quotas() == old(self).spec_quotas(),
            ({
                let lease = spec_validate_write_lease(*write, grant);
                let r = spec_resolve_current(old(self).fds()@, write.fd, PicoFdRights::Write, resource);
                if lease is Err {
                    out == Err::<PendingSyscallToken, GuestLedgerError>(GuestLedgerError::LeaseMismatch)
                        && *final(self) == *old(self)
                } else {
                    &&& final(self).fds()@ == old(self).fds()@
                    &&& final(self).fds().telemetry() == fd_telemetry_after(old(self).fds().telemetry(), r)
                    &&& match r {
                        Err(e) => out == Err::<PendingSyscallToken, GuestLedgerError>(GuestLedgerError::Fd(e))
                            && final(self).pending() == old(self).pending(),
                        Ok(entry) => {
                            let spec = PendingSyscallSpec {
                                kind: PendingSyscallKind::FdWrite,
                                fd: Some(write.fd),
                                lease_id: Some(write.lease_id),
                                len: Some(write.bytes@.len() as u16),
                                tick: None,
                                fd_kind: Some(GuestFdKind::spec_from_resource(entry.resource)),
                            };
                            let b = Self::spec_begin_pending(old(self).pending(), old(self).spec_quotas().max_pending, spec);
                            final(self).pending()@ == b.0 && out == b.1
                        },
                    }
                }
            }),
    {
        self.validate_fd_write_lease(write, grant)?;
        let guest_fd = self.resolve_fd(write.fd(), PicoFdRights::Write, resource)?;
        self.begin_pending(PendingSyscallSpec::fd_io(
            PendingSyscallKind::FdWrite,
            write.fd(),
            write.lease_id(),
            write.len() as u16,
            guest_fd.kind(),
        ))
    }

    pub fn complete_fd_write(&mut self, token: PendingSyscallToken, fd: u8, lease_id: u8, written: u16) -> (out: Result<(), GuestLedgerError>)
        requires
            old(self).wf(),
        ensures
            final(self).wf(),
            final(self).spec_tier() == old(self).spec_tier(),
            final(self).spec_quotas() == old(self).spec_quotas(),
            pending_ids_after_begin(old(self).pending(), final(self).pending(), false),
            final(self).fds() == old(self).fds(),
            final(self).leases() == old(self).leases(),
            ({
                let c = PendingSyscallCompletion { kind: PendingSyscallKind::FdWrite, fd: Some(fd), lease_id: Some(lease_id), len: Some(written), tick: None };
                final(self).pending()@ == spec_complete_pending(old(self).pending()@, token, c).0
                    && out == map_pending_result(spec_complete_pending(old(self).pending()@, token, c).1)
            }),
    {
        self.complete_pending(token, PendingSyscallCompletion::fd_io(PendingSyscallKind::FdWrite, fd, lease_id, written))
    }

    pub fn begin_fd_read(
        &mut self,
        read: &FdRead,
        grant: MemGrant,
        resource: ChoreoResourceKind,
    ) -> (out: Result<PendingSyscallToken, GuestLedgerError>)
        requires
            old(self).wf(),
        ensures
            final(self).wf(),
            final(self).spec_tier() == old(self).spec_tier(),
            pending_ids_after_begin(old(self).pending(), final(self).pending(), out is Ok),
            final(self).leases() == old(self).leases(),
            final(self).spec_quotas() == old(self).spec_quotas(),
            ({
                let lease = spec_validate_read_lease(*read, grant);
                let r = spec_resolve_current(old(self).fds()@, read.fd, PicoFdRights::Read, resource);
                if lease is Err {
                    out == Err::<PendingSyscallToken, GuestLedgerError>(GuestLedgerError::LeaseMismatch)
                        && *final(self) == *old(self)
                } else {
                    &&& final(self).fds()@ == old(self).fds()@
                    &&& final(self).fds().telemetry() == fd_telemetry_after(old(self).fds().telemetry(), r)
                    &&& match r {
                        Err(e) => out == Err::<PendingSyscallToken, GuestLedgerError>(GuestLedgerError::Fd(e))
                            && final(self).pending() == old(self).pending(),
                        Ok(entry) => {
                            let spec = PendingSyscallSpec {
                                kind: PendingSyscallKind::FdRead,
                                fd: Some(read.fd),
                                lease_id: Some(read.lease_id),
                                len: Some(read.max_len as u16),
                                tick: None,
                                fd_kind: Some(GuestFdKind::spec_from_resource(entry.resource)),
                            };
                            let b = Self::spec_begin_pending(old(self).pending(), old(self).spec_quotas().max_pending, spec);
                            final(self).pending()@ == b.0 && out == b.1
                        },
                    }
                }
            }),
    {
        self.validate_fd_read_lease(read, grant)?;
        let guest_fd = self.resolve_fd(read.fd(), PicoFdRights::Read, resource)?;
        self.begin_pending(PendingSyscallSpec::fd_io(
            PendingSyscallKind::FdRead,
            read.fd(),
            read.lease_id(),
            read.max_len() as u16,
            guest_fd.kind(),
        ))
    }

    pub fn complete_fd_read(&mut self, token: PendingSyscallToken, fd: u8, lease_id: u8, len: u16) -> (out: Result<(), GuestLedgerError>)
        requires
            old(self).wf(),
        ensures
            final(self).wf(),
            final(self).spec_tier() == old(self).spec_tier(),
            final(self).spec_quotas() == old(self).spec_quotas(),
            pending_ids_after_begin(old(self).pending(), final(self).pending(), false),
            final(self).fds() == old(self).fds(),
            final(self).leases() == old(self).leases(),
            ({
                let c = PendingSyscallCompletion { kind: PendingSyscallKind::FdRead, fd: Some(fd), lease_id: Some(lease_id), len: Some(len), tick: None };
                final(self).pending()@ == spec_complete_pending(old(self).pending()@, token, c).0
                    && out == map_pending_result(spec_complete_pending(old(self).pending()@, token, c).1)
            }),
    {
        self.complete_pending(token, PendingSyscallCompletion::fd_io(PendingSyscallKind::FdRead, fd, lease_id, len))
    }

    pub fn begin_network_recv(
        &mut self,
        read: &FdRead,
        grant: MemGrant,
        resource: ChoreoResourceKind,
    ) -> (out: Result<PendingSyscallToken, GuestLedgerError>)
        requires
            old(self).wf(),
        ensures
            final(self).wf(),
            final(self).spec_tier() == old(self).spec_tier(),
            pending_ids_after_begin(old(self).pending(), final(self).pending(), out is Ok),
            final(self).leases() == old(self).leases(),
            final(self).spec_quotas() == old(self).spec_quotas(),
            !is_network_resource(resource) ==> out == Err::<PendingSyscallToken, GuestLedgerError>(GuestLedgerError::Fd(PicoFdError::WrongResource))
                && *final(self) == *old(self),
            is_network_resource(resource) ==> ({
                let lease = spec_validate_read_lease(*read, grant);
                let r = spec_resolve_current(old(self).fds()@, read.fd, PicoFdRights::Read, resource);
                if lease is Err {
                    out == Err::<PendingSyscallToken, GuestLedgerError>(GuestLedgerError::LeaseMismatch)
                        && *final(self) == *old(self)
                } else {
                    &&& final(self).fds()@ == old(self).fds()@
                    &&& final(self).fds().telemetry() == fd_telemetry_after(old(self).fds().telemetry(), r)
                    &&& match r {
                        Err(e) => out == Err::<PendingSyscallToken, GuestLedgerError>(GuestLedgerError::Fd(e))
                            && final(self).pending() == old(self).pending(),
                        Ok(entry) => {
                            let spec = PendingSyscallSpec {
                                kind: PendingSyscallKind::NetworkRecv,
                                fd: Some(read.fd),
                                lease_id: Some(read.lease_id),
                                len: Some(read.max_len as u16),
                                tick: None,
                                fd_kind: Some(GuestFdKind::spec_from_resource(entry.resource)),
                            };
                            let b = Self::spec_begin_pending(old(self).pending(), old(self).spec_quotas().max_pending, spec);
                            final(self).pending()@ == b.0 && out == b.1
                        },
                    }
                }
            }),
    {
        ensure_network_resource(resource)?;
        self.validate_fd_read_lease(read, grant)?;
        let guest_fd = self.resolve_fd(read.fd(), PicoFdRights::Read, resource)?;
        self.begin_pending(PendingSyscallSpec::fd_io(
            PendingSyscallKind::NetworkRecv,
            read.fd(),
            read.lease_id(),
            read.max_len() as u16,
            guest_fd.kind(),
        ))
    }

    pub fn complete_network_recv(&mut self, token: PendingSyscallToken, fd: u8, lease_id: u8, len: u16) -> (out: Result<(), GuestLedgerError>)
        requires
            old(self).wf(),
        ensures
            final(self).wf(),
            final(self).spec_tier() == old(self).spec_tier(),
            final(self).spec_quotas() == old(self).spec_quotas(),
            pending_ids_after_begin(old(self).pending(), final(self).pending(), false),
            final(self).fds() == old(self).fds(),
            final(self).leases() == old(self).leases(),
            ({
                let c = PendingSyscallCompletion { kind: PendingSyscallKind::NetworkRecv, fd: Some(fd), lease_id: Some(lease_id), len: Some(len), tick: None };
                final(self).pending()@ == spec_complete_pending(old(self).pending()@, token, c).0
                    && out == map_pending_result(spec_complete_pending(old(self).pending()@, token, c).1)
            }),
    {
        self.complete_pending(token, PendingSyscallCompletion::fd_io(PendingSyscallKind::NetworkRecv, fd, lease_id, len))
    }

    pub fn begin_network_send(
        &mut self,
        write: &FdWrite,
        grant: MemGrant,
        resource: ChoreoResourceKind,
    ) -> (out: Result<PendingSyscallToken, GuestLedgerError>)
        requires
            old(self).wf(),
        ensures
            final(self).wf(),
            final(self).spec_tier() == old(self).spec_tier(),
            pending_ids_after_begin(old(self).pending(), final(self).pending(), out is Ok),
            final(self).leases() == old(self).leases(),
            final(self).spec_quotas() == old(self).spec_quotas(),
            !is_network_resource(resource) ==> out == Err::<PendingSyscallToken, GuestLedgerError>(GuestLedgerError::Fd(PicoFdError::WrongResource))
                && *final(self) == *old(self),
            is_network_resource(resource) ==> ({
                let lease = spec_validate_write_lease(*write, grant);
                let r = spec_resolve_current(old(self).fds()@, write.fd, PicoFdRights::Write, resource);
                if lease is Err {
                    out == Err::<PendingSyscallToken, GuestLedgerError>(GuestLedgerError::LeaseMismatch)
                        && *final(self) == *old(self)
                } else {
                    &&& final(self).fds()@ == old(self).fds()@
                    &&& final(self).fds().telemetry() == fd_telemetry_after(old(self).fds().telemetry(), r)
                    &&& match r {
                        Err(e) => out == Err::<PendingSyscallToken, GuestLedgerError>(GuestLedgerError::Fd(e))
                            && final(self).pending() == old(self).pending(),
                        Ok(entry) => {
                            let spec = PendingSyscallSpec {
                                kind: PendingSyscallKind::NetworkSend,
                                fd: Some(write.fd),
                                lease_id: Some(write.lease_id),
                                len: Some(write.bytes@.len() as u16),
                                tick: None,
                                fd_kind: Some(GuestFdKind::spec_from_resource(entry.resource)),
                            };
                            let b = Self::spec_begin_pending(old(self).pending(), old(self).spec_quotas().max_pending, spec);
                            final(self).pending()@ == b.0 && out == b.1
                        },
                    }
                }
            }),
    {
        ensure_network_resource(resource)?;
        self.validate_fd_write_lease(write, grant)?;
        let guest_fd = self.resolve_fd(write.fd(), PicoFdRights::Write, resource)?;
        self.begin_pending(PendingSyscallSpec::fd_io(
            PendingSyscallKind::NetworkSend,
            write.fd(),
            write.lease_id(),
            write.len() as u16,
            guest_fd.kind(),
        ))
    }

    pub fn complete_network_send(&mut self, token: PendingSyscallToken, fd: u8, lease_id: u8, written: u16) -> (out: Result<(), GuestLedgerError>)
        requires
            old(self).wf(),
        ensures
            final(self).wf(),
            final(self).spec_tier() == old(self).spec_tier(),
            final(self).spec_quotas() == old(self).spec_quotas(),
            pending_ids_after_begin(old(self).pending(), final(self).pending(), false),
            final(self).fds() == old(self).fds(),
            final(self).leases() == old(self).leases(),
            ({
                let c = PendingSyscallCompletion { kind: PendingSyscallKind::NetworkSend, fd: Some(fd), lease_id: Some(lease_id), len: Some(written), tick: None };
                final(self).pending()@ == spec_complete_pending(old(self).pending()@, token, c).0
                    && out == map_pending_result(spec_complete_pending(old(self).pending()@, token, c).1)
            }),
    {
        self.complete_pending(token, PendingSyscallCompletion::fd_io(PendingSyscallKind::NetworkSend, fd, lease_id, written))
    }

    pub fn begin_choreofs_read(
        &mut self,
        read: &FdRead,
        grant: MemGrant,
    ) -> (out: Result<PendingSyscallToken, GuestLedgerError>)
        requires
            old(self).wf(),
        ensures
            final(self).wf(),
            final(self).spec_tier() == old(self).spec_tier(),
            pending_ids_after_begin(old(self).pending(), final(self).pending(), out is Ok),
            final(self).leases() == old(self).leases(),
            final(self).spec_quotas() == old(self).spec_quotas(),
            ({
                let lease = spec_validate_read_lease(*read, grant);
                let r = spec_resolve_current(old(self).fds()@, read.fd, PicoFdRights::Read, ChoreoResourceKind::ChoreoObject);
                if lease is Err {
                    out == Err::<PendingSyscallToken, GuestLedgerError>(GuestLedgerError::LeaseMismatch)
                        && *final(self) == *old(self)
                } else {
                    &&& final(self).fds()@ == old(self).fds()@
                    &&& final(self).fds().telemetry() == fd_telemetry_after(old(self).fds().telemetry(), r)
                    &&& match r {
                        Err(e) => out == Err::<PendingSyscallToken, GuestLedgerError>(GuestLedgerError::Fd(e))
                            && final(self).pending() == old(self).pending(),
                        Ok(entry) => {
                            let spec = PendingSyscallSpec {
                                kind: PendingSyscallKind::ChoreoFsRead,
                                fd: Some(read.fd),
                                lease_id: Some(read.lease_id),
                                len: Some(read.max_len as u16),
                                tick: None,
                                fd_kind: Some(GuestFdKind::spec_from_resource(entry.resource)),
                            };
                            let b = Self::spec_begin_pending(old(self).pending(), old(self).spec_quotas().max_pending, spec);
                            final(self).pending()@ == b.0 && out == b.1
                        },
                    }
                }
            }),
    {
        self.validate_fd_read_lease(read, grant)?;
        let guest_fd = self.resolve_fd(read.fd(), PicoFdRights::Read, ChoreoResourceKind::ChoreoObject)?;
        self.begin_pending(PendingSyscallSpec::fd_io(
            PendingSyscallKind::ChoreoFsRead,
            read.fd(),
            read.lease_id(),
            read.max_len() as u16,
            guest_fd.kind(),
        ))
    }

    pub fn complete_choreofs_read(&mut self, token: PendingSyscallToken, fd: u8, lease_id: u8, len: u16) -> (out: Result<(), GuestLedgerError>)
        requires
            old(self).wf(),
        ensures
            final(self).wf(),
            final(self).spec_tier() == old(self).spec_tier(),
            final(self).spec_quotas() == old(self).spec_quotas(),
            pending_ids_after_begin(old(self).pending(), final(self).pending(), false),
            final(self).fds() == old(self).fds(),
            final(self).leases() == old(self).leases(),
            ({
                let c = PendingSyscallCompletion { kind: PendingSyscallKind::ChoreoFsRead, fd: Some(fd), lease_id: Some(lease_id), len: Some(len), tick: None };
                final(self).pending()@ == spec_complete_pending(old(self).pending()@, token, c).0
                    && out == map_pending_result(spec_complete_pending(old(self).pending()@, token, c).1)
            }),
    {
        self.complete_pending(token, PendingSyscallCompletion::fd_io(PendingSyscallKind::ChoreoFsRead, fd, lease_id, len))
    }

    pub fn begin_choreofs_write(
        &mut self,
        write: &FdWrite,
        grant: MemGrant,
    ) -> (out: Result<PendingSyscallToken, GuestLedgerError>)
        requires
            old(self).wf(),
        ensures
            final(self).wf(),
            final(self).spec_tier() == old(self).spec_tier(),
            pending_ids_after_begin(old(self).pending(), final(self).pending(), out is Ok),
            final(self).leases() == old(self).leases(),
            final(self).spec_quotas() == old(self).spec_quotas(),
            ({
                let lease = spec_validate_write_lease(*write, grant);
                let r = spec_resolve_current(old(self).fds()@, write.fd, PicoFdRights::Write, ChoreoResourceKind::ChoreoObject);
                if lease is Err {
                    out == Err::<PendingSyscallToken, GuestLedgerError>(GuestLedgerError::LeaseMismatch)
                        && *final(self) == *old(self)
                } else {
                    &&& final(self).fds()@ == old(self).fds()@
                    &&& final(self).fds().telemetry() == fd_telemetry_after(old(self).fds().telemetry(), r)
                    &&& match r {
                        Err(e) => out == Err::<PendingSyscallToken, GuestLedgerError>(GuestLedgerError::Fd(e))
                            && final(self).pending() == old(self).pending(),
                        Ok(entry) => {
                            let spec = PendingSyscallSpec {
                                kind: PendingSyscallKind::ChoreoFsWrite,
                                fd: Some(write.fd),
                                lease_id: Some(write.lease_id),
                                len: Some(write.bytes@.len() as u16),
                                tick: None,
                                fd_kind: Some(GuestFdKind::spec_from_resource(entry.resource)),
                            };
                            let b = Self::spec_begin_pending(old(self).pending(), old(self).spec_quotas().max_pending, spec);
                            final(self).pending()@ == b.0 && out == b.1
                        },
                    }
                }
            }),
    {
        self.validate_fd_write_lease(write, grant)?;
        let guest_fd = self.resolve_fd(write.fd(), PicoFdRights::Write, ChoreoResourceKind::ChoreoObject)?;
        self.begin_pending(PendingSyscallSpec::fd_io(
            PendingSyscallKind::ChoreoFsWrite,
            write.fd(),
            write.lease_id(),
            write.len() as u16,
            guest_fd.kind(),
        ))
    }

    pub fn complete_choreofs_write(&mut self, token: PendingSyscallToken, fd: u8, lease_id: u8, written: u16) -> (out: Result<(), GuestLedgerError>)
        requires
            old(self).wf(),
        ensures
            final(self).wf(),
            final(self).spec_tier() == old(self).spec_tier(),
            final(self).spec_quotas() == old(self).spec_quotas(),
            pending_ids_after_begin(old(self).pending(), final(self).pending(), false),
            final(self).fds() == old(self).fds(),
            final(self).leases() == old(self).leases(),
            ({
                let c = PendingSyscallCompletion { kind: PendingSyscallKind::ChoreoFsWrite, fd: Some(fd), lease_id: Some(lease_id), len: Some(written), tick: None };
                final(self).pending()@ == spec_complete_pending(old(self).pending()@, token, c).0
                    && out == map_pending_result(spec_complete_pending(old(self).pending()@, token, c).1)
            }),
    {
        self.complete_pending(token, PendingSyscallCompletion::fd_io(PendingSyscallKind::ChoreoFsWrite, fd, lease_id, written))
    }

    /// What `begin_directory_read` does to the ledger and answers, for a given read and grant.
    pub open spec fn begin_directory_read_post(
        old: Self,
        new: Self,
        read: FdRead,
        grant: MemGrant,
        out: Result<PendingSyscallToken, GuestLedgerError>,
    ) -> bool {
        &&& new.wf()
        &&& new.leases() == old.leases()
        &&& new.spec_quotas() == old.spec_quotas()
        &&& new.spec_tier() == old.spec_tier()
        &&& pending_ids_after_begin(old.pending(), new.pending(), out is Ok)
        &&& ({
                let lease = spec_validate_read_lease(read, grant);
                let r = spec_resolve_current(old.fds()@, read.fd, PicoFdRights::Read, ChoreoResourceKind::DirectoryView);
                if lease is Err {
                    out == Err::<PendingSyscallToken, GuestLedgerError>(GuestLedgerError::LeaseMismatch)
                        && new == old
                } else {
                    &&& new.fds()@ == old.fds()@
                    &&& new.fds().telemetry() == fd_telemetry_after(old.fds().telemetry(), r)
                    &&& match r {
                        Err(e) => out == Err::<PendingSyscallToken, GuestLedgerError>(GuestLedgerError::Fd(e))
                            && new.pending() == old.pending(),
                        Ok(entry) => {
                            let spec = PendingSyscallSpec {
                                kind: PendingSyscallKind::DirectoryRead,
                                fd: Some(read.fd),
                                lease_id: Some(read.lease_id),
                                len: Some(read.max_len as u16),
                                tick: None,
                                fd_kind: Some(GuestFdKind::spec_from_resource(entry.resource)),
                            };
                            let b = Self::spec_begin_pending(old.pending(), old.spec_quotas().max_pending, spec);
                            new.pending()@ == b.0 && out == b.1
                        },
                    }
                }
            })
    }

    pub fn begin_directory_read(
        &mut self,
        read: &FdRead,
        grant: MemGrant,
    ) -> (out: Result<PendingSyscallToken, GuestLedgerError>)
        requires
            old(self).wf(),
        ensures
            Self::begin_directory_read_post(*old(self), *final(self), *read, grant, out),
    {
        self.validate_fd_read_lease(read, grant)?;
        let guest_fd = self.resolve_fd(read.fd(), PicoFdRights::Read, ChoreoResourceKind::DirectoryView)?;
        self.begin_pending(PendingSyscallSpec::fd_io(
            PendingSyscallKind::DirectoryRead,
            read.fd(),
            read.lease_id(),
            read.max_len() as u16,
            guest_fd.kind(),
        ))
    }

    pub fn complete_directory_read(&mut self, token: PendingSyscallToken, fd: u8, lease_id: u8, len: u16) -> (out: Result<(), GuestLedgerError>)
        requires
            old(self).wf(),
        ensures
            final(self).wf(),
            final(self).spec_tier() == old(self).spec_tier(),
            final(self).spec_quotas() == old(self).spec_quotas(),
            pending_ids_after_begin(old(self).pending(), final(self).pending(), false),
            final(self).fds() == old(self).fds(),
            final(self).leases() == old(self).leases(),
            ({
                let c = PendingSyscallCompletion { kind: PendingSyscallKind::DirectoryRead, fd: Some(fd), lease_id: Some(lease_id), len: Some(len), tick: None };
                final(self).pending()@ == spec_complete_pending(old(self).pending()@, token, c).0
                    && out == map_pending_result(spec_complete_pending(old(self).pending()@, token, c).1)
            }),
    {
        self.complete_pending(token, PendingSyscallCompletion::fd_io(PendingSyscallKind::DirectoryRead, fd, lease_id, len))
    }

    pub fn begin_poll_oneoff(&mut self, poll: PollOneoff) -> (out: Result<PendingSyscallToken, GuestLedgerError>)
        requires
            old(self).wf(),
        ensures
            final(self).wf(),
            final(self).spec_tier() == old(self).spec_tier(),
            final(self).spec_quotas() == old(self).spec_quotas(),
            pending_ids_after_begin(old(self).pending(), final(self).pending(), out is Ok),
            final(self).fds() == old(self).fds(),
            final(self).leases() == old(self).leases(),
            ({
                let spec = PendingSyscallSpec { kind: PendingSyscallKind::PollOneoff, fd: None, lease_id: None, len: None, tick: Some(poll.timeout_tick), fd_kind: None };
                let b = Self::spec_begin_pending(old(self).pending(), old(self).spec_quotas().max_pending, spec);
                final(self).pending()@ == b.0 && out == b.1
            }),
    {
        self.begin_pending(PendingSyscallSpec::timer(PendingSyscallKind::PollOneoff, poll.timeout_tick))
    }

    pub fn complete_poll_oneoff(&mut self, token: PendingSyscallToken, done: TimerSleepDone) -> (out: Result<(), GuestLedgerError>)
        requires
            old(self).wf(),
        ensures
            final(self).wf(),
            final(self).spec_tier() == old(self).spec_tier(),
            final(self).spec_quotas() == old(self).spec_quotas(),
            pending_ids_after_begin(old(self).pending(), final(self).pending(), false),
            final(self).fds() == old(self).fds(),
            final(self).leases() == old(self).leases(),
            ({
                let c = PendingSyscallCompletion { kind: PendingSyscallKind::PollOneoff, fd: None, lease_id: None, len: None, tick: Some(done.tick) };
                final(self).pending()@ == spec_complete_pending(old(self).pending()@, token, c).0
                    && out == map_pending_result(spec_complete_pending(old(self).pending()@, token, c).1)
            }),
    {
        self.complete_pending(token, PendingSyscallCompletion::timer(PendingSyscallKind::PollOneoff, done.tick))
    }

    pub fn begin_clock_sleep(&mut self, tick: u64) -> (out: Result<PendingSyscallToken, GuestLedgerError>)
        requires
            old(self).wf(),
        ensures
            final(self).wf(),
            final(self).spec_tier() == old(self).spec_tier(),
            final(self).spec_quotas() == old(self).spec_quotas(),
            pending_ids_after_begin(old(self).pending(), final(self).pending(), out is Ok),
            final(self).fds() == old(self).fds(),
            final(self).leases() == old(self).leases(),
            ({
                let spec = PendingSyscallSpec { kind: PendingSyscallKind::ClockSleep, fd: None, lease_id: None, len: None, tick: Some(tick), fd_kind: None };
                let b = Self::spec_begin_pending(old(self).pending(), old(self).spec_quotas().max_pending, spec);
                final(self).pending()@ == b.0 && out == b.1
            }),
    {
        self.begin_pending(PendingSyscallSpec::timer(PendingSyscallKind::ClockSleep, tick))
    }

    pub fn complete_clock_sleep(&mut self, token: PendingSyscallToken, tick: u64) -> (out: Result<(), GuestLedgerError>)
        requires
            old(self).wf(),
        ensures
            final(self).wf(),
            final(self).spec_tier() == old(self).spec_tier(),
            final(self).spec_quotas() == old(self).spec_quotas(),
            pending_ids_after_begin(old(self).pending(), final(self).pending(), false),
            final(self).fds() == old(self).fds(),
            final(self).leases() == old(self).leases(),
            ({
                let c = PendingSyscallCompletion { kind: PendingSyscallKind::ClockSleep, fd: None, lease_id: None, len: None, tick: Some(tick) };
                final(self).pending()@ == spec_complete_pending(old(self).pending()@, token, c).0
                    && out == map_pending_result(spec_complete_pending(old(self).pending()@, token, c).1)
            }),
    {
        self.complete_pending(token, PendingSyscallCompletion::timer(PendingSyscallKind::ClockSleep, tick))
    }

    pub fn begin_sock_accept(&mut self, fd: u8) -> (out: Result<PendingSyscallToken, GuestLedgerError>)
        requires
            old(self).wf(),
        ensures
            final(self).wf(),
            final(self).spec_tier() == old(self).spec_tier(),
            final(self).spec_quotas() == old(self).spec_quotas(),
            pending_ids_after_begin(old(self).pending(), final(self).pending(), out is Ok),
            final(self).leases() == old(self).leases(),
            ({
                let r = spec_resolve_current(old(self).fds()@, fd, PicoFdRights::Read, ChoreoResourceKind::NetworkListener);
                &&& final(self).fds()@ == old(self).fds()@
                &&& final(self).fds().next_gen() == old(self).fds().next_gen()
                &&& final(self).fds().telemetry() == fd_telemetry_after(old(self).fds().telemetry(), r)
                &&& match r {
                    Err(e) => out == Err::<PendingSyscallToken, GuestLedgerError>(GuestLedgerError::Fd(e))
                        && final(self).pending() == old(self).pending(),
                    Ok(entry) => {
                        let spec = PendingSyscallSpec { kind: PendingSyscallKind::SockAccept, fd: Some(fd), lease_id: None, len: None, tick: None, fd_kind: Some(GuestFdKind::spec_from_resource(entry.resource)) };
                        let b = Self::spec_begin_pending(old(self).pending(), old(self).spec_quotas().max_pending, spec);
                        final(self).pending()@ == b.0 && out == b.1
                    },
                }
            }),
    {
        let guest_fd = self.resolve_fd(fd, PicoFdRights::Read, ChoreoResourceKind::NetworkListener)?;
        self.begin_pending(PendingSyscallSpec::fd_event(PendingSyscallKind::SockAccept, fd, guest_fd.kind()))
    }

    pub fn complete_sock_accept(&mut self, token: PendingSyscallToken, fd: u8) -> (out: Result<(), GuestLedgerError>)
        requires
            old(self).wf(),
        ensures
            final(self).wf(),
            final(self).spec_tier() == old(self).spec_tier(),
            final(self).spec_quotas() == old(self).spec_quotas(),
            pending_ids_after_begin(old(self).pending(), final(self).pending(), false),
            final(self).fds() == old(self).fds(),
            final(self).leases() == old(self).leases(),
            ({
                let c = PendingSyscallCompletion { kind: PendingSyscallKind::SockAccept, fd: Some(fd), lease_id: None, len: None, tick: None };
                final(self).pending()@ == spec_complete_pending(old(self).pending()@, token, c).0
                    && out == map_pending_result(spec_complete_pending(old(self).pending()@, token, c).1)
            }),
    {
        self.complete_pending(token, PendingSyscallCompletion::fd_event(PendingSyscallKind::SockAccept, fd))
    }

    /// The WASI errno for a ledger rejection.
    pub fn errno(&self, error: GuestLedgerError) -> (out: u16)
        ensures
            out == spec_ledger_errno(error),
    {
        match error {
            GuestLedgerError::Fd(e) => self.errno.map_fd_error(e),
            GuestLedgerError::Memory(e) => self.errno.map_memory_error(e),
            GuestLedgerError::Pending(e) => self.errno.map_pending_error(e),
            GuestLedgerError::Quota(e) => self.errno.map_quota_error(e),
            GuestLedgerError::LeaseMismatch => WASI_ERRNO_NOTCAPABLE,
        }
    }
}

} // verus!
