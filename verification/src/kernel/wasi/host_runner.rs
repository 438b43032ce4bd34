//! The host/full WASI P1 runner's kernel state: a guest ledger with stdio and a ChoreoFS
//! preopen root, the ChoreoFS store, per-fd file offsets, queued network traffic and accept
//! routes, and what the runner decides for each guest call: fd resolution, path admission,
//! where an fd read or write goes, the socket calls, and what each adds to the run report.
use vstd::prelude::*;
use crate::choreography::protocol::{FdRead, FdReadDone, FdWrite, MemRights, PathOpen, WASIP1_STREAM_CHUNK_CAPACITY};
use crate::kernel::choreofs::{
    CHOREOFS_WASI_ERRNO_NOSYS, ChoreoFsError, ChoreoFsObjectKind, ChoreoFsObjectModel, ChoreoFsStat, ChoreoFsStore,
    pico_rights_from_wasip1_base, spec_open, spec_pico_rights_from_wasip1_base, spec_read, spec_stat_fd, spec_write,
};
use crate::kernel::guest_ledger::{
    GuestFd, GuestFdKind, GuestLedger, GuestLedgerError, GuestQuotaError, GuestQuotaLimits, PendingSyscallCompletion,
    PendingSyscallEntry, PendingSyscallKind, PendingSyscallSpec, PendingSyscallToken, WASI_ERRNO_BADF, WASI_ERRNO_NOTCAPABLE,
    WasiErrnoMap,
    WasiProfile, pending_ids_after_begin, spec_complete_pending, spec_ledger_errno,
};
use crate::seqs::{count, first_index, lemma_first_index, lemma_first_index_at};
use super::fd_view::{
    ChoreoResourceKind, PicoFdGrant, PicoFdRights, PicoFdRoute, PicoFdViewEntry, PicoFdViewSource, fd_is_live,
    fd_slot, empty_fd_slot, find_fd, live_fd_slot, spec_close, spec_materialize, spec_resolve_current,
};

verus! {

pub const HOST_MEMORY_LEN: u32 = 2_097_152;
pub const HOST_MEMORY_EPOCH: u32 = 1;
pub const HOST_ROOT_FD: u8 = 3;
pub const HOST_FIRST_OBJECT_FD: u8 = 4;
pub const HOST_CHOREOFS_PREOPEN_LANE: u8 = 7;
pub const HOST_CHOREOFS_PREOPEN_ROUTE_LABEL: u8 = 0;
pub const HOST_CHOREOFS_OBJECT_LANE: u8 = 8;
pub const HOST_CHOREOFS_OBJECT_ROUTE_LABEL: u8 = 1;
pub const HOST_CHOREOFS_DIRECTORY_ROUTE_LABEL: u8 = 2;
pub const HOST_NETWORK_LANE: u8 = 9;
pub const HOST_CLOCK_RESOLUTION_NANOS: u64 = 1_000_000;
pub const HOST_CLOCK_NOW_NANOS: u64 = 123_456_789;
pub const HOST_RANDOM_BYTE: u8 = 0x42;
pub const HOST_FD_OFFSET_SLOTS: usize = 16;
pub const WASIP1_FILETYPE_DIRECTORY: u8 = 3;
pub const WASIP1_FILETYPE_REGULAR_FILE: u8 = 4;

pub type HostFullGuestLedger = GuestLedger<16, 8, 16>;
pub type HostFullChoreoFs = ChoreoFsStore<8, 64, 256>;

/// Why the host runner stops.
#[derive(Clone, Copy, Debug, PartialEq, Eq)]
pub enum HostRunError {
    Ledger(GuestLedgerError),
    ChoreoFs(ChoreoFsError),
    PathRejected(u16),
    NetworkRejected(u16),
    Unsupported(&'static str),
    StepLimit,
}

/// What the runner counted while a guest ran: its exit status, what it wrote to stdout and
/// stderr, and how many calls of each kind went through or were refused.
#[derive(Clone, Debug, Default, PartialEq, Eq)]
pub struct HostRunReport {
    pub exit_status: Option<u32>,
    pub stdout: Vec<u8>,
    pub stderr: Vec<u8>,
    pub memory_grow_count: u32,
    pub choreofs_open_count: u32,
    pub choreofs_read_count: u32,
    pub choreofs_write_count: u32,
    pub network_send_count: u32,
    pub network_recv_count: u32,
    pub network_accept_count: u32,
    pub network_accept_reject_count: u32,
    pub typed_reject_count: u32,
    pub localside_drive_count: u32,
}

/// A report as values: the exit status, the stdout and stderr bytes, and the counters.
pub struct HostRunReportView {
    pub exit_status: Option<u32>,
    pub stdout: Seq<u8>,
    pub stderr: Seq<u8>,
    pub memory_grow_count: u32,
    pub choreofs_open_count: u32,
    pub choreofs_read_count: u32,
    pub choreofs_write_count: u32,
    pub network_send_count: u32,
    pub network_recv_count: u32,
    pub network_accept_count: u32,
    pub network_accept_reject_count: u32,
    pub typed_reject_count: u32,
    pub localside_drive_count: u32,
}

impl View for HostRunReport {
    type V = HostRunReportView;

    open spec fn view(&self) -> HostRunReportView {
        HostRunReportView {
            exit_status: self.exit_status,
            stdout: self.stdout@,
            stderr: self.stderr@,
            memory_grow_count: self.memory_grow_count,
            choreofs_open_count: self.choreofs_open_count,
            choreofs_read_count: self.choreofs_read_count,
            choreofs_write_count: self.choreofs_write_count,
            network_send_count: self.network_send_count,
            network_recv_count: self.network_recv_count,
            network_accept_count: self.network_accept_count,
            network_accept_reject_count: self.network_accept_reject_count,
            typed_reject_count: self.typed_reject_count,
            localside_drive_count: self.localside_drive_count,
        }
    }
}

impl HostRunReport {
    /// The guest exited with `status`.
    pub fn record_exit(&mut self, status: u32)
        ensures
            final(self)@ == (HostRunReportView { exit_status: Some(status), ..old(self)@ }),
    {
        self.exit_status = Some(status);
    }

    /// The guest ran to its end: its exit status is kept, or 0 when it never exited.
    pub fn record_done(&mut self)
        ensures
            final(self)@ == (HostRunReportView {
                exit_status: match old(self)@.exit_status {
                    Some(s) => Some(s),
                    None => Some(0u32),
                },
                ..old(self)@
            }),
    {
        if self.exit_status.is_none() {
            self.exit_status = Some(0);
        }
    }

    /// The guest grew its memory once more.
    pub fn record_memory_grow(&mut self)
        ensures
            final(self)@ == (HostRunReportView { memory_grow_count: bump(old(self)@.memory_grow_count), ..old(self)@ }),
    {
        self.memory_grow_count = self.memory_grow_count.saturating_add(1);
    }
}

/// One more, stopping at the largest count.
pub open spec fn bump(x: u32) -> u32 {
    if x == u32::MAX { x } else { (x + 1) as u32 }
}

/// A listener fd and the fd a connection accepted on it becomes.
#[derive(Clone, Copy, Debug, PartialEq, Eq, Structural)]
pub struct NetworkAcceptRoute {
    pub listener_fd: u8,
    pub accepted_fd: u8,
    pub resource: ChoreoResourceKind,
}

/// A ChoreoFS object admitted for a path open: the fd it will get and how it is routed.
#[derive(Clone, Copy, Debug, PartialEq, Eq, Structural)]
pub struct HostChoreoFsOpen {
    pub fd: u8,
    pub rights: PicoFdRights,
    pub resource: ChoreoResourceKind,
    pub lane: u8,
    pub route_label: u8,
    pub object_id: u16,
    pub target_role: u16,
    pub object_generation: u16,
}

/// What installing `grant` in a ledger fd view does: refused past the fd quota, else
/// materialized; the answer, the slots and the next generation afterwards.
pub open spec fn spec_fd_install(
    s: Seq<Option<PicoFdViewEntry>>,
    g: u16,
    max_fds: u16,
    grant: PicoFdGrant,
    source: PicoFdViewSource,
) -> (Result<GuestFd, GuestLedgerError>, Seq<Option<PicoFdViewEntry>>, u16) {
    if count(s, live_fd_slot()) >= max_fds {
        (Err(GuestLedgerError::Quota(GuestQuotaError::FdLimit)), s, g)
    } else {
        let r = spec_materialize(s, g, grant, source);
        (
            match r.2 {
                Ok(e) => Ok(GuestFd::spec_from_entry(e)),
                Err(e) => Err(GuestLedgerError::Fd(e)),
            },
            r.0,
            r.1,
        )
    }
}

/// Granting stdin, stdout and stderr (fds 0, 1, 2, lane 1) in turn under an fd quota of
/// `max_fds`, stopping at the first refusal: the answer, the slots and the next generation.
pub open spec fn spec_grant_stdio(s: Seq<Option<PicoFdViewEntry>>, g: u16, max_fds: u16) -> (
    Result<(), GuestLedgerError>,
    Seq<Option<PicoFdViewEntry>>,
    u16,
) {
    let r0 = spec_fd_install(s, g, max_fds, local_grant(0, PicoFdRights::Read, ChoreoResourceKind::Stdin, 1), PicoFdViewSource::Grant);
    match r0.0 {
        Err(e) => (Err(e), r0.1, r0.2),
        Ok(_) => {
            let r1 = spec_fd_install(r0.1, r0.2, max_fds, local_grant(1, PicoFdRights::Write, ChoreoResourceKind::Stdout, 1), PicoFdViewSource::Grant);
            match r1.0 {
                Err(e) => (Err(e), r1.1, r1.2),
                Ok(_) => {
                    let r2 = spec_fd_install(r1.1, r1.2, max_fds, local_grant(2, PicoFdRights::Write, ChoreoResourceKind::Stderr, 1), PicoFdViewSource::Grant);
                    match r2.0 {
                        Err(e) => (Err(e), r2.1, r2.2),
                        Ok(_) => (Ok(()), r2.1, r2.2),
                    }
                },
            }
        },
    }
}

/// A local grant of `fd` on `lane` with no route beyond it.
pub open spec fn local_grant(fd: u8, rights: PicoFdRights, resource: ChoreoResourceKind, lane: u8) -> PicoFdGrant {
    PicoFdGrant::spec_new_mint(fd, rights, resource, 0, 0, PicoFdRoute {
        target_node: 0,
        target_role: 0,
        lane,
        route_label: 0,
        session_generation: 0,
        policy_slot: 0,
    })
}

/// The grant a network fd of the runner gets.
pub open spec fn network_mint(fd: u8, resource: ChoreoResourceKind) -> PicoFdGrant {
    PicoFdGrant::spec_new_mint(fd, PicoFdRights::ReadWrite, resource, 0, 0, PicoFdRoute {
        target_node: 0,
        target_role: 0,
        lane: HOST_NETWORK_LANE,
        route_label: 0,
        session_generation: 0,
        policy_slot: 0,
    })
}

/// The grant a ChoreoFS object fd gets.
pub open spec fn choreofs_mint(opened: HostChoreoFsOpen) -> PicoFdGrant {
    PicoFdGrant::spec_new_mint(opened.fd, opened.rights, opened.resource, opened.object_id,
        opened.object_generation, PicoFdRoute {
            target_node: 0,
            target_role: opened.target_role,
            lane: opened.lane,
            route_label: opened.route_label,
            session_generation: 0,
            policy_slot: 0,
        })
}

pub open spec fn map_ledger<T>(r: Result<T, GuestLedgerError>) -> Result<T, HostRunError> {
    match r {
        Ok(v) => Ok(v),
        Err(e) => Err(HostRunError::Ledger(e)),
    }
}

/// The offset of `fd`: that of the first slot recorded for it, else 0.
pub open spec fn spec_fd_offset(offsets: Seq<(u8, u64)>, fd: u8) -> u64 {
    let i = first_index(offsets, offset_slot_for(fd));
    if i < offsets.len() {
        offsets[i].1
    } else {
        0
    }
}

pub open spec fn offset_slot_for(fd: u8) -> spec_fn((u8, u64)) -> bool {
    |e: (u8, u64)| e.0 == fd
}

/// Recording `offset` for `fd`: the first slot recorded for it, else the first free slot
/// (one that names fd 0); with neither, nothing changes.
pub open spec fn spec_set_fd_offset(offsets: Seq<(u8, u64)>, fd: u8, offset: u64) -> Seq<(u8, u64)> {
    let i = first_index(offsets, offset_slot_for(fd));
    if i < offsets.len() {
        offsets.update(i, (fd, offset))
    } else {
        let z = first_index(offsets, offset_slot_for(0));
        if z < offsets.len() {
            offsets.update(z, (fd, offset))
        } else {
            offsets
        }
    }
}

pub open spec fn rx_for(fd: u8) -> spec_fn((u8, Seq<u8>)) -> bool {
    |e: (u8, Seq<u8>)| e.0 == fd
}

/// Taking at most `max_len` bytes queued for `fd`: the first queued payload for it is removed;
/// a longer one gives its first `max_len` bytes and its tail goes to the front of the queue.
pub open spec fn spec_dequeue_rx(rx: Seq<(u8, Seq<u8>)>, fd: u8, max_len: usize) -> (Seq<u8>, Seq<(u8, Seq<u8>)>) {
    let i = first_index(rx, rx_for(fd));
    if i >= rx.len() {
        (Seq::empty(), rx)
    } else {
        let bytes = rx[i].1;
        let rest = rx.remove(i);
        if bytes.len() <= max_len {
            (bytes, rest)
        } else {
            (bytes.subrange(0, max_len as int), rest.insert(0, (fd, bytes.subrange(max_len as int, bytes.len() as int))))
        }
    }
}

/// The bytes queued for `fd`, in queue order.
pub open spec fn fd_stream(rx: Seq<(u8, Seq<u8>)>, fd: u8) -> Seq<u8>
    decreases rx.len(),
{
    if rx.len() == 0 {
        Seq::empty()
    } else {
        (if rx[0].0 == fd { rx[0].1 } else { Seq::empty() }) + fd_stream(rx.drop_first(), fd)
    }
}

proof fn lemma_fd_stream_concat(a: Seq<(u8, Seq<u8>)>, b: Seq<(u8, Seq<u8>)>, fd: u8)
    ensures
        fd_stream(a + b, fd) == fd_stream(a, fd) + fd_stream(b, fd),
    decreases a.len(),
{
    if a.len() == 0 {
        assert(a + b =~= b);
        assert(fd_stream(a, fd) + fd_stream(b, fd) =~= fd_stream(b, fd));
    } else {
        assert((a + b).drop_first() =~= a.drop_first() + b);
        lemma_fd_stream_concat(a.drop_first(), b, fd);
        let h: Seq<u8> = if a[0].0 == fd { a[0].1 } else { Seq::empty() };
        assert(h + (fd_stream(a.drop_first(), fd) + fd_stream(b, fd)) =~= (h + fd_stream(a.drop_first(), fd)) + fd_stream(b, fd));
    }
}

proof fn lemma_fd_stream_absent(a: Seq<(u8, Seq<u8>)>, fd: u8)
    requires
        forall|j: int| 0 <= j < a.len() ==> (#[trigger] a[j]).0 != fd,
    ensures
        fd_stream(a, fd) == Seq::<u8>::empty(),
    decreases a.len(),
{
    if a.len() > 0 {
        assert forall|j: int| 0 <= j < a.drop_first().len() implies (#[trigger] a.drop_first()[j]).0 != fd by {
            assert(a.drop_first()[j] == a[j + 1]);
        }
        lemma_fd_stream_absent(a.drop_first(), fd);
        assert(fd_stream(a, fd) =~= Seq::<u8>::empty());
    }
}

proof fn lemma_fd_stream_one(e: (u8, Seq<u8>), fd: u8)
    ensures
        fd_stream(seq![e], fd) == if e.0 == fd { e.1 } else { Seq::<u8>::empty() },
{
    assert(seq![e].drop_first() =~= Seq::<(u8, Seq<u8>)>::empty());
    assert(fd_stream(Seq::<(u8, Seq<u8>)>::empty(), fd) == Seq::<u8>::empty());
    let h: Seq<u8> = if e.0 == fd { e.1 } else { Seq::empty() };
    assert(h + Seq::<u8>::empty() =~= h);
}

/// Receiving from the network keeps every fd's bytes in order: what one take for `fd` gives,
/// followed by all the bytes still queued for `fd`, is exactly what was queued for `fd`
/// before (so the rest of a split payload comes next, ahead of anything queued later); a take
/// gives at most `max_len` bytes; and the bytes queued for every other fd are untouched.
pub proof fn lemma_dequeue_rx_keeps_each_stream(rx: Seq<(u8, Seq<u8>)>, fd: u8, max_len: usize)
    ensures
        ({
            let d = spec_dequeue_rx(rx, fd, max_len);
            &&& d.0 + fd_stream(d.1, fd) == fd_stream(rx, fd)
            &&& d.0.len() <= max_len
            &&& forall|g: u8| g != fd ==> #[trigger] fd_stream(d.1, g) == fd_stream(rx, g)
        }),
{
    lemma_first_index(rx, rx_for(fd));
    let i = first_index(rx, rx_for(fd));
    let d = spec_dequeue_rx(rx, fd, max_len);
    if i >= rx.len() {
        assert forall|j: int| 0 <= j < rx.len() implies (#[trigger] rx[j]).0 != fd by {
            assert(!rx_for(fd)(rx[j]));
        }
        lemma_fd_stream_absent(rx, fd);
        assert(d.0 + fd_stream(d.1, fd) =~= fd_stream(rx, fd));
    } else {
        let e = rx[i];
        let pre = rx.subrange(0, i);
        let post = rx.subrange(i + 1, rx.len() as int);
        assert(rx =~= pre + seq![e] + post);
        assert(rx.remove(i) =~= pre + post);
        assert forall|j: int| 0 <= j < pre.len() implies (#[trigger] pre[j]).0 != fd by {
            assert(!rx_for(fd)(rx[j]));
        }
        lemma_fd_stream_absent(pre, fd);
        assert forall|g: u8| true implies fd_stream(rx, g) == fd_stream(pre, g) + fd_stream(seq![e], g) + fd_stream(post, g)
            && fd_stream(rx.remove(i), g) == fd_stream(pre, g) + fd_stream(post, g) by {
            lemma_fd_stream_concat(pre + seq![e], post, g);
            lemma_fd_stream_concat(pre, seq![e], g);
            lemma_fd_stream_concat(pre, post, g);
        }
        let bytes = e.1;
        let rest = rx.remove(i);
        if bytes.len() <= max_len {
            lemma_fd_stream_one(e, fd);
            assert(fd_stream(pre, fd) + fd_stream(seq![e], fd) + fd_stream(post, fd) =~= bytes + fd_stream(post, fd));
            lemma_fd_stream_concat(pre, post, fd);
            assert(Seq::<u8>::empty() + fd_stream(post, fd) =~= fd_stream(post, fd));
            assert(fd_stream(rest, fd) =~= fd_stream(post, fd));
            assert forall|g: u8| g != fd implies #[trigger] fd_stream(d.1, g) == fd_stream(rx, g) by {
                lemma_fd_stream_one(e, g);
                assert(fd_stream(pre, g) + fd_stream(seq![e], g) + fd_stream(post, g) =~= fd_stream(pre, g) + fd_stream(post, g));
            }
        } else {
            let tail = bytes.subrange(max_len as int, bytes.len() as int);
            let t = (fd, tail);
            assert(rest.insert(0, t) =~= seq![t] + rest);
            lemma_fd_stream_one(e, fd);
            lemma_fd_stream_one(t, fd);
            lemma_fd_stream_concat(seq![t], rest, fd);
            lemma_fd_stream_concat(pre, post, fd);
            assert(Seq::<u8>::empty() + fd_stream(post, fd) =~= fd_stream(post, fd));
            assert(fd_stream(rest, fd) =~= fd_stream(post, fd));
            assert(bytes.subrange(0, max_len as int) + (tail + fd_stream(post, fd)) =~= bytes + fd_stream(post, fd));
            assert(fd_stream(pre, fd) + fd_stream(seq![e], fd) + fd_stream(post, fd) =~= bytes + fd_stream(post, fd));
            assert forall|g: u8| g != fd implies #[trigger] fd_stream(d.1, g) == fd_stream(rx, g) by {
                lemma_fd_stream_one(e, g);
                lemma_fd_stream_one(t, g);
                lemma_fd_stream_concat(seq![t], rest, g);
                assert(Seq::<u8>::empty() + fd_stream(rest, g) =~= fd_stream(rest, g));
                assert(fd_stream(pre, g) + fd_stream(seq![e], g) + fd_stream(post, g) =~= fd_stream(pre, g) + fd_stream(post, g));
            }
        }
    }
}

pub open spec fn accept_for(listener_fd: u8) -> spec_fn(NetworkAcceptRoute) -> bool {
    |r: NetworkAcceptRoute| r.listener_fd == listener_fd
}

/// The first of a read, a write and a read-write resolution of `fd` as a ChoreoFS object that succeeds.
pub open spec fn spec_resolve_object_fd(s: Seq<Option<PicoFdViewEntry>>, fd: u8) -> Option<GuestFd> {
    match spec_resolve_current(s, fd, PicoFdRights::Read, ChoreoResourceKind::ChoreoObject) {
        Ok(e) => Some(GuestFd::spec_from_entry(e)),
        Err(_) => match spec_resolve_current(s, fd, PicoFdRights::Write, ChoreoResourceKind::ChoreoObject) {
            Ok(e) => Some(GuestFd::spec_from_entry(e)),
            Err(_) => match spec_resolve_current(s, fd, PicoFdRights::ReadWrite, ChoreoResourceKind::ChoreoObject) {
                Ok(e) => Some(GuestFd::spec_from_entry(e)),
                Err(_) => None,
            },
        },
    }
}

/// `fd` resolved with `rights` as a datagram, else as a stream.
pub open spec fn spec_resolve_network_object(s: Seq<Option<PicoFdViewEntry>>, fd: u8, rights: PicoFdRights) -> Option<GuestFd> {
    match spec_resolve_current(s, fd, rights, ChoreoResourceKind::NetworkDatagram) {
        Ok(e) => Some(GuestFd::spec_from_entry(e)),
        Err(_) => match spec_resolve_current(s, fd, rights, ChoreoResourceKind::NetworkStream) {
            Ok(e) => Some(GuestFd::spec_from_entry(e)),
            Err(_) => None,
        },
    }
}

/// The memory rights a guest gets for `fd`'s stat: read access for stdio and ChoreoFS objects.
pub open spec fn spec_fd_rights(s: Seq<Option<PicoFdViewEntry>>, fd: u8) -> Option<MemRights> {
    if spec_resolve_current(s, fd, PicoFdRights::Write, ChoreoResourceKind::Stdout) is Ok
        || spec_resolve_current(s, fd, PicoFdRights::Write, ChoreoResourceKind::Stderr) is Ok {
        Some(MemRights::Read)
    } else if spec_resolve_current(s, fd, PicoFdRights::Read, ChoreoResourceKind::Stdin) is Ok
        || spec_resolve_object_fd(s, fd) is Some {
        Some(MemRights::Read)
    } else {
        None
    }
}

/// The file type of `fd`: a directory for the root and for directory views, else a regular file.
pub open spec fn spec_fd_filetype(s: Seq<Option<PicoFdViewEntry>>, fd: u8) -> u8 {
    if fd == HOST_ROOT_FD || spec_resolve_current(s, fd, PicoFdRights::Read, ChoreoResourceKind::DirectoryView) is Ok {
        WASIP1_FILETYPE_DIRECTORY
    } else {
        WASIP1_FILETYPE_REGULAR_FILE
    }
}

/// The file type and size a ChoreoFS stat reports.
pub open spec fn spec_file_stat(stat: ChoreoFsStat) -> (u8, u64) {
    (if stat.kind == ChoreoFsObjectKind::Directory { WASIP1_FILETYPE_DIRECTORY } else { WASIP1_FILETYPE_REGULAR_FILE },
        stat.size as u64)
}

/// Admitting a path open under `preopen_fd`: the preopen must be a readable root, then the
/// store decides, with rights from the preview 1 base rights.
pub open spec fn spec_resolve_choreofs_path(
    s: Seq<Option<PicoFdViewEntry>>,
    objs: Seq<Option<crate::kernel::choreofs::ChoreoFsObjectModel>>,
    preopen_fd: u8,
    new_fd: u8,
    path: Seq<u8>,
    rights_base: u64,
) -> Result<HostChoreoFsOpen, ChoreoFsError> {
    match spec_resolve_current(s, preopen_fd, PicoFdRights::Read, ChoreoResourceKind::PreopenRoot) {
        Err(e) => Err(ChoreoFsError::Ledger(GuestLedgerError::Fd(e))),
        Ok(_) => {
            let rights = spec_pico_rights_from_wasip1_base(rights_base);
            match spec_open(objs, path, rights, 64) {
                Err(e) => Err(e),
                Ok(opened) => Ok(HostChoreoFsOpen {
                    fd: new_fd,
                    rights,
                    resource: opened.resource,
                    lane: HOST_CHOREOFS_OBJECT_LANE,
                    route_label: if opened.resource == ChoreoResourceKind::DirectoryView {
                        HOST_CHOREOFS_DIRECTORY_ROUTE_LABEL
                    } else {
                        HOST_CHOREOFS_OBJECT_ROUTE_LABEL
                    },
                    object_id: opened.object_id,
                    target_role: opened.object_id,
                    object_generation: opened.generation,
                }),
            }
        },
    }
}

/// The fd view of a ledger whose slot `i` holds fd `i` for every `i` below `k`, with every
/// slot from `k` on free.
pub open spec fn fresh_from(s: Seq<Option<PicoFdViewEntry>>, k: int) -> bool {
    &&& s.len() == 16
    &&& forall|i: int| k <= i < 16 ==> (#[trigger] s[i]) is None
    &&& forall|i: int| 0 <= i < k ==> (#[trigger] s[i]) is Some && s[i]->Some_0.fd == i
}

/// Installing fd `k` in a view that holds fds `0` to `k - 1` in order puts it in slot `k`.
pub proof fn lemma_install_fresh(s: Seq<Option<PicoFdViewEntry>>, g: u16, k: int, grant: PicoFdGrant, source: PicoFdViewSource)
    requires
        fresh_from(s, k),
        0 <= k < 15,
        grant.fd == k,
    ensures
        spec_fd_install(s, g, 16, grant, source).0 is Ok,
        spec_fd_install(s, g, 16, grant, source).1 == s.update(k, Some(PicoFdViewEntry::from_grant(grant, source, g))),
        fresh_from(spec_fd_install(s, g, 16, grant, source).1, k + 1),
{
    crate::seqs::lemma_count_upto_bound(s, live_fd_slot(), 15);
    assert(count(s, live_fd_slot()) < 16);
    assert(!fd_is_live(s, grant.fd));
    lemma_first_index(s, fd_slot(grant.fd));
    lemma_first_index_at(s, empty_fd_slot(), k);
}

/// An fd installed in order resolves to its entry for rights and a resource the entry allows.
pub proof fn lemma_resolves_installed(s: Seq<Option<PicoFdViewEntry>>, k: int, i: int, rights: PicoFdRights, resource: ChoreoResourceKind)
    requires
        fresh_from(s, k),
        0 <= i < k <= 16,
        !s[i]->Some_0.revoked,
        s[i]->Some_0.resource == resource,
        s[i]->Some_0.rights.spec_allows(rights),
    ensures
        spec_resolve_current(s, i as u8, rights, resource) == Ok::<PicoFdViewEntry, super::fd_view::PicoFdError>(s[i]->Some_0),
{
    assert(fd_slot(i as u8)(s[i]));
    assert forall|j: int| 0 <= j < i implies !(#[trigger] fd_slot(i as u8)(s[j])) by {}
    lemma_first_index_at(s, fd_slot(i as u8), i);
}

/// Grants stdin (fd 0), stdout (fd 1) and stderr (fd 2), each on lane 1.
pub fn grant_stdio(ledger: &mut HostFullGuestLedger) -> (out: Result<(), GuestLedgerError>)
    requires
        old(ledger).wf(),
    ensures
        final(ledger).wf(),
        final(ledger).spec_quotas() == old(ledger).spec_quotas(),
        final(ledger).spec_tier() == old(ledger).spec_tier(),
        final(ledger).leases() == old(ledger).leases(),
        final(ledger).pending() == old(ledger).pending(),
        ({
            let r = spec_grant_stdio(old(ledger).fds()@, old(ledger).fds().next_gen(), old(ledger).spec_quotas().max_fds);
            out == r.0 && final(ledger).fds()@ == r.1 && final(ledger).fds().next_gen() == r.2
        }),
        old(ledger).spec_quotas().max_fds == 16 && fresh_from(old(ledger).fds()@, 0) ==> {
            &&& out is Ok
            &&& fresh_from(final(ledger).fds()@, 3)
            &&& final(ledger).fds()@[0]->Some_0 == PicoFdViewEntry::from_grant(
                local_grant(0, PicoFdRights::Read, ChoreoResourceKind::Stdin, 1), PicoFdViewSource::Grant, old(ledger).fds().next_gen())
            &&& !final(ledger).fds()@[1]->Some_0.revoked && final(ledger).fds()@[1]->Some_0.resource == ChoreoResourceKind::Stdout
                && final(ledger).fds()@[1]->Some_0.rights == PicoFdRights::Write
            &&& !final(ledger).fds()@[2]->Some_0.revoked && final(ledger).fds()@[2]->Some_0.resource == ChoreoResourceKind::Stderr
                && final(ledger).fds()@[2]->Some_0.rights == PicoFdRights::Write
        },
{
    let ghost fresh = old(ledger).spec_quotas().max_fds == 16 && fresh_from(old(ledger).fds()@, 0);
    proof {
        if fresh {
            lemma_install_fresh(ledger.fds()@, ledger.fds().next_gen(), 0,
                local_grant(0, PicoFdRights::Read, ChoreoResourceKind::Stdin, 1), PicoFdViewSource::Grant);
        }
    }
    let r = ledger.apply_fd_cap_grant(0, PicoFdRights::Read, ChoreoResourceKind::Stdin, 1, 0, 0, 0, 0, 0, 0);
    if r.is_err() {
        return Err(r.unwrap_err());
    }
    proof {
        if fresh {
            lemma_install_fresh(ledger.fds()@, ledger.fds().next_gen(), 1,
                local_grant(1, PicoFdRights::Write, ChoreoResourceKind::Stdout, 1), PicoFdViewSource::Grant);
        }
    }
    let r = ledger.apply_fd_cap_grant(1, PicoFdRights::Write, ChoreoResourceKind::Stdout, 1, 0, 0, 0, 0, 0, 0);
    if r.is_err() {
        return Err(r.unwrap_err());
    }
    proof {
        if fresh {
            lemma_install_fresh(ledger.fds()@, ledger.fds().next_gen(), 2,
                local_grant(2, PicoFdRights::Write, ChoreoResourceKind::Stderr, 1), PicoFdViewSource::Grant);
        }
    }
    let r = ledger.apply_fd_cap_grant(2, PicoFdRights::Write, ChoreoResourceKind::Stderr, 1, 0, 0, 0, 0, 0, 0);
    if r.is_err() {
        return Err(r.unwrap_err());
    }
    Ok(())
}

/// The file type and size a ChoreoFS stat reports.
pub fn file_stat_from_choreofs(stat: ChoreoFsStat) -> (out: (u8, u64))
    ensures
        out == spec_file_stat(stat),
{
    let filetype = match stat.kind() {
        ChoreoFsObjectKind::Directory => WASIP1_FILETYPE_DIRECTORY,
        _ => WASIP1_FILETYPE_REGULAR_FILE,
    };
    (filetype, stat.size() as u64)
}

/// The kernel side of the host/full runner.
pub struct HostRunner {
    ledger: HostFullGuestLedger,
    fs: HostFullChoreoFs,
    fd_offsets: Vec<(u8, u64)>,
    network_rx: Vec<(u8, Vec<u8>)>,
    network_tx: Vec<(u8, Vec<u8>)>,
    network_accepts: Vec<NetworkAcceptRoute>,
    next_fd: u8,
    trap_on_path_error: bool,
    trap_on_network_error: bool,
}

/// What a path open answered the guest: the new fd, or an errno.
#[derive(Clone, Copy, Debug, PartialEq, Eq, Structural)]
pub enum PathOpenOutcome {
    Opened(u8),
    Rejected(u16),
}

/// What a path stat answered the guest: file type and size, or an errno.
#[derive(Clone, Copy, Debug, PartialEq, Eq, Structural)]
pub enum PathStatOutcome {
    Stat(u8, u64),
    Rejected(u16),
}

/// Nothing but the fd view's telemetry changed.
pub open spec fn fds_kept(old: &HostRunner, new: &HostRunner) -> bool {
    &&& ledger_kept_but_fds(old.ledger(), new.ledger())
    &&& new.ledger().fds()@ == old.ledger().fds()@
    &&& new.ledger().fds().next_gen() == old.ledger().fds().next_gen()
    &&& new.fs() == old.fs()
    &&& new.offsets() == old.offsets()
    &&& new.same_queues(old)
}

/// The ledger's leases, pending calls and quotas are as in `old`.
pub open spec fn ledger_kept_but_fds(old: HostFullGuestLedger, new: HostFullGuestLedger) -> bool {
    &&& new.leases() == old.leases()
    &&& new.pending() == old.pending()
    &&& new.spec_quotas() == old.spec_quotas()
    &&& new.spec_tier() == old.spec_tier()
}

/// The ledger is as in `old` but for the fd view's telemetry.
pub open spec fn ledger_kept(old: HostFullGuestLedger, new: HostFullGuestLedger) -> bool {
    &&& ledger_kept_but_fds(old, new)
    &&& new.fds()@ == old.fds()@
    &&& new.fds().next_gen() == old.fds().next_gen()
}

/// What a guest write of `bytes` to `fd` does: the answer, the store, the offsets, the bytes
/// sent and the report. Stdout and stderr collect the bytes; a writable network object sends
/// them; a ChoreoFS object is written at the fd's offset, which then moves past them; any
/// other fd takes them and nothing changes.
pub open spec fn spec_route_fd_write(r: HostRunner, fd: u8, bytes: Seq<u8>, rep: HostRunReportView) -> (
    Result<(), HostRunError>,
    Seq<Option<ChoreoFsObjectModel>>,
    Seq<(u8, u64)>,
    Seq<(u8, Seq<u8>)>,
    HostRunReportView,
) {
    let s = r.ledger().fds()@;
    let objs = r.fs().view();
    if fd == 1 {
        (Ok(()), objs, r.offsets(), r.tx(), HostRunReportView { stdout: rep.stdout + bytes, ..rep })
    } else if fd == 2 {
        (Ok(()), objs, r.offsets(), r.tx(), HostRunReportView { stderr: rep.stderr + bytes, ..rep })
    } else if spec_resolve_network_object(s, fd, PicoFdRights::Write) is Some {
        (Ok(()), objs, r.offsets(), r.tx().push((fd, bytes)),
            HostRunReportView { network_send_count: bump(rep.network_send_count), ..rep })
    } else {
        match spec_resolve_object_fd(s, fd) {
            Some(g) => {
                let offset = spec_fd_offset(r.offsets(), fd);
                let w = spec_write(objs, g, (offset as usize) as int, bytes, 256);
                match w.0 {
                    Err(e) => (Err(HostRunError::ChoreoFs(e)), w.1, r.offsets(), r.tx(), rep),
                    Ok(_) => (Ok(()), w.1,
                        spec_set_fd_offset(r.offsets(), fd, offset.saturating_add(bytes.len() as u64)), r.tx(),
                        HostRunReportView { choreofs_write_count: bump(rep.choreofs_write_count), ..rep }),
                }
            },
            None => (Ok(()), objs, r.offsets(), r.tx(), rep),
        }
    }
}

/// What a guest read of at most `max_len` bytes from `fd` does: the answer, the offsets, the
/// bytes still queued and the report. Stdin gives nothing; a readable network object gives
/// what is queued for it; a ChoreoFS object is read at the fd's offset into at most one stream
/// chunk, and the offset moves past what was read; any other fd gives nothing.
pub open spec fn spec_route_fd_read(r: HostRunner, fd: u8, max_len: usize, rep: HostRunReportView) -> (
    Result<Seq<u8>, HostRunError>,
    Seq<(u8, u64)>,
    Seq<(u8, Seq<u8>)>,
    HostRunReportView,
) {
    let s = r.ledger().fds()@;
    if fd == 0 {
        (Ok(Seq::empty()), r.offsets(), r.rx(), rep)
    } else if spec_resolve_network_object(s, fd, PicoFdRights::Read) is Some {
        let d = spec_dequeue_rx(r.rx(), fd, max_len);
        (Ok(d.0), r.offsets(), d.1, HostRunReportView { network_recv_count: bump(rep.network_recv_count), ..rep })
    } else {
        match spec_resolve_object_fd(s, fd) {
            Some(g) => {
                let offset = spec_fd_offset(r.offsets(), fd);
                let n: nat = if max_len < WASIP1_STREAM_CHUNK_CAPACITY { max_len as nat } else { WASIP1_STREAM_CHUNK_CAPACITY as nat };
                let rd = spec_read(r.fs().view(), g, (offset as usize) as int, Seq::new(n, |i: int| 0u8));
                match rd.0 {
                    Err(e) => (Err(HostRunError::ChoreoFs(e)), r.offsets(), r.rx(), rep),
                    Ok(len) => (Ok(rd.1.subrange(0, len as int)),
                        spec_set_fd_offset(r.offsets(), fd, offset.saturating_add(len as u64)), r.rx(),
                        HostRunReportView { choreofs_read_count: bump(rep.choreofs_read_count), ..rep }),
                }
            },
            None => (Ok(Seq::empty()), r.offsets(), r.rx(), rep),
        }
    }
}

/// A refused network import: it is counted, then the guest gets `errno`, or the run stops
/// when network errors trap.
pub open spec fn spec_reject_network<T>(trap: bool, errno: u16, rep: HostRunReportView) -> (
    Result<Result<T, u16>, HostRunError>,
    HostRunReportView,
) {
    (
        if trap { Err(HostRunError::NetworkRejected(errno)) } else { Ok(Err(errno)) },
        HostRunReportView { typed_reject_count: bump(rep.typed_reject_count), ..rep },
    )
}

/// `sock_send` on `fd`: refused unless `fd` is a writable network object; more than one stream
/// chunk cannot be sent and stops the run; else the bytes are sent and their count answered. The answer, the bytes sent and the report.
pub open spec fn spec_sock_send(r: HostRunner, fd: u8, bytes: Seq<u8>, rep: HostRunReportView) -> (
    Result<Result<u32, u16>, HostRunError>,
    Seq<(u8, Seq<u8>)>,
    HostRunReportView,
) {
    if spec_resolve_network_object(r.ledger().fds()@, fd, PicoFdRights::Write) is None {
        let j = spec_reject_network::<u32>(r.traps_on_network_error(), WASI_ERRNO_NOTCAPABLE, rep);
        (j.0, r.tx(), j.1)
    } else if bytes.len() > WASIP1_STREAM_CHUNK_CAPACITY {
        (Err(HostRunError::Unsupported("sock_send fd_write")), r.tx(), rep)
    } else {
        (Ok(Ok(bytes.len() as u32)), r.tx().push((fd, bytes)),
            HostRunReportView { network_send_count: bump(rep.network_send_count), ..rep })
    }
}

/// `sock_recv` on `fd`: refused unless `fd` is a readable network object. A request for more
/// than one stream chunk cannot be sent and stops the run; else at most `max_len` queued bytes
/// are taken and counted, and more than one chunk of them cannot be answered and stops the
/// run. The answer, the bytes still queued and the report.
pub open spec fn spec_sock_recv(r: HostRunner, fd: u8, max_len: usize, rep: HostRunReportView) -> (
    Result<Result<Seq<u8>, u16>, HostRunError>,
    Seq<(u8, Seq<u8>)>,
    HostRunReportView,
) {
    if spec_resolve_network_object(r.ledger().fds()@, fd, PicoFdRights::Read) is None {
        let j = spec_reject_network::<Seq<u8>>(r.traps_on_network_error(), WASI_ERRNO_NOTCAPABLE, rep);
        (j.0, r.rx(), j.1)
    } else if read_request_len(max_len) > WASIP1_STREAM_CHUNK_CAPACITY {
        (Err(HostRunError::Unsupported("sock_recv fd_read")), r.rx(), rep)
    } else {
        let d = spec_dequeue_rx(r.rx(), fd, max_len);
        let counted = HostRunReportView { network_recv_count: bump(rep.network_recv_count), ..rep };
        if d.0.len() > WASIP1_STREAM_CHUNK_CAPACITY {
            (Err(HostRunError::Unsupported("sock_recv reply")), d.1, counted)
        } else {
            (Ok(Ok(d.0)), d.1, counted)
        }
    }
}

/// The length a read request carries: `max_len`, at most 255.
pub open spec fn read_request_len(max_len: usize) -> nat {
    if max_len < 255 { max_len as nat } else { 255 }
}

/// A guest read's answer once it goes out as an exchange: a request for more than one stream
/// chunk, or a reply of more, cannot be built and stops the run.
pub open spec fn spec_fd_read_exchange(answer: Result<Seq<u8>, HostRunError>, max_len: usize) -> Result<Seq<u8>, HostRunError> {
    match answer {
        Err(e) => Err(e),
        Ok(bytes) => if read_request_len(max_len) > WASIP1_STREAM_CHUNK_CAPACITY {
            Err(HostRunError::Unsupported("fd_read"))
        } else if bytes.len() > WASIP1_STREAM_CHUNK_CAPACITY {
            Err(HostRunError::Unsupported("fd_read reply"))
        } else {
            Ok(bytes)
        },
    }
}

/// The fd view after closing the current `fd`, if there is one.
pub open spec fn spec_close_current(s: Seq<Option<PicoFdViewEntry>>, fd: u8) -> Seq<Option<PicoFdViewEntry>> {
    match find_fd(s, fd) {
        Ok(e) => spec_close(s, fd, e.generation).0,
        Err(_) => s,
    }
}

/// `sock_shutdown` on `fd`: refused unless `fd` is a readable or writable network object,
/// else the fd is closed. The answer, the fd view and the report.
pub open spec fn spec_sock_shutdown(r: HostRunner, fd: u8, rep: HostRunReportView) -> (
    Result<Result<(), u16>, HostRunError>,
    Seq<Option<PicoFdViewEntry>>,
    HostRunReportView,
) {
    let s = r.ledger().fds()@;
    if spec_resolve_network_object(s, fd, PicoFdRights::Read) is None
        && spec_resolve_network_object(s, fd, PicoFdRights::Write) is None {
        let j = spec_reject_network::<()>(r.traps_on_network_error(), WASI_ERRNO_NOTCAPABLE, rep);
        (j.0, s, j.1)
    } else {
        (Ok(Ok(())), spec_close_current(s, fd), rep)
    }
}

/// `sock_accept` on `listener_fd`, step by step: the listener must resolve for reading; the
/// first accept queued on it is taken (none: counted as an accept refusal, answered NOSYS);
/// an accept syscall is begun in the ledger, the accepted fd is minted as a network object,
/// and the syscall is completed. A ledger refusal at any step answers its errno; a success is
/// counted and answers the new fd. The answer, the fd view and its next generation, the
/// pending slots and whether an accept was begun, the queued accepts and the report.
pub open spec fn spec_sock_accept(r: HostRunner, listener_fd: u8, rep: HostRunReportView) -> (
    Result<Result<u8, u16>, HostRunError>,
    Seq<Option<PicoFdViewEntry>>,
    u16,
    Seq<Option<PendingSyscallEntry>>,
    bool,
    Seq<NetworkAcceptRoute>,
    HostRunReportView,
) {
    let s = r.ledger().fds()@;
    let g = r.ledger().fds().next_gen();
    let p = r.ledger().pending();
    let trap = r.traps_on_network_error();
    match spec_resolve_current(s, listener_fd, PicoFdRights::Read, ChoreoResourceKind::NetworkListener) {
        Err(e) => {
            let j = spec_reject_network::<u8>(trap, spec_ledger_errno(GuestLedgerError::Fd(e)), rep);
            (j.0, s, g, p@, false, r.accepts(), j.1)
        },
        Ok(entry) => {
            let i = first_index(r.accepts(), accept_for(listener_fd));
            if i >= r.accepts().len() {
                let j = spec_reject_network::<u8>(trap, CHOREOFS_WASI_ERRNO_NOSYS,
                    HostRunReportView { network_accept_reject_count: bump(rep.network_accept_reject_count), ..rep });
                (j.0, s, g, p@, false, r.accepts(), j.1)
            } else {
                let route = r.accepts()[i];
                let rest = r.accepts().remove(i);
                let spec = PendingSyscallSpec {
                    kind: PendingSyscallKind::SockAccept,
                    fd: Some(listener_fd),
                    lease_id: None,
                    len: None,
                    tick: None,
                    fd_kind: Some(GuestFdKind::spec_from_resource(entry.resource)),
                };
                let b = HostFullGuestLedger::spec_begin_pending(p, r.ledger().spec_quotas().max_pending, spec);
                match b.1 {
                    Err(e) => {
                        let j = spec_reject_network::<u8>(trap, spec_ledger_errno(e), rep);
                        (j.0, s, g, p@, false, rest, j.1)
                    },
                    Ok(token) => {
                        let m = spec_fd_install(s, g, 16, network_mint(route.accepted_fd, route.resource), PicoFdViewSource::Mint);
                        match m.0 {
                            Err(e) => {
                                let j = spec_reject_network::<u8>(trap, spec_ledger_errno(e), rep);
                                (j.0, m.1, m.2, b.0, true, rest, j.1)
                            },
                            Ok(accepted) => {
                                let c = PendingSyscallCompletion {
                                    kind: PendingSyscallKind::SockAccept,
                                    fd: Some(listener_fd),
                                    lease_id: None,
                                    len: None,
                                    tick: None,
                                };
                                let k = spec_complete_pending(b.0, token, c);
                                match k.1 {
                                    Err(e) => {
                                        let j = spec_reject_network::<u8>(trap, spec_ledger_errno(GuestLedgerError::Pending(e)), rep);
                                        (j.0, m.1, m.2, k.0, true, rest, j.1)
                                    },
                                    Ok(_) => (Ok(Ok(accepted.fd)), m.1, m.2, k.0, true, rest,
                                        HostRunReportView { network_accept_count: bump(rep.network_accept_count), ..rep }),
                                }
                            },
                        }
                    },
                }
            }
        },
    }
}

pub open spec fn bytes_answer(r: Result<Result<Vec<u8>, u16>, HostRunError>) -> Result<Result<Seq<u8>, u16>, HostRunError> {
    match r {
        Ok(Ok(v)) => Ok(Ok(v@)),
        Ok(Err(e)) => Ok(Err(e)),
        Err(e) => Err(e),
    }
}

pub open spec fn bytes_result(r: Result<Vec<u8>, HostRunError>) -> Result<Seq<u8>, HostRunError> {
    match r {
        Ok(v) => Ok(v@),
        Err(e) => Err(e),
    }
}

pub open spec fn bytes_view(q: Seq<(u8, Vec<u8>)>) -> Seq<(u8, Seq<u8>)> {
    q.map_values(|e: (u8, Vec<u8>)| (e.0, e.1@))
}

impl HostRunner {
    pub closed spec fn ledger(&self) -> HostFullGuestLedger {
        self.ledger
    }

    pub closed spec fn fs(&self) -> HostFullChoreoFs {
        self.fs
    }

    pub closed spec fn offsets(&self) -> Seq<(u8, u64)> {
        self.fd_offsets@
    }

    /// Bytes queued for the guest to receive, per fd, oldest first.
    pub closed spec fn rx(&self) -> Seq<(u8, Seq<u8>)> {
        bytes_view(self.network_rx@)
    }

    /// Bytes the guest sent, per fd, oldest first.
    pub closed spec fn tx(&self) -> Seq<(u8, Seq<u8>)> {
        bytes_view(self.network_tx@)
    }

    pub closed spec fn accepts(&self) -> Seq<NetworkAcceptRoute> {
        self.network_accepts@
    }

    pub closed spec fn spec_next_fd(&self) -> u8 {
        self.next_fd
    }

    pub closed spec fn traps_on_path_error(&self) -> bool {
        self.trap_on_path_error
    }

    pub closed spec fn traps_on_network_error(&self) -> bool {
        self.trap_on_network_error
    }

    pub closed spec fn wf(&self) -> bool {
        &&& self.ledger.wf()
        &&& self.ledger.spec_quotas().max_fds == 16
        &&& self.fd_offsets@.len() == HOST_FD_OFFSET_SLOTS
    }

    /// Everything but the ledger, the store and the offsets is as in `other`.
    pub open spec fn same_queues(&self, other: &Self) -> bool {
        &&& self.rx() == other.rx()
        &&& self.tx() == other.tx()
        &&& self.accepts() == other.accepts()
        &&& self.spec_next_fd() == other.spec_next_fd()
        &&& self.traps_on_path_error() == other.traps_on_path_error()
        &&& self.traps_on_network_error() == other.traps_on_network_error()
    }

    /// A runner with stdio, the ChoreoFS root preopened as fd 3, an empty store, no offsets,
    /// no queued traffic, and fd 4 next for path opens.
    pub fn new() -> (out: Result<Self, HostRunError>)
        ensures
            out is Ok,
            out->Ok_0.wf(),
            out->Ok_0.ledger().spec_tier() == WasiProfile::HostFull,
            out->Ok_0.ledger().leases().spec_memory_len() == HOST_MEMORY_LEN,
            out->Ok_0.ledger().leases().spec_epoch() == HOST_MEMORY_EPOCH,
            fresh_from(out->Ok_0.ledger().fds()@, 4),
            ({
                let s = out->Ok_0.ledger().fds()@;
                &&& spec_resolve_current(s, 0, PicoFdRights::Read, ChoreoResourceKind::Stdin) is Ok
                &&& spec_resolve_current(s, 1, PicoFdRights::Write, ChoreoResourceKind::Stdout) is Ok
                &&& spec_resolve_current(s, 2, PicoFdRights::Write, ChoreoResourceKind::Stderr) is Ok
                &&& spec_resolve_current(s, HOST_ROOT_FD, PicoFdRights::Read, ChoreoResourceKind::PreopenRoot) is Ok
            }),
            out->Ok_0.fs().wf(),
            out->Ok_0.fs().view() == Seq::new(8, |i: int| None::<crate::kernel::choreofs::ChoreoFsObjectModel>),
            out->Ok_0.offsets() == Seq::new(HOST_FD_OFFSET_SLOTS as nat, |i: int| (0u8, 0u64)),
            out->Ok_0.rx() == Seq::<(u8, Seq<u8>)>::empty(),
            out->Ok_0.tx() == Seq::<(u8, Seq<u8>)>::empty(),
            out->Ok_0.accepts() == Seq::<NetworkAcceptRoute>::empty(),
            out->Ok_0.spec_next_fd() == HOST_FIRST_OBJECT_FD,
            !out->Ok_0.traps_on_path_error(),
            !out->Ok_0.traps_on_network_error(),
    {
        let mut ledger: HostFullGuestLedger = GuestLedger::new(
            WasiProfile::HostFull,
            HOST_MEMORY_LEN,
            HOST_MEMORY_EPOCH,
            GuestQuotaLimits::new(16, 16),
            WasiErrnoMap::new(),
        );
        if let Err(error) = grant_stdio(&mut ledger) {
            return Err(HostRunError::Ledger(error));
        }
        let fs = HostFullChoreoFs::new();
        proof {
            lemma_install_fresh(ledger.fds()@, ledger.fds().next_gen(), 3,
                local_grant(HOST_ROOT_FD, PicoFdRights::Read, ChoreoResourceKind::PreopenRoot, HOST_CHOREOFS_PREOPEN_LANE),
                PicoFdViewSource::Grant);
        }
        let root = ledger.apply_fd_cap_grant(
            HOST_ROOT_FD,
            PicoFdRights::Read,
            ChoreoResourceKind::PreopenRoot,
            HOST_CHOREOFS_PREOPEN_LANE,
            HOST_CHOREOFS_PREOPEN_ROUTE_LABEL,
            0,
            0,
            0,
            0,
            0,
        );
        if let Err(error) = root {
            return Err(HostRunError::Ledger(error));
        }
        let mut fd_offsets: Vec<(u8, u64)> = Vec::new();
        let mut i: usize = 0;
        while i < HOST_FD_OFFSET_SLOTS
            invariant
                i <= HOST_FD_OFFSET_SLOTS,
                fd_offsets@ == Seq::new(i as nat, |k: int| (0u8, 0u64)),
            decreases HOST_FD_OFFSET_SLOTS - i,
        {
            fd_offsets.push((0, 0));
            i = i + 1;
            assert(fd_offsets@ =~= Seq::new(i as nat, |k: int| (0u8, 0u64)));
        }
        proof {
            let f = ledger.fds()@;
            lemma_resolves_installed(f, 4, 0, PicoFdRights::Read, ChoreoResourceKind::Stdin);
            lemma_resolves_installed(f, 4, 1, PicoFdRights::Write, ChoreoResourceKind::Stdout);
            lemma_resolves_installed(f, 4, 2, PicoFdRights::Write, ChoreoResourceKind::Stderr);
            lemma_resolves_installed(f, 4, 3, PicoFdRights::Read, ChoreoResourceKind::PreopenRoot);
        }
        let out = HostRunner {
            ledger,
            fs,
            fd_offsets,
            network_rx: Vec::new(),
            network_tx: Vec::new(),
            network_accepts: Vec::new(),
            next_fd: HOST_FIRST_OBJECT_FD,
            trap_on_path_error: false,
            trap_on_network_error: false,
        };
        assert(out.rx() =~= Seq::<(u8, Seq<u8>)>::empty());
        assert(out.tx() =~= Seq::<(u8, Seq<u8>)>::empty());
        Ok(out)
    }

    /// The store, for installing objects before a run.
    pub fn fs_mut(&mut self) -> (out: &mut HostFullChoreoFs)
        ensures
            *out == old(self).fs(),
            final(self).fs() == *final(out),
            final(self).ledger() == old(self).ledger(),
            final(self).offsets() == old(self).offsets(),
            final(self).same_queues(old(self)),
            final(self).wf() == old(self).wf(),
    {
        &mut self.fs
    }

    /// Whether a refused path operation stops the run instead of answering the guest an errno.
    pub fn trap_on_path_error(&mut self, enabled: bool)
        ensures
            final(self).traps_on_path_error() == enabled,
            final(self).traps_on_network_error() == old(self).traps_on_network_error(),
            final(self).ledger() == old(self).ledger(),
            final(self).fs() == old(self).fs(),
            final(self).offsets() == old(self).offsets(),
            final(self).rx() == old(self).rx(),
            final(self).tx() == old(self).tx(),
            final(self).accepts() == old(self).accepts(),
            final(self).spec_next_fd() == old(self).spec_next_fd(),
            final(self).wf() == old(self).wf(),
    {
        self.trap_on_path_error = enabled;
    }

    /// Whether a refused network operation stops the run instead of answering the guest an errno.
    pub fn trap_on_network_error(&mut self, enabled: bool)
        ensures
            final(self).traps_on_network_error() == enabled,
            final(self).traps_on_path_error() == old(self).traps_on_path_error(),
            final(self).ledger() == old(self).ledger(),
            final(self).fs() == old(self).fs(),
            final(self).offsets() == old(self).offsets(),
            final(self).rx() == old(self).rx(),
            final(self).tx() == old(self).tx(),
            final(self).accepts() == old(self).accepts(),
            final(self).spec_next_fd() == old(self).spec_next_fd(),
            final(self).wf() == old(self).wf(),
    {
        self.trap_on_network_error = enabled;
    }

    fn install_grant(&mut self, fd: u8, rights: PicoFdRights, resource: ChoreoResourceKind) -> (out: Result<GuestFd, HostRunError>)
        requires
            old(self).wf(),
        ensures
            final(self).wf(),
            final(self).fs() == old(self).fs(),
            final(self).offsets() == old(self).offsets(),
            final(self).same_queues(old(self)),
            ledger_kept_but_fds(old(self).ledger(), final(self).ledger()),
            ({
                let r = spec_fd_install(old(self).ledger().fds()@, old(self).ledger().fds().next_gen(), 16,
                    local_grant(fd, rights, resource, HOST_NETWORK_LANE), PicoFdViewSource::Grant);
                &&& out == map_ledger(r.0)
                &&& final(self).ledger().fds()@ == r.1
                &&& final(self).ledger().fds().next_gen() == r.2
            }),
    {
        match self.ledger.apply_fd_cap_grant(fd, rights, resource, HOST_NETWORK_LANE, 0, 0, 0, 0, 0, 0) {
            Ok(granted) => Ok(granted),
            Err(error) => Err(HostRunError::Ledger(error)),
        }
    }

    /// Grants `fd` as a read-write datagram object.
    pub fn cap_grant_datagram(&mut self, fd: u8) -> (out: Result<GuestFd, HostRunError>)
        requires
            old(self).wf(),
        ensures
            final(self).wf(),
            final(self).fs() == old(self).fs(),
            final(self).offsets() == old(self).offsets(),
            final(self).same_queues(old(self)),
            ledger_kept_but_fds(old(self).ledger(), final(self).ledger()),
            ({
                let r = spec_fd_install(old(self).ledger().fds()@, old(self).ledger().fds().next_gen(), 16,
                    local_grant(fd, PicoFdRights::ReadWrite, ChoreoResourceKind::NetworkDatagram, HOST_NETWORK_LANE),
                    PicoFdViewSource::Grant);
                &&& out == map_ledger(r.0)
                &&& final(self).ledger().fds()@ == r.1
                &&& final(self).ledger().fds().next_gen() == r.2
            }),
    {
        self.install_grant(fd, PicoFdRights::ReadWrite, ChoreoResourceKind::NetworkDatagram)
    }

    /// Grants `fd` as a read-write stream object.
    pub fn cap_grant_stream(&mut self, fd: u8) -> (out: Result<GuestFd, HostRunError>)
        requires
            old(self).wf(),
        ensures
            final(self).wf(),
            final(self).fs() == old(self).fs(),
            final(self).offsets() == old(self).offsets(),
            final(self).same_queues(old(self)),
            ledger_kept_but_fds(old(self).ledger(), final(self).ledger()),
            ({
                let r = spec_fd_install(old(self).ledger().fds()@, old(self).ledger().fds().next_gen(), 16,
                    local_grant(fd, PicoFdRights::ReadWrite, ChoreoResourceKind::NetworkStream, HOST_NETWORK_LANE),
                    PicoFdViewSource::Grant);
                &&& out == map_ledger(r.0)
                &&& final(self).ledger().fds()@ == r.1
                &&& final(self).ledger().fds().next_gen() == r.2
            }),
    {
        self.install_grant(fd, PicoFdRights::ReadWrite, ChoreoResourceKind::NetworkStream)
    }

    /// Grants `fd` as a readable network listener.
    pub fn cap_grant_listener(&mut self, fd: u8) -> (out: Result<GuestFd, HostRunError>)
        requires
            old(self).wf(),
        ensures
            final(self).wf(),
            final(self).fs() == old(self).fs(),
            final(self).offsets() == old(self).offsets(),
            final(self).same_queues(old(self)),
            ledger_kept_but_fds(old(self).ledger(), final(self).ledger()),
            ({
                let r = spec_fd_install(old(self).ledger().fds()@, old(self).ledger().fds().next_gen(), 16,
                    local_grant(fd, PicoFdRights::Read, ChoreoResourceKind::NetworkListener, HOST_NETWORK_LANE),
                    PicoFdViewSource::Grant);
                &&& out == map_ledger(r.0)
                &&& final(self).ledger().fds()@ == r.1
                &&& final(self).ledger().fds().next_gen() == r.2
            }),
    {
        self.install_grant(fd, PicoFdRights::Read, ChoreoResourceKind::NetworkListener)
    }

    /// Mints `fd` as a read-write network object of kind `resource`.
    pub fn cap_mint_network(&mut self, fd: u8, resource: ChoreoResourceKind) -> (out: Result<GuestFd, HostRunError>)
        requires
            old(self).wf(),
        ensures
            final(self).wf(),
            final(self).fs() == old(self).fs(),
            final(self).offsets() == old(self).offsets(),
            final(self).same_queues(old(self)),
            ledger_kept_but_fds(old(self).ledger(), final(self).ledger()),
            ({
                let r = spec_fd_install(old(self).ledger().fds()@, old(self).ledger().fds().next_gen(), 16,
                    network_mint(fd, resource), PicoFdViewSource::Mint);
                &&& out == map_ledger(r.0)
                &&& final(self).ledger().fds()@ == r.1
                &&& final(self).ledger().fds().next_gen() == r.2
            }),
    {
        match self.ledger.apply_fd_cap_mint(fd, PicoFdRights::ReadWrite, resource, HOST_NETWORK_LANE, 0, 0, 0, 0, 0, 0, 0) {
            Ok(minted) => Ok(minted),
            Err(error) => Err(HostRunError::Ledger(error)),
        }
    }

    /// Queues an accept on `listener_fd` that yields a datagram fd `accepted_fd`.
    pub fn enqueue_datagram_accept(&mut self, listener_fd: u8, accepted_fd: u8)
        ensures
            final(self).accepts() == old(self).accepts().push(
                NetworkAcceptRoute { listener_fd, accepted_fd, resource: ChoreoResourceKind::NetworkDatagram },
            ),
            final(self).ledger() == old(self).ledger(),
            final(self).fs() == old(self).fs(),
            final(self).offsets() == old(self).offsets(),
            final(self).rx() == old(self).rx(),
            final(self).tx() == old(self).tx(),
            final(self).spec_next_fd() == old(self).spec_next_fd(),
            final(self).traps_on_path_error() == old(self).traps_on_path_error(),
            final(self).traps_on_network_error() == old(self).traps_on_network_error(),
            final(self).wf() == old(self).wf(),
    {
        self.network_accepts.push(
            NetworkAcceptRoute { listener_fd, accepted_fd, resource: ChoreoResourceKind::NetworkDatagram },
        );
    }

    /// Queues an accept on `listener_fd` that yields a stream fd `accepted_fd`.
    pub fn enqueue_stream_accept(&mut self, listener_fd: u8, accepted_fd: u8)
        ensures
            final(self).accepts() == old(self).accepts().push(
                NetworkAcceptRoute { listener_fd, accepted_fd, resource: ChoreoResourceKind::NetworkStream },
            ),
            final(self).ledger() == old(self).ledger(),
            final(self).fs() == old(self).fs(),
            final(self).offsets() == old(self).offsets(),
            final(self).rx() == old(self).rx(),
            final(self).tx() == old(self).tx(),
            final(self).spec_next_fd() == old(self).spec_next_fd(),
            final(self).traps_on_path_error() == old(self).traps_on_path_error(),
            final(self).traps_on_network_error() == old(self).traps_on_network_error(),
            final(self).wf() == old(self).wf(),
    {
        self.network_accepts.push(
            NetworkAcceptRoute { listener_fd, accepted_fd, resource: ChoreoResourceKind::NetworkStream },
        );
    }

    /// Takes the first accept queued on `listener_fd`.
    pub fn take_network_accept(&mut self, listener_fd: u8) -> (out: Option<NetworkAcceptRoute>)
        ensures
            ({
                let i = first_index(old(self).accepts(), accept_for(listener_fd));
                if i < old(self).accepts().len() {
                    out == Some(old(self).accepts()[i]) && final(self).accepts() == old(self).accepts().remove(i)
                } else {
                    out is None && final(self).accepts() == old(self).accepts()
                }
            }),
            final(self).ledger() == old(self).ledger(),
            final(self).fs() == old(self).fs(),
            final(self).offsets() == old(self).offsets(),
            final(self).rx() == old(self).rx(),
            final(self).tx() == old(self).tx(),
            final(self).spec_next_fd() == old(self).spec_next_fd(),
            final(self).traps_on_path_error() == old(self).traps_on_path_error(),
            final(self).traps_on_network_error() == old(self).traps_on_network_error(),
            final(self).wf() == old(self).wf(),
    {
        let ghost a = self.network_accepts@;
        let n = self.network_accepts.len();
        let mut i: usize = 0;
        while i < n
            invariant
                a == self.network_accepts@,
                *self == *old(self),
                n == a.len(),
                i <= n,
                forall|j: int| 0 <= j < i ==> !(#[trigger] accept_for(listener_fd)(a[j])),
            decreases n - i,
        {
            if self.network_accepts[i].listener_fd == listener_fd {
                proof {
                    lemma_first_index_at(a, accept_for(listener_fd), i as int);
                }
                let route = self.network_accepts.remove(i);
                return Some(route);
            }
            i = i + 1;
        }
        proof {
            lemma_first_index(a, accept_for(listener_fd));
        }
        None
    }

    /// Queues `bytes` for the guest to receive on `fd`.
    pub fn enqueue_network_rx(&mut self, fd: u8, bytes: &[u8])
        ensures
            final(self).rx() == old(self).rx().push((fd, bytes@)),
            final(self).ledger() == old(self).ledger(),
            final(self).fs() == old(self).fs(),
            final(self).offsets() == old(self).offsets(),
            final(self).tx() == old(self).tx(),
            final(self).accepts() == old(self).accepts(),
            final(self).spec_next_fd() == old(self).spec_next_fd(),
            final(self).traps_on_path_error() == old(self).traps_on_path_error(),
            final(self).traps_on_network_error() == old(self).traps_on_network_error(),
            final(self).wf() == old(self).wf(),
    {
        self.network_rx.push((fd, vstd::slice::slice_to_vec(bytes)));
        assert(self.rx() =~= old(self).rx().push((fd, bytes@)));
    }

    /// Records `bytes` the guest sent on `fd`.
    pub fn record_network_tx(&mut self, fd: u8, bytes: &[u8])
        ensures
            final(self).tx() == old(self).tx().push((fd, bytes@)),
            final(self).ledger() == old(self).ledger(),
            final(self).fs() == old(self).fs(),
            final(self).offsets() == old(self).offsets(),
            final(self).rx() == old(self).rx(),
            final(self).accepts() == old(self).accepts(),
            final(self).spec_next_fd() == old(self).spec_next_fd(),
            final(self).traps_on_path_error() == old(self).traps_on_path_error(),
            final(self).traps_on_network_error() == old(self).traps_on_network_error(),
            final(self).wf() == old(self).wf(),
    {
        self.network_tx.push((fd, vstd::slice::slice_to_vec(bytes)));
        assert(self.tx() =~= old(self).tx().push((fd, bytes@)));
    }

    /// What the guest sent, per fd, oldest first.
    pub fn network_tx(&self) -> (out: &[(u8, Vec<u8>)])
        ensures
            bytes_view(out@) == self.tx(),
    {
        self.network_tx.as_slice()
    }

    /// Takes at most `max_len` bytes queued for `fd` (see `spec_dequeue_rx`).
    pub fn dequeue_network_rx(&mut self, fd: u8, max_len: usize) -> (out: Vec<u8>)
        ensures
            (out@, final(self).rx()) == spec_dequeue_rx(old(self).rx(), fd, max_len),
            final(self).ledger() == old(self).ledger(),
            final(self).fs() == old(self).fs(),
            final(self).offsets() == old(self).offsets(),
            final(self).tx() == old(self).tx(),
            final(self).accepts() == old(self).accepts(),
            final(self).spec_next_fd() == old(self).spec_next_fd(),
            final(self).traps_on_path_error() == old(self).traps_on_path_error(),
            final(self).traps_on_network_error() == old(self).traps_on_network_error(),
            final(self).wf() == old(self).wf(),
    {
        let ghost q = self.rx();
        let n = self.network_rx.len();
        let mut i: usize = 0;
        while i < n
            invariant
                q == bytes_view(self.network_rx@),
                *self == *old(self),
                q == old(self).rx(),
                n == self.network_rx@.len(),
                i <= n,
                forall|j: int| 0 <= j < i ==> !(#[trigger] rx_for(fd)(q[j])),
            decreases n - i,
        {
            if self.network_rx[i].0 == fd {
                proof {
                    lemma_first_index_at(q, rx_for(fd), i as int);
                }
                let (_, mut bytes) = self.network_rx.remove(i);
                assert(bytes_view(self.network_rx@) =~= q.remove(i as int));
                if bytes.len() <= max_len {
                    return bytes;
                }
                let ghost whole = bytes@;
                let tail = bytes.split_off(max_len);
                self.network_rx.insert(0, (fd, tail));
                assert(bytes_view(self.network_rx@) =~= q.remove(i as int).insert(0, (fd, whole.subrange(max_len as int, whole.len() as int))));
                assert(bytes@ =~= whole.subrange(0, max_len as int));
                return bytes;
            }
            i = i + 1;
        }
        proof {
            lemma_first_index(q, rx_for(fd));
        }
        Vec::new()
    }

    fn resolve(&mut self, fd: u8, rights: PicoFdRights, resource: ChoreoResourceKind) -> (out: Result<GuestFd, GuestLedgerError>)
        requires
            old(self).wf(),
        ensures
            final(self).wf(),
            fds_kept(old(self), final(self)),
            out == match spec_resolve_current(old(self).ledger().fds()@, fd, rights, resource) {
                Ok(e) => Ok::<GuestFd, GuestLedgerError>(GuestFd::spec_from_entry(e)),
                Err(e) => Err(GuestLedgerError::Fd(e)),
            },
    {
        self.ledger.resolve_fd(fd, rights, resource)
    }

    /// `fd` as a ChoreoFS object: the first of a read, a write and a read-write resolution
    /// that succeeds.
    pub fn resolve_object_fd(&mut self, fd: u8) -> (out: Option<GuestFd>)
        requires
            old(self).wf(),
        ensures
            final(self).wf(),
            fds_kept(old(self), final(self)),
            out == spec_resolve_object_fd(old(self).ledger().fds()@, fd),
    {
        if let Ok(found) = self.resolve(fd, PicoFdRights::Read, ChoreoResourceKind::ChoreoObject) {
            return Some(found);
        }
        if let Ok(found) = self.resolve(fd, PicoFdRights::Write, ChoreoResourceKind::ChoreoObject) {
            return Some(found);
        }
        match self.resolve(fd, PicoFdRights::ReadWrite, ChoreoResourceKind::ChoreoObject) {
            Ok(found) => Some(found),
            Err(_) => None,
        }
    }

    /// `fd` with `rights` as a datagram object, else as a stream object.
    pub fn resolve_network_object(&mut self, fd: u8, rights: PicoFdRights) -> (out: Option<GuestFd>)
        requires
            old(self).wf(),
        ensures
            final(self).wf(),
            fds_kept(old(self), final(self)),
            out == spec_resolve_network_object(old(self).ledger().fds()@, fd, rights),
    {
        if let Ok(found) = self.resolve(fd, rights, ChoreoResourceKind::NetworkDatagram) {
            return Some(found);
        }
        match self.resolve(fd, rights, ChoreoResourceKind::NetworkStream) {
            Ok(found) => Some(found),
            Err(_) => None,
        }
    }

    /// The memory rights reported for `fd` (see `spec_fd_rights`).
    pub fn fd_rights(&mut self, fd: u8) -> (out: Option<MemRights>)
        requires
            old(self).wf(),
        ensures
            final(self).wf(),
            fds_kept(old(self), final(self)),
            out == spec_fd_rights(old(self).ledger().fds()@, fd),
    {
        if self.resolve(fd, PicoFdRights::Write, ChoreoResourceKind::Stdout).is_ok()
            || self.resolve(fd, PicoFdRights::Write, ChoreoResourceKind::Stderr).is_ok() {
            return Some(MemRights::Read);
        }
        if self.resolve(fd, PicoFdRights::Read, ChoreoResourceKind::Stdin).is_ok() || self.resolve_object_fd(fd).is_some() {
            return Some(MemRights::Read);
        }
        None
    }

    /// The file type reported for `fd` (see `spec_fd_filetype`).
    pub fn fd_filetype(&mut self, fd: u8) -> (out: u8)
        requires
            old(self).wf(),
        ensures
            final(self).wf(),
            fds_kept(old(self), final(self)),
            out == spec_fd_filetype(old(self).ledger().fds()@, fd),
    {
        if fd == HOST_ROOT_FD || self.resolve(fd, PicoFdRights::Read, ChoreoResourceKind::DirectoryView).is_ok() {
            WASIP1_FILETYPE_DIRECTORY
        } else {
            WASIP1_FILETYPE_REGULAR_FILE
        }
    }

    /// The file type and size reported for `fd`: the root is an empty directory, a ChoreoFS
    /// object reports its store stat, anything else an empty regular file.
    pub fn fd_stat(&mut self, fd: u8) -> (out: (u8, u64))
        requires
            old(self).wf(),
            old(self).fs().wf(),
        ensures
            final(self).wf(),
            fds_kept(old(self), final(self)),
            out == (if fd == HOST_ROOT_FD {
                (WASIP1_FILETYPE_DIRECTORY, 0u64)
            } else {
                match spec_resolve_object_fd(old(self).ledger().fds()@, fd) {
                    Some(g) => match spec_stat_fd(old(self).fs().view(), g) {
                        Ok(stat) => spec_file_stat(stat),
                        Err(_) => (WASIP1_FILETYPE_REGULAR_FILE, 0u64),
                    },
                    None => (WASIP1_FILETYPE_REGULAR_FILE, 0u64),
                }
            }),
    {
        if fd == HOST_ROOT_FD {
            return (WASIP1_FILETYPE_DIRECTORY, 0);
        }
        if let Some(guest_fd) = self.resolve_object_fd(fd) {
            if let Ok(stat) = self.fs.stat_fd(guest_fd) {
                return file_stat_from_choreofs(stat);
            }
        }
        (WASIP1_FILETYPE_REGULAR_FILE, 0)
    }

    /// The offset recorded for `fd`, or 0.
    pub fn fd_offset(&self, fd: u8) -> (out: u64)
        ensures
            out == spec_fd_offset(self.offsets(), fd),
    {
        let ghost o = self.fd_offsets@;
        let n = self.fd_offsets.len();
        let mut i: usize = 0;
        while i < n
            invariant
                o == self.fd_offsets@,
                n == o.len(),
                i <= n,
                forall|j: int| 0 <= j < i ==> !(#[trigger] offset_slot_for(fd)(o[j])),
            decreases n - i,
        {
            if self.fd_offsets[i].0 == fd {
                proof {
                    lemma_first_index_at(o, offset_slot_for(fd), i as int);
                }
                return self.fd_offsets[i].1;
            }
            i = i + 1;
        }
        proof {
            lemma_first_index(o, offset_slot_for(fd));
        }
        0
    }

    /// Records `offset` for `fd` (see `spec_set_fd_offset`).
    pub fn set_fd_offset(&mut self, fd: u8, offset: u64)
        requires
            old(self).wf(),
        ensures
            final(self).wf(),
            final(self).offsets() == spec_set_fd_offset(old(self).offsets(), fd, offset),
            final(self).ledger() == old(self).ledger(),
            final(self).fs() == old(self).fs(),
            final(self).same_queues(old(self)),
    {
        let ghost o = self.fd_offsets@;
        let n = self.fd_offsets.len();
        let mut i: usize = 0;
        while i < n
            invariant
                o == self.fd_offsets@,
                *self == *old(self),
                old(self).wf(),
                n == o.len(),
                i <= n,
                forall|j: int| 0 <= j < i ==> !(#[trigger] offset_slot_for(fd)(o[j])),
            decreases n - i,
        {
            if self.fd_offsets[i].0 == fd {
                proof {
                    lemma_first_index_at(o, offset_slot_for(fd), i as int);
                }
                self.fd_offsets.set(i, (fd, offset));
                return;
            }
            i = i + 1;
        }
        proof {
            lemma_first_index(o, offset_slot_for(fd));
        }
        let mut z: usize = 0;
        while z < n
            invariant
                o == self.fd_offsets@,
                *self == *old(self),
                old(self).wf(),
                n == o.len(),
                z <= n,
                first_index(o, offset_slot_for(fd)) >= o.len(),
                forall|j: int| 0 <= j < z ==> !(#[trigger] offset_slot_for(0)(o[j])),
            decreases n - z,
        {
            if self.fd_offsets[z].0 == 0 {
                proof {
                    lemma_first_index_at(o, offset_slot_for(0), z as int);
                }
                self.fd_offsets.set(z, (fd, offset));
                return;
            }
            z = z + 1;
        }
        proof {
            lemma_first_index(o, offset_slot_for(0));
        }
    }

    /// Moves the offset of `fd` forward by `delta`, saturating.
    pub fn advance_fd_offset(&mut self, fd: u8, delta: u64)
        requires
            old(self).wf(),
        ensures
            final(self).wf(),
            final(self).offsets() == spec_set_fd_offset(old(self).offsets(), fd,
                spec_fd_offset(old(self).offsets(), fd).saturating_add(delta)),
            final(self).ledger() == old(self).ledger(),
            final(self).fs() == old(self).fs(),
            final(self).same_queues(old(self)),
    {
        let current = self.fd_offset(fd);
        self.set_fd_offset(fd, current.saturating_add(delta));
    }

    /// Admits a path open of `path` under `preopen_fd` for the fd `new_fd` (see
    /// `spec_resolve_choreofs_path`).
    pub fn resolve_choreofs_path(&mut self, preopen_fd: u8, new_fd: u8, path: &[u8], rights_base: u64) -> (out: Result<HostChoreoFsOpen, ChoreoFsError>)
        requires
            old(self).wf(),
            old(self).fs().wf(),
        ensures
            final(self).wf(),
            fds_kept(old(self), final(self)),
            out == spec_resolve_choreofs_path(old(self).ledger().fds()@, old(self).fs().view(), preopen_fd, new_fd,
                path@, rights_base),
    {
        if let Err(error) = self.resolve(preopen_fd, PicoFdRights::Read, ChoreoResourceKind::PreopenRoot) {
            return Err(ChoreoFsError::Ledger(error));
        }
        let rights = pico_rights_from_wasip1_base(rights_base);
        let opened = self.fs.open(path, rights)?;
        let route_label = if opened.resource() == ChoreoResourceKind::DirectoryView {
            HOST_CHOREOFS_DIRECTORY_ROUTE_LABEL
        } else {
            HOST_CHOREOFS_OBJECT_ROUTE_LABEL
        };
        Ok(HostChoreoFsOpen {
            fd: new_fd,
            rights,
            resource: opened.resource(),
            lane: HOST_CHOREOFS_OBJECT_LANE,
            route_label,
            object_id: opened.object_id(),
            target_role: opened.object_id(),
            object_generation: opened.generation(),
        })
    }

    /// Mints the fd an admitted path open names.
    pub fn mint_choreofs_fd(&mut self, opened: HostChoreoFsOpen) -> (out: Result<GuestFd, ChoreoFsError>)
        requires
            old(self).wf(),
        ensures
            final(self).wf(),
            final(self).fs() == old(self).fs(),
            final(self).offsets() == old(self).offsets(),
            final(self).same_queues(old(self)),
            ledger_kept_but_fds(old(self).ledger(), final(self).ledger()),
            ({
                let r = spec_fd_install(old(self).ledger().fds()@, old(self).ledger().fds().next_gen(), 16,
                    choreofs_mint(opened), PicoFdViewSource::Mint);
                &&& out == match r.0 {
                    Ok(g) => Ok::<GuestFd, ChoreoFsError>(g),
                    Err(e) => Err(ChoreoFsError::Ledger(e)),
                }
                &&& final(self).ledger().fds()@ == r.1
                &&& final(self).ledger().fds().next_gen() == r.2
            }),
    {
        match self.ledger.apply_fd_cap_mint(
            opened.fd,
            opened.rights,
            opened.resource,
            opened.lane,
            opened.route_label,
            opened.object_id,
            0,
            opened.target_role,
            0,
            opened.object_generation,
            0,
        ) {
            Ok(minted) => Ok(minted),
            Err(error) => Err(ChoreoFsError::Ledger(error)),
        }
    }

    /// A path open under `preopen_fd`: an admitted path is minted as the next object fd,
    /// which then moves on; a refused one answers its errno, or stops the run when path
    /// errors trap. A mint the ledger refuses stops the run.
    pub fn open_path(&mut self, preopen_fd: u8, path: &[u8], rights_base: u64, report: &mut HostRunReport) -> (out: Result<PathOpenOutcome, HostRunError>)
        requires
            old(self).wf(),
            old(self).fs().wf(),
        ensures
            final(self).wf(),
            final(self).fs() == old(self).fs(),
            final(self).offsets() == old(self).offsets(),
            final(self).rx() == old(self).rx(),
            final(self).tx() == old(self).tx(),
            final(self).accepts() == old(self).accepts(),
            final(self).traps_on_path_error() == old(self).traps_on_path_error(),
            final(self).traps_on_network_error() == old(self).traps_on_network_error(),
            ledger_kept_but_fds(old(self).ledger(), final(self).ledger()),
            path@.len() > WASIP1_STREAM_CHUNK_CAPACITY ==> {
                &&& out == Err::<PathOpenOutcome, HostRunError>(HostRunError::Unsupported("path_open request"))
                &&& final(self).ledger() == old(self).ledger()
                &&& final(self).spec_next_fd() == old(self).spec_next_fd()
                &&& final(report)@ == old(report)@
            },
            path@.len() <= WASIP1_STREAM_CHUNK_CAPACITY ==> match spec_resolve_choreofs_path(old(self).ledger().fds()@, old(self).fs().view(), preopen_fd,
                old(self).spec_next_fd(), path@, rights_base) {
                Err(e) => final(self).ledger().fds()@ == old(self).ledger().fds()@
                    && final(self).spec_next_fd() == old(self).spec_next_fd()
                    && final(report)@ == (HostRunReportView { typed_reject_count: bump(old(report)@.typed_reject_count), ..old(report)@ })
                    && out == (if old(self).traps_on_path_error() {
                        Err::<PathOpenOutcome, HostRunError>(HostRunError::PathRejected(crate::kernel::choreofs::spec_choreofs_errno(e)))
                    } else {
                        Ok::<PathOpenOutcome, HostRunError>(PathOpenOutcome::Rejected(crate::kernel::choreofs::spec_choreofs_errno(e)))
                    }),
                Ok(opened) => {
                    let r = spec_fd_install(old(self).ledger().fds()@, old(self).ledger().fds().next_gen(), 16,
                        choreofs_mint(opened), PicoFdViewSource::Mint);
                    &&& final(self).ledger().fds()@ == r.1
                    &&& match r.0 {
                        Ok(_) => out == Ok::<PathOpenOutcome, HostRunError>(PathOpenOutcome::Opened(opened.fd))
                            && final(self).spec_next_fd() == old(self).spec_next_fd().saturating_add(1)
                            && final(report)@ == (HostRunReportView { choreofs_open_count: bump(old(report)@.choreofs_open_count), ..old(report)@ }),
                        Err(e) => out == Err::<PathOpenOutcome, HostRunError>(HostRunError::ChoreoFs(ChoreoFsError::Ledger(e)))
                            && final(self).spec_next_fd() == old(self).spec_next_fd()
                            && final(report)@ == old(report)@,
                    }
                },
            },
    {
        if PathOpen::new(preopen_fd, 0, rights_base, path).is_err() {
            return Err(HostRunError::Unsupported("path_open request"));
        }
        let new_fd = self.next_fd;
        match self.resolve_choreofs_path(preopen_fd, new_fd, path, rights_base) {
            Ok(opened) => {
                match self.mint_choreofs_fd(opened) {
                    Ok(_) => {},
                    Err(error) => return Err(HostRunError::ChoreoFs(error)),
                }
                self.next_fd = self.next_fd.saturating_add(1);
                report.choreofs_open_count = report.choreofs_open_count.saturating_add(1);
                Ok(PathOpenOutcome::Opened(new_fd))
            },
            Err(error) => {
                let errno = error.wasi_errno();
                report.typed_reject_count = report.typed_reject_count.saturating_add(1);
                if self.trap_on_path_error {
                    return Err(HostRunError::PathRejected(errno));
                }
                Ok(PathOpenOutcome::Rejected(errno))
            },
        }
    }

    /// The file type and size of `path`, or its errno; a refusal stops the run when path errors trap.
    pub fn path_filestat(&self, path: &[u8]) -> (out: Result<PathStatOutcome, HostRunError>)
        requires
            self.fs().wf(),
        ensures
            out == match crate::kernel::choreofs::spec_stat_path(self.fs().view(), path@, 64) {
                Ok(stat) => Ok::<PathStatOutcome, HostRunError>(PathStatOutcome::Stat(spec_file_stat(stat).0, spec_file_stat(stat).1)),
                Err(e) => if self.traps_on_path_error() {
                    Err::<PathStatOutcome, HostRunError>(HostRunError::PathRejected(crate::kernel::choreofs::spec_choreofs_errno(e)))
                } else {
                    Ok::<PathStatOutcome, HostRunError>(PathStatOutcome::Rejected(crate::kernel::choreofs::spec_choreofs_errno(e)))
                },
            },
    {
        match self.fs.stat_path(path) {
            Ok(stat) => {
                let (filetype, size) = file_stat_from_choreofs(stat);
                Ok(PathStatOutcome::Stat(filetype, size))
            },
            Err(error) => {
                let errno = error.wasi_errno();
                if self.trap_on_path_error {
                    return Err(HostRunError::PathRejected(errno));
                }
                Ok(PathStatOutcome::Rejected(errno))
            },
        }
    }

    /// Routes a guest write of `bytes` to `fd` (see `spec_route_fd_write`).
    pub fn route_fd_write(&mut self, fd: u8, bytes: &[u8], report: &mut HostRunReport) -> (out: Result<(), HostRunError>)
        requires
            old(self).wf(),
            old(self).fs().wf(),
        ensures
            final(self).wf(),
            final(self).fs().wf(),
            ({
                let w = spec_route_fd_write(*old(self), fd, bytes@, old(report)@);
                &&& out == w.0
                &&& final(self).fs().view() == w.1
                &&& final(self).offsets() == w.2
                &&& final(self).tx() == w.3
                &&& final(report)@ == w.4
            }),
            ledger_kept(old(self).ledger(), final(self).ledger()),
            final(self).rx() == old(self).rx(),
            final(self).accepts() == old(self).accepts(),
            final(self).spec_next_fd() == old(self).spec_next_fd(),
            final(self).traps_on_path_error() == old(self).traps_on_path_error(),
            final(self).traps_on_network_error() == old(self).traps_on_network_error(),
    {
        if fd == 1 {
            let mut v = vstd::slice::slice_to_vec(bytes);
            report.stdout.append(&mut v);
            return Ok(());
        }
        if fd == 2 {
            let mut v = vstd::slice::slice_to_vec(bytes);
            report.stderr.append(&mut v);
            return Ok(());
        }
        if self.resolve_network_object(fd, PicoFdRights::Write).is_some() {
            self.record_network_tx(fd, bytes);
            report.network_send_count = report.network_send_count.saturating_add(1);
            return Ok(());
        }
        match self.resolve_object_fd(fd) {
            Some(guest_fd) => {
                let offset = self.fd_offset(fd);
                match self.fs.write(guest_fd, offset as usize, bytes) {
                    Ok(_) => {},
                    Err(error) => return Err(HostRunError::ChoreoFs(error)),
                }
                self.advance_fd_offset(fd, bytes.len() as u64);
                report.choreofs_write_count = report.choreofs_write_count.saturating_add(1);
                Ok(())
            },
            None => Ok(()),
        }
    }

    /// Routes a guest read of at most `max_len` bytes from `fd` (see `spec_route_fd_read`); the
    /// read then goes out as an exchange (see `spec_fd_read_exchange`).
    pub fn route_fd_read(&mut self, fd: u8, max_len: usize, report: &mut HostRunReport) -> (out: Result<Vec<u8>, HostRunError>)
        requires
            old(self).wf(),
            old(self).fs().wf(),
        ensures
            final(self).wf(),
            ({
                let w = spec_route_fd_read(*old(self), fd, max_len, old(report)@);
                &&& bytes_result(out) == spec_fd_read_exchange(w.0, max_len)
                &&& final(self).offsets() == w.1
                &&& final(self).rx() == w.2
                &&& final(report)@ == w.3
            }),
            ledger_kept(old(self).ledger(), final(self).ledger()),
            final(self).fs() == old(self).fs(),
            final(self).tx() == old(self).tx(),
            final(self).accepts() == old(self).accepts(),
            final(self).spec_next_fd() == old(self).spec_next_fd(),
            final(self).traps_on_path_error() == old(self).traps_on_path_error(),
            final(self).traps_on_network_error() == old(self).traps_on_network_error(),
    {
        let bytes = self.read_fd_bytes(fd, max_len, report)?;
        let request_len: u8 = if max_len < 255 { max_len as u8 } else { 255 };
        if FdRead::new_with_lease(fd, 1, request_len).is_err() {
            return Err(HostRunError::Unsupported("fd_read"));
        }
        if FdReadDone::new_with_lease(fd, 1, bytes.as_slice()).is_err() {
            return Err(HostRunError::Unsupported("fd_read reply"));
        }
        Ok(bytes)
    }

    fn read_fd_bytes(&mut self, fd: u8, max_len: usize, report: &mut HostRunReport) -> (out: Result<Vec<u8>, HostRunError>)
        requires
            old(self).wf(),
            old(self).fs().wf(),
        ensures
            final(self).wf(),
            ({
                let w = spec_route_fd_read(*old(self), fd, max_len, old(report)@);
                &&& bytes_result(out) == w.0
                &&& final(self).offsets() == w.1
                &&& final(self).rx() == w.2
                &&& final(report)@ == w.3
            }),
            ledger_kept(old(self).ledger(), final(self).ledger()),
            final(self).fs() == old(self).fs(),
            final(self).tx() == old(self).tx(),
            final(self).accepts() == old(self).accepts(),
            final(self).spec_next_fd() == old(self).spec_next_fd(),
            final(self).traps_on_path_error() == old(self).traps_on_path_error(),
            final(self).traps_on_network_error() == old(self).traps_on_network_error(),
    {
        if fd == 0 {
            return Ok(Vec::new());
        }
        if self.resolve_network_object(fd, PicoFdRights::Read).is_some() {
            let bytes = self.dequeue_network_rx(fd, max_len);
            report.network_recv_count = report.network_recv_count.saturating_add(1);
            return Ok(bytes);
        }
        match self.resolve_object_fd(fd) {
            Some(guest_fd) => {
                let n: usize = if max_len < WASIP1_STREAM_CHUNK_CAPACITY { max_len } else { WASIP1_STREAM_CHUNK_CAPACITY };
                let mut buf: Vec<u8> = Vec::new();
                let mut i: usize = 0;
                while i < n
                    invariant
                        i <= n,
                        buf@ == Seq::new(i as nat, |k: int| 0u8),
                    decreases n - i,
                {
                    buf.push(0);
                    i = i + 1;
                    assert(buf@ =~= Seq::new(i as nat, |k: int| 0u8));
                }
                let offset = self.fd_offset(fd);
                let len = match self.fs.read(guest_fd, offset as usize, buf.as_mut_slice()) {
                    Ok(len) => len,
                    Err(error) => return Err(HostRunError::ChoreoFs(error)),
                };
                buf.truncate(len);
                self.advance_fd_offset(fd, len as u64);
                report.choreofs_read_count = report.choreofs_read_count.saturating_add(1);
                Ok(buf)
            },
            None => Ok(Vec::new()),
        }
    }

    fn reject_network<T>(&self, errno: u16, report: &mut HostRunReport) -> (out: Result<Result<T, u16>, HostRunError>)
        ensures
            ({
                let j = spec_reject_network::<T>(self.traps_on_network_error(), errno, old(report)@);
                out == j.0 && final(report)@ == j.1
            }),
    {
        report.typed_reject_count = report.typed_reject_count.saturating_add(1);
        if self.trap_on_network_error {
            return Err(HostRunError::NetworkRejected(errno));
        }
        Ok(Err(errno))
    }

    /// `sock_send` of `bytes` on `fd` (see `spec_sock_send`).
    pub fn sock_send(&mut self, fd: u8, bytes: &[u8], report: &mut HostRunReport) -> (out: Result<Result<u32, u16>, HostRunError>)
        requires
            old(self).wf(),
        ensures
            final(self).wf(),
            ({
                let w = spec_sock_send(*old(self), fd, bytes@, old(report)@);
                out == w.0 && final(self).tx() == w.1 && final(report)@ == w.2
            }),
            ledger_kept(old(self).ledger(), final(self).ledger()),
            final(self).fs() == old(self).fs(),
            final(self).offsets() == old(self).offsets(),
            final(self).rx() == old(self).rx(),
            final(self).accepts() == old(self).accepts(),
            final(self).spec_next_fd() == old(self).spec_next_fd(),
            final(self).traps_on_path_error() == old(self).traps_on_path_error(),
            final(self).traps_on_network_error() == old(self).traps_on_network_error(),
    {
        if self.resolve_network_object(fd, PicoFdRights::Write).is_none() {
            return self.reject_network(WASI_ERRNO_NOTCAPABLE, report);
        }
        if FdWrite::new_with_lease(fd, 1, bytes).is_err() {
            return Err(HostRunError::Unsupported("sock_send fd_write"));
        }
        self.record_network_tx(fd, bytes);
        report.network_send_count = report.network_send_count.saturating_add(1);
        Ok(Ok(bytes.len() as u32))
    }

    /// `sock_recv` of at most `max_len` bytes on `fd` (see `spec_sock_recv`).
    pub fn sock_recv(&mut self, fd: u8, max_len: usize, report: &mut HostRunReport) -> (out: Result<Result<Vec<u8>, u16>, HostRunError>)
        requires
            old(self).wf(),
        ensures
            final(self).wf(),
            ({
                let w = spec_sock_recv(*old(self), fd, max_len, old(report)@);
                bytes_answer(out) == w.0 && final(self).rx() == w.1 && final(report)@ == w.2
            }),
            ledger_kept(old(self).ledger(), final(self).ledger()),
            final(self).fs() == old(self).fs(),
            final(self).offsets() == old(self).offsets(),
            final(self).tx() == old(self).tx(),
            final(self).accepts() == old(self).accepts(),
            final(self).spec_next_fd() == old(self).spec_next_fd(),
            final(self).traps_on_path_error() == old(self).traps_on_path_error(),
            final(self).traps_on_network_error() == old(self).traps_on_network_error(),
    {
        if self.resolve_network_object(fd, PicoFdRights::Read).is_none() {
            return self.reject_network(WASI_ERRNO_NOTCAPABLE, report);
        }
        let request_len: u8 = if max_len < 255 { max_len as u8 } else { 255 };
        if FdRead::new_with_lease(fd, 1, request_len).is_err() {
            return Err(HostRunError::Unsupported("sock_recv fd_read"));
        }
        let bytes = self.dequeue_network_rx(fd, max_len);
        report.network_recv_count = report.network_recv_count.saturating_add(1);
        if FdReadDone::new_with_lease(fd, 1, bytes.as_slice()).is_err() {
            return Err(HostRunError::Unsupported("sock_recv reply"));
        }
        Ok(Ok(bytes))
    }

    /// `sock_shutdown` on `fd` (see `spec_sock_shutdown`).
    pub fn sock_shutdown(&mut self, fd: u8, report: &mut HostRunReport) -> (out: Result<Result<(), u16>, HostRunError>)
        requires
            old(self).wf(),
        ensures
            final(self).wf(),
            ({
                let w = spec_sock_shutdown(*old(self), fd, old(report)@);
                out == w.0 && final(self).ledger().fds()@ == w.1 && final(report)@ == w.2
            }),
            ledger_kept_but_fds(old(self).ledger(), final(self).ledger()),
            final(self).ledger().fds().next_gen() == old(self).ledger().fds().next_gen(),
            final(self).fs() == old(self).fs(),
            final(self).offsets() == old(self).offsets(),
            final(self).same_queues(old(self)),
    {
        if self.resolve_network_object(fd, PicoFdRights::Read).is_none()
            && self.resolve_network_object(fd, PicoFdRights::Write).is_none() {
            return self.reject_network(WASI_ERRNO_NOTCAPABLE, report);
        }
        let _ = self.ledger.close_fd_current(fd);
        Ok(Ok(()))
    }

    /// `sock_accept` on `listener_fd` (see `spec_sock_accept`).
    pub fn sock_accept(&mut self, listener_fd: u8, report: &mut HostRunReport) -> (out: Result<Result<u8, u16>, HostRunError>)
        requires
            old(self).wf(),
        ensures
            final(self).wf(),
            ({
                let w = spec_sock_accept(*old(self), listener_fd, old(report)@);
                &&& out == w.0
                &&& final(self).ledger().fds()@ == w.1
                &&& final(self).ledger().fds().next_gen() == w.2
                &&& final(self).ledger().pending()@ == w.3
                &&& pending_ids_after_begin(old(self).ledger().pending(), final(self).ledger().pending(), w.4)
                &&& final(self).accepts() == w.5
                &&& final(report)@ == w.6
            }),
            final(self).ledger().leases() == old(self).ledger().leases(),
            final(self).ledger().spec_quotas() == old(self).ledger().spec_quotas(),
            final(self).ledger().spec_tier() == old(self).ledger().spec_tier(),
            final(self).fs() == old(self).fs(),
            final(self).offsets() == old(self).offsets(),
            final(self).rx() == old(self).rx(),
            final(self).tx() == old(self).tx(),
            final(self).spec_next_fd() == old(self).spec_next_fd(),
            final(self).traps_on_path_error() == old(self).traps_on_path_error(),
            final(self).traps_on_network_error() == old(self).traps_on_network_error(),
    {
        if let Err(error) = self.ledger.resolve_fd(listener_fd, PicoFdRights::Read, ChoreoResourceKind::NetworkListener) {
            let errno = self.ledger.errno(error);
            return self.reject_network(errno, report);
        }
        let route = match self.take_network_accept(listener_fd) {
            Some(route) => route,
            None => {
                report.network_accept_reject_count = report.network_accept_reject_count.saturating_add(1);
                return self.reject_network(CHOREOFS_WASI_ERRNO_NOSYS, report);
            },
        };
        let token = match self.ledger.begin_sock_accept(listener_fd) {
            Ok(token) => token,
            Err(error) => {
                let errno = self.ledger.errno(error);
                return self.reject_network(errno, report);
            },
        };
        let accepted = match self.cap_mint_network(route.accepted_fd, route.resource) {
            Ok(accepted) => accepted,
            Err(HostRunError::Ledger(error)) => {
                let errno = self.ledger.errno(error);
                return self.reject_network(errno, report);
            },
            Err(error) => return Err(error),
        };
        if let Err(error) = self.ledger.complete_sock_accept(token, listener_fd) {
            let errno = self.ledger.errno(error);
            return self.reject_network(errno, report);
        }
        report.network_accept_count = report.network_accept_count.saturating_add(1);
        Ok(Ok(accepted.fd()))
    }

    /// `fd_close` from the guest: stdio and the root stay open; any other current fd is closed.
    pub fn close_fd(&mut self, fd: u8)
        requires
            old(self).wf(),
        ensures
            final(self).wf(),
            final(self).ledger().fds()@ == if fd > 2 && fd != HOST_ROOT_FD {
                spec_close_current(old(self).ledger().fds()@, fd)
            } else {
                old(self).ledger().fds()@
            },
            ledger_kept_but_fds(old(self).ledger(), final(self).ledger()),
            final(self).ledger().fds().next_gen() == old(self).ledger().fds().next_gen(),
            final(self).fs() == old(self).fs(),
            final(self).offsets() == old(self).offsets(),
            final(self).same_queues(old(self)),
    {
        if fd > 2 && fd != HOST_ROOT_FD {
            let _ = self.ledger.close_fd_current(fd);
        }
    }

    /// `fd_pread` at `offset`: a ChoreoFS object fd reads at most one stream chunk there; any
    /// other fd stops the run with BADF. The fd's own offset is not moved.
    pub fn pread_fd(&mut self, fd: u8, offset: usize) -> (out: Result<Vec<u8>, HostRunError>)
        requires
            old(self).wf(),
            old(self).fs().wf(),
        ensures
            final(self).wf(),
            fds_kept(old(self), final(self)),
            bytes_result(out) == match spec_resolve_object_fd(old(self).ledger().fds()@, fd) {
                None => Err(HostRunError::PathRejected(WASI_ERRNO_BADF)),
                Some(g) => {
                    let rd = spec_read(old(self).fs().view(), g, offset as int,
                        Seq::new(WASIP1_STREAM_CHUNK_CAPACITY as nat, |i: int| 0u8));
                    match rd.0 {
                        Err(e) => Err(HostRunError::ChoreoFs(e)),
                        Ok(len) => Ok(rd.1.subrange(0, len as int)),
                    }
                },
            },
    {
        let guest_fd = match self.resolve_object_fd(fd) {
            Some(guest_fd) => guest_fd,
            None => return Err(HostRunError::PathRejected(WASI_ERRNO_BADF)),
        };
        let mut buf: Vec<u8> = Vec::new();
        let mut i: usize = 0;
        while i < WASIP1_STREAM_CHUNK_CAPACITY
            invariant
                i <= WASIP1_STREAM_CHUNK_CAPACITY,
                buf@ == Seq::new(i as nat, |k: int| 0u8),
            decreases WASIP1_STREAM_CHUNK_CAPACITY - i,
        {
            buf.push(0);
            i = i + 1;
            assert(buf@ =~= Seq::new(i as nat, |k: int| 0u8));
        }
        let len = match self.fs.read(guest_fd, offset, buf.as_mut_slice()) {
            Ok(len) => len,
            Err(error) => return Err(HostRunError::ChoreoFs(error)),
        };
        buf.truncate(len);
        Ok(buf)
    }

    /// `fd_prestat_get` and `fd_prestat_dir_name`: only the root is a preopen, named `.`, one
    /// byte long; any other fd is answered BADF.
    pub fn prestat_name_len(&self, fd: u8) -> (out: Result<u32, u16>)
        ensures
            out == if fd == HOST_ROOT_FD { Ok::<u32, u16>(1) } else { Err(WASI_ERRNO_BADF) },
    {
        if fd == HOST_ROOT_FD {
            Ok(1)
        } else {
            Err(WASI_ERRNO_BADF)
        }
    }

    /// A path or fd operation the runner does not offer: counted as a refusal and answered NOSYS.
    pub fn reject_unsupported(&self, report: &mut HostRunReport) -> (out: u16)
        ensures
            out == CHOREOFS_WASI_ERRNO_NOSYS,
            final(report)@ == (HostRunReportView { typed_reject_count: bump(old(report)@.typed_reject_count), ..old(report)@ }),
    {
        report.typed_reject_count = report.typed_reject_count.saturating_add(1);
        CHOREOFS_WASI_ERRNO_NOSYS
    }

    /// How a refused network import ends: an errno for the guest, or a stopped run when
    /// network errors trap.
    pub fn reject_network_import(&self, errno: u16) -> (out: Result<(), HostRunError>)
        ensures
            self.traps_on_network_error() ==> out == Err::<(), HostRunError>(HostRunError::NetworkRejected(errno)),
            !self.traps_on_network_error() ==> out is Ok,
    {
        if self.trap_on_network_error {
            return Err(HostRunError::NetworkRejected(errno));
        }
        Ok(())
    }
}

} // verus!
