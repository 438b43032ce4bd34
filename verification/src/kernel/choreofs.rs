//! ChoreoFS: a small table of named objects (blobs, cells, logs, slots, devices)
//! opened through relative paths and read or written through guest fds.
use vstd::prelude::*;
use crate::seqs::{first_index, lemma_first_index, lemma_first_index_at};
use crate::choreography::protocol::{FdRead, MemGrant};
use crate::kernel::guest_ledger::{
    GuestFd, GuestFdKind, GuestLedger, GuestLedgerError, PendingSyscallToken, WasiErrnoMap,
    next_nonzero, spec_fd_errno, spec_ledger_errno,
};
use crate::kernel::transaction::{ObjectTransaction, ObjectTransactionDecision};
use crate::kernel::wasi::{ChoreoResourceKind, PicoFdError, PicoFdRights};
use crate::kernel::wasi::bytes_equal;

verus! {

pub const CHOREOFS_WASI_ERRNO_NOENT: u16 = 44;
pub const CHOREOFS_WASI_ERRNO_NOSYS: u16 = 52;
pub const CHOREOFS_WASI_ERRNO_NOTDIR: u16 = 54;
pub const CHOREOFS_WASI_ERRNO_NOTCAPABLE: u16 = 76;

pub const WASIP1_RIGHT_FD_DATASYNC: u64 = 0x1;
pub const WASIP1_RIGHT_FD_READ: u64 = 0x2;
pub const WASIP1_RIGHT_FD_SEEK: u64 = 0x4;
pub const WASIP1_RIGHT_FD_SYNC: u64 = 0x10;
pub const WASIP1_RIGHT_FD_TELL: u64 = 0x20;
pub const WASIP1_RIGHT_FD_WRITE: u64 = 0x40;
pub const WASIP1_RIGHT_FD_ALLOCATE: u64 = 0x100;
pub const WASIP1_RIGHT_FD_READDIR: u64 = 0x4000;
pub const WASIP1_RIGHT_FD_FILESTAT_GET: u64 = 0x20_0000;
pub const WASIP1_RIGHT_FD_FILESTAT_SET_SIZE: u64 = 0x40_0000;
pub const WASIP1_RIGHT_FD_FILESTAT_SET_TIMES: u64 = 0x80_0000;

/// What a ChoreoFS object is.
#[derive(Clone, Copy, Debug, PartialEq, Eq, Structural)]
pub enum ChoreoFsObjectKind {
    StaticBlob,
    ConfigCell,
    AppendLog,
    ImageSlot,
    StateSnapshot,
    Directory,
    GpioDevice,
    TimerDevice,
    UartDevice,
    NetworkDatagram,
    NetworkStream,
    NetworkListener,
    RemoteObject,
    ManagementObject,
    TelemetryObject,
}

/// Why a ChoreoFS operation is refused.
#[derive(Clone, Copy, Debug, PartialEq, Eq, Structural)]
pub enum ChoreoFsError {
    TableFull,
    PathTooLong,
    EmptyPath,
    AbsolutePath,
    InvalidComponent,
    NotFound,
    NotDirectory,
    IsDirectory,
    ReadOnly,
    PermissionDenied,
    BufferTooSmall,
    ObjectTooLarge,
    BadObjectId,
    WrongFdKind,
    BadOffset,
    Fd(PicoFdError),
    Ledger(GuestLedgerError),
}

impl From<PicoFdError> for ChoreoFsError {
    fn from(value: PicoFdError) -> (out: Self) {
        ChoreoFsError::Fd(value)
    }
}

impl vstd::std_specs::convert::FromSpecImpl<PicoFdError> for ChoreoFsError {
    open spec fn obeys_from_spec() -> bool {
        true
    }

    open spec fn from_spec(v: PicoFdError) -> Self {
        ChoreoFsError::Fd(v)
    }
}

impl From<GuestLedgerError> for ChoreoFsError {
    fn from(value: GuestLedgerError) -> (out: Self) {
        ChoreoFsError::Ledger(value)
    }
}

impl vstd::std_specs::convert::FromSpecImpl<GuestLedgerError> for ChoreoFsError {
    open spec fn obeys_from_spec() -> bool {
        true
    }

    open spec fn from_spec(v: GuestLedgerError) -> Self {
        ChoreoFsError::Ledger(v)
    }
}

/// The WASI errno that a ChoreoFS error is reported as.
pub open spec fn spec_choreofs_errno(error: ChoreoFsError) -> u16 {
    match error {
        ChoreoFsError::NotFound => CHOREOFS_WASI_ERRNO_NOENT,
        ChoreoFsError::NotDirectory => CHOREOFS_WASI_ERRNO_NOTDIR,
        ChoreoFsError::ReadOnly | ChoreoFsError::PermissionDenied | ChoreoFsError::WrongFdKind => CHOREOFS_WASI_ERRNO_NOTCAPABLE,
        ChoreoFsError::Fd(e) => spec_fd_errno(e),
        ChoreoFsError::Ledger(e) => spec_ledger_errno(e),
        _ => CHOREOFS_WASI_ERRNO_NOSYS,
    }
}

impl ChoreoFsError {
    pub fn wasi_errno(self) -> (out: u16)
        ensures
            out == spec_choreofs_errno(self),
    {
        match self {
            ChoreoFsError::NotFound => CHOREOFS_WASI_ERRNO_NOENT,
            ChoreoFsError::NotDirectory => CHOREOFS_WASI_ERRNO_NOTDIR,
            ChoreoFsError::ReadOnly | ChoreoFsError::PermissionDenied | ChoreoFsError::WrongFdKind => {
                CHOREOFS_WASI_ERRNO_NOTCAPABLE
            },
            ChoreoFsError::Fd(error) => WasiErrnoMap::new().map_fd_error(error),
            ChoreoFsError::Ledger(error) => match error {
                GuestLedgerError::Fd(error) => WasiErrnoMap::new().map_fd_error(error),
                GuestLedgerError::Memory(error) => WasiErrnoMap::new().map_memory_error(error),
                GuestLedgerError::Pending(error) => WasiErrnoMap::new().map_pending_error(error),
                GuestLedgerError::Quota(error) => WasiErrnoMap::new().map_quota_error(error),
                GuestLedgerError::LeaseMismatch => CHOREOFS_WASI_ERRNO_NOTCAPABLE,
            },
            _ => CHOREOFS_WASI_ERRNO_NOSYS,
        }
    }
}

/// Whether component rules reject the byte at `i` of a relative path: a NUL byte,
/// a separator followed by another separator or the end, or the start of a `.` or `..` component.
pub open spec fn path_byte_rejected(s: Seq<u8>, i: int) -> bool {
    let starts = i == 0 || s[i - 1] == 0x2f;
    let ends_at = |k: int| k == s.len() || s[k] == 0x2f;
    ||| s[i] == 0
    ||| s[i] == 0x2f && ends_at(i + 1)
    ||| starts && s[i] == 0x2e && ends_at(i + 1)
    ||| starts && s[i] == 0x2e && i + 1 < s.len() && s[i + 1] == 0x2e && ends_at(i + 2)
}

/// A relative path with non-empty components, none of them `.` or `..` or holding NUL.
pub open spec fn path_components_valid(s: Seq<u8>) -> bool {
    forall|i: int| 0 <= i < s.len() ==> !path_byte_rejected(s, i)
}

/// The normal form of `path` in a store whose paths hold at most `cap` bytes.
/// A valid path is already in normal form: components joined by single separators.
pub open spec fn spec_normalize_path(path: Seq<u8>, cap: nat) -> Result<Seq<u8>, ChoreoFsError> {
    if path.len() == 0 {
        Err(ChoreoFsError::EmptyPath)
    } else if path[0] == 0x2f {
        Err(ChoreoFsError::AbsolutePath)
    } else if path.len() > cap {
        Err(ChoreoFsError::PathTooLong)
    } else if !path_components_valid(path) {
        Err(ChoreoFsError::InvalidComponent)
    } else {
        Ok(path)
    }
}

/// A path checked against the store's path rules.
#[derive(Clone, Debug, PartialEq, Eq)]
pub struct NormalizedPath<const PATH: usize> {
    bytes: Vec<u8>,
}

impl<const PATH: usize> NormalizedPath<PATH> {
    pub closed spec fn view(&self) -> Seq<u8> {
        self.bytes@
    }

    pub fn new(path: &[u8]) -> (out: Result<Self, ChoreoFsError>)
        ensures
            match spec_normalize_path(path@, PATH as nat) {
                Ok(p) => out is Ok && out->Ok_0.view() == p,
                Err(e) => out == Err::<Self, ChoreoFsError>(e),
            },
    {
        normalize_path::<PATH>(path)
    }

    pub fn as_bytes(&self) -> (out: &[u8])
        ensures
            out@ == self.view(),
    {
        self.bytes.as_slice()
    }

    pub fn len(&self) -> (out: usize)
        ensures
            out == self.view().len(),
    {
        self.bytes.len()
    }
}

fn normalize_path<const PATH: usize>(path: &[u8]) -> (out: Result<NormalizedPath<PATH>, ChoreoFsError>)
    ensures
        match spec_normalize_path(path@, PATH as nat) {
            Ok(p) => out is Ok && out->Ok_0.view() == p,
            Err(e) => out == Err::<NormalizedPath<PATH>, ChoreoFsError>(e),
        },
{
    let n = path.len();
    if n == 0 {
        return Err(ChoreoFsError::EmptyPath);
    }
    if path[0] == 0x2f {
        return Err(ChoreoFsError::AbsolutePath);
    }
    if n > PATH {
        return Err(ChoreoFsError::PathTooLong);
    }
    let mut i: usize = 0;
    while i < n
        invariant
            n == path@.len(),
            0 < n <= PATH,
            path@[0] != 0x2f,
            i <= n,
            forall|j: int| 0 <= j < i ==> !path_byte_rejected(path@, j),
        decreases n - i,
    {
        let b = path[i];
        let starts = i == 0 || path[i - 1] == 0x2f;
        let next_ends = i + 1 == n || path[i + 1] == 0x2f;
        let rejected = b == 0
            || (b == 0x2f && next_ends)
            || (starts && b == 0x2e && next_ends)
            || (starts && b == 0x2e && i + 1 < n && path[i + 1] == 0x2e && (i + 2 == n || path[i + 2] == 0x2f));
        assert(rejected == path_byte_rejected(path@, i as int));
        if rejected {
            assert(path_byte_rejected(path@, i as int));
            assert(!path_components_valid(path@));
            return Err(ChoreoFsError::InvalidComponent);
        }
        i = i + 1;
    }
    Ok(NormalizedPath { bytes: vstd::slice::slice_to_vec(path) })
}

/// The name of `child` inside directory `dir`, when `child` sits directly in it.
pub open spec fn spec_direct_child_name(dir: Seq<u8>, child: Seq<u8>) -> Option<Seq<u8>> {
    if dir == child {
        None
    } else {
        let rest = if dir.len() == 0 {
            Some(child)
        } else if child.len() > dir.len() && child.subrange(0, dir.len() as int) == dir
            && child[dir.len() as int] == 0x2f {
            Some(child.subrange(dir.len() + 1int, child.len() as int))
        } else {
            None::<Seq<u8>>
        };
        match rest {
            Some(r) => if r.len() == 0 || r.contains(0x2f) {
                None
            } else {
                Some(r)
            },
            None => None,
        }
    }
}

fn direct_child_name<'a>(dir: &[u8], child: &'a [u8]) -> (out: Option<&'a [u8]>)
    ensures
        match spec_direct_child_name(dir@, child@) {
            Some(n) => out is Some && out->Some_0@ == n,
            None => out is None,
        },
{
    if bytes_equal(dir, child) {
        return None;
    }
    let dl = dir.len();
    let cl = child.len();
    let start: usize;
    if dl == 0 {
        start = 0;
    } else {
        if cl <= dl {
            return None;
        }
        let prefix = &child[0..dl];
        if !bytes_equal(prefix, dir) || child[dl] != 0x2f {
            return None;
        }
        start = dl + 1;
    }
    let rest = &child[start..cl];
    assert(dl == 0 ==> rest@ =~= child@);
    assert(dir@ != child@);
    assert(dl > 0 ==> rest@ == child@.subrange(dl + 1int, cl as int));
    if rest.len() == 0 {
        return None;
    }
    let mut k: usize = 0;
    while k < rest.len()
        invariant
            k <= rest@.len(),
            spec_direct_child_name(dir@, child@) == (if rest@.contains(0x2f) {
                None
            } else {
                Some(rest@)
            }),
            forall|j: int| 0 <= j < k ==> rest@[j] != 0x2f,
        decreases rest@.len() - k,
    {
        if rest[k] == 0x2f {
            assert(rest@.contains(0x2f));
            return None;
        }
        k = k + 1;
    }
    Some(rest)
}

/// Reads of the WASI base rights mask.
pub open spec fn wasip1_read_rights_mask() -> u64 {
    WASIP1_RIGHT_FD_READ | WASIP1_RIGHT_FD_SEEK | WASIP1_RIGHT_FD_TELL | WASIP1_RIGHT_FD_READDIR
        | WASIP1_RIGHT_FD_FILESTAT_GET
}

/// Writes of the WASI base rights mask.
pub open spec fn wasip1_write_rights_mask() -> u64 {
    WASIP1_RIGHT_FD_DATASYNC | WASIP1_RIGHT_FD_SYNC | WASIP1_RIGHT_FD_WRITE | WASIP1_RIGHT_FD_ALLOCATE
        | WASIP1_RIGHT_FD_FILESTAT_SET_SIZE | WASIP1_RIGHT_FD_FILESTAT_SET_TIMES
}

pub open spec fn spec_pico_rights_from_wasip1_base(rights_base: u64) -> PicoFdRights {
    let reads = rights_base & wasip1_read_rights_mask() != 0;
    let writes = rights_base & wasip1_write_rights_mask() != 0;
    if reads && writes {
        PicoFdRights::ReadWrite
    } else if writes {
        PicoFdRights::Write
    } else if reads {
        PicoFdRights::Read
    } else {
        PicoFdRights::NoAccess
    }
}

/// The fd rights that a WASI preview 1 base rights mask grants.
pub fn pico_rights_from_wasip1_base(rights_base: u64) -> (out: PicoFdRights)
    ensures
        out == spec_pico_rights_from_wasip1_base(rights_base),
{
    let reads = rights_base & (WASIP1_RIGHT_FD_READ | WASIP1_RIGHT_FD_SEEK | WASIP1_RIGHT_FD_TELL
        | WASIP1_RIGHT_FD_READDIR | WASIP1_RIGHT_FD_FILESTAT_GET) != 0;
    let writes = rights_base & (WASIP1_RIGHT_FD_DATASYNC | WASIP1_RIGHT_FD_SYNC | WASIP1_RIGHT_FD_WRITE
        | WASIP1_RIGHT_FD_ALLOCATE | WASIP1_RIGHT_FD_FILESTAT_SET_SIZE | WASIP1_RIGHT_FD_FILESTAT_SET_TIMES) != 0;
    match (reads, writes) {
        (true, true) => PicoFdRights::ReadWrite,
        (false, true) => PicoFdRights::Write,
        (true, false) => PicoFdRights::Read,
        (false, false) => PicoFdRights::NoAccess,
    }
}

/// What the store holds of one object: its kind, normalized path, contents and generation.
pub struct ChoreoFsObjectModel {
    pub kind: ChoreoFsObjectKind,
    pub path: Seq<u8>,
    pub data: Seq<u8>,
    pub generation: u16,
}

/// One object of the store.
#[derive(Clone, Debug, PartialEq, Eq)]
pub struct ChoreoFsObject<const PATH: usize, const DATA: usize> {
    kind: ChoreoFsObjectKind,
    path: Vec<u8>,
    data: Vec<u8>,
    generation: u16,
}

impl<const PATH: usize, const DATA: usize> ChoreoFsObject<PATH, DATA> {
    pub closed spec fn view(&self) -> ChoreoFsObjectModel {
        ChoreoFsObjectModel { kind: self.kind, path: self.path@, data: self.data@, generation: self.generation }
    }

    pub fn kind(&self) -> (out: ChoreoFsObjectKind)
        ensures
            out == self.view().kind,
    {
        self.kind
    }

    pub fn generation(&self) -> (out: u16)
        ensures
            out == self.view().generation,
    {
        self.generation
    }

    pub fn path(&self) -> (out: &[u8])
        ensures
            out@ == self.view().path,
    {
        self.path.as_slice()
    }

    pub fn data(&self) -> (out: &[u8])
        ensures
            out@ == self.view().data,
    {
        self.data.as_slice()
    }
}

/// The answer to a successful open: which object, at which generation, as which resource.
#[derive(Clone, Copy, Debug, PartialEq, Eq, Structural)]
pub struct ChoreoFsOpened {
    pub object_id: u16,
    pub generation: u16,
    pub resource: ChoreoResourceKind,
}

impl ChoreoFsOpened {
    pub fn object_id(self) -> (out: u16)
        ensures
            out == self.object_id,
    {
        self.object_id
    }

    pub fn generation(self) -> (out: u16)
        ensures
            out == self.generation,
    {
        self.generation
    }

    pub fn resource(self) -> (out: ChoreoResourceKind)
        ensures
            out == self.resource,
    {
        self.resource
    }
}

/// The answer to a directory read: bytes written, where to resume, and whether the listing ended.
#[derive(Clone, Copy, Debug, PartialEq, Eq, Structural)]
pub struct ChoreoFsDirRead {
    pub written: usize,
    pub next_cursor: usize,
    pub done: bool,
}

impl ChoreoFsDirRead {
    pub fn written(self) -> (out: usize)
        ensures
            out == self.written,
    {
        self.written
    }

    pub fn next_cursor(self) -> (out: usize)
        ensures
            out == self.next_cursor,
    {
        self.next_cursor
    }

    pub fn done(self) -> (out: bool)
        ensures
            out == self.done,
    {
        self.done
    }
}

/// The kind and size of an object.
#[derive(Clone, Copy, Debug, PartialEq, Eq, Structural)]
pub struct ChoreoFsStat {
    pub kind: ChoreoFsObjectKind,
    pub size: usize,
}

impl ChoreoFsStat {
    pub fn new(kind: ChoreoFsObjectKind, size: usize) -> (out: Self)
        ensures
            out == (ChoreoFsStat { kind, size }),
    {
        ChoreoFsStat { kind, size }
    }

    pub fn kind(self) -> (out: ChoreoFsObjectKind)
        ensures
            out == self.kind,
    {
        self.kind
    }

    pub fn size(self) -> (out: usize)
        ensures
            out == self.size,
    {
        self.size
    }
}

pub open spec fn slot_model<const PATH: usize, const DATA: usize>(o: Option<ChoreoFsObject<PATH, DATA>>) -> Option<ChoreoFsObjectModel> {
    match o {
        Some(x) => Some(x.view()),
        None => None,
    }
}

pub open spec fn object_at_path(path: Seq<u8>) -> spec_fn(Option<ChoreoFsObjectModel>) -> bool {
    |o: Option<ChoreoFsObjectModel>| o is Some && o->Some_0.path == path
}

pub open spec fn free_object_slot() -> spec_fn(Option<ChoreoFsObjectModel>) -> bool {
    |o: Option<ChoreoFsObjectModel>| o is None
}

/// The index of the object at `path`.
pub open spec fn spec_lookup(objs: Seq<Option<ChoreoFsObjectModel>>, path: Seq<u8>) -> Result<int, ChoreoFsError> {
    let i = first_index(objs, object_at_path(path));
    if i < objs.len() {
        Ok(i)
    } else {
        Err(ChoreoFsError::NotFound)
    }
}

/// The object at `index`.
pub open spec fn spec_object(objs: Seq<Option<ChoreoFsObjectModel>>, index: int) -> Result<ChoreoFsObjectModel, ChoreoFsError> {
    if 0 <= index < objs.len() && objs[index] is Some {
        Ok(objs[index]->Some_0)
    } else {
        Err(ChoreoFsError::BadObjectId)
    }
}

/// The object an fd names, at the generation the fd was opened at.
pub open spec fn spec_object_from_fd(objs: Seq<Option<ChoreoFsObjectModel>>, fd: GuestFd) -> Result<ChoreoFsObjectModel, ChoreoFsError> {
    match spec_object(objs, fd.wait_or_subscription_id as int) {
        Ok(o) => if o.generation != fd.choreo_object_generation {
            Err(ChoreoFsError::BadObjectId)
        } else {
            Ok(o)
        },
        Err(e) => Err(e),
    }
}

/// `resource`, when `rights` include `required`.
pub open spec fn needs_rights(rights: PicoFdRights, required: PicoFdRights, resource: ChoreoResourceKind) -> Result<ChoreoResourceKind, ChoreoFsError> {
    if rights.spec_allows(required) {
        Ok(resource)
    } else {
        Err(ChoreoFsError::PermissionDenied)
    }
}

/// The resource an object is opened as, given the rights asked for.
pub open spec fn spec_open_resource(kind: ChoreoFsObjectKind, rights: PicoFdRights) -> Result<ChoreoResourceKind, ChoreoFsError> {
    match kind {
        ChoreoFsObjectKind::Directory => needs_rights(rights, PicoFdRights::Read, ChoreoResourceKind::DirectoryView),
        ChoreoFsObjectKind::StaticBlob => needs_rights(rights, PicoFdRights::Read, ChoreoResourceKind::ChoreoObject),
        ChoreoFsObjectKind::ConfigCell | ChoreoFsObjectKind::AppendLog | ChoreoFsObjectKind::ImageSlot
        | ChoreoFsObjectKind::StateSnapshot => Ok(ChoreoResourceKind::ChoreoObject),
        ChoreoFsObjectKind::GpioDevice => needs_rights(rights, PicoFdRights::Write, ChoreoResourceKind::Gpio),
        ChoreoFsObjectKind::TimerDevice => needs_rights(rights, PicoFdRights::Read, ChoreoResourceKind::Timer),
        ChoreoFsObjectKind::UartDevice => needs_rights(rights, PicoFdRights::Write, ChoreoResourceKind::Uart),
        ChoreoFsObjectKind::NetworkDatagram => Ok(ChoreoResourceKind::NetworkDatagram),
        ChoreoFsObjectKind::NetworkStream => Ok(ChoreoResourceKind::NetworkStream),
        ChoreoFsObjectKind::NetworkListener => needs_rights(rights, PicoFdRights::Read, ChoreoResourceKind::NetworkListener),
        ChoreoFsObjectKind::RemoteObject => Ok(ChoreoResourceKind::RemoteObject),
        ChoreoFsObjectKind::ManagementObject => Ok(ChoreoResourceKind::Management),
        ChoreoFsObjectKind::TelemetryObject => needs_rights(rights, PicoFdRights::Write, ChoreoResourceKind::Telemetry),
    }
}

/// Opening `path` with `rights` in a store whose paths hold at most `cap` bytes.
pub open spec fn spec_open(objs: Seq<Option<ChoreoFsObjectModel>>, path: Seq<u8>, rights: PicoFdRights, cap: nat) -> Result<ChoreoFsOpened, ChoreoFsError> {
    if rights == PicoFdRights::NoAccess {
        Err(ChoreoFsError::PermissionDenied)
    } else {
        match spec_normalize_path(path, cap) {
            Err(e) => Err(e),
            Ok(p) => match spec_lookup(objs, p) {
                Err(e) => Err(e),
                Ok(id) => match spec_open_resource(objs[id]->Some_0.kind, rights) {
                    Err(e) => Err(e),
                    Ok(resource) => Ok(ChoreoFsOpened {
                        object_id: id as u16,
                        generation: objs[id]->Some_0.generation,
                        resource,
                    }),
                },
            },
        }
    }
}

pub open spec fn stat_of(o: ChoreoFsObjectModel) -> ChoreoFsStat {
    ChoreoFsStat { kind: o.kind, size: o.data.len() as usize }
}

pub open spec fn spec_stat_fd(objs: Seq<Option<ChoreoFsObjectModel>>, fd: GuestFd) -> Result<ChoreoFsStat, ChoreoFsError> {
    if fd.kind == GuestFdKind::ChoreoObject || fd.kind == GuestFdKind::DirectoryView {
        match spec_object_from_fd(objs, fd) {
            Ok(o) => Ok(stat_of(o)),
            Err(e) => Err(e),
        }
    } else {
        Err(ChoreoFsError::WrongFdKind)
    }
}

pub open spec fn spec_stat_path(objs: Seq<Option<ChoreoFsObjectModel>>, path: Seq<u8>, cap: nat) -> Result<ChoreoFsStat, ChoreoFsError> {
    match spec_normalize_path(path, cap) {
        Err(e) => Err(e),
        Ok(p) => match spec_lookup(objs, p) {
            Err(e) => Err(e),
            Ok(id) => Ok(stat_of(objs[id]->Some_0)),
        },
    }
}

/// Objects that stand for a device, a network endpoint or a service rather than bytes.
pub open spec fn is_device_kind(kind: ChoreoFsObjectKind) -> bool {
    match kind {
        ChoreoFsObjectKind::GpioDevice | ChoreoFsObjectKind::TimerDevice | ChoreoFsObjectKind::UartDevice
        | ChoreoFsObjectKind::NetworkDatagram | ChoreoFsObjectKind::NetworkStream
        | ChoreoFsObjectKind::NetworkListener | ChoreoFsObjectKind::RemoteObject
        | ChoreoFsObjectKind::ManagementObject | ChoreoFsObjectKind::TelemetryObject => true,
        _ => false,
    }
}

/// Reading at `offset` into `buf`: the count read and the buffer afterwards.
pub open spec fn spec_read(objs: Seq<Option<ChoreoFsObjectModel>>, fd: GuestFd, offset: int, buf: Seq<u8>) -> (Result<usize, ChoreoFsError>, Seq<u8>) {
    if fd.kind != GuestFdKind::ChoreoObject {
        (Err(ChoreoFsError::WrongFdKind), buf)
    } else if !fd.rights.spec_allows(PicoFdRights::Read) {
        (Err(ChoreoFsError::PermissionDenied), buf)
    } else {
        match spec_object_from_fd(objs, fd) {
            Err(e) => (Err(e), buf),
            Ok(o) => if o.kind == ChoreoFsObjectKind::Directory {
                (Err(ChoreoFsError::IsDirectory), buf)
            } else if is_device_kind(o.kind) {
                (Err(ChoreoFsError::WrongFdKind), buf)
            } else if offset >= o.data.len() {
                (Ok(0usize), buf)
            } else {
                let len = if buf.len() < o.data.len() - offset { buf.len() as int } else { o.data.len() - offset };
                (Ok(len as usize), o.data.subrange(offset, offset + len) + buf.subrange(len, buf.len() as int))
            },
        }
    }
}

/// The contents of an object of `kind` after writing `bytes` at `offset`, with room for `cap` bytes.
pub open spec fn spec_written_data(kind: ChoreoFsObjectKind, old: Seq<u8>, offset: int, bytes: Seq<u8>, cap: nat) -> Result<Seq<u8>, ChoreoFsError> {
    match kind {
        ChoreoFsObjectKind::StaticBlob => Err(ChoreoFsError::ReadOnly),
        ChoreoFsObjectKind::Directory => Err(ChoreoFsError::IsDirectory),
        ChoreoFsObjectKind::ConfigCell | ChoreoFsObjectKind::StateSnapshot => if offset != 0 {
            Err(ChoreoFsError::BadOffset)
        } else if bytes.len() > cap {
            Err(ChoreoFsError::ObjectTooLarge)
        } else {
            Ok(bytes)
        },
        ChoreoFsObjectKind::AppendLog => if offset != old.len() {
            Err(ChoreoFsError::BadOffset)
        } else if old.len() + bytes.len() > cap {
            Err(ChoreoFsError::ObjectTooLarge)
        } else {
            Ok(old + bytes)
        },
        ChoreoFsObjectKind::ImageSlot => if offset > old.len() {
            Err(ChoreoFsError::BadOffset)
        } else if offset + bytes.len() > cap {
            Err(ChoreoFsError::ObjectTooLarge)
        } else if offset + bytes.len() < old.len() {
            Ok(old.subrange(0, offset) + bytes + old.subrange(offset + bytes.len(), old.len() as int))
        } else {
            Ok(old.subrange(0, offset) + bytes)
        },
        _ => Err(ChoreoFsError::WrongFdKind),
    }
}

/// Writing `bytes` at `offset` through `fd`: the count written and the objects afterwards.
pub open spec fn spec_write(objs: Seq<Option<ChoreoFsObjectModel>>, fd: GuestFd, offset: int, bytes: Seq<u8>, cap: nat) -> (Result<usize, ChoreoFsError>, Seq<Option<ChoreoFsObjectModel>>) {
    if fd.kind != GuestFdKind::ChoreoObject {
        (Err(ChoreoFsError::WrongFdKind), objs)
    } else if !fd.rights.spec_allows(PicoFdRights::Write) {
        (Err(ChoreoFsError::PermissionDenied), objs)
    } else {
        let index = fd.wait_or_subscription_id as int;
        match spec_object(objs, index) {
            Err(e) => (Err(e), objs),
            Ok(o) => match spec_written_data(o.kind, o.data, offset, bytes, cap) {
                Err(e) => (Err(e), objs),
                Ok(d) => (Ok(bytes.len() as usize), objs.update(index, Some(ChoreoFsObjectModel {
                    kind: o.kind,
                    path: o.path,
                    data: d,
                    generation: o.generation,
                }))),
            },
        }
    }
}

/// A transaction fact that lets a change at `generation` go ahead.
pub open spec fn spec_require_object_tx(tx: ObjectTransaction, generation: u16) -> Result<(), ChoreoFsError> {
    if tx.generation != generation {
        Err(ChoreoFsError::BadObjectId)
    } else if tx.decision != ObjectTransactionDecision::Commit {
        Err(ChoreoFsError::PermissionDenied)
    } else {
        Ok(())
    }
}

/// Installing an object: its index, then the objects and next generation afterwards.
pub open spec fn spec_install(
    objs: Seq<Option<ChoreoFsObjectModel>>,
    next_generation: u16,
    kind: ChoreoFsObjectKind,
    path: Seq<u8>,
    data: Seq<u8>,
    path_cap: nat,
    data_cap: nat,
) -> (Result<u16, ChoreoFsError>, Seq<Option<ChoreoFsObjectModel>>, u16) {
    match spec_normalize_path(path, path_cap) {
        Err(e) => (Err(e), objs, next_generation),
        Ok(p) => if data.len() > data_cap {
            (Err(ChoreoFsError::ObjectTooLarge), objs, next_generation)
        } else if spec_lookup(objs, p) is Ok {
            (Err(ChoreoFsError::PermissionDenied), objs, next_generation)
        } else if first_index(objs, free_object_slot()) >= objs.len() {
            (Err(ChoreoFsError::TableFull), objs, next_generation)
        } else {
            let i = first_index(objs, free_object_slot());
            (
                Ok(i as u16),
                objs.update(i, Some(ChoreoFsObjectModel { kind, path: p, data, generation: next_generation })),
                next_nonzero(next_generation),
            )
        },
    }
}

/// The listing line that slot `i` adds to a listing of `dir`: the child's name and a newline.
pub open spec fn dir_entry(objs: Seq<Option<ChoreoFsObjectModel>>, dir: Seq<u8>, i: int) -> Seq<u8> {
    if 0 <= i < objs.len() && objs[i] is Some {
        match spec_direct_child_name(dir, objs[i]->Some_0.path) {
            Some(name) => name.push(0x0a),
            None => Seq::empty(),
        }
    } else {
        Seq::empty()
    }
}

/// The lines that slots `from..to` add to a listing of `dir`.
pub open spec fn dir_listing(objs: Seq<Option<ChoreoFsObjectModel>>, dir: Seq<u8>, from: int, to: int) -> Seq<u8>
    decreases to - from,
{
    if to <= from {
        Seq::empty()
    } else {
        dir_listing(objs, dir, from, to - 1) + dir_entry(objs, dir, to - 1)
    }
}

/// The slot at or after `k` where a listing of `dir` from `cursor` into `cap` bytes stops:
/// the first line that no longer fits, or the end of the table.
pub open spec fn dir_stop(objs: Seq<Option<ChoreoFsObjectModel>>, dir: Seq<u8>, cursor: int, cap: nat, k: int) -> int
    decreases objs.len() - k,
{
    if k >= objs.len() {
        k
    } else if dir_entry(objs, dir, k).len() > 0
        && dir_listing(objs, dir, cursor, k).len() + dir_entry(objs, dir, k).len() > cap {
        k
    } else {
        dir_stop(objs, dir, cursor, cap, k + 1)
    }
}

/// Listing `dir` from `cursor` into a buffer of `cap` bytes.
pub open spec fn dir_read_outcome(objs: Seq<Option<ChoreoFsObjectModel>>, dir: Seq<u8>, cursor: int, cap: nat) -> Result<ChoreoFsDirRead, ChoreoFsError> {
    let k = dir_stop(objs, dir, cursor, cap, cursor);
    let w = dir_listing(objs, dir, cursor, k).len();
    if k < objs.len() && w == 0 {
        Err(ChoreoFsError::BufferTooSmall)
    } else {
        Ok(ChoreoFsDirRead { written: w as usize, next_cursor: k as usize, done: k >= objs.len() })
    }
}

/// Reading directory `fd` from `cursor` into a buffer of `cap` bytes.
pub open spec fn spec_read_directory(objs: Seq<Option<ChoreoFsObjectModel>>, fd: GuestFd, cursor: int, cap: nat) -> Result<ChoreoFsDirRead, ChoreoFsError> {
    if fd.kind != GuestFdKind::DirectoryView {
        Err(ChoreoFsError::WrongFdKind)
    } else if !fd.rights.spec_allows(PicoFdRights::Read) {
        Err(ChoreoFsError::PermissionDenied)
    } else {
        match spec_object_from_fd(objs, fd) {
            Err(e) => Err(e),
            Ok(d) => if d.kind != ChoreoFsObjectKind::Directory {
                Err(ChoreoFsError::NotDirectory)
            } else {
                dir_read_outcome(objs, d.path, cursor, cap)
            },
        }
    }
}

/// The directory whose listing `fd` reads.
pub open spec fn listed_dir(objs: Seq<Option<ChoreoFsObjectModel>>, fd: GuestFd) -> Seq<u8> {
    spec_object_from_fd(objs, fd)->Ok_0.path
}


/// No two objects share a path.
pub open spec fn paths_distinct(objs: Seq<Option<ChoreoFsObjectModel>>) -> bool {
    forall|i: int, j: int| 0 <= i < objs.len() && 0 <= j < objs.len() && i != j
        && #[trigger] objs[i] is Some && #[trigger] objs[j] is Some
        ==> objs[i]->Some_0.path != objs[j]->Some_0.path
}

/// In a store whose paths are distinct, looking up the path of an object finds that object's
/// slot, and no other.
pub proof fn lemma_lookup_finds_the_only_slot(objs: Seq<Option<ChoreoFsObjectModel>>, i: int)
    requires
        paths_distinct(objs),
        0 <= i < objs.len(),
        objs[i] is Some,
    ensures
        spec_lookup(objs, objs[i]->Some_0.path) == Ok::<int, ChoreoFsError>(i),
{
    let p = object_at_path(objs[i]->Some_0.path);
    assert forall|j: int| 0 <= j < i implies !p(#[trigger] objs[j]) by {
        if objs[j] is Some {
            assert(objs[j]->Some_0.path != objs[i]->Some_0.path);
        }
    }
    lemma_first_index_at(objs, p, i);
}

/// A successful write through `fd` changes only the object `fd` names, keeps its kind, path
/// and generation, answers the number of bytes written, and lays the bytes over the data at
/// `offset`. In an image slot the bytes before `offset` and those past the written range stay,
/// and the data grows just enough to hold the write; an append log gains the bytes at its end;
/// a config cell or snapshot holds exactly the bytes.
pub proof fn lemma_write_lays_bytes_at_offset(
    objs: Seq<Option<ChoreoFsObjectModel>>,
    fd: GuestFd,
    offset: int,
    bytes: Seq<u8>,
    cap: nat,
)
    requires
        0 <= offset,
        spec_write(objs, fd, offset, bytes, cap).0 is Ok,
    ensures
        ({
            let idx = fd.wait_or_subscription_id as int;
            let after = spec_write(objs, fd, offset, bytes, cap).1;
            let before = objs[idx]->Some_0;
            let now = after[idx]->Some_0;
            &&& spec_write(objs, fd, offset, bytes, cap).0 == Ok::<usize, ChoreoFsError>(bytes.len() as usize)
            &&& 0 <= idx < objs.len() && objs[idx] is Some
            &&& after.len() == objs.len()
            &&& forall|j: int| 0 <= j < objs.len() && j != idx ==> #[trigger] after[j] == objs[j]
            &&& after[idx] is Some
            &&& now.kind == before.kind && now.path == before.path && now.generation == before.generation
            &&& before.kind == ChoreoFsObjectKind::ImageSlot ==> {
                &&& 0 <= offset <= before.data.len()
                &&& now.data.len() == (if offset + bytes.len() > before.data.len() { offset + bytes.len() } else { before.data.len() as int })
                &&& forall|k: int| 0 <= k < offset ==> #[trigger] now.data[k] == before.data[k]
                &&& forall|k: int| 0 <= k < bytes.len() ==> #[trigger] now.data[offset + k] == bytes[k]
                &&& forall|k: int| offset + bytes.len() <= k < before.data.len() ==> #[trigger] now.data[k] == before.data[k]
            }
            &&& before.kind == ChoreoFsObjectKind::AppendLog ==> {
                &&& offset == before.data.len()
                &&& now.data.len() == before.data.len() + bytes.len()
                &&& forall|k: int| 0 <= k < before.data.len() ==> #[trigger] now.data[k] == before.data[k]
                &&& forall|k: int| 0 <= k < bytes.len() ==> #[trigger] now.data[before.data.len() + k] == bytes[k]
            }
            &&& (before.kind == ChoreoFsObjectKind::ConfigCell || before.kind == ChoreoFsObjectKind::StateSnapshot) ==> {
                &&& offset == 0
                &&& now.data.len() == bytes.len()
                &&& forall|k: int| 0 <= k < bytes.len() ==> #[trigger] now.data[k] == bytes[k]
            }
        }),
{
    let idx = fd.wait_or_subscription_id as int;
    let before = objs[idx]->Some_0;
    let now = spec_write(objs, fd, offset, bytes, cap).1[idx]->Some_0;
    if before.kind == ChoreoFsObjectKind::ImageSlot {
        assert(offset <= before.data.len());
        if offset + bytes.len() < before.data.len() {
            assert(now.data == before.data.subrange(0, offset) + bytes
                + before.data.subrange(offset + bytes.len(), before.data.len() as int));
        } else {
            assert(now.data == before.data.subrange(0, offset) + bytes);
        }
        assert forall|k: int| 0 <= k < bytes.len() implies #[trigger] now.data[offset + k] == bytes[k] by {
            if offset + bytes.len() < before.data.len() {
                assert((before.data.subrange(0, offset) + bytes + before.data.subrange(offset + bytes.len(), before.data.len() as int))[offset + k]
                    == bytes[k]);
            } else {
                assert((before.data.subrange(0, offset) + bytes)[offset + k] == bytes[k]);
            }
        }
        assert forall|k: int| offset + bytes.len() <= k < before.data.len() implies #[trigger] now.data[k] == before.data[k] by {
            assert((before.data.subrange(0, offset) + bytes + before.data.subrange(offset + bytes.len(), before.data.len() as int))[k]
                == before.data[k]);
        }
    }
    if before.kind == ChoreoFsObjectKind::AppendLog {
        assert forall|k: int| 0 <= k < bytes.len() implies #[trigger] now.data[before.data.len() + k] == bytes[k] by {
            assert((before.data + bytes)[before.data.len() + k] == bytes[k]);
        }
    }
}

/// Listings of adjacent slot ranges join: the lines of slots `a..c` are those of `a..b`
/// followed by those of `b..c`.
pub proof fn lemma_dir_listing_concatenates(objs: Seq<Option<ChoreoFsObjectModel>>, dir: Seq<u8>, a: int, b: int, c: int)
    requires
        a <= b <= c,
    ensures
        dir_listing(objs, dir, a, c) == dir_listing(objs, dir, a, b) + dir_listing(objs, dir, b, c),
    decreases c - b,
{
    if c > b {
        lemma_dir_listing_concatenates(objs, dir, a, b, c - 1);
        assert(dir_listing(objs, dir, b, b) =~= Seq::<u8>::empty());
        assert(dir_listing(objs, dir, a, c) =~= dir_listing(objs, dir, a, b) + dir_listing(objs, dir, b, c));
    } else {
        assert(dir_listing(objs, dir, b, c) =~= Seq::<u8>::empty());
        assert(dir_listing(objs, dir, a, c) =~= dir_listing(objs, dir, a, b) + dir_listing(objs, dir, b, c));
    }
}

proof fn lemma_dir_stop_bounds(objs: Seq<Option<ChoreoFsObjectModel>>, dir: Seq<u8>, cursor: int, cap: nat, k: int)
    requires
        cursor <= k,
        dir_listing(objs, dir, cursor, k).len() <= cap,
    ensures
        k <= dir_stop(objs, dir, cursor, cap, k),
        dir_listing(objs, dir, cursor, dir_stop(objs, dir, cursor, cap, k)).len() <= cap,
        k < objs.len() ==> dir_stop(objs, dir, cursor, cap, k) <= objs.len(),
        k >= objs.len() ==> dir_stop(objs, dir, cursor, cap, k) == k,
    decreases objs.len() - k,
{
    if k < objs.len() {
        if !(dir_entry(objs, dir, k).len() > 0
            && dir_listing(objs, dir, cursor, k).len() + dir_entry(objs, dir, k).len() > cap) {
            lemma_dir_stop_bounds(objs, dir, cursor, cap, k + 1);
        }
    }
}

/// Reading a directory listing in successive calls, each from the cursor the last one
/// returned, neither repeats nor skips a child: a read from `cursor` writes exactly the lines
/// of the slots from `cursor` to the cursor it returns, at most `cap` bytes; that cursor never
/// goes back, and moves forward unless the listing is done; and the lines of two successive
/// reads are together those of one read over both ranges.
pub proof fn lemma_dir_reads_continue(objs: Seq<Option<ChoreoFsObjectModel>>, dir: Seq<u8>, cursor: int, cap: nat, cap2: nat)
    requires
        0 <= cursor <= usize::MAX,
        objs.len() <= usize::MAX,
        cap <= usize::MAX,
        cap2 <= usize::MAX,
    ensures
        dir_read_outcome(objs, dir, cursor, cap) matches Ok(r) ==> {
            &&& cursor <= r.next_cursor
            &&& r.written == dir_listing(objs, dir, cursor, r.next_cursor as int).len()
            &&& r.written <= cap
            &&& (!r.done ==> cursor < r.next_cursor < objs.len())
            &&& (r.done <==> r.next_cursor >= objs.len())
            &&& (dir_read_outcome(objs, dir, r.next_cursor as int, cap2) matches Ok(r2) ==>
                dir_listing(objs, dir, cursor, r2.next_cursor as int)
                    == dir_listing(objs, dir, cursor, r.next_cursor as int)
                        + dir_listing(objs, dir, r.next_cursor as int, r2.next_cursor as int))
        },
{
    assert(dir_listing(objs, dir, cursor, cursor) =~= Seq::<u8>::empty());
    lemma_dir_stop_bounds(objs, dir, cursor, cap, cursor);
    let k = dir_stop(objs, dir, cursor, cap, cursor);
    if let Ok(r) = dir_read_outcome(objs, dir, cursor, cap) {
        assert(r.next_cursor as int == k);
        if k == cursor {
            assert(dir_listing(objs, dir, cursor, k).len() == 0);
        }
        let c2 = r.next_cursor as int;
        assert(dir_listing(objs, dir, c2, c2) =~= Seq::<u8>::empty());
        lemma_dir_stop_bounds(objs, dir, c2, cap2, c2);
        if let Ok(r2) = dir_read_outcome(objs, dir, c2, cap2) {
            assert(r2.next_cursor as int == dir_stop(objs, dir, c2, cap2, c2));
            lemma_dir_listing_concatenates(objs, dir, cursor, c2, r2.next_cursor as int);
        }
    }
}

/// Copies `src` into `out` at `at`.
fn copy_into(out: &mut [u8], at: usize, src: &[u8])
    requires
        at + src@.len() <= old(out)@.len(),
    ensures
        final(out)@ == old(out)@.subrange(0, at as int) + src@
            + old(out)@.subrange(at + src@.len(), old(out)@.len() as int),
{
    let ghost orig = out@;
    let ol = out.len();
    let n = src.len();
    let mut k: usize = 0;
    while k < n
        invariant
            n == src@.len(),
            ol == orig.len(),
            at + n <= orig.len(),
            k <= n,
            out@ == orig.subrange(0, at as int) + src@.subrange(0, k as int)
                + orig.subrange(at + k, orig.len() as int),
        decreases n - k,
    {
        let ghost before = out@;
        out[at + k] = src[k];
        assert(out@ =~= orig.subrange(0, at as int) + src@.subrange(0, k + 1int)
            + orig.subrange(at + k + 1, orig.len() as int));
        k = k + 1;
    }
    assert(src@.subrange(0, n as int) =~= src@);
}

/// Appends `src` to `v`.
fn append_bytes(v: &mut Vec<u8>, src: &[u8])
    ensures
        final(v)@ == old(v)@ + src@,
{
    let ghost orig = v@;
    let n = src.len();
    let mut k: usize = 0;
    while k < n
        invariant
            n == src@.len(),
            k <= n,
            v@ == orig + src@.subrange(0, k as int),
        decreases n - k,
    {
        v.push(src[k]);
        assert(v@ =~= orig + src@.subrange(0, k + 1int));
        k = k + 1;
    }
    assert(src@.subrange(0, n as int) =~= src@);
}

/// A fixed table of `N` objects with paths of at most `PATH` bytes and contents of at most `DATA` bytes.
pub struct ChoreoFsStore<const N: usize, const PATH: usize, const DATA: usize> {
    objects: Vec<Option<ChoreoFsObject<PATH, DATA>>>,
    next_generation: u16,
}

impl<const N: usize, const PATH: usize, const DATA: usize> ChoreoFsStore<N, PATH, DATA> {
    pub closed spec fn view(&self) -> Seq<Option<ChoreoFsObjectModel>> {
        self.objects@.map_values(|o: Option<ChoreoFsObject<PATH, DATA>>| slot_model(o))
    }

    pub closed spec fn spec_next_generation(&self) -> u16 {
        self.next_generation
    }

    pub open spec fn wf(&self) -> bool {
        &&& self.view().len() == N
        &&& forall|i: int| 0 <= i < N && #[trigger] self.view()[i] is Some ==>
                self.view()[i]->Some_0.path.len() <= PATH && self.view()[i]->Some_0.data.len() <= DATA
        &&& paths_distinct(self.view())
    }

    pub fn new() -> (out: Self)
        ensures
            out.wf(),
            out.view() == Seq::new(N as nat, |i: int| None::<ChoreoFsObjectModel>),
            out.spec_next_generation() == 1,
    {
        let mut objects: Vec<Option<ChoreoFsObject<PATH, DATA>>> = Vec::new();
        let mut i: usize = 0;
        while i < N
            invariant
                i <= N,
                objects@.len() == i,
                forall|j: int| 0 <= j < i ==> objects@[j] is None,
            decreases N - i,
        {
            objects.push(None);
            i = i + 1;
        }
        let out = ChoreoFsStore { objects, next_generation: 1 };
        assert(out.view() =~= Seq::new(N as nat, |i: int| None::<ChoreoFsObjectModel>));
        out
    }

    fn lookup(&self, path: &[u8]) -> (out: Result<usize, ChoreoFsError>)
        requires
            self.wf(),
        ensures
            match out {
                Ok(i) => spec_lookup(self.view(), path@) == Ok::<int, ChoreoFsError>(i as int),
                Err(e) => spec_lookup(self.view(), path@) == Err::<int, ChoreoFsError>(e),
            },
            out is Ok ==> out->Ok_0 < self.view().len() && self.view()[out->Ok_0 as int] is Some
                && self.view()[out->Ok_0 as int]->Some_0.path == path@,
    {
        let n = self.objects.len();
        let mut i: usize = 0;
        while i < n
            invariant
                n == self.view().len(),
                i <= n,
                forall|j: int| 0 <= j < i ==> !(#[trigger] object_at_path(path@)(self.view()[j])),
            decreases n - i,
        {
            match &self.objects[i] {
                Some(o) => {
                    if bytes_equal(o.path(), path) {
                        proof {
                            assert(self.view()[i as int] == slot_model(self.objects@[i as int]));
                            lemma_first_index_at(self.view(), object_at_path(path@), i as int);
                        }
                        return Ok(i);
                    }
                },
                None => {},
            }
            assert(self.view()[i as int] == slot_model(self.objects@[i as int]));
            i = i + 1;
        }
        proof {
            lemma_first_index(self.view(), object_at_path(path@));
        }
        Err(ChoreoFsError::NotFound)
    }

    fn object(&self, index: usize) -> (out: Result<&ChoreoFsObject<PATH, DATA>, ChoreoFsError>)
        ensures
            match spec_object(self.view(), index as int) {
                Ok(o) => out is Ok && out->Ok_0.view() == o,
                Err(e) => out == Err::<&ChoreoFsObject<PATH, DATA>, ChoreoFsError>(e),
            },
    {
        if index < self.objects.len() {
            match &self.objects[index] {
                Some(o) => Ok(o),
                None => Err(ChoreoFsError::BadObjectId),
            }
        } else {
            Err(ChoreoFsError::BadObjectId)
        }
    }

    fn object_from_fd(&self, fd: GuestFd) -> (out: Result<&ChoreoFsObject<PATH, DATA>, ChoreoFsError>)
        ensures
            match spec_object_from_fd(self.view(), fd) {
                Ok(o) => out is Ok && out->Ok_0.view() == o,
                Err(e) => out == Err::<&ChoreoFsObject<PATH, DATA>, ChoreoFsError>(e),
            },
    {
        let object = self.object(fd.wait_or_subscription_id() as usize)?;
        if object.generation() != fd.choreo_object_generation() {
            return Err(ChoreoFsError::BadObjectId);
        }
        Ok(object)
    }


    fn install(&mut self, kind: ChoreoFsObjectKind, path: &[u8], data: &[u8]) -> (out: Result<u16, ChoreoFsError>)
        requires
            old(self).wf(),
        ensures
            final(self).wf(),
            ({
                let r = spec_install(old(self).view(), old(self).spec_next_generation(), kind, path@, data@, PATH as nat, DATA as nat);
                out == r.0 && final(self).view() == r.1 && final(self).spec_next_generation() == r.2
            }),
    {
        let path = normalize_path::<PATH>(path)?;
        if data.len() > DATA {
            return Err(ChoreoFsError::ObjectTooLarge);
        }
        if self.lookup(path.as_bytes()).is_ok() {
            return Err(ChoreoFsError::PermissionDenied);
        }
        proof {
            lemma_first_index(self.view(), object_at_path(path@));
        }
        let n = self.objects.len();
        let mut i: usize = 0;
        while i < n && self.objects[i].is_some()
            invariant
                n == self.view().len(),
                i <= n,
                forall|j: int| 0 <= j < i ==> !(#[trigger] free_object_slot()(self.view()[j])),
            decreases n - i,
        {
            assert(self.view()[i as int] == slot_model(self.objects@[i as int]));
            i = i + 1;
        }
        proof {
            lemma_first_index(self.view(), free_object_slot());
        }
        if i == n {
            return Err(ChoreoFsError::TableFull);
        }
        proof {
            assert(self.view()[i as int] == slot_model(self.objects@[i as int]));
            lemma_first_index_at(self.view(), free_object_slot(), i as int);
        }
        let object = ChoreoFsObject::<PATH, DATA> {
            kind,
            path: vstd::slice::slice_to_vec(path.as_bytes()),
            data: vstd::slice::slice_to_vec(data),
            generation: self.next_generation,
        };
        let ghost old_view = self.view();
        self.objects.set(i, Some(object));
        self.next_generation = if self.next_generation == u16::MAX { 1 } else { self.next_generation + 1 };
        assert(self.view() =~= old_view.update(i as int, slot_model(Some(object))));
        proof {
            assert forall|a: int, b: int| 0 <= a < self.view().len() && 0 <= b < self.view().len() && a != b
                && #[trigger] self.view()[a] is Some && #[trigger] self.view()[b] is Some
                implies self.view()[a]->Some_0.path != self.view()[b]->Some_0.path by {
                if a != i as int && b != i as int {
                    assert(old_view[a] == self.view()[a]);
                    assert(old_view[b] == self.view()[b]);
                } else if a == i as int {
                    assert(!object_at_path(path@)(old_view[b]));
                } else {
                    assert(!object_at_path(path@)(old_view[a]));
                }
            }
        }
        Ok(i as u16)
    }

    pub fn install_static_blob(&mut self, path: &[u8], data: &[u8]) -> (out: Result<u16, ChoreoFsError>)
        requires
            old(self).wf(),
        ensures
            final(self).wf(),
            ({
                let r = spec_install(old(self).view(), old(self).spec_next_generation(), ChoreoFsObjectKind::StaticBlob, path@, data@, PATH as nat, DATA as nat);
                out == r.0 && final(self).view() == r.1 && final(self).spec_next_generation() == r.2
            }),
    {
        self.install(ChoreoFsObjectKind::StaticBlob, path, data)
    }

    pub fn install_static_blob_in_tx(&mut self, path: &[u8], data: &[u8], tx: ObjectTransaction) -> (out: Result<u16, ChoreoFsError>)
        requires
            old(self).wf(),
        ensures
            final(self).wf(),
            match spec_require_object_tx(tx, old(self).spec_next_generation()) {
                Err(e) => out == Err::<u16, ChoreoFsError>(e) && final(self).view() == old(self).view()
                    && final(self).spec_next_generation() == old(self).spec_next_generation(),
                Ok(_) => {
                    let r = spec_install(old(self).view(), old(self).spec_next_generation(), ChoreoFsObjectKind::StaticBlob, path@, data@, PATH as nat, DATA as nat);
                    out == r.0 && final(self).view() == r.1 && final(self).spec_next_generation() == r.2
                },
            },
    {
        self.require_object_tx(tx, self.next_generation)?;
        self.install_static_blob(path, data)
    }

    pub fn install_config_cell(&mut self, path: &[u8], data: &[u8]) -> (out: Result<u16, ChoreoFsError>)
        requires
            old(self).wf(),
        ensures
            final(self).wf(),
            ({
                let r = spec_install(old(self).view(), old(self).spec_next_generation(), ChoreoFsObjectKind::ConfigCell, path@, data@, PATH as nat, DATA as nat);
                out == r.0 && final(self).view() == r.1 && final(self).spec_next_generation() == r.2
            }),
    {
        self.install(ChoreoFsObjectKind::ConfigCell, path, data)
    }

    pub fn install_state_snapshot(&mut self, path: &[u8], data: &[u8]) -> (out: Result<u16, ChoreoFsError>)
        requires
            old(self).wf(),
        ensures
            final(self).wf(),
            ({
                let r = spec_install(old(self).view(), old(self).spec_next_generation(), ChoreoFsObjectKind::StateSnapshot, path@, data@, PATH as nat, DATA as nat);
                out == r.0 && final(self).view() == r.1 && final(self).spec_next_generation() == r.2
            }),
    {
        self.install(ChoreoFsObjectKind::StateSnapshot, path, data)
    }

    pub fn install_state_snapshot_in_tx(&mut self, path: &[u8], data: &[u8], tx: ObjectTransaction) -> (out: Result<u16, ChoreoFsError>)
        requires
            old(self).wf(),
        ensures
            final(self).wf(),
            match spec_require_object_tx(tx, old(self).spec_next_generation()) {
                Err(e) => out == Err::<u16, ChoreoFsError>(e) && final(self).view() == old(self).view()
                    && final(self).spec_next_generation() == old(self).spec_next_generation(),
                Ok(_) => {
                    let r = spec_install(old(self).view(), old(self).spec_next_generation(), ChoreoFsObjectKind::StateSnapshot, path@, data@, PATH as nat, DATA as nat);
                    out == r.0 && final(self).view() == r.1 && final(self).spec_next_generation() == r.2
                },
            },
    {
        self.require_object_tx(tx, self.next_generation)?;
        self.install_state_snapshot(path, data)
    }

    pub fn install_append_log(&mut self, path: &[u8]) -> (out: Result<u16, ChoreoFsError>)
        requires
            old(self).wf(),
        ensures
            final(self).wf(),
            ({
                let r = spec_install(old(self).view(), old(self).spec_next_generation(), ChoreoFsObjectKind::AppendLog, path@, Seq::empty(), PATH as nat, DATA as nat);
                out == r.0 && final(self).view() == r.1 && final(self).spec_next_generation() == r.2
            }),
    {
        let empty: [u8; 0] = [];
        assert(empty@ =~= Seq::<u8>::empty());
        self.install(ChoreoFsObjectKind::AppendLog, path, &empty)
    }

    pub fn install_image_slot(&mut self, path: &[u8]) -> (out: Result<u16, ChoreoFsError>)
        requires
            old(self).wf(),
        ensures
            final(self).wf(),
            ({
                let r = spec_install(old(self).view(), old(self).spec_next_generation(), ChoreoFsObjectKind::ImageSlot, path@, Seq::empty(), PATH as nat, DATA as nat);
                out == r.0 && final(self).view() == r.1 && final(self).spec_next_generation() == r.2
            }),
    {
        let empty: [u8; 0] = [];
        assert(empty@ =~= Seq::<u8>::empty());
        self.install(ChoreoFsObjectKind::ImageSlot, path, &empty)
    }

    pub fn install_directory(&mut self, path: &[u8]) -> (out: Result<u16, ChoreoFsError>)
        requires
            old(self).wf(),
        ensures
            final(self).wf(),
            ({
                let r = spec_install(old(self).view(), old(self).spec_next_generation(), ChoreoFsObjectKind::Directory, path@, Seq::empty(), PATH as nat, DATA as nat);
                out == r.0 && final(self).view() == r.1 && final(self).spec_next_generation() == r.2
            }),
    {
        let empty: [u8; 0] = [];
        assert(empty@ =~= Seq::<u8>::empty());
        self.install(ChoreoFsObjectKind::Directory, path, &empty)
    }

    pub fn install_gpio_device(&mut self, path: &[u8]) -> (out: Result<u16, ChoreoFsError>)
        requires
            old(self).wf(),
        ensures
            final(self).wf(),
            ({
                let r = spec_install(old(self).view(), old(self).spec_next_generation(), ChoreoFsObjectKind::GpioDevice, path@, Seq::empty(), PATH as nat, DATA as nat);
                out == r.0 && final(self).view() == r.1 && final(self).spec_next_generation() == r.2
            }),
    {
        let empty: [u8; 0] = [];
        assert(empty@ =~= Seq::<u8>::empty());
        self.install(ChoreoFsObjectKind::GpioDevice, path, &empty)
    }

    pub fn install_timer_device(&mut self, path: &[u8]) -> (out: Result<u16, ChoreoFsError>)
        requires
            old(self).wf(),
        ensures
            final(self).wf(),
            ({
                let r = spec_install(old(self).view(), old(self).spec_next_generation(), ChoreoFsObjectKind::TimerDevice, path@, Seq::empty(), PATH as nat, DATA as nat);
                out == r.0 && final(self).view() == r.1 && final(self).spec_next_generation() == r.2
            }),
    {
        let empty: [u8; 0] = [];
        assert(empty@ =~= Seq::<u8>::empty());
        self.install(ChoreoFsObjectKind::TimerDevice, path, &empty)
    }

    pub fn install_uart_device(&mut self, path: &[u8]) -> (out: Result<u16, ChoreoFsError>)
        requires
            old(self).wf(),
        ensures
            final(self).wf(),
            ({
                let r = spec_install(old(self).view(), old(self).spec_next_generation(), ChoreoFsObjectKind::UartDevice, path@, Seq::empty(), PATH as nat, DATA as nat);
                out == r.0 && final(self).view() == r.1 && final(self).spec_next_generation() == r.2
            }),
    {
        let empty: [u8; 0] = [];
        assert(empty@ =~= Seq::<u8>::empty());
        self.install(ChoreoFsObjectKind::UartDevice, path, &empty)
    }

    pub fn install_network_datagram(&mut self, path: &[u8]) -> (out: Result<u16, ChoreoFsError>)
        requires
            old(self).wf(),
        ensures
            final(self).wf(),
            ({
                let r = spec_install(old(self).view(), old(self).spec_next_generation(), ChoreoFsObjectKind::NetworkDatagram, path@, Seq::empty(), PATH as nat, DATA as nat);
                out == r.0 && final(self).view() == r.1 && final(self).spec_next_generation() == r.2
            }),
    {
        let empty: [u8; 0] = [];
        assert(empty@ =~= Seq::<u8>::empty());
        self.install(ChoreoFsObjectKind::NetworkDatagram, path, &empty)
    }

    pub fn install_network_stream(&mut self, path: &[u8]) -> (out: Result<u16, ChoreoFsError>)
        requires
            old(self).wf(),
        ensures
            final(self).wf(),
            ({
                let r = spec_install(old(self).view(), old(self).spec_next_generation(), ChoreoFsObjectKind::NetworkStream, path@, Seq::empty(), PATH as nat, DATA as nat);
                out == r.0 && final(self).view() == r.1 && final(self).spec_next_generation() == r.2
            }),
    {
        let empty: [u8; 0] = [];
        assert(empty@ =~= Seq::<u8>::empty());
        self.install(ChoreoFsObjectKind::NetworkStream, path, &empty)
    }

    pub fn install_network_listener(&mut self, path: &[u8]) -> (out: Result<u16, ChoreoFsError>)
        requires
            old(self).wf(),
        ensures
            final(self).wf(),
            ({
                let r = spec_install(old(self).view(), old(self).spec_next_generation(), ChoreoFsObjectKind::NetworkListener, path@, Seq::empty(), PATH as nat, DATA as nat);
                out == r.0 && final(self).view() == r.1 && final(self).spec_next_generation() == r.2
            }),
    {
        let empty: [u8; 0] = [];
        assert(empty@ =~= Seq::<u8>::empty());
        self.install(ChoreoFsObjectKind::NetworkListener, path, &empty)
    }

    pub fn install_remote_object(&mut self, path: &[u8]) -> (out: Result<u16, ChoreoFsError>)
        requires
            old(self).wf(),
        ensures
            final(self).wf(),
            ({
                let r = spec_install(old(self).view(), old(self).spec_next_generation(), ChoreoFsObjectKind::RemoteObject, path@, Seq::empty(), PATH as nat, DATA as nat);
                out == r.0 && final(self).view() == r.1 && final(self).spec_next_generation() == r.2
            }),
    {
        let empty: [u8; 0] = [];
        assert(empty@ =~= Seq::<u8>::empty());
        self.install(ChoreoFsObjectKind::RemoteObject, path, &empty)
    }

    pub fn install_management_object(&mut self, path: &[u8]) -> (out: Result<u16, ChoreoFsError>)
        requires
            old(self).wf(),
        ensures
            final(self).wf(),
            ({
                let r = spec_install(old(self).view(), old(self).spec_next_generation(), ChoreoFsObjectKind::ManagementObject, path@, Seq::empty(), PATH as nat, DATA as nat);
                out == r.0 && final(self).view() == r.1 && final(self).spec_next_generation() == r.2
            }),
    {
        let empty: [u8; 0] = [];
        assert(empty@ =~= Seq::<u8>::empty());
        self.install(ChoreoFsObjectKind::ManagementObject, path, &empty)
    }

    pub fn install_telemetry_object(&mut self, path: &[u8]) -> (out: Result<u16, ChoreoFsError>)
        requires
            old(self).wf(),
        ensures
            final(self).wf(),
            ({
                let r = spec_install(old(self).view(), old(self).spec_next_generation(), ChoreoFsObjectKind::TelemetryObject, path@, Seq::empty(), PATH as nat, DATA as nat);
                out == r.0 && final(self).view() == r.1 && final(self).spec_next_generation() == r.2
            }),
    {
        let empty: [u8; 0] = [];
        assert(empty@ =~= Seq::<u8>::empty());
        self.install(ChoreoFsObjectKind::TelemetryObject, path, &empty)
    }

    fn require_object_tx(&self, tx: ObjectTransaction, generation: u16) -> (out: Result<(), ChoreoFsError>)
        ensures
            out == spec_require_object_tx(tx, generation),
    {
        if tx.generation() != generation {
            return Err(ChoreoFsError::BadObjectId);
        }
        if !tx.is_commit() {
            return Err(ChoreoFsError::PermissionDenied);
        }
        Ok(())
    }

    pub fn open(&self, path: &[u8], rights: PicoFdRights) -> (out: Result<ChoreoFsOpened, ChoreoFsError>)
        requires
            self.wf(),
        ensures
            out == spec_open(self.view(), path@, rights, PATH as nat),
    {
        if rights == PicoFdRights::NoAccess {
            return Err(ChoreoFsError::PermissionDenied);
        }
        let path = normalize_path::<PATH>(path)?;
        let object_id = self.lookup(path.as_bytes())?;
        let object = self.object(object_id)?;
        let resource = match object.kind() {
            ChoreoFsObjectKind::Directory => {
                if !rights.allows(PicoFdRights::Read) {
                    return Err(ChoreoFsError::PermissionDenied);
                }
                ChoreoResourceKind::DirectoryView
            },
            ChoreoFsObjectKind::StaticBlob => {
                if !rights.allows(PicoFdRights::Read) {
                    return Err(ChoreoFsError::PermissionDenied);
                }
                ChoreoResourceKind::ChoreoObject
            },
            ChoreoFsObjectKind::ConfigCell | ChoreoFsObjectKind::AppendLog | ChoreoFsObjectKind::ImageSlot
            | ChoreoFsObjectKind::StateSnapshot => ChoreoResourceKind::ChoreoObject,
            ChoreoFsObjectKind::GpioDevice => {
                if !rights.allows(PicoFdRights::Write) {
                    return Err(ChoreoFsError::PermissionDenied);
                }
                ChoreoResourceKind::Gpio
            },
            ChoreoFsObjectKind::TimerDevice => {
                if !rights.allows(PicoFdRights::Read) {
                    return Err(ChoreoFsError::PermissionDenied);
                }
                ChoreoResourceKind::Timer
            },
            ChoreoFsObjectKind::UartDevice => {
                if !rights.allows(PicoFdRights::Write) {
                    return Err(ChoreoFsError::PermissionDenied);
                }
                ChoreoResourceKind::Uart
            },
            ChoreoFsObjectKind::NetworkDatagram => ChoreoResourceKind::NetworkDatagram,
            ChoreoFsObjectKind::NetworkStream => ChoreoResourceKind::NetworkStream,
            ChoreoFsObjectKind::NetworkListener => {
                if !rights.allows(PicoFdRights::Read) {
                    return Err(ChoreoFsError::PermissionDenied);
                }
                ChoreoResourceKind::NetworkListener
            },
            ChoreoFsObjectKind::RemoteObject => ChoreoResourceKind::RemoteObject,
            ChoreoFsObjectKind::ManagementObject => ChoreoResourceKind::Management,
            ChoreoFsObjectKind::TelemetryObject => {
                if !rights.allows(PicoFdRights::Write) {
                    return Err(ChoreoFsError::PermissionDenied);
                }
                ChoreoResourceKind::Telemetry
            },
        };
        Ok(ChoreoFsOpened { object_id: object_id as u16, generation: object.generation(), resource })
    }

    pub fn stat_fd(&self, fd: GuestFd) -> (out: Result<ChoreoFsStat, ChoreoFsError>)
        requires
            self.wf(),
        ensures
            out == spec_stat_fd(self.view(), fd),
    {
        match fd.kind() {
            GuestFdKind::ChoreoObject | GuestFdKind::DirectoryView => {
                let object = self.object_from_fd(fd)?;
                Ok(ChoreoFsStat::new(object.kind(), object.data().len()))
            },
            _ => Err(ChoreoFsError::WrongFdKind),
        }
    }

    pub fn stat_path(&self, path: &[u8]) -> (out: Result<ChoreoFsStat, ChoreoFsError>)
        requires
            self.wf(),
        ensures
            out == spec_stat_path(self.view(), path@, PATH as nat),
    {
        let path = normalize_path::<PATH>(path)?;
        let object = self.object(self.lookup(path.as_bytes())?)?;
        Ok(ChoreoFsStat::new(object.kind(), object.data().len()))
    }


    pub fn read(&self, fd: GuestFd, offset: usize, out: &mut [u8]) -> (res: Result<usize, ChoreoFsError>)
        requires
            self.wf(),
        ensures
            ({
                let r = spec_read(self.view(), fd, offset as int, old(out)@);
                res == r.0 && final(out)@ == r.1
            }),
    {
        if fd.kind() != GuestFdKind::ChoreoObject {
            return Err(ChoreoFsError::WrongFdKind);
        }
        if !fd.rights().allows(PicoFdRights::Read) {
            return Err(ChoreoFsError::PermissionDenied);
        }
        let object = self.object_from_fd(fd)?;
        match object.kind() {
            ChoreoFsObjectKind::Directory => return Err(ChoreoFsError::IsDirectory),
            ChoreoFsObjectKind::GpioDevice | ChoreoFsObjectKind::TimerDevice | ChoreoFsObjectKind::UartDevice
            | ChoreoFsObjectKind::NetworkDatagram | ChoreoFsObjectKind::NetworkStream
            | ChoreoFsObjectKind::NetworkListener | ChoreoFsObjectKind::RemoteObject
            | ChoreoFsObjectKind::ManagementObject | ChoreoFsObjectKind::TelemetryObject => {
                return Err(ChoreoFsError::WrongFdKind)
            },
            _ => {},
        }
        let data = object.data();
        if offset >= data.len() {
            return Ok(0);
        }
        let avail = data.len() - offset;
        let len = if out.len() < avail { out.len() } else { avail };
        let chunk = &data[offset..offset + len];
        let ghost orig = out@;
        copy_into(out, 0, chunk);
        assert(orig.subrange(0, 0) + chunk@ =~= chunk@);
        Ok(len)
    }

    pub fn write(&mut self, fd: GuestFd, offset: usize, bytes: &[u8]) -> (out: Result<usize, ChoreoFsError>)
        requires
            old(self).wf(),
        ensures
            final(self).wf(),
            final(self).spec_next_generation() == old(self).spec_next_generation(),
            ({
                let r = spec_write(old(self).view(), fd, offset as int, bytes@, DATA as nat);
                out == r.0 && final(self).view() == r.1
            }),
    {
        if fd.kind() != GuestFdKind::ChoreoObject {
            return Err(ChoreoFsError::WrongFdKind);
        }
        if !fd.rights().allows(PicoFdRights::Write) {
            return Err(ChoreoFsError::PermissionDenied);
        }
        let index = fd.wait_or_subscription_id() as usize;
        let object = self.object(index)?;
        let ghost o = object.view();
        let data = object.data();
        let dl = data.len();
        assert(dl <= DATA) by {
            assert(self.view()[index as int] is Some);
        }
        let new_data: Vec<u8> = match object.kind() {
            ChoreoFsObjectKind::StaticBlob => return Err(ChoreoFsError::ReadOnly),
            ChoreoFsObjectKind::Directory => return Err(ChoreoFsError::IsDirectory),
            ChoreoFsObjectKind::GpioDevice | ChoreoFsObjectKind::TimerDevice | ChoreoFsObjectKind::UartDevice
            | ChoreoFsObjectKind::NetworkDatagram | ChoreoFsObjectKind::NetworkStream
            | ChoreoFsObjectKind::NetworkListener | ChoreoFsObjectKind::RemoteObject
            | ChoreoFsObjectKind::ManagementObject | ChoreoFsObjectKind::TelemetryObject => {
                return Err(ChoreoFsError::WrongFdKind)
            },
            ChoreoFsObjectKind::ConfigCell | ChoreoFsObjectKind::StateSnapshot => {
                if offset != 0 {
                    return Err(ChoreoFsError::BadOffset);
                }
                if bytes.len() > DATA {
                    return Err(ChoreoFsError::ObjectTooLarge);
                }
                vstd::slice::slice_to_vec(bytes)
            },
            ChoreoFsObjectKind::AppendLog => {
                if offset != dl {
                    return Err(ChoreoFsError::BadOffset);
                }
                if bytes.len() > DATA - dl {
                    return Err(ChoreoFsError::ObjectTooLarge);
                }
                let mut v = vstd::slice::slice_to_vec(data);
                append_bytes(&mut v, bytes);
                v
            },
            ChoreoFsObjectKind::ImageSlot => {
                if offset > dl {
                    return Err(ChoreoFsError::BadOffset);
                }
                if bytes.len() > DATA - offset {
                    return Err(ChoreoFsError::ObjectTooLarge);
                }
                let end = offset + bytes.len();
                let mut v = vstd::slice::slice_to_vec(&data[0..offset]);
                append_bytes(&mut v, bytes);
                if end < dl {
                    append_bytes(&mut v, &data[end..dl]);
                }
                v
            },
        };
        let new_object = ChoreoFsObject::<PATH, DATA> {
            kind: object.kind(),
            path: vstd::slice::slice_to_vec(object.path()),
            data: new_data,
            generation: object.generation(),
        };
        let ghost old_view = self.view();
        self.objects.set(index, Some(new_object));
        assert(self.view() =~= old_view.update(index as int, slot_model(Some(new_object))));
        Ok(bytes.len())
    }

    pub fn write_in_tx(&mut self, fd: GuestFd, offset: usize, bytes: &[u8], tx: ObjectTransaction) -> (out: Result<usize, ChoreoFsError>)
        requires
            old(self).wf(),
        ensures
            final(self).wf(),
            final(self).spec_next_generation() == old(self).spec_next_generation(),
            match spec_require_object_tx(tx, fd.generation) {
                Err(e) => out == Err::<usize, ChoreoFsError>(e) && final(self).view() == old(self).view(),
                Ok(_) => {
                    let r = spec_write(old(self).view(), fd, offset as int, bytes@, DATA as nat);
                    out == r.0 && final(self).view() == r.1
                },
            },
    {
        self.require_object_tx(tx, fd.generation())?;
        self.write(fd, offset, bytes)
    }

    pub fn read_directory(&self, fd: GuestFd, cursor: usize, out: &mut [u8]) -> (res: Result<ChoreoFsDirRead, ChoreoFsError>)
        requires
            self.wf(),
        ensures
            res == spec_read_directory(self.view(), fd, cursor as int, old(out)@.len()),
            match res {
                Ok(d) => final(out)@ == dir_listing(self.view(), listed_dir(self.view(), fd), cursor as int, d.next_cursor as int)
                    + old(out)@.subrange(d.written as int, old(out)@.len() as int),
                Err(_) => final(out)@ == old(out)@,
            },
    {
        if fd.kind() != GuestFdKind::DirectoryView {
            return Err(ChoreoFsError::WrongFdKind);
        }
        if !fd.rights().allows(PicoFdRights::Read) {
            return Err(ChoreoFsError::PermissionDenied);
        }
        let dir = self.object_from_fd(fd)?;
        if dir.kind() != ChoreoFsObjectKind::Directory {
            return Err(ChoreoFsError::NotDirectory);
        }
        let dpath = dir.path();
        let ghost objs = self.view();
        let ghost d = dpath@;
        let ghost orig = out@;
        let olen = out.len();
        let n = self.objects.len();
        let mut written: usize = 0;
        let mut index: usize = cursor;
        let mut stopped = false;
        assert(dir_listing(objs, d, cursor as int, cursor as int) =~= Seq::<u8>::empty());
        assert(orig.subrange(0, olen as int) =~= orig);
        while index < n && !stopped
            invariant
                objs == self.view(),
                d == dpath@,
                d == listed_dir(objs, fd),
                n == objs.len(),
                orig == old(out)@,
                olen == orig.len(),
                cursor <= index,
                index <= n || index == cursor,
                written <= olen,
                written == dir_listing(objs, d, cursor as int, index as int).len(),
                out@ == dir_listing(objs, d, cursor as int, index as int) + orig.subrange(written as int, olen as int),
                dir_stop(objs, d, cursor as int, olen as nat, cursor as int) == dir_stop(objs, d, cursor as int, olen as nat, index as int),
                stopped ==> index < n && written > 0 && dir_entry(objs, d, index as int).len() > 0
                    && written + dir_entry(objs, d, index as int).len() > olen,
                spec_read_directory(objs, fd, cursor as int, olen as nat) == dir_read_outcome(objs, d, cursor as int, olen as nat),
            decreases n - index, if stopped { 0int } else { 1int },
        {
            assert(objs[index as int] == slot_model(self.objects@[index as int]));
            let ghost before = out@;
            match &self.objects[index] {
                None => {
                    assert(dir_listing(objs, d, cursor as int, index + 1int) =~= dir_listing(objs, d, cursor as int, index as int));
                    index = index + 1;
                },
                Some(child) => {
                    match direct_child_name(dpath, child.path()) {
                        None => {
                            assert(dir_listing(objs, d, cursor as int, index + 1int) =~= dir_listing(objs, d, cursor as int, index as int));
                            index = index + 1;
                        },
                        Some(name) => {
                            let nl = name.len();
                            assert(dir_entry(objs, d, index as int) == name@.push(0x0a));
                            if nl >= olen - written {
                                assert(dir_stop(objs, d, cursor as int, olen as nat, index as int) == index);
                                if written == 0 {
                                    assert(dir_listing(objs, d, cursor as int, index as int) =~= Seq::<u8>::empty());
                                    assert(out@ =~= orig);
                                    return Err(ChoreoFsError::BufferTooSmall);
                                }
                                stopped = true;
                            } else {
                                copy_into(out, written, name);
                                out[written + nl] = 0x0a;
                                assert(out@ =~= dir_listing(objs, d, cursor as int, index + 1int)
                                    + orig.subrange(written + nl + 1, olen as int));
                                written = written + nl + 1;
                                index = index + 1;
                            }
                        },
                    }
                },
            }
        }
        Ok(ChoreoFsDirRead { written, next_cursor: index, done: index >= n })
    }

    pub fn begin_directory_read<const FDS: usize, const LEASES: usize, const PENDING: usize>(
        &self,
        ledger: &mut GuestLedger<FDS, LEASES, PENDING>,
        read: &FdRead,
        grant: MemGrant,
    ) -> (out: Result<PendingSyscallToken, ChoreoFsError>)
        requires
            old(ledger).wf(),
        ensures
            match out {
                Ok(token) => GuestLedger::begin_directory_read_post(*old(ledger), *final(ledger), *read, grant, Ok(token)),
                Err(ChoreoFsError::Ledger(e)) => GuestLedger::begin_directory_read_post(*old(ledger), *final(ledger), *read, grant, Err(e)),
                Err(_) => false,
            },
    {
        match ledger.begin_directory_read(read, grant) {
            Ok(token) => Ok(token),
            Err(e) => Err(ChoreoFsError::Ledger(e)),
        }
    }

}

} // verus!

verus! {

impl<const N: usize, const PATH: usize, const DATA: usize> Default for ChoreoFsStore<N, PATH, DATA> {
    fn default() -> (out: Self)
        ensures
            out.wf(),
            out.view() == Seq::new(N as nat, |i: int| None::<ChoreoFsObjectModel>),
            out.spec_next_generation() == 1,
    {
        Self::new()
    }
}

/// A path that normalizes, normalizes to itself; normalizing twice changes nothing.
pub proof fn lemma_normalize_path_idempotent(path: Seq<u8>, cap: nat)
    requires
        spec_normalize_path(path, cap) is Ok,
    ensures
        spec_normalize_path(path, cap) == Ok::<Seq<u8>, ChoreoFsError>(path),
        spec_normalize_path(spec_normalize_path(path, cap)->Ok_0, cap) == spec_normalize_path(path, cap),
{
}

/// An object that was installed is found again at its path, under the index install answered.
pub proof fn lemma_install_then_lookup(
    objs: Seq<Option<ChoreoFsObjectModel>>,
    next_generation: u16,
    kind: ChoreoFsObjectKind,
    path: Seq<u8>,
    data: Seq<u8>,
    path_cap: nat,
    data_cap: nat,
)
    requires
        objs.len() <= u16::MAX,
        spec_install(objs, next_generation, kind, path, data, path_cap, data_cap).0 is Ok,
    ensures
        ({
            let r = spec_install(objs, next_generation, kind, path, data, path_cap, data_cap);
            &&& spec_lookup(r.1, path) == Ok::<int, ChoreoFsError>(r.0->Ok_0 as int)
            &&& spec_object(r.1, r.0->Ok_0 as int) == Ok::<ChoreoFsObjectModel, ChoreoFsError>(
                ChoreoFsObjectModel { kind, path, data, generation: next_generation })
            &&& spec_stat_path(r.1, path, path_cap) == Ok::<ChoreoFsStat, ChoreoFsError>(
                ChoreoFsStat { kind, size: data.len() as usize })
        }),
{
    let i = first_index(objs, free_object_slot());
    lemma_first_index(objs, free_object_slot());
    lemma_first_index(objs, object_at_path(path));
    let new_objs = objs.update(i, Some(ChoreoFsObjectModel { kind, path, data, generation: next_generation }));
    assert forall|j: int| 0 <= j < i implies !(#[trigger] object_at_path(path)(new_objs[j])) by {
        assert(new_objs[j] == objs[j]);
    }
    lemma_first_index_at(new_objs, object_at_path(path), i);
}

/// What is written to a configuration cell at offset 0 is what a read at offset 0 gives back.
pub proof fn lemma_config_cell_write_then_read(
    objs: Seq<Option<ChoreoFsObjectModel>>,
    fd: GuestFd,
    bytes: Seq<u8>,
    buf: Seq<u8>,
    cap: nat,
)
    requires
        spec_object_from_fd(objs, fd) is Ok,
        spec_object_from_fd(objs, fd)->Ok_0.kind == ChoreoFsObjectKind::ConfigCell,
        fd.kind == GuestFdKind::ChoreoObject,
        fd.rights == PicoFdRights::ReadWrite,
        bytes.len() <= cap,
        0 < bytes.len() <= buf.len(),
    ensures
        spec_write(objs, fd, 0, bytes, cap).0 == Ok::<usize, ChoreoFsError>(bytes.len() as usize),
        spec_read(spec_write(objs, fd, 0, bytes, cap).1, fd, 0, buf) == (
            Ok::<usize, ChoreoFsError>(bytes.len() as usize),
            bytes + buf.subrange(bytes.len() as int, buf.len() as int),
        ),
{
    let w = spec_write(objs, fd, 0, bytes, cap).1;
    let idx = fd.wait_or_subscription_id as int;
    assert(w[idx] is Some);
    assert(w[idx]->Some_0.data == bytes);
    assert(bytes.subrange(0, bytes.len() as int) =~= bytes);
}

/// A write at the end of an append log leaves the earlier bytes and adds the new ones after them.
pub proof fn lemma_append_log_write_appends(
    objs: Seq<Option<ChoreoFsObjectModel>>,
    fd: GuestFd,
    bytes: Seq<u8>,
    cap: nat,
)
    requires
        spec_object(objs, fd.wait_or_subscription_id as int) is Ok,
        spec_object(objs, fd.wait_or_subscription_id as int)->Ok_0.kind == ChoreoFsObjectKind::AppendLog,
        fd.kind == GuestFdKind::ChoreoObject,
        fd.rights.spec_allows(PicoFdRights::Write),
        spec_object(objs, fd.wait_or_subscription_id as int)->Ok_0.data.len() + bytes.len() <= cap,
    ensures
        ({
            let o = spec_object(objs, fd.wait_or_subscription_id as int)->Ok_0;
            let r = spec_write(objs, fd, o.data.len() as int, bytes, cap);
            &&& r.0 == Ok::<usize, ChoreoFsError>(bytes.len() as usize)
            &&& spec_object(r.1, fd.wait_or_subscription_id as int)->Ok_0.data == o.data + bytes
            &&& spec_object(r.1, fd.wait_or_subscription_id as int)->Ok_0.generation == o.generation
        }),
{
}

} // verus!
