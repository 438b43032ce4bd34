use vstd::prelude::*;
use vstd::slice::slice_to_vec;

verus! {

/// The lease id that never names a granted lease.
pub const MEM_LEASE_NONE: u8 = 0;
/// Byte capacity of one WASI P1 stream chunk and of one memory lease.
pub const WASIP1_STREAM_CHUNK_CAPACITY: usize = 64;
/// Byte capacity of one management image chunk.
pub const MGMT_IMAGE_CHUNK_CAPACITY: usize = 32;

pub const LABEL_ENGINE_REQ: u8 = 1;
pub const LABEL_ENGINE_RET: u8 = 2;
pub const LABEL_GPIO_SET: u8 = 3;
pub const LABEL_GPIO_SET_DONE: u8 = 4;
pub const LABEL_GPIO_WAIT_RET: u8 = 5;
pub const LABEL_TIMER_SLEEP_UNTIL: u8 = 6;
pub const LABEL_TIMER_SLEEP_DONE: u8 = 7;
pub const LABEL_NET_DATAGRAM_SEND: u8 = 16;
pub const LABEL_NET_DATAGRAM_ACK: u8 = 17;
pub const LABEL_NET_DATAGRAM_RECV: u8 = 18;
pub const LABEL_NET_DATAGRAM_RECV_RET: u8 = 19;
pub const LABEL_NET_STREAM_WRITE: u8 = 20;
pub const LABEL_NET_STREAM_ACK: u8 = 21;
pub const LABEL_NET_STREAM_READ: u8 = 22;
pub const LABEL_NET_STREAM_READ_RET: u8 = 23;
pub const LABEL_REMOTE_SAMPLE_REQ: u8 = 32;
pub const LABEL_REMOTE_SAMPLE_RET: u8 = 33;
pub const LABEL_REMOTE_ACTUATE_REQ: u8 = 34;
pub const LABEL_REMOTE_ACTUATE_RET: u8 = 35;
pub const LABEL_SWARM_TELEMETRY: u8 = 36;

/// Rejection of a protocol message whose byte payload exceeds its capacity.
#[derive(Clone, Copy, Debug, PartialEq, Eq, Structural)]
pub enum ProtocolError {
    TooLarge,
}

/// The direction a guest memory lease may be used in.
#[derive(Clone, Copy, Debug, PartialEq, Eq, Structural)]
pub enum MemRights {
    Read,
    Write,
}

/// Why guest memory leases are fenced.
#[derive(Clone, Copy, Debug, PartialEq, Eq, Structural)]
pub enum MemFenceReason {
    Trap,
    HotSwap,
    MemoryGrow,
}

/// Result codes of management image control.
#[derive(Clone, Copy, Debug, PartialEq, Eq, Structural)]
pub enum MgmtStatusCode {
    Success,
    BadSlot,
    BadChunkIndex,
    ImageTooLarge,
    OffsetMismatch,
    LengthMismatch,
    InvalidImage,
    NeedFence,
    BadFenceEpoch,
    AuthFailed,
    BadSessionGeneration,
    RollbackEmpty,
}

/// A guest request to borrow a range of linear memory.
#[derive(Clone, Copy, Debug, PartialEq, Eq, Structural)]
pub struct MemBorrow {
    pub ptr: u32,
    pub len: u8,
    pub epoch: u32,
}

impl MemBorrow {
    pub fn new(ptr: u32, len: u8, epoch: u32) -> (out: Self)
        ensures
            out.ptr == ptr,
            out.len == len,
            out.epoch == epoch,
    {
        Self { ptr, len, epoch }
    }

    pub fn ptr(&self) -> (out: u32)
        ensures
            out == self.ptr,
    {
        self.ptr
    }

    pub fn len(&self) -> (out: u8)
        ensures
            out == self.len,
    {
        self.len
    }

    pub fn epoch(&self) -> (out: u32)
        ensures
            out == self.epoch,
    {
        self.epoch
    }
}

/// A granted guest memory lease.
#[derive(Clone, Copy, Debug, PartialEq, Eq, Structural)]
pub struct MemGrant {
    pub lease_id: u8,
    pub ptr: u32,
    pub len: u8,
    pub epoch: u32,
    pub rights: MemRights,
}

impl MemGrant {
    pub fn new(lease_id: u8, ptr: u32, len: u8, epoch: u32, rights: MemRights) -> (out: Self)
        ensures
            out.lease_id == lease_id,
            out.ptr == ptr,
            out.len == len,
            out.epoch == epoch,
            out.rights == rights,
    {
        Self { lease_id, ptr, len, epoch, rights }
    }

    pub fn lease_id(&self) -> (out: u8)
        ensures
            out == self.lease_id,
    {
        self.lease_id
    }

    pub fn ptr(&self) -> (out: u32)
        ensures
            out == self.ptr,
    {
        self.ptr
    }

    pub fn len(&self) -> (out: u8)
        ensures
            out == self.len,
    {
        self.len
    }

    pub fn epoch(&self) -> (out: u32)
        ensures
            out == self.epoch,
    {
        self.epoch
    }

    pub fn rights(&self) -> (out: MemRights)
        ensures
            out == self.rights,
    {
        self.rights
    }
}

/// A guest release of a memory lease.
#[derive(Clone, Copy, Debug, PartialEq, Eq, Structural)]
pub struct MemRelease {
    pub lease_id: u8,
}

impl MemRelease {
    pub fn new(lease_id: u8) -> (out: Self)
        ensures
            out.lease_id == lease_id,
    {
        Self { lease_id }
    }

    pub fn lease_id(&self) -> (out: u8)
        ensures
            out == self.lease_id,
    {
        self.lease_id
    }
}

/// A commit of bytes written through a write lease.
#[derive(Clone, Copy, Debug, PartialEq, Eq, Structural)]
pub struct MemCommit {
    pub lease_id: u8,
    pub written: u8,
}

impl MemCommit {
    pub fn new(lease_id: u8, written: u8) -> (out: Self)
        ensures
            out.lease_id == lease_id,
            out.written == written,
    {
        Self { lease_id, written }
    }

    pub fn lease_id(&self) -> (out: u8)
        ensures
            out == self.lease_id,
    {
        self.lease_id
    }

    pub fn written(&self) -> (out: u8)
        ensures
            out == self.written,
    {
        self.written
    }
}

/// A fence that revokes every memory lease and moves to a new epoch.
#[derive(Clone, Copy, Debug, PartialEq, Eq, Structural)]
pub struct MemFence {
    pub reason: MemFenceReason,
    pub new_epoch: u32,
}

impl MemFence {
    pub fn new(reason: MemFenceReason, new_epoch: u32) -> (out: Self)
        ensures
            out.reason == reason,
            out.new_epoch == new_epoch,
    {
        Self { reason, new_epoch }
    }

    pub fn reason(&self) -> (out: MemFenceReason)
        ensures
            out == self.reason,
    {
        self.reason
    }

    pub fn new_epoch(&self) -> (out: u32)
        ensures
            out == self.new_epoch,
    {
        self.new_epoch
    }
}

/// A `poll_oneoff` request that waits until a tick.
#[derive(Clone, Copy, Debug, PartialEq, Eq, Structural)]
pub struct PollOneoff {
    pub timeout_tick: u64,
}

impl PollOneoff {
    pub fn new(timeout_tick: u64) -> (out: Self)
        ensures
            out.timeout_tick == timeout_tick,
    {
        Self { timeout_tick }
    }

    pub fn timeout_tick(&self) -> (out: u64)
        ensures
            out == self.timeout_tick,
    {
        self.timeout_tick
    }
}

/// A request to sleep until a tick.
#[derive(Clone, Copy, Debug, PartialEq, Eq, Structural)]
pub struct TimerSleepUntil {
    pub tick: u64,
}

impl TimerSleepUntil {
    pub fn new(tick: u64) -> (out: Self)
        ensures
            out.tick == tick,
    {
        Self { tick }
    }

    pub fn tick(&self) -> (out: u64)
        ensures
            out == self.tick,
    {
        self.tick
    }
}

/// The fact that a sleep until a tick is done.
#[derive(Clone, Copy, Debug, PartialEq, Eq, Structural)]
pub struct TimerSleepDone {
    pub tick: u64,
}

impl TimerSleepDone {
    pub fn new(tick: u64) -> (out: Self)
        ensures
            out.tick == tick,
    {
        Self { tick }
    }

    pub fn tick(&self) -> (out: u64)
        ensures
            out == self.tick,
    {
        self.tick
    }
}

/// A GPIO output level command.
#[derive(Clone, Copy, Debug, PartialEq, Eq, Structural)]
pub struct GpioSet {
    pub pin: u8,
    pub high: bool,
}

impl GpioSet {
    pub fn new(pin: u8, high: bool) -> (out: Self)
        ensures
            out.pin == pin,
            out.high == high,
    {
        Self { pin, high }
    }

    pub fn pin(&self) -> (out: u8)
        ensures
            out == self.pin,
    {
        self.pin
    }

    pub fn high(&self) -> (out: bool)
        ensures
            out == self.high,
    {
        self.high
    }
}

/// A request to wait for an edge on a GPIO pin.
#[derive(Clone, Copy, Debug, PartialEq, Eq, Structural)]
pub struct GpioWait {
    pub fd: u8,
    pub wait_id: u16,
    pub pin: u8,
    pub generation: u16,
}

impl GpioWait {
    pub fn new(fd: u8, wait_id: u16, pin: u8, generation: u16) -> (out: Self)
        ensures
            out.fd == fd,
            out.wait_id == wait_id,
            out.pin == pin,
            out.generation == generation,
    {
        Self { fd, wait_id, pin, generation }
    }

    pub fn fd(&self) -> (out: u8)
        ensures
            out == self.fd,
    {
        self.fd
    }

    pub fn wait_id(&self) -> (out: u16)
        ensures
            out == self.wait_id,
    {
        self.wait_id
    }

    pub fn pin(&self) -> (out: u8)
        ensures
            out == self.pin,
    {
        self.pin
    }

    pub fn generation(&self) -> (out: u16)
        ensures
            out == self.generation,
    {
        self.generation
    }
}

/// A GPIO edge that satisfied a registered wait.
#[derive(Clone, Copy, Debug, PartialEq, Eq, Structural)]
pub struct GpioEdge {
    pub wait_id: u16,
    pub pin: u8,
    pub high: bool,
    pub generation: u16,
}

impl GpioEdge {
    pub fn new(wait_id: u16, pin: u8, high: bool, generation: u16) -> (out: Self)
        ensures
            out.wait_id == wait_id,
            out.pin == pin,
            out.high == high,
            out.generation == generation,
    {
        Self { wait_id, pin, high, generation }
    }

    pub fn wait_id(&self) -> (out: u16)
        ensures
            out == self.wait_id,
    {
        self.wait_id
    }

    pub fn pin(&self) -> (out: u8)
        ensures
            out == self.pin,
    {
        self.pin
    }

    pub fn high(&self) -> (out: bool)
        ensures
            out == self.high,
    {
        self.high
    }

    pub fn generation(&self) -> (out: u16)
        ensures
            out == self.generation,
    {
        self.generation
    }
}

/// The fact that a run budget expired.
#[derive(Clone, Copy, Debug, PartialEq, Eq, Structural)]
pub struct BudgetExpired {
    pub run_id: u16,
    pub generation: u16,
}

impl BudgetExpired {
    pub fn new(run_id: u16, generation: u16) -> (out: Self)
        ensures
            out.run_id == run_id,
            out.generation == generation,
    {
        Self { run_id, generation }
    }

    pub fn run_id(&self) -> (out: u16)
        ensures
            out == self.run_id,
    {
        self.run_id
    }

    pub fn generation(&self) -> (out: u16)
        ensures
            out == self.generation,
    {
        self.generation
    }
}

/// A wall clock reading in nanoseconds.
#[derive(Clone, Copy, Debug, PartialEq, Eq, Structural)]
pub struct ClockNow {
    pub nanos: u64,
}

impl ClockNow {
    pub fn new(nanos: u64) -> (out: Self)
        ensures
            out.nanos == nanos,
    {
        Self { nanos }
    }

    pub fn nanos(&self) -> (out: u64)
        ensures
            out == self.nanos,
    {
        self.nanos
    }
}

/// A random seed of two 64-bit halves.
#[derive(Clone, Copy, Debug, PartialEq, Eq, Structural)]
pub struct RandomSeed {
    pub lo: u64,
    pub hi: u64,
}

impl RandomSeed {
    pub fn new(lo: u64, hi: u64) -> (out: Self)
        ensures
            out.lo == lo,
            out.hi == hi,
    {
        Self { lo, hi }
    }

    pub fn lo(&self) -> (out: u64)
        ensures
            out == self.lo,
    {
        self.lo
    }

    pub fn hi(&self) -> (out: u64)
        ensures
            out == self.hi,
    {
        self.hi
    }
}

/// The exit status of a WASI P1 guest.
#[derive(Clone, Copy, Debug, PartialEq, Eq, Structural)]
pub struct Wasip1ExitStatus {
    pub code: u8,
}

impl Wasip1ExitStatus {
    pub fn new(code: u8) -> (out: Self)
        ensures
            out.code == code,
    {
        Self { code }
    }

    pub fn code(&self) -> (out: u8)
        ensures
            out == self.code,
    {
        self.code
    }
}

/// The start of an image transfer into a slot.
#[derive(Clone, Copy, Debug, PartialEq, Eq, Structural)]
pub struct MgmtImageBegin {
    pub slot: u8,
    pub total_len: u32,
    pub generation: u32,
}

impl MgmtImageBegin {
    pub fn new(slot: u8, total_len: u32, generation: u32) -> (out: Self)
        ensures
            out.slot == slot,
            out.total_len == total_len,
            out.generation == generation,
    {
        Self { slot, total_len, generation }
    }

    pub fn slot(&self) -> (out: u8)
        ensures
            out == self.slot,
    {
        self.slot
    }

    pub fn total_len(&self) -> (out: u32)
        ensures
            out == self.total_len,
    {
        self.total_len
    }

    pub fn generation(&self) -> (out: u32)
        ensures
            out == self.generation,
    {
        self.generation
    }
}

/// The end of an image transfer.
#[derive(Clone, Copy, Debug, PartialEq, Eq, Structural)]
pub struct MgmtImageEnd {
    pub slot: u8,
    pub expected_len: u32,
}

impl MgmtImageEnd {
    pub fn new(slot: u8, expected_len: u32) -> (out: Self)
        ensures
            out.slot == slot,
            out.expected_len == expected_len,
    {
        Self { slot, expected_len }
    }

    pub fn slot(&self) -> (out: u8)
        ensures
            out == self.slot,
    {
        self.slot
    }

    pub fn expected_len(&self) -> (out: u32)
        ensures
            out == self.expected_len,
    {
        self.expected_len
    }
}

/// A request to activate an installed image.
#[derive(Clone, Copy, Debug, PartialEq, Eq, Structural)]
pub struct MgmtImageActivate {
    pub slot: u8,
    pub fence_epoch: u32,
}

impl MgmtImageActivate {
    pub fn new(slot: u8, fence_epoch: u32) -> (out: Self)
        ensures
            out.slot == slot,
            out.fence_epoch == fence_epoch,
    {
        Self { slot, fence_epoch }
    }

    pub fn slot(&self) -> (out: u8)
        ensures
            out == self.slot,
    {
        self.slot
    }

    pub fn fence_epoch(&self) -> (out: u32)
        ensures
            out == self.fence_epoch,
    {
        self.fence_epoch
    }
}

/// A request to roll back to the previously active image.
#[derive(Clone, Copy, Debug, PartialEq, Eq, Structural)]
pub struct MgmtImageRollback {
    pub slot: u8,
}

impl MgmtImageRollback {
    pub fn new(slot: u8) -> (out: Self)
        ensures
            out.slot == slot,
    {
        Self { slot }
    }

    pub fn slot(&self) -> (out: u8)
        ensures
            out == self.slot,
    {
        self.slot
    }
}

/// The status answer of a management request.
#[derive(Clone, Copy, Debug, PartialEq, Eq, Structural)]
pub struct MgmtStatus {
    pub slot: u8,
    pub code: MgmtStatusCode,
}

impl MgmtStatus {
    pub fn new(slot: u8, code: MgmtStatusCode) -> (out: Self)
        ensures
            out.slot == slot,
            out.code == code,
    {
        Self { slot, code }
    }

    pub fn slot(&self) -> (out: u8)
        ensures
            out == self.slot,
    {
        self.slot
    }

    pub fn code(&self) -> (out: MgmtStatusCode)
        ensures
            out == self.code,
    {
        self.code
    }
}
/// A chunk of bytes moving through a WASI P1 stream, with the lease it is bound to.
#[derive(Clone, Debug, PartialEq, Eq)]
pub struct Wasip1StreamChunk {
    pub lease_id: u8,
    pub bytes: Vec<u8>,
}

pub type StdoutChunk = Wasip1StreamChunk;
pub type StderrChunk = Wasip1StreamChunk;
pub type StdinChunk = Wasip1StreamChunk;

impl Wasip1StreamChunk {
    /// A chunk not bound to any lease.
    pub fn new(bytes: &[u8]) -> (out: Result<Self, ProtocolError>)
        ensures
            bytes@.len() <= WASIP1_STREAM_CHUNK_CAPACITY <==> out is Ok,
            out is Ok ==> out->Ok_0.lease_id == MEM_LEASE_NONE && out->Ok_0.bytes@ == bytes@,
            out is Err ==> out->Err_0 == ProtocolError::TooLarge,
    {
        Self::new_with_lease(MEM_LEASE_NONE, bytes)
    }

    pub fn new_with_lease(lease_id: u8, bytes: &[u8]) -> (out: Result<Self, ProtocolError>)
        ensures
            bytes@.len() <= WASIP1_STREAM_CHUNK_CAPACITY <==> out is Ok,
            out is Ok ==> out->Ok_0.lease_id == lease_id && out->Ok_0.bytes@ == bytes@,
            out is Err ==> out->Err_0 == ProtocolError::TooLarge,
    {
        if bytes.len() > WASIP1_STREAM_CHUNK_CAPACITY {
            return Err(ProtocolError::TooLarge);
        }
        Ok(Self { lease_id, bytes: slice_to_vec(bytes) })
    }

    /// The same bytes bound to another lease.
    pub fn with_lease(&self, lease_id: u8) -> (out: Self)
        ensures
            out.lease_id == lease_id,
            out.bytes@ == self.bytes@,
    {
        Self { lease_id, bytes: slice_to_vec(self.bytes.as_slice()) }
    }

    pub fn lease_id(&self) -> (out: u8)
        ensures
            out == self.lease_id,
    {
        self.lease_id
    }

    pub fn len(&self) -> (out: usize)
        ensures
            out == self.bytes@.len(),
    {
        self.bytes.len()
    }

    pub fn as_bytes(&self) -> (out: &[u8])
        ensures
            out@ == self.bytes@,
    {
        self.bytes.as_slice()
    }
}

/// A request to read at most `max_len` bytes from stdin into a write lease.
#[derive(Clone, Copy, Debug, PartialEq, Eq, Structural)]
pub struct StdinRequest {
    pub lease_id: u8,
    pub max_len: u8,
}

impl StdinRequest {
    pub fn new(max_len: u8) -> (out: Result<Self, ProtocolError>)
        ensures
            max_len <= WASIP1_STREAM_CHUNK_CAPACITY <==> out is Ok,
            out is Ok ==> out->Ok_0 == (StdinRequest { lease_id: MEM_LEASE_NONE, max_len }),
            out is Err ==> out->Err_0 == ProtocolError::TooLarge,
    {
        Self::new_with_lease(MEM_LEASE_NONE, max_len)
    }

    pub fn new_with_lease(lease_id: u8, max_len: u8) -> (out: Result<Self, ProtocolError>)
        ensures
            max_len <= WASIP1_STREAM_CHUNK_CAPACITY <==> out is Ok,
            out is Ok ==> out->Ok_0 == (StdinRequest { lease_id, max_len }),
            out is Err ==> out->Err_0 == ProtocolError::TooLarge,
    {
        if max_len as usize > WASIP1_STREAM_CHUNK_CAPACITY {
            return Err(ProtocolError::TooLarge);
        }
        Ok(Self { lease_id, max_len })
    }

    pub fn lease_id(&self) -> (out: u8)
        ensures
            out == self.lease_id,
    {
        self.lease_id
    }

    pub fn max_len(&self) -> (out: u8)
        ensures
            out == self.max_len,
    {
        self.max_len
    }
}

/// A guest `fd_write` of bytes held in a read lease.
#[derive(Clone, Debug, PartialEq, Eq)]
pub struct FdWrite {
    pub fd: u8,
    pub lease_id: u8,
    pub bytes: Vec<u8>,
}

impl FdWrite {
    pub fn new(fd: u8, bytes: &[u8]) -> (out: Result<Self, ProtocolError>)
        ensures
            bytes@.len() <= WASIP1_STREAM_CHUNK_CAPACITY <==> out is Ok,
            out is Ok ==> out->Ok_0.fd == fd && out->Ok_0.lease_id == MEM_LEASE_NONE
                && out->Ok_0.bytes@ == bytes@,
            out is Err ==> out->Err_0 == ProtocolError::TooLarge,
    {
        Self::new_with_lease(fd, MEM_LEASE_NONE, bytes)
    }

    pub fn new_with_lease(fd: u8, lease_id: u8, bytes: &[u8]) -> (out: Result<Self, ProtocolError>)
        ensures
            bytes@.len() <= WASIP1_STREAM_CHUNK_CAPACITY <==> out is Ok,
            out is Ok ==> out->Ok_0.fd == fd && out->Ok_0.lease_id == lease_id
                && out->Ok_0.bytes@ == bytes@,
            out is Err ==> out->Err_0 == ProtocolError::TooLarge,
    {
        if bytes.len() > WASIP1_STREAM_CHUNK_CAPACITY {
            return Err(ProtocolError::TooLarge);
        }
        Ok(Self { fd, lease_id, bytes: slice_to_vec(bytes) })
    }

    pub fn fd(&self) -> (out: u8)
        ensures
            out == self.fd,
    {
        self.fd
    }

    pub fn lease_id(&self) -> (out: u8)
        ensures
            out == self.lease_id,
    {
        self.lease_id
    }

    pub fn len(&self) -> (out: usize)
        ensures
            out == self.bytes@.len(),
    {
        self.bytes.len()
    }

    pub fn as_bytes(&self) -> (out: &[u8])
        ensures
            out@ == self.bytes@,
    {
        self.bytes.as_slice()
    }
}

/// A guest `fd_read` of at most `max_len` bytes into a write lease.
#[derive(Clone, Copy, Debug, PartialEq, Eq, Structural)]
pub struct FdRead {
    pub fd: u8,
    pub lease_id: u8,
    pub max_len: u8,
}

impl FdRead {
    pub fn new_with_lease(fd: u8, lease_id: u8, max_len: u8) -> (out: Result<Self, ProtocolError>)
        ensures
            max_len <= WASIP1_STREAM_CHUNK_CAPACITY <==> out is Ok,
            out is Ok ==> out->Ok_0 == (FdRead { fd, lease_id, max_len }),
            out is Err ==> out->Err_0 == ProtocolError::TooLarge,
    {
        if max_len as usize > WASIP1_STREAM_CHUNK_CAPACITY {
            return Err(ProtocolError::TooLarge);
        }
        Ok(Self { fd, lease_id, max_len })
    }

    pub fn fd(&self) -> (out: u8)
        ensures
            out == self.fd,
    {
        self.fd
    }

    pub fn lease_id(&self) -> (out: u8)
        ensures
            out == self.lease_id,
    {
        self.lease_id
    }

    pub fn max_len(&self) -> (out: u8)
        ensures
            out == self.max_len,
    {
        self.max_len
    }
}

/// The bytes an `fd_read` answers, through a write lease.
#[derive(Clone, Debug, PartialEq, Eq)]
pub struct FdReadDone {
    pub fd: u8,
    pub lease_id: u8,
    pub bytes: Vec<u8>,
}

impl FdReadDone {
    pub fn new_with_lease(fd: u8, lease_id: u8, bytes: &[u8]) -> (out: Result<Self, ProtocolError>)
        ensures
            bytes@.len() <= WASIP1_STREAM_CHUNK_CAPACITY <==> out is Ok,
            out is Ok ==> out->Ok_0.fd == fd && out->Ok_0.lease_id == lease_id
                && out->Ok_0.bytes@ == bytes@,
            out is Err ==> out->Err_0 == ProtocolError::TooLarge,
    {
        if bytes.len() > WASIP1_STREAM_CHUNK_CAPACITY {
            return Err(ProtocolError::TooLarge);
        }
        Ok(Self { fd, lease_id, bytes: slice_to_vec(bytes) })
    }

    pub fn fd(&self) -> (out: u8)
        ensures
            out == self.fd,
    {
        self.fd
    }

    pub fn as_bytes(&self) -> (out: &[u8])
        ensures
            out@ == self.bytes@,
    {
        self.bytes.as_slice()
    }
}

/// A guest `path_open` of `path` under the preopen `fd`, with lookup flags and base rights.
#[derive(Clone, Debug, PartialEq, Eq)]
pub struct PathOpen {
    pub fd: u8,
    pub lookup_flags: u32,
    pub rights_base: u64,
    pub path: Vec<u8>,
}

impl PathOpen {
    pub fn new(fd: u8, lookup_flags: u32, rights_base: u64, path: &[u8]) -> (out: Result<Self, ProtocolError>)
        ensures
            path@.len() <= WASIP1_STREAM_CHUNK_CAPACITY <==> out is Ok,
            out is Ok ==> out->Ok_0.fd == fd && out->Ok_0.lookup_flags == lookup_flags
                && out->Ok_0.rights_base == rights_base && out->Ok_0.path@ == path@,
            out is Err ==> out->Err_0 == ProtocolError::TooLarge,
    {
        if path.len() > WASIP1_STREAM_CHUNK_CAPACITY {
            return Err(ProtocolError::TooLarge);
        }
        Ok(Self { fd, lookup_flags, rights_base, path: slice_to_vec(path) })
    }

    pub fn fd(&self) -> (out: u8)
        ensures
            out == self.fd,
    {
        self.fd
    }

    pub fn path(&self) -> (out: &[u8])
        ensures
            out@ == self.path@,
    {
        self.path.as_slice()
    }
}

/// One chunk of an image transfer, placed at `offset` of the slot.
#[derive(Clone, Debug, PartialEq, Eq)]
pub struct MgmtImageChunk {
    pub slot: u8,
    pub offset: u32,
    pub bytes: Vec<u8>,
}

impl MgmtImageChunk {
    pub fn new(slot: u8, offset: u32, bytes: &[u8]) -> (out: Result<Self, ProtocolError>)
        ensures
            bytes@.len() <= MGMT_IMAGE_CHUNK_CAPACITY <==> out is Ok,
            out is Ok ==> out->Ok_0.slot == slot && out->Ok_0.offset == offset
                && out->Ok_0.bytes@ == bytes@,
            out is Err ==> out->Err_0 == ProtocolError::TooLarge,
    {
        if bytes.len() > MGMT_IMAGE_CHUNK_CAPACITY {
            return Err(ProtocolError::TooLarge);
        }
        Ok(Self { slot, offset, bytes: slice_to_vec(bytes) })
    }

    pub fn slot(&self) -> (out: u8)
        ensures
            out == self.slot,
    {
        self.slot
    }

    pub fn offset(&self) -> (out: u32)
        ensures
            out == self.offset,
    {
        self.offset
    }

    pub fn len(&self) -> (out: usize)
        ensures
            out == self.bytes@.len(),
    {
        self.bytes.len()
    }

    pub fn as_bytes(&self) -> (out: &[u8])
        ensures
            out@ == self.bytes@,
    {
        self.bytes.as_slice()
    }
}

} // verus!
