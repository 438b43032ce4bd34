//! Guest memory leases: bounded, epoch-stamped windows of linear memory lent to a syscall.
use vstd::prelude::*;
use crate::seqs::{first_index, count, count_upto, lemma_first_index, lemma_first_index_at, lemma_count_upto_bound};
use crate::choreography::protocol::{
    MemBorrow, MemCommit, MemFence, MemGrant, MemRelease, MemRights, StdinRequest, Wasip1StreamChunk,
    MEM_LEASE_NONE, WASIP1_STREAM_CHUNK_CAPACITY,
};

verus! {

/// Why a memory lease request is rejected.
#[derive(Clone, Copy, Debug, PartialEq, Eq, Structural)]
pub enum MemoryLeaseError {
    Empty,
    TooLarge,
    EpochMismatch,
    OutOfBounds,
    TableFull,
    InvalidLeaseId,
    UnknownLease,
    RightsMismatch,
    LeaseMismatch,
    LengthExceeded,
}

/// Counters of rejected memory-lease requests, grouped by cause.
#[derive(Clone, Copy, Debug, Default, PartialEq, Eq, Structural)]
pub struct MemoryLeaseRejectionTelemetry {
    pub bad_generation: u16,
    pub invalid_lease: u16,
    pub rights_mismatch: u16,
    pub length_exceeded: u16,
    pub out_of_bounds: u16,
    pub table_full: u16,
    pub other: u16,
}

impl MemoryLeaseRejectionTelemetry {
    pub open spec fn zero() -> Self {
        MemoryLeaseRejectionTelemetry { bad_generation: 0, invalid_lease: 0, rights_mismatch: 0, length_exceeded: 0, out_of_bounds: 0, table_full: 0, other: 0 }
    }

    pub fn new() -> (out: Self)
        ensures
            out == Self::zero(),
    {
        MemoryLeaseRejectionTelemetry { bad_generation: 0, invalid_lease: 0, rights_mismatch: 0, length_exceeded: 0, out_of_bounds: 0, table_full: 0, other: 0 }
    }

    pub fn bad_generation(self) -> (out: u16)
        ensures
            out == self.bad_generation,
    {
        self.bad_generation
    }

    pub fn invalid_lease(self) -> (out: u16)
        ensures
            out == self.invalid_lease,
    {
        self.invalid_lease
    }

    pub fn rights_mismatch(self) -> (out: u16)
        ensures
            out == self.rights_mismatch,
    {
        self.rights_mismatch
    }

    pub fn length_exceeded(self) -> (out: u16)
        ensures
            out == self.length_exceeded,
    {
        self.length_exceeded
    }

    pub fn out_of_bounds(self) -> (out: u16)
        ensures
            out == self.out_of_bounds,
    {
        self.out_of_bounds
    }

    pub fn table_full(self) -> (out: u16)
        ensures
            out == self.table_full,
    {
        self.table_full
    }

    pub fn other(self) -> (out: u16)
        ensures
            out == self.other,
    {
        self.other
    }

    pub open spec fn spec_total(self) -> u16 {
        self.bad_generation.saturating_add(self.invalid_lease.saturating_add(self.rights_mismatch.saturating_add(self.length_exceeded.saturating_add(self.out_of_bounds.saturating_add(self.table_full.saturating_add(self.other))))))
    }

    /// The sum of every counter, saturating at each step.
    pub fn total(self) -> (out: u16)
        ensures
            out == self.spec_total(),
    {
        self.bad_generation.saturating_add(self.invalid_lease.saturating_add(self.rights_mismatch.saturating_add(self.length_exceeded.saturating_add(self.out_of_bounds.saturating_add(self.table_full.saturating_add(self.other))))))
    }

    /// The counters after one rejection with `error`.
    pub open spec fn recorded(self, error: MemoryLeaseError) -> Self {
        match error {
            MemoryLeaseError::EpochMismatch => MemoryLeaseRejectionTelemetry { bad_generation: self.bad_generation.saturating_add(1), ..self },
            MemoryLeaseError::InvalidLeaseId | MemoryLeaseError::UnknownLease | MemoryLeaseError::LeaseMismatch =>
                MemoryLeaseRejectionTelemetry { invalid_lease: self.invalid_lease.saturating_add(1), ..self },
            MemoryLeaseError::RightsMismatch => MemoryLeaseRejectionTelemetry { rights_mismatch: self.rights_mismatch.saturating_add(1), ..self },
            MemoryLeaseError::LengthExceeded | MemoryLeaseError::TooLarge =>
                MemoryLeaseRejectionTelemetry { length_exceeded: self.length_exceeded.saturating_add(1), ..self },
            MemoryLeaseError::OutOfBounds => MemoryLeaseRejectionTelemetry { out_of_bounds: self.out_of_bounds.saturating_add(1), ..self },
            MemoryLeaseError::TableFull => MemoryLeaseRejectionTelemetry { table_full: self.table_full.saturating_add(1), ..self },
            MemoryLeaseError::Empty => MemoryLeaseRejectionTelemetry { other: self.other.saturating_add(1), ..self },
        }
    }

    fn record(&mut self, error: MemoryLeaseError)
        ensures
            *final(self) == old(self).recorded(error),
    {
        match error {
            MemoryLeaseError::EpochMismatch => self.bad_generation = self.bad_generation.saturating_add(1),
            MemoryLeaseError::InvalidLeaseId | MemoryLeaseError::UnknownLease | MemoryLeaseError::LeaseMismatch =>
                self.invalid_lease = self.invalid_lease.saturating_add(1),
            MemoryLeaseError::RightsMismatch => self.rights_mismatch = self.rights_mismatch.saturating_add(1),
            MemoryLeaseError::LengthExceeded | MemoryLeaseError::TooLarge =>
                self.length_exceeded = self.length_exceeded.saturating_add(1),
            MemoryLeaseError::OutOfBounds => self.out_of_bounds = self.out_of_bounds.saturating_add(1),
            MemoryLeaseError::TableFull => self.table_full = self.table_full.saturating_add(1),
            MemoryLeaseError::Empty => self.other = self.other.saturating_add(1),
        }
    }
}

pub open spec fn lease_slot(lease_id: u8) -> spec_fn(Option<MemGrant>) -> bool {
    |g: Option<MemGrant>| g is Some && g->Some_0.lease_id == lease_id
}

pub open spec fn empty_lease_slot() -> spec_fn(Option<MemGrant>) -> bool {
    |g: Option<MemGrant>| g is None
}

pub open spec fn held_lease_slot() -> spec_fn(Option<MemGrant>) -> bool {
    |g: Option<MemGrant>| g is Some
}

/// Whether some slot holds a lease with id `id`.
pub open spec fn lease_id_in_use(s: Seq<Option<MemGrant>>, id: int) -> bool {
    exists|i: int| 0 <= i < s.len() && (#[trigger] s[i]) is Some && s[i]->Some_0.lease_id == id
}

/// The smallest lease id at or after `candidate` (up to 255) that no slot uses.
pub open spec fn free_lease_id_from(s: Seq<Option<MemGrant>>, candidate: int) -> Option<u8>
    decreases 256 - candidate,
{
    if candidate > 255 || candidate < 1 {
        None
    } else if candidate != MEM_LEASE_NONE && !lease_id_in_use(s, candidate) {
        Some(candidate as u8)
    } else {
        free_lease_id_from(s, candidate + 1)
    }
}

/// The grant of the first slot holding `lease_id`.
pub open spec fn spec_get_lease(s: Seq<Option<MemGrant>>, lease_id: u8) -> Result<MemGrant, MemoryLeaseError> {
    if lease_id == MEM_LEASE_NONE {
        Err(MemoryLeaseError::InvalidLeaseId)
    } else {
        let i = first_index(s, lease_slot(lease_id));
        if i < s.len() { Ok(s[i]->Some_0) } else { Err(MemoryLeaseError::UnknownLease) }
    }
}

/// A lease checked for rights and for a length it must cover.
pub open spec fn spec_check_lease(
    r: Result<MemGrant, MemoryLeaseError>,
    rights: MemRights,
    len: int,
) -> Result<(), MemoryLeaseError> {
    match r {
        Err(e) => Err(e),
        Ok(g) => if g.rights != rights {
            Err(MemoryLeaseError::RightsMismatch)
        } else if len > g.len {
            Err(MemoryLeaseError::LengthExceeded)
        } else {
            Ok(())
        },
    }
}

/// Granting a borrow: the error, or the slot it lands in and the lease id it gets.
pub open spec fn spec_grant(
    s: Seq<Option<MemGrant>>,
    memory_len: u32,
    epoch: u32,
    borrow: MemBorrow,
    rights: MemRights,
) -> Result<(int, MemGrant), MemoryLeaseError> {
    if borrow.len == 0 {
        Err(MemoryLeaseError::Empty)
    } else if borrow.len > WASIP1_STREAM_CHUNK_CAPACITY {
        Err(MemoryLeaseError::TooLarge)
    } else if borrow.epoch != epoch {
        Err(MemoryLeaseError::EpochMismatch)
    } else if borrow.ptr + borrow.len > memory_len {
        Err(MemoryLeaseError::OutOfBounds)
    } else if first_index(s, empty_lease_slot()) >= s.len() {
        Err(MemoryLeaseError::TableFull)
    } else {
        match free_lease_id_from(s, 1) {
            None => Err(MemoryLeaseError::TableFull),
            Some(id) => Ok((first_index(s, empty_lease_slot()), MemGrant {
                lease_id: id, ptr: borrow.ptr, len: borrow.len, epoch: borrow.epoch, rights,
            })),
        }
    }
}

pub open spec fn lease_telemetry_after<T>(t: MemoryLeaseRejectionTelemetry, r: Result<T, MemoryLeaseError>) -> MemoryLeaseRejectionTelemetry {
    match r {
        Ok(_) => t,
        Err(e) => t.recorded(e),
    }
}

/// The leases of one guest memory of `memory_len` bytes at one epoch, in `N` slots.
pub struct MemoryLeaseTable<const N: usize> {
    memory_len: u32,
    epoch: u32,
    slots: Vec<Option<MemGrant>>,
    rejection_telemetry: MemoryLeaseRejectionTelemetry,
}

impl<const N: usize> MemoryLeaseTable<N> {
    pub closed spec fn view(&self) -> Seq<Option<MemGrant>> {
        self.slots@
    }

    pub closed spec fn spec_memory_len(&self) -> u32 {
        self.memory_len
    }

    pub closed spec fn spec_epoch(&self) -> u32 {
        self.epoch
    }

    pub closed spec fn telemetry(&self) -> MemoryLeaseRejectionTelemetry {
        self.rejection_telemetry
    }

    pub closed spec fn wf(&self) -> bool {
        self.slots@.len() == N
    }

    pub fn new(memory_len: u32, epoch: u32) -> (out: Self)
        ensures
            out.wf(),
            out@ == Seq::new(N as nat, |i: int| None::<MemGrant>),
            out.spec_memory_len() == memory_len,
            out.spec_epoch() == epoch,
            out.telemetry() == MemoryLeaseRejectionTelemetry::zero(),
    {
        let mut slots: Vec<Option<MemGrant>> = Vec::new();
        let mut i: usize = 0;
        while i < N
            invariant
                i <= N,
                slots@ == Seq::new(i as nat, |j: int| None::<MemGrant>),
            decreases N - i,
        {
            slots.push(None);
            i = i + 1;
        }
        Self { memory_len, epoch, slots, rejection_telemetry: MemoryLeaseRejectionTelemetry::new() }
    }

    pub fn epoch(&self) -> (out: u32)
        ensures
            out == self.spec_epoch(),
    {
        self.epoch
    }

    pub fn has_outstanding_leases(&self) -> (out: bool)
        requires
            self.wf(),
        ensures
            out == (count(self@, held_lease_slot()) > 0),
    {
        self.held_count() != 0
    }

    fn held_count(&self) -> (out: usize)
        requires
            self.wf(),
        ensures
            out == count(self@, held_lease_slot()),
    {
        let ghost s = self@;
        let mut n: usize = 0;
        let mut i: usize = 0;
        while i < self.slots.len()
            invariant
                s == self@,
                self.slots@.len() == N,
                i <= N,
                n == count_upto(s, held_lease_slot(), i as int),
            decreases N - i,
        {
            proof { lemma_count_upto_bound(s, held_lease_slot(), i as int); }
            if self.slots[i].is_some() {
                n = n + 1;
            }
            i = i + 1;
        }
        n
    }

    /// The number of held leases, as a byte (it wraps past 255).
    pub fn outstanding_lease_count(&self) -> (out: u8)
        requires
            self.wf(),
        ensures
            out == count(self@, held_lease_slot()) as u8,
    {
        let n = self.held_count();
        n as u8
    }

    pub fn rejection_telemetry(&self) -> (out: MemoryLeaseRejectionTelemetry)
        ensures
            out == self.telemetry(),
    {
        self.rejection_telemetry
    }

    fn record_rejection(&mut self, error: MemoryLeaseError) -> (out: MemoryLeaseError)
        requires
            old(self).wf(),
        ensures
            final(self).wf(),
            out == error,
            final(self)@ == old(self)@,
            final(self).spec_epoch() == old(self).spec_epoch(),
            final(self).spec_memory_len() == old(self).spec_memory_len(),
            final(self).telemetry() == old(self).telemetry().recorded(error),
    {
        self.rejection_telemetry.record(error);
        error
    }

    pub fn grant_read(&mut self, borrow: MemBorrow) -> (out: Result<MemGrant, MemoryLeaseError>)
        requires
            old(self).wf(),
        ensures
            final(self).wf(),
            final(self).spec_epoch() == old(self).spec_epoch(),
            final(self).spec_memory_len() == old(self).spec_memory_len(),
            ({
                let r = spec_grant(old(self)@, old(self).spec_memory_len(), old(self).spec_epoch(), borrow, MemRights::Read);
                match r {
                    Ok(p) => out == Ok::<MemGrant, MemoryLeaseError>(p.1) && final(self)@ == old(self)@.update(p.0, Some(p.1)),
                    Err(e) => out == Err::<MemGrant, MemoryLeaseError>(e) && final(self)@ == old(self)@,
                }
            }),
            final(self).telemetry() == lease_telemetry_after(old(self).telemetry(), out),
    {
        self.grant(borrow, MemRights::Read)
    }

    pub fn grant_write(&mut self, borrow: MemBorrow) -> (out: Result<MemGrant, MemoryLeaseError>)
        requires
            old(self).wf(),
        ensures
            final(self).wf(),
            final(self).spec_epoch() == old(self).spec_epoch(),
            final(self).spec_memory_len() == old(self).spec_memory_len(),
            ({
                let r = spec_grant(old(self)@, old(self).spec_memory_len(), old(self).spec_epoch(), borrow, MemRights::Write);
                match r {
                    Ok(p) => out == Ok::<MemGrant, MemoryLeaseError>(p.1) && final(self)@ == old(self)@.update(p.0, Some(p.1)),
                    Err(e) => out == Err::<MemGrant, MemoryLeaseError>(e) && final(self)@ == old(self)@,
                }
            }),
            final(self).telemetry() == lease_telemetry_after(old(self).telemetry(), out),
    {
        self.grant(borrow, MemRights::Write)
    }

    fn first_empty(&self) -> (out: usize)
        requires
            self.wf(),
        ensures
            out as int == first_index(self@, empty_lease_slot()),
            out <= N,
    {
        let ghost s = self@;
        let mut i: usize = 0;
        proof { lemma_first_index(s, empty_lease_slot()); }
        while i < self.slots.len()
            invariant
                s == self@,
                self.slots@.len() == N,
                i <= N,
                forall|j: int| 0 <= j < i ==> !empty_lease_slot()(#[trigger] s[j]),
            decreases N - i,
        {
            if self.slots[i].is_none() {
                proof { lemma_first_index_at(s, empty_lease_slot(), i as int); }
                return i;
            }
            i = i + 1;
        }
        proof {
            lemma_first_index(s, empty_lease_slot());
            if first_index(s, empty_lease_slot()) < s.len() {
                let f = first_index(s, empty_lease_slot());
                assert(empty_lease_slot()(s[f]));
            }
        }
        i
    }

    fn find_lease(&self, lease_id: u8) -> (out: usize)
        requires
            self.wf(),
        ensures
            out as int == first_index(self@, lease_slot(lease_id)),
            out <= N,
    {
        let ghost s = self@;
        let mut i: usize = 0;
        proof { lemma_first_index(s, lease_slot(lease_id)); }
        while i < self.slots.len()
            invariant
                s == self@,
                self.slots@.len() == N,
                i <= N,
                forall|j: int| 0 <= j < i ==> !lease_slot(lease_id)(#[trigger] s[j]),
            decreases N - i,
        {
            match self.slots[i] {
                Some(grant) => {
                    if grant.lease_id == lease_id {
                        proof { lemma_first_index_at(s, lease_slot(lease_id), i as int); }
                        return i;
                    }
                },
                None => {},
            }
            i = i + 1;
        }
        proof {
            lemma_first_index(s, lease_slot(lease_id));
            if first_index(s, lease_slot(lease_id)) < s.len() {
                let f = first_index(s, lease_slot(lease_id));
                assert(lease_slot(lease_id)(s[f]));
            }
        }
        i
    }

    fn lease_in_use(&self, id: u8) -> (out: bool)
        requires
            self.wf(),
        ensures
            out == lease_id_in_use(self@, id as int),
    {
        let i = self.find_lease(id);
        proof {
            lemma_first_index(self@, lease_slot(id));
            if lease_id_in_use(self@, id as int) {
                let w = choose|w: int| 0 <= w < self@.len() && (#[trigger] self@[w]) is Some && self@[w]->Some_0.lease_id == id as int;
                assert(lease_slot(id)(self@[w]));
            }
        }
        i < self.slots.len()
    }

    fn allocate_lease_id(&self) -> (out: Option<u8>)
        requires
            self.wf(),
        ensures
            out == free_lease_id_from(self@, 1),
    {
        let mut candidate: u16 = 1;
        while candidate <= 255
            invariant
                self.wf(),
                1 <= candidate <= 256,
                free_lease_id_from(self@, 1) == free_lease_id_from(self@, candidate as int),
            decreases 256 - candidate,
        {
            let c = candidate as u8;
            if c != MEM_LEASE_NONE && !self.lease_in_use(c) {
                return Some(c);
            }
            candidate = candidate + 1;
        }
        None
    }

    fn grant(&mut self, borrow: MemBorrow, rights: MemRights) -> (out: Result<MemGrant, MemoryLeaseError>)
        requires
            old(self).wf(),
        ensures
            final(self).wf(),
            final(self).spec_epoch() == old(self).spec_epoch(),
            final(self).spec_memory_len() == old(self).spec_memory_len(),
            ({
                let r = spec_grant(old(self)@, old(self).spec_memory_len(), old(self).spec_epoch(), borrow, rights);
                match r {
                    Ok(p) => out == Ok::<MemGrant, MemoryLeaseError>(p.1) && final(self)@ == old(self)@.update(p.0, Some(p.1)),
                    Err(e) => out == Err::<MemGrant, MemoryLeaseError>(e) && final(self)@ == old(self)@,
                }
            }),
            final(self).telemetry() == lease_telemetry_after(old(self).telemetry(), out),
    {
        if borrow.len == 0 {
            return Err(self.record_rejection(MemoryLeaseError::Empty));
        }
        if borrow.len as usize > WASIP1_STREAM_CHUNK_CAPACITY {
            return Err(self.record_rejection(MemoryLeaseError::TooLarge));
        }
        if borrow.epoch != self.epoch {
            return Err(self.record_rejection(MemoryLeaseError::EpochMismatch));
        }
        let end = match borrow.ptr.checked_add(borrow.len as u32) {
            Some(end) => end,
            None => return Err(self.record_rejection(MemoryLeaseError::OutOfBounds)),
        };
        if end > self.memory_len {
            return Err(self.record_rejection(MemoryLeaseError::OutOfBounds));
        }
        let slot_index = self.first_empty();
        if slot_index >= self.slots.len() {
            return Err(self.record_rejection(MemoryLeaseError::TableFull));
        }
        let lease_id = match self.allocate_lease_id() {
            Some(lease_id) => lease_id,
            None => return Err(self.record_rejection(MemoryLeaseError::TableFull)),
        };
        let grant = MemGrant::new(lease_id, borrow.ptr, borrow.len, borrow.epoch, rights);
        self.slots.set(slot_index, Some(grant));
        Ok(grant)
    }

    fn get(&mut self, lease_id: u8) -> (out: Result<MemGrant, MemoryLeaseError>)
        requires
            old(self).wf(),
        ensures
            final(self).wf(),
            out == spec_get_lease(old(self)@, lease_id),
            final(self)@ == old(self)@,
            final(self).spec_epoch() == old(self).spec_epoch(),
            final(self).spec_memory_len() == old(self).spec_memory_len(),
            final(self).telemetry() == lease_telemetry_after(old(self).telemetry(), out),
    {
        if lease_id == MEM_LEASE_NONE {
            return Err(self.record_rejection(MemoryLeaseError::InvalidLeaseId));
        }
        let i = self.find_lease(lease_id);
        proof { lemma_first_index(self@, lease_slot(lease_id)); }
        if i < self.slots.len() {
            match self.slots[i] {
                Some(grant) => return Ok(grant),
                None => {},
            }
        }
        Err(self.record_rejection(MemoryLeaseError::UnknownLease))
    }

    fn check(&mut self, lease_id: u8, rights: MemRights, len: usize) -> (out: Result<(), MemoryLeaseError>)
        requires
            old(self).wf(),
        ensures
            final(self).wf(),
            out == spec_check_lease(spec_get_lease(old(self)@, lease_id), rights, len as int),
            final(self)@ == old(self)@,
            final(self).spec_epoch() == old(self).spec_epoch(),
            final(self).spec_memory_len() == old(self).spec_memory_len(),
            final(self).telemetry() == lease_telemetry_after(old(self).telemetry(), out),
    {
        let grant = self.get(lease_id)?;
        if grant.rights != rights {
            return Err(self.record_rejection(MemoryLeaseError::RightsMismatch));
        }
        if len > grant.len as usize {
            return Err(self.record_rejection(MemoryLeaseError::LengthExceeded));
        }
        Ok(())
    }

    /// A read lease must cover the chunk it streams.
    pub fn validate_read_chunk(&mut self, chunk: &Wasip1StreamChunk) -> (out: Result<(), MemoryLeaseError>)
        requires
            old(self).wf(),
        ensures
            final(self).wf(),
            out == spec_check_lease(spec_get_lease(old(self)@, chunk.lease_id), MemRights::Read, chunk.bytes@.len() as int),
            final(self)@ == old(self)@,
            final(self).spec_epoch() == old(self).spec_epoch(),
            final(self).spec_memory_len() == old(self).spec_memory_len(),
            final(self).telemetry() == lease_telemetry_after(old(self).telemetry(), out),
    {
        self.check(chunk.lease_id, MemRights::Read, chunk.len())
    }

    /// A write lease must cover the request's length.
    pub fn validate_write_request(&mut self, chunk: &StdinRequest) -> (out: Result<(), MemoryLeaseError>)
        requires
            old(self).wf(),
        ensures
            final(self).wf(),
            out == spec_check_lease(spec_get_lease(old(self)@, chunk.lease_id), MemRights::Write, chunk.max_len as int),
            final(self)@ == old(self)@,
            final(self).spec_epoch() == old(self).spec_epoch(),
            final(self).spec_memory_len() == old(self).spec_memory_len(),
            final(self).telemetry() == lease_telemetry_after(old(self).telemetry(), out),
    {
        self.check(chunk.lease_id, MemRights::Write, chunk.max_len() as usize)
    }

    /// A write lease must cover the chunk written through it.
    pub fn validate_write_chunk(&mut self, chunk: &Wasip1StreamChunk) -> (out: Result<(), MemoryLeaseError>)
        requires
            old(self).wf(),
        ensures
            final(self).wf(),
            out == spec_check_lease(spec_get_lease(old(self)@, chunk.lease_id), MemRights::Write, chunk.bytes@.len() as int),
            final(self)@ == old(self)@,
            final(self).spec_epoch() == old(self).spec_epoch(),
            final(self).spec_memory_len() == old(self).spec_memory_len(),
            final(self).telemetry() == lease_telemetry_after(old(self).telemetry(), out),
    {
        self.check(chunk.lease_id, MemRights::Write, chunk.len())
    }

    /// A commit must name a write lease that covers what was written.
    pub fn commit(&mut self, chunk: MemCommit) -> (out: Result<(), MemoryLeaseError>)
        requires
            old(self).wf(),
        ensures
            final(self).wf(),
            out == spec_check_lease(spec_get_lease(old(self)@, chunk.lease_id), MemRights::Write, chunk.written as int),
            final(self)@ == old(self)@,
            final(self).spec_epoch() == old(self).spec_epoch(),
            final(self).spec_memory_len() == old(self).spec_memory_len(),
            final(self).telemetry() == lease_telemetry_after(old(self).telemetry(), out),
    {
        self.check(chunk.lease_id, MemRights::Write, chunk.written as usize)
    }

    pub fn release(&mut self, release: MemRelease) -> (out: Result<MemGrant, MemoryLeaseError>)
        requires
            old(self).wf(),
        ensures
            final(self).wf(),
            out == spec_get_lease(old(self)@, release.lease_id),
            out is Ok ==> final(self)@ == old(self)@.update(first_index(old(self)@, lease_slot(release.lease_id)), None),
            out is Err ==> final(self)@ == old(self)@,
            final(self).spec_epoch() == old(self).spec_epoch(),
            final(self).spec_memory_len() == old(self).spec_memory_len(),
            final(self).telemetry() == lease_telemetry_after(old(self).telemetry(), out),
    {
        let lease_id = release.lease_id;
        if lease_id == MEM_LEASE_NONE {
            return Err(self.record_rejection(MemoryLeaseError::InvalidLeaseId));
        }
        let i = self.find_lease(lease_id);
        proof { lemma_first_index(self@, lease_slot(lease_id)); }
        if i < self.slots.len() {
            match self.slots[i] {
                Some(grant) => {
                    self.slots.set(i, None);
                    return Ok(grant);
                },
                None => {},
            }
        }
        Err(self.record_rejection(MemoryLeaseError::UnknownLease))
    }

    /// Every lease is revoked and the table moves to the fence's epoch.
    pub fn fence(&mut self, fence: MemFence)
        requires
            old(self).wf(),
        ensures
            final(self).wf(),
            final(self)@ == Seq::new(N as nat, |i: int| None::<MemGrant>),
            final(self).spec_epoch() == fence.new_epoch,
            final(self).spec_memory_len() == old(self).spec_memory_len(),
            final(self).telemetry() == old(self).telemetry(),
    {
        let mut i: usize = 0;
        while i < self.slots.len()
            invariant
                self.wf(),
                i <= N,
                forall|j: int| 0 <= j < i ==> (#[trigger] self.slots@[j]) is None,
                self.spec_memory_len() == old(self).spec_memory_len(),
                self.spec_epoch() == old(self).spec_epoch(),
                self.telemetry() == old(self).telemetry(),
            decreases N - i,
        {
            self.slots.set(i, None);
            i = i + 1;
        }
        self.epoch = fence.new_epoch;
        assert(self@ =~= Seq::new(N as nat, |i: int| None::<MemGrant>));
    }
}

} // verus!
