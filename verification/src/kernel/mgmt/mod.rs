//! Management: image transfer into slots, validation, fenced activation with rollback,
//! and the grants that authorize each step.
use vstd::prelude::*;
use crate::choreography::protocol::{
    MGMT_IMAGE_CHUNK_CAPACITY, MgmtImageActivate, MgmtImageBegin, MgmtImageChunk, MgmtImageEnd,
    MgmtImageRollback, MgmtStatus, MgmtStatusCode,
};
use crate::kernel::swarm::{NodeId, SwarmCredential};
use crate::kernel::wasi::{Wasip1Error, Wasip1Module, spec_install};

mod grant;
mod lifecycle;
pub use grant::{MgmtInstallGrant, MgmtControl, spec_install_tag, spec_grant_verify, lemma_grant_verifies_for_what_it_names};
pub use lifecycle::{
    ActivationBoundary, TopologyLifecycleError, TopologyLifecycle, lemma_topology_commit_needs_begin_and_ack,
    lemma_require_committed_exact,
};

verus! {

/// Why a management request is refused.
#[derive(Clone, Copy, Debug, PartialEq, Eq, Structural)]
pub enum ImageSlotError {
    BadSlot,
    BadChunkIndex,
    ImageTooLarge,
    OffsetMismatch,
    LengthMismatch,
    InvalidImage(Wasip1Error),
    NeedFence,
    BadFenceEpoch,
    AuthFailed,
    BadSessionGeneration,
    RollbackEmpty,
}

pub open spec fn spec_status_code(e: ImageSlotError) -> MgmtStatusCode {
    match e {
        ImageSlotError::BadSlot => MgmtStatusCode::BadSlot,
        ImageSlotError::BadChunkIndex => MgmtStatusCode::BadChunkIndex,
        ImageSlotError::ImageTooLarge => MgmtStatusCode::ImageTooLarge,
        ImageSlotError::OffsetMismatch => MgmtStatusCode::OffsetMismatch,
        ImageSlotError::LengthMismatch => MgmtStatusCode::LengthMismatch,
        ImageSlotError::InvalidImage(_) => MgmtStatusCode::InvalidImage,
        ImageSlotError::NeedFence => MgmtStatusCode::NeedFence,
        ImageSlotError::BadFenceEpoch => MgmtStatusCode::BadFenceEpoch,
        ImageSlotError::AuthFailed => MgmtStatusCode::AuthFailed,
        ImageSlotError::BadSessionGeneration => MgmtStatusCode::BadSessionGeneration,
        ImageSlotError::RollbackEmpty => MgmtStatusCode::RollbackEmpty,
    }
}

impl ImageSlotError {
    pub fn status_code(&self) -> (out: MgmtStatusCode)
        ensures
            out == spec_status_code(*self),
    {
        match self {
            ImageSlotError::BadSlot => MgmtStatusCode::BadSlot,
            ImageSlotError::BadChunkIndex => MgmtStatusCode::BadChunkIndex,
            ImageSlotError::ImageTooLarge => MgmtStatusCode::ImageTooLarge,
            ImageSlotError::OffsetMismatch => MgmtStatusCode::OffsetMismatch,
            ImageSlotError::LengthMismatch => MgmtStatusCode::LengthMismatch,
            ImageSlotError::InvalidImage(_) => MgmtStatusCode::InvalidImage,
            ImageSlotError::NeedFence => MgmtStatusCode::NeedFence,
            ImageSlotError::BadFenceEpoch => MgmtStatusCode::BadFenceEpoch,
            ImageSlotError::AuthFailed => MgmtStatusCode::AuthFailed,
            ImageSlotError::BadSessionGeneration => MgmtStatusCode::BadSessionGeneration,
            ImageSlotError::RollbackEmpty => MgmtStatusCode::RollbackEmpty,
        }
    }

    pub fn status(&self, slot: u8) -> (out: MgmtStatus)
        ensures
            out == (MgmtStatus { slot, code: spec_status_code(*self) }),
    {
        MgmtStatus::new(slot, self.status_code())
    }
}

/// Counts of refused management requests by reason, each saturating.
#[derive(Clone, Copy, Debug, PartialEq, Eq, Structural)]
pub struct ManagementRejectionTelemetry {
    pub auth_failed: u16,
    pub bad_generation: u16,
    pub bad_slot: u16,
    pub invalid_image: u16,
    pub need_fence: u16,
    pub bad_fence_epoch: u16,
    pub other: u16,
}

impl ManagementRejectionTelemetry {
    pub open spec fn zero() -> Self {
        ManagementRejectionTelemetry { auth_failed: 0, bad_generation: 0, bad_slot: 0, invalid_image: 0, need_fence: 0, bad_fence_epoch: 0, other: 0 }
    }

    pub open spec fn recorded(self, error: ImageSlotError) -> Self {
        match error {
            ImageSlotError::AuthFailed => ManagementRejectionTelemetry { auth_failed: self.auth_failed.saturating_add(1), ..self },
            ImageSlotError::BadSessionGeneration => ManagementRejectionTelemetry { bad_generation: self.bad_generation.saturating_add(1), ..self },
            ImageSlotError::BadSlot => ManagementRejectionTelemetry { bad_slot: self.bad_slot.saturating_add(1), ..self },
            ImageSlotError::InvalidImage(_) => ManagementRejectionTelemetry { invalid_image: self.invalid_image.saturating_add(1), ..self },
            ImageSlotError::NeedFence => ManagementRejectionTelemetry { need_fence: self.need_fence.saturating_add(1), ..self },
            ImageSlotError::BadFenceEpoch => ManagementRejectionTelemetry { bad_fence_epoch: self.bad_fence_epoch.saturating_add(1), ..self },
            _ => ManagementRejectionTelemetry { other: self.other.saturating_add(1), ..self },
        }
    }

    pub open spec fn spec_total(self) -> u16 {
        self.auth_failed.saturating_add(self.bad_generation).saturating_add(self.bad_slot)
            .saturating_add(self.invalid_image).saturating_add(self.need_fence)
            .saturating_add(self.bad_fence_epoch).saturating_add(self.other)
    }

    pub fn new() -> (out: Self)
        ensures
            out == Self::zero(),
    {
        ManagementRejectionTelemetry { auth_failed: 0, bad_generation: 0, bad_slot: 0, invalid_image: 0, need_fence: 0, bad_fence_epoch: 0, other: 0 }
    }

    pub fn auth_failed(self) -> (out: u16)
        ensures
            out == self.auth_failed,
    {
        self.auth_failed
    }

    pub fn bad_generation(self) -> (out: u16)
        ensures
            out == self.bad_generation,
    {
        self.bad_generation
    }

    pub fn bad_slot(self) -> (out: u16)
        ensures
            out == self.bad_slot,
    {
        self.bad_slot
    }

    pub fn invalid_image(self) -> (out: u16)
        ensures
            out == self.invalid_image,
    {
        self.invalid_image
    }

    pub fn need_fence(self) -> (out: u16)
        ensures
            out == self.need_fence,
    {
        self.need_fence
    }

    pub fn bad_fence_epoch(self) -> (out: u16)
        ensures
            out == self.bad_fence_epoch,
    {
        self.bad_fence_epoch
    }

    pub fn other(self) -> (out: u16)
        ensures
            out == self.other,
    {
        self.other
    }

    pub fn total(self) -> (out: u16)
        ensures
            out == self.spec_total(),
    {
        self.auth_failed.saturating_add(self.bad_generation).saturating_add(self.bad_slot)
            .saturating_add(self.invalid_image).saturating_add(self.need_fence)
            .saturating_add(self.bad_fence_epoch).saturating_add(self.other)
    }

    fn record(&mut self, error: ImageSlotError)
        ensures
            *final(self) == old(self).recorded(error),
    {
        match error {
            ImageSlotError::AuthFailed => self.auth_failed = self.auth_failed.saturating_add(1),
            ImageSlotError::BadSessionGeneration => self.bad_generation = self.bad_generation.saturating_add(1),
            ImageSlotError::BadSlot => self.bad_slot = self.bad_slot.saturating_add(1),
            ImageSlotError::InvalidImage(_) => self.invalid_image = self.invalid_image.saturating_add(1),
            ImageSlotError::NeedFence => self.need_fence = self.need_fence.saturating_add(1),
            ImageSlotError::BadFenceEpoch => self.bad_fence_epoch = self.bad_fence_epoch.saturating_add(1),
            _ => self.other = self.other.saturating_add(1),
        }
    }
}

impl Default for ManagementRejectionTelemetry {
    fn default() -> (out: Self)
        ensures
            out == Self::zero(),
    {
        Self::new()
    }
}

pub open spec fn mgmt_telemetry_after<T>(t: ManagementRejectionTelemetry, r: Result<T, ImageSlotError>) -> ManagementRejectionTelemetry {
    match r {
        Ok(_) => t,
        Err(e) => t.recorded(e),
    }
}

/// How many chunks an image of `total` bytes takes.
pub open spec fn spec_chunk_count(total: int) -> int {
    total / 32 + (if total % 32 == 0 { 0int } else { 1int })
}

/// How an image of `total_len` bytes is cut into chunks.
#[derive(Clone, Copy, Debug, PartialEq, Eq, Structural)]
pub struct ImageTransferPlan {
    pub total_len: u32,
    pub chunk_count: u16,
    pub last_chunk_len: u8,
}

pub open spec fn spec_transfer_plan(total_len: int) -> Result<ImageTransferPlan, ImageSlotError> {
    if total_len == 0 {
        Err(ImageSlotError::LengthMismatch)
    } else if total_len > u32::MAX {
        Err(ImageSlotError::ImageTooLarge)
    } else if spec_chunk_count(total_len) > u16::MAX {
        Err(ImageSlotError::ImageTooLarge)
    } else {
        Ok(ImageTransferPlan {
            total_len: total_len as u32,
            chunk_count: spec_chunk_count(total_len) as u16,
            last_chunk_len: (if total_len % 32 == 0 { 32int } else { total_len % 32 }) as u8,
        })
    }
}

impl ImageTransferPlan {
    pub fn new(total_len: usize) -> (out: Result<Self, ImageSlotError>)
        ensures
            out == spec_transfer_plan(total_len as int),
    {
        if total_len == 0 {
            return Err(ImageSlotError::LengthMismatch);
        }
        if total_len > 0xffff_ffff {
            return Err(ImageSlotError::ImageTooLarge);
        }
        let chunk_count = total_len / MGMT_IMAGE_CHUNK_CAPACITY + if total_len % MGMT_IMAGE_CHUNK_CAPACITY == 0 { 0 } else { 1 };
        if chunk_count > 0xffff {
            return Err(ImageSlotError::ImageTooLarge);
        }
        let remainder = total_len % MGMT_IMAGE_CHUNK_CAPACITY;
        let last_chunk_len = if remainder == 0 { MGMT_IMAGE_CHUNK_CAPACITY } else { remainder };
        Ok(ImageTransferPlan { total_len: total_len as u32, chunk_count: chunk_count as u16, last_chunk_len: last_chunk_len as u8 })
    }

    pub fn total_len(&self) -> (out: u32)
        ensures
            out == self.total_len,
    {
        self.total_len
    }

    pub fn chunk_count(&self) -> (out: u16)
        ensures
            out == self.chunk_count,
    {
        self.chunk_count
    }

    pub fn last_chunk_len(&self) -> (out: u8)
        ensures
            out == self.last_chunk_len,
    {
        self.last_chunk_len
    }

    pub open spec fn spec_chunk_range(&self, index: u16) -> Result<(usize, usize), ImageSlotError> {
        if index >= self.chunk_count {
            Err(ImageSlotError::BadChunkIndex)
        } else {
            let start = index * 32;
            let end = if start + 32 < self.total_len { start + 32 } else { self.total_len as int };
            Ok((start as usize, end as usize))
        }
    }

    pub fn chunk_range(&self, index: u16) -> (out: Result<(usize, usize), ImageSlotError>)
        ensures
            out == self.spec_chunk_range(index),
    {
        if index >= self.chunk_count {
            return Err(ImageSlotError::BadChunkIndex);
        }
        let start = index as usize * MGMT_IMAGE_CHUNK_CAPACITY;
        let end = if start + MGMT_IMAGE_CHUNK_CAPACITY < self.total_len as usize {
            start + MGMT_IMAGE_CHUNK_CAPACITY
        } else {
            self.total_len as usize
        };
        Ok((start, end))
    }
}

/// The chunks of a planned transfer tile the image: each starts where the one before ends,
/// each holds a full chunk but the last, and the last holds `last_chunk_len` bytes up to the end.
pub proof fn lemma_transfer_plan_tiles_image(total_len: usize, i: u16)
    requires
        spec_transfer_plan(total_len as int) is Ok,
        (i as int) < spec_transfer_plan(total_len as int)->Ok_0.chunk_count,
    ensures
        ({
            let p = spec_transfer_plan(total_len as int)->Ok_0;
            let (start, end) = p.spec_chunk_range(i)->Ok_0;
            &&& start == i * 32
            &&& start < end <= total_len
            &&& (i + 1 < p.chunk_count ==> end == start + 32 && end == p.spec_chunk_range((i + 1) as u16)->Ok_0.0)
            &&& (i + 1 == p.chunk_count ==> end == total_len && end - start == p.last_chunk_len)
        }),
{
    let c = spec_chunk_count(total_len as int);
    let ii = i as int;
    let t = total_len as int;
    assert(spec_transfer_plan(total_len as int)->Ok_0.chunk_count == c);
    assert(ii * 32 < t && (ii + 1 < c ==> (ii + 1) * 32 <= t)
        && (ii + 1 == c ==> t - ii * 32 == (if t % 32 == 0 { 32int } else { t % 32 }))) by (nonlinear_arith)
        requires
            t > 0,
            ii >= 0,
            c == t / 32 + (if t % 32 == 0 { 0int } else { 1int }),
            ii < c,
    ;
}

fn append_slice(v: &mut Vec<u8>, src: &[u8])
    ensures
        final(v)@ == old(v)@ + src@,
{
    let ghost orig = v@;
    let n = src.len();
    let mut k: usize = 0;
    while k < n
        invariant
            n == src@.len(),
            k <= n,
            v@ == orig + src@.subrange(0, k as int),
        decreases n - k,
    {
        v.push(src[k]);
        assert(v@ =~= orig + src@.subrange(0, k + 1int));
        k = k + 1;
    }
    assert(src@.subrange(0, n as int) =~= src@);
}

/// What a slot holds: the image bytes so far, the length announced, the image generation, and whether it validated.
pub struct ImageSlotModel {
    pub data: Seq<u8>,
    pub expected_len: u32,
    pub generation: u32,
    pub valid: bool,
}

/// An image slot of at most `CAP` bytes.
pub struct ImageSlot<const CAP: usize> {
    bytes: Vec<u8>,
    expected_len: u32,
    generation: u32,
    valid: bool,
}

pub open spec fn spec_slot_begin(begin: MgmtImageBegin, cap: nat) -> Result<ImageSlotModel, ImageSlotError> {
    if begin.total_len > cap {
        Err(ImageSlotError::ImageTooLarge)
    } else {
        Ok(ImageSlotModel { data: Seq::empty(), expected_len: begin.total_len, generation: begin.generation, valid: false })
    }
}

pub open spec fn spec_slot_push(s: ImageSlotModel, chunk: MgmtImageChunk, cap: nat) -> Result<ImageSlotModel, ImageSlotError> {
    let next = s.data.len() + chunk.bytes@.len();
    if chunk.offset != s.data.len() {
        Err(ImageSlotError::OffsetMismatch)
    } else if next > u32::MAX || next > s.expected_len || next > cap {
        Err(ImageSlotError::ImageTooLarge)
    } else {
        Ok(ImageSlotModel { data: s.data + chunk.bytes@, ..s })
    }
}

pub open spec fn spec_slot_finish(s: ImageSlotModel, end: MgmtImageEnd) -> Result<ImageSlotModel, ImageSlotError> {
    if end.expected_len != s.expected_len || s.data.len() != s.expected_len {
        Err(ImageSlotError::LengthMismatch)
    } else {
        match spec_install(s.data) {
            Err(e) => Err(ImageSlotError::InvalidImage(e)),
            Ok(_) => Ok(ImageSlotModel { valid: true, ..s }),
        }
    }
}

impl<const CAP: usize> ImageSlot<CAP> {
    pub closed spec fn view(&self) -> ImageSlotModel {
        ImageSlotModel { data: self.bytes@, expected_len: self.expected_len, generation: self.generation, valid: self.valid }
    }

    pub open spec fn wf(&self) -> bool {
        self.view().data.len() <= CAP && self.view().data.len() <= u32::MAX
    }

    pub fn empty() -> (out: Self)
        ensures
            out.wf(),
            out.view() == (ImageSlotModel { data: Seq::empty(), expected_len: 0, generation: 0, valid: false }),
    {
        ImageSlot { bytes: Vec::new(), expected_len: 0, generation: 0, valid: false }
    }

    fn copy(&self) -> (out: Self)
        ensures
            out.view() == self.view(),
    {
        ImageSlot {
            bytes: vstd::slice::slice_to_vec(self.bytes.as_slice()),
            expected_len: self.expected_len,
            generation: self.generation,
            valid: self.valid,
        }
    }

    pub fn len(&self) -> (out: u32)
        requires
            self.wf(),
        ensures
            out == self.view().data.len(),
    {
        self.bytes.len() as u32
    }

    pub fn generation(&self) -> (out: u32)
        ensures
            out == self.view().generation,
    {
        self.generation
    }

    pub fn is_valid(&self) -> (out: bool)
        ensures
            out == self.view().valid,
    {
        self.valid
    }

    pub fn as_bytes(&self) -> (out: &[u8])
        ensures
            out@ == self.view().data,
    {
        self.bytes.as_slice()
    }

    fn begin(&mut self, begin: MgmtImageBegin) -> (out: Result<(), ImageSlotError>)
        requires
            old(self).wf(),
        ensures
            final(self).wf(),
            match spec_slot_begin(begin, CAP as nat) {
                Ok(s) => out is Ok && final(self).view() == s,
                Err(e) => out == Err::<(), ImageSlotError>(e) && final(self).view() == old(self).view(),
            },
    {
        if begin.total_len() as usize > CAP {
            return Err(ImageSlotError::ImageTooLarge);
        }
        self.bytes = Vec::new();
        self.expected_len = begin.total_len();
        self.generation = begin.generation();
        self.valid = false;
        Ok(())
    }

    fn push_chunk(&mut self, chunk: &MgmtImageChunk) -> (out: Result<(), ImageSlotError>)
        requires
            old(self).wf(),
            chunk.bytes@.len() <= u32::MAX,
        ensures
            final(self).wf(),
            match spec_slot_push(old(self).view(), *chunk, CAP as nat) {
                Ok(s) => out is Ok && final(self).view() == s,
                Err(e) => out == Err::<(), ImageSlotError>(e) && final(self).view() == old(self).view(),
            },
    {
        let len = self.bytes.len() as u32;
        if chunk.offset() != len {
            return Err(ImageSlotError::OffsetMismatch);
        }
        let next_len = match len.checked_add(chunk.len() as u32) {
            Some(n) => n,
            None => return Err(ImageSlotError::ImageTooLarge),
        };
        if next_len > self.expected_len || next_len as usize > CAP {
            return Err(ImageSlotError::ImageTooLarge);
        }
        append_slice(&mut self.bytes, chunk.as_bytes());
        Ok(())
    }

    fn finish(&mut self, end: MgmtImageEnd) -> (out: Result<(), ImageSlotError>)
        requires
            old(self).wf(),
        ensures
            final(self).wf(),
            match spec_slot_finish(old(self).view(), end) {
                Ok(s) => out is Ok && final(self).view() == s,
                Err(e) => out == Err::<(), ImageSlotError>(e) && final(self).view() == old(self).view(),
            },
    {
        if end.expected_len() != self.expected_len || self.bytes.len() as u32 != self.expected_len {
            return Err(ImageSlotError::LengthMismatch);
        }
        match Wasip1Module::install(self.bytes.as_slice()) {
            Ok(_) => {},
            Err(e) => return Err(ImageSlotError::InvalidImage(e)),
        }
        self.valid = true;
        Ok(())
    }
}

/// What a slot table holds: its slots, the active slot, and the image kept for rollback.
pub struct ImageSlotTableModel {
    pub slots: Seq<ImageSlotModel>,
    pub active_slot: Option<u8>,
    pub rollback: Option<ImageSlotModel>,
}

/// Activating a slot at a boundary: refused unless the boundary is fenced at the request's epoch and
/// the slot holds a valid image; the image active before is kept for rollback.
pub open spec fn spec_activate_at_boundary(m: ImageSlotTableModel, activate: MgmtImageActivate, boundary: ActivationBoundary) -> Result<ImageSlotTableModel, ImageSlotError> {
    if !boundary.spec_is_safe() {
        Err(ImageSlotError::NeedFence)
    } else if activate.fence_epoch != boundary.memory_epoch {
        Err(ImageSlotError::BadFenceEpoch)
    } else if activate.slot >= m.slots.len() {
        Err(ImageSlotError::BadSlot)
    } else if !m.slots[activate.slot as int].valid {
        Err(ImageSlotError::InvalidImage(Wasip1Error::InvalidModule))
    } else {
        match m.active_slot {
            Some(a) => if a >= m.slots.len() {
                Err(ImageSlotError::BadSlot)
            } else {
                Ok(ImageSlotTableModel { active_slot: Some(activate.slot), rollback: Some(m.slots[a as int]), ..m })
            },
            None => Ok(ImageSlotTableModel { active_slot: Some(activate.slot), ..m }),
        }
    }
}

/// Rolling back into a slot: the kept image is used up even when the slot does not exist.
pub open spec fn spec_rollback(m: ImageSlotTableModel, rollback: MgmtImageRollback) -> (Result<(), ImageSlotError>, ImageSlotTableModel) {
    match m.rollback {
        None => (Err(ImageSlotError::RollbackEmpty), m),
        Some(prev) => if rollback.slot >= m.slots.len() {
            (Err(ImageSlotError::BadSlot), ImageSlotTableModel { rollback: None, ..m })
        } else {
            (Ok(()), ImageSlotTableModel {
                slots: m.slots.update(rollback.slot as int, prev),
                active_slot: Some(rollback.slot),
                rollback: None,
            })
        },
    }
}

/// `SLOTS` image slots of `CAP` bytes, one of them active, with the previous image kept for rollback.
pub struct ImageSlotTable<const SLOTS: usize, const CAP: usize> {
    slots: Vec<ImageSlot<CAP>>,
    active_slot: Option<u8>,
    rollback: Option<ImageSlot<CAP>>,
    rejection_telemetry: ManagementRejectionTelemetry,
}

pub open spec fn ok_status(slot: u8) -> MgmtStatus {
    MgmtStatus { slot, code: MgmtStatusCode::Success }
}

impl<const SLOTS: usize, const CAP: usize> ImageSlotTable<SLOTS, CAP> {
    pub closed spec fn view(&self) -> ImageSlotTableModel {
        ImageSlotTableModel {
            slots: self.slots@.map_values(|s: ImageSlot<CAP>| s.view()),
            active_slot: self.active_slot,
            rollback: match self.rollback {
                Some(r) => Some(r.view()),
                None => None,
            },
        }
    }

    pub closed spec fn rejections(&self) -> ManagementRejectionTelemetry {
        self.rejection_telemetry
    }

    pub closed spec fn wf(&self) -> bool {
        &&& self.slots@.len() == SLOTS
        &&& forall|i: int| 0 <= i < SLOTS ==> #[trigger] self.slots@[i].wf()
        &&& (self.rollback is Some ==> self.rollback->Some_0.wf())
    }

    pub fn new() -> (out: Self)
        ensures
            out.wf(),
            out.view() == (ImageSlotTableModel {
                slots: Seq::new(SLOTS as nat, |i: int| ImageSlotModel { data: Seq::empty(), expected_len: 0, generation: 0, valid: false }),
                active_slot: None,
                rollback: None,
            }),
            out.rejections() == ManagementRejectionTelemetry::zero(),
    {
        let mut slots: Vec<ImageSlot<CAP>> = Vec::new();
        let mut i: usize = 0;
        while i < SLOTS
            invariant
                i <= SLOTS,
                slots@.len() == i,
                forall|j: int| 0 <= j < i ==> (#[trigger] slots@[j]).wf()
                    && slots@[j].view() == (ImageSlotModel { data: Seq::empty(), expected_len: 0, generation: 0, valid: false }),
            decreases SLOTS - i,
        {
            slots.push(ImageSlot::empty());
            i = i + 1;
        }
        let out = ImageSlotTable { slots, active_slot: None, rollback: None, rejection_telemetry: ManagementRejectionTelemetry::new() };
        assert forall|j: int| 0 <= j < SLOTS implies #[trigger] out.view().slots[j] == (ImageSlotModel { data: Seq::empty(), expected_len: 0, generation: 0, valid: false }) by {
            assert(out.view().slots[j] == out.slots@[j].view());
            assert(out.slots@[j].wf());
        }
        assert(out.view().slots =~= Seq::new(SLOTS as nat, |i: int| ImageSlotModel { data: Seq::empty(), expected_len: 0, generation: 0, valid: false }));
        out
    }

    pub fn active_slot(&self) -> (out: Option<u8>)
        ensures
            out == self.view().active_slot,
    {
        self.active_slot
    }

    pub fn has_rollback(&self) -> (out: bool)
        ensures
            out == (self.view().rollback is Some),
    {
        self.rollback.is_some()
    }

    pub fn rejection_telemetry(&self) -> (out: ManagementRejectionTelemetry)
        ensures
            out == self.rejections(),
    {
        self.rejection_telemetry
    }

    fn record_rejection(&mut self, error: ImageSlotError) -> (out: ImageSlotError)
        requires
            old(self).wf(),
        ensures
            final(self).wf(),
            out == error,
            final(self).view() == old(self).view(),
            final(self).rejections() == old(self).rejections().recorded(error),
    {
        self.rejection_telemetry.record(error);
        error
    }

    pub fn slot(&self, slot: u8) -> (out: Result<&ImageSlot<CAP>, ImageSlotError>)
        requires
            self.wf(),
        ensures
            (slot as int) < self.view().slots.len() ==> out is Ok && out->Ok_0.view() == self.view().slots[slot as int]
                && out->Ok_0.wf(),
            (slot as int) >= self.view().slots.len() ==> out == Err::<&ImageSlot<CAP>, ImageSlotError>(ImageSlotError::BadSlot),
    {
        if (slot as usize) < self.slots.len() {
            Ok(&self.slots[slot as usize])
        } else {
            Err(ImageSlotError::BadSlot)
        }
    }

    pub fn begin(&mut self, begin: MgmtImageBegin) -> (out: Result<MgmtStatus, ImageSlotError>)
        requires
            old(self).wf(),
        ensures
            final(self).wf(),
            final(self).rejections() == mgmt_telemetry_after(old(self).rejections(), out),
            if (begin.slot as int) >= old(self).view().slots.len() {
                out == Err::<MgmtStatus, ImageSlotError>(ImageSlotError::BadSlot) && final(self).view() == old(self).view()
            } else {
                match spec_slot_begin(begin, CAP as nat) {
                    Ok(s) => out == Ok::<MgmtStatus, ImageSlotError>(ok_status(begin.slot))
                        && final(self).view() == (ImageSlotTableModel { slots: old(self).view().slots.update(begin.slot as int, s), ..old(self).view() }),
                    Err(e) => out == Err::<MgmtStatus, ImageSlotError>(e) && final(self).view() == old(self).view(),
                }
            },
    {
        let idx = begin.slot() as usize;
        if idx >= self.slots.len() {
            return Err(self.record_rejection(ImageSlotError::BadSlot));
        }
        let mut slot = ImageSlot::empty();
        std::mem::swap(&mut slot, &mut self.slots[idx]);
        let r = slot.begin(begin);
        let ghost sv = slot.view();
        self.slots.set(idx, slot);
        proof {
            assert(self.view().slots =~= old(self).view().slots.update(idx as int, sv));
        }
        match r {
            Ok(()) => Ok(MgmtStatus::new(begin.slot(), MgmtStatusCode::Success)),
            Err(e) => {
                assert(self.view().slots =~= old(self).view().slots);
                Err(self.record_rejection(e))
            },
        }
    }

    pub fn chunk(&mut self, chunk: &MgmtImageChunk) -> (out: Result<MgmtStatus, ImageSlotError>)
        requires
            old(self).wf(),
            chunk.bytes@.len() <= u32::MAX,
        ensures
            final(self).wf(),
            final(self).rejections() == mgmt_telemetry_after(old(self).rejections(), out),
            if (chunk.slot as int) >= old(self).view().slots.len() {
                out == Err::<MgmtStatus, ImageSlotError>(ImageSlotError::BadSlot) && final(self).view() == old(self).view()
            } else {
                match spec_slot_push(old(self).view().slots[chunk.slot as int], *chunk, CAP as nat) {
                    Ok(s) => out == Ok::<MgmtStatus, ImageSlotError>(ok_status(chunk.slot))
                        && final(self).view() == (ImageSlotTableModel { slots: old(self).view().slots.update(chunk.slot as int, s), ..old(self).view() }),
                    Err(e) => out == Err::<MgmtStatus, ImageSlotError>(e) && final(self).view() == old(self).view(),
                }
            },
    {
        let idx = chunk.slot() as usize;
        if idx >= self.slots.len() {
            return Err(self.record_rejection(ImageSlotError::BadSlot));
        }
        let mut slot = ImageSlot::empty();
        std::mem::swap(&mut slot, &mut self.slots[idx]);
        let r = slot.push_chunk(chunk);
        let ghost sv = slot.view();
        self.slots.set(idx, slot);
        proof {
            assert(self.view().slots =~= old(self).view().slots.update(idx as int, sv));
        }
        match r {
            Ok(()) => Ok(MgmtStatus::new(chunk.slot(), MgmtStatusCode::Success)),
            Err(e) => {
                assert(self.view().slots =~= old(self).view().slots);
                Err(self.record_rejection(e))
            },
        }
    }

    pub fn end(&mut self, end: MgmtImageEnd) -> (out: Result<MgmtStatus, ImageSlotError>)
        requires
            old(self).wf(),
        ensures
            final(self).wf(),
            final(self).rejections() == mgmt_telemetry_after(old(self).rejections(), out),
            if (end.slot as int) >= old(self).view().slots.len() {
                out == Err::<MgmtStatus, ImageSlotError>(ImageSlotError::BadSlot) && final(self).view() == old(self).view()
            } else {
                match spec_slot_finish(old(self).view().slots[end.slot as int], end) {
                    Ok(s) => out == Ok::<MgmtStatus, ImageSlotError>(ok_status(end.slot))
                        && final(self).view() == (ImageSlotTableModel { slots: old(self).view().slots.update(end.slot as int, s), ..old(self).view() }),
                    Err(e) => out == Err::<MgmtStatus, ImageSlotError>(e) && final(self).view() == old(self).view(),
                }
            },
    {
        let idx = end.slot() as usize;
        if idx >= self.slots.len() {
            return Err(self.record_rejection(ImageSlotError::BadSlot));
        }
        let mut slot = ImageSlot::empty();
        std::mem::swap(&mut slot, &mut self.slots[idx]);
        let r = slot.finish(end);
        let ghost sv = slot.view();
        self.slots.set(idx, slot);
        proof {
            assert(self.view().slots =~= old(self).view().slots.update(idx as int, sv));
        }
        match r {
            Ok(()) => Ok(MgmtStatus::new(end.slot(), MgmtStatusCode::Success)),
            Err(e) => {
                assert(self.view().slots =~= old(self).view().slots);
                Err(self.record_rejection(e))
            },
        }
    }

    pub fn activate_at_boundary(&mut self, activate: MgmtImageActivate, boundary: ActivationBoundary) -> (out: Result<MgmtStatus, ImageSlotError>)
        requires
            old(self).wf(),
        ensures
            final(self).wf(),
            final(self).rejections() == mgmt_telemetry_after(old(self).rejections(), out),
            match spec_activate_at_boundary(old(self).view(), activate, boundary) {
                Ok(m) => out == Ok::<MgmtStatus, ImageSlotError>(ok_status(activate.slot)) && final(self).view() == m,
                Err(e) => out == Err::<MgmtStatus, ImageSlotError>(e) && final(self).view() == old(self).view(),
            },
    {
        if !boundary.is_safe() {
            return Err(self.record_rejection(ImageSlotError::NeedFence));
        }
        if activate.fence_epoch() != boundary.memory_epoch() {
            return Err(self.record_rejection(ImageSlotError::BadFenceEpoch));
        }
        let valid = match self.slot(activate.slot()) {
            Ok(slot) => slot.is_valid(),
            Err(error) => return Err(self.record_rejection(error)),
        };
        if !valid {
            return Err(self.record_rejection(ImageSlotError::InvalidImage(Wasip1Error::InvalidModule)));
        }
        match self.active_slot {
            Some(active) => {
                let previous = match self.slot(active) {
                    Ok(slot) => slot.copy(),
                    Err(error) => return Err(self.record_rejection(error)),
                };
                self.rollback = Some(previous);
            },
            None => {},
        }
        self.active_slot = Some(activate.slot());
        Ok(MgmtStatus::new(activate.slot(), MgmtStatusCode::Success))
    }

    pub fn activate(&mut self, activate: MgmtImageActivate, leases_fenced: bool, memory_epoch: u32) -> (out: Result<MgmtStatus, ImageSlotError>)
        requires
            old(self).wf(),
        ensures
            final(self).wf(),
            final(self).rejections() == mgmt_telemetry_after(old(self).rejections(), out),
            match spec_activate_at_boundary(old(self).view(), activate, ActivationBoundary {
                memory_leases_fenced: leases_fenced,
                interrupt_subscriptions_fenced: true,
                remote_objects_quiesced: true,
                memory_epoch,
            }) {
                Ok(m) => out == Ok::<MgmtStatus, ImageSlotError>(ok_status(activate.slot)) && final(self).view() == m,
                Err(e) => out == Err::<MgmtStatus, ImageSlotError>(e) && final(self).view() == old(self).view(),
            },
    {
        self.activate_at_boundary(activate, ActivationBoundary::single_node(leases_fenced, true, memory_epoch))
    }

    pub fn rollback(&mut self, rollback: MgmtImageRollback) -> (out: Result<MgmtStatus, ImageSlotError>)
        requires
            old(self).wf(),
        ensures
            final(self).wf(),
            final(self).rejections() == mgmt_telemetry_after(old(self).rejections(), out),
            ({
                let r = spec_rollback(old(self).view(), rollback);
                &&& final(self).view() == r.1
                &&& match r.0 {
                    Ok(_) => out == Ok::<MgmtStatus, ImageSlotError>(ok_status(rollback.slot)),
                    Err(e) => out == Err::<MgmtStatus, ImageSlotError>(e),
                }
            }),
    {
        let taken = self.rollback.take();
        match taken {
            None => Err(self.record_rejection(ImageSlotError::RollbackEmpty)),
            Some(previous) => {
                let idx = rollback.slot() as usize;
                if idx < self.slots.len() {
                    let ghost pv = previous.view();
                    self.slots.set(idx, previous);
                    self.active_slot = Some(rollback.slot());
                    proof {
                        assert(self.view().slots =~= old(self).view().slots.update(idx as int, pv));
                    }
                    Ok(MgmtStatus::new(rollback.slot(), MgmtStatusCode::Success))
                } else {
                    Err(self.record_rejection(ImageSlotError::BadSlot))
                }
            },
        }
    }

    fn verify_install_control(&mut self, control: MgmtControl, node_id: NodeId, credential: SwarmCredential, session_generation: u16, slot: u8, image_generation: u32) -> (out: Result<(), ImageSlotError>)
        requires
            old(self).wf(),
        ensures
            final(self).wf(),
            final(self).view() == old(self).view(),
            final(self).rejections() == mgmt_telemetry_after(old(self).rejections(), out),
            out == (match control {
                MgmtControl::InstallGrant(g) => spec_grant_verify(g, node_id, credential, session_generation, slot, image_generation),
            }),
    {
        match control {
            MgmtControl::InstallGrant(grant) => match grant.verify(node_id, credential, session_generation, slot, image_generation) {
                Ok(()) => Ok(()),
                Err(error) => Err(self.record_rejection(error)),
            },
        }
    }

    pub fn begin_with_control(&mut self, control: MgmtControl, node_id: NodeId, credential: SwarmCredential, session_generation: u16, begin: MgmtImageBegin) -> (out: Result<MgmtStatus, ImageSlotError>)
        requires
            old(self).wf(),
        ensures
            final(self).wf(),
            final(self).rejections() == mgmt_telemetry_after(old(self).rejections(), out),
            match control {
                MgmtControl::InstallGrant(g) => match spec_grant_verify(g, node_id, credential, session_generation, begin.slot, begin.generation) {
                    Err(e) => out == Err::<MgmtStatus, ImageSlotError>(e) && final(self).view() == old(self).view(),
                    Ok(_) => if (begin.slot as int) >= old(self).view().slots.len() {
                        out == Err::<MgmtStatus, ImageSlotError>(ImageSlotError::BadSlot) && final(self).view() == old(self).view()
                    } else {
                        match spec_slot_begin(begin, CAP as nat) {
                            Ok(s) => out == Ok::<MgmtStatus, ImageSlotError>(ok_status(begin.slot))
                                && final(self).view() == (ImageSlotTableModel { slots: old(self).view().slots.update(begin.slot as int, s), ..old(self).view() }),
                            Err(e) => out == Err::<MgmtStatus, ImageSlotError>(e) && final(self).view() == old(self).view(),
                        }
                    },
                },
            },
    {
        self.verify_install_control(control, node_id, credential, session_generation, begin.slot(), begin.generation())?;
        self.begin(begin)
    }

    /// The generation that a request naming `slot` is checked against; a missing slot is refused and counted.
    fn slot_generation(&mut self, slot: u8) -> (out: Result<u32, ImageSlotError>)
        requires
            old(self).wf(),
        ensures
            final(self).wf(),
            final(self).view() == old(self).view(),
            final(self).rejections() == mgmt_telemetry_after(old(self).rejections(), out),
            (slot as int) < old(self).view().slots.len() ==> out == Ok::<u32, ImageSlotError>(old(self).view().slots[slot as int].generation),
            (slot as int) >= old(self).view().slots.len() ==> out == Err::<u32, ImageSlotError>(ImageSlotError::BadSlot),
    {
        match self.slot(slot) {
            Ok(s) => Ok(s.generation()),
            Err(error) => Err(self.record_rejection(error)),
        }
    }

    pub fn chunk_with_control(&mut self, control: MgmtControl, node_id: NodeId, credential: SwarmCredential, session_generation: u16, chunk: &MgmtImageChunk) -> (out: Result<MgmtStatus, ImageSlotError>)
        requires
            old(self).wf(),
            chunk.bytes@.len() <= u32::MAX,
        ensures
            final(self).wf(),
            final(self).rejections() == mgmt_telemetry_after(old(self).rejections(), out),
            if (chunk.slot as int) >= old(self).view().slots.len() {
                out == Err::<MgmtStatus, ImageSlotError>(ImageSlotError::BadSlot) && final(self).view() == old(self).view()
            } else {
                let generation = old(self).view().slots[chunk.slot as int].generation;
                match control {
                    MgmtControl::InstallGrant(g) => match spec_grant_verify(g, node_id, credential, session_generation, chunk.slot, generation) {
                        Err(e) => out == Err::<MgmtStatus, ImageSlotError>(e) && final(self).view() == old(self).view(),
                        Ok(_) => match spec_slot_push(old(self).view().slots[chunk.slot as int], *chunk, CAP as nat) {
                            Ok(s) => out == Ok::<MgmtStatus, ImageSlotError>(ok_status(chunk.slot))
                                && final(self).view() == (ImageSlotTableModel { slots: old(self).view().slots.update(chunk.slot as int, s), ..old(self).view() }),
                            Err(e) => out == Err::<MgmtStatus, ImageSlotError>(e) && final(self).view() == old(self).view(),
                        },
                    },
                }
            },
    {
        let generation = self.slot_generation(chunk.slot())?;
        self.verify_install_control(control, node_id, credential, session_generation, chunk.slot(), generation)?;
        self.chunk(chunk)
    }

    pub fn end_with_control(&mut self, control: MgmtControl, node_id: NodeId, credential: SwarmCredential, session_generation: u16, end: MgmtImageEnd) -> (out: Result<MgmtStatus, ImageSlotError>)
        requires
            old(self).wf(),
        ensures
            final(self).wf(),
            final(self).rejections() == mgmt_telemetry_after(old(self).rejections(), out),
            if (end.slot as int) >= old(self).view().slots.len() {
                out == Err::<MgmtStatus, ImageSlotError>(ImageSlotError::BadSlot) && final(self).view() == old(self).view()
            } else {
                let generation = old(self).view().slots[end.slot as int].generation;
                match control {
                    MgmtControl::InstallGrant(g) => match spec_grant_verify(g, node_id, credential, session_generation, end.slot, generation) {
                        Err(e) => out == Err::<MgmtStatus, ImageSlotError>(e) && final(self).view() == old(self).view(),
                        Ok(_) => match spec_slot_finish(old(self).view().slots[end.slot as int], end) {
                            Ok(s) => out == Ok::<MgmtStatus, ImageSlotError>(ok_status(end.slot))
                                && final(self).view() == (ImageSlotTableModel { slots: old(self).view().slots.update(end.slot as int, s), ..old(self).view() }),
                            Err(e) => out == Err::<MgmtStatus, ImageSlotError>(e) && final(self).view() == old(self).view(),
                        },
                    },
                }
            },
    {
        let generation = self.slot_generation(end.slot())?;
        self.verify_install_control(control, node_id, credential, session_generation, end.slot(), generation)?;
        self.end(end)
    }

    pub fn activate_with_control(&mut self, control: MgmtControl, node_id: NodeId, credential: SwarmCredential, session_generation: u16, activate: MgmtImageActivate, boundary: ActivationBoundary) -> (out: Result<MgmtStatus, ImageSlotError>)
        requires
            old(self).wf(),
        ensures
            final(self).wf(),
            final(self).rejections() == mgmt_telemetry_after(old(self).rejections(), out),
            if (activate.slot as int) >= old(self).view().slots.len() {
                out == Err::<MgmtStatus, ImageSlotError>(ImageSlotError::BadSlot) && final(self).view() == old(self).view()
            } else {
                let generation = old(self).view().slots[activate.slot as int].generation;
                match control {
                    MgmtControl::InstallGrant(g) => match spec_grant_verify(g, node_id, credential, session_generation, activate.slot, generation) {
                        Err(e) => out == Err::<MgmtStatus, ImageSlotError>(e) && final(self).view() == old(self).view(),
                        Ok(_) => match spec_activate_at_boundary(old(self).view(), activate, boundary) {
                            Ok(m) => out == Ok::<MgmtStatus, ImageSlotError>(ok_status(activate.slot)) && final(self).view() == m,
                            Err(e) => out == Err::<MgmtStatus, ImageSlotError>(e) && final(self).view() == old(self).view(),
                        },
                    },
                }
            },
    {
        let generation = self.slot_generation(activate.slot())?;
        self.verify_install_control(control, node_id, credential, session_generation, activate.slot(), generation)?;
        self.activate_at_boundary(activate, boundary)
    }

    pub fn activate_with_topology_control(&mut self, control: MgmtControl, node_id: NodeId, credential: SwarmCredential, session_generation: u16, activate: MgmtImageActivate, boundary: ActivationBoundary, topology: TopologyLifecycle) -> (out: Result<MgmtStatus, ImageSlotError>)
        requires
            old(self).wf(),
        ensures
            final(self).wf(),
            final(self).rejections() == mgmt_telemetry_after(old(self).rejections(), out),
            match topology.spec_require_committed(activate.fence_epoch) {
                Err(TopologyLifecycleError::GenerationMismatch) => out == Err::<MgmtStatus, ImageSlotError>(ImageSlotError::BadFenceEpoch)
                    && final(self).view() == old(self).view(),
                Err(_) => out == Err::<MgmtStatus, ImageSlotError>(ImageSlotError::NeedFence) && final(self).view() == old(self).view(),
                Ok(_) => if (activate.slot as int) >= old(self).view().slots.len() {
                    out == Err::<MgmtStatus, ImageSlotError>(ImageSlotError::BadSlot) && final(self).view() == old(self).view()
                } else {
                    let generation = old(self).view().slots[activate.slot as int].generation;
                    match control {
                        MgmtControl::InstallGrant(g) => match spec_grant_verify(g, node_id, credential, session_generation, activate.slot, generation) {
                            Err(e) => out == Err::<MgmtStatus, ImageSlotError>(e) && final(self).view() == old(self).view(),
                            Ok(_) => match spec_activate_at_boundary(old(self).view(), activate, boundary) {
                                Ok(m) => out == Ok::<MgmtStatus, ImageSlotError>(ok_status(activate.slot)) && final(self).view() == m,
                                Err(e) => out == Err::<MgmtStatus, ImageSlotError>(e) && final(self).view() == old(self).view(),
                            },
                        },
                    }
                },
            },
    {
        match topology.require_committed(activate.fence_epoch()) {
            Ok(()) => {},
            Err(TopologyLifecycleError::GenerationMismatch) => return Err(self.record_rejection(ImageSlotError::BadFenceEpoch)),
            Err(_) => return Err(self.record_rejection(ImageSlotError::NeedFence)),
        }
        self.activate_with_control(control, node_id, credential, session_generation, activate, boundary)
    }
}

impl<const SLOTS: usize, const CAP: usize> Default for ImageSlotTable<SLOTS, CAP> {
    fn default() -> (out: Self)
        ensures
            out.wf(),
            out.view() == (ImageSlotTableModel {
                slots: Seq::new(SLOTS as nat, |i: int| ImageSlotModel { data: Seq::empty(), expected_len: 0, generation: 0, valid: false }),
                active_slot: None,
                rollback: None,
            }),
            out.rejections() == ManagementRejectionTelemetry::zero(),
    {
        Self::new()
    }
}

/// A snapshot of management state for telemetry.
#[derive(Clone, Copy, Debug, PartialEq, Eq, Structural)]
pub struct TelemetrySnapshot {
    pub active_slot: Option<u8>,
    pub has_rollback: bool,
    pub outstanding_leases: u8,
    pub memory_epoch: u32,
}

impl TelemetrySnapshot {
    pub fn new(active_slot: Option<u8>, has_rollback: bool, outstanding_leases: u8, memory_epoch: u32) -> (out: Self)
        ensures
            out == (TelemetrySnapshot { active_slot, has_rollback, outstanding_leases, memory_epoch }),
    {
        TelemetrySnapshot { active_slot, has_rollback, outstanding_leases, memory_epoch }
    }

    pub fn active_slot(&self) -> (out: Option<u8>)
        ensures
            out == self.active_slot,
    {
        self.active_slot
    }

    pub fn has_rollback(&self) -> (out: bool)
        ensures
            out == self.has_rollback,
    {
        self.has_rollback
    }

    pub fn outstanding_leases(&self) -> (out: u8)
        ensures
            out == self.outstanding_leases,
    {
        self.outstanding_leases
    }

    pub fn memory_epoch(&self) -> (out: u32)
        ensures
            out == self.memory_epoch,
    {
        self.memory_epoch
    }
}

impl<const SLOTS: usize, const CAP: usize> ImageSlotTable<SLOTS, CAP> {
    pub fn telemetry(&self, outstanding_leases: u8, memory_epoch: u32) -> (out: TelemetrySnapshot)
        ensures
            out == (TelemetrySnapshot {
                active_slot: self.view().active_slot,
                has_rollback: self.view().rollback is Some,
                outstanding_leases,
                memory_epoch,
            }),
    {
        TelemetrySnapshot::new(self.active_slot(), self.has_rollback(), outstanding_leases, memory_epoch)
    }
}

/// An activation that succeeds leaves the named slot active and keeps the image active before it
/// for rollback; a rollback right after restores that image into a slot and makes it active.
pub proof fn lemma_activate_then_rollback(m: ImageSlotTableModel, activate: MgmtImageActivate, boundary: ActivationBoundary, rollback: MgmtImageRollback)
    requires
        spec_activate_at_boundary(m, activate, boundary) is Ok,
        m.active_slot is Some,
        (rollback.slot as int) < m.slots.len(),
    ensures
        ({
            let a = spec_activate_at_boundary(m, activate, boundary)->Ok_0;
            let r = spec_rollback(a, rollback);
            &&& a.active_slot == Some(activate.slot)
            &&& a.rollback == Some(m.slots[m.active_slot->Some_0 as int])
            &&& r.0 is Ok
            &&& r.1.active_slot == Some(rollback.slot)
            &&& r.1.slots[rollback.slot as int] == m.slots[m.active_slot->Some_0 as int]
            &&& r.1.rollback is None
        }),
{
}

/// Activation needs a fenced boundary at the request's epoch and a slot whose image validated.
pub proof fn lemma_activation_requires_fence_and_valid_image(m: ImageSlotTableModel, activate: MgmtImageActivate, boundary: ActivationBoundary)
    requires
        spec_activate_at_boundary(m, activate, boundary) is Ok,
    ensures
        boundary.memory_leases_fenced,
        boundary.interrupt_subscriptions_fenced,
        boundary.remote_objects_quiesced,
        activate.fence_epoch == boundary.memory_epoch,
        (activate.slot as int) < m.slots.len(),
        m.slots[activate.slot as int].valid,
{
}

} // verus!
