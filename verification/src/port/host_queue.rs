//! Fixed-capacity per-role frame queues: each role owns a ring buffer of frames that is
//! filled at the back, refilled at the front by a requeue, and drained from the front.
use vstd::prelude::*;

verus! {

pub const ROLE_CAPACITY: usize = 4;
pub const QUEUE_CAPACITY: usize = 8;
pub const PAYLOAD_CAPACITY: usize = 96;

#[derive(Clone, Copy, Debug, PartialEq, Eq, Structural)]
pub enum BackendError {
    PayloadTooLarge,
    QueueFull,
    QueueEmpty,
    RoleOutOfRange,
    InvalidFrame,
}

/// A frame held by value: a label and at most `PAYLOAD_CAPACITY` payload bytes.
#[derive(Clone, Copy)]
pub struct FrameOwned {
    label: u8,
    len: usize,
    payload: [u8; PAYLOAD_CAPACITY],
}

impl FrameOwned {
    #[verifier::type_invariant]
    closed spec fn len_fits(self) -> bool {
        self.len <= PAYLOAD_CAPACITY
    }

    pub closed spec fn spec_label(self) -> u8 {
        self.label
    }

    /// The payload bytes the frame carries.
    pub closed spec fn bytes(self) -> Seq<u8> {
        self.payload@.take(self.len as int)
    }

    pub fn from_bytes(label: u8, bytes: &[u8]) -> (out: Result<FrameOwned, BackendError>)
        ensures
            out is Err <==> bytes@.len() > PAYLOAD_CAPACITY,
            out is Err ==> out->Err_0 == BackendError::PayloadTooLarge,
            out is Ok ==> out->Ok_0.spec_label() == label && out->Ok_0.bytes() == bytes@,
    {
        if bytes.len() > PAYLOAD_CAPACITY {
            return Err(BackendError::PayloadTooLarge);
        }
        let mut payload = [0u8; PAYLOAD_CAPACITY];
        let mut i: usize = 0;
        while i < bytes.len()
            invariant
                i <= bytes@.len() <= PAYLOAD_CAPACITY,
                payload@.len() == PAYLOAD_CAPACITY,
                forall|k: int| 0 <= k < i ==> payload@[k] == bytes@[k],
            decreases bytes@.len() - i,
        {
            payload[i] = bytes[i];
            i = i + 1;
        }
        let out = FrameOwned { label, len: bytes.len(), payload };
        assert(out.bytes() =~= bytes@);
        Ok(out)
    }

    pub fn label(&self) -> (out: u8)
        ensures
            out == self.spec_label(),
    {
        self.label
    }

    pub fn len(&self) -> (out: usize)
        ensures
            out == self.bytes().len(),
            out <= PAYLOAD_CAPACITY,
    {
        proof {
            use_type_invariant(self);
        }
        self.len
    }

    pub fn as_slice(&self) -> (out: &[u8])
        ensures
            out@ == self.bytes(),
            out@.len() <= PAYLOAD_CAPACITY,
    {
        proof {
            use_type_invariant(self);
        }
        let all: &[u8] = self.payload.as_slice();
        let out = vstd::slice::slice_subrange(all, 0, self.len);
        assert(out@ =~= self.bytes());
        out
    }
}

/// The slot of the `k`-th queued frame in a ring that starts at `head`.
pub open spec fn ring_slot(head: int, k: int) -> int {
    (head + k) % (QUEUE_CAPACITY as int)
}

struct FixedQueue {
    items: Vec<Option<FrameOwned>>,
    head: usize,
    len: usize,
}

impl FixedQueue {
    closed spec fn wf(&self) -> bool {
        &&& self.items@.len() == QUEUE_CAPACITY
        &&& self.head < QUEUE_CAPACITY
        &&& self.len <= QUEUE_CAPACITY
        &&& forall|k: int| 0 <= k < self.len ==> (#[trigger] self.items@[ring_slot(self.head as int, k)]) is Some
    }

    closed spec fn view(&self) -> Seq<FrameOwned> {
        Seq::new(self.len as nat, |k: int| self.items@[ring_slot(self.head as int, k)]->Some_0)
    }

    fn new() -> (out: Self)
        ensures
            out.wf(),
            out.view() == Seq::<FrameOwned>::empty(),
    {
        let mut items: Vec<Option<FrameOwned>> = Vec::new();
        let mut i: usize = 0;
        while i < QUEUE_CAPACITY
            invariant
                i <= QUEUE_CAPACITY,
                items@.len() == i,
            decreases QUEUE_CAPACITY - i,
        {
            items.push(None);
            i = i + 1;
        }
        let out = FixedQueue { items, head: 0, len: 0 };
        assert(out.view() =~= Seq::<FrameOwned>::empty());
        out
    }

    fn push_back(&mut self, item: FrameOwned) -> (out: Result<(), BackendError>)
        requires
            old(self).wf(),
        ensures
            final(self).wf(),
            old(self).view().len() >= QUEUE_CAPACITY ==> out == Err::<(), BackendError>(BackendError::QueueFull)
                && final(self).view() == old(self).view(),
            old(self).view().len() < QUEUE_CAPACITY ==> out == Ok::<(), BackendError>(()) && final(self).view() == old(self).view().push(item),
    {
        if self.len >= QUEUE_CAPACITY {
            return Err(BackendError::QueueFull);
        }
        let idx = (self.head + self.len) % QUEUE_CAPACITY;
        self.items.set(idx, Some(item));
        self.len = self.len + 1;
        assert forall|k: int| 0 <= k < self.len implies (#[trigger] self.items@[ring_slot(self.head as int, k)]) is Some by {
            if k < old(self).len {
                assert(ring_slot(self.head as int, k) != idx);
            }
        }
        assert(self.view() =~= old(self).view().push(item)) by {
            assert forall|k: int| 0 <= k < old(self).len implies ring_slot(self.head as int, k) != idx by {}
        }
        Ok(())
    }

    fn push_front(&mut self, item: FrameOwned) -> (out: Result<(), BackendError>)
        requires
            old(self).wf(),
        ensures
            final(self).wf(),
            old(self).view().len() >= QUEUE_CAPACITY ==> out == Err::<(), BackendError>(BackendError::QueueFull)
                && final(self).view() == old(self).view(),
            old(self).view().len() < QUEUE_CAPACITY ==> out == Ok::<(), BackendError>(()) && final(self).view() == seq![item] + old(self).view(),
    {
        if self.len >= QUEUE_CAPACITY {
            return Err(BackendError::QueueFull);
        }
        self.head = if self.head == 0 {
            QUEUE_CAPACITY - 1
        } else {
            self.head - 1
        };
        let head = self.head;
        self.items.set(head, Some(item));
        self.len = self.len + 1;
        assert forall|k: int| 1 <= k < self.len implies ring_slot(self.head as int, k) == ring_slot(
            old(self).head as int,
            k - 1,
        ) && ring_slot(self.head as int, k) != head by {}
        assert forall|k: int| 0 <= k < self.len implies (#[trigger] self.items@[ring_slot(self.head as int, k)]) is Some by {
            if k >= 1 {
                assert(old(self).items@[ring_slot(old(self).head as int, k - 1)] is Some);
            }
        }
        assert(self.view() =~= seq![item] + old(self).view());
        Ok(())
    }

    fn pop_front(&mut self) -> (out: Option<FrameOwned>)
        requires
            old(self).wf(),
        ensures
            final(self).wf(),
            old(self).view().len() == 0 ==> out is None && final(self).view() == old(self).view(),
            old(self).view().len() > 0 ==> out == Some(old(self).view()[0]) && final(self).view() == old(
                self,
            ).view().drop_first(),
    {
        if self.len == 0 {
            return None;
        }
        let idx = self.head;
        assert(self.items@[ring_slot(self.head as int, 0)] is Some);
        self.head = (self.head + 1) % QUEUE_CAPACITY;
        self.len = self.len - 1;
        let item = self.items[idx];
        self.items.set(idx, None);
        assert forall|k: int| 0 <= k < self.len implies ring_slot(self.head as int, k) == ring_slot(
            old(self).head as int,
            k + 1,
        ) && ring_slot(self.head as int, k) != idx by {}
        assert forall|k: int| 0 <= k < self.len implies (#[trigger] self.items@[ring_slot(self.head as int, k)]) is Some by {
            assert(old(self).items@[ring_slot(old(self).head as int, k + 1)] is Some);
        }
        assert(self.view() =~= old(self).view().drop_first());
        item
    }

    fn peek_label(&self) -> (out: Option<u8>)
        requires
            self.wf(),
        ensures
            self.view().len() == 0 ==> out is None,
            self.view().len() > 0 ==> out == Some(self.view()[0].spec_label()),
    {
        if self.len == 0 {
            return None;
        }
        assert(self.items@[ring_slot(self.head as int, 0)] is Some);
        match &self.items[self.head] {
            Some(frame) => Some(frame.label()),
            None => None,
        }
    }
}

/// The queues of all roles.
pub struct BackendState {
    roles: Vec<FixedQueue>,
}

impl BackendState {
    pub closed spec fn wf(&self) -> bool {
        &&& self.roles@.len() == ROLE_CAPACITY
        &&& forall|r: int| 0 <= r < ROLE_CAPACITY ==> (#[trigger] self.roles@[r]).wf()
    }

    /// The frames queued for each role, front first.
    pub closed spec fn view(&self) -> Seq<Seq<FrameOwned>> {
        Seq::new(self.roles@.len(), |r: int| self.roles@[r].view())
    }

    pub fn new() -> (out: Self)
        ensures
            out.wf(),
            out.view() == Seq::new(ROLE_CAPACITY as nat, |r: int| Seq::<FrameOwned>::empty()),
    {
        let mut roles: Vec<FixedQueue> = Vec::new();
        let mut i: usize = 0;
        while i < ROLE_CAPACITY
            invariant
                i <= ROLE_CAPACITY,
                roles@.len() == i,
                forall|r: int| 0 <= r < i ==> (#[trigger] roles@[r]).wf() && roles@[r].view() == Seq::<FrameOwned>::empty(),
            decreases ROLE_CAPACITY - i,
        {
            roles.push(FixedQueue::new());
            i = i + 1;
        }
        let out = BackendState { roles };
        assert(out.view() =~= Seq::new(ROLE_CAPACITY as nat, |r: int| Seq::<FrameOwned>::empty()));
        out
    }

    /// Appends `frame` behind the frames queued for `role`.
    pub fn push_back(&mut self, role: u8, frame: FrameOwned) -> (out: Result<(), BackendError>)
        requires
            old(self).wf(),
        ensures
            final(self).wf(),
            out == queue_push_result(old(self).view(), role),
            final(self).view() == (if out is Ok {
                old(self).view().update(role as int, old(self).view()[role as int].push(frame))
            } else {
                old(self).view()
            }),
    {
        if role as usize >= ROLE_CAPACITY {
            return Err(BackendError::RoleOutOfRange);
        }
        let r = role as usize;
        let mut queue = FixedQueue { items: Vec::new(), head: 0, len: 0 };
        std::mem::swap(&mut queue, &mut self.roles[r]);
        let out = queue.push_back(frame);
        self.roles.set(r, queue);
        proof {
            assert forall|q: int| 0 <= q < ROLE_CAPACITY implies (#[trigger] self.roles@[q]).wf() by {
                if q != r {
                    assert(self.roles@[q] == old(self).roles@[q]);
                }
            }
        }
        assert(self.view() =~= (if out is Ok {
            old(self).view().update(role as int, old(self).view()[role as int].push(frame))
        } else {
            old(self).view()
        }));
        out
    }

    /// Puts `frame` back in front of the frames queued for `role`.
    pub fn push_front(&mut self, role: u8, frame: FrameOwned) -> (out: Result<(), BackendError>)
        requires
            old(self).wf(),
        ensures
            final(self).wf(),
            out == queue_push_result(old(self).view(), role),
            final(self).view() == (if out is Ok {
                old(self).view().update(role as int, seq![frame] + old(self).view()[role as int])
            } else {
                old(self).view()
            }),
    {
        if role as usize >= ROLE_CAPACITY {
            return Err(BackendError::RoleOutOfRange);
        }
        let r = role as usize;
        let mut queue = FixedQueue { items: Vec::new(), head: 0, len: 0 };
        std::mem::swap(&mut queue, &mut self.roles[r]);
        let out = queue.push_front(frame);
        self.roles.set(r, queue);
        proof {
            assert forall|q: int| 0 <= q < ROLE_CAPACITY implies (#[trigger] self.roles@[q]).wf() by {
                if q != r {
                    assert(self.roles@[q] == old(self).roles@[q]);
                }
            }
        }
        assert(self.view() =~= (if out is Ok {
            old(self).view().update(role as int, seq![frame] + old(self).view()[role as int])
        } else {
            old(self).view()
        }));
        out
    }

    /// Takes the front frame queued for `role`, if any.
    pub fn pop_front(&mut self, role: u8) -> (out: Result<Option<FrameOwned>, BackendError>)
        requires
            old(self).wf(),
        ensures
            final(self).wf(),
            role >= ROLE_CAPACITY ==> out == Err::<Option<FrameOwned>, BackendError>(BackendError::RoleOutOfRange)
                && final(self).view() == old(self).view(),
            role < ROLE_CAPACITY && old(self).view()[role as int].len() == 0 ==> out == Ok::<
                Option<FrameOwned>,
                BackendError,
            >(None) && final(self).view() == old(self).view(),
            role < ROLE_CAPACITY && old(self).view()[role as int].len() > 0 ==> out == Ok::<
                Option<FrameOwned>,
                BackendError,
            >(Some(old(self).view()[role as int][0])) && final(self).view() == old(self).view().update(
                role as int,
                old(self).view()[role as int].drop_first(),
            ),
    {
        if role as usize >= ROLE_CAPACITY {
            return Err(BackendError::RoleOutOfRange);
        }
        let r = role as usize;
        let mut queue = FixedQueue { items: Vec::new(), head: 0, len: 0 };
        std::mem::swap(&mut queue, &mut self.roles[r]);
        let out = queue.pop_front();
        self.roles.set(r, queue);
        proof {
            assert forall|q: int| 0 <= q < ROLE_CAPACITY implies (#[trigger] self.roles@[q]).wf() by {
                if q != r {
                    assert(self.roles@[q] == old(self).roles@[q]);
                }
            }
        }
        assert(self.view() =~= (if out is Some {
            old(self).view().update(role as int, old(self).view()[role as int].drop_first())
        } else {
            old(self).view()
        }));
        Ok(out)
    }

    /// The label of the front frame queued for `role`, if any.
    pub fn peek_label(&self, role: u8) -> (out: Result<Option<u8>, BackendError>)
        requires
            self.wf(),
        ensures
            role >= ROLE_CAPACITY ==> out == Err::<Option<u8>, BackendError>(BackendError::RoleOutOfRange),
            role < ROLE_CAPACITY && self.view()[role as int].len() == 0 ==> out == Ok::<Option<u8>, BackendError>(None),
            role < ROLE_CAPACITY && self.view()[role as int].len() > 0 ==> out == Ok::<Option<u8>, BackendError>(
                Some(self.view()[role as int][0].spec_label()),
            ),
    {
        if role as usize >= ROLE_CAPACITY {
            return Err(BackendError::RoleOutOfRange);
        }
        Ok(self.roles[role as usize].peek_label())
    }

    /// How many frames are queued for `role`.
    pub fn queue_len(&self, role: u8) -> (out: Result<usize, BackendError>)
        requires
            self.wf(),
        ensures
            role >= ROLE_CAPACITY ==> out == Err::<usize, BackendError>(BackendError::RoleOutOfRange),
            role < ROLE_CAPACITY ==> out == Ok::<usize, BackendError>(self.view()[role as int].len() as usize),
    {
        if role as usize >= ROLE_CAPACITY {
            return Err(BackendError::RoleOutOfRange);
        }
        Ok(self.roles[role as usize].len)
    }
}

/// What a push for `role` answers, given the queues before it.
pub open spec fn queue_push_result(queues: Seq<Seq<FrameOwned>>, role: u8) -> Result<(), BackendError> {
    if role >= ROLE_CAPACITY {
        Err(BackendError::RoleOutOfRange)
    } else if queues[role as int].len() >= QUEUE_CAPACITY {
        Err(BackendError::QueueFull)
    } else {
        Ok(())
    }
}

/// A frame taken from the front of a role's queue can always be put back, and putting it back
/// restores the queues exactly as they were before it was taken.
pub proof fn lemma_dequeue_then_requeue_restores(queues: Seq<Seq<FrameOwned>>, role: u8)
    requires
        role < ROLE_CAPACITY,
        queues.len() == ROLE_CAPACITY,
        0 < queues[role as int].len() <= QUEUE_CAPACITY,
    ensures
        ({
            let taken = queues[role as int][0];
            let after = queues.update(role as int, queues[role as int].drop_first());
            &&& queue_push_result(after, role) == Ok::<(), BackendError>(())
            &&& after.update(role as int, seq![taken] + after[role as int]) == queues
        }),
{
    let after = queues.update(role as int, queues[role as int].drop_first());
    assert(seq![queues[role as int][0]] + after[role as int] =~= queues[role as int]);
    assert(after.update(role as int, seq![queues[role as int][0]] + after[role as int]) =~= queues);
}

/// One parked receiver per role: storing replaces the parked one, taking empties the slot.
pub struct WakerState<W> {
    roles: Vec<Option<W>>,
}

impl<W> WakerState<W> {
    pub fn new() -> (out: Self)
        ensures
            out@ == Seq::new(ROLE_CAPACITY as nat, |r: int| None::<W>),
    {
        let mut roles: Vec<Option<W>> = Vec::new();
        let mut i: usize = 0;
        while i < ROLE_CAPACITY
            invariant
                i <= ROLE_CAPACITY,
                roles@ == Seq::new(i as nat, |r: int| None::<W>),
            decreases ROLE_CAPACITY - i,
        {
            roles.push(None);
            i = i + 1;
            assert(roles@ =~= Seq::new(i as nat, |r: int| None::<W>));
        }
        WakerState { roles }
    }

    pub fn store(&mut self, role: u8, waker: W) -> (out: Result<(), BackendError>)
        requires
            old(self)@.len() == ROLE_CAPACITY,
        ensures
            role >= ROLE_CAPACITY ==> out == Err::<(), BackendError>(BackendError::RoleOutOfRange)
                && final(self)@ == old(self)@,
            role < ROLE_CAPACITY ==> out is Ok && final(self)@ == old(self)@.update(role as int, Some(waker)),
    {
        if role as usize >= ROLE_CAPACITY {
            return Err(BackendError::RoleOutOfRange);
        }
        self.roles.set(role as usize, Some(waker));
        Ok(())
    }

    pub fn take(&mut self, role: u8) -> (out: Result<Option<W>, BackendError>)
        requires
            old(self)@.len() == ROLE_CAPACITY,
        ensures
            role >= ROLE_CAPACITY ==> out is Err && out->Err_0 == BackendError::RoleOutOfRange && final(self)@ == old(self)@,
            role < ROLE_CAPACITY ==> out is Ok && out->Ok_0 == old(self)@[role as int] && final(self)@ == old(
                self,
            )@.update(role as int, None),
    {
        if role as usize >= ROLE_CAPACITY {
            return Err(BackendError::RoleOutOfRange);
        }
        let mut slot: Option<W> = None;
        std::mem::swap(&mut slot, &mut self.roles[role as usize]);
        Ok(slot)
    }
}

impl<W> View for WakerState<W> {
    type V = Seq<Option<W>>;

    closed spec fn view(&self) -> Seq<Option<W>> {
        self.roles@
    }
}

/// The host-side fixed-capacity queue backend: frames in, frames out, per role.
pub struct HostQueueBackend {
    state: BackendState,
}

impl HostQueueBackend {
    pub closed spec fn wf(&self) -> bool {
        self.state.wf()
    }

    /// The frames queued for each role, front first.
    pub closed spec fn queues(&self) -> Seq<Seq<FrameOwned>> {
        self.state.view()
    }

    pub fn new() -> (out: Self)
        ensures
            out.wf(),
            out.queues() == Seq::new(ROLE_CAPACITY as nat, |r: int| Seq::<FrameOwned>::empty()),
    {
        HostQueueBackend { state: BackendState::new() }
    }

    /// Queues `frame` for `role` behind what is already there.
    pub fn enqueue(&mut self, role: u8, frame: FrameOwned) -> (out: Result<(), BackendError>)
        requires
            old(self).wf(),
        ensures
            final(self).wf(),
            out == queue_push_result(old(self).queues(), role),
            final(self).queues() == (if out is Ok {
                old(self).queues().update(role as int, old(self).queues()[role as int].push(frame))
            } else {
                old(self).queues()
            }),
    {
        self.state.push_back(role, frame)
    }

    /// Frames `bytes` with label 0 and queues it for `role`.
    pub fn enqueue_bytes(&mut self, role: u8, bytes: &[u8]) -> (out: Result<(), BackendError>)
        requires
            old(self).wf(),
        ensures
            final(self).wf(),
            bytes@.len() > PAYLOAD_CAPACITY ==> out == Err::<(), BackendError>(BackendError::PayloadTooLarge)
                && final(self).queues() == old(self).queues(),
            bytes@.len() <= PAYLOAD_CAPACITY ==> out == queue_push_result(old(self).queues(), role),
            bytes@.len() <= PAYLOAD_CAPACITY && out is Ok ==> exists|f: FrameOwned|
                f.spec_label() == 0 && f.bytes() == bytes@ && final(self).queues() == old(self).queues().update(
                    role as int,
                    old(self).queues()[role as int].push(f),
                ),
            bytes@.len() <= PAYLOAD_CAPACITY && out is Err ==> final(self).queues() == old(self).queues(),
    {
        let frame = FrameOwned::from_bytes(0, bytes)?;
        self.enqueue(role, frame)
    }

    /// Takes the front frame queued for `role`, if any.
    pub fn dequeue(&mut self, role: u8) -> (out: Result<Option<FrameOwned>, BackendError>)
        requires
            old(self).wf(),
        ensures
            final(self).wf(),
            role >= ROLE_CAPACITY ==> out == Err::<Option<FrameOwned>, BackendError>(BackendError::RoleOutOfRange)
                && final(self).queues() == old(self).queues(),
            role < ROLE_CAPACITY && old(self).queues()[role as int].len() == 0 ==> out == Ok::<
                Option<FrameOwned>,
                BackendError,
            >(None) && final(self).queues() == old(self).queues(),
            role < ROLE_CAPACITY && old(self).queues()[role as int].len() > 0 ==> out == Ok::<
                Option<FrameOwned>,
                BackendError,
            >(Some(old(self).queues()[role as int][0])) && final(self).queues() == old(self).queues().update(
                role as int,
                old(self).queues()[role as int].drop_first(),
            ),
    {
        self.state.pop_front(role)
    }

    /// Puts a frame that was taken back in front of the queue of `role`.
    pub fn requeue(&mut self, role: u8, frame: FrameOwned) -> (out: Result<(), BackendError>)
        requires
            old(self).wf(),
        ensures
            final(self).wf(),
            out == queue_push_result(old(self).queues(), role),
            final(self).queues() == (if out is Ok {
                old(self).queues().update(role as int, seq![frame] + old(self).queues()[role as int])
            } else {
                old(self).queues()
            }),
    {
        self.state.push_front(role, frame)
    }

    pub fn peek_label(&self, role: u8) -> (out: Result<Option<u8>, BackendError>)
        requires
            self.wf(),
        ensures
            role >= ROLE_CAPACITY ==> out == Err::<Option<u8>, BackendError>(BackendError::RoleOutOfRange),
            role < ROLE_CAPACITY && self.queues()[role as int].len() == 0 ==> out == Ok::<Option<u8>, BackendError>(None),
            role < ROLE_CAPACITY && self.queues()[role as int].len() > 0 ==> out == Ok::<Option<u8>, BackendError>(
                Some(self.queues()[role as int][0].spec_label()),
            ),
    {
        self.state.peek_label(role)
    }

    pub fn queue_len(&self, role: u8) -> (out: Result<usize, BackendError>)
        requires
            self.wf(),
        ensures
            role >= ROLE_CAPACITY ==> out == Err::<usize, BackendError>(BackendError::RoleOutOfRange),
            role < ROLE_CAPACITY ==> out == Ok::<usize, BackendError>(self.queues()[role as int].len() as usize),
    {
        self.state.queue_len(role)
    }
}

impl Default for HostQueueBackend {
    fn default() -> (out: Self)
        ensures
            out.wf(),
            out.queues() == Seq::new(ROLE_CAPACITY as nat, |r: int| Seq::<FrameOwned>::empty()),
    {
        Self::new()
    }
}

} // verus!
