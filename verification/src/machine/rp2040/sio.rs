//! Frames between the RP2040's two cores: how a frame is packed into FIFO words (a header
//! word with label and length, a route word with the destination role, and the payload four
//! bytes to a word, little-endian) and unpacked again; the one-frame requeue slot of each role;
//! the core-1 launch handshake; and the host backend that stands in for the FIFO.
use vstd::prelude::*;
use crate::port::host_queue::{
    BackendError, FrameOwned, HostQueueBackend, PAYLOAD_CAPACITY, ROLE_CAPACITY, queue_push_result,
};

verus! {

pub const RP2040_FRAME_MAGIC: u32 = 0x4849_0000;
pub const RP2040_FRAME_MAGIC_MASK: u32 = 0xffff_0000;
pub const RP2040_ROUTE_MAGIC: u32 = 0x5254_0000;
pub const CORE1_LAUNCH_RETRIES: u8 = 16;
pub const CORE1_LAUNCH_SEQUENCE_LEN: usize = 6;

/// The header word of a frame with `label` and `len` payload bytes.
pub open spec fn spec_pack_header(label: u8, len: u32) -> u32 {
    0x4849_0000u32 | (label as u32) | ((len & 0xff) << 8)
}

/// What a header word says: not a frame header (`None`), a payload too long, or label and length.
pub open spec fn spec_decode_header(header: u32) -> Result<Option<(u8, usize)>, BackendError> {
    if header & 0xffff_0000u32 != 0x4849_0000u32 {
        Ok(None)
    } else if ((header >> 8u32) & 0xffu32) > PAYLOAD_CAPACITY {
        Err(BackendError::PayloadTooLarge)
    } else {
        Ok(Some(((header & 0xffu32) as u8, ((header >> 8u32) & 0xffu32) as usize)))
    }
}

pub open spec fn spec_pack_route(role: u8) -> u32 {
    0x5254_0000u32 | (role as u32)
}

pub open spec fn spec_decode_route(route: u32) -> Result<u8, BackendError> {
    if route & 0xffff_0000u32 != 0x5254_0000u32 {
        Err(BackendError::InvalidFrame)
    } else if (route & 0xffu32) >= ROLE_CAPACITY {
        Err(BackendError::RoleOutOfRange)
    } else {
        Ok((route & 0xffu32) as u8)
    }
}

/// The `i`-th byte of `b` widened to a word, or 0 past its end.
pub open spec fn byte_at(b: Seq<u8>, i: int) -> u32 {
    if 0 <= i < b.len() {
        b[i] as u32
    } else {
        0
    }
}

/// Up to four bytes as a little-endian word, zero-padded.
pub open spec fn spec_le_word(b: Seq<u8>) -> u32 {
    byte_at(b, 0) | (byte_at(b, 1) << 8u32) | (byte_at(b, 2) << 16u32) | (byte_at(b, 3) << 24u32)
}

/// Byte `k` (0 to 3) of a little-endian word.
pub open spec fn word_byte(w: u32, k: int) -> u8 {
    if k == 0 {
        (w & 0xffu32) as u8
    } else if k == 1 {
        ((w >> 8u32) & 0xffu32) as u8
    } else if k == 2 {
        ((w >> 16u32) & 0xffu32) as u8
    } else {
        ((w >> 24u32) & 0xffu32) as u8
    }
}

pub open spec fn min_int(a: int, b: int) -> int {
    if a <= b {
        a
    } else {
        b
    }
}

/// The payload words of `b`: each four-byte chunk as a little-endian word.
pub open spec fn spec_payload_words(b: Seq<u8>) -> Seq<u32> {
    Seq::new(
        ((b.len() + 3) / 4) as nat,
        |w: int| spec_le_word(b.subrange(4 * w, min_int(4 * w + 4, b.len() as int))),
    )
}

/// The `len` payload bytes that `words` carry.
pub open spec fn spec_unpack_payload(words: Seq<u32>, len: nat) -> Seq<u8> {
    Seq::new(len, |i: int| word_byte(words[i / 4], i % 4))
}

/// All the words that carry a frame to `role`.
pub open spec fn spec_frame_words(role: u8, label: u8, b: Seq<u8>) -> Seq<u32> {
    seq![spec_pack_header(label, b.len() as u32), spec_pack_route(role)] + spec_payload_words(b)
}

pub fn pack_header(frame: &FrameOwned) -> (out: u32)
    ensures
        out == spec_pack_header(frame.spec_label(), frame.bytes().len() as u32),
{
    let label = frame.label();
    let len = frame.len();
    0x4849_0000u32 | (label as u32) | (((len as u32) & 0xff) << 8)
}

pub fn decode_header(header: u32) -> (out: Result<Option<(u8, usize)>, BackendError>)
    ensures
        out == spec_decode_header(header),
{
    if header & RP2040_FRAME_MAGIC_MASK != RP2040_FRAME_MAGIC {
        return Ok(None);
    }
    let label = (header & 0xff) as u8;
    let len = ((header >> 8) & 0xff) as usize;
    if len > PAYLOAD_CAPACITY {
        return Err(BackendError::PayloadTooLarge);
    }
    Ok(Some((label, len)))
}

pub fn pack_route(role: u8) -> (out: u32)
    ensures
        out == spec_pack_route(role),
{
    RP2040_ROUTE_MAGIC | (role as u32)
}

pub fn validate_role(role: u8) -> (out: Result<usize, BackendError>)
    ensures
        role < ROLE_CAPACITY ==> out == Ok::<usize, BackendError>(role as usize),
        role >= ROLE_CAPACITY ==> out == Err::<usize, BackendError>(BackendError::RoleOutOfRange),
{
    if (role as usize) < ROLE_CAPACITY {
        Ok(role as usize)
    } else {
        Err(BackendError::RoleOutOfRange)
    }
}

pub fn decode_route(route: u32) -> (out: Result<u8, BackendError>)
    ensures
        out == spec_decode_route(route),
{
    if route & RP2040_FRAME_MAGIC_MASK != RP2040_ROUTE_MAGIC {
        return Err(BackendError::InvalidFrame);
    }
    assert(route & 0xffu32 < 256) by (bit_vector);
    let role = (route & 0xff) as u8;
    let _ = validate_role(role)?;
    Ok(role)
}

/// The core that serves `role`: core 1 for role 1, core 0 for roles 0, 2 and 3.
pub fn role_core(role: u8) -> (out: Result<u8, BackendError>)
    ensures
        role == 1 ==> out == Ok::<u8, BackendError>(1),
        role == 0 || role == 2 || role == 3 ==> out == Ok::<u8, BackendError>(0),
        role >= ROLE_CAPACITY ==> out == Err::<u8, BackendError>(BackendError::RoleOutOfRange),
{
    match role {
        0 | 2 | 3 => Ok(0),
        1 => Ok(1),
        _ => Err(BackendError::RoleOutOfRange),
    }
}

/// How many words carry `len` payload bytes.
pub fn fifo_word_count(len: usize) -> (out: usize)
    ensures
        out == (len + 3) / 4,
{
    len / 4 + if len % 4 != 0 {
        1
    } else {
        0
    }
}

pub fn pack_payload_word(bytes: &[u8]) -> (out: u32)
    requires
        bytes@.len() <= 4,
    ensures
        out == spec_le_word(bytes@),
{
    let n = bytes.len();
    let b0: u32 = if n > 0 {
        bytes[0] as u32
    } else {
        0
    };
    let b1: u32 = if n > 1 {
        bytes[1] as u32
    } else {
        0
    };
    let b2: u32 = if n > 2 {
        bytes[2] as u32
    } else {
        0
    };
    let b3: u32 = if n > 3 {
        bytes[3] as u32
    } else {
        0
    };
    b0 | (b1 << 8) | (b2 << 16) | (b3 << 24)
}

/// The words that carry `frame` to `role`: header, route, then the payload words.
pub fn pack_frame_words(role: u8, frame: &FrameOwned) -> (out: Vec<u32>)
    ensures
        out@ == spec_frame_words(role, frame.spec_label(), frame.bytes()),
{
    let bytes = frame.as_slice();
    let len = bytes.len();
    let mut out: Vec<u32> = Vec::new();
    out.push(pack_header(frame));
    out.push(pack_route(role));
    let count = fifo_word_count(len);
    assert(out@.subrange(0, 2) =~= seq![spec_pack_header(frame.spec_label(), len as u32), spec_pack_route(role)]);
    let mut w: usize = 0;
    while w < count
        invariant
            bytes@ == frame.bytes(),
            len == bytes@.len(),
            len <= PAYLOAD_CAPACITY,
            count == (len + 3) / 4,
            w <= count,
            out@.len() == 2 + w,
            out@.subrange(0, 2) == seq![
                spec_pack_header(frame.spec_label(), len as u32),
                spec_pack_route(role),
            ],
            forall|j: int| 0 <= j < w ==> out@[2 + j] == #[trigger] spec_payload_words(bytes@)[j],
        decreases count - w,
    {
        let start = w * 4;
        let end = if start + 4 < len {
            start + 4
        } else {
            len
        };
        let chunk = vstd::slice::slice_subrange(bytes, start, end);
        let word = pack_payload_word(chunk);
        out.push(word);
        w = w + 1;
    }
    assert(out@ =~= spec_frame_words(role, frame.spec_label(), frame.bytes()));
    out
}

/// The frame with `label` whose `len` payload bytes `words` carry.
pub fn unpack_payload(label: u8, len: usize, words: &[u32]) -> (out: FrameOwned)
    requires
        len <= PAYLOAD_CAPACITY,
        words@.len() == (len + 3) / 4,
    ensures
        out.spec_label() == label,
        out.bytes() == spec_unpack_payload(words@, len as nat),
{
    let mut payload: Vec<u8> = Vec::new();
    let mut i: usize = 0;
    while i < len
        invariant
            len <= PAYLOAD_CAPACITY,
            words@.len() == (len + 3) / 4,
            i <= len,
            payload@ == spec_unpack_payload(words@, i as nat),
        decreases len - i,
    {
        let word = words[i / 4];
        let k = i % 4;
        let byte: u8 = if k == 0 {
            (word & 0xff) as u8
        } else if k == 1 {
            ((word >> 8) & 0xff) as u8
        } else if k == 2 {
            ((word >> 16) & 0xff) as u8
        } else {
            ((word >> 24) & 0xff) as u8
        };
        payload.push(byte);
        i = i + 1;
        assert(payload@ =~= spec_unpack_payload(words@, i as nat));
    }
    let framed = FrameOwned::from_bytes(label, payload.as_slice());
    assert(framed is Ok);
    framed.unwrap()
}

proof fn lemma_le_word_bytes(b0: u32, b1: u32, b2: u32, b3: u32)
    by (bit_vector)
    requires
        b0 < 256,
        b1 < 256,
        b2 < 256,
        b3 < 256,
    ensures
        ((b0 | (b1 << 8u32) | (b2 << 16u32) | (b3 << 24u32)) & 0xffu32) == b0,
        (((b0 | (b1 << 8u32) | (b2 << 16u32) | (b3 << 24u32)) >> 8u32) & 0xffu32) == b1,
        (((b0 | (b1 << 8u32) | (b2 << 16u32) | (b3 << 24u32)) >> 16u32) & 0xffu32) == b2,
        (((b0 | (b1 << 8u32) | (b2 << 16u32) | (b3 << 24u32)) >> 24u32) & 0xffu32) == b3,
{
}

proof fn lemma_word_byte_of_le_word(b: Seq<u8>, k: int)
    requires
        b.len() <= 4,
        0 <= k < b.len(),
    ensures
        word_byte(spec_le_word(b), k) == b[k],
{
    lemma_le_word_bytes(byte_at(b, 0), byte_at(b, 1), byte_at(b, 2), byte_at(b, 3));
}

/// Unpacking the payload words of `b` gives `b` back.
pub proof fn lemma_payload_words_round_trip(b: Seq<u8>)
    ensures
        spec_unpack_payload(spec_payload_words(b), b.len()) == b,
{
    let words = spec_payload_words(b);
    assert forall|i: int| 0 <= i < b.len() implies #[trigger] spec_unpack_payload(words, b.len())[i] == b[i] by {
        let w = i / 4;
        let k = i % 4;
        let chunk = b.subrange(4 * w, min_int(4 * w + 4, b.len() as int));
        assert(0 <= w < (b.len() + 3) / 4);
        assert(chunk[k] == b[i]);
        lemma_word_byte_of_le_word(chunk, k);
    }
    assert(spec_unpack_payload(words, b.len()) =~= b);
}

/// A header word gives back the label and length it was packed with, and a route word the role.
pub proof fn lemma_header_and_route_round_trip(label: u8, len: u32, role: u8)
    requires
        len <= PAYLOAD_CAPACITY,
        role < ROLE_CAPACITY,
    ensures
        spec_decode_header(spec_pack_header(label, len)) == Ok::<Option<(u8, usize)>, BackendError>(
            Some((label, len as usize)),
        ),
        spec_decode_route(spec_pack_route(role)) == Ok::<u8, BackendError>(role),
{
    let l = label as u32;
    let r = role as u32;
    assert((0x4849_0000u32 | l | ((len & 0xff) << 8u32)) & 0xffff_0000u32 == 0x4849_0000u32) by (bit_vector)
        requires
            l < 256,
            len <= 96,
    ;
    assert(((0x4849_0000u32 | l | ((len & 0xff) << 8u32)) >> 8u32) & 0xffu32 == len) by (bit_vector)
        requires
            l < 256,
            len <= 96,
    ;
    assert((0x4849_0000u32 | l | ((len & 0xff) << 8u32)) & 0xffu32 == l) by (bit_vector)
        requires
            l < 256,
            len <= 96,
    ;
    assert((0x5254_0000u32 | r) & 0xffff_0000u32 == 0x5254_0000u32) by (bit_vector)
        requires
            r < 4,
    ;
    assert((0x5254_0000u32 | r) & 0xffu32 == r) by (bit_vector)
        requires
            r < 4,
    ;
}

/// One frame per role that was taken from the FIFO for another role and waits to be picked up.
pub struct RequeueSlots {
    slots: Vec<Option<FrameOwned>>,
}

impl View for RequeueSlots {
    type V = Seq<Option<FrameOwned>>;

    closed spec fn view(&self) -> Seq<Option<FrameOwned>> {
        self.slots@
    }
}

impl RequeueSlots {
    pub fn new() -> (out: Self)
        ensures
            out@ == Seq::new(ROLE_CAPACITY as nat, |r: int| None::<FrameOwned>),
    {
        let mut slots: Vec<Option<FrameOwned>> = Vec::new();
        let mut i: usize = 0;
        while i < ROLE_CAPACITY
            invariant
                i <= ROLE_CAPACITY,
                slots@ == Seq::new(i as nat, |r: int| None::<FrameOwned>),
            decreases ROLE_CAPACITY - i,
        {
            slots.push(None);
            i = i + 1;
            assert(slots@ =~= Seq::new(i as nat, |r: int| None::<FrameOwned>));
        }
        RequeueSlots { slots }
    }

    /// Parks `frame` for `role`; a role holds one parked frame at most.
    pub fn put(&mut self, role: u8, frame: FrameOwned) -> (out: Result<(), BackendError>)
        requires
            old(self)@.len() == ROLE_CAPACITY,
        ensures
            final(self)@.len() == ROLE_CAPACITY,
            role >= ROLE_CAPACITY ==> out == Err::<(), BackendError>(BackendError::RoleOutOfRange)
                && final(self)@ == old(self)@,
            role < ROLE_CAPACITY && old(self)@[role as int] is Some ==> out == Err::<(), BackendError>(
                BackendError::QueueFull,
            ) && final(self)@ == old(self)@,
            role < ROLE_CAPACITY && old(self)@[role as int] is None ==> out == Ok::<(), BackendError>(())
                && final(self)@ == old(self)@.update(role as int, Some(frame)),
    {
        let slot = validate_role(role)?;
        if self.slots[slot].is_some() {
            return Err(BackendError::QueueFull);
        }
        self.slots.set(slot, Some(frame));
        Ok(())
    }

    /// Takes the frame parked for `role`, if any.
    pub fn take(&mut self, role: u8) -> (out: Result<Option<FrameOwned>, BackendError>)
        requires
            old(self)@.len() == ROLE_CAPACITY,
        ensures
            final(self)@.len() == ROLE_CAPACITY,
            role >= ROLE_CAPACITY ==> out == Err::<Option<FrameOwned>, BackendError>(BackendError::RoleOutOfRange)
                && final(self)@ == old(self)@,
            role < ROLE_CAPACITY ==> out == Ok::<Option<FrameOwned>, BackendError>(old(self)@[role as int])
                && final(self)@ == old(self)@.update(role as int, None),
    {
        let slot = validate_role(role)?;
        let taken = self.slots[slot];
        self.slots.set(slot, None);
        Ok(taken)
    }

    /// The label of the frame parked for `role`, if any.
    pub fn peek_label(&self, role: u8) -> (out: Result<Option<u8>, BackendError>)
        requires
            self@.len() == ROLE_CAPACITY,
        ensures
            role >= ROLE_CAPACITY ==> out == Err::<Option<u8>, BackendError>(BackendError::RoleOutOfRange),
            role < ROLE_CAPACITY && self@[role as int] is None ==> out == Ok::<Option<u8>, BackendError>(None),
            role < ROLE_CAPACITY && self@[role as int] is Some ==> out == Ok::<Option<u8>, BackendError>(
                Some(self@[role as int]->Some_0.spec_label()),
            ),
    {
        let slot = validate_role(role)?;
        match &self.slots[slot] {
            Some(frame) => Ok(Some(frame.label())),
            None => Ok(None),
        }
    }
}

/// The words core 0 hands core 1 to start it: two zeros, a one, then vector table, stack and entry.
pub fn core1_launch_sequence(vector_table: u32, stack_top: u32, entry: u32) -> (out: [u32; 6])
    ensures
        out@ == seq![0u32, 0u32, 1u32, vector_table, stack_top, entry],
{
    let out = [0, 0, 1, vector_table, stack_top, entry];
    assert(out@ =~= seq![0u32, 0u32, 1u32, vector_table, stack_top, entry]);
    out
}

/// What the launch handshake does next.
#[derive(Clone, Copy, Debug, PartialEq, Eq, Structural)]
pub enum Core1LaunchStep {
    /// Push the word at the (new) position.
    Continue,
    /// Core 1 echoed every word.
    Launched,
    /// Too many echoes came back wrong.
    GaveUp,
}

/// The position in the launch sequence and how many times the handshake started over.
#[derive(Clone, Copy, Debug, PartialEq, Eq, Structural)]
pub struct Core1Launch {
    pub index: usize,
    pub failures: u8,
}

impl Core1Launch {
    pub fn new() -> (out: Self)
        ensures
            out.index == 0,
            out.failures == 0,
    {
        Core1Launch { index: 0, failures: 0 }
    }

    /// Whether the FIFO is drained before pushing `word`: before every zero.
    pub fn drains_before(word: u32) -> (out: bool)
        ensures
            out == (word == 0),
    {
        word == 0
    }

    /// Takes core 1's echo of the word just pushed: a matching echo moves to the next word, a
    /// wrong one starts over and counts a failure; more than the retry budget of failures gives up.
    pub fn on_echo(&mut self, sent: u32, echoed: u32) -> (out: Core1LaunchStep)
        requires
            old(self).index < CORE1_LAUNCH_SEQUENCE_LEN,
        ensures
            echoed == sent ==> final(self).index == old(self).index + 1 && final(self).failures == old(self).failures
                && out == (if final(self).index == CORE1_LAUNCH_SEQUENCE_LEN {
                    Core1LaunchStep::Launched
                } else {
                    Core1LaunchStep::Continue
                }),
            echoed != sent ==> final(self).index == 0 && final(self).failures == old(self).failures.saturating_add(1)
                && out == (if final(self).failures > CORE1_LAUNCH_RETRIES {
                    Core1LaunchStep::GaveUp
                } else {
                    Core1LaunchStep::Continue
                }),
    {
        if echoed == sent {
            self.index = self.index + 1;
            if self.index == CORE1_LAUNCH_SEQUENCE_LEN {
                Core1LaunchStep::Launched
            } else {
                Core1LaunchStep::Continue
            }
        } else {
            self.index = 0;
            self.failures = self.failures.saturating_add(1);
            if self.failures > CORE1_LAUNCH_RETRIES {
                Core1LaunchStep::GaveUp
            } else {
                Core1LaunchStep::Continue
            }
        }
    }
}

/// The inter-core backend as the host builds it: the fixed-capacity host queues.
pub struct Rp2040SioBackend {
    host: HostQueueBackend,
}

impl Rp2040SioBackend {
    pub closed spec fn wf(&self) -> bool {
        self.host.wf()
    }

    pub closed spec fn queues(&self) -> Seq<Seq<FrameOwned>> {
        self.host.queues()
    }

    pub fn new() -> (out: Self)
        ensures
            out.wf(),
            out.queues() == Seq::new(ROLE_CAPACITY as nat, |r: int| Seq::<FrameOwned>::empty()),
    {
        Rp2040SioBackend { host: HostQueueBackend::new() }
    }

    pub fn enqueue(&mut self, role: u8, frame: FrameOwned) -> (out: Result<(), BackendError>)
        requires
            old(self).wf(),
        ensures
            final(self).wf(),
            out == queue_push_result(old(self).queues(), role),
            final(self).queues() == (if out is Ok {
                old(self).queues().update(role as int, old(self).queues()[role as int].push(frame))
            } else {
                old(self).queues()
            }),
    {
        self.host.enqueue(role, frame)
    }

    pub fn dequeue(&mut self, role: u8) -> (out: Result<Option<FrameOwned>, BackendError>)
        requires
            old(self).wf(),
        ensures
            final(self).wf(),
            role >= ROLE_CAPACITY ==> out == Err::<Option<FrameOwned>, BackendError>(BackendError::RoleOutOfRange)
                && final(self).queues() == old(self).queues(),
            role < ROLE_CAPACITY && old(self).queues()[role as int].len() == 0 ==> out == Ok::<
                Option<FrameOwned>,
                BackendError,
            >(None) && final(self).queues() == old(self).queues(),
            role < ROLE_CAPACITY && old(self).queues()[role as int].len() > 0 ==> out == Ok::<
                Option<FrameOwned>,
                BackendError,
            >(Some(old(self).queues()[role as int][0])) && final(self).queues() == old(self).queues().update(
                role as int,
                old(self).queues()[role as int].drop_first(),
            ),
    {
        self.host.dequeue(role)
    }

    pub fn requeue(&mut self, role: u8, frame: FrameOwned) -> (out: Result<(), BackendError>)
        requires
            old(self).wf(),
        ensures
            final(self).wf(),
            out == queue_push_result(old(self).queues(), role),
            final(self).queues() == (if out is Ok {
                old(self).queues().update(role as int, seq![frame] + old(self).queues()[role as int])
            } else {
                old(self).queues()
            }),
    {
        self.host.requeue(role, frame)
    }

    pub fn peek_label(&self, role: u8) -> (out: Result<Option<u8>, BackendError>)
        requires
            self.wf(),
        ensures
            role >= ROLE_CAPACITY ==> out == Err::<Option<u8>, BackendError>(BackendError::RoleOutOfRange),
            role < ROLE_CAPACITY && self.queues()[role as int].len() == 0 ==> out == Ok::<Option<u8>, BackendError>(None),
            role < ROLE_CAPACITY && self.queues()[role as int].len() > 0 ==> out == Ok::<Option<u8>, BackendError>(
                Some(self.queues()[role as int][0].spec_label()),
            ),
    {
        self.host.peek_label(role)
    }
}

impl Default for Rp2040SioBackend {
    fn default() -> (out: Self)
        ensures
            out.wf(),
            out.queues() == Seq::new(ROLE_CAPACITY as nat, |r: int| Seq::<FrameOwned>::empty()),
    {
        Self::new()
    }
}

} // verus!
