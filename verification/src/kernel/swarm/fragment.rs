//! Fragments that split a payload larger than a frame, and the buffer that puts them back together.
use vstd::prelude::*;
use crate::seqs::{count, count_upto, lemma_count_upto_bound, lemma_count_upto_update};
use crate::wire::{be16, read_be16, read_u16_be, lemma_read_be16_at};
use super::frame::SwarmError;

verus! {

pub const SWARM_FRAGMENT_HEADER_LEN: usize = 6;
pub const SWARM_FRAGMENT_CHUNK_CAPACITY: usize = 90;

/// How many fragments a payload of `len` bytes takes.
pub open spec fn spec_fragment_count(len: int) -> Result<u8, SwarmError> {
    if len == 0 {
        Ok(0u8)
    } else {
        let c = len / 90 + (if len % 90 == 0 { 0int } else { 1int });
        if c > 255 {
            Err(SwarmError::PayloadTooLarge)
        } else {
            Ok(c as u8)
        }
    }
}

/// Whether a fragment with these fields is well formed.
pub open spec fn spec_fragment_new(index: u8, count: u8, total_len: u16, chunk_len: int) -> Result<(), SwarmError> {
    if count == 0 || index >= count || total_len == 0 {
        Err(SwarmError::LengthMismatch)
    } else if chunk_len > SWARM_FRAGMENT_CHUNK_CAPACITY {
        Err(SwarmError::PayloadTooLarge)
    } else {
        match spec_fragment_count(total_len as int) {
            Err(e) => Err(e),
            Ok(expected) => {
                let start = index * 90;
                let end = start + chunk_len;
                if count != expected {
                    Err(SwarmError::LengthMismatch)
                } else if start >= total_len || end > total_len {
                    Err(SwarmError::LengthMismatch)
                } else if index + 1 < count && chunk_len != SWARM_FRAGMENT_CHUNK_CAPACITY {
                    Err(SwarmError::LengthMismatch)
                } else {
                    Ok(())
                }
            },
        }
    }
}

/// One fragment of a payload.
#[derive(Clone, Debug, PartialEq, Eq)]
pub struct SwarmFragment {
    pub fragment_id: u8,
    pub index: u8,
    pub count: u8,
    pub total_len: u16,
    pub chunk: Vec<u8>,
}

/// A fragment on the wire: id, index, count, total length, chunk length, chunk.
pub open spec fn fragment_wire(f: SwarmFragment) -> Seq<u8> {
    seq![f.fragment_id, f.index, f.count] + be16(f.total_len) + seq![f.chunk@.len() as u8] + f.chunk@
}

fn div_ceil_chunk(len: usize) -> (out: usize)
    ensures
        out == len / 90 + (if len % 90 == 0 { 0int } else { 1int }),
{
    len / 90 + if len % 90 == 0 { 0 } else { 1 }
}

impl SwarmFragment {
    pub fn fragment_count(payload_len: usize) -> (out: Result<u8, SwarmError>)
        ensures
            out == spec_fragment_count(payload_len as int),
    {
        if payload_len == 0 {
            return Ok(0);
        }
        let count = div_ceil_chunk(payload_len);
        if count > 255 {
            return Err(SwarmError::PayloadTooLarge);
        }
        Ok(count as u8)
    }

    pub fn new(fragment_id: u8, index: u8, count: u8, total_len: u16, chunk: &[u8]) -> (out: Result<Self, SwarmError>)
        ensures
            match spec_fragment_new(index, count, total_len, chunk@.len() as int) {
                Err(e) => out == Err::<Self, SwarmError>(e),
                Ok(_) => out is Ok && out->Ok_0.fragment_id == fragment_id && out->Ok_0.index == index
                    && out->Ok_0.count == count && out->Ok_0.total_len == total_len && out->Ok_0.chunk@ == chunk@,
            },
    {
        if count == 0 || index >= count || total_len == 0 {
            return Err(SwarmError::LengthMismatch);
        }
        if chunk.len() > SWARM_FRAGMENT_CHUNK_CAPACITY {
            return Err(SwarmError::PayloadTooLarge);
        }
        let expected_count = Self::fragment_count(total_len as usize)?;
        if count != expected_count {
            return Err(SwarmError::LengthMismatch);
        }
        let start = index as usize * SWARM_FRAGMENT_CHUNK_CAPACITY;
        let end = start + chunk.len();
        if start >= total_len as usize || end > total_len as usize {
            return Err(SwarmError::LengthMismatch);
        }
        if (index as usize) + 1 < count as usize && chunk.len() != SWARM_FRAGMENT_CHUNK_CAPACITY {
            return Err(SwarmError::LengthMismatch);
        }
        Ok(SwarmFragment { fragment_id, index, count, total_len, chunk: vstd::slice::slice_to_vec(chunk) })
    }

    pub fn from_payload(fragment_id: u8, payload: &[u8], index: u8) -> (out: Result<Self, SwarmError>)
        ensures
            match spec_fragment_count(payload@.len() as int) {
                Err(e) => out == Err::<Self, SwarmError>(e),
                Ok(c) => if c == 0 || index >= c {
                    out == Err::<Self, SwarmError>(SwarmError::LengthMismatch)
                } else if payload@.len() > u16::MAX {
                    out == Err::<Self, SwarmError>(SwarmError::PayloadTooLarge)
                } else {
                    let start = index * 90;
                    let end = if start + 90 < payload@.len() { start + 90 } else { payload@.len() as int };
                    match spec_fragment_new(index, c, payload@.len() as u16, end - start) {
                        Err(e) => out == Err::<Self, SwarmError>(e),
                        Ok(_) => out is Ok && out->Ok_0.fragment_id == fragment_id && out->Ok_0.index == index
                            && out->Ok_0.count == c && out->Ok_0.total_len == payload@.len()
                            && out->Ok_0.chunk@ == payload@.subrange(start, end),
                    }
                },
            },
    {
        let count = Self::fragment_count(payload.len())?;
        if count == 0 || index >= count {
            return Err(SwarmError::LengthMismatch);
        }
        if payload.len() > 65535 {
            return Err(SwarmError::PayloadTooLarge);
        }
        let start = index as usize * SWARM_FRAGMENT_CHUNK_CAPACITY;
        assert(start < payload@.len());
        let end = if start + SWARM_FRAGMENT_CHUNK_CAPACITY < payload.len() {
            start + SWARM_FRAGMENT_CHUNK_CAPACITY
        } else {
            payload.len()
        };
        Self::new(fragment_id, index, count, payload.len() as u16, &payload[start..end])
    }

    pub fn fragment_id(&self) -> (out: u8)
        ensures
            out == self.fragment_id,
    {
        self.fragment_id
    }

    pub fn index(&self) -> (out: u8)
        ensures
            out == self.index,
    {
        self.index
    }

    pub fn count(&self) -> (out: u8)
        ensures
            out == self.count,
    {
        self.count
    }

    pub fn total_len(&self) -> (out: u16)
        ensures
            out == self.total_len,
    {
        self.total_len
    }

    pub fn chunk(&self) -> (out: &[u8])
        ensures
            out@ == self.chunk@,
    {
        self.chunk.as_slice()
    }

    pub fn encode_into(&self, out: &mut [u8]) -> (res: Result<usize, SwarmError>)
        requires
            self.chunk@.len() <= SWARM_FRAGMENT_CHUNK_CAPACITY,
        ensures
            ({
                let w = fragment_wire(*self);
                if old(out)@.len() < w.len() {
                    res == Err::<usize, SwarmError>(SwarmError::FrameTooSmall) && final(out)@ == old(out)@
                } else {
                    res == Ok::<usize, SwarmError>(w.len() as usize)
                        && final(out)@ == w + old(out)@.subrange(w.len() as int, old(out)@.len() as int)
                }
            }),
    {
        let chunk_len = self.chunk.len();
        let wire_len = SWARM_FRAGMENT_HEADER_LEN + chunk_len;
        if out.len() < wire_len {
            return Err(SwarmError::FrameTooSmall);
        }
        let ghost orig = out@;
        out[0] = self.fragment_id;
        out[1] = self.index;
        out[2] = self.count;
        out[3] = (self.total_len >> 8u16) as u8;
        out[4] = self.total_len as u8;
        out[5] = chunk_len as u8;
        let ghost header = out@;
        crate::wire::write_bytes(out, SWARM_FRAGMENT_HEADER_LEN, self.chunk.as_slice());
        assert(out@ =~= fragment_wire(*self) + orig.subrange(wire_len as int, orig.len() as int));
        Ok(wire_len)
    }

    pub fn decode(input: &[u8]) -> (out: Result<Self, SwarmError>)
        ensures
            input@.len() < SWARM_FRAGMENT_HEADER_LEN ==> out == Err::<Self, SwarmError>(SwarmError::FrameTooSmall),
            input@.len() >= SWARM_FRAGMENT_HEADER_LEN ==> ({
                let chunk_len = input@[5] as int;
                if chunk_len > SWARM_FRAGMENT_CHUNK_CAPACITY {
                    out == Err::<Self, SwarmError>(SwarmError::PayloadTooLarge)
                } else if input@.len() != 6 + chunk_len {
                    out == Err::<Self, SwarmError>(SwarmError::LengthMismatch)
                } else {
                    match spec_fragment_new(input@[1], input@[2], read_be16(input@, 3), chunk_len) {
                        Err(e) => out == Err::<Self, SwarmError>(e),
                        Ok(_) => out is Ok && out->Ok_0.fragment_id == input@[0] && out->Ok_0.index == input@[1]
                            && out->Ok_0.count == input@[2] && out->Ok_0.total_len == read_be16(input@, 3)
                            && out->Ok_0.chunk@ == input@.subrange(6, input@.len() as int),
                    }
                }
            }),
    {
        if input.len() < SWARM_FRAGMENT_HEADER_LEN {
            return Err(SwarmError::FrameTooSmall);
        }
        let chunk_len = input[5] as usize;
        if chunk_len > SWARM_FRAGMENT_CHUNK_CAPACITY {
            return Err(SwarmError::PayloadTooLarge);
        }
        let expected_len = SWARM_FRAGMENT_HEADER_LEN + chunk_len;
        if input.len() != expected_len {
            return Err(SwarmError::LengthMismatch);
        }
        let n = input.len();
        Self::new(input[0], input[1], input[2], read_u16_be(input, 3), &input[SWARM_FRAGMENT_HEADER_LEN..n])
    }
}

/// A fragment that encodes decodes back to the same fields and chunk.
pub proof fn lemma_fragment_round_trip(f: SwarmFragment)
    requires
        spec_fragment_new(f.index, f.count, f.total_len, f.chunk@.len() as int) is Ok,
    ensures
        ({
            let w = fragment_wire(f);
            &&& w.len() == 6 + f.chunk@.len()
            &&& w[0] == f.fragment_id && w[1] == f.index && w[2] == f.count && w[5] == f.chunk@.len()
            &&& read_be16(w, 3) == f.total_len
            &&& w.subrange(6, w.len() as int) == f.chunk@
        }),
{
    let w = fragment_wire(f);
    assert(w.subrange(3, 5) =~= be16(f.total_len));
    lemma_read_be16_at(w, 3, f.total_len);
    assert(w.subrange(6, w.len() as int) =~= f.chunk@);
}

/// What a reassembly buffer holds: the fragment set it follows, which indices arrived, and the bytes so far.
pub struct ReassemblyModel {
    pub fragment_id: Option<u8>,
    pub total_len: usize,
    pub count: usize,
    pub received_count: usize,
    pub received: Seq<bool>,
    pub bytes: Seq<u8>,
}

pub open spec fn received_slot() -> spec_fn(bool) -> bool {
    |b: bool| b
}

/// Pushing a fragment: the answer (the payload once every fragment arrived) and the buffer afterwards.
/// A first fragment fixes the set even when the fragment itself is then refused.
pub open spec fn spec_reassembly_push(m: ReassemblyModel, f: SwarmFragment, cap: nat, slots: nat) -> (Result<Option<Seq<u8>>, SwarmError>, ReassemblyModel) {
    let total_len = f.total_len as int;
    let cnt = f.count as int;
    let index = f.index as int;
    if total_len > cap {
        (Err(SwarmError::PayloadTooLarge), m)
    } else if cnt > slots || index >= slots {
        (Err(SwarmError::TableFull), m)
    } else if m.fragment_id is Some && (m.fragment_id->Some_0 != f.fragment_id || m.total_len != total_len || m.count != cnt) {
        (Err(SwarmError::FragmentSetMismatch), m)
    } else {
        let m1 = if m.fragment_id is None {
            ReassemblyModel { fragment_id: Some(f.fragment_id), total_len: total_len as usize, count: cnt as usize, ..m }
        } else {
            m
        };
        let start = index * 90;
        let end = start + f.chunk@.len();
        if m1.received[index] {
            (Err(SwarmError::FragmentDuplicate), m1)
        } else if end > m1.total_len {
            (Err(SwarmError::LengthMismatch), m1)
        } else {
            let m2 = ReassemblyModel {
                received: m1.received.update(index, true),
                received_count: (m1.received_count + 1) as usize,
                bytes: m1.bytes.subrange(0, start) + f.chunk@ + m1.bytes.subrange(end, m1.bytes.len() as int),
                ..m1
            };
            if m2.count != 0 && m2.received_count == m2.count {
                (Ok(Some(m2.bytes.subrange(0, m2.total_len as int))), m2)
            } else {
                (Ok(None), m2)
            }
        }
    }
}

/// A buffer that reassembles up to `FRAGMENTS` fragments of a payload of at most `CAP` bytes.
#[derive(Clone)]
pub struct SwarmReassemblyBuffer<const CAP: usize, const FRAGMENTS: usize> {
    fragment_id: Option<u8>,
    total_len: usize,
    count: usize,
    received_count: usize,
    received: Vec<bool>,
    bytes: Vec<u8>,
}

impl<const CAP: usize, const FRAGMENTS: usize> SwarmReassemblyBuffer<CAP, FRAGMENTS> {
    pub closed spec fn view(&self) -> ReassemblyModel {
        ReassemblyModel {
            fragment_id: self.fragment_id,
            total_len: self.total_len,
            count: self.count,
            received_count: self.received_count,
            received: self.received@,
            bytes: self.bytes@,
        }
    }

    pub open spec fn wf(&self) -> bool {
        &&& self.view().received.len() == FRAGMENTS
        &&& self.view().bytes.len() == CAP
        &&& self.view().total_len <= CAP
        &&& self.view().received_count == count(self.view().received, received_slot())
    }

    pub open spec fn empty_model() -> ReassemblyModel {
        ReassemblyModel {
            fragment_id: None,
            total_len: 0,
            count: 0,
            received_count: 0,
            received: Seq::new(FRAGMENTS as nat, |i: int| false),
            bytes: Seq::new(CAP as nat, |i: int| 0u8),
        }
    }

    pub fn new() -> (out: Self)
        ensures
            out.wf(),
            out.view() == Self::empty_model(),
    {
        let mut received: Vec<bool> = Vec::new();
        let mut i: usize = 0;
        while i < FRAGMENTS
            invariant
                i <= FRAGMENTS,
                received@ == Seq::new(i as nat, |k: int| false),
            decreases FRAGMENTS - i,
        {
            received.push(false);
            i = i + 1;
            assert(received@ =~= Seq::new(i as nat, |k: int| false));
        }
        let mut bytes: Vec<u8> = Vec::new();
        let mut j: usize = 0;
        while j < CAP
            invariant
                j <= CAP,
                bytes@ == Seq::new(j as nat, |k: int| 0u8),
            decreases CAP - j,
        {
            bytes.push(0);
            j = j + 1;
            assert(bytes@ =~= Seq::new(j as nat, |k: int| 0u8));
        }
        proof {
            crate::seqs::lemma_count_upto_zero(received@, received_slot(), FRAGMENTS as int);
        }
        SwarmReassemblyBuffer { fragment_id: None, total_len: 0, count: 0, received_count: 0, received, bytes }
    }

    pub fn clear(&mut self)
        ensures
            final(self).wf(),
            final(self).view() == Self::empty_model(),
    {
        *self = Self::new();
    }

    pub fn is_complete(&self) -> (out: bool)
        ensures
            out == (self.view().count != 0 && self.view().received_count == self.view().count),
    {
        self.count != 0 && self.received_count == self.count
    }

    /// Pushes a fragment; answers a copy of the payload once every fragment arrived.
    pub fn push(&mut self, fragment: &SwarmFragment) -> (out: Result<Option<Vec<u8>>, SwarmError>)
        requires
            old(self).wf(),
        ensures
            final(self).wf(),
            ({
                let r = spec_reassembly_push(old(self).view(), *fragment, CAP as nat, FRAGMENTS as nat);
                &&& final(self).view() == r.1
                &&& match r.0 {
                    Ok(Some(p)) => out is Ok && out->Ok_0 is Some && out->Ok_0->Some_0@ == p,
                    Ok(None) => out == Ok::<Option<Vec<u8>>, SwarmError>(None),
                    Err(e) => out == Err::<Option<Vec<u8>>, SwarmError>(e),
                }
            }),
    {
        let total_len = fragment.total_len as usize;
        let count = fragment.count as usize;
        let index = fragment.index as usize;
        if total_len > CAP {
            return Err(SwarmError::PayloadTooLarge);
        }
        if count > FRAGMENTS || index >= FRAGMENTS {
            return Err(SwarmError::TableFull);
        }
        match self.fragment_id {
            Some(id) => {
                if id != fragment.fragment_id || self.total_len != total_len || self.count != count {
                    return Err(SwarmError::FragmentSetMismatch);
                }
            },
            None => {
                self.fragment_id = Some(fragment.fragment_id);
                self.total_len = total_len;
                self.count = count;
            },
        }
        if self.received[index] {
            return Err(SwarmError::FragmentDuplicate);
        }
        let chunk = fragment.chunk.as_slice();
        let start = index * SWARM_FRAGMENT_CHUNK_CAPACITY;
        if chunk.len() > self.total_len || start > self.total_len - chunk.len() {
            return Err(SwarmError::LengthMismatch);
        }
        let end = start + chunk.len();
        let ghost before = self.view();
        let mut k: usize = 0;
        let n = chunk.len();
        while k < n
            invariant
                n == chunk@.len(),
                end == start + n,
                end <= CAP,
                before.bytes.len() == CAP,
                before.received.len() == FRAGMENTS,
                self.bytes@.len() == CAP,
                self.view() == (ReassemblyModel { bytes: self.bytes@, ..before }),
                k <= n,
                self.bytes@ == before.bytes.subrange(0, start as int) + chunk@.subrange(0, k as int)
                    + before.bytes.subrange(start + k, CAP as int),
            decreases n - k,
        {
            self.bytes.set(start + k, chunk[k]);
            assert(self.bytes@ =~= before.bytes.subrange(0, start as int) + chunk@.subrange(0, k + 1int)
                + before.bytes.subrange(start + k + 1, CAP as int));
            k = k + 1;
        }
        assert(chunk@.subrange(0, n as int) =~= chunk@);
        proof {
            lemma_count_upto_update(before.received, received_slot(), index as int, true, FRAGMENTS as int);
            lemma_count_upto_bound(before.received.update(index as int, true), received_slot(), FRAGMENTS as int);
        }
        self.received.set(index, true);
        self.received_count = self.received_count + 1;
        if self.count != 0 && self.received_count == self.count {
            Ok(Some(vstd::slice::slice_to_vec(&self.bytes.as_slice()[0..self.total_len])))
        } else {
            Ok(None)
        }
    }

    pub fn finish(&self) -> (out: Result<&[u8], SwarmError>)
        requires
            self.wf(),
        ensures
            if self.view().count != 0 && self.view().received_count == self.view().count {
                out is Ok && out->Ok_0@ == self.view().bytes.subrange(0, self.view().total_len as int)
            } else {
                out == Err::<&[u8], SwarmError>(SwarmError::FragmentIncomplete)
            },
    {
        if self.is_complete() {
            Ok(&self.bytes.as_slice()[0..self.total_len])
        } else {
            Err(SwarmError::FragmentIncomplete)
        }
    }
}

impl<const CAP: usize, const FRAGMENTS: usize> Default for SwarmReassemblyBuffer<CAP, FRAGMENTS> {
    fn default() -> (out: Self)
        ensures
            out.wf(),
            out.view() == Self::empty_model(),
    {
        Self::new()
    }
}


/// A fragment that a reassembly buffer takes lands at its own place: its chunk is laid at
/// offset `index * 90` of the payload, every byte outside that range stays as it was, the
/// fragment's index is marked received, and no other index changes.
pub proof fn lemma_push_places_chunk_at_its_offset(m: ReassemblyModel, f: SwarmFragment, cap: nat, slots: nat)
    requires
        m.bytes.len() == cap,
        m.received.len() == slots,
        m.total_len <= cap,
        spec_reassembly_push(m, f, cap, slots).0 is Ok,
    ensures
        ({
            let n = spec_reassembly_push(m, f, cap, slots).1;
            let start = f.index * 90;
            &&& start + f.chunk@.len() <= n.total_len <= cap
            &&& n.bytes.len() == m.bytes.len()
            &&& forall|k: int| 0 <= k < f.chunk@.len() ==> #[trigger] n.bytes[start + k] == f.chunk@[k]
            &&& forall|j: int| 0 <= j < m.bytes.len() && !(start <= j < start + f.chunk@.len())
                ==> #[trigger] n.bytes[j] == m.bytes[j]
            &&& n.received.len() == m.received.len()
            &&& n.received[f.index as int]
            &&& !m.received[f.index as int]
            &&& forall|i: int| 0 <= i < m.received.len() && i != f.index ==> #[trigger] n.received[i] == m.received[i]
        }),
{
    let n = spec_reassembly_push(m, f, cap, slots).1;
    let start = f.index * 90;
    let end = start + f.chunk@.len();
    let b = m.bytes;
    assert(n.bytes == b.subrange(0, start) + f.chunk@ + b.subrange(end, b.len() as int));
    assert forall|k: int| 0 <= k < f.chunk@.len() implies #[trigger] n.bytes[start + k] == f.chunk@[k] by {
        assert((b.subrange(0, start) + f.chunk@ + b.subrange(end, b.len() as int))[start + k] == f.chunk@[k]);
    }
    assert forall|j: int| 0 <= j < m.bytes.len() && !(start <= j < start + f.chunk@.len())
        implies #[trigger] n.bytes[j] == m.bytes[j] by {
        assert((b.subrange(0, start) + f.chunk@ + b.subrange(end, b.len() as int))[j] == b[j]);
    }
}


/// The fragment of payload `p` at `index`, as `from_payload` makes it: same id, the payload's
/// length and fragment count, and the payload's bytes from `index * 90` on, at most 90 of them.
pub open spec fn is_payload_fragment(f: SwarmFragment, id: u8, p: Seq<u8>) -> bool {
    let start = f.index * 90;
    let end = if start + 90 < p.len() { start + 90 } else { p.len() as int };
    &&& f.fragment_id == id
    &&& f.total_len == p.len()
    &&& spec_fragment_count(p.len() as int) == Ok::<u8, SwarmError>(f.count)
    &&& f.index < f.count
    &&& f.chunk@ == p.subrange(start, end)
}

/// Whether some fragment of `fs` has index `i`.
pub open spec fn lists_index(fs: Seq<SwarmFragment>, i: int) -> bool {
    exists|j: int| 0 <= j < fs.len() && #[trigger] fs[j].index == i
}

/// Pushing `fs` in order into a buffer in state `m`: the last answer and the buffer afterwards.
pub open spec fn spec_push_all(m: ReassemblyModel, fs: Seq<SwarmFragment>, cap: nat, slots: nat) -> (Result<Option<Seq<u8>>, SwarmError>, ReassemblyModel)
    decreases fs.len(),
{
    if fs.len() == 0 {
        (Ok(None), m)
    } else {
        spec_reassembly_push(spec_push_all(m, fs.drop_last(), cap, slots).1, fs.last(), cap, slots)
    }
}

/// An empty buffer of `cap` bytes and `slots` fragment slots.
pub open spec fn empty_reassembly(cap: nat, slots: nat) -> ReassemblyModel {
    ReassemblyModel {
        fragment_id: None,
        total_len: 0,
        count: 0,
        received_count: 0,
        received: Seq::new(slots, |i: int| false),
        bytes: Seq::new(cap, |i: int| 0u8),
    }
}

spec fn reassembled_so_far(m: ReassemblyModel, fs: Seq<SwarmFragment>, k: int, id: u8, p: Seq<u8>, c: u8, cap: nat, slots: nat) -> bool {
    &&& m.bytes.len() == cap
    &&& m.received.len() == slots
    &&& m.total_len <= cap
    &&& m.received_count == k
    &&& (k == 0 ==> m.fragment_id is None)
    &&& (k > 0 ==> m.fragment_id == Some(id) && m.total_len == p.len() && m.count == c as int)
    &&& forall|i: int| 0 <= i < slots ==> (#[trigger] m.received[i] <==> exists|j: int| 0 <= j < k && fs[j].index == i)
    &&& forall|j: int, q: int| 0 <= j < k && fs[j].index * 90 <= q < fs[j].index * 90 + fs[j].chunk@.len()
        ==> #[trigger] m.bytes[q] == p[q] && #[trigger] fs[j].index == fs[j].index
}

proof fn lemma_fragment_start_in_payload(len: int, c: u8, index: int)
    requires
        len > 0,
        spec_fragment_count(len) == Ok::<u8, SwarmError>(c),
        0 <= index < c,
    ensures
        index * 90 < len,
{
    let d = len / 90;
    let r = len % 90;
    assert(len == d * 90 + r && 0 <= r < 90) by (nonlinear_arith)
        requires d == len / 90, r == len % 90, len > 0;
    if r == 0 {
        assert(index <= d - 1);
        assert(index * 90 <= (d - 1) * 90) by (nonlinear_arith)
            requires index <= d - 1, index >= 0;
    } else {
        assert(index <= d);
        assert(index * 90 <= d * 90) by (nonlinear_arith)
            requires index <= d, index >= 0;
    }
}

proof fn lemma_position_in_its_fragment(len: int, c: u8, q: int)
    requires
        len > 0,
        spec_fragment_count(len) == Ok::<u8, SwarmError>(c),
        0 <= q < len,
    ensures
        0 <= q / 90 < c,
        (q / 90) * 90 <= q < (q / 90) * 90 + 90,
{
    let i = q / 90;
    assert(i * 90 <= q < i * 90 + 90 && i >= 0) by (nonlinear_arith)
        requires i == q / 90, q >= 0;
    let d = len / 90;
    assert(d * 90 <= len) by (nonlinear_arith)
        requires d == len / 90, len > 0;
    assert(i <= d) by (nonlinear_arith)
        requires i == q / 90, d == len / 90, 0 <= q < len;
    if len % 90 == 0 {
        assert(len == d * 90) by (nonlinear_arith)
            requires d == len / 90, len % 90 == 0, len > 0;
        assert(i < d) by (nonlinear_arith)
            requires i * 90 <= q, q < len, len == d * 90;
    }
}

proof fn lemma_push_step(m: ReassemblyModel, fs: Seq<SwarmFragment>, k: int, id: u8, p: Seq<u8>, c: u8, cap: nat, slots: nat)
    requires
        0 <= k < fs.len(),
        fs.len() == c,
        p.len() > 0,
        p.len() <= cap,
        spec_fragment_count(p.len() as int) == Ok::<u8, SwarmError>(c),
        c <= slots,
        forall|j: int| 0 <= j < fs.len() ==> #[trigger] is_payload_fragment(fs[j], id, p),
        forall|j: int, l: int| 0 <= j < l < fs.len() ==> #[trigger] fs[j].index != #[trigger] fs[l].index,
        reassembled_so_far(m, fs, k, id, p, c, cap, slots),
    ensures
        ({
            let r = spec_reassembly_push(m, fs[k], cap, slots);
            &&& r.0 is Ok
            &&& reassembled_so_far(r.1, fs, k + 1, id, p, c, cap, slots)
            &&& (k + 1 == c ==> r.0 == Ok::<Option<Seq<u8>>, SwarmError>(Some(r.1.bytes.subrange(0, p.len() as int))))
        }),
{
    let f = fs[k];
    assert(is_payload_fragment(f, id, p));
    let start = f.index * 90;
    let end = if start + 90 < p.len() { start + 90 } else { p.len() as int };
    lemma_fragment_start_in_payload(p.len() as int, c, f.index as int);
    assert(f.chunk@.len() == end - start);
    assert(!m.received[f.index as int]) by {
        if m.received[f.index as int] {
            let j = choose|j: int| 0 <= j < k && fs[j].index == f.index;
            assert(fs[j].index != fs[k].index);
        }
    }
    lemma_push_places_chunk_at_its_offset(m, f, cap, slots);
    let n = spec_reassembly_push(m, f, cap, slots).1;
    assert forall|i: int| 0 <= i < slots implies (#[trigger] n.received[i] <==> exists|j: int| 0 <= j < k + 1 && fs[j].index == i) by {
        if i == f.index {
            assert(fs[k].index == i);
        } else {
            if n.received[i] {
                assert(m.received[i]);
                let j = choose|j: int| 0 <= j < k && fs[j].index == i;
                assert(0 <= j < k + 1 && fs[j].index == i);
            }
            if exists|j: int| 0 <= j < k + 1 && fs[j].index == i {
                let j = choose|j: int| 0 <= j < k + 1 && fs[j].index == i;
                assert(j != k);
                assert(m.received[i]);
            }
        }
    }
    assert forall|j: int, q: int| 0 <= j < k + 1 && fs[j].index * 90 <= q < fs[j].index * 90 + fs[j].chunk@.len()
        implies #[trigger] n.bytes[q] == p[q] && #[trigger] fs[j].index == fs[j].index by {
        assert(is_payload_fragment(fs[j], id, p));
        lemma_fragment_start_in_payload(p.len() as int, c, fs[j].index as int);
        if start <= q < start + f.chunk@.len() {
            assert(n.bytes[start + (q - start)] == f.chunk@[q - start]);
        } else {
            assert(j < k);
            assert(m.bytes[q] == p[q] && fs[j].index == fs[j].index);
        }
    }
}

proof fn lemma_push_prefix(fs: Seq<SwarmFragment>, id: u8, p: Seq<u8>, c: u8, cap: nat, slots: nat, k: int)
    requires
        0 <= k <= fs.len(),
        fs.len() == c,
        p.len() > 0,
        p.len() <= cap,
        spec_fragment_count(p.len() as int) == Ok::<u8, SwarmError>(c),
        c <= slots,
        forall|j: int| 0 <= j < fs.len() ==> #[trigger] is_payload_fragment(fs[j], id, p),
        forall|j: int, l: int| 0 <= j < l < fs.len() ==> #[trigger] fs[j].index != #[trigger] fs[l].index,
    ensures
        reassembled_so_far(spec_push_all(empty_reassembly(cap, slots), fs.take(k), cap, slots).1, fs, k, id, p, c, cap, slots),
        k == fs.len() && k > 0 ==> spec_push_all(empty_reassembly(cap, slots), fs.take(k), cap, slots).0
            == Ok::<Option<Seq<u8>>, SwarmError>(Some(spec_push_all(empty_reassembly(cap, slots), fs.take(k), cap, slots).1.bytes.subrange(0, p.len() as int))),
    decreases k,
{
    let m0 = empty_reassembly(cap, slots);
    if k == 0 {
        assert(fs.take(0) =~= Seq::<SwarmFragment>::empty());
        let m = spec_push_all(m0, fs.take(0), cap, slots).1;
        assert(m == m0);
        assert forall|i: int| 0 <= i < slots implies (#[trigger] m.received[i] <==> exists|j: int| 0 <= j < 0 && fs[j].index == i) by {
        }
    } else {
        lemma_push_prefix(fs, id, p, c, cap, slots, k - 1);
        let m = spec_push_all(m0, fs.take(k - 1), cap, slots).1;
        lemma_push_step(m, fs, k - 1, id, p, c, cap, slots);
        assert(fs.take(k).drop_last() =~= fs.take(k - 1));
        assert(fs.take(k).last() == fs[k - 1]);
    }
}

/// Reassembling a payload from its fragments, pushed in any order with each fragment once
/// (every index below the count, none twice),
/// gives back exactly that payload: every fragment's chunk lands at its own offset.
pub proof fn lemma_reassembly_restores_payload(fs: Seq<SwarmFragment>, id: u8, p: Seq<u8>, c: u8, cap: nat, slots: nat)
    requires
        p.len() > 0,
        p.len() <= cap,
        spec_fragment_count(p.len() as int) == Ok::<u8, SwarmError>(c),
        c <= slots,
        fs.len() == c,
        forall|j: int| 0 <= j < fs.len() ==> #[trigger] is_payload_fragment(fs[j], id, p),
        forall|j: int, l: int| 0 <= j < l < fs.len() ==> #[trigger] fs[j].index != #[trigger] fs[l].index,
        forall|i: int| 0 <= i < c ==> #[trigger] lists_index(fs, i),
    ensures
        spec_push_all(empty_reassembly(cap, slots), fs, cap, slots).0 == Ok::<Option<Seq<u8>>, SwarmError>(Some(p)),
{
    let m0 = empty_reassembly(cap, slots);
    let k = fs.len() as int;
    lemma_push_prefix(fs, id, p, c, cap, slots, k);
    assert(fs.take(k) =~= fs);
    let m = spec_push_all(m0, fs, cap, slots).1;
    assert(m.bytes.subrange(0, p.len() as int) =~= p) by {
        assert forall|q: int| 0 <= q < p.len() implies #[trigger] m.bytes.subrange(0, p.len() as int)[q] == p[q] by {
            lemma_position_in_its_fragment(p.len() as int, c, q);
            let i = q / 90;
            assert(lists_index(fs, i));
            let j = choose|j: int| 0 <= j < fs.len() && #[trigger] fs[j].index == i;
            assert(is_payload_fragment(fs[j], id, p));
            assert(m.bytes[q] == p[q] && fs[j].index == fs[j].index);
        }
    }
}

} // verus!
