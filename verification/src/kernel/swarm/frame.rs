//! Swarm frames: a fixed big-endian header, a bounded payload and an authentication tag.
use vstd::prelude::*;
use crate::wire::{
    be16, be32, read_be16, read_be32, read_u16_be, read_u32_be, write_bytes, lemma_read_be16_at,
    lemma_read_be32_at,
};

verus! {

pub const SWARM_FRAME_VERSION: u8 = 1;
pub const SWARM_FRAME_PAYLOAD_CAPACITY: usize = 96;
pub const SWARM_AUTH_TAG_LEN: usize = 4;
pub const SWARM_FRAME_HEADER_LEN: usize = 28;
pub const SWARM_FRAME_MAX_WIRE_LEN: usize = 128;

/// Why a swarm operation is refused.
#[derive(Clone, Copy, Debug, PartialEq, Eq, Structural)]
pub enum SwarmError {
    BadNode,
    BadRole,
    BadGeneration,
    BadVersion,
    PayloadTooLarge,
    FrameTooSmall,
    LengthMismatch,
    AuthFailed,
    Replay,
    TableFull,
    QueueFull,
    QueueEmpty,
    Revoked,
    FragmentDuplicate,
    FragmentSetMismatch,
    FragmentIncomplete,
}

/// Counts of dropped frames by reason, each saturating.
#[derive(Clone, Copy, Debug, PartialEq, Eq, Structural)]
pub struct SwarmDropTelemetry {
    pub auth_failed: u16,
    pub replayed: u16,
    pub bad_generation: u16,
    pub revoked: u16,
    pub other: u16,
}

impl SwarmDropTelemetry {
    pub open spec fn zero() -> Self {
        SwarmDropTelemetry { auth_failed: 0, replayed: 0, bad_generation: 0, revoked: 0, other: 0 }
    }

    pub open spec fn recorded(self, error: SwarmError) -> Self {
        match error {
            SwarmError::AuthFailed => SwarmDropTelemetry { auth_failed: self.auth_failed.saturating_add(1), ..self },
            SwarmError::Replay => SwarmDropTelemetry { replayed: self.replayed.saturating_add(1), ..self },
            SwarmError::BadGeneration => SwarmDropTelemetry { bad_generation: self.bad_generation.saturating_add(1), ..self },
            SwarmError::Revoked => SwarmDropTelemetry { revoked: self.revoked.saturating_add(1), ..self },
            _ => SwarmDropTelemetry { other: self.other.saturating_add(1), ..self },
        }
    }

    pub open spec fn spec_total(self) -> u16 {
        self.auth_failed.saturating_add(self.replayed).saturating_add(self.bad_generation)
            .saturating_add(self.revoked).saturating_add(self.other)
    }

    pub fn new() -> (out: Self)
        ensures
            out == Self::zero(),
    {
        SwarmDropTelemetry { auth_failed: 0, replayed: 0, bad_generation: 0, revoked: 0, other: 0 }
    }

    pub fn auth_failed(self) -> (out: u16)
        ensures
            out == self.auth_failed,
    {
        self.auth_failed
    }

    pub fn replayed(self) -> (out: u16)
        ensures
            out == self.replayed,
    {
        self.replayed
    }

    pub fn bad_generation(self) -> (out: u16)
        ensures
            out == self.bad_generation,
    {
        self.bad_generation
    }

    pub fn revoked(self) -> (out: u16)
        ensures
            out == self.revoked,
    {
        self.revoked
    }

    pub fn other(self) -> (out: u16)
        ensures
            out == self.other,
    {
        self.other
    }

    pub fn total(self) -> (out: u16)
        ensures
            out == self.spec_total(),
    {
        self.auth_failed.saturating_add(self.replayed).saturating_add(self.bad_generation)
            .saturating_add(self.revoked).saturating_add(self.other)
    }

    pub fn record(&mut self, error: SwarmError)
        ensures
            *final(self) == old(self).recorded(error),
    {
        match error {
            SwarmError::AuthFailed => self.auth_failed = self.auth_failed.saturating_add(1),
            SwarmError::Replay => self.replayed = self.replayed.saturating_add(1),
            SwarmError::BadGeneration => self.bad_generation = self.bad_generation.saturating_add(1),
            SwarmError::Revoked => self.revoked = self.revoked.saturating_add(1),
            _ => self.other = self.other.saturating_add(1),
        }
    }
}

impl Default for SwarmDropTelemetry {
    fn default() -> (out: Self)
        ensures
            out == Self::zero(),
    {
        Self::new()
    }
}

/// The telemetry after a frame answered with `r`: one more drop if it was refused.
pub open spec fn swarm_telemetry_after<T>(t: SwarmDropTelemetry, r: Result<T, SwarmError>) -> SwarmDropTelemetry {
    match r {
        Ok(_) => t,
        Err(e) => t.recorded(e),
    }
}

/// A node of the swarm.
#[derive(Clone, Copy, Debug, PartialEq, Eq, Structural)]
pub struct NodeId(pub u16);

impl NodeId {
    pub fn new(raw: u16) -> (out: Self)
        ensures
            out == NodeId(raw),
    {
        NodeId(raw)
    }

    pub fn raw(self) -> (out: u16)
        ensures
            out == self.0,
    {
        self.0
    }
}

/// A shared swarm key.
#[derive(Clone, Copy, Debug, PartialEq, Eq, Structural)]
pub struct SwarmCredential {
    pub key: u32,
}

impl SwarmCredential {
    pub fn new(key: u32) -> (out: Self)
        ensures
            out.key == key,
    {
        SwarmCredential { key }
    }

    pub fn key(self) -> (out: u32)
        ensures
            out == self.key,
    {
        self.key
    }
}

/// Whether frames carry and are checked for an authentication tag.
#[derive(Clone, Copy, Debug, PartialEq, Eq, Structural)]
pub enum SwarmSecurity {
    Secure(SwarmCredential),
    InsecureDemoOnly,
}

/// A swarm frame.
#[derive(Clone, Debug, PartialEq, Eq)]
pub struct SwarmFrame {
    pub version: u8,
    pub flags: u8,
    pub src_node: NodeId,
    pub dst_node: NodeId,
    pub rendezvous_id: u32,
    pub session_id: u32,
    pub session_generation: u16,
    pub lane: u8,
    pub label_hint: u8,
    pub seq: u32,
    pub ack: u32,
    pub payload: Vec<u8>,
    pub auth_tag: u32,
}

pub open spec fn rotl5(x: u32) -> u32 {
    (x << 5u32) | (x >> 27u32)
}

pub open spec fn rotl3(x: u32) -> u32 {
    (x << 3u32) | (x >> 29u32)
}

/// The tag accumulator folded over payload bytes.
pub open spec fn payload_fold(acc: u32, p: Seq<u8>) -> u32
    decreases p.len(),
{
    if p.len() == 0 {
        acc
    } else {
        rotl3(payload_fold(acc, p.drop_last())) ^ (p.last() as u32)
    }
}

/// The authentication tag of a frame's addressed fields and payload under `key`.
pub open spec fn spec_frame_auth_tag(f: SwarmFrame, key: u32) -> u32 {
    let a0 = key ^ 0x4849_4241u32;
    let a1 = rotl5(a0) ^ (f.src_node.0 as u32);
    let a2 = rotl5(a1) ^ (f.dst_node.0 as u32);
    let a3 = rotl5(a2) ^ f.session_id;
    let a4 = rotl5(a3) ^ (f.session_generation as u32);
    let a5 = rotl5(a4) ^ (f.lane as u32);
    let a6 = rotl5(a5) ^ (f.label_hint as u32);
    let a7 = rotl5(a6) ^ f.seq;
    let a8 = rotl5(a7) ^ f.ack;
    payload_fold(a8, f.payload@)
}

/// Checking a frame's version and, when secure, its tag.
pub open spec fn spec_frame_verify(f: SwarmFrame, security: SwarmSecurity) -> Result<(), SwarmError> {
    if f.version != SWARM_FRAME_VERSION {
        Err(SwarmError::BadVersion)
    } else {
        match security {
            SwarmSecurity::Secure(c) => if f.auth_tag != spec_frame_auth_tag(f, c.key) {
                Err(SwarmError::AuthFailed)
            } else {
                Ok(())
            },
            SwarmSecurity::InsecureDemoOnly => Ok(()),
        }
    }
}

/// The header bytes of a frame.
pub open spec fn frame_header(f: SwarmFrame) -> Seq<u8> {
    seq![f.version, f.flags] + be16(f.src_node.0) + be16(f.dst_node.0) + be32(f.rendezvous_id)
        + be32(f.session_id) + be16(f.session_generation) + seq![f.lane, f.label_hint] + be32(f.seq)
        + be32(f.ack) + be16(f.payload@.len() as u16)
}

/// A frame on the wire: header, payload, tag.
pub open spec fn frame_wire(f: SwarmFrame) -> Seq<u8> {
    frame_header(f) + f.payload@ + be32(f.auth_tag)
}

/// Whether `f` holds what the wire bytes `input` say, with a payload of `pl` bytes.
pub open spec fn frame_from_wire(f: SwarmFrame, input: Seq<u8>) -> bool {
    let pl = read_be16(input, 26) as int;
    &&& f.version == input[0]
    &&& f.flags == input[1]
    &&& f.src_node.0 == read_be16(input, 2)
    &&& f.dst_node.0 == read_be16(input, 4)
    &&& f.rendezvous_id == read_be32(input, 6)
    &&& f.session_id == read_be32(input, 10)
    &&& f.session_generation == read_be16(input, 14)
    &&& f.lane == input[16]
    &&& f.label_hint == input[17]
    &&& f.seq == read_be32(input, 18)
    &&& f.ack == read_be32(input, 22)
    &&& f.payload@ == input.subrange(28, 28 + pl)
    &&& f.auth_tag == read_be32(input, 28 + pl)
}

/// Two frames with the same fields and payload.
pub open spec fn same_frame(a: SwarmFrame, b: SwarmFrame) -> bool {
    &&& a.version == b.version
    &&& a.flags == b.flags
    &&& a.src_node == b.src_node
    &&& a.dst_node == b.dst_node
    &&& a.rendezvous_id == b.rendezvous_id
    &&& a.session_id == b.session_id
    &&& a.session_generation == b.session_generation
    &&& a.lane == b.lane
    &&& a.label_hint == b.label_hint
    &&& a.seq == b.seq
    &&& a.ack == b.ack
    &&& a.payload@ == b.payload@
    &&& a.auth_tag == b.auth_tag
}

fn rotate5(x: u32) -> (out: u32)
    ensures
        out == rotl5(x),
{
    (x << 5u32) | (x >> 27u32)
}

fn rotate3(x: u32) -> (out: u32)
    ensures
        out == rotl3(x),
{
    (x << 3u32) | (x >> 29u32)
}

fn push_be16(v: &mut Vec<u8>, x: u16)
    ensures
        final(v)@ == old(v)@ + be16(x),
{
    v.push((x >> 8u16) as u8);
    v.push(x as u8);
    assert(v@ =~= old(v)@ + be16(x));
}

fn push_be32(v: &mut Vec<u8>, x: u32)
    ensures
        final(v)@ == old(v)@ + be32(x),
{
    v.push((x >> 24u32) as u8);
    v.push((x >> 16u32) as u8);
    v.push((x >> 8u32) as u8);
    v.push(x as u8);
    assert(v@ =~= old(v)@ + be32(x));
}

fn push_bytes(v: &mut Vec<u8>, src: &[u8])
    ensures
        final(v)@ == old(v)@ + src@,
{
    let ghost orig = v@;
    let n = src.len();
    let mut k: usize = 0;
    while k < n
        invariant
            n == src@.len(),
            k <= n,
            v@ == orig + src@.subrange(0, k as int),
        decreases n - k,
    {
        v.push(src[k]);
        assert(v@ =~= orig + src@.subrange(0, k + 1int));
        k = k + 1;
    }
    assert(src@.subrange(0, n as int) =~= src@);
}

impl SwarmFrame {
    pub fn new(
        src_node: NodeId,
        dst_node: NodeId,
        session_id: u32,
        session_generation: u16,
        lane: u8,
        label_hint: u8,
        seq: u32,
        ack: u32,
        payload: &[u8],
        security: SwarmSecurity,
    ) -> (out: Result<Self, SwarmError>)
        ensures
            payload@.len() > SWARM_FRAME_PAYLOAD_CAPACITY ==> out == Err::<Self, SwarmError>(SwarmError::PayloadTooLarge),
            payload@.len() <= SWARM_FRAME_PAYLOAD_CAPACITY ==> out is Ok && ({
                let f = out->Ok_0;
                &&& f.version == SWARM_FRAME_VERSION
                &&& f.flags == (if security is Secure { 1u8 } else { 0u8 })
                &&& f.src_node == src_node
                &&& f.dst_node == dst_node
                &&& f.rendezvous_id == 0
                &&& f.session_id == session_id
                &&& f.session_generation == session_generation
                &&& f.lane == lane
                &&& f.label_hint == label_hint
                &&& f.seq == seq
                &&& f.ack == ack
                &&& f.payload@ == payload@
                &&& f.auth_tag == (match security {
                    SwarmSecurity::Secure(c) => spec_frame_auth_tag(f, c.key),
                    SwarmSecurity::InsecureDemoOnly => 0u32,
                })
            }),
    {
        if payload.len() > SWARM_FRAME_PAYLOAD_CAPACITY {
            return Err(SwarmError::PayloadTooLarge);
        }
        let mut out = SwarmFrame {
            version: SWARM_FRAME_VERSION,
            flags: match security {
                SwarmSecurity::Secure(_) => 1,
                SwarmSecurity::InsecureDemoOnly => 0,
            },
            src_node,
            dst_node,
            rendezvous_id: 0,
            session_id,
            session_generation,
            lane,
            label_hint,
            seq,
            ack,
            payload: vstd::slice::slice_to_vec(payload),
            auth_tag: 0,
        };
        match security {
            SwarmSecurity::Secure(credential) => {
                let tag = out.compute_auth_tag(credential);
                out.auth_tag = tag;
            },
            SwarmSecurity::InsecureDemoOnly => {},
        }
        Ok(out)
    }

    pub fn src_node(&self) -> (out: NodeId)
        ensures
            out == self.src_node,
    {
        self.src_node
    }

    pub fn dst_node(&self) -> (out: NodeId)
        ensures
            out == self.dst_node,
    {
        self.dst_node
    }

    pub fn session_generation(&self) -> (out: u16)
        ensures
            out == self.session_generation,
    {
        self.session_generation
    }

    pub fn session_id(&self) -> (out: u32)
        ensures
            out == self.session_id,
    {
        self.session_id
    }

    pub fn lane(&self) -> (out: u8)
        ensures
            out == self.lane,
    {
        self.lane
    }

    pub fn label_hint(&self) -> (out: u8)
        ensures
            out == self.label_hint,
    {
        self.label_hint
    }

    pub fn seq(&self) -> (out: u32)
        ensures
            out == self.seq,
    {
        self.seq
    }

    pub fn payload(&self) -> (out: &[u8])
        ensures
            out@ == self.payload@,
    {
        self.payload.as_slice()
    }

    fn compute_auth_tag(&self, credential: SwarmCredential) -> (out: u32)
        ensures
            out == spec_frame_auth_tag(*self, credential.key),
    {
        let mut acc = credential.key ^ 0x4849_4241u32;
        acc = rotate5(acc) ^ (self.src_node.0 as u32);
        acc = rotate5(acc) ^ (self.dst_node.0 as u32);
        acc = rotate5(acc) ^ self.session_id;
        acc = rotate5(acc) ^ (self.session_generation as u32);
        acc = rotate5(acc) ^ (self.lane as u32);
        acc = rotate5(acc) ^ (self.label_hint as u32);
        acc = rotate5(acc) ^ self.seq;
        acc = rotate5(acc) ^ self.ack;
        let ghost start = acc;
        let p = self.payload.as_slice();
        let n = p.len();
        let mut i: usize = 0;
        assert(p@.subrange(0, 0) =~= Seq::<u8>::empty());
        while i < n
            invariant
                n == p@.len(),
                i <= n,
                acc == payload_fold(start, p@.subrange(0, i as int)),
            decreases n - i,
        {
            assert(p@.subrange(0, i + 1int).drop_last() =~= p@.subrange(0, i as int));
            acc = rotate3(acc) ^ (p[i] as u32);
            i = i + 1;
        }
        assert(p@.subrange(0, n as int) =~= p@);
        acc
    }

    pub fn verify(&self, security: SwarmSecurity) -> (out: Result<(), SwarmError>)
        ensures
            out == spec_frame_verify(*self, security),
    {
        if self.version != SWARM_FRAME_VERSION {
            return Err(SwarmError::BadVersion);
        }
        match security {
            SwarmSecurity::Secure(credential) => {
                if self.auth_tag != self.compute_auth_tag(credential) {
                    return Err(SwarmError::AuthFailed);
                }
            },
            SwarmSecurity::InsecureDemoOnly => {},
        }
        Ok(())
    }

    /// The frame's wire bytes.
    pub fn wire_bytes(&self) -> (out: Vec<u8>)
        requires
            self.payload@.len() <= SWARM_FRAME_PAYLOAD_CAPACITY,
        ensures
            out@ == frame_wire(*self),
    {
        let mut v: Vec<u8> = Vec::new();
        v.push(self.version);
        v.push(self.flags);
        assert(v@ =~= seq![self.version, self.flags]);
        push_be16(&mut v, self.src_node.0);
        push_be16(&mut v, self.dst_node.0);
        push_be32(&mut v, self.rendezvous_id);
        push_be32(&mut v, self.session_id);
        push_be16(&mut v, self.session_generation);
        let ghost before_lane = v@;
        v.push(self.lane);
        v.push(self.label_hint);
        assert(v@ =~= before_lane + seq![self.lane, self.label_hint]);
        push_be32(&mut v, self.seq);
        push_be32(&mut v, self.ack);
        push_be16(&mut v, self.payload.len() as u16);
        push_bytes(&mut v, self.payload.as_slice());
        push_be32(&mut v, self.auth_tag);
        v
    }

    pub fn encode_into(&self, out: &mut [u8]) -> (res: Result<usize, SwarmError>)
        requires
            self.payload@.len() <= SWARM_FRAME_PAYLOAD_CAPACITY,
        ensures
            ({
                let w = frame_wire(*self);
                if old(out)@.len() < w.len() {
                    res == Err::<usize, SwarmError>(SwarmError::FrameTooSmall) && final(out)@ == old(out)@
                } else {
                    res == Ok::<usize, SwarmError>(w.len() as usize)
                        && final(out)@ == w + old(out)@.subrange(w.len() as int, old(out)@.len() as int)
                }
            }),
    {
        let w = self.wire_bytes();
        let wire_len = w.len();
        if out.len() < wire_len {
            return Err(SwarmError::FrameTooSmall);
        }
        let ghost orig = out@;
        write_bytes(out, 0, w.as_slice());
        assert(orig.subrange(0, 0) + w@ =~= w@);
        Ok(wire_len)
    }

    pub fn decode(input: &[u8]) -> (out: Result<Self, SwarmError>)
        ensures
            input@.len() < SWARM_FRAME_HEADER_LEN + SWARM_AUTH_TAG_LEN ==> out == Err::<Self, SwarmError>(SwarmError::FrameTooSmall),
            input@.len() >= SWARM_FRAME_HEADER_LEN + SWARM_AUTH_TAG_LEN ==> ({
                let pl = read_be16(input@, 26) as int;
                if pl > SWARM_FRAME_PAYLOAD_CAPACITY {
                    out == Err::<Self, SwarmError>(SwarmError::PayloadTooLarge)
                } else if input@.len() != 32 + pl {
                    out == Err::<Self, SwarmError>(SwarmError::LengthMismatch)
                } else {
                    out is Ok && frame_from_wire(out->Ok_0, input@)
                }
            }),
    {
        if input.len() < SWARM_FRAME_HEADER_LEN + SWARM_AUTH_TAG_LEN {
            return Err(SwarmError::FrameTooSmall);
        }
        let payload_len = read_u16_be(input, 26) as usize;
        if payload_len > SWARM_FRAME_PAYLOAD_CAPACITY {
            return Err(SwarmError::PayloadTooLarge);
        }
        let expected_len = SWARM_FRAME_HEADER_LEN + payload_len + SWARM_AUTH_TAG_LEN;
        if input.len() != expected_len {
            return Err(SwarmError::LengthMismatch);
        }
        let payload = vstd::slice::slice_to_vec(&input[28..28 + payload_len]);
        Ok(SwarmFrame {
            version: input[0],
            flags: input[1],
            src_node: NodeId(read_u16_be(input, 2)),
            dst_node: NodeId(read_u16_be(input, 4)),
            rendezvous_id: read_u32_be(input, 6),
            session_id: read_u32_be(input, 10),
            session_generation: read_u16_be(input, 14),
            lane: input[16],
            label_hint: input[17],
            seq: read_u32_be(input, 18),
            ack: read_u32_be(input, 22),
            payload,
            auth_tag: read_u32_be(input, 28 + payload_len),
        })
    }
}

/// What a frame encodes to decodes back to the same frame.
pub proof fn lemma_frame_round_trip(f: SwarmFrame, g: SwarmFrame)
    requires
        f.payload@.len() <= SWARM_FRAME_PAYLOAD_CAPACITY,
        frame_from_wire(g, frame_wire(f)),
    ensures
        frame_wire(f).len() >= SWARM_FRAME_HEADER_LEN + SWARM_AUTH_TAG_LEN,
        read_be16(frame_wire(f), 26) == f.payload@.len(),
        frame_wire(f).len() == 32 + f.payload@.len(),
        same_frame(g, f),
{
    let w = frame_wire(f);
    let pl = f.payload@.len() as int;
    let h = frame_header(f);
    assert(h.len() == 28);
    assert(w.len() == 32 + pl);
    assert(w.subrange(0, 28) =~= h);
    assert(h.subrange(2, 4) =~= be16(f.src_node.0));
    assert(h.subrange(4, 6) =~= be16(f.dst_node.0));
    assert(h.subrange(6, 10) =~= be32(f.rendezvous_id));
    assert(h.subrange(10, 14) =~= be32(f.session_id));
    assert(h.subrange(14, 16) =~= be16(f.session_generation));
    assert(h.subrange(18, 22) =~= be32(f.seq));
    assert(h.subrange(22, 26) =~= be32(f.ack));
    assert(h.subrange(26, 28) =~= be16(pl as u16));
    assert forall|a: int, b: int| 0 <= a <= b <= 28 implies #[trigger] w.subrange(a, b) == h.subrange(a, b) by {
        assert(w.subrange(a, b) =~= h.subrange(a, b));
    }
    lemma_read_be16_at(w, 2, f.src_node.0);
    lemma_read_be16_at(w, 4, f.dst_node.0);
    lemma_read_be32_at(w, 6, f.rendezvous_id);
    lemma_read_be32_at(w, 10, f.session_id);
    lemma_read_be16_at(w, 14, f.session_generation);
    lemma_read_be32_at(w, 18, f.seq);
    lemma_read_be32_at(w, 22, f.ack);
    lemma_read_be16_at(w, 26, pl as u16);
    assert(w.subrange(28 + pl, 32 + pl) =~= be32(f.auth_tag));
    lemma_read_be32_at(w, 28 + pl, f.auth_tag);
    assert(w.subrange(28, 28 + pl) =~= f.payload@);
    assert(w[0] == f.version && w[1] == f.flags && w[16] == f.lane && w[17] == f.label_hint);
}

/// A frame built under a credential verifies under that credential.
pub proof fn lemma_secure_frame_verifies(f: SwarmFrame, c: SwarmCredential)
    requires
        f.version == SWARM_FRAME_VERSION,
        f.auth_tag == spec_frame_auth_tag(f, c.key),
    ensures
        spec_frame_verify(f, SwarmSecurity::Secure(c)) == Ok::<(), SwarmError>(()),
        spec_frame_verify(f, SwarmSecurity::InsecureDemoOnly) == Ok::<(), SwarmError>(()),
{
}

} // verus!
