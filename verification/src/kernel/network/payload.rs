//! The payloads that network fds carry, and their byte layouts.
use vstd::prelude::*;
use crate::wire::{WireCodecError, be16, read_be16, read_u16_be, lemma_read_be16_at, push_be16, push_bytes};
use super::object::{NetworkError, NET_DATAGRAM_PAYLOAD_CAPACITY, NET_STREAM_FLAG_FIN};

verus! {

pub open spec fn bool_byte(b: bool) -> u8 {
    if b { 1u8 } else { 0u8 }
}

/// Flags other than FIN are unknown.
pub open spec fn flags_known(flags: u8) -> bool {
    flags & 0xfeu8 == 0
}

fn copy_payload(payload: &[u8]) -> (out: Vec<u8>)
    ensures
        out@ == payload@,
{
    vstd::slice::slice_to_vec(payload)
}

/// A datagram to send on an fd.
#[derive(Clone, Debug, PartialEq, Eq)]
pub struct DatagramSend {
    pub fd: u8,
    pub generation: u16,
    pub route: u8,
    pub payload: Vec<u8>,
}

/// The bytes of a `DatagramSend` on the wire.
pub open spec fn datagram_send_wire(m: DatagramSend) -> Seq<u8> {
    seq![m.fd] + be16(m.generation) + seq![m.route] + seq![m.payload@.len() as u8] + m.payload@
}

/// Whether bytes hold a well-formed `DatagramSend`.
pub open spec fn datagram_send_wire_ok(input: Seq<u8>) -> Result<(), WireCodecError> {
    if input.len() < 5 {
        Err(WireCodecError::Truncated)
    } else if input[4] > NET_DATAGRAM_PAYLOAD_CAPACITY {
        Err(WireCodecError::Malformed)
    } else if input.len() != 5 + input[4] {
        Err(WireCodecError::Malformed)
    } else {
        Ok(())
    }
}

/// Whether `m` holds what the bytes say.
pub open spec fn datagram_send_from_wire(m: DatagramSend, input: Seq<u8>) -> bool {
    m.fd == input[0]
    && m.generation == read_be16(input, 1)
    && m.route == input[3]
    && m.payload@ == input.subrange(5, input.len() as int)
}

impl DatagramSend {
    pub fn new(fd: u8, generation: u16, route: u8, payload: &[u8]) -> (out: Result<Self, NetworkError>)
        ensures
            payload@.len() > NET_DATAGRAM_PAYLOAD_CAPACITY ==> out == Err::<Self, NetworkError>(NetworkError::PayloadTooLarge),
            payload@.len() <= NET_DATAGRAM_PAYLOAD_CAPACITY ==> out is Ok
                && out->Ok_0.fd == fd
                && out->Ok_0.generation == generation
                && out->Ok_0.route == route
                && out->Ok_0.payload@ == payload@,
    {
        if payload.len() > NET_DATAGRAM_PAYLOAD_CAPACITY {
            return Err(NetworkError::PayloadTooLarge);
        }
        Ok(DatagramSend { fd, generation, route, payload: copy_payload(payload) })
    }

    pub fn fd(&self) -> (out: u8)
        ensures
            out == self.fd,
    {
        self.fd
    }

    pub fn generation(&self) -> (out: u16)
        ensures
            out == self.generation,
    {
        self.generation
    }

    pub fn route(&self) -> (out: u8)
        ensures
            out == self.route,
    {
        self.route
    }

    pub fn len(&self) -> (out: usize)
        ensures
            out == self.payload@.len(),
    {
        self.payload.len()
    }

    pub fn is_empty(&self) -> (out: bool)
        ensures
            out == (self.payload@.len() == 0),
    {
        self.payload.len() == 0
    }

    pub fn payload(&self) -> (out: &[u8])
        ensures
            out@ == self.payload@,
    {
        self.payload.as_slice()
    }

    /// The bytes of this payload on the wire.
    pub fn wire_bytes(&self) -> (out: Vec<u8>)
        requires
            self.payload@.len() <= NET_DATAGRAM_PAYLOAD_CAPACITY,
        ensures
            out@ == datagram_send_wire(*self),
    {
        let mut v: Vec<u8> = Vec::new();
        let ghost before = v@;
        v.push(self.fd);
        assert(v@ =~= before + seq![self.fd]);
        let ghost before = v@;
        push_be16(&mut v, self.generation);
        let ghost before = v@;
        v.push(self.route);
        assert(v@ =~= before + seq![self.route]);
        let ghost before = v@;
        v.push(self.payload.len() as u8);
        assert(v@ =~= before + seq![self.payload@.len() as u8]);
        let ghost before = v@;
        push_bytes(&mut v, self.payload.as_slice());
        assert(v@ =~= datagram_send_wire(*self));
        v
    }

    pub fn encoded_len(&self) -> (out: Option<usize>)
        requires
            self.payload@.len() <= NET_DATAGRAM_PAYLOAD_CAPACITY,
        ensures
            out == Some((5 + self.payload@.len()) as usize),
    {
        Some(5 + self.payload.len())
    }

    pub fn encode_into(&self, out: &mut [u8]) -> (res: Result<usize, WireCodecError>)
        requires
            self.payload@.len() <= NET_DATAGRAM_PAYLOAD_CAPACITY,
        ensures
            ({
                let w = datagram_send_wire(*self);
                if old(out)@.len() < w.len() {
                    res == Err::<usize, WireCodecError>(WireCodecError::Truncated) && final(out)@ == old(out)@
                } else {
                    res == Ok::<usize, WireCodecError>(w.len() as usize)
                        && final(out)@ == w + old(out)@.subrange(w.len() as int, old(out)@.len() as int)
                }
            }),
    {
        let w = self.wire_bytes();
        if out.len() < w.len() {
            return Err(WireCodecError::Truncated);
        }
        let ghost orig = out@;
        crate::wire::write_bytes(out, 0, w.as_slice());
        assert(orig.subrange(0, 0) + w@ =~= w@);
        Ok(w.len())
    }

    pub fn decode_payload(input: &[u8]) -> (out: Result<Self, WireCodecError>)
        ensures
            match datagram_send_wire_ok(input@) {
                Err(e) => out == Err::<Self, WireCodecError>(e),
                Ok(_) => out is Ok && datagram_send_from_wire(out->Ok_0, input@),
            },
    {
        if input.len() < 5 {
            return Err(WireCodecError::Truncated);
        }
        let len = input[4] as usize;
        if len > NET_DATAGRAM_PAYLOAD_CAPACITY {
            return Err(WireCodecError::Malformed);
        }
        if input.len() != 5 + len {
            return Err(WireCodecError::Malformed);
        }
        let fd_value = input[0];
        let generation_value = read_u16_be(input, 1);
        let route_value = input[3];
        let n = input.len();
        Ok(DatagramSend { fd: fd_value, generation: generation_value, route: route_value, payload: copy_payload(&input[5..n]) })
    }
}

/// A `DatagramSend` that encodes decodes back to the same fields.
pub proof fn lemma_datagram_send_round_trip(m: DatagramSend, x: DatagramSend)
    requires
        m.payload@.len() <= NET_DATAGRAM_PAYLOAD_CAPACITY,
    ensures
        datagram_send_wire_ok(datagram_send_wire(m)) == Ok::<(), WireCodecError>(()),
        datagram_send_from_wire(x, datagram_send_wire(m)) ==> x.fd == m.fd && x.generation == m.generation && x.route == m.route && x.payload@ == m.payload@,
{
    let w = datagram_send_wire(m);
    assert(w.subrange(1, 3) =~= be16(m.generation));
    lemma_read_be16_at(w, 1, m.generation);
    assert(w.subrange(5, w.len() as int) =~= m.payload@);
}

/// The answer to a datagram send.
#[derive(Clone, Copy, Debug, PartialEq, Eq, Structural)]
pub struct DatagramAck {
    pub fd: u8,
    pub generation: u16,
    pub accepted: bool,
}

/// The bytes of a `DatagramAck` on the wire.
pub open spec fn datagram_ack_wire(m: DatagramAck) -> Seq<u8> {
    seq![m.fd] + be16(m.generation) + seq![bool_byte(m.accepted)]
}

/// Whether bytes hold a well-formed `DatagramAck`.
pub open spec fn datagram_ack_wire_ok(input: Seq<u8>) -> Result<(), WireCodecError> {
    if input.len() != 4 {
        Err(WireCodecError::Malformed)
    } else if input[3] > 1 {
        Err(WireCodecError::Malformed)
    } else {
        Ok(())
    }
}

/// Whether `m` holds what the bytes say.
pub open spec fn datagram_ack_from_wire(m: DatagramAck, input: Seq<u8>) -> bool {
    m.fd == input[0]
    && m.generation == read_be16(input, 1)
    && m.accepted == (input[3] == 1)
}

impl DatagramAck {
    pub fn new(fd: u8, generation: u16, accepted: bool) -> (out: Self)
        ensures
            out == (DatagramAck { fd, generation, accepted }),
    {
        DatagramAck { fd, generation, accepted }
    }

    pub fn fd(&self) -> (out: u8)
        ensures
            out == self.fd,
    {
        self.fd
    }

    pub fn generation(&self) -> (out: u16)
        ensures
            out == self.generation,
    {
        self.generation
    }

    pub fn accepted(&self) -> (out: bool)
        ensures
            out == self.accepted,
    {
        self.accepted
    }

    /// Whether this ack accepts the send on `fd` at `generation`.
    pub fn accepted_for(&self, fd: u8, generation: u16) -> (out: bool)
        ensures
            out == (self.accepted && self.fd == fd && self.generation == generation),
    {
        self.accepted && self.fd == fd && self.generation == generation
    }

    /// The bytes of this payload on the wire.
    pub fn wire_bytes(&self) -> (out: Vec<u8>)
        ensures
            out@ == datagram_ack_wire(*self),
    {
        let mut v: Vec<u8> = Vec::new();
        let ghost before = v@;
        v.push(self.fd);
        assert(v@ =~= before + seq![self.fd]);
        let ghost before = v@;
        push_be16(&mut v, self.generation);
        let ghost before = v@;
        v.push(if self.accepted { 1u8 } else { 0u8 });
        assert(v@ =~= before + seq![bool_byte(self.accepted)]);
        assert(v@ =~= datagram_ack_wire(*self));
        v
    }

    pub fn encoded_len(&self) -> (out: Option<usize>)
        ensures
            out == Some((4) as usize),
    {
        Some(4)
    }

    pub fn encode_into(&self, out: &mut [u8]) -> (res: Result<usize, WireCodecError>)
        ensures
            ({
                let w = datagram_ack_wire(*self);
                if old(out)@.len() < w.len() {
                    res == Err::<usize, WireCodecError>(WireCodecError::Truncated) && final(out)@ == old(out)@
                } else {
                    res == Ok::<usize, WireCodecError>(w.len() as usize)
                        && final(out)@ == w + old(out)@.subrange(w.len() as int, old(out)@.len() as int)
                }
            }),
    {
        let w = self.wire_bytes();
        if out.len() < w.len() {
            return Err(WireCodecError::Truncated);
        }
        let ghost orig = out@;
        crate::wire::write_bytes(out, 0, w.as_slice());
        assert(orig.subrange(0, 0) + w@ =~= w@);
        Ok(w.len())
    }

    pub fn decode_payload(input: &[u8]) -> (out: Result<Self, WireCodecError>)
        ensures
            match datagram_ack_wire_ok(input@) {
                Err(e) => out == Err::<Self, WireCodecError>(e),
                Ok(_) => out is Ok && datagram_ack_from_wire(out->Ok_0, input@),
            },
    {
        if input.len() != 4 {
            return Err(WireCodecError::Malformed);
        }
        let accepted = match input[3] {
            0 => false,
            1 => true,
            _ => return Err(WireCodecError::Malformed),
        };
        let fd_value = input[0];
        let generation_value = read_u16_be(input, 1);
        let accepted_value = accepted;
        Ok(DatagramAck { fd: fd_value, generation: generation_value, accepted: accepted_value })
    }
}

/// A `DatagramAck` that encodes decodes back to the same fields.
pub proof fn lemma_datagram_ack_round_trip(m: DatagramAck, x: DatagramAck)
    ensures
        datagram_ack_wire_ok(datagram_ack_wire(m)) == Ok::<(), WireCodecError>(()),
        datagram_ack_from_wire(x, datagram_ack_wire(m)) ==> x.fd == m.fd && x.generation == m.generation && x.accepted == m.accepted,
{
    let w = datagram_ack_wire(m);
    assert(w.subrange(1, 3) =~= be16(m.generation));
    lemma_read_be16_at(w, 1, m.generation);
}

/// A request to receive a datagram of at most `max_len` bytes.
#[derive(Clone, Copy, Debug, PartialEq, Eq, Structural)]
pub struct DatagramRecv {
    pub fd: u8,
    pub generation: u16,
    pub max_len: u8,
}

/// The bytes of a `DatagramRecv` on the wire.
pub open spec fn datagram_recv_wire(m: DatagramRecv) -> Seq<u8> {
    seq![m.fd] + be16(m.generation) + seq![m.max_len]
}

/// Whether bytes hold a well-formed `DatagramRecv`.
pub open spec fn datagram_recv_wire_ok(input: Seq<u8>) -> Result<(), WireCodecError> {
    if input.len() != 4 {
        Err(WireCodecError::Malformed)
    } else {
        Ok(())
    }
}

/// Whether `m` holds what the bytes say.
pub open spec fn datagram_recv_from_wire(m: DatagramRecv, input: Seq<u8>) -> bool {
    m.fd == input[0]
    && m.generation == read_be16(input, 1)
    && m.max_len == input[3]
}

impl DatagramRecv {
    pub fn new(fd: u8, generation: u16, max_len: u8) -> (out: Self)
        ensures
            out == (DatagramRecv { fd, generation, max_len }),
    {
        DatagramRecv { fd, generation, max_len }
    }

    pub fn fd(&self) -> (out: u8)
        ensures
            out == self.fd,
    {
        self.fd
    }

    pub fn generation(&self) -> (out: u16)
        ensures
            out == self.generation,
    {
        self.generation
    }

    pub fn max_len(&self) -> (out: u8)
        ensures
            out == self.max_len,
    {
        self.max_len
    }

    /// The bytes of this payload on the wire.
    pub fn wire_bytes(&self) -> (out: Vec<u8>)
        ensures
            out@ == datagram_recv_wire(*self),
    {
        let mut v: Vec<u8> = Vec::new();
        let ghost before = v@;
        v.push(self.fd);
        assert(v@ =~= before + seq![self.fd]);
        let ghost before = v@;
        push_be16(&mut v, self.generation);
        let ghost before = v@;
        v.push(self.max_len);
        assert(v@ =~= before + seq![self.max_len]);
        assert(v@ =~= datagram_recv_wire(*self));
        v
    }

    pub fn encoded_len(&self) -> (out: Option<usize>)
        ensures
            out == Some((4) as usize),
    {
        Some(4)
    }

    pub fn encode_into(&self, out: &mut [u8]) -> (res: Result<usize, WireCodecError>)
        ensures
            ({
                let w = datagram_recv_wire(*self);
                if old(out)@.len() < w.len() {
                    res == Err::<usize, WireCodecError>(WireCodecError::Truncated) && final(out)@ == old(out)@
                } else {
                    res == Ok::<usize, WireCodecError>(w.len() as usize)
                        && final(out)@ == w + old(out)@.subrange(w.len() as int, old(out)@.len() as int)
                }
            }),
    {
        let w = self.wire_bytes();
        if out.len() < w.len() {
            return Err(WireCodecError::Truncated);
        }
        let ghost orig = out@;
        crate::wire::write_bytes(out, 0, w.as_slice());
        assert(orig.subrange(0, 0) + w@ =~= w@);
        Ok(w.len())
    }

    pub fn decode_payload(input: &[u8]) -> (out: Result<Self, WireCodecError>)
        ensures
            match datagram_recv_wire_ok(input@) {
                Err(e) => out == Err::<Self, WireCodecError>(e),
                Ok(_) => out is Ok && datagram_recv_from_wire(out->Ok_0, input@),
            },
    {
        if input.len() != 4 {
            return Err(WireCodecError::Malformed);
        }
        let fd_value = input[0];
        let generation_value = read_u16_be(input, 1);
        let max_len_value = input[3];
        Ok(DatagramRecv { fd: fd_value, generation: generation_value, max_len: max_len_value })
    }
}

/// A `DatagramRecv` that encodes decodes back to the same fields.
pub proof fn lemma_datagram_recv_round_trip(m: DatagramRecv, x: DatagramRecv)
    ensures
        datagram_recv_wire_ok(datagram_recv_wire(m)) == Ok::<(), WireCodecError>(()),
        datagram_recv_from_wire(x, datagram_recv_wire(m)) ==> x.fd == m.fd && x.generation == m.generation && x.max_len == m.max_len,
{
    let w = datagram_recv_wire(m);
    assert(w.subrange(1, 3) =~= be16(m.generation));
    lemma_read_be16_at(w, 1, m.generation);
}

/// A received datagram.
#[derive(Clone, Debug, PartialEq, Eq)]
pub struct DatagramRecvRet {
    pub fd: u8,
    pub generation: u16,
    pub payload: Vec<u8>,
}

/// The bytes of a `DatagramRecvRet` on the wire.
pub open spec fn datagram_recv_ret_wire(m: DatagramRecvRet) -> Seq<u8> {
    seq![m.fd] + be16(m.generation) + seq![m.payload@.len() as u8] + m.payload@
}

/// Whether bytes hold a well-formed `DatagramRecvRet`.
pub open spec fn datagram_recv_ret_wire_ok(input: Seq<u8>) -> Result<(), WireCodecError> {
    if input.len() < 4 {
        Err(WireCodecError::Truncated)
    } else if input[3] > NET_DATAGRAM_PAYLOAD_CAPACITY {
        Err(WireCodecError::Malformed)
    } else if input.len() != 4 + input[3] {
        Err(WireCodecError::Malformed)
    } else {
        Ok(())
    }
}

/// Whether `m` holds what the bytes say.
pub open spec fn datagram_recv_ret_from_wire(m: DatagramRecvRet, input: Seq<u8>) -> bool {
    m.fd == input[0]
    && m.generation == read_be16(input, 1)
    && m.payload@ == input.subrange(4, input.len() as int)
}

impl DatagramRecvRet {
    pub fn new(fd: u8, generation: u16, payload: &[u8]) -> (out: Result<Self, NetworkError>)
        ensures
            payload@.len() > NET_DATAGRAM_PAYLOAD_CAPACITY ==> out == Err::<Self, NetworkError>(NetworkError::PayloadTooLarge),
            payload@.len() <= NET_DATAGRAM_PAYLOAD_CAPACITY ==> out is Ok
                && out->Ok_0.fd == fd
                && out->Ok_0.generation == generation
                && out->Ok_0.payload@ == payload@,
    {
        if payload.len() > NET_DATAGRAM_PAYLOAD_CAPACITY {
            return Err(NetworkError::PayloadTooLarge);
        }
        Ok(DatagramRecvRet { fd, generation, payload: copy_payload(payload) })
    }

    pub fn len(&self) -> (out: usize)
        ensures
            out == self.payload@.len(),
    {
        self.payload.len()
    }

    pub fn is_empty(&self) -> (out: bool)
        ensures
            out == (self.payload@.len() == 0),
    {
        self.payload.len() == 0
    }

    pub fn payload(&self) -> (out: &[u8])
        ensures
            out@ == self.payload@,
    {
        self.payload.as_slice()
    }

    /// The bytes of this payload on the wire.
    pub fn wire_bytes(&self) -> (out: Vec<u8>)
        requires
            self.payload@.len() <= NET_DATAGRAM_PAYLOAD_CAPACITY,
        ensures
            out@ == datagram_recv_ret_wire(*self),
    {
        let mut v: Vec<u8> = Vec::new();
        let ghost before = v@;
        v.push(self.fd);
        assert(v@ =~= before + seq![self.fd]);
        let ghost before = v@;
        push_be16(&mut v, self.generation);
        let ghost before = v@;
        v.push(self.payload.len() as u8);
        assert(v@ =~= before + seq![self.payload@.len() as u8]);
        let ghost before = v@;
        push_bytes(&mut v, self.payload.as_slice());
        assert(v@ =~= datagram_recv_ret_wire(*self));
        v
    }

    pub fn encoded_len(&self) -> (out: Option<usize>)
        requires
            self.payload@.len() <= NET_DATAGRAM_PAYLOAD_CAPACITY,
        ensures
            out == Some((4 + self.payload@.len()) as usize),
    {
        Some(4 + self.payload.len())
    }

    pub fn encode_into(&self, out: &mut [u8]) -> (res: Result<usize, WireCodecError>)
        requires
            self.payload@.len() <= NET_DATAGRAM_PAYLOAD_CAPACITY,
        ensures
            ({
                let w = datagram_recv_ret_wire(*self);
                if old(out)@.len() < w.len() {
                    res == Err::<usize, WireCodecError>(WireCodecError::Truncated) && final(out)@ == old(out)@
                } else {
                    res == Ok::<usize, WireCodecError>(w.len() as usize)
                        && final(out)@ == w + old(out)@.subrange(w.len() as int, old(out)@.len() as int)
                }
            }),
    {
        let w = self.wire_bytes();
        if out.len() < w.len() {
            return Err(WireCodecError::Truncated);
        }
        let ghost orig = out@;
        crate::wire::write_bytes(out, 0, w.as_slice());
        assert(orig.subrange(0, 0) + w@ =~= w@);
        Ok(w.len())
    }

    pub fn decode_payload(input: &[u8]) -> (out: Result<Self, WireCodecError>)
        ensures
            match datagram_recv_ret_wire_ok(input@) {
                Err(e) => out == Err::<Self, WireCodecError>(e),
                Ok(_) => out is Ok && datagram_recv_ret_from_wire(out->Ok_0, input@),
            },
    {
        if input.len() < 4 {
            return Err(WireCodecError::Truncated);
        }
        let len = input[3] as usize;
        if len > NET_DATAGRAM_PAYLOAD_CAPACITY {
            return Err(WireCodecError::Malformed);
        }
        if input.len() != 4 + len {
            return Err(WireCodecError::Malformed);
        }
        let fd_value = input[0];
        let generation_value = read_u16_be(input, 1);
        let n = input.len();
        Ok(DatagramRecvRet { fd: fd_value, generation: generation_value, payload: copy_payload(&input[4..n]) })
    }
}

/// A `DatagramRecvRet` that encodes decodes back to the same fields.
pub proof fn lemma_datagram_recv_ret_round_trip(m: DatagramRecvRet, x: DatagramRecvRet)
    requires
        m.payload@.len() <= NET_DATAGRAM_PAYLOAD_CAPACITY,
    ensures
        datagram_recv_ret_wire_ok(datagram_recv_ret_wire(m)) == Ok::<(), WireCodecError>(()),
        datagram_recv_ret_from_wire(x, datagram_recv_ret_wire(m)) ==> x.fd == m.fd && x.generation == m.generation && x.payload@ == m.payload@,
{
    let w = datagram_recv_ret_wire(m);
    assert(w.subrange(1, 3) =~= be16(m.generation));
    lemma_read_be16_at(w, 1, m.generation);
    assert(w.subrange(4, w.len() as int) =~= m.payload@);
}

/// A write of stream bytes at a sequence number.
#[derive(Clone, Debug, PartialEq, Eq)]
pub struct StreamWrite {
    pub fd: u8,
    pub generation: u16,
    pub route: u8,
    pub sequence: u16,
    pub flags: u8,
    pub payload: Vec<u8>,
}

/// The bytes of a `StreamWrite` on the wire.
pub open spec fn stream_write_wire(m: StreamWrite) -> Seq<u8> {
    seq![m.fd] + be16(m.generation) + seq![m.route] + be16(m.sequence) + seq![m.flags] + seq![m.payload@.len() as u8] + m.payload@
}

/// Whether bytes hold a well-formed `StreamWrite`.
pub open spec fn stream_write_wire_ok(input: Seq<u8>) -> Result<(), WireCodecError> {
    if input.len() < 8 {
        Err(WireCodecError::Truncated)
    } else if input[7] > NET_DATAGRAM_PAYLOAD_CAPACITY {
        Err(WireCodecError::Malformed)
    } else if input.len() != 8 + input[7] {
        Err(WireCodecError::Malformed)
    } else if !flags_known(input[6]) {
        Err(WireCodecError::Malformed)
    } else {
        Ok(())
    }
}

/// Whether `m` holds what the bytes say.
pub open spec fn stream_write_from_wire(m: StreamWrite, input: Seq<u8>) -> bool {
    m.fd == input[0]
    && m.generation == read_be16(input, 1)
    && m.route == input[3]
    && m.sequence == read_be16(input, 4)
    && m.flags == input[6]
    && m.payload@ == input.subrange(8, input.len() as int)
}

impl StreamWrite {
    pub fn new(fd: u8, generation: u16, route: u8, sequence: u16, flags: u8, payload: &[u8]) -> (out: Result<Self, NetworkError>)
        ensures
            payload@.len() > NET_DATAGRAM_PAYLOAD_CAPACITY ==> out == Err::<Self, NetworkError>(NetworkError::PayloadTooLarge),
            payload@.len() <= NET_DATAGRAM_PAYLOAD_CAPACITY && !flags_known(flags) ==> out == Err::<Self, NetworkError>(NetworkError::BadFlags),
            payload@.len() <= NET_DATAGRAM_PAYLOAD_CAPACITY && flags_known(flags) ==> out is Ok
                && out->Ok_0.fd == fd
                && out->Ok_0.generation == generation
                && out->Ok_0.route == route
                && out->Ok_0.sequence == sequence
                && out->Ok_0.flags == flags
                && out->Ok_0.payload@ == payload@,
    {
        if payload.len() > NET_DATAGRAM_PAYLOAD_CAPACITY {
            return Err(NetworkError::PayloadTooLarge);
        }
        if flags & 0xfeu8 != 0 {
            return Err(NetworkError::BadFlags);
        }
        Ok(StreamWrite { fd, generation, route, sequence, flags, payload: copy_payload(payload) })
    }

    pub fn fd(&self) -> (out: u8)
        ensures
            out == self.fd,
    {
        self.fd
    }

    pub fn generation(&self) -> (out: u16)
        ensures
            out == self.generation,
    {
        self.generation
    }

    pub fn route(&self) -> (out: u8)
        ensures
            out == self.route,
    {
        self.route
    }

    pub fn sequence(&self) -> (out: u16)
        ensures
            out == self.sequence,
    {
        self.sequence
    }

    pub fn flags(&self) -> (out: u8)
        ensures
            out == self.flags,
    {
        self.flags
    }

    pub fn len(&self) -> (out: usize)
        ensures
            out == self.payload@.len(),
    {
        self.payload.len()
    }

    pub fn is_empty(&self) -> (out: bool)
        ensures
            out == (self.payload@.len() == 0),
    {
        self.payload.len() == 0
    }

    pub fn payload(&self) -> (out: &[u8])
        ensures
            out@ == self.payload@,
    {
        self.payload.as_slice()
    }

    pub fn is_fin(&self) -> (out: bool)
        ensures
            out == (self.flags & NET_STREAM_FLAG_FIN != 0),
    {
        self.flags & NET_STREAM_FLAG_FIN != 0
    }

    /// The bytes of this payload on the wire.
    pub fn wire_bytes(&self) -> (out: Vec<u8>)
        requires
            self.payload@.len() <= NET_DATAGRAM_PAYLOAD_CAPACITY,
        ensures
            out@ == stream_write_wire(*self),
    {
        let mut v: Vec<u8> = Vec::new();
        let ghost before = v@;
        v.push(self.fd);
        assert(v@ =~= before + seq![self.fd]);
        let ghost before = v@;
        push_be16(&mut v, self.generation);
        let ghost before = v@;
        v.push(self.route);
        assert(v@ =~= before + seq![self.route]);
        let ghost before = v@;
        push_be16(&mut v, self.sequence);
        let ghost before = v@;
        v.push(self.flags);
        assert(v@ =~= before + seq![self.flags]);
        let ghost before = v@;
        v.push(self.payload.len() as u8);
        assert(v@ =~= before + seq![self.payload@.len() as u8]);
        let ghost before = v@;
        push_bytes(&mut v, self.payload.as_slice());
        assert(v@ =~= stream_write_wire(*self));
        v
    }

    pub fn encoded_len(&self) -> (out: Option<usize>)
        requires
            self.payload@.len() <= NET_DATAGRAM_PAYLOAD_CAPACITY,
        ensures
            out == Some((8 + self.payload@.len()) as usize),
    {
        Some(8 + self.payload.len())
    }

    pub fn encode_into(&self, out: &mut [u8]) -> (res: Result<usize, WireCodecError>)
        requires
            self.payload@.len() <= NET_DATAGRAM_PAYLOAD_CAPACITY,
        ensures
            ({
                let w = stream_write_wire(*self);
                if old(out)@.len() < w.len() {
                    res == Err::<usize, WireCodecError>(WireCodecError::Truncated) && final(out)@ == old(out)@
                } else {
                    res == Ok::<usize, WireCodecError>(w.len() as usize)
                        && final(out)@ == w + old(out)@.subrange(w.len() as int, old(out)@.len() as int)
                }
            }),
    {
        let w = self.wire_bytes();
        if out.len() < w.len() {
            return Err(WireCodecError::Truncated);
        }
        let ghost orig = out@;
        crate::wire::write_bytes(out, 0, w.as_slice());
        assert(orig.subrange(0, 0) + w@ =~= w@);
        Ok(w.len())
    }

    pub fn decode_payload(input: &[u8]) -> (out: Result<Self, WireCodecError>)
        ensures
            match stream_write_wire_ok(input@) {
                Err(e) => out == Err::<Self, WireCodecError>(e),
                Ok(_) => out is Ok && stream_write_from_wire(out->Ok_0, input@),
            },
    {
        if input.len() < 8 {
            return Err(WireCodecError::Truncated);
        }
        let len = input[7] as usize;
        if len > NET_DATAGRAM_PAYLOAD_CAPACITY {
            return Err(WireCodecError::Malformed);
        }
        if input.len() != 8 + len {
            return Err(WireCodecError::Malformed);
        }
        if input[6] & 0xfeu8 != 0 {
            return Err(WireCodecError::Malformed);
        }
        let fd_value = input[0];
        let generation_value = read_u16_be(input, 1);
        let route_value = input[3];
        let sequence_value = read_u16_be(input, 4);
        let flags_value = input[6];
        let n = input.len();
        Ok(StreamWrite { fd: fd_value, generation: generation_value, route: route_value, sequence: sequence_value, flags: flags_value, payload: copy_payload(&input[8..n]) })
    }
}

/// A `StreamWrite` that encodes decodes back to the same fields.
pub proof fn lemma_stream_write_round_trip(m: StreamWrite, x: StreamWrite)
    requires
        m.payload@.len() <= NET_DATAGRAM_PAYLOAD_CAPACITY,
        flags_known(m.flags),
    ensures
        stream_write_wire_ok(stream_write_wire(m)) == Ok::<(), WireCodecError>(()),
        stream_write_from_wire(x, stream_write_wire(m)) ==> x.fd == m.fd && x.generation == m.generation && x.route == m.route && x.sequence == m.sequence && x.flags == m.flags && x.payload@ == m.payload@,
{
    let w = stream_write_wire(m);
    assert(w.subrange(1, 3) =~= be16(m.generation));
    lemma_read_be16_at(w, 1, m.generation);
    assert(w.subrange(4, 6) =~= be16(m.sequence));
    lemma_read_be16_at(w, 4, m.sequence);
    assert(w.subrange(8, w.len() as int) =~= m.payload@);
}

/// The answer to a stream write.
#[derive(Clone, Copy, Debug, PartialEq, Eq, Structural)]
pub struct StreamAck {
    pub fd: u8,
    pub generation: u16,
    pub sequence: u16,
    pub accepted: bool,
}

/// The bytes of a `StreamAck` on the wire.
pub open spec fn stream_ack_wire(m: StreamAck) -> Seq<u8> {
    seq![m.fd] + be16(m.generation) + be16(m.sequence) + seq![bool_byte(m.accepted)]
}

/// Whether bytes hold a well-formed `StreamAck`.
pub open spec fn stream_ack_wire_ok(input: Seq<u8>) -> Result<(), WireCodecError> {
    if input.len() != 6 {
        Err(WireCodecError::Malformed)
    } else if input[5] > 1 {
        Err(WireCodecError::Malformed)
    } else {
        Ok(())
    }
}

/// Whether `m` holds what the bytes say.
pub open spec fn stream_ack_from_wire(m: StreamAck, input: Seq<u8>) -> bool {
    m.fd == input[0]
    && m.generation == read_be16(input, 1)
    && m.sequence == read_be16(input, 3)
    && m.accepted == (input[5] == 1)
}

impl StreamAck {
    pub fn new(fd: u8, generation: u16, sequence: u16, accepted: bool) -> (out: Self)
        ensures
            out == (StreamAck { fd, generation, sequence, accepted }),
    {
        StreamAck { fd, generation, sequence, accepted }
    }

    pub fn fd(&self) -> (out: u8)
        ensures
            out == self.fd,
    {
        self.fd
    }

    pub fn generation(&self) -> (out: u16)
        ensures
            out == self.generation,
    {
        self.generation
    }

    pub fn sequence(&self) -> (out: u16)
        ensures
            out == self.sequence,
    {
        self.sequence
    }

    pub fn accepted(&self) -> (out: bool)
        ensures
            out == self.accepted,
    {
        self.accepted
    }

    /// Whether this ack accepts the write on `fd` at `generation` and `sequence`.
    pub fn accepted_for(&self, fd: u8, generation: u16, sequence: u16) -> (out: bool)
        ensures
            out == (self.accepted && self.fd == fd && self.generation == generation && self.sequence == sequence),
    {
        self.accepted && self.fd == fd && self.generation == generation && self.sequence == sequence
    }

    /// The bytes of this payload on the wire.
    pub fn wire_bytes(&self) -> (out: Vec<u8>)
        ensures
            out@ == stream_ack_wire(*self),
    {
        let mut v: Vec<u8> = Vec::new();
        let ghost before = v@;
        v.push(self.fd);
        assert(v@ =~= before + seq![self.fd]);
        let ghost before = v@;
        push_be16(&mut v, self.generation);
        let ghost before = v@;
        push_be16(&mut v, self.sequence);
        let ghost before = v@;
        v.push(if self.accepted { 1u8 } else { 0u8 });
        assert(v@ =~= before + seq![bool_byte(self.accepted)]);
        assert(v@ =~= stream_ack_wire(*self));
        v
    }

    pub fn encoded_len(&self) -> (out: Option<usize>)
        ensures
            out == Some((6) as usize),
    {
        Some(6)
    }

    pub fn encode_into(&self, out: &mut [u8]) -> (res: Result<usize, WireCodecError>)
        ensures
            ({
                let w = stream_ack_wire(*self);
                if old(out)@.len() < w.len() {
                    res == Err::<usize, WireCodecError>(WireCodecError::Truncated) && final(out)@ == old(out)@
                } else {
                    res == Ok::<usize, WireCodecError>(w.len() as usize)
                        && final(out)@ == w + old(out)@.subrange(w.len() as int, old(out)@.len() as int)
                }
            }),
    {
        let w = self.wire_bytes();
        if out.len() < w.len() {
            return Err(WireCodecError::Truncated);
        }
        let ghost orig = out@;
        crate::wire::write_bytes(out, 0, w.as_slice());
        assert(orig.subrange(0, 0) + w@ =~= w@);
        Ok(w.len())
    }

    pub fn decode_payload(input: &[u8]) -> (out: Result<Self, WireCodecError>)
        ensures
            match stream_ack_wire_ok(input@) {
                Err(e) => out == Err::<Self, WireCodecError>(e),
                Ok(_) => out is Ok && stream_ack_from_wire(out->Ok_0, input@),
            },
    {
        if input.len() != 6 {
            return Err(WireCodecError::Malformed);
        }
        let accepted = match input[5] {
            0 => false,
            1 => true,
            _ => return Err(WireCodecError::Malformed),
        };
        let fd_value = input[0];
        let generation_value = read_u16_be(input, 1);
        let sequence_value = read_u16_be(input, 3);
        let accepted_value = accepted;
        Ok(StreamAck { fd: fd_value, generation: generation_value, sequence: sequence_value, accepted: accepted_value })
    }
}

/// A `StreamAck` that encodes decodes back to the same fields.
pub proof fn lemma_stream_ack_round_trip(m: StreamAck, x: StreamAck)
    ensures
        stream_ack_wire_ok(stream_ack_wire(m)) == Ok::<(), WireCodecError>(()),
        stream_ack_from_wire(x, stream_ack_wire(m)) ==> x.fd == m.fd && x.generation == m.generation && x.sequence == m.sequence && x.accepted == m.accepted,
{
    let w = stream_ack_wire(m);
    assert(w.subrange(1, 3) =~= be16(m.generation));
    lemma_read_be16_at(w, 1, m.generation);
    assert(w.subrange(3, 5) =~= be16(m.sequence));
    lemma_read_be16_at(w, 3, m.sequence);
}

/// A request to read stream bytes from a sequence number.
#[derive(Clone, Copy, Debug, PartialEq, Eq, Structural)]
pub struct StreamRead {
    pub fd: u8,
    pub generation: u16,
    pub next_sequence: u16,
    pub max_len: u8,
}

/// The bytes of a `StreamRead` on the wire.
pub open spec fn stream_read_wire(m: StreamRead) -> Seq<u8> {
    seq![m.fd] + be16(m.generation) + be16(m.next_sequence) + seq![m.max_len]
}

/// Whether bytes hold a well-formed `StreamRead`.
pub open spec fn stream_read_wire_ok(input: Seq<u8>) -> Result<(), WireCodecError> {
    if input.len() != 6 {
        Err(WireCodecError::Malformed)
    } else {
        Ok(())
    }
}

/// Whether `m` holds what the bytes say.
pub open spec fn stream_read_from_wire(m: StreamRead, input: Seq<u8>) -> bool {
    m.fd == input[0]
    && m.generation == read_be16(input, 1)
    && m.next_sequence == read_be16(input, 3)
    && m.max_len == input[5]
}

impl StreamRead {
    pub fn new(fd: u8, generation: u16, next_sequence: u16, max_len: u8) -> (out: Self)
        ensures
            out == (StreamRead { fd, generation, next_sequence, max_len }),
    {
        StreamRead { fd, generation, next_sequence, max_len }
    }

    pub fn fd(&self) -> (out: u8)
        ensures
            out == self.fd,
    {
        self.fd
    }

    pub fn generation(&self) -> (out: u16)
        ensures
            out == self.generation,
    {
        self.generation
    }

    pub fn next_sequence(&self) -> (out: u16)
        ensures
            out == self.next_sequence,
    {
        self.next_sequence
    }

    pub fn max_len(&self) -> (out: u8)
        ensures
            out == self.max_len,
    {
        self.max_len
    }

    /// The bytes of this payload on the wire.
    pub fn wire_bytes(&self) -> (out: Vec<u8>)
        ensures
            out@ == stream_read_wire(*self),
    {
        let mut v: Vec<u8> = Vec::new();
        let ghost before = v@;
        v.push(self.fd);
        assert(v@ =~= before + seq![self.fd]);
        let ghost before = v@;
        push_be16(&mut v, self.generation);
        let ghost before = v@;
        push_be16(&mut v, self.next_sequence);
        let ghost before = v@;
        v.push(self.max_len);
        assert(v@ =~= before + seq![self.max_len]);
        assert(v@ =~= stream_read_wire(*self));
        v
    }

    pub fn encoded_len(&self) -> (out: Option<usize>)
        ensures
            out == Some((6) as usize),
    {
        Some(6)
    }

    pub fn encode_into(&self, out: &mut [u8]) -> (res: Result<usize, WireCodecError>)
        ensures
            ({
                let w = stream_read_wire(*self);
                if old(out)@.len() < w.len() {
                    res == Err::<usize, WireCodecError>(WireCodecError::Truncated) && final(out)@ == old(out)@
                } else {
                    res == Ok::<usize, WireCodecError>(w.len() as usize)
                        && final(out)@ == w + old(out)@.subrange(w.len() as int, old(out)@.len() as int)
                }
            }),
    {
        let w = self.wire_bytes();
        if out.len() < w.len() {
            return Err(WireCodecError::Truncated);
        }
        let ghost orig = out@;
        crate::wire::write_bytes(out, 0, w.as_slice());
        assert(orig.subrange(0, 0) + w@ =~= w@);
        Ok(w.len())
    }

    pub fn decode_payload(input: &[u8]) -> (out: Result<Self, WireCodecError>)
        ensures
            match stream_read_wire_ok(input@) {
                Err(e) => out == Err::<Self, WireCodecError>(e),
                Ok(_) => out is Ok && stream_read_from_wire(out->Ok_0, input@),
            },
    {
        if input.len() != 6 {
            return Err(WireCodecError::Malformed);
        }
        let fd_value = input[0];
        let generation_value = read_u16_be(input, 1);
        let next_sequence_value = read_u16_be(input, 3);
        let max_len_value = input[5];
        Ok(StreamRead { fd: fd_value, generation: generation_value, next_sequence: next_sequence_value, max_len: max_len_value })
    }
}

/// A `StreamRead` that encodes decodes back to the same fields.
pub proof fn lemma_stream_read_round_trip(m: StreamRead, x: StreamRead)
    ensures
        stream_read_wire_ok(stream_read_wire(m)) == Ok::<(), WireCodecError>(()),
        stream_read_from_wire(x, stream_read_wire(m)) ==> x.fd == m.fd && x.generation == m.generation && x.next_sequence == m.next_sequence && x.max_len == m.max_len,
{
    let w = stream_read_wire(m);
    assert(w.subrange(1, 3) =~= be16(m.generation));
    lemma_read_be16_at(w, 1, m.generation);
    assert(w.subrange(3, 5) =~= be16(m.next_sequence));
    lemma_read_be16_at(w, 3, m.next_sequence);
}

/// Stream bytes read at a sequence number.
#[derive(Clone, Debug, PartialEq, Eq)]
pub struct StreamReadRet {
    pub fd: u8,
    pub generation: u16,
    pub sequence: u16,
    pub flags: u8,
    pub payload: Vec<u8>,
}

/// The bytes of a `StreamReadRet` on the wire.
pub open spec fn stream_read_ret_wire(m: StreamReadRet) -> Seq<u8> {
    seq![m.fd] + be16(m.generation) + be16(m.sequence) + seq![m.flags] + seq![m.payload@.len() as u8] + m.payload@
}

/// Whether bytes hold a well-formed `StreamReadRet`.
pub open spec fn stream_read_ret_wire_ok(input: Seq<u8>) -> Result<(), WireCodecError> {
    if input.len() < 7 {
        Err(WireCodecError::Truncated)
    } else if input[6] > NET_DATAGRAM_PAYLOAD_CAPACITY {
        Err(WireCodecError::Malformed)
    } else if input.len() != 7 + input[6] {
        Err(WireCodecError::Malformed)
    } else if !flags_known(input[5]) {
        Err(WireCodecError::Malformed)
    } else {
        Ok(())
    }
}

/// Whether `m` holds what the bytes say.
pub open spec fn stream_read_ret_from_wire(m: StreamReadRet, input: Seq<u8>) -> bool {
    m.fd == input[0]
    && m.generation == read_be16(input, 1)
    && m.sequence == read_be16(input, 3)
    && m.flags == input[5]
    && m.payload@ == input.subrange(7, input.len() as int)
}

impl StreamReadRet {
    pub fn new(fd: u8, generation: u16, sequence: u16, flags: u8, payload: &[u8]) -> (out: Result<Self, NetworkError>)
        ensures
            payload@.len() > NET_DATAGRAM_PAYLOAD_CAPACITY ==> out == Err::<Self, NetworkError>(NetworkError::PayloadTooLarge),
            payload@.len() <= NET_DATAGRAM_PAYLOAD_CAPACITY && !flags_known(flags) ==> out == Err::<Self, NetworkError>(NetworkError::BadFlags),
            payload@.len() <= NET_DATAGRAM_PAYLOAD_CAPACITY && flags_known(flags) ==> out is Ok
                && out->Ok_0.fd == fd
                && out->Ok_0.generation == generation
                && out->Ok_0.sequence == sequence
                && out->Ok_0.flags == flags
                && out->Ok_0.payload@ == payload@,
    {
        if payload.len() > NET_DATAGRAM_PAYLOAD_CAPACITY {
            return Err(NetworkError::PayloadTooLarge);
        }
        if flags & 0xfeu8 != 0 {
            return Err(NetworkError::BadFlags);
        }
        Ok(StreamReadRet { fd, generation, sequence, flags, payload: copy_payload(payload) })
    }

    pub fn sequence(&self) -> (out: u16)
        ensures
            out == self.sequence,
    {
        self.sequence
    }

    pub fn flags(&self) -> (out: u8)
        ensures
            out == self.flags,
    {
        self.flags
    }

    pub fn len(&self) -> (out: usize)
        ensures
            out == self.payload@.len(),
    {
        self.payload.len()
    }

    pub fn is_empty(&self) -> (out: bool)
        ensures
            out == (self.payload@.len() == 0),
    {
        self.payload.len() == 0
    }

    pub fn payload(&self) -> (out: &[u8])
        ensures
            out@ == self.payload@,
    {
        self.payload.as_slice()
    }

    pub fn is_fin(&self) -> (out: bool)
        ensures
            out == (self.flags & NET_STREAM_FLAG_FIN != 0),
    {
        self.flags & NET_STREAM_FLAG_FIN != 0
    }

    /// The bytes of this payload on the wire.
    pub fn wire_bytes(&self) -> (out: Vec<u8>)
        requires
            self.payload@.len() <= NET_DATAGRAM_PAYLOAD_CAPACITY,
        ensures
            out@ == stream_read_ret_wire(*self),
    {
        let mut v: Vec<u8> = Vec::new();
        let ghost before = v@;
        v.push(self.fd);
        assert(v@ =~= before + seq![self.fd]);
        let ghost before = v@;
        push_be16(&mut v, self.generation);
        let ghost before = v@;
        push_be16(&mut v, self.sequence);
        let ghost before = v@;
        v.push(self.flags);
        assert(v@ =~= before + seq![self.flags]);
        let ghost before = v@;
        v.push(self.payload.len() as u8);
        assert(v@ =~= before + seq![self.payload@.len() as u8]);
        let ghost before = v@;
        push_bytes(&mut v, self.payload.as_slice());
        assert(v@ =~= stream_read_ret_wire(*self));
        v
    }

    pub fn encoded_len(&self) -> (out: Option<usize>)
        requires
            self.payload@.len() <= NET_DATAGRAM_PAYLOAD_CAPACITY,
        ensures
            out == Some((7 + self.payload@.len()) as usize),
    {
        Some(7 + self.payload.len())
    }

    pub fn encode_into(&self, out: &mut [u8]) -> (res: Result<usize, WireCodecError>)
        requires
            self.payload@.len() <= NET_DATAGRAM_PAYLOAD_CAPACITY,
        ensures
            ({
                let w = stream_read_ret_wire(*self);
                if old(out)@.len() < w.len() {
                    res == Err::<usize, WireCodecError>(WireCodecError::Truncated) && final(out)@ == old(out)@
                } else {
                    res == Ok::<usize, WireCodecError>(w.len() as usize)
                        && final(out)@ == w + old(out)@.subrange(w.len() as int, old(out)@.len() as int)
                }
            }),
    {
        let w = self.wire_bytes();
        if out.len() < w.len() {
            return Err(WireCodecError::Truncated);
        }
        let ghost orig = out@;
        crate::wire::write_bytes(out, 0, w.as_slice());
        assert(orig.subrange(0, 0) + w@ =~= w@);
        Ok(w.len())
    }

    pub fn decode_payload(input: &[u8]) -> (out: Result<Self, WireCodecError>)
        ensures
            match stream_read_ret_wire_ok(input@) {
                Err(e) => out == Err::<Self, WireCodecError>(e),
                Ok(_) => out is Ok && stream_read_ret_from_wire(out->Ok_0, input@),
            },
    {
        if input.len() < 7 {
            return Err(WireCodecError::Truncated);
        }
        let len = input[6] as usize;
        if len > NET_DATAGRAM_PAYLOAD_CAPACITY {
            return Err(WireCodecError::Malformed);
        }
        if input.len() != 7 + len {
            return Err(WireCodecError::Malformed);
        }
        if input[5] & 0xfeu8 != 0 {
            return Err(WireCodecError::Malformed);
        }
        let fd_value = input[0];
        let generation_value = read_u16_be(input, 1);
        let sequence_value = read_u16_be(input, 3);
        let flags_value = input[5];
        let n = input.len();
        Ok(StreamReadRet { fd: fd_value, generation: generation_value, sequence: sequence_value, flags: flags_value, payload: copy_payload(&input[7..n]) })
    }
}

/// A `StreamReadRet` that encodes decodes back to the same fields.
pub proof fn lemma_stream_read_ret_round_trip(m: StreamReadRet, x: StreamReadRet)
    requires
        m.payload@.len() <= NET_DATAGRAM_PAYLOAD_CAPACITY,
        flags_known(m.flags),
    ensures
        stream_read_ret_wire_ok(stream_read_ret_wire(m)) == Ok::<(), WireCodecError>(()),
        stream_read_ret_from_wire(x, stream_read_ret_wire(m)) ==> x.fd == m.fd && x.generation == m.generation && x.sequence == m.sequence && x.flags == m.flags && x.payload@ == m.payload@,
{
    let w = stream_read_ret_wire(m);
    assert(w.subrange(1, 3) =~= be16(m.generation));
    lemma_read_be16_at(w, 1, m.generation);
    assert(w.subrange(3, 5) =~= be16(m.sequence));
    lemma_read_be16_at(w, 3, m.sequence);
    assert(w.subrange(7, w.len() as int) =~= m.payload@);
}

} // verus!
