//! The payloads that remote objects carry, and their byte layouts.
use vstd::prelude::*;
use crate::wire::{
    WireCodecError, be16, be32, be64, read_be16, read_be32, read_be64, read_u16_be, read_u32_be, read_u64_be,
    lemma_read_be16_at, lemma_read_be32_at, lemma_read_be64_at, push_be16, push_be32, push_be64,
};

verus! {

/// A request for a sample from a remote sensor.
#[derive(Clone, Copy, Debug, PartialEq, Eq, Structural)]
pub struct RemoteSampleRequest {
    pub fd: u8,
    pub generation: u16,
    pub sensor_id: u8,
}

/// The bytes of a `RemoteSampleRequest` on the wire.
pub open spec fn remote_sample_request_wire(m: RemoteSampleRequest) -> Seq<u8> {
    seq![m.fd] + be16(m.generation) + seq![m.sensor_id]
}

/// Whether bytes hold a well-formed `RemoteSampleRequest`.
pub open spec fn remote_sample_request_wire_ok(input: Seq<u8>) -> Result<(), WireCodecError> {
    if input.len() != 4 {
        Err(WireCodecError::Malformed)
    } else {
        Ok(())
    }
}

/// Whether `m` holds what the bytes say.
pub open spec fn remote_sample_request_from_wire(m: RemoteSampleRequest, input: Seq<u8>) -> bool {
    m.fd == input[0]
    && m.generation == read_be16(input, 1)
    && m.sensor_id == input[3]
}

impl RemoteSampleRequest {
    pub fn new(fd: u8, generation: u16, sensor_id: u8) -> (out: Self)
        ensures
            out == (RemoteSampleRequest { fd, generation, sensor_id }),
    {
        RemoteSampleRequest { fd, generation, sensor_id }
    }

    pub fn fd(&self) -> (out: u8)
        ensures
            out == self.fd,
    {
        self.fd
    }

    pub fn generation(&self) -> (out: u16)
        ensures
            out == self.generation,
    {
        self.generation
    }

    pub fn sensor_id(&self) -> (out: u8)
        ensures
            out == self.sensor_id,
    {
        self.sensor_id
    }

    /// The bytes of this payload on the wire.
    pub fn wire_bytes(&self) -> (out: Vec<u8>)
        ensures
            out@ == remote_sample_request_wire(*self),
    {
        let mut v: Vec<u8> = Vec::new();
        let ghost before = v@;
        v.push(self.fd);
        assert(v@ =~= before + seq![self.fd]);
        let ghost before = v@;
        push_be16(&mut v, self.generation);
        let ghost before = v@;
        v.push(self.sensor_id);
        assert(v@ =~= before + seq![self.sensor_id]);
        assert(v@ =~= remote_sample_request_wire(*self));
        v
    }

    pub fn encoded_len(&self) -> (out: Option<usize>)
        ensures
            out == Some((4) as usize),
    {
        Some(4)
    }

    pub fn encode_into(&self, out: &mut [u8]) -> (res: Result<usize, WireCodecError>)
        ensures
            ({
                let w = remote_sample_request_wire(*self);
                if old(out)@.len() < w.len() {
                    res == Err::<usize, WireCodecError>(WireCodecError::Truncated) && final(out)@ == old(out)@
                } else {
                    res == Ok::<usize, WireCodecError>(w.len() as usize)
                        && final(out)@ == w + old(out)@.subrange(w.len() as int, old(out)@.len() as int)
                }
            }),
    {
        let w = self.wire_bytes();
        if out.len() < w.len() {
            return Err(WireCodecError::Truncated);
        }
        let ghost orig = out@;
        crate::wire::write_bytes(out, 0, w.as_slice());
        assert(orig.subrange(0, 0) + w@ =~= w@);
        Ok(w.len())
    }

    pub fn decode_payload(input: &[u8]) -> (out: Result<Self, WireCodecError>)
        ensures
            match remote_sample_request_wire_ok(input@) {
                Err(e) => out == Err::<Self, WireCodecError>(e),
                Ok(_) => out is Ok && remote_sample_request_from_wire(out->Ok_0, input@),
            },
    {
        if input.len() != 4 {
            return Err(WireCodecError::Malformed);
        }
        let fd_value = input[0];
        let generation_value = read_u16_be(input, 1);
        let sensor_id_value = input[3];
        Ok(RemoteSampleRequest { fd: fd_value, generation: generation_value, sensor_id: sensor_id_value })
    }
}

/// A `RemoteSampleRequest` that encodes decodes back to the same fields.
pub proof fn lemma_remote_sample_request_round_trip(m: RemoteSampleRequest, x: RemoteSampleRequest)
    ensures
        remote_sample_request_wire_ok(remote_sample_request_wire(m)) == Ok::<(), WireCodecError>(()),
        remote_sample_request_from_wire(x, remote_sample_request_wire(m)) ==> x.fd == m.fd && x.generation == m.generation && x.sensor_id == m.sensor_id,
{
    let w = remote_sample_request_wire(m);
    assert(w.subrange(1, 3) =~= be16(m.generation));
    lemma_read_be16_at(w, 1, m.generation);
}

/// A sample from a remote sensor.
#[derive(Clone, Copy, Debug, PartialEq, Eq, Structural)]
pub struct RemoteSample {
    pub sensor_id: u8,
    pub result: u8,
    pub value: u32,
    pub timestamp: u64,
}

/// The bytes of a `RemoteSample` on the wire.
pub open spec fn remote_sample_wire(m: RemoteSample) -> Seq<u8> {
    seq![m.sensor_id] + seq![m.result] + be32(m.value) + be64(m.timestamp)
}

/// Whether bytes hold a well-formed `RemoteSample`.
pub open spec fn remote_sample_wire_ok(input: Seq<u8>) -> Result<(), WireCodecError> {
    if input.len() != 14 {
        Err(WireCodecError::Malformed)
    } else {
        Ok(())
    }
}

/// Whether `m` holds what the bytes say.
pub open spec fn remote_sample_from_wire(m: RemoteSample, input: Seq<u8>) -> bool {
    m.sensor_id == input[0]
    && m.result == input[1]
    && m.value == read_be32(input, 2)
    && m.timestamp == read_be64(input, 6)
}

impl RemoteSample {
    pub fn new(sensor_id: u8, result: u8, value: u32, timestamp: u64) -> (out: Self)
        ensures
            out == (RemoteSample { sensor_id, result, value, timestamp }),
    {
        RemoteSample { sensor_id, result, value, timestamp }
    }

    pub fn sensor_id(&self) -> (out: u8)
        ensures
            out == self.sensor_id,
    {
        self.sensor_id
    }

    pub fn result(&self) -> (out: u8)
        ensures
            out == self.result,
    {
        self.result
    }

    pub fn value(&self) -> (out: u32)
        ensures
            out == self.value,
    {
        self.value
    }

    pub fn timestamp(&self) -> (out: u64)
        ensures
            out == self.timestamp,
    {
        self.timestamp
    }

    /// The bytes of this payload on the wire.
    pub fn wire_bytes(&self) -> (out: Vec<u8>)
        ensures
            out@ == remote_sample_wire(*self),
    {
        let mut v: Vec<u8> = Vec::new();
        let ghost before = v@;
        v.push(self.sensor_id);
        assert(v@ =~= before + seq![self.sensor_id]);
        let ghost before = v@;
        v.push(self.result);
        assert(v@ =~= before + seq![self.result]);
        let ghost before = v@;
        push_be32(&mut v, self.value);
        let ghost before = v@;
        push_be64(&mut v, self.timestamp);
        assert(v@ =~= remote_sample_wire(*self));
        v
    }

    pub fn encoded_len(&self) -> (out: Option<usize>)
        ensures
            out == Some((14) as usize),
    {
        Some(14)
    }

    pub fn encode_into(&self, out: &mut [u8]) -> (res: Result<usize, WireCodecError>)
        ensures
            ({
                let w = remote_sample_wire(*self);
                if old(out)@.len() < w.len() {
                    res == Err::<usize, WireCodecError>(WireCodecError::Truncated) && final(out)@ == old(out)@
                } else {
                    res == Ok::<usize, WireCodecError>(w.len() as usize)
                        && final(out)@ == w + old(out)@.subrange(w.len() as int, old(out)@.len() as int)
                }
            }),
    {
        let w = self.wire_bytes();
        if out.len() < w.len() {
            return Err(WireCodecError::Truncated);
        }
        let ghost orig = out@;
        crate::wire::write_bytes(out, 0, w.as_slice());
        assert(orig.subrange(0, 0) + w@ =~= w@);
        Ok(w.len())
    }

    pub fn decode_payload(input: &[u8]) -> (out: Result<Self, WireCodecError>)
        ensures
            match remote_sample_wire_ok(input@) {
                Err(e) => out == Err::<Self, WireCodecError>(e),
                Ok(_) => out is Ok && remote_sample_from_wire(out->Ok_0, input@),
            },
    {
        if input.len() != 14 {
            return Err(WireCodecError::Malformed);
        }
        let sensor_id_value = input[0];
        let result_value = input[1];
        let value_value = read_u32_be(input, 2);
        let timestamp_value = read_u64_be(input, 6);
        Ok(RemoteSample { sensor_id: sensor_id_value, result: result_value, value: value_value, timestamp: timestamp_value })
    }
}

/// A `RemoteSample` that encodes decodes back to the same fields.
pub proof fn lemma_remote_sample_round_trip(m: RemoteSample, x: RemoteSample)
    ensures
        remote_sample_wire_ok(remote_sample_wire(m)) == Ok::<(), WireCodecError>(()),
        remote_sample_from_wire(x, remote_sample_wire(m)) ==> x.sensor_id == m.sensor_id && x.result == m.result && x.value == m.value && x.timestamp == m.timestamp,
{
    let w = remote_sample_wire(m);
    assert(w.subrange(2, 6) =~= be32(m.value));
    lemma_read_be32_at(w, 2, m.value);
    assert(w.subrange(6, 14) =~= be64(m.timestamp));
    lemma_read_be64_at(w, 6, m.timestamp);
}

/// A request to drive a remote actuator channel.
#[derive(Clone, Copy, Debug, PartialEq, Eq, Structural)]
pub struct RemoteActuateRequest {
    pub fd: u8,
    pub generation: u16,
    pub channel: u8,
    pub value: u32,
}

/// The bytes of a `RemoteActuateRequest` on the wire.
pub open spec fn remote_actuate_request_wire(m: RemoteActuateRequest) -> Seq<u8> {
    seq![m.fd] + be16(m.generation) + seq![m.channel] + be32(m.value)
}

/// Whether bytes hold a well-formed `RemoteActuateRequest`.
pub open spec fn remote_actuate_request_wire_ok(input: Seq<u8>) -> Result<(), WireCodecError> {
    if input.len() != 8 {
        Err(WireCodecError::Malformed)
    } else {
        Ok(())
    }
}

/// Whether `m` holds what the bytes say.
pub open spec fn remote_actuate_request_from_wire(m: RemoteActuateRequest, input: Seq<u8>) -> bool {
    m.fd == input[0]
    && m.generation == read_be16(input, 1)
    && m.channel == input[3]
    && m.value == read_be32(input, 4)
}

impl RemoteActuateRequest {
    pub fn new(fd: u8, generation: u16, channel: u8, value: u32) -> (out: Self)
        ensures
            out == (RemoteActuateRequest { fd, generation, channel, value }),
    {
        RemoteActuateRequest { fd, generation, channel, value }
    }

    pub fn fd(&self) -> (out: u8)
        ensures
            out == self.fd,
    {
        self.fd
    }

    pub fn generation(&self) -> (out: u16)
        ensures
            out == self.generation,
    {
        self.generation
    }

    pub fn channel(&self) -> (out: u8)
        ensures
            out == self.channel,
    {
        self.channel
    }

    pub fn value(&self) -> (out: u32)
        ensures
            out == self.value,
    {
        self.value
    }

    /// The bytes of this payload on the wire.
    pub fn wire_bytes(&self) -> (out: Vec<u8>)
        ensures
            out@ == remote_actuate_request_wire(*self),
    {
        let mut v: Vec<u8> = Vec::new();
        let ghost before = v@;
        v.push(self.fd);
        assert(v@ =~= before + seq![self.fd]);
        let ghost before = v@;
        push_be16(&mut v, self.generation);
        let ghost before = v@;
        v.push(self.channel);
        assert(v@ =~= before + seq![self.channel]);
        let ghost before = v@;
        push_be32(&mut v, self.value);
        assert(v@ =~= remote_actuate_request_wire(*self));
        v
    }

    pub fn encoded_len(&self) -> (out: Option<usize>)
        ensures
            out == Some((8) as usize),
    {
        Some(8)
    }

    pub fn encode_into(&self, out: &mut [u8]) -> (res: Result<usize, WireCodecError>)
        ensures
            ({
                let w = remote_actuate_request_wire(*self);
                if old(out)@.len() < w.len() {
                    res == Err::<usize, WireCodecError>(WireCodecError::Truncated) && final(out)@ == old(out)@
                } else {
                    res == Ok::<usize, WireCodecError>(w.len() as usize)
                        && final(out)@ == w + old(out)@.subrange(w.len() as int, old(out)@.len() as int)
                }
            }),
    {
        let w = self.wire_bytes();
        if out.len() < w.len() {
            return Err(WireCodecError::Truncated);
        }
        let ghost orig = out@;
        crate::wire::write_bytes(out, 0, w.as_slice());
        assert(orig.subrange(0, 0) + w@ =~= w@);
        Ok(w.len())
    }

    pub fn decode_payload(input: &[u8]) -> (out: Result<Self, WireCodecError>)
        ensures
            match remote_actuate_request_wire_ok(input@) {
                Err(e) => out == Err::<Self, WireCodecError>(e),
                Ok(_) => out is Ok && remote_actuate_request_from_wire(out->Ok_0, input@),
            },
    {
        if input.len() != 8 {
            return Err(WireCodecError::Malformed);
        }
        let fd_value = input[0];
        let generation_value = read_u16_be(input, 1);
        let channel_value = input[3];
        let value_value = read_u32_be(input, 4);
        Ok(RemoteActuateRequest { fd: fd_value, generation: generation_value, channel: channel_value, value: value_value })
    }
}

/// A `RemoteActuateRequest` that encodes decodes back to the same fields.
pub proof fn lemma_remote_actuate_request_round_trip(m: RemoteActuateRequest, x: RemoteActuateRequest)
    ensures
        remote_actuate_request_wire_ok(remote_actuate_request_wire(m)) == Ok::<(), WireCodecError>(()),
        remote_actuate_request_from_wire(x, remote_actuate_request_wire(m)) ==> x.fd == m.fd && x.generation == m.generation && x.channel == m.channel && x.value == m.value,
{
    let w = remote_actuate_request_wire(m);
    assert(w.subrange(1, 3) =~= be16(m.generation));
    lemma_read_be16_at(w, 1, m.generation);
    assert(w.subrange(4, 8) =~= be32(m.value));
    lemma_read_be32_at(w, 4, m.value);
}

/// The answer to an actuation.
#[derive(Clone, Copy, Debug, PartialEq, Eq, Structural)]
pub struct RemoteActuateAck {
    pub channel: u8,
    pub result: u8,
}

/// The bytes of a `RemoteActuateAck` on the wire.
pub open spec fn remote_actuate_ack_wire(m: RemoteActuateAck) -> Seq<u8> {
    seq![m.channel] + seq![m.result]
}

/// Whether bytes hold a well-formed `RemoteActuateAck`.
pub open spec fn remote_actuate_ack_wire_ok(input: Seq<u8>) -> Result<(), WireCodecError> {
    if input.len() != 2 {
        Err(WireCodecError::Malformed)
    } else {
        Ok(())
    }
}

/// Whether `m` holds what the bytes say.
pub open spec fn remote_actuate_ack_from_wire(m: RemoteActuateAck, input: Seq<u8>) -> bool {
    m.channel == input[0]
    && m.result == input[1]
}

impl RemoteActuateAck {
    pub fn new(channel: u8, result: u8) -> (out: Self)
        ensures
            out == (RemoteActuateAck { channel, result }),
    {
        RemoteActuateAck { channel, result }
    }

    pub fn channel(&self) -> (out: u8)
        ensures
            out == self.channel,
    {
        self.channel
    }

    pub fn result(&self) -> (out: u8)
        ensures
            out == self.result,
    {
        self.result
    }

    /// The bytes of this payload on the wire.
    pub fn wire_bytes(&self) -> (out: Vec<u8>)
        ensures
            out@ == remote_actuate_ack_wire(*self),
    {
        let mut v: Vec<u8> = Vec::new();
        let ghost before = v@;
        v.push(self.channel);
        assert(v@ =~= before + seq![self.channel]);
        let ghost before = v@;
        v.push(self.result);
        assert(v@ =~= before + seq![self.result]);
        assert(v@ =~= remote_actuate_ack_wire(*self));
        v
    }

    pub fn encoded_len(&self) -> (out: Option<usize>)
        ensures
            out == Some((2) as usize),
    {
        Some(2)
    }

    pub fn encode_into(&self, out: &mut [u8]) -> (res: Result<usize, WireCodecError>)
        ensures
            ({
                let w = remote_actuate_ack_wire(*self);
                if old(out)@.len() < w.len() {
                    res == Err::<usize, WireCodecError>(WireCodecError::Truncated) && final(out)@ == old(out)@
                } else {
                    res == Ok::<usize, WireCodecError>(w.len() as usize)
                        && final(out)@ == w + old(out)@.subrange(w.len() as int, old(out)@.len() as int)
                }
            }),
    {
        let w = self.wire_bytes();
        if out.len() < w.len() {
            return Err(WireCodecError::Truncated);
        }
        let ghost orig = out@;
        crate::wire::write_bytes(out, 0, w.as_slice());
        assert(orig.subrange(0, 0) + w@ =~= w@);
        Ok(w.len())
    }

    pub fn decode_payload(input: &[u8]) -> (out: Result<Self, WireCodecError>)
        ensures
            match remote_actuate_ack_wire_ok(input@) {
                Err(e) => out == Err::<Self, WireCodecError>(e),
                Ok(_) => out is Ok && remote_actuate_ack_from_wire(out->Ok_0, input@),
            },
    {
        if input.len() != 2 {
            return Err(WireCodecError::Malformed);
        }
        let channel_value = input[0];
        let result_value = input[1];
        Ok(RemoteActuateAck { channel: channel_value, result: result_value })
    }
}

/// A `RemoteActuateAck` that encodes decodes back to the same fields.
pub proof fn lemma_remote_actuate_ack_round_trip(m: RemoteActuateAck, x: RemoteActuateAck)
    ensures
        remote_actuate_ack_wire_ok(remote_actuate_ack_wire(m)) == Ok::<(), WireCodecError>(()),
        remote_actuate_ack_from_wire(x, remote_actuate_ack_wire(m)) ==> x.channel == m.channel && x.result == m.result,
{
    let w = remote_actuate_ack_wire(m);
}

} // verus!
