//! The CYW43439 radio as the swarm sees it: its status bits, the bytes of its SPI command
//! protocol and what each reply means, the receive metadata it leaves per role, and the
//! checks a frame passes before its payload is handed to a role.
use vstd::prelude::*;
use crate::kernel::swarm::{
    NodeId, SWARM_FRAME_MAX_WIRE_LEN, SWARM_FRAME_PAYLOAD_CAPACITY, SwarmDropTelemetry, SwarmError, SwarmFrame,
    SwarmSecurity, accept_transport_replay, frame_wire, spec_accept_transport_replay, spec_frame_verify,
    spec_next_seq,
};
use crate::seqs::{first_index, lemma_first_index, lemma_first_index_at};

verus! {

pub const CYW_CMD_SELECT_NODE: u8 = 0x10;
pub const CYW_CMD_STATUS: u8 = 0x20;
pub const CYW_CMD_TX_FRAME: u8 = 0x30;
pub const CYW_CMD_RX_FRAME: u8 = 0x40;
pub const CYW_CMD_RESET: u8 = 0x50;
pub const CYW_CMD_CLEAR_STATUS: u8 = 0x51;
pub const CYW_CMD_POWER_ON: u8 = 0x52;
pub const CYW_CMD_RESET_ASSERT: u8 = 0x53;
pub const CYW_CMD_RESET_RELEASE: u8 = 0x54;
pub const CYW_CMD_PEEK_LABEL: u8 = 0x60;
pub const CYW_CMD_NODE_ROLE: u8 = 0x70;
pub const CYW_CMD_NODE_ID: u8 = 0x71;
pub const CYW_CMD_RADIO_MODE: u8 = 0x72;
pub const CYW_CMD_NODE_COUNT: u8 = 0x73;
pub const CYW_CMD_FW_BEGIN: u8 = 0x80;
pub const CYW_CMD_FW_CHUNK: u8 = 0x81;
pub const CYW_CMD_FW_COMMIT: u8 = 0x82;
pub const CYW_CMD_CLM_BEGIN: u8 = 0x83;
pub const CYW_CMD_CLM_CHUNK: u8 = 0x84;
pub const CYW_CMD_CLM_COMMIT: u8 = 0x85;
pub const CYW_CMD_NVRAM_APPLY: u8 = 0x86;
pub const CYW_CMD_BOOT: u8 = 0x87;
pub const CYW_CMD_FW_STATE: u8 = 0x88;
pub const CYW_CMD_IDENT: u8 = 0x9f;

pub const CYW_STATUS_RX_READY: u8 = 1;
pub const CYW_STATUS_TX_READY: u8 = 2;
pub const CYW_STATUS_JOINED: u8 = 4;
pub const CYW_STATUS_OVERFLOW: u8 = 16;

pub const CYW_FW_STATE_READY: u8 = 32;
pub const CYW_FW_STATE_ERROR: u8 = 128;
pub const CYW_ACK: u8 = 0xac;
pub const CYW_ERR: u8 = 0xee;
pub const CYW_IDENT: u8 = 0x43;
pub const CYW_FNV1A32_OFFSET: u32 = 0x811c_9dc5;
pub const CYW_FIRMWARE_CHUNK: usize = 128;

pub const CYW43439_WIFI_FW_LEN: usize = 224_190;
pub const CYW43439_CLM_LEN: usize = 984;
pub const CYW43439_WIFI_FW_FNV1A32: u32 = 0xfa23_1a9f;
pub const CYW43439_CLM_FNV1A32: u32 = 0x5178_f94d;

pub const NODE_ROLE_COORDINATOR: u8 = 0;
pub const NODE_ROLE_SENSOR: u8 = 1;
pub const NODE_ROLE_DUAL_CORE: u8 = 0xff;

pub const QEMU_CYW43439_MAX_ROLES: usize = 6;

#[derive(Clone, Copy, Debug, PartialEq, Eq, Structural)]
pub enum Cyw43439Error {
    SpiUnavailable,
    NotPresent,
    NotJoined,
    FirmwareLoadFailed,
    TxNotReady,
    QueueOverflow,
    FrameTooLarge,
    Swarm(SwarmError),
}

impl From<SwarmError> for Cyw43439Error {
    fn from(value: SwarmError) -> (out: Self) {
        Cyw43439Error::Swarm(value)
    }
}

impl vstd::std_specs::convert::FromSpecImpl<SwarmError> for Cyw43439Error {
    open spec fn obeys_from_spec() -> bool {
        true
    }

    open spec fn from_spec(v: SwarmError) -> Self {
        Cyw43439Error::Swarm(v)
    }
}

/// The radio's status byte for one node.
#[derive(Clone, Copy, Debug, PartialEq, Eq, Structural)]
pub struct Cyw43439Status {
    pub bits: u8,
}

impl Cyw43439Status {
    pub open spec fn spec_rx_ready(self) -> bool {
        self.bits & 1u8 != 0
    }

    pub open spec fn spec_tx_ready(self) -> bool {
        self.bits & 2u8 != 0
    }

    pub open spec fn spec_joined(self) -> bool {
        self.bits & 4u8 != 0
    }

    pub open spec fn spec_queue_overflow(self) -> bool {
        self.bits & 16u8 != 0
    }

    pub fn from_bits(bits: u8) -> (out: Self)
        ensures
            out.bits == bits,
    {
        Cyw43439Status { bits }
    }

    pub fn bits(self) -> (out: u8)
        ensures
            out == self.bits,
    {
        self.bits
    }

    pub fn rx_ready(self) -> (out: bool)
        ensures
            out == self.spec_rx_ready(),
    {
        self.bits & CYW_STATUS_RX_READY != 0
    }

    pub fn tx_ready(self) -> (out: bool)
        ensures
            out == self.spec_tx_ready(),
    {
        self.bits & CYW_STATUS_TX_READY != 0
    }

    pub fn joined(self) -> (out: bool)
        ensures
            out == self.spec_joined(),
    {
        self.bits & CYW_STATUS_JOINED != 0
    }

    pub fn queue_overflow(self) -> (out: bool)
        ensures
            out == self.spec_queue_overflow(),
    {
        self.bits & CYW_STATUS_OVERFLOW != 0
    }
}

/// What the reply to an acknowledged byte means: only the acknowledgement byte is success.
pub fn ack_result(reply: u8) -> (out: Result<(), Cyw43439Error>)
    ensures
        reply == CYW_ACK ==> out == Ok::<(), Cyw43439Error>(()),
        reply != CYW_ACK ==> out == Err::<(), Cyw43439Error>(Cyw43439Error::FirmwareLoadFailed),
{
    if reply == CYW_ACK {
        Ok(())
    } else {
        Err(Cyw43439Error::FirmwareLoadFailed)
    }
}

/// What the identification byte means: the radio is there only if it answers its ident.
pub fn ident_result(ident: u8) -> (out: Result<(), Cyw43439Error>)
    ensures
        ident == CYW_IDENT ==> out == Ok::<(), Cyw43439Error>(()),
        ident != CYW_IDENT ==> out == Err::<(), Cyw43439Error>(Cyw43439Error::NotPresent),
{
    if ident != CYW_IDENT {
        return Err(Cyw43439Error::NotPresent);
    }
    Ok(())
}

/// What the firmware state byte after boot means: ready and no error.
pub fn firmware_state_result(state: u8) -> (out: Result<(), Cyw43439Error>)
    ensures
        (state & 128u8 == 0 && state & 32u8 != 0) ==> out == Ok::<(), Cyw43439Error>(()),
        !(state & 128u8 == 0 && state & 32u8 != 0) ==> out == Err::<(), Cyw43439Error>(
            Cyw43439Error::FirmwareLoadFailed,
        ),
{
    if state & CYW_FW_STATE_ERROR != 0 || state & CYW_FW_STATE_READY == 0 {
        return Err(Cyw43439Error::FirmwareLoadFailed);
    }
    Ok(())
}

/// The little-endian bytes of `v`.
pub open spec fn le32(v: u32) -> Seq<u8> {
    seq![(v & 0xffu32) as u8, ((v >> 8u32) & 0xffu32) as u8, ((v >> 16u32) & 0xffu32) as u8, ((v >> 24u32) & 0xffu32) as u8]
}

fn push_le32(out: &mut Vec<u8>, v: u32)
    ensures
        final(out)@ == old(out)@ + le32(v),
{
    out.push((v & 0xff) as u8);
    out.push(((v >> 8) & 0xff) as u8);
    out.push(((v >> 16) & 0xff) as u8);
    out.push(((v >> 24) & 0xff) as u8);
    assert(out@ =~= old(out)@ + le32(v));
}

/// The acknowledged bytes that open a load: the command, then length and hash little-endian.
pub open spec fn spec_load_begin(cmd: u8, len: u32, hash: u32) -> Seq<u8> {
    seq![cmd] + le32(len) + le32(hash)
}

/// The acknowledged bytes of the load chunks of `b` from byte `pos` on: per chunk of up to
/// 128 bytes the command, its offset little-endian, its length, then its bytes.
pub open spec fn spec_load_chunks_from(cmd: u8, b: Seq<u8>, pos: int) -> Seq<u8>
    decreases b.len() - pos,
{
    if pos < 0 || pos >= b.len() {
        Seq::empty()
    } else {
        let end = if pos + 128 < b.len() { pos + 128 } else { b.len() as int };
        seq![cmd] + le32(pos as u32) + seq![(end - pos) as u8] + b.subrange(pos, end) + spec_load_chunks_from(cmd, b, end)
    }
}

pub fn load_begin_bytes(cmd: u8, len: u32, hash: u32) -> (out: Vec<u8>)
    ensures
        out@ == spec_load_begin(cmd, len, hash),
{
    let mut out: Vec<u8> = Vec::new();
    out.push(cmd);
    push_le32(&mut out, len);
    push_le32(&mut out, hash);
    assert(out@ =~= spec_load_begin(cmd, len, hash));
    out
}

pub fn load_chunk_bytes(cmd: u8, bytes: &[u8]) -> (out: Vec<u8>)
    requires
        bytes@.len() <= u32::MAX,
    ensures
        out@ == spec_load_chunks_from(cmd, bytes@, 0),
{
    let mut out: Vec<u8> = Vec::new();
    let len = bytes.len();
    let mut pos: usize = 0;
    while pos < len
        invariant
            len == bytes@.len(),
            len <= u32::MAX,
            pos <= len,
            out@ + spec_load_chunks_from(cmd, bytes@, pos as int) == spec_load_chunks_from(cmd, bytes@, 0),
        decreases len - pos,
    {
        let end = if len - pos > CYW_FIRMWARE_CHUNK {
            pos + CYW_FIRMWARE_CHUNK
        } else {
            len
        };
        let chunk_len: u8 = (end - pos) as u8;
        let ghost before = out@;
        out.push(cmd);
        push_le32(&mut out, pos as u32);
        out.push(chunk_len);
        let mut i: usize = pos;
        while i < end
            invariant
                pos <= i <= end <= len,
                len == bytes@.len(),
                out@ == before + seq![cmd] + le32(pos as u32) + seq![chunk_len] + bytes@.subrange(pos as int, i as int),
            decreases end - i,
        {
            out.push(bytes[i]);
            i = i + 1;
            assert(out@ =~= before + seq![cmd] + le32(pos as u32) + seq![chunk_len] + bytes@.subrange(pos as int, i as int));
        }
        assert(spec_load_chunks_from(cmd, bytes@, pos as int) == seq![cmd] + le32(pos as u32) + seq![chunk_len]
            + bytes@.subrange(pos as int, end as int) + spec_load_chunks_from(cmd, bytes@, end as int));
        assert(out@ + spec_load_chunks_from(cmd, bytes@, end as int) =~= before + spec_load_chunks_from(cmd, bytes@, pos as int));
        pos = end;
    }
    assert(out@ =~= out@ + spec_load_chunks_from(cmd, bytes@, len as int));
    out
}

/// Every byte the radio must acknowledge while the firmware and CLM blobs load, in order;
/// after the last one the firmware state byte decides.
pub open spec fn spec_firmware_load_bytes(firmware: Seq<u8>, clm: Seq<u8>) -> Seq<u8> {
    spec_load_begin(CYW_CMD_FW_BEGIN, CYW43439_WIFI_FW_LEN as u32, CYW43439_WIFI_FW_FNV1A32)
        + spec_load_chunks_from(CYW_CMD_FW_CHUNK, firmware, 0) + seq![CYW_CMD_FW_COMMIT]
        + spec_load_begin(CYW_CMD_CLM_BEGIN, CYW43439_CLM_LEN as u32, CYW43439_CLM_FNV1A32)
        + spec_load_chunks_from(CYW_CMD_CLM_CHUNK, clm, 0) + seq![CYW_CMD_CLM_COMMIT]
        + spec_load_begin(CYW_CMD_NVRAM_APPLY, 0, CYW_FNV1A32_OFFSET) + seq![CYW_CMD_BOOT]
}

pub fn firmware_load_bytes(firmware: &[u8], clm: &[u8]) -> (out: Vec<u8>)
    requires
        firmware@.len() <= u32::MAX,
        clm@.len() <= u32::MAX,
    ensures
        out@ == spec_firmware_load_bytes(firmware@, clm@),
{
    let mut out = load_begin_bytes(CYW_CMD_FW_BEGIN, CYW43439_WIFI_FW_LEN as u32, CYW43439_WIFI_FW_FNV1A32);
    let mut part = load_chunk_bytes(CYW_CMD_FW_CHUNK, firmware);
    out.append(&mut part);
    out.push(CYW_CMD_FW_COMMIT);
    let mut part = load_begin_bytes(CYW_CMD_CLM_BEGIN, CYW43439_CLM_LEN as u32, CYW43439_CLM_FNV1A32);
    out.append(&mut part);
    let mut part = load_chunk_bytes(CYW_CMD_CLM_CHUNK, clm);
    out.append(&mut part);
    out.push(CYW_CMD_CLM_COMMIT);
    let mut part = load_begin_bytes(CYW_CMD_NVRAM_APPLY, 0, CYW_FNV1A32_OFFSET);
    out.append(&mut part);
    out.push(CYW_CMD_BOOT);
    assert(out@ =~= spec_firmware_load_bytes(firmware@, clm@));
    out
}

/// The acknowledged bytes that power the radio up and release it from reset.
pub fn power_up_bytes() -> (out: [u8; 3])
    ensures
        out@ == seq![CYW_CMD_POWER_ON, CYW_CMD_RESET_ASSERT, CYW_CMD_RESET_RELEASE],
{
    let out = [CYW_CMD_POWER_ON, CYW_CMD_RESET_ASSERT, CYW_CMD_RESET_RELEASE];
    assert(out@ =~= seq![CYW_CMD_POWER_ON, CYW_CMD_RESET_ASSERT, CYW_CMD_RESET_RELEASE]);
    out
}

/// Whether `node` can be addressed over the radio: its id fits a byte and is not 0.
pub open spec fn radio_node_ok(node: NodeId) -> bool {
    node.0 != 0 && node.0 <= 255
}

/// The bytes that select `node` before its status is read: the command, then the node id's
/// low byte.
pub fn select_node_bytes(node: NodeId) -> (out: [u8; 2])
    ensures
        out@ == seq![CYW_CMD_SELECT_NODE, node.0 as u8],
{
    let out = [CYW_CMD_SELECT_NODE, node.raw() as u8];
    assert(out@ =~= seq![CYW_CMD_SELECT_NODE, node.0 as u8]);
    out
}

/// The checks on a frame before anything goes over the bus: its length, then its destination.
pub fn send_frame_check(dst: NodeId, len: usize) -> (out: Result<(), Cyw43439Error>)
    ensures
        len > SWARM_FRAME_MAX_WIRE_LEN ==> out == Err::<(), Cyw43439Error>(Cyw43439Error::FrameTooLarge),
        len <= SWARM_FRAME_MAX_WIRE_LEN && !radio_node_ok(dst) ==> out == Err::<(), Cyw43439Error>(
            Cyw43439Error::Swarm(SwarmError::BadNode),
        ),
        len <= SWARM_FRAME_MAX_WIRE_LEN && radio_node_ok(dst) ==> out == Ok::<(), Cyw43439Error>(()),
{
    if len > SWARM_FRAME_MAX_WIRE_LEN {
        return Err(Cyw43439Error::FrameTooLarge);
    }
    if dst.raw() == 0 || dst.raw() > 255 {
        return Err(Cyw43439Error::Swarm(SwarmError::BadNode));
    }
    Ok(())
}

/// What the destination's status allows for a send: joined, no overflow, ready to transmit.
pub fn tx_status_check(status: Cyw43439Status) -> (out: Result<(), Cyw43439Error>)
    ensures
        !status.spec_joined() ==> out == Err::<(), Cyw43439Error>(Cyw43439Error::NotJoined),
        status.spec_joined() && status.spec_queue_overflow() ==> out == Err::<(), Cyw43439Error>(
            Cyw43439Error::QueueOverflow,
        ),
        status.spec_joined() && !status.spec_queue_overflow() && !status.spec_tx_ready() ==> out == Err::<
            (),
            Cyw43439Error,
        >(Cyw43439Error::TxNotReady),
        status.spec_joined() && !status.spec_queue_overflow() && status.spec_tx_ready() ==> out == Ok::<
            (),
            Cyw43439Error,
        >(()),
{
    if !status.joined() {
        return Err(Cyw43439Error::NotJoined);
    }
    if status.queue_overflow() {
        return Err(Cyw43439Error::QueueOverflow);
    }
    if !status.tx_ready() {
        return Err(Cyw43439Error::TxNotReady);
    }
    Ok(())
}

/// The bytes that transmit `bytes` to `dst`: the command, the node, the length, the bytes.
pub fn tx_frame_bytes(dst: NodeId, bytes: &[u8]) -> (out: Vec<u8>)
    requires
        radio_node_ok(dst),
        bytes@.len() <= SWARM_FRAME_MAX_WIRE_LEN,
    ensures
        out@ == seq![CYW_CMD_TX_FRAME, dst.0 as u8, bytes@.len() as u8] + bytes@,
{
    let mut out: Vec<u8> = Vec::new();
    out.push(CYW_CMD_TX_FRAME);
    out.push(dst.raw() as u8);
    out.push(bytes.len() as u8);
    let mut i: usize = 0;
    while i < bytes.len()
        invariant
            i <= bytes@.len(),
            out@ == seq![CYW_CMD_TX_FRAME, dst.0 as u8, bytes@.len() as u8] + bytes@.subrange(0, i as int),
        decreases bytes@.len() - i,
    {
        out.push(bytes[i]);
        i = i + 1;
        assert(out@ =~= seq![CYW_CMD_TX_FRAME, dst.0 as u8, bytes@.len() as u8] + bytes@.subrange(0, i as int));
    }
    assert(bytes@.subrange(0, bytes@.len() as int) =~= bytes@);
    out
}

/// The check on the node a receive or peek addresses.
pub fn radio_node_check(node: NodeId) -> (out: Result<(), Cyw43439Error>)
    ensures
        radio_node_ok(node) ==> out == Ok::<(), Cyw43439Error>(()),
        !radio_node_ok(node) ==> out == Err::<(), Cyw43439Error>(Cyw43439Error::Swarm(SwarmError::BadNode)),
{
    if node.raw() == 0 || node.raw() > 255 {
        return Err(Cyw43439Error::Swarm(SwarmError::BadNode));
    }
    Ok(())
}

/// What the node's status allows for a receive: `false` when nothing is ready.
pub fn rx_status_check(status: Cyw43439Status) -> (out: Result<bool, Cyw43439Error>)
    ensures
        !status.spec_joined() ==> out == Err::<bool, Cyw43439Error>(Cyw43439Error::NotJoined),
        status.spec_joined() && status.spec_queue_overflow() ==> out == Err::<bool, Cyw43439Error>(
            Cyw43439Error::QueueOverflow,
        ),
        status.spec_joined() && !status.spec_queue_overflow() ==> out == Ok::<bool, Cyw43439Error>(
            status.spec_rx_ready(),
        ),
{
    if !status.joined() {
        return Err(Cyw43439Error::NotJoined);
    }
    if status.queue_overflow() {
        return Err(Cyw43439Error::QueueOverflow);
    }
    Ok(status.rx_ready())
}

/// What the length byte of a received frame means: nothing, too long, or that many bytes follow.
pub fn rx_len_check(len: u8) -> (out: Result<Option<usize>, Cyw43439Error>)
    ensures
        len == 0 ==> out == Ok::<Option<usize>, Cyw43439Error>(None),
        len > SWARM_FRAME_MAX_WIRE_LEN ==> out == Err::<Option<usize>, Cyw43439Error>(Cyw43439Error::FrameTooLarge),
        0 < len <= SWARM_FRAME_MAX_WIRE_LEN ==> out == Ok::<Option<usize>, Cyw43439Error>(Some(len as usize)),
{
    let len = len as usize;
    if len == 0 {
        return Ok(None);
    }
    if len > SWARM_FRAME_MAX_WIRE_LEN {
        return Err(Cyw43439Error::FrameTooLarge);
    }
    Ok(Some(len))
}

/// Whether a label may be peeked: joined, no overflow, something to receive.
pub fn peek_ready(status: Cyw43439Status) -> (out: bool)
    ensures
        out == (status.spec_joined() && !status.spec_queue_overflow() && status.spec_rx_ready()),
{
    status.joined() && !status.queue_overflow() && status.rx_ready()
}

/// What the peeked label byte means: 0xff is no label.
pub fn peeked_label(byte: u8) -> (out: Option<u8>)
    ensures
        byte == 0xff ==> out is None,
        byte != 0xff ==> out == Some(byte),
{
    if byte == 0xff {
        None
    } else {
        Some(byte)
    }
}

/// Where the last frame a role received came from and on which lane.
#[derive(Clone, Copy, Debug, PartialEq, Eq, Structural)]
pub struct QemuCyw43439RxMeta {
    pub src_node: NodeId,
    pub dst_node: NodeId,
    pub lane: u8,
}

impl QemuCyw43439RxMeta {
    pub fn new(src_node: NodeId, dst_node: NodeId, lane: u8) -> (out: Self)
        ensures
            out == (QemuCyw43439RxMeta { src_node, dst_node, lane }),
    {
        QemuCyw43439RxMeta { src_node, dst_node, lane }
    }

    pub fn src_node(self) -> (out: NodeId)
        ensures
            out == self.src_node,
    {
        self.src_node
    }

    pub fn dst_node(self) -> (out: NodeId)
        ensures
            out == self.dst_node,
    {
        self.dst_node
    }

    pub fn lane(self) -> (out: u8)
        ensures
            out == self.lane,
    {
        self.lane
    }

    pub fn matches(self, src_node: NodeId, dst_node: NodeId, lane: u8) -> (out: bool)
        ensures
            out == (self.src_node == src_node && self.dst_node == dst_node && self.lane == lane),
    {
        self.src_node.raw() == src_node.raw() && self.dst_node.raw() == dst_node.raw() && self.lane == lane
    }
}

/// The word that records `meta`: a valid bit, the source, the destination and the lane a byte each.
pub open spec fn spec_encode_rx_meta(meta: QemuCyw43439RxMeta) -> u32 {
    0x8000_0000u32 | (meta.src_node.0 as u32) | ((meta.dst_node.0 as u32) << 8u32) | ((meta.lane as u32) << 16u32)
}

pub open spec fn spec_decode_rx_meta(encoded: u32) -> Option<QemuCyw43439RxMeta> {
    if encoded & 0x8000_0000u32 == 0 {
        None
    } else {
        Some(
            QemuCyw43439RxMeta {
                src_node: NodeId((encoded & 0xffu32) as u16),
                dst_node: NodeId(((encoded >> 8u32) & 0xffu32) as u16),
                lane: ((encoded >> 16u32) & 0xffu32) as u8,
            },
        )
    }
}

/// Whether `meta` can be recorded for `local_role`.
pub open spec fn rx_meta_recordable(local_role: u8, meta: QemuCyw43439RxMeta) -> bool {
    local_role < QEMU_CYW43439_MAX_ROLES && meta.src_node.0 <= 0xff && meta.dst_node.0 <= 0xff
}

pub fn encode_rx_meta(meta: QemuCyw43439RxMeta) -> (out: u32)
    requires
        meta.src_node.0 <= 0xff,
        meta.dst_node.0 <= 0xff,
    ensures
        out == spec_encode_rx_meta(meta),
{
    0x8000_0000u32 | (meta.src_node.raw() as u32) | ((meta.dst_node.raw() as u32) << 8) | ((meta.lane as u32) << 16)
}

pub fn decode_rx_meta(encoded: u32) -> (out: Option<QemuCyw43439RxMeta>)
    ensures
        out == spec_decode_rx_meta(encoded),
{
    if encoded & 0x8000_0000u32 == 0 {
        return None;
    }
    assert(encoded & 0xffu32 <= 0xff && (encoded >> 8u32) & 0xffu32 <= 0xff && (encoded >> 16u32) & 0xffu32 <= 0xff)
        by (bit_vector);
    Some(
        QemuCyw43439RxMeta::new(
            NodeId::new((encoded & 0xff) as u16),
            NodeId::new(((encoded >> 8) & 0xff) as u16),
            ((encoded >> 16) & 0xff) as u8,
        ),
    )
}

/// A recorded receive metadata word decodes to what was recorded.
pub proof fn lemma_rx_meta_round_trip(meta: QemuCyw43439RxMeta)
    requires
        meta.src_node.0 <= 0xff,
        meta.dst_node.0 <= 0xff,
    ensures
        spec_decode_rx_meta(spec_encode_rx_meta(meta)) == Some(meta),
{
    let s = meta.src_node.0 as u32;
    let d = meta.dst_node.0 as u32;
    let l = meta.lane as u32;
    assert({
        let e = 0x8000_0000u32 | s | (d << 8u32) | (l << 16u32);
        &&& e & 0x8000_0000u32 != 0
        &&& e & 0xffu32 == s
        &&& (e >> 8u32) & 0xffu32 == d
        &&& (e >> 16u32) & 0xffu32 == l
    }) by (bit_vector)
        requires
            s <= 0xff,
            d <= 0xff,
            l <= 0xff,
    ;
}

/// The last receive metadata of each role, each taken at most once.
pub struct QemuRxMetaSlots {
    slots: Vec<u32>,
}

impl View for QemuRxMetaSlots {
    type V = Seq<u32>;

    closed spec fn view(&self) -> Seq<u32> {
        self.slots@
    }
}

impl QemuRxMetaSlots {
    pub fn new() -> (out: Self)
        ensures
            out@ == Seq::new(QEMU_CYW43439_MAX_ROLES as nat, |r: int| 0u32),
    {
        let mut slots: Vec<u32> = Vec::new();
        let mut i: usize = 0;
        while i < QEMU_CYW43439_MAX_ROLES
            invariant
                i <= QEMU_CYW43439_MAX_ROLES,
                slots@ == Seq::new(i as nat, |r: int| 0u32),
            decreases QEMU_CYW43439_MAX_ROLES - i,
        {
            slots.push(0);
            i = i + 1;
            assert(slots@ =~= Seq::new(i as nat, |r: int| 0u32));
        }
        QemuRxMetaSlots { slots }
    }

    /// Records `meta` for `local_role`; a role out of range or a node that does not fit a byte
    /// records nothing.
    pub fn set(&mut self, local_role: u8, meta: QemuCyw43439RxMeta)
        requires
            old(self)@.len() == QEMU_CYW43439_MAX_ROLES,
        ensures
            final(self)@.len() == QEMU_CYW43439_MAX_ROLES,
            rx_meta_recordable(local_role, meta) ==> final(self)@ == old(self)@.update(
                local_role as int,
                spec_encode_rx_meta(meta),
            ),
            !rx_meta_recordable(local_role, meta) ==> final(self)@ == old(self)@,
    {
        let index = local_role as usize;
        if index >= QEMU_CYW43439_MAX_ROLES || meta.src_node.raw() > 0xff || meta.dst_node.raw() > 0xff {
            return;
        }
        let encoded = encode_rx_meta(meta);
        self.slots.set(index, encoded);
    }

    /// Takes the metadata recorded for `local_role`, leaving nothing behind.
    pub fn take(&mut self, local_role: u8) -> (out: Option<QemuCyw43439RxMeta>)
        requires
            old(self)@.len() == QEMU_CYW43439_MAX_ROLES,
        ensures
            final(self)@.len() == QEMU_CYW43439_MAX_ROLES,
            local_role >= QEMU_CYW43439_MAX_ROLES ==> out is None && final(self)@ == old(self)@,
            local_role < QEMU_CYW43439_MAX_ROLES ==> out == spec_decode_rx_meta(old(self)@[local_role as int])
                && final(self)@ == old(self)@.update(local_role as int, 0u32),
    {
        let index = local_role as usize;
        if index >= QEMU_CYW43439_MAX_ROLES {
            return None;
        }
        let encoded = self.slots[index];
        self.slots.set(index, 0);
        decode_rx_meta(encoded)
    }
}

/// Receive metadata recorded for a role is taken once, exactly as recorded, and then is gone.
pub proof fn lemma_rx_meta_consumed_once(slots: Seq<u32>, local_role: u8, meta: QemuCyw43439RxMeta)
    requires
        slots.len() == QEMU_CYW43439_MAX_ROLES,
        rx_meta_recordable(local_role, meta),
    ensures
        ({
            let recorded = slots.update(local_role as int, spec_encode_rx_meta(meta));
            let after = recorded.update(local_role as int, 0u32);
            &&& spec_decode_rx_meta(recorded[local_role as int]) == Some(meta)
            &&& spec_decode_rx_meta(after[local_role as int]) is None
        }),
{
    lemma_rx_meta_round_trip(meta);
    assert(0u32 & 0x8000_0000u32 == 0) by (bit_vector);
}

/// The sending half of a radio session.
#[derive(Clone, Copy, Debug, PartialEq, Eq, Structural)]
pub struct CywTx {
    pub session_id: u32,
    pub local_node: NodeId,
}

/// The receiving half of a radio session: the frame handed out last, a frame put back, and
/// per-source replay state with what to restore if the handed-out frame is put back.
pub struct CywRx {
    local_role: u8,
    session_id: u32,
    local_node: NodeId,
    current: Option<SwarmFrame>,
    requeued: Option<SwarmFrame>,
    replay: Vec<Option<(NodeId, u32)>>,
    last_replay_slot: Option<usize>,
    previous_replay_entry: Option<(NodeId, u32)>,
}

impl CywRx {
    pub closed spec fn spec_local_role(&self) -> u8 {
        self.local_role
    }

    pub closed spec fn spec_session_id(&self) -> u32 {
        self.session_id
    }

    pub closed spec fn spec_local_node(&self) -> NodeId {
        self.local_node
    }

    pub closed spec fn spec_current(&self) -> Option<SwarmFrame> {
        self.current
    }

    pub closed spec fn spec_requeued(&self) -> Option<SwarmFrame> {
        self.requeued
    }

    pub closed spec fn spec_replay(&self) -> Seq<Option<(NodeId, u32)>> {
        self.replay@
    }

    pub closed spec fn spec_last_replay_slot(&self) -> Option<usize> {
        self.last_replay_slot
    }

    pub closed spec fn spec_previous_replay_entry(&self) -> Option<(NodeId, u32)> {
        self.previous_replay_entry
    }

    pub closed spec fn wf(&self) -> bool {
        &&& self.replay@.len() == QEMU_CYW43439_MAX_ROLES
        &&& (self.last_replay_slot is Some ==> self.last_replay_slot->Some_0 < QEMU_CYW43439_MAX_ROLES)
    }

    pub fn local_role(&self) -> (out: u8)
        ensures
            out == self.spec_local_role(),
    {
        self.local_role
    }

    pub fn local_node(&self) -> (out: NodeId)
        ensures
            out == self.spec_local_node(),
    {
        self.local_node
    }

    pub fn current(&self) -> (out: &Option<SwarmFrame>)
        ensures
            *out == self.spec_current(),
    {
        &self.current
    }

    /// Starts a receive: forgets the frame handed out last and takes a put-back frame, if any.
    pub fn take_requeued(&mut self) -> (out: Option<SwarmFrame>)
        requires
            old(self).wf(),
        ensures
            final(self).wf(),
            out == old(self).spec_requeued(),
            final(self).spec_current() is None,
            final(self).spec_requeued() is None,
            final(self).spec_replay() == old(self).spec_replay(),
            final(self).spec_local_role() == old(self).spec_local_role(),
            final(self).spec_session_id() == old(self).spec_session_id(),
            final(self).spec_local_node() == old(self).spec_local_node(),
    {
        self.current = None;
        self.requeued.take()
    }

    /// Puts the frame handed out last back for the next receive and restores the replay entry
    /// it changed.
    pub fn requeue(&mut self)
        requires
            old(self).wf(),
        ensures
            final(self).wf(),
            final(self).spec_current() is None,
            final(self).spec_local_role() == old(self).spec_local_role(),
            final(self).spec_session_id() == old(self).spec_session_id(),
            final(self).spec_local_node() == old(self).spec_local_node(),
            match old(self).spec_current() {
                None => final(self).spec_requeued() == old(self).spec_requeued() && final(self).spec_replay() == old(
                    self,
                ).spec_replay(),
                Some(f) => final(self).spec_requeued() == Some(f) && final(self).spec_last_replay_slot() is None
                    && final(self).spec_replay() == (match old(self).spec_last_replay_slot() {
                    Some(slot) => old(self).spec_replay().update(slot as int, old(self).spec_previous_replay_entry()),
                    None => old(self).spec_replay(),
                }),
            },
    {
        let taken = self.current.take();
        match taken {
            Some(frame) => {
                match self.last_replay_slot.take() {
                    Some(slot) => {
                        self.replay.set(slot, self.previous_replay_entry);
                    },
                    None => {},
                }
                self.requeued = Some(frame);
            },
            None => {},
        }
    }

    /// The label of the frame handed out or put back, if there is one.
    pub fn held_label(&self) -> (out: Option<u8>)
        ensures
            out == (match self.spec_current() {
                Some(f) => Some(f.label_hint),
                None => match self.spec_requeued() {
                    Some(f) => Some(f.label_hint),
                    None => None,
                },
            }),
    {
        match &self.current {
            Some(frame) => Some(frame.label_hint()),
            None => match &self.requeued {
                Some(frame) => Some(frame.label_hint()),
                None => None,
            },
        }
    }
}

pub open spec fn node_is(node: NodeId) -> spec_fn(NodeId) -> bool {
    |x: NodeId| x == node
}

/// The role of `node` among the first `role_count` roles, if any.
pub open spec fn spec_role_for_node(role_nodes: Seq<NodeId>, role_count: u8, node: NodeId) -> Option<u8> {
    let n = if role_count < role_nodes.len() { role_count as int } else { role_nodes.len() as int };
    let i = first_index(role_nodes.take(n), node_is(node));
    if i < n {
        Some(i as u8)
    } else {
        None
    }
}

/// The node that serves `role`.
pub open spec fn spec_node_for_role(role_nodes: Seq<NodeId>, role_count: u8, role: u8) -> Result<NodeId, SwarmError> {
    if role >= role_count || role >= role_nodes.len() {
        Err(SwarmError::BadRole)
    } else if role_nodes[role as int].0 == 0 {
        Err(SwarmError::BadNode)
    } else {
        Ok(role_nodes[role as int])
    }
}

/// The checks a received frame passes before its payload is handed out, in order: addressed
/// to this node, from a node of the role map, of this session and generation, authentic.
pub open spec fn spec_validate_received(
    role_nodes: Seq<NodeId>,
    role_count: u8,
    session_generation: u16,
    security: SwarmSecurity,
    local_node: NodeId,
    session_id: u32,
    f: SwarmFrame,
) -> Result<(), SwarmError> {
    if f.dst_node != local_node {
        Err(SwarmError::BadNode)
    } else if spec_role_for_node(role_nodes, role_count, f.src_node) is None {
        Err(SwarmError::BadNode)
    } else if f.session_id != session_id || f.session_generation != session_generation {
        Err(SwarmError::BadGeneration)
    } else {
        spec_frame_verify(f, security)
    }
}

/// The radio transport of one node: which node serves each role, the session generation and
/// security, the next sequence number, and the count of dropped frames.
pub struct QemuCyw43439Transport {
    role_nodes: [NodeId; 6],
    role_count: u8,
    session_generation: u16,
    security: SwarmSecurity,
    next_seq: u32,
    drop_telemetry: SwarmDropTelemetry,
}

impl QemuCyw43439Transport {
    pub closed spec fn spec_role_nodes(&self) -> Seq<NodeId> {
        self.role_nodes@
    }

    pub closed spec fn spec_role_count(&self) -> u8 {
        self.role_count
    }

    pub closed spec fn spec_session_generation(&self) -> u16 {
        self.session_generation
    }

    pub closed spec fn spec_security(&self) -> SwarmSecurity {
        self.security
    }

    pub closed spec fn spec_next_seq(&self) -> u32 {
        self.next_seq
    }

    pub closed spec fn telemetry(&self) -> SwarmDropTelemetry {
        self.drop_telemetry
    }

    pub open spec fn same_config(&self, other: &Self) -> bool {
        &&& self.spec_role_nodes() == other.spec_role_nodes()
        &&& self.spec_role_count() == other.spec_role_count()
        &&& self.spec_session_generation() == other.spec_session_generation()
        &&& self.spec_security() == other.spec_security()
    }

    /// A transport between two roles: `role0_node` and `role1_node`.
    pub fn new(role0_node: NodeId, role1_node: NodeId, session_generation: u16, security: SwarmSecurity) -> (out: Self)
        ensures
            out.spec_role_nodes() == seq![role0_node, role1_node, NodeId(0), NodeId(0), NodeId(0), NodeId(0)],
            out.spec_role_count() == 2,
            out.spec_session_generation() == session_generation,
            out.spec_security() == security,
            out.spec_next_seq() == 1,
            out.telemetry() == SwarmDropTelemetry::zero(),
    {
        let role_nodes = [role0_node, role1_node, NodeId::new(0), NodeId::new(0), NodeId::new(0), NodeId::new(0)];
        let out = Self::new_role_map(role_nodes, 2, session_generation, security);
        assert(out.spec_role_nodes() =~= seq![role0_node, role1_node, NodeId(0), NodeId(0), NodeId(0), NodeId(0)]);
        out
    }

    pub fn new_role_map(role_nodes: [NodeId; 6], role_count: u8, session_generation: u16, security: SwarmSecurity) -> (out: Self)
        ensures
            out.spec_role_nodes() == role_nodes@,
            out.spec_role_count() == role_count,
            out.spec_session_generation() == session_generation,
            out.spec_security() == security,
            out.spec_next_seq() == 1,
            out.telemetry() == SwarmDropTelemetry::zero(),
    {
        QemuCyw43439Transport {
            role_nodes,
            role_count,
            session_generation,
            security,
            next_seq: 1,
            drop_telemetry: SwarmDropTelemetry::new(),
        }
    }

    pub fn drop_telemetry(&self) -> (out: SwarmDropTelemetry)
        ensures
            out == self.telemetry(),
    {
        self.drop_telemetry
    }

    fn record_drop(&mut self, error: SwarmError)
        ensures
            final(self).same_config(old(self)),
            final(self).spec_next_seq() == old(self).spec_next_seq(),
            final(self).telemetry() == old(self).telemetry().recorded(error),
    {
        self.drop_telemetry.record(error);
    }

    pub fn node_for_role(&self, role: u8) -> (out: Result<NodeId, Cyw43439Error>)
        ensures
            out == (match spec_node_for_role(self.spec_role_nodes(), self.spec_role_count(), role) {
                Ok(n) => Ok::<NodeId, Cyw43439Error>(n),
                Err(e) => Err::<NodeId, Cyw43439Error>(Cyw43439Error::Swarm(e)),
            }),
    {
        let index = role as usize;
        if role >= self.role_count || index >= 6 {
            return Err(Cyw43439Error::Swarm(SwarmError::BadRole));
        }
        let node = self.role_nodes[index];
        if node.raw() == 0 {
            return Err(Cyw43439Error::Swarm(SwarmError::BadNode));
        }
        Ok(node)
    }

    /// The node a session opened for `role` uses: the role's node, or role 0's when the role
    /// has none.
    pub fn node_for_open(&self, role: u8) -> (out: NodeId)
        ensures
            out == (match spec_node_for_role(self.spec_role_nodes(), self.spec_role_count(), role) {
                Ok(n) => n,
                Err(_) => self.spec_role_nodes()[0],
            }),
    {
        match self.node_for_role(role) {
            Ok(node) => node,
            Err(_) => self.role_nodes[0],
        }
    }

    pub fn role_for_node(&self, node: NodeId) -> (out: Result<u8, Cyw43439Error>)
        ensures
            out == (match spec_role_for_node(self.spec_role_nodes(), self.spec_role_count(), node) {
                Some(r) => Ok::<u8, Cyw43439Error>(r),
                None => Err::<u8, Cyw43439Error>(Cyw43439Error::Swarm(SwarmError::BadNode)),
            }),
    {
        let ghost n = if self.role_count < 6 {
            self.role_count as int
        } else {
            6int
        };
        let ghost s = self.role_nodes@.take(n);
        let mut role: usize = 0;
        while role < self.role_count as usize && role < 6
            invariant
                n == (if self.role_count < 6 { self.role_count as int } else { 6int }),
                s == self.role_nodes@.take(n),
                role <= n,
                forall|j: int| 0 <= j < role ==> !(#[trigger] node_is(node)(s[j])),
            decreases 6 - role,
        {
            if self.role_nodes[role] == node {
                proof {
                    lemma_first_index_at(s, node_is(node), role as int);
                }
                return Ok(role as u8);
            }
            role = role + 1;
        }
        proof {
            lemma_first_index(s, node_is(node));
        }
        Err(Cyw43439Error::Swarm(SwarmError::BadNode))
    }

    /// Hands out the next sequence number; numbers wrap past the top and skip 0.
    pub fn alloc_seq(&mut self) -> (out: u32)
        ensures
            out == old(self).spec_next_seq(),
            final(self).spec_next_seq() == spec_next_seq(old(self).spec_next_seq()),
            final(self).same_config(old(self)),
            final(self).telemetry() == old(self).telemetry(),
    {
        let current = self.next_seq;
        let next = if current == u32::MAX {
            1
        } else {
            current + 1
        };
        self.next_seq = next;
        current
    }

    /// Opens a session for `local_role`.
    pub fn open(&self, local_role: u8, session_id: u32) -> (out: (CywTx, CywRx))
        ensures
            out.0.session_id == session_id,
            out.0.local_node == out.1.spec_local_node(),
            out.1.wf(),
            out.1.spec_local_role() == local_role,
            out.1.spec_session_id() == session_id,
            out.1.spec_local_node() == (match spec_node_for_role(self.spec_role_nodes(), self.spec_role_count(), local_role) {
                Ok(n) => n,
                Err(_) => self.spec_role_nodes()[0],
            }),
            out.1.spec_current() is None,
            out.1.spec_requeued() is None,
            out.1.spec_replay() == Seq::new(QEMU_CYW43439_MAX_ROLES as nat, |i: int| None::<(NodeId, u32)>),
            out.1.spec_last_replay_slot() is None,
            out.1.spec_previous_replay_entry() is None,
    {
        let local_node = self.node_for_open(local_role);
        let mut replay: Vec<Option<(NodeId, u32)>> = Vec::new();
        let mut i: usize = 0;
        while i < QEMU_CYW43439_MAX_ROLES
            invariant
                i <= QEMU_CYW43439_MAX_ROLES,
                replay@ == Seq::new(i as nat, |k: int| None::<(NodeId, u32)>),
            decreases QEMU_CYW43439_MAX_ROLES - i,
        {
            replay.push(None);
            i = i + 1;
            assert(replay@ =~= Seq::new(i as nat, |k: int| None::<(NodeId, u32)>));
        }
        (
            CywTx { session_id, local_node },
            CywRx {
                local_role,
                session_id,
                local_node,
                current: None,
                requeued: None,
                replay,
                last_replay_slot: None,
                previous_replay_entry: None,
            },
        )
    }

    /// Checks a received frame (see `spec_validate_received`) and counts a refusal as a drop.
    pub fn validate_received_frame(&mut self, rx: &CywRx, frame: &SwarmFrame) -> (out: Result<(), Cyw43439Error>)
        ensures
            final(self).same_config(old(self)),
            final(self).spec_next_seq() == old(self).spec_next_seq(),
            ({
                let r = spec_validate_received(old(self).spec_role_nodes(), old(self).spec_role_count(),
                    old(self).spec_session_generation(), old(self).spec_security(), rx.spec_local_node(),
                    rx.spec_session_id(), *frame);
                &&& out == (match r {
                    Ok(_) => Ok::<(), Cyw43439Error>(()),
                    Err(e) => Err::<(), Cyw43439Error>(Cyw43439Error::Swarm(e)),
                })
                &&& final(self).telemetry() == (match r {
                    Ok(_) => old(self).telemetry(),
                    Err(e) => old(self).telemetry().recorded(e),
                })
            }),
    {
        if frame.dst_node() != rx.local_node {
            self.record_drop(SwarmError::BadNode);
            return Err(Cyw43439Error::Swarm(SwarmError::BadNode));
        }
        match self.role_for_node(frame.src_node()) {
            Ok(_) => {},
            Err(error) => {
                self.record_drop(SwarmError::BadNode);
                return Err(error);
            },
        }
        if frame.session_id() != rx.session_id || frame.session_generation() != self.session_generation {
            self.record_drop(SwarmError::BadGeneration);
            return Err(Cyw43439Error::Swarm(SwarmError::BadGeneration));
        }
        match frame.verify(self.security) {
            Ok(()) => Ok(()),
            Err(error) => {
                self.record_drop(error);
                Err(Cyw43439Error::Swarm(error))
            },
        }
    }

    /// Takes in a received frame: checks it, records its source and sequence number against
    /// replay, and hands it out as the current frame; answers where it came from.
    pub fn accept_frame(&mut self, rx: &mut CywRx, frame: SwarmFrame) -> (out: Result<QemuCyw43439RxMeta, Cyw43439Error>)
        requires
            old(rx).wf(),
        ensures
            final(rx).wf(),
            final(self).same_config(old(self)),
            final(self).spec_next_seq() == old(self).spec_next_seq(),
            final(rx).spec_local_role() == old(rx).spec_local_role(),
            final(rx).spec_session_id() == old(rx).spec_session_id(),
            final(rx).spec_local_node() == old(rx).spec_local_node(),
            final(rx).spec_requeued() == old(rx).spec_requeued(),
            ({
                let v = spec_validate_received(old(self).spec_role_nodes(), old(self).spec_role_count(),
                    old(self).spec_session_generation(), old(self).spec_security(), old(rx).spec_local_node(),
                    old(rx).spec_session_id(), frame);
                match v {
                    Err(e) => out == Err::<QemuCyw43439RxMeta, Cyw43439Error>(Cyw43439Error::Swarm(e))
                        && final(self).telemetry() == old(self).telemetry().recorded(e)
                        && final(rx).spec_current() == old(rx).spec_current()
                        && final(rx).spec_replay() == old(rx).spec_replay(),
                    Ok(_) => match spec_accept_transport_replay(old(rx).spec_replay(), frame.src_node, frame.seq) {
                        Err(e) => out == Err::<QemuCyw43439RxMeta, Cyw43439Error>(Cyw43439Error::Swarm(e))
                            && final(self).telemetry() == old(self).telemetry().recorded(e)
                            && final(rx).spec_current() == old(rx).spec_current()
                            && final(rx).spec_replay() == old(rx).spec_replay(),
                        Ok(r) => out == Ok::<QemuCyw43439RxMeta, Cyw43439Error>(
                            QemuCyw43439RxMeta { src_node: frame.src_node, dst_node: frame.dst_node, lane: frame.lane },
                        ) && final(self).telemetry() == old(self).telemetry()
                            && final(rx).spec_current() == Some(frame)
                            && final(rx).spec_replay() == r.2
                            && final(rx).spec_last_replay_slot() == Some(r.0 as usize)
                            && final(rx).spec_previous_replay_entry() == r.1,
                    },
                }
            }),
    {
        self.validate_received_frame(rx, &frame)?;
        let (slot, previous) = match accept_transport_replay(&mut rx.replay, frame.src_node(), frame.seq()) {
            Ok(accepted) => accepted,
            Err(error) => {
                self.record_drop(error);
                return Err(Cyw43439Error::Swarm(error));
            },
        };
        rx.last_replay_slot = Some(slot);
        rx.previous_replay_entry = previous;
        let meta = QemuCyw43439RxMeta::new(frame.src_node(), frame.dst_node(), frame.lane());
        rx.current = Some(frame);
        Ok(meta)
    }

    /// Builds the wire bytes of a frame carrying `payload` to the node of `peer_role`, with the
    /// next sequence number; answers the node and the bytes. A role without a node uses no
    /// sequence number; a payload that is too long uses one up.
    pub fn prepare_send(&mut self, tx: &CywTx, peer_role: u8, lane: u8, label: u8, payload: &[u8]) -> (out: Result<(NodeId, Vec<u8>), Cyw43439Error>)
        ensures
            final(self).same_config(old(self)),
            final(self).telemetry() == old(self).telemetry(),
            match spec_node_for_role(old(self).spec_role_nodes(), old(self).spec_role_count(), peer_role) {
                Err(e) => out == Err::<(NodeId, Vec<u8>), Cyw43439Error>(Cyw43439Error::Swarm(e))
                    && final(self).spec_next_seq() == old(self).spec_next_seq(),
                Ok(peer) => final(self).spec_next_seq() == spec_next_seq(old(self).spec_next_seq())
                    && (payload@.len() > SWARM_FRAME_PAYLOAD_CAPACITY ==> out == Err::<(NodeId, Vec<u8>), Cyw43439Error>(
                        Cyw43439Error::Swarm(SwarmError::PayloadTooLarge),
                    ))
                    && (payload@.len() <= SWARM_FRAME_PAYLOAD_CAPACITY ==> out is Ok && out->Ok_0.0 == peer
                        && exists|f: SwarmFrame| {
                            &&& out->Ok_0.1@ == frame_wire(f)
                            &&& f.src_node == tx.local_node && f.dst_node == peer
                            &&& f.session_id == tx.session_id
                            &&& f.session_generation == old(self).spec_session_generation()
                            &&& f.lane == lane && f.label_hint == label && f.seq == old(self).spec_next_seq()
                            &&& f.ack == 0 && f.payload@ == payload@
                            &&& spec_frame_verify(f, old(self).spec_security()) is Ok
                        }),
            },
    {
        let peer_node = self.node_for_role(peer_role)?;
        let seq = self.alloc_seq();
        let frame = match SwarmFrame::new(tx.local_node, peer_node, tx.session_id, self.session_generation, lane, label,
            seq, 0, payload, self.security) {
            Ok(frame) => frame,
            Err(error) => return Err(Cyw43439Error::Swarm(error)),
        };
        let wire = frame.wire_bytes();
        Ok((peer_node, wire))
    }
}

} // verus!
