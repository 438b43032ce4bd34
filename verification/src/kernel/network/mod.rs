//! Network objects: authenticated grants that materialize datagram and stream fds bound to a
//! route and session, their resolution and revocation, and the payloads they carry.
mod object;
mod payload;
mod table;
pub use object::{
    NET_DATAGRAM_PAYLOAD_CAPACITY, NET_STREAM_PAYLOAD_CAPACITY, NET_STREAM_FLAG_FIN, NetworkError,
    NetworkObjectRejectionTelemetry, network_telemetry_after, NetworkRights, NetworkRoleProtocol, NetworkObject,
    NetworkRoute, NetworkGrant, NetworkControl, spec_network_tag, spec_network_grant_verify,
    lemma_network_grant_verifies_for_what_it_names,
};
pub use payload::{
    bool_byte, flags_known, DatagramSend, DatagramAck, DatagramRecv, DatagramRecvRet, StreamWrite, StreamAck, StreamRead,
    StreamReadRet, datagram_send_wire, datagram_ack_wire, datagram_recv_wire, datagram_recv_ret_wire,
    stream_write_wire, stream_ack_wire, stream_read_wire, stream_read_ret_wire, lemma_datagram_send_round_trip,
    lemma_datagram_ack_round_trip, lemma_datagram_recv_round_trip, lemma_datagram_recv_ret_round_trip,
    lemma_stream_write_round_trip, lemma_stream_ack_round_trip, lemma_stream_read_round_trip,
    lemma_stream_read_ret_round_trip,
};
pub use table::{
    NetworkObjectTable, NetworkObjectWriteRoute, NetworkObjectReadRoute, NetworkTableModel, spec_resolve_network,
    spec_validate_route, spec_resolve_route, spec_materialize, spec_revoke_fd_entry, spec_revoke_matching,
    spec_apply_network_control, live_object, stale_live_object, lemma_revoked_fd_does_not_resolve,
    lemma_quiesce_leaves_nothing_active,
};
