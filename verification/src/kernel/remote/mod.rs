//! Remote objects: authenticated grants that materialize fds reading a sensor or driving an
//! actuator on another node, their resolution and revocation, and the payloads they carry.
mod object;
mod payload;
mod table;
pub use object::{
    RemoteError, RemoteRejectionTelemetry, remote_telemetry_after, RemoteRights, RemoteResource, RemoteObject,
    RemoteRoute, RemoteGrant, RemoteControl, spec_remote_tag, spec_remote_grant_verify,
    lemma_remote_grant_verifies_for_what_it_names,
};
pub use payload::{
    RemoteSampleRequest, RemoteSample, RemoteActuateRequest, RemoteActuateAck, remote_sample_request_wire,
    remote_sample_wire, remote_actuate_request_wire, remote_actuate_ack_wire, lemma_remote_sample_request_round_trip,
    lemma_remote_sample_round_trip, lemma_remote_actuate_request_round_trip, lemma_remote_actuate_ack_round_trip,
};
pub use table::{
    RemoteObjectTable, RemoteFdReadRoute, RemoteFdWriteRoute, RemoteTableModel, spec_validate_route,
    spec_resolve_remote, spec_resolve_routed, sensor_read, writable, read_route_of, write_route_of, spec_materialize,
    spec_revoke_fd_entry, spec_revoke_matching, spec_apply_remote_control, live_object, stale_live_object,
    lemma_revoked_fd_does_not_resolve, lemma_quiesce_leaves_nothing_active,
};
