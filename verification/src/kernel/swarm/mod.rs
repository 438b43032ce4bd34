//! The swarm: authenticated frames between nodes, fragments and their reassembly,
//! replay windows, a neighbor table, a host medium that carries frames, and provisioning records.
mod frame;
mod fragment;
mod medium;
mod neighbor;
pub use frame::{
    SWARM_FRAME_VERSION, SWARM_FRAME_PAYLOAD_CAPACITY, SWARM_AUTH_TAG_LEN, SWARM_FRAME_HEADER_LEN,
    SWARM_FRAME_MAX_WIRE_LEN, SwarmError, SwarmDropTelemetry, NodeId, SwarmCredential, SwarmSecurity,
    SwarmFrame, rotl5, rotl3, payload_fold, spec_frame_auth_tag, spec_frame_verify, frame_header, frame_wire,
    frame_from_wire, same_frame, lemma_frame_round_trip, lemma_secure_frame_verifies, swarm_telemetry_after,
};
pub use fragment::{
    SWARM_FRAGMENT_HEADER_LEN, SWARM_FRAGMENT_CHUNK_CAPACITY, SwarmFragment, spec_fragment_count,
    spec_fragment_new, fragment_wire, SwarmReassemblyBuffer, ReassemblyModel, spec_reassembly_push,
    lemma_fragment_round_trip,
};
pub use medium::{
    ReplayWindow, spec_replay_accept, lemma_replay_accepts_strictly_increasing, HostSwarmMedium, HostSwarmTx,
    HostSwarmRx, HostSwarmTransport, HostSwarmRoleTransport, HOST_SWARM_REPLAY_SOURCES, frame_for, accept_transport_replay,
    spec_accept_transport_replay, spec_next_seq, spec_receive,
};
pub use neighbor::{
    NeighborEntry, NeighborTable, spec_neighbor_add, spec_node_for_role, spec_neighbor_validate,
    spec_neighbor_revoke, spec_neighbor_revoke_generation, lemma_revoked_neighbor_is_refused,
    BleProvisioningBundle, ProvisioningRecord,
};
