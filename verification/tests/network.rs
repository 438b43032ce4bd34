use hibana_pico::choreography::protocol::{
    LABEL_NET_DATAGRAM_RECV, LABEL_NET_DATAGRAM_SEND, LABEL_NET_STREAM_WRITE,
};
use hibana_pico::kernel::network::{
    DatagramAck, NET_STREAM_FLAG_FIN, NET_STREAM_PAYLOAD_CAPACITY, NetworkControl, NetworkError, NetworkGrant,
    NetworkObjectReadRoute, NetworkObjectTable, NetworkObjectWriteRoute, NetworkRights, NetworkRoleProtocol,
    NetworkRoute, StreamAck, StreamRead, StreamReadRet, StreamWrite,
};
use hibana_pico::kernel::policy::PolicySlotTable;
use hibana_pico::kernel::swarm::{NodeId, SwarmCredential};

fn coordinator() -> NodeId {
    NodeId::new(1)
}

fn sensor() -> NodeId {
    NodeId::new(2)
}

fn gateway() -> NodeId {
    NodeId::new(4)
}

const SESSION_GENERATION: u16 = 7;

fn swarm_credential() -> SwarmCredential {
    SwarmCredential::new(0x4849_4241)
}

#[test]
fn stream_payloads_round_trip_and_reject_unknown_flags() {
    let write =
        StreamWrite::new(3, 11, 114, 7, NET_STREAM_FLAG_FIN, b"stream").expect("stream write");
    let mut wire = [0u8; 64];
    let len = write.encode_into(&mut wire).expect("encode stream write");
    assert_eq!(
        StreamWrite::decode_payload(&wire[..len]).expect("decode stream write"),
        write
    );

    let ack = StreamAck::new(3, 11, 7, true);
    let len = ack.encode_into(&mut wire).expect("encode stream ack");
    assert_eq!(
        StreamAck::decode_payload(&wire[..len]).expect("decode stream ack"),
        ack
    );

    let read = StreamRead::new(3, 11, 8, NET_STREAM_PAYLOAD_CAPACITY as u8);
    let len = read.encode_into(&mut wire).expect("encode stream read");
    assert_eq!(
        StreamRead::decode_payload(&wire[..len]).expect("decode stream read"),
        read
    );

    let ret =
        StreamReadRet::new(3, 11, 8, NET_STREAM_FLAG_FIN, b"pipe").expect("stream read ret");
    let len = ret.encode_into(&mut wire).expect("encode stream read ret");
    assert_eq!(
        StreamReadRet::decode_payload(&wire[..len])
            .expect("decode stream read ret"),
        ret
    );

    assert_eq!(
        StreamWrite::new(3, 11, 114, 7, 0b1000_0000, b"bad"),
        Err(NetworkError::BadFlags)
    );
    assert_eq!(
        StreamReadRet::new(3, 11, 8, 0b1000_0000, b"bad"),
        Err(NetworkError::BadFlags)
    );
}

#[test]
fn network_acks_are_bound_to_materialized_fd_generation_and_sequence() {
    let datagram_ack = DatagramAck::new(3, 11, true);
    assert_eq!(datagram_ack.fd(), 3);
    assert_eq!(datagram_ack.generation(), 11);
    assert!(datagram_ack.accepted_for(3, 11));
    assert!(!datagram_ack.accepted_for(4, 11));
    assert!(!datagram_ack.accepted_for(3, 12));
    assert!(!DatagramAck::new(3, 11, false).accepted_for(3, 11));

    let stream_ack = StreamAck::new(5, 13, 8, true);
    assert_eq!(stream_ack.fd(), 5);
    assert_eq!(stream_ack.generation(), 13);
    assert!(stream_ack.accepted_for(5, 13, 8));
    assert!(!stream_ack.accepted_for(6, 13, 8));
    assert!(!stream_ack.accepted_for(5, 14, 8));
    assert!(!stream_ack.accepted_for(5, 13, 9));
    assert!(!StreamAck::new(5, 13, 8, false).accepted_for(5, 13, 8));
}

#[test]
fn inbound_routes_are_authorized_by_route_not_peer_fd_generation() {
    let mut fds: NetworkObjectTable<3> = NetworkObjectTable::new();
    let _dummy = fds
        .apply_cap_grant_datagram(
            gateway(),
            swarm_credential(),
            SESSION_GENERATION,
            coordinator(),
            21,
            LABEL_NET_DATAGRAM_RECV,
            NetworkRights::Receive,
        )
        .expect("pre-seed table");
    let datagram = fds
        .apply_cap_grant_datagram(
            gateway(),
            swarm_credential(),
            SESSION_GENERATION,
            coordinator(),
            22,
            LABEL_NET_DATAGRAM_SEND,
            NetworkRights::Receive,
        )
        .expect("install datagram receive route");
    let stream = fds
        .apply_cap_grant_stream(
            gateway(),
            swarm_credential(),
            SESSION_GENERATION,
            coordinator(),
            23,
            LABEL_NET_STREAM_WRITE,
            NetworkRights::Receive,
        )
        .expect("install stream receive route");

    assert_ne!(datagram.fd(), 0);
    assert_ne!(datagram.generation(), 1);
    assert_eq!(
        fds.route_receive_routed(NetworkRoute::new(
            coordinator(),
            22,
            LABEL_NET_DATAGRAM_SEND,
            SESSION_GENERATION,
        )),
        NetworkObjectReadRoute::Datagram(datagram)
    );
    assert_eq!(
        fds.route_receive_routed(NetworkRoute::new(
            coordinator(),
            23,
            LABEL_NET_STREAM_WRITE,
            SESSION_GENERATION,
        )),
        NetworkObjectReadRoute::Stream(stream)
    );
    assert_eq!(
        fds.route_receive_routed(NetworkRoute::new(
            coordinator(),
            22,
            LABEL_NET_STREAM_WRITE,
            SESSION_GENERATION,
        )),
        NetworkObjectReadRoute::Rejected(NetworkError::BadRoute)
    );
}

#[test]
fn network_object_table_revoke_and_quiesce_fail_closed() {
    let mut fds: NetworkObjectTable<4> = NetworkObjectTable::new();
    let datagram = fds
        .apply_cap_grant_datagram_with_policy(
            coordinator(),
            swarm_credential(),
            SESSION_GENERATION,
            sensor(),
            22,
            LABEL_NET_DATAGRAM_SEND,
            3,
            NetworkRights::SendReceive,
        )
        .expect("install authenticated datagram fd");
    assert_eq!(datagram.policy_slot(), 3);
    let stream = fds
        .apply_cap_grant_stream(
            coordinator(),
            swarm_credential(),
            SESSION_GENERATION,
            gateway(),
            23,
            LABEL_NET_STREAM_WRITE,
            NetworkRights::SendReceive,
        )
        .expect("install authenticated stream fd");
    assert!(fds.has_active());
    assert_eq!(
        fds.route_fd_write(datagram.fd(), datagram.generation(), SESSION_GENERATION),
        NetworkObjectWriteRoute::Datagram(datagram)
    );
    assert_eq!(
        fds.route_fd_write_routed(datagram.fd(), datagram.generation(), datagram.route_key()),
        NetworkObjectWriteRoute::Datagram(datagram)
    );
    assert_eq!(
        fds.route_fd_write_routed(
            datagram.fd(),
            datagram.generation(),
            NetworkRoute::new(
                sensor(),
                22,
                LABEL_NET_DATAGRAM_SEND,
                SESSION_GENERATION.wrapping_add(1),
            )
        ),
        NetworkObjectWriteRoute::Rejected(NetworkError::BadSessionGeneration)
    );
    assert_eq!(
        fds.route_fd_write_routed(
            datagram.fd(),
            datagram.generation(),
            NetworkRoute::new(sensor(), 23, LABEL_NET_DATAGRAM_SEND, SESSION_GENERATION)
        ),
        NetworkObjectWriteRoute::Rejected(NetworkError::BadRoute)
    );
    assert_eq!(
        fds.route_fd_write_routed(
            datagram.fd(),
            datagram.generation(),
            NetworkRoute::with_policy(
                sensor(),
                22,
                LABEL_NET_DATAGRAM_SEND,
                SESSION_GENERATION,
                datagram.policy_slot().wrapping_add(1),
            )
        ),
        NetworkObjectWriteRoute::Rejected(NetworkError::BadRoute)
    );

    fds.revoke_fd(datagram.fd()).expect("revoke datagram fd");
    assert_eq!(
        fds.route_fd_write(datagram.fd(), datagram.generation(), SESSION_GENERATION),
        NetworkObjectWriteRoute::Rejected(NetworkError::Revoked)
    );
    assert!(fds.has_active());

    assert_eq!(
        fds.revoke_node_generation(gateway(), SESSION_GENERATION.wrapping_add(1)),
        Err(NetworkError::BadSessionGeneration)
    );
    assert_eq!(
        fds.route_fd_read(stream.fd(), stream.generation(), SESSION_GENERATION),
        NetworkObjectReadRoute::Stream(stream)
    );
    assert_eq!(
        fds.revoke_node_generation(gateway(), SESSION_GENERATION),
        Ok(1)
    );
    assert_eq!(
        fds.route_fd_read(stream.fd(), stream.generation(), SESSION_GENERATION),
        NetworkObjectReadRoute::Rejected(NetworkError::Revoked)
    );
    assert!(!fds.has_active());

    let reopened = fds
        .apply_cap_grant_datagram(
            coordinator(),
            swarm_credential(),
            SESSION_GENERATION,
            sensor(),
            22,
            LABEL_NET_DATAGRAM_RECV,
            NetworkRights::Receive,
        )
        .expect("install authenticated reopened datagram fd");
    assert!(fds.has_active());
    assert_eq!(fds.quiesce_all(), 1);
    assert!(!fds.has_active());
    assert_eq!(
        fds.route_fd_read(reopened.fd(), reopened.generation(), SESSION_GENERATION),
        NetworkObjectReadRoute::Rejected(NetworkError::Revoked)
    );
}

#[test]
fn authenticated_network_object_control_rejects_forged_or_stale_grants() {
    let grant = NetworkGrant::new(
        coordinator(),
        swarm_credential(),
        sensor(),
        22,
        LABEL_NET_DATAGRAM_SEND,
        SESSION_GENERATION,
        3,
        NetworkRights::SendReceive,
        NetworkRoleProtocol::Datagram,
    );
    let mut fds: NetworkObjectTable<4> = NetworkObjectTable::new();

    assert_eq!(
        fds.apply_control(
            NetworkControl::cap_grant_datagram_with_policy(
                coordinator(),
                swarm_credential(),
                SESSION_GENERATION.wrapping_sub(1),
                sensor(),
                22,
                LABEL_NET_DATAGRAM_SEND,
                3,
                NetworkRights::SendReceive,
            ),
            coordinator(),
            swarm_credential(),
            SESSION_GENERATION,
        ),
        Err(NetworkError::BadSessionGeneration)
    );

    assert_eq!(
        fds.apply_control(
            NetworkControl::cap_grant_datagram_with_policy(
                coordinator(),
                SwarmCredential::new(0x5752_4f4e),
                SESSION_GENERATION,
                sensor(),
                22,
                LABEL_NET_DATAGRAM_SEND,
                3,
                NetworkRights::SendReceive,
            ),
            coordinator(),
            swarm_credential(),
            SESSION_GENERATION,
        ),
        Err(NetworkError::AuthFailed)
    );

    assert_eq!(
        fds.apply_control(
            NetworkControl::cap_grant_datagram_with_policy(
                gateway(),
                swarm_credential(),
                SESSION_GENERATION,
                sensor(),
                22,
                LABEL_NET_DATAGRAM_SEND,
                3,
                NetworkRights::SendReceive,
            ),
            coordinator(),
            swarm_credential(),
            SESSION_GENERATION,
        ),
        Err(NetworkError::AuthFailed)
    );

    let mut forged = grant;
    forged.lane ^= 0x01;
    assert_eq!(
        fds.apply_control(
            NetworkControl::CapGrant(forged),
            coordinator(),
            swarm_credential(),
            SESSION_GENERATION,
        ),
        Err(NetworkError::AuthFailed)
    );

    let fd = fds
        .apply_control(
            NetworkControl::CapGrant(grant),
            coordinator(),
            swarm_credential(),
            SESSION_GENERATION,
        )
        .expect("authorized network object grant installs");
    assert_eq!(fd.target_node(), sensor());
    assert_eq!(fd.policy_slot(), 3);
    let mut policy = PolicySlotTable::<4>::new();
    policy.allow(3).expect("allow network policy slot");
    assert_eq!(
        fds.route_fd_write_authorized(fd.fd(), fd.generation(), fd.route_key(), &policy),
        NetworkObjectWriteRoute::Datagram(fd)
    );

    let telemetry = fds.rejection_telemetry();
    assert_eq!(telemetry.auth_failed(), 3);
    assert_eq!(telemetry.bad_generation(), 1);
    assert_eq!(telemetry.total(), 4);
}
