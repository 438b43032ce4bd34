use hibana_pico::choreography::protocol::{LABEL_REMOTE_ACTUATE_REQ, LABEL_REMOTE_SAMPLE_REQ};
use hibana_pico::kernel::policy::PolicySlotTable;
use hibana_pico::kernel::remote::{
    RemoteActuateAck, RemoteActuateRequest, RemoteControl, RemoteError, RemoteFdReadRoute, RemoteFdWriteRoute,
    RemoteGrant, RemoteObjectTable, RemoteResource, RemoteRights, RemoteRoute, RemoteSample, RemoteSampleRequest,
};
use hibana_pico::kernel::swarm::{NodeId, SwarmCredential};

#[test]
fn authenticated_remote_object_control_rejects_forged_or_stale_grants() {
    let node = NodeId::new(1);
    let target = NodeId::new(2);
    let credential = SwarmCredential::new(0x4849_4241);
    let grant = RemoteGrant::new(
        node,
        credential,
        RemoteRoute::with_policy(target, 0x02, 17, LABEL_REMOTE_SAMPLE_REQ, 7, 3),
        RemoteRights::Read,
        RemoteResource::Sensor,
    );

    let mut table: RemoteObjectTable<4> = RemoteObjectTable::new();
    assert_eq!(
        table.apply_control(
            RemoteControl::cap_grant_remote(
                node,
                credential,
                RemoteRoute::with_policy(target, 0x02, 17, LABEL_REMOTE_SAMPLE_REQ, 6, 3),
                RemoteRights::Read,
                RemoteResource::Sensor,
            ),
            node,
            credential,
            7,
        ),
        Err(RemoteError::BadSessionGeneration)
    );

    assert_eq!(
        table.apply_control(
            RemoteControl::cap_grant_remote(
                node,
                SwarmCredential::new(0x5752_4f4e),
                RemoteRoute::with_policy(target, 0x02, 17, LABEL_REMOTE_SAMPLE_REQ, 7, 3),
                RemoteRights::Read,
                RemoteResource::Sensor,
            ),
            node,
            credential,
            7,
        ),
        Err(RemoteError::AuthFailed)
    );

    assert_eq!(
        table.apply_control(
            RemoteControl::cap_grant_remote(
                NodeId::new(9),
                credential,
                RemoteRoute::with_policy(target, 0x02, 17, LABEL_REMOTE_SAMPLE_REQ, 7, 3),
                RemoteRights::Read,
                RemoteResource::Sensor,
            ),
            node,
            credential,
            7,
        ),
        Err(RemoteError::AuthFailed)
    );

    let mut forged = grant;
    forged.target_role ^= 0x01;
    assert_eq!(
        table.apply_control(RemoteControl::CapGrant(forged), node, credential, 7),
        Err(RemoteError::AuthFailed)
    );

    let cap = table
        .apply_control(RemoteControl::CapGrant(grant), node, credential, 7)
        .expect("authorized remote fd grant installs");
    assert_eq!(cap.target_node(), target);
    assert_eq!(cap.policy_slot(), 3);
    let mut policy = PolicySlotTable::<4>::new();
    policy.allow(3).expect("allow authenticated remote fd");
    assert_eq!(
        table.route_fd_read_authorized(cap.fd(), cap.generation(), cap.route_key(), &policy),
        RemoteFdReadRoute::RemoteSensor(cap)
    );

    let telemetry = table.rejection_telemetry();
    assert_eq!(telemetry.auth_failed(), 3);
    assert_eq!(telemetry.bad_generation(), 1);
    assert_eq!(telemetry.total(), 4);
}

#[test]
fn remote_reads_need_a_sensor_and_writes_refuse_one() {
    let node = NodeId::new(1);
    let target = NodeId::new(2);
    let credential = SwarmCredential::new(0x4849_4241);
    let mut table: RemoteObjectTable<4> = RemoteObjectTable::new();
    let sensor = table
        .apply_cap_grant(node, credential, RemoteRoute::new(target, 2, 17, LABEL_REMOTE_SAMPLE_REQ, 7), RemoteRights::ReadWrite, RemoteResource::Sensor)
        .expect("sensor fd");
    let actuator = table
        .apply_control(
            RemoteControl::cap_grant_remote(
                node,
                credential,
                RemoteRoute::new(target, 2, 18, LABEL_REMOTE_ACTUATE_REQ, 7),
                RemoteRights::ReadWrite,
                RemoteResource::Actuator,
            ),
            node,
            credential,
            7,
        )
        .expect("actuator fd");
    assert_eq!(table.route_fd_read(sensor.fd(), sensor.generation(), 7), RemoteFdReadRoute::RemoteSensor(sensor));
    assert_eq!(
        table.route_fd_write(sensor.fd(), sensor.generation(), 7),
        RemoteFdWriteRoute::Rejected(RemoteError::WrongResource)
    );
    assert_eq!(
        table.route_fd_write(actuator.fd(), actuator.generation(), 7),
        RemoteFdWriteRoute::RemoteActuator(actuator)
    );
    assert_eq!(
        table.route_fd_read(actuator.fd(), actuator.generation(), 7),
        RemoteFdReadRoute::Rejected(RemoteError::WrongResource)
    );
    assert_eq!(
        table.route_fd_read(sensor.fd(), sensor.generation().wrapping_add(1), 7),
        RemoteFdReadRoute::Rejected(RemoteError::BadGeneration)
    );
    assert_eq!(table.revoke_node(target), 2);
    assert!(!table.has_active());
    assert_eq!(table.route_fd_read(sensor.fd(), sensor.generation(), 7), RemoteFdReadRoute::Rejected(RemoteError::Revoked));
}

#[test]
fn remote_payloads_round_trip() {
    let mut wire = [0u8; 64];
    let request = RemoteSampleRequest::new(3, 11, 5);
    let len = request.encode_into(&mut wire).expect("encode sample request");
    assert_eq!(RemoteSampleRequest::decode_payload(&wire[..len]).expect("decode"), request);

    let sample = RemoteSample::new(5, 0, 0x0000_a5a5, 99);
    let len = sample.encode_into(&mut wire).expect("encode sample");
    assert_eq!(RemoteSample::decode_payload(&wire[..len]).expect("decode"), sample);

    let actuate = RemoteActuateRequest::new(3, 11, 2, 1);
    let len = actuate.encode_into(&mut wire).expect("encode actuate");
    assert_eq!(RemoteActuateRequest::decode_payload(&wire[..len]).expect("decode"), actuate);

    let ack = RemoteActuateAck::new(2, 0);
    let len = ack.encode_into(&mut wire).expect("encode ack");
    assert_eq!(RemoteActuateAck::decode_payload(&wire[..len]).expect("decode"), ack);
    assert!(RemoteActuateAck::decode_payload(&wire[..len - 1]).is_err());
}
