use hibana_pico::kernel::swarm::{NodeId, SwarmCredential, SwarmError, SwarmFrame, SwarmSecurity};
use hibana_pico::machine::rp2040::baker_link::{
    BAKER_LINK_USER_LED_ACTIVE_HIGH, BakerLinkBoard, baker_link_safe_gpio_levels, baker_link_user_led_pins,
};
use hibana_pico::machine::rp2040::sio::{
    Core1Launch, Core1LaunchStep, core1_launch_sequence, decode_header, decode_route, pack_frame_words,
    unpack_payload,
};
use hibana_pico::machine::rp2350::cyw43439::{
    CYW_ACK, CYW_CMD_TX_FRAME, CYW_STATUS_JOINED, CYW_STATUS_OVERFLOW, CYW_STATUS_RX_READY, CYW_STATUS_TX_READY,
    Cyw43439Error, Cyw43439Status, QemuCyw43439RxMeta, QemuCyw43439Transport, QemuRxMetaSlots, ack_result,
    firmware_state_result, load_chunk_bytes, rx_len_check, select_node_bytes, tx_frame_bytes, tx_status_check,
    CYW_CMD_SELECT_NODE,
};
use hibana_pico::machine::rp2350::uart::{hex_line_bytes, line_bytes};
use hibana_pico::machine::{BoardSafeState, SafeGpioLevel};
use hibana_pico::port::host_queue::{BackendError, FrameOwned};

const TEST_SESSION_ID: u32 = 42;
const TEST_SESSION_GENERATION: u16 = 7;

fn test_security() -> SwarmSecurity {
    SwarmSecurity::Secure(SwarmCredential::new(0x4849_4241))
}

#[test]
fn baker_board_safe_state_turns_all_user_leds_inactive() {
    let levels = BakerLinkBoard::gpio_levels();
    let pins = baker_link_user_led_pins();
    assert_eq!(levels.len(), pins.len());
    assert_eq!(levels.as_slice(), &baker_link_safe_gpio_levels());
    for (level, pin) in levels.iter().zip(pins) {
        assert_eq!(level.pin(), pin);
        assert_eq!(level.high(), !BAKER_LINK_USER_LED_ACTIVE_HIGH);
    }
    assert_eq!(levels[0], SafeGpioLevel::new(22, false));
}

#[test]
fn cyw43439_status_bits_are_driver_visible_readiness_evidence() {
    let status = Cyw43439Status::from_bits(CYW_STATUS_RX_READY | CYW_STATUS_TX_READY | CYW_STATUS_JOINED);

    assert_eq!(status.bits(), 0x07);
    assert!(status.rx_ready());
    assert!(status.tx_ready());
    assert!(status.joined());
    assert!(!status.queue_overflow());
}

#[test]
fn cyw43439_status_reports_queue_overflow_without_rx_authority() {
    let status = Cyw43439Status::from_bits(CYW_STATUS_JOINED | CYW_STATUS_OVERFLOW);

    assert!(status.joined());
    assert!(status.queue_overflow());
    assert!(!status.rx_ready());
    assert!(!status.tx_ready());
}

#[test]
fn qemu_rx_meta_matches_only_exact_source_destination_and_lane() {
    let coordinator = NodeId::new(1);
    let gateway = NodeId::new(4);
    let meta = QemuCyw43439RxMeta::new(coordinator, gateway, 22);

    assert!(meta.matches(coordinator, gateway, 22));
    assert!(!meta.matches(NodeId::new(2), gateway, 22));
    assert!(!meta.matches(coordinator, NodeId::new(5), 22));
    assert!(!meta.matches(coordinator, gateway, 23));
}

#[test]
fn qemu_rx_meta_is_consumed_once() {
    let coordinator = NodeId::new(1);
    let gateway = NodeId::new(4);
    let meta = QemuCyw43439RxMeta::new(coordinator, gateway, 22);
    let mut slots = QemuRxMetaSlots::new();

    slots.set(0, meta);

    assert_eq!(slots.take(0), Some(meta));
    assert_eq!(slots.take(0), None);
}

#[test]
fn qemu_rx_meta_is_not_recorded_for_a_role_out_of_range() {
    let meta = QemuCyw43439RxMeta::new(NodeId::new(1), NodeId::new(4), 22);
    let mut slots = QemuRxMetaSlots::new();
    slots.set(6, meta);
    assert_eq!(slots.take(6), None);
    slots.set(1, QemuCyw43439RxMeta::new(NodeId::new(300), NodeId::new(4), 22));
    assert_eq!(slots.take(1), None);
}

#[test]
fn qemu_transport_rejects_bad_rx_frame_metadata_before_payload_authority() {
    let coordinator = NodeId::new(1);
    let gateway = NodeId::new(4);
    let outside_route = NodeId::new(6);
    let role_nodes =
        [coordinator, gateway, NodeId::new(0), NodeId::new(0), NodeId::new(0), NodeId::new(0)];
    let mut transport =
        QemuCyw43439Transport::new_role_map(role_nodes, 2, TEST_SESSION_GENERATION, test_security());
    let (_, rx) = transport.open(1, TEST_SESSION_ID);

    let valid = SwarmFrame::new(
        coordinator,
        gateway,
        TEST_SESSION_ID,
        TEST_SESSION_GENERATION,
        22,
        44,
        1,
        0,
        b"ok",
        test_security(),
    )
    .expect("valid qemu frame");
    assert_eq!(transport.validate_received_frame(&rx, &valid), Ok(()));

    let wrong_destination = SwarmFrame::new(
        coordinator,
        outside_route,
        TEST_SESSION_ID,
        TEST_SESSION_GENERATION,
        22,
        44,
        2,
        0,
        b"wrong dst",
        test_security(),
    )
    .expect("wrong destination frame");
    assert_eq!(
        transport.validate_received_frame(&rx, &wrong_destination),
        Err(Cyw43439Error::Swarm(SwarmError::BadNode))
    );

    let unknown_source = SwarmFrame::new(
        outside_route,
        gateway,
        TEST_SESSION_ID,
        TEST_SESSION_GENERATION,
        22,
        44,
        3,
        0,
        b"wrong src",
        test_security(),
    )
    .expect("unknown source frame");
    assert_eq!(
        transport.validate_received_frame(&rx, &unknown_source),
        Err(Cyw43439Error::Swarm(SwarmError::BadNode))
    );

    let stale_generation = SwarmFrame::new(
        coordinator,
        gateway,
        TEST_SESSION_ID,
        TEST_SESSION_GENERATION.wrapping_add(1),
        22,
        44,
        4,
        0,
        b"stale",
        test_security(),
    )
    .expect("stale generation frame");
    assert_eq!(
        transport.validate_received_frame(&rx, &stale_generation),
        Err(Cyw43439Error::Swarm(SwarmError::BadGeneration))
    );

    let telemetry = transport.drop_telemetry();
    assert_eq!(telemetry.other(), 2);
    assert_eq!(telemetry.bad_generation(), 1);
}

#[test]
fn qemu_transport_accepts_each_sequence_once_and_requeue_restores_replay() {
    let coordinator = NodeId::new(1);
    let gateway = NodeId::new(4);
    let mut transport = QemuCyw43439Transport::new(coordinator, gateway, TEST_SESSION_GENERATION, test_security());
    let (tx, _) = transport.open(0, TEST_SESSION_ID);
    let (_, mut rx) = transport.open(1, TEST_SESSION_ID);
    let (peer, wire) = transport.prepare_send(&tx, 1, 22, 44, b"hello").expect("prepare send");
    assert_eq!(peer, gateway);
    let frame = SwarmFrame::decode(&wire).expect("decode frame");
    assert_eq!(frame.seq(), 1);

    let meta = transport.accept_frame(&mut rx, frame.clone()).expect("first delivery");
    assert_eq!(meta, QemuCyw43439RxMeta::new(coordinator, gateway, 22));
    assert_eq!(rx.held_label(), Some(44));
    rx.requeue();
    let again = rx.take_requeued().expect("requeued frame");
    transport.accept_frame(&mut rx, again).expect("redelivery after requeue");
    assert_eq!(
        transport.accept_frame(&mut rx, frame),
        Err(Cyw43439Error::Swarm(SwarmError::Replay))
    );
    assert_eq!(transport.drop_telemetry().replayed(), 1);
    assert_eq!(
        transport.prepare_send(&tx, 3, 22, 44, b"x").map(|sent| sent.0),
        Err(Cyw43439Error::Swarm(SwarmError::BadRole))
    );
}

#[test]
fn cyw43439_command_replies_and_limits() {
    assert_eq!(ack_result(CYW_ACK), Ok(()));
    assert_eq!(ack_result(0xee), Err(Cyw43439Error::FirmwareLoadFailed));
    assert_eq!(firmware_state_result(0x20), Ok(()));
    assert_eq!(firmware_state_result(0xa0), Err(Cyw43439Error::FirmwareLoadFailed));
    assert_eq!(firmware_state_result(0x00), Err(Cyw43439Error::FirmwareLoadFailed));
    assert_eq!(rx_len_check(0), Ok(None));
    assert_eq!(rx_len_check(12), Ok(Some(12)));
    assert_eq!(rx_len_check(129), Err(Cyw43439Error::FrameTooLarge));
    assert_eq!(
        tx_status_check(Cyw43439Status::from_bits(CYW_STATUS_JOINED)),
        Err(Cyw43439Error::TxNotReady)
    );
    assert_eq!(tx_status_check(Cyw43439Status::from_bits(0)), Err(Cyw43439Error::NotJoined));
    assert_eq!(tx_frame_bytes(NodeId::new(4), b"ab"), vec![CYW_CMD_TX_FRAME, 4, 2, b'a', b'b']);
    let chunks = load_chunk_bytes(0x81, &[7u8; 130]);
    assert_eq!(&chunks[..7], &[0x81, 0, 0, 0, 0, 128, 7]);
    assert_eq!(&chunks[6 + 128..6 + 128 + 7], &[0x81, 128, 0, 0, 0, 2, 7]);
    assert_eq!(chunks.len(), 6 + 128 + 6 + 2);
}

#[test]
fn fifo_words_carry_a_frame_to_its_role_and_back() {
    let frame = FrameOwned::from_bytes(9, b"hello").expect("frame");
    let words = pack_frame_words(2, &frame);
    assert_eq!(words.len(), 4);
    assert_eq!(decode_header(words[0]), Ok(Some((9, 5))));
    assert_eq!(decode_route(words[1]), Ok(2));
    let back = unpack_payload(9, 5, &words[2..]);
    assert_eq!(back.as_slice(), b"hello");
    assert_eq!(decode_header(0x1234_0000), Ok(None));
    assert_eq!(decode_header(0x4849_ff00), Err(BackendError::PayloadTooLarge));
    assert_eq!(decode_route(0x5254_0007), Err(BackendError::RoleOutOfRange));
    assert_eq!(decode_route(0x4849_0001), Err(BackendError::InvalidFrame));
}

#[test]
fn core1_launch_gives_up_after_the_retry_budget() {
    let sequence = core1_launch_sequence(0x1000_0100, 0x2004_0000, 0x1000_0201);
    let mut launch = Core1Launch::new();
    for (i, word) in sequence.iter().enumerate() {
        let step = launch.on_echo(*word, *word);
        if i + 1 == sequence.len() {
            assert_eq!(step, Core1LaunchStep::Launched);
        } else {
            assert_eq!(step, Core1LaunchStep::Continue);
        }
    }
    let mut failing = Core1Launch::new();
    for _ in 0..16 {
        assert_eq!(failing.on_echo(0, 1), Core1LaunchStep::Continue);
    }
    assert_eq!(failing.on_echo(0, 1), Core1LaunchStep::GaveUp);
}

#[test]
fn uart_lines_end_with_carriage_return_and_line_feed() {
    assert_eq!(line_bytes(b"a\nb"), b"a\r\nb\r\n".to_vec());
    assert_eq!(hex_line_bytes(b"v=", 0x00ab_12ef), b"v=00ab12ef\r\n".to_vec());
}

#[test]
fn selecting_a_node_sends_the_low_byte_of_its_id() {
    assert_eq!(select_node_bytes(NodeId::new(4)), [CYW_CMD_SELECT_NODE, 4]);
    assert_eq!(select_node_bytes(NodeId::new(0x0104)), [CYW_CMD_SELECT_NODE, 4]);
    assert_eq!(select_node_bytes(NodeId::new(0)), [CYW_CMD_SELECT_NODE, 0]);
}
