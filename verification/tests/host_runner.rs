use hibana_pico::choreography::protocol::MemRights;
use hibana_pico::kernel::choreofs::{CHOREOFS_WASI_ERRNO_NOSYS, WASIP1_RIGHT_FD_READ, WASIP1_RIGHT_FD_WRITE};
use hibana_pico::kernel::wasi::host_runner::{
    HOST_ROOT_FD, HostRunError, HostRunReport, HostRunner, PathOpenOutcome, PathStatOutcome, WASIP1_FILETYPE_DIRECTORY,
    WASIP1_FILETYPE_REGULAR_FILE,
};
use hibana_pico::kernel::wasi::{ChoreoResourceKind, PicoFdRights};

#[test]
fn a_new_runner_grants_stdio_and_the_choreofs_root() {
    let mut runner = HostRunner::new().expect("runner");
    assert_eq!(runner.fd_rights(1), Some(MemRights::Read));
    assert_eq!(runner.fd_rights(2), Some(MemRights::Read));
    assert_eq!(runner.fd_rights(0), Some(MemRights::Read));
    assert_eq!(runner.fd_rights(9), None);
    assert_eq!(runner.fd_filetype(HOST_ROOT_FD), WASIP1_FILETYPE_DIRECTORY);
    assert_eq!(runner.fd_filetype(1), WASIP1_FILETYPE_REGULAR_FILE);
    assert_eq!(runner.fd_stat(HOST_ROOT_FD), (WASIP1_FILETYPE_DIRECTORY, 0));
    assert!(runner.network_tx().is_empty());
}

#[test]
fn path_open_mints_the_next_fd_for_an_installed_object() {
    let mut runner = HostRunner::new().expect("runner");
    runner.fs_mut().install_static_blob(b"etc/motd", b"hello").expect("install blob");
    let mut report = HostRunReport::default();
    let opened = runner.open_path(HOST_ROOT_FD, b"etc/motd", WASIP1_RIGHT_FD_READ, &mut report).expect("open");
    assert_eq!(report.choreofs_open_count, 1);
    assert_eq!(opened, PathOpenOutcome::Opened(4));
    assert!(runner.resolve_object_fd(4).is_some());
    assert_eq!(runner.fd_stat(4), (WASIP1_FILETYPE_REGULAR_FILE, 5));
    assert_eq!(runner.path_filestat(b"etc/motd"), Ok(PathStatOutcome::Stat(WASIP1_FILETYPE_REGULAR_FILE, 5)));

    let missing = runner.open_path(HOST_ROOT_FD, b"etc/absent", WASIP1_RIGHT_FD_READ, &mut report).expect("answered");
    assert!(matches!(missing, PathOpenOutcome::Rejected(_)));
    assert_eq!(report.typed_reject_count, 1);
    assert_eq!(report.choreofs_open_count, 1);
    runner.trap_on_path_error(true);
    assert!(matches!(
        runner.open_path(HOST_ROOT_FD, b"etc/absent", WASIP1_RIGHT_FD_READ, &mut report),
        Err(HostRunError::PathRejected(_))
    ));
    assert!(matches!(
        runner.open_path(1, b"etc/motd", WASIP1_RIGHT_FD_READ | WASIP1_RIGHT_FD_WRITE, &mut report),
        Err(HostRunError::PathRejected(_))
    ));
}

#[test]
fn network_rx_is_taken_per_fd_and_a_long_payload_is_split() {
    let mut runner = HostRunner::new().expect("runner");
    runner.cap_grant_datagram(10).expect("datagram");
    runner.cap_grant_stream(11).expect("stream");
    assert!(runner.resolve_network_object(10, PicoFdRights::Write).is_some());
    assert!(runner.resolve_network_object(11, PicoFdRights::Read).is_some());
    assert!(runner.resolve_network_object(12, PicoFdRights::Read).is_none());

    runner.enqueue_network_rx(11, b"stream-bytes");
    runner.enqueue_network_rx(10, b"abcdef");
    assert_eq!(runner.dequeue_network_rx(10, 4), b"abcd".to_vec());
    assert_eq!(runner.dequeue_network_rx(10, 4), b"ef".to_vec());
    assert_eq!(runner.dequeue_network_rx(10, 4), Vec::<u8>::new());
    assert_eq!(runner.dequeue_network_rx(11, 64), b"stream-bytes".to_vec());

    runner.record_network_tx(10, b"out");
    assert_eq!(runner.network_tx(), &[(10u8, b"out".to_vec())]);
}

#[test]
fn accepts_are_taken_in_order_per_listener() {
    let mut runner = HostRunner::new().expect("runner");
    runner.cap_grant_listener(20).expect("listener");
    runner.enqueue_datagram_accept(20, 21);
    runner.enqueue_stream_accept(20, 22);
    let first = runner.take_network_accept(20).expect("first accept");
    assert_eq!(first.accepted_fd, 21);
    assert_eq!(first.resource, ChoreoResourceKind::NetworkDatagram);
    runner.cap_mint_network(first.accepted_fd, first.resource).expect("mint accepted fd");
    assert!(runner.resolve_network_object(21, PicoFdRights::ReadWrite).is_some());
    assert_eq!(runner.take_network_accept(20).expect("second").accepted_fd, 22);
    assert!(runner.take_network_accept(20).is_none());
    assert_eq!(runner.reject_network_import(CHOREOFS_WASI_ERRNO_NOSYS), Ok(()));
    runner.trap_on_network_error(true);
    assert_eq!(
        runner.reject_network_import(CHOREOFS_WASI_ERRNO_NOSYS),
        Err(HostRunError::NetworkRejected(CHOREOFS_WASI_ERRNO_NOSYS))
    );
}

#[test]
fn fd_offsets_are_recorded_per_fd_and_saturate() {
    let mut runner = HostRunner::new().expect("runner");
    assert_eq!(runner.fd_offset(5), 0);
    runner.set_fd_offset(5, 10);
    runner.advance_fd_offset(5, 7);
    assert_eq!(runner.fd_offset(5), 17);
    runner.set_fd_offset(6, u64::MAX - 1);
    runner.advance_fd_offset(6, 5);
    assert_eq!(runner.fd_offset(6), u64::MAX);
    assert_eq!(runner.fd_offset(5), 17);
}

#[test]
fn fd_writes_go_to_stdio_the_network_and_choreofs_objects() {
    let mut runner = HostRunner::new().expect("runner");
    runner.fs_mut().install_append_log(b"var/log").expect("install log");
    let mut report = HostRunReport::default();
    runner.route_fd_write(1, b"out", &mut report).expect("stdout");
    runner.route_fd_write(2, b"err", &mut report).expect("stderr");
    assert_eq!(report.stdout, b"out".to_vec());
    assert_eq!(report.stderr, b"err".to_vec());

    runner.cap_grant_datagram(10).expect("datagram");
    runner.route_fd_write(10, b"packet", &mut report).expect("send");
    assert_eq!(runner.network_tx(), &[(10u8, b"packet".to_vec())]);
    assert_eq!(report.network_send_count, 1);

    let opened = runner
        .open_path(HOST_ROOT_FD, b"var/log", WASIP1_RIGHT_FD_READ | WASIP1_RIGHT_FD_WRITE, &mut report)
        .expect("open log");
    assert_eq!(opened, PathOpenOutcome::Opened(4));
    runner.route_fd_write(4, b"ab", &mut report).expect("append");
    runner.route_fd_write(4, b"cd", &mut report).expect("append again");
    assert_eq!(report.choreofs_write_count, 2);
    assert_eq!(runner.fd_offset(4), 4);

    runner.route_fd_write(12, b"nowhere", &mut report).expect("ignored");
    assert_eq!(report.choreofs_write_count, 2);
    assert_eq!(report.network_send_count, 1);
}

#[test]
fn fd_reads_come_from_the_network_queue_and_choreofs_offsets() {
    let mut runner = HostRunner::new().expect("runner");
    runner.fs_mut().install_static_blob(b"etc/motd", b"hello world").expect("install blob");
    let mut report = HostRunReport::default();
    assert_eq!(runner.route_fd_read(0, 16, &mut report).expect("stdin"), Vec::<u8>::new());

    runner.cap_grant_stream(11).expect("stream");
    runner.enqueue_network_rx(11, b"incoming");
    assert_eq!(runner.route_fd_read(11, 3, &mut report).expect("recv"), b"inc".to_vec());
    assert_eq!(report.network_recv_count, 1);

    runner.open_path(HOST_ROOT_FD, b"etc/motd", WASIP1_RIGHT_FD_READ, &mut report).expect("open");
    assert_eq!(runner.route_fd_read(4, 5, &mut report).expect("read"), b"hello".to_vec());
    assert_eq!(runner.route_fd_read(4, 64, &mut report).expect("read rest"), b" world".to_vec());
    assert_eq!(runner.route_fd_read(4, 64, &mut report).expect("at end"), Vec::<u8>::new());
    assert_eq!(report.choreofs_read_count, 3);
    assert_eq!(runner.fd_offset(4), 11);
    assert_eq!(runner.route_fd_read(4, 100, &mut report), Err(HostRunError::Unsupported("fd_read")));
    assert!(matches!(runner.route_fd_write(4, b"x", &mut report), Err(HostRunError::ChoreoFs(_))));
}

#[test]
fn socket_calls_need_a_network_object_and_refusals_are_counted() {
    let mut runner = HostRunner::new().expect("runner");
    let mut report = HostRunReport::default();
    assert_eq!(runner.sock_send(9, b"x", &mut report), Ok(Err(76)));
    assert_eq!(runner.sock_recv(9, 4, &mut report), Ok(Err(76)));
    assert_eq!(runner.sock_shutdown(9, &mut report), Ok(Err(76)));
    assert_eq!(report.typed_reject_count, 3);

    runner.cap_grant_datagram(10).expect("datagram");
    assert_eq!(runner.sock_send(10, b"hey", &mut report), Ok(Ok(3)));
    runner.enqueue_network_rx(10, b"back");
    assert_eq!(runner.sock_recv(10, 8, &mut report), Ok(Ok(b"back".to_vec())));
    assert_eq!(report.network_send_count, 1);
    assert_eq!(report.network_recv_count, 1);
    assert_eq!(runner.sock_shutdown(10, &mut report), Ok(Ok(())));
    assert!(runner.resolve_network_object(10, PicoFdRights::Read).is_none());

    runner.trap_on_network_error(true);
    assert_eq!(runner.sock_send(10, b"x", &mut report), Err(HostRunError::NetworkRejected(76)));
    assert_eq!(report.typed_reject_count, 4);
}

#[test]
fn sock_accept_takes_a_queued_route_and_mints_the_accepted_fd() {
    let mut runner = HostRunner::new().expect("runner");
    let mut report = HostRunReport::default();
    runner.cap_grant_listener(5).expect("listener");
    assert_eq!(runner.sock_accept(5, &mut report), Ok(Err(CHOREOFS_WASI_ERRNO_NOSYS)));
    assert_eq!(report.network_accept_reject_count, 1);
    assert_eq!(report.typed_reject_count, 1);

    runner.enqueue_stream_accept(5, 6);
    assert_eq!(runner.sock_accept(5, &mut report), Ok(Ok(6)));
    assert_eq!(report.network_accept_count, 1);
    assert!(runner.resolve_network_object(6, PicoFdRights::Write).is_some());

    assert_eq!(runner.sock_accept(7, &mut report), Ok(Err(8)));
    assert_eq!(report.typed_reject_count, 2);
}

#[test]
fn fd_close_keeps_stdio_and_the_root_open() {
    let mut runner = HostRunner::new().expect("runner");
    runner.cap_grant_datagram(10).expect("datagram");
    runner.close_fd(1);
    runner.close_fd(HOST_ROOT_FD);
    runner.close_fd(10);
    assert_eq!(runner.fd_rights(1), Some(MemRights::Read));
    assert_eq!(runner.fd_filetype(HOST_ROOT_FD), WASIP1_FILETYPE_DIRECTORY);
    assert!(runner.resolve_network_object(10, PicoFdRights::Read).is_none());
}

#[test]
fn pread_reads_at_the_given_offset_and_leaves_the_fd_offset() {
    let mut runner = HostRunner::new().expect("runner");
    runner.fs_mut().install_static_blob(b"etc/motd", b"hello world").expect("install blob");
    let mut report = HostRunReport::default();
    runner.open_path(HOST_ROOT_FD, b"etc/motd", WASIP1_RIGHT_FD_READ, &mut report).expect("open");
    assert_eq!(runner.pread_fd(4, 6).expect("pread"), b"world".to_vec());
    assert_eq!(runner.fd_offset(4), 0);
    assert_eq!(runner.pread_fd(9, 0), Err(HostRunError::PathRejected(8)));
}

#[test]
fn only_the_root_is_a_preopen_and_unsupported_calls_are_counted() {
    let runner = HostRunner::new().expect("runner");
    assert_eq!(runner.prestat_name_len(HOST_ROOT_FD), Ok(1));
    assert_eq!(runner.prestat_name_len(4), Err(8));
    let mut report = HostRunReport::default();
    assert_eq!(runner.reject_unsupported(&mut report), CHOREOFS_WASI_ERRNO_NOSYS);
    assert_eq!(report.typed_reject_count, 1);
}

#[test]
fn requests_and_replies_over_one_stream_chunk_stop_the_run() {
    let mut runner = HostRunner::new().expect("runner");
    let mut report = HostRunReport::default();
    runner.cap_grant_datagram(10).expect("datagram");
    let big = [7u8; 65];
    assert_eq!(runner.sock_send(10, &big, &mut report), Err(HostRunError::Unsupported("sock_send fd_write")));
    assert!(runner.network_tx().is_empty());
    assert_eq!(report.network_send_count, 0);

    assert_eq!(runner.sock_recv(10, 65, &mut report), Err(HostRunError::Unsupported("sock_recv fd_read")));
    runner.enqueue_network_rx(10, &big);
    assert_eq!(runner.sock_recv(10, 64, &mut report), Ok(Ok(vec![7u8; 64])));
    assert_eq!(runner.route_fd_read(10, 64, &mut report), Ok(vec![7u8; 1]));
    assert_eq!(runner.route_fd_read(10, 65, &mut report), Err(HostRunError::Unsupported("fd_read")));

    let long_path = [b'a'; 65];
    assert_eq!(
        runner.open_path(HOST_ROOT_FD, &long_path, WASIP1_RIGHT_FD_READ, &mut report),
        Err(HostRunError::Unsupported("path_open request"))
    );
    assert_eq!(report.typed_reject_count, 0);
}

#[test]
fn the_report_records_exit_end_and_memory_growth() {
    let mut report = HostRunReport::default();
    report.record_memory_grow();
    report.record_done();
    assert_eq!(report.exit_status, Some(0));
    assert_eq!(report.memory_grow_count, 1);
    let mut exited = HostRunReport::default();
    exited.record_exit(3);
    exited.record_done();
    assert_eq!(exited.exit_status, Some(3));
}
