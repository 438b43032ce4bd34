use hibana_pico::kernel::choreofs::ChoreoFsStore;
use hibana_pico::choreography::protocol::{FdRead, FdWrite, LABEL_GPIO_SET, MemBorrow, MemRelease, PollOneoff, TimerSleepDone};
use hibana_pico::kernel::guest_ledger::{
    GuestFdKind, GuestLedger, GuestLedgerError, GuestQuotaError, GuestQuotaLimits, PendingSyscallCompletion,
    PendingSyscallError, PendingSyscallKind, PendingSyscallSpec, PendingSyscallTable, WASI_ERRNO_INVAL,
    WASI_ERRNO_MFILE, WasiErrnoMap, WasiProfile,
};
use hibana_pico::kernel::wasi::{ChoreoResourceKind, PicoFdError, PicoFdRights};

#[test]
fn pico_min_guest_ledger_groups_fd_lease_pending_and_errno() {
    let mut ledger: GuestLedger<2, 1, 1> = GuestLedger::pico_min(4096, 7);
    let guest_fd = ledger
        .apply_fd_cap_grant(
            3,
            PicoFdRights::Write,
            ChoreoResourceKind::Gpio,
            3,
            LABEL_GPIO_SET,
            0,
            0,
            0,
            0,
            0,
        )
        .expect("grant gpio fd");
    assert_eq!(guest_fd.fd(), 3);
    assert_eq!(guest_fd.kind(), GuestFdKind::Gpio);

    let grant = ledger
        .grant_read_lease(MemBorrow::new(128, 1, 7))
        .expect("grant read lease");
    ledger
        .validate_fd_write_lease(
            &FdWrite::new_with_lease(3, grant.lease_id(), b"1").expect("write"),
            grant,
        )
        .expect("fd_write lease matches");
    ledger
        .release_lease(MemRelease::new(grant.lease_id()))
        .expect("release lease");

    let poll = PollOneoff::new(42);
    let token = ledger.begin_poll_oneoff(poll).expect("begin poll");
    ledger
        .complete_poll_oneoff(token, TimerSleepDone::new(42))
        .expect("complete poll");
}

#[test]
fn pending_syscall_generation_and_completion_are_reject() {
    let mut ledger: GuestLedger<1, 1, 1> = GuestLedger::pico_min(1024, 1);
    let token = ledger
        .begin_poll_oneoff(PollOneoff::new(10))
        .expect("begin poll");

    assert_eq!(
        ledger.complete_poll_oneoff(token, TimerSleepDone::new(11)),
        Err(GuestLedgerError::Pending(
            PendingSyscallError::CompletionMismatch
        ))
    );
    assert_eq!(
        ledger.begin_poll_oneoff(PollOneoff::new(12)),
        Err(GuestLedgerError::Quota(GuestQuotaError::PendingLimit))
    );
    assert_eq!(
        ledger.errno(GuestLedgerError::Pending(
            PendingSyscallError::CompletionMismatch
        )),
        WASI_ERRNO_INVAL
    );
}

#[test]
fn pending_table_tracks_multiple_syscall_kinds_as_linear_tokens() {
    let mut pending: PendingSyscallTable<2> = PendingSyscallTable::new();
    let fd_read = pending
        .begin(PendingSyscallSpec::fd_io(
            PendingSyscallKind::FdRead,
            7,
            2,
            16,
            GuestFdKind::Stream,
        ))
        .expect("begin fd_read");
    assert_eq!(fd_read.kind(), PendingSyscallKind::FdRead);

    assert_eq!(
        pending.complete(
            fd_read,
            PendingSyscallCompletion::fd_io(PendingSyscallKind::NetworkRecv, 7, 2, 4)
        ),
        Err(PendingSyscallError::WrongKind)
    );
    assert_eq!(
        pending.complete(
            fd_read,
            PendingSyscallCompletion::fd_io(PendingSyscallKind::FdRead, 7, 2, 17)
        ),
        Err(PendingSyscallError::CompletionMismatch)
    );
    pending
        .complete(
            fd_read,
            PendingSyscallCompletion::fd_io(PendingSyscallKind::FdRead, 7, 2, 8),
        )
        .expect("complete fd_read");
    assert!(!pending.has_active());

    let dir = pending
        .begin(PendingSyscallSpec::fd_io(
            PendingSyscallKind::DirectoryRead,
            9,
            3,
            64,
            GuestFdKind::DirectoryView,
        ))
        .expect("begin directory read");
    pending
        .complete(
            dir,
            PendingSyscallCompletion::fd_io(PendingSyscallKind::DirectoryRead, 9, 3, 64),
        )
        .expect("complete directory read");
}

#[test]
fn guest_ledger_begins_and_completes_fd_read_write_pending_tokens() {
    let mut ledger: GuestLedger<2, 4, 2> = GuestLedger::pico_min(4096, 1);
    ledger
        .apply_fd_cap_grant(
            0,
            PicoFdRights::Read,
            ChoreoResourceKind::Stdin,
            1,
            0,
            0,
            0,
            0,
            0,
            0,
        )
        .expect("grant stdin");
    ledger
        .apply_fd_cap_grant(
            1,
            PicoFdRights::Write,
            ChoreoResourceKind::Stdout,
            1,
            0,
            0,
            0,
            0,
            0,
            0,
        )
        .expect("grant stdout");

    let read_grant = ledger
        .grant_write_lease(MemBorrow::new(256, 8, 1))
        .expect("grant write lease for fd_read");
    let read = FdRead::new_with_lease(0, read_grant.lease_id(), 8).expect("fd_read");
    let read_token = ledger
        .begin_fd_read(&read, read_grant, ChoreoResourceKind::Stdin)
        .expect("begin fd_read pending");
    assert_eq!(read_token.kind(), PendingSyscallKind::FdRead);
    ledger
        .complete_fd_read(read_token, 0, read_grant.lease_id(), 5)
        .expect("complete fd_read pending");

    let write_grant = ledger
        .grant_read_lease(MemBorrow::new(512, 4, 1))
        .expect("grant read lease for fd_write");
    let write = FdWrite::new_with_lease(1, write_grant.lease_id(), b"pong").expect("fd_write");
    let write_token = ledger
        .begin_fd_write(&write, write_grant, ChoreoResourceKind::Stdout)
        .expect("begin fd_write pending");
    assert_eq!(
        ledger.complete_fd_write(write_token, 1, write_grant.lease_id(), 5),
        Err(GuestLedgerError::Pending(
            PendingSyscallError::CompletionMismatch
        ))
    );
    ledger
        .complete_fd_write(write_token, 1, write_grant.lease_id(), 4)
        .expect("complete fd_write pending");
}

#[test]
fn guest_ledger_pending_covers_network_and_choreofs_resources() {
    let mut ledger: GuestLedger<4, 4, 2> = GuestLedger::pico_min(4096, 1);
    ledger
        .apply_fd_cap_grant(
            30,
            PicoFdRights::ReadWrite,
            ChoreoResourceKind::NetworkDatagram,
            22,
            0,
            0,
            0,
            0,
            0,
            0,
        )
        .expect("grant datagram fd");
    ledger
        .apply_fd_cap_grant(
            40,
            PicoFdRights::ReadWrite,
            ChoreoResourceKind::ChoreoObject,
            8,
            0,
            0,
            0,
            0,
            0,
            0,
        )
        .expect("grant choreofs object fd");
    ledger
        .apply_fd_cap_grant(
            41,
            PicoFdRights::Read,
            ChoreoResourceKind::DirectoryView,
            8,
            0,
            0,
            0,
            0,
            0,
            0,
        )
        .expect("grant choreofs directory view fd");
    ledger
        .apply_fd_cap_grant(
            50,
            PicoFdRights::Read,
            ChoreoResourceKind::NetworkListener,
            23,
            0,
            0,
            0,
            0,
            0,
            0,
        )
        .expect("grant network listener fd");

    let net_grant = ledger
        .grant_write_lease(MemBorrow::new(1024, 8, 1))
        .expect("grant recv lease");
    let net_read = FdRead::new_with_lease(30, net_grant.lease_id(), 8).expect("network read");
    assert_eq!(
        ledger.begin_network_recv(&net_read, net_grant, ChoreoResourceKind::Gpio),
        Err(GuestLedgerError::Fd(PicoFdError::WrongResource))
    );
    let net_token = ledger
        .begin_network_recv(&net_read, net_grant, ChoreoResourceKind::NetworkDatagram)
        .expect("begin network recv");
    assert_eq!(
        ledger.complete_fd_read(net_token, 30, net_grant.lease_id(), 4),
        Err(GuestLedgerError::Pending(PendingSyscallError::WrongKind))
    );
    ledger
        .complete_network_recv(net_token, 30, net_grant.lease_id(), 4)
        .expect("complete network recv");

    let fs_grant = ledger
        .grant_read_lease(MemBorrow::new(2048, 4, 1))
        .expect("grant choreofs write lease");
    let fs_write =
        FdWrite::new_with_lease(40, fs_grant.lease_id(), b"cfg!").expect("choreofs write");
    let fs_token = ledger
        .begin_choreofs_write(&fs_write, fs_grant)
        .expect("begin choreofs write");
    ledger
        .complete_choreofs_write(fs_token, 40, fs_grant.lease_id(), 4)
        .expect("complete choreofs write");

    let dir_grant = ledger
        .grant_write_lease(MemBorrow::new(3072, 16, 1))
        .expect("grant directory read lease");
    let dir_read =
        FdRead::new_with_lease(41, dir_grant.lease_id(), 16).expect("directory read");
    let dir_token = ledger
        .begin_directory_read(&dir_read, dir_grant)
        .expect("begin directory read");
    ledger
        .complete_directory_read(dir_token, 41, dir_grant.lease_id(), 12)
        .expect("complete directory read");

    let accept_token = ledger.begin_sock_accept(50).expect("begin sock accept");
    assert_eq!(
        ledger.complete_sock_accept(accept_token, 51),
        Err(GuestLedgerError::Pending(
            PendingSyscallError::CompletionMismatch
        ))
    );
    ledger
        .complete_sock_accept(accept_token, 50)
        .expect("complete sock accept");
}

#[test]
fn fd_quota_maps_to_errno_map() {
    let mut ledger: GuestLedger<1, 1, 1> = GuestLedger::new(
        WasiProfile::PicoMin,
        1024,
        1,
        GuestQuotaLimits::new(0, 1),
        WasiErrnoMap::new(),
    );
    let err = ledger
        .apply_fd_cap_grant(
            3,
            PicoFdRights::Write,
            ChoreoResourceKind::Gpio,
            3,
            LABEL_GPIO_SET,
            0,
            0,
            0,
            0,
            0,
        )
        .expect_err("quota rejects fd");
    assert_eq!(err, GuestLedgerError::Quota(GuestQuotaError::FdLimit));
    assert_eq!(ledger.errno(err), WASI_ERRNO_MFILE);
}

#[test]
fn successive_directory_reads_list_each_child_once_in_slot_order() {
    let mut fs: ChoreoFsStore<8, 64, 256> = ChoreoFsStore::new();
    fs.install_directory(b"etc").expect("dir");
    fs.install_static_blob(b"etc/a", b"1").expect("a");
    fs.install_static_blob(b"etc/bb", b"2").expect("bb");
    fs.install_static_blob(b"other", b"3").expect("other");
    fs.install_static_blob(b"etc/ccc", b"4").expect("ccc");
    let opened = fs.open(b"etc", PicoFdRights::Read).expect("open dir");
    let mut ledger: GuestLedger<4, 1, 1> = GuestLedger::pico_min(1024, 1);
    let fd = ledger
        .apply_fd_cap_mint(3, PicoFdRights::Read, ChoreoResourceKind::DirectoryView, 0, 0, opened.object_id, 0, 0, 0,
            opened.generation, 0)
        .expect("mint dir fd");

    let mut listing = Vec::new();
    let mut cursor = 0;
    let mut calls = 0;
    loop {
        let mut buf = [0u8; 5];
        let read = fs.read_directory(fd, cursor, &mut buf).expect("read");
        listing.extend_from_slice(&buf[..read.written()]);
        assert!(read.next_cursor() > cursor || read.done());
        cursor = read.next_cursor();
        calls += 1;
        if read.done() {
            break;
        }
    }
    assert_eq!(listing, b"a\nbb\nccc\n".to_vec());
    assert_eq!(calls, 2);
    let mut tiny = [0u8; 1];
    assert!(fs.read_directory(fd, 0, &mut tiny).is_err());
}
