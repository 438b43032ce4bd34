use hibana_pico::choreography::protocol::{
    MemBorrow, MemCommit, MemFence, MemFenceReason, MemRelease, MemRights, StdinRequest, StdoutChunk,
};
use hibana_pico::kernel::features::Wasip1HandlerSet;
use hibana_pico::kernel::wasi::{
    ChoreoResourceKind, MemoryLeaseError, MemoryLeaseTable, PicoFdControl, PicoFdError, PicoFdRights, PicoFdRoute,
    PicoFdView, PicoFdViewSource, StaticArgEnvError, WASIP1_STATIC_ARG_BYTES_CAPACITY,
    WASIP1_STATIC_ENV_BYTES_CAPACITY, Wasip1ClockModule, Wasip1EnvironmentModule, Wasip1Error, Wasip1ExitModule,
    Wasip1FullSubsetModule, Wasip1ImportSummary, Wasip1Module, Wasip1RandomModule, Wasip1StaticArgEnv,
    Wasip1StderrModule, Wasip1StdinModule, Wasip1StdoutModule,
};

const TEST_STDOUT_TEXT: &[u8] = b"hibana wasip1 stdout\n";
const TEST_STDERR_TEXT: &[u8] = b"hibana wasip1 stderr\n";
const TEST_STDIN_INPUT: &[u8] = b"hibana stdin\n";
const TEST_STDIN_MAX_LEN: u8 = 24;
const TEST_CLOCK_NANOS: u64 = 123_456_789;
const TEST_RANDOM_SEED_LO: u64 = 0x4849_4241_5241_4e44;
const TEST_RANDOM_SEED_HI: u64 = 0x5345_4544_0000_0001;
const TEST_EXIT_CODE: u8 = 7;

const WASIP1_STDOUT_GUEST: &[u8] =
    b"\0asm\x01\0\0\0wasi_snapshot_preview1 fd_write environ_get hibana wasip1 stdout\n";
const WASIP1_STDERR_GUEST: &[u8] =
    b"\0asm\x01\0\0\0wasi_snapshot_preview1 fd_write environ_get hibana wasip1 stderr\n";
const WASIP1_STDIN_GUEST: &[u8] =
    b"\0asm\x01\0\0\0wasi_snapshot_preview1 fd_read environ_get hibana stdin\n";
const WASIP1_CLOCK_GUEST: &[u8] =
    b"\0asm\x01\0\0\0wasi_snapshot_preview1 clock_time_get environ_get";
const WASIP1_RANDOM_GUEST: &[u8] =
    b"\0asm\x01\0\0\0wasi_snapshot_preview1 random_get environ_get";
const WASIP1_EXIT_GUEST: &[u8] =
    b"\0asm\x01\0\0\0wasi_snapshot_preview1 proc_exit environ_get";
const WASIP1_FULL_SUBSET_GUEST: &[u8] = b"\0asm\x01\0\0\0wasi_snapshot_preview1 fd_write fd_read fd_fdstat_get fd_close clock_res_get clock_time_get poll_oneoff random_get proc_exit proc_raise sched_yield args_sizes_get args_get environ_sizes_get environ_get fd_prestat_get fd_prestat_dir_name fd_filestat_get fd_readdir path_open path_filestat_get path_readlink path_create_directory path_remove_directory path_unlink_file path_rename fd_advise fd_allocate fd_datasync fd_fdstat_set_flags fd_fdstat_set_rights fd_filestat_set_size fd_filestat_set_times fd_pread fd_pwrite fd_renumber fd_seek fd_sync fd_tell path_filestat_set_times path_link path_symlink sock_accept sock_recv sock_send sock_shutdown";
const STRICT_PREVIEW1_IMPORT_GUEST: &[u8] = &[
    0x00, 0x61, 0x73, 0x6d, 0x01, 0x00, 0x00, 0x00, 0x02, 0x23, 0x01, 0x16, b'w', b'a', b's',
    b'i', b'_', b's', b'n', b'a', b'p', b's', b'h', b'o', b't', b'_', b'p', b'r', b'e', b'v',
    b'i', b'e', b'w', b'1', 0x08, b'f', b'd', b'_', b'w', b'r', b'i', b't', b'e', 0x00, 0x00,
];
const STRICT_UNSUPPORTED_IMPORT_GUEST: &[u8] = &[
    0x00, 0x61, 0x73, 0x6d, 0x01, 0x00, 0x00, 0x00, 0x02, 0x0c, 0x01, 0x03, b'e', b'n', b'v',
    0x04, b'h', b'o', b's', b't', 0x00, 0x00,
];

#[test]
fn fd_control_messages_materialize_restrict_and_revoke_view() {
    let mut fds: PicoFdView<1> = PicoFdView::new();
    let route = PicoFdRoute::new(
        2,
        0,
        22,
        hibana_pico::choreography::protocol::LABEL_NET_DATAGRAM_SEND,
        7,
        1,
    );
    let granted = fds
        .apply_control(PicoFdControl::cap_grant(
            30,
            PicoFdRights::ReadWrite,
            ChoreoResourceKind::NetworkDatagram,
            99,
            route,
        ))
        .expect("CapGrant materializes fd view");

    let view = granted.materialized_view();
    assert_eq!(view.fd(), 30);
    assert_eq!(view.source(), PicoFdViewSource::Grant);
    assert_eq!(view.rights(), PicoFdRights::ReadWrite);
    assert_eq!(
        view.choreo_resource_kind(),
        ChoreoResourceKind::NetworkDatagram
    );
    assert_eq!(view.choreo_object_id(), 99);
    assert_eq!(view.choreo_object_generation(), 7);
    assert_eq!(
        view.route().route_label(),
        hibana_pico::choreography::protocol::LABEL_NET_DATAGRAM_SEND
    );

    let restricted = fds
        .apply_control(PicoFdControl::CapRestrict {
            fd: 30,
            generation: granted.generation(),
            rights: PicoFdRights::Read,
        })
        .expect("CapRestrict narrows materialized view");
    assert_eq!(restricted.materialized_rights(), PicoFdRights::Read);
    assert_eq!(restricted.source(), PicoFdViewSource::Grant);
    assert_eq!(
        fds.resolve_current(30, PicoFdRights::Write, ChoreoResourceKind::NetworkDatagram),
        Err(PicoFdError::PermissionDenied)
    );
    assert!(
        fds.resolve_current(30, PicoFdRights::Read, ChoreoResourceKind::NetworkDatagram)
            .is_ok()
    );

    fds.apply_control(PicoFdControl::CapRevoke { fd: 30 })
        .expect("CapRevoke marks view revoked");
    assert_eq!(
        fds.resolve_current(30, PicoFdRights::Read, ChoreoResourceKind::NetworkDatagram),
        Err(PicoFdError::Revoked)
    );
}

#[test]
fn pico_fd_view_rejects_invalid_stale_closed_and_wrong_rights() {
    let mut fds: PicoFdView<2> = PicoFdView::new();
    let stdin = fds
        .apply_local_cap_grant(0, PicoFdRights::Read, ChoreoResourceKind::Stdin, 1, 0, 0)
        .expect("grant stdin fd");
    assert_eq!(stdin.fd(), 0);
    assert_eq!(stdin.generation(), 1);
    assert_eq!(stdin.resource(), ChoreoResourceKind::Stdin);
    assert_eq!(stdin.rights(), PicoFdRights::Read);
    assert_eq!(stdin.lane(), 1);
    assert_eq!(stdin.route_label(), 0);
    assert_eq!(stdin.wait_or_subscription_id(), 0);
    assert!(fds.has_active());
    assert_eq!(fds.active_count(), 1);

    assert_eq!(
        fds.resolve_current(0, PicoFdRights::Read, ChoreoResourceKind::Stdin),
        Ok(stdin)
    );
    assert_eq!(
        fds.resolve_current(0, PicoFdRights::Write, ChoreoResourceKind::Stdin),
        Err(PicoFdError::PermissionDenied)
    );
    assert_eq!(
        fds.resolve_current(0, PicoFdRights::Read, ChoreoResourceKind::Stdout),
        Err(PicoFdError::WrongResource)
    );
    assert_eq!(
        fds.resolve(
            0,
            stdin.generation().wrapping_add(1),
            PicoFdRights::Read,
            ChoreoResourceKind::Stdin
        ),
        Err(PicoFdError::BadGeneration)
    );
    assert_eq!(
        fds.resolve_current(9, PicoFdRights::Read, ChoreoResourceKind::Stdin),
        Err(PicoFdError::BadFd)
    );

    let closed = fds.close_current(0).expect("close stdin");
    assert!(closed.is_revoked());
    assert!(!fds.has_active());
    assert_eq!(
        fds.resolve_current(0, PicoFdRights::Read, ChoreoResourceKind::Stdin),
        Err(PicoFdError::Revoked)
    );

    let reopened = fds
        .apply_local_cap_grant(0, PicoFdRights::Read, ChoreoResourceKind::Stdin, 1, 0, 0)
        .expect("reopen stdin with new generation");
    assert_ne!(stdin.generation(), reopened.generation());
    assert_eq!(
        fds.resolve(
            0,
            stdin.generation(),
            PicoFdRights::Read,
            ChoreoResourceKind::Stdin
        ),
        Err(PicoFdError::BadGeneration)
    );
    assert_eq!(
        fds.resolve(
            0,
            reopened.generation(),
            PicoFdRights::Read,
            ChoreoResourceKind::Stdin
        ),
        Ok(reopened)
    );
    let telemetry = fds.rejection_telemetry();
    assert_eq!(telemetry.bad_fd(), 1);
    assert_eq!(telemetry.bad_generation(), 2);
    assert_eq!(telemetry.permission_denied(), 1);
    assert_eq!(telemetry.wrong_resource(), 1);
    assert_eq!(telemetry.revoked(), 1);
    assert_eq!(telemetry.total(), 6);
}

#[test]
fn pico_fd_view_tracks_interrupt_subscription_control_grant() {
    let mut fds: PicoFdView<1> = PicoFdView::new();
    let wait = fds
        .apply_local_cap_grant(
            60,
            PicoFdRights::Read,
            ChoreoResourceKind::InterruptSubscription,
            4,
            hibana_pico::choreography::protocol::LABEL_GPIO_WAIT_RET,
            7,
        )
        .expect("grant gpio wait fd");

    assert_eq!(wait.fd(), 60);
    assert_eq!(wait.wait_or_subscription_id(), 7);
    assert_eq!(
        wait.route_label(),
        hibana_pico::choreography::protocol::LABEL_GPIO_WAIT_RET
    );
    assert_eq!(
        fds.resolve_current(
            60,
            PicoFdRights::Read,
            ChoreoResourceKind::InterruptSubscription
        ),
        Ok(wait)
    );
    fds.revoke_fd(60).expect("revoke gpio wait fd");
    assert_eq!(
        fds.resolve_current(
            60,
            PicoFdRights::Read,
            ChoreoResourceKind::InterruptSubscription
        ),
        Err(PicoFdError::Revoked)
    );
}

#[test]
fn pico_fd_view_tracks_gateway_route_metadata() {
    let mut fds: PicoFdView<1> = PicoFdView::new();
    let route = PicoFdRoute::new(
        4,
        hibana_pico::kernel::policy::NodeRole::Gateway.bit(),
        20,
        hibana_pico::choreography::protocol::LABEL_SWARM_TELEMETRY,
        7,
        1,
    );
    let gateway = fds
        .apply_cap_grant(
            40,
            PicoFdRights::ReadWrite,
            ChoreoResourceKind::Gateway,
            0,
            route,
        )
        .expect("grant gateway fd");

    assert_eq!(gateway.fd(), 40);
    assert_eq!(gateway.resource(), ChoreoResourceKind::Gateway);
    assert_eq!(gateway.lane(), 20);
    assert_eq!(
        gateway.route_label(),
        hibana_pico::choreography::protocol::LABEL_SWARM_TELEMETRY
    );
    assert_eq!(gateway.target_node(), 4);
    assert_eq!(
        gateway.target_role(),
        hibana_pico::kernel::policy::NodeRole::Gateway.bit()
    );
    assert_eq!(gateway.session_generation(), 7);
    assert_eq!(gateway.policy_slot(), 1);
    assert_eq!(
        fds.resolve_current(40, PicoFdRights::Write, ChoreoResourceKind::Gateway),
        Ok(gateway)
    );
    assert_eq!(
        fds.resolve_current(40, PicoFdRights::Read, ChoreoResourceKind::Gateway),
        Ok(gateway)
    );
    assert_eq!(
        fds.resolve_routed_current(
            40,
            PicoFdRights::Write,
            ChoreoResourceKind::Gateway,
            gateway.route()
        ),
        Ok(gateway)
    );
    assert_eq!(
        fds.resolve_routed(
            40,
            gateway.generation(),
            PicoFdRights::Read,
            ChoreoResourceKind::Gateway,
            gateway.route(),
        ),
        Ok(gateway)
    );
    let mut policy_slots: hibana_pico::kernel::policy::PolicySlotTable<1> =
        hibana_pico::kernel::policy::PolicySlotTable::new();
    assert_eq!(
        fds.resolve_routed_authorized_current(
            40,
            PicoFdRights::Write,
            ChoreoResourceKind::Gateway,
            gateway.route(),
            &policy_slots,
        ),
        Err(PicoFdError::PolicyDenied)
    );
    policy_slots
        .allow(gateway.policy_slot())
        .expect("allow gateway policy slot");
    assert_eq!(
        fds.resolve_routed_authorized_current(
            40,
            PicoFdRights::Write,
            ChoreoResourceKind::Gateway,
            gateway.route(),
            &policy_slots,
        ),
        Ok(gateway)
    );
    assert_eq!(
        fds.resolve_routed_authorized(
            40,
            gateway.generation(),
            PicoFdRights::Read,
            ChoreoResourceKind::Gateway,
            gateway.route(),
            &policy_slots,
        ),
        Ok(gateway)
    );
    policy_slots
        .deny(gateway.policy_slot())
        .expect("deny gateway policy slot");
    assert_eq!(
        fds.resolve_routed_authorized_current(
            40,
            PicoFdRights::Write,
            ChoreoResourceKind::Gateway,
            gateway.route(),
            &policy_slots,
        ),
        Err(PicoFdError::PolicyDenied)
    );
    policy_slots
        .allow(gateway.policy_slot())
        .expect("re-allow gateway policy slot");
    assert_eq!(
        fds.resolve_current(40, PicoFdRights::Write, ChoreoResourceKind::Telemetry),
        Err(PicoFdError::WrongResource)
    );
    assert_eq!(
        fds.resolve_routed_current(
            40,
            PicoFdRights::Write,
            ChoreoResourceKind::Gateway,
            PicoFdRoute::new(
                gateway.target_node(),
                gateway.target_role(),
                gateway.lane(),
                gateway.route_label(),
                gateway.session_generation().wrapping_add(1),
                gateway.policy_slot(),
            )
        ),
        Err(PicoFdError::BadSessionGeneration)
    );
    assert_eq!(
        fds.resolve_routed_current(
            40,
            PicoFdRights::Write,
            ChoreoResourceKind::Gateway,
            PicoFdRoute::new(
                gateway.target_node().wrapping_add(1),
                gateway.target_role(),
                gateway.lane(),
                gateway.route_label(),
                gateway.session_generation(),
                gateway.policy_slot(),
            )
        ),
        Err(PicoFdError::BadRoute)
    );
    assert_eq!(
        fds.resolve_routed_current(
            40,
            PicoFdRights::Write,
            ChoreoResourceKind::Gateway,
            PicoFdRoute::new(
                gateway.target_node(),
                gateway.target_role(),
                gateway.lane(),
                gateway.route_label(),
                gateway.session_generation(),
                gateway.policy_slot().wrapping_add(1),
            )
        ),
        Err(PicoFdError::BadRoute)
    );
    let telemetry = fds.rejection_telemetry();
    assert_eq!(telemetry.bad_generation(), 1);
    assert_eq!(telemetry.permission_denied(), 2);
    assert_eq!(telemetry.wrong_resource(), 1);
    assert_eq!(telemetry.bad_route(), 2);
    assert_eq!(telemetry.total(), 6);
}

#[test]
fn strict_import_summary_accepts_preview1_import_section() {
    let summary = Wasip1ImportSummary::parse_strict_preview1(STRICT_PREVIEW1_IMPORT_GUEST)
        .expect("parse strict preview1 import section");
    assert_eq!(summary.import_count(), 1);
    assert_eq!(summary.preview1_import_count(), 1);
}

#[test]
fn strict_import_summary_rejects_non_preview1_import_module() {
    assert_eq!(
        Wasip1ImportSummary::parse_strict_preview1(STRICT_UNSUPPORTED_IMPORT_GUEST),
        Err(Wasip1Error::UnsupportedImport)
    );
    assert_eq!(
        Wasip1ImportSummary::parse_strict_preview1(&STRICT_PREVIEW1_IMPORT_GUEST[..8]),
        Err(Wasip1Error::MissingWasiModule)
    );
}

#[test]
fn rust_wasip1_stdout_module_is_accepted() {
    Wasip1Module::install(WASIP1_STDOUT_GUEST).expect("install module");
    let module = Wasip1StdoutModule::parse(WASIP1_STDOUT_GUEST).expect("parse module");
    let chunk = module
        .stdout_chunk_for(TEST_STDOUT_TEXT)
        .expect("stdout chunk");
    assert_eq!(chunk.as_bytes(), TEST_STDOUT_TEXT);
}

#[test]
fn rust_wasip1_stderr_module_is_accepted() {
    Wasip1Module::install(WASIP1_STDERR_GUEST).expect("install module");
    let module = Wasip1StderrModule::parse(WASIP1_STDERR_GUEST).expect("parse module");
    let chunk = module
        .stderr_chunk_for(TEST_STDERR_TEXT)
        .expect("stderr chunk");
    assert_eq!(chunk.as_bytes(), TEST_STDERR_TEXT);
}

#[test]
fn rust_wasip1_stdin_module_is_accepted() {
    Wasip1Module::install(WASIP1_STDIN_GUEST).expect("install module");
    let module = Wasip1StdinModule::parse(WASIP1_STDIN_GUEST).expect("parse module");
    let request = module
        .stdin_request_for(TEST_STDIN_MAX_LEN)
        .expect("stdin request");
    let chunk = module
        .stdin_chunk_for(TEST_STDIN_INPUT)
        .expect("stdin chunk");
    assert_eq!(request.max_len(), TEST_STDIN_MAX_LEN);
    assert_eq!(chunk.as_bytes(), TEST_STDIN_INPUT);
}

#[test]
fn rust_wasip1_clock_module_is_accepted() {
    Wasip1Module::install(WASIP1_CLOCK_GUEST).expect("install module");
    let module = Wasip1ClockModule::parse(WASIP1_CLOCK_GUEST).expect("parse module");
    let now = module.clock_now(TEST_CLOCK_NANOS);
    assert_eq!(now.nanos(), TEST_CLOCK_NANOS);
}

#[test]
fn rust_wasip1_random_module_is_accepted() {
    Wasip1Module::install(WASIP1_RANDOM_GUEST).expect("install module");
    let module = Wasip1RandomModule::parse(WASIP1_RANDOM_GUEST).expect("parse module");
    let seed = module.random_seed(TEST_RANDOM_SEED_LO, TEST_RANDOM_SEED_HI);
    assert_eq!(seed.lo(), TEST_RANDOM_SEED_LO);
    assert_eq!(seed.hi(), TEST_RANDOM_SEED_HI);
}

#[test]
fn rust_wasip1_exit_module_is_accepted() {
    Wasip1Module::install(WASIP1_EXIT_GUEST).expect("install module");
    let module = Wasip1ExitModule::parse(WASIP1_EXIT_GUEST).expect("parse module");
    assert_eq!(module.exit_status(TEST_EXIT_CODE).code(), TEST_EXIT_CODE);
}

#[test]
fn rust_wasip1_std_modules_use_static_empty_args_environment() {
    for bytes in [
        WASIP1_STDOUT_GUEST,
        WASIP1_STDERR_GUEST,
        WASIP1_STDIN_GUEST,
        WASIP1_CLOCK_GUEST,
        WASIP1_RANDOM_GUEST,
        WASIP1_EXIT_GUEST,
    ] {
        let module = Wasip1EnvironmentModule::parse(bytes).expect("parse environment module");
        assert!(module.has_environ_get());
        assert!(!module.has_args_get());

        let snapshot = module.static_snapshot();
        assert_eq!(snapshot.arg_count(), 0);
        assert_eq!(snapshot.environment_count(), 0);
        assert!(snapshot.args().is_empty());
        assert!(snapshot.environment().is_empty());
    }
}

#[test]
fn static_args_environment_snapshot_is_bounded() {
    let args = [b"hibana".as_slice(), b"pico".as_slice()];
    let environment = [(b"MODE".as_slice(), b"test".as_slice())];
    let snapshot = Wasip1StaticArgEnv::new(&args, &environment).expect("static snapshot");
    assert_eq!(snapshot.args(), &args);
    assert_eq!(snapshot.environment(), &environment);

    let too_many_args = [
        b"a".as_slice(),
        b"b".as_slice(),
        b"c".as_slice(),
        b"d".as_slice(),
        b"e".as_slice(),
    ];
    assert_eq!(
        Wasip1StaticArgEnv::new(&too_many_args, &[]),
        Err(StaticArgEnvError::TooManyArgs)
    );

    let oversized_arg = [0u8; WASIP1_STATIC_ARG_BYTES_CAPACITY + 1];
    assert_eq!(
        Wasip1StaticArgEnv::new(&[oversized_arg.as_slice()], &[]),
        Err(StaticArgEnvError::ArgsTooLarge)
    );

    let oversized_env = [0u8; WASIP1_STATIC_ENV_BYTES_CAPACITY + 1];
    assert_eq!(
        Wasip1StaticArgEnv::new(&[], &[(b"BIG".as_slice(), oversized_env.as_slice())]),
        Err(StaticArgEnvError::EnvironmentTooLarge)
    );
}

#[test]
fn environment_module_accepts_static_arguments_access() {
    let valid = b"\0asm\x01\0\0\0wasi_snapshot_preview1 args_get";
    let module = Wasip1EnvironmentModule::parse(valid).expect("parse arguments module");
    assert!(!module.has_environ_get());
    assert!(module.has_args_get());

    let missing_access = b"\0asm\x01\0\0\0wasi_snapshot_preview1";
    assert!(matches!(
        Wasip1EnvironmentModule::parse(missing_access),
        Err(Wasip1Error::MissingEnvironGetImport)
    ));
}

#[test]
fn module_install_rejects_on_unsupported_import() {
    let invalid = &[
        0, 97, 115, 109, 1, 0, 0, 0, 119, 97, 115, 105, 95, 115, 110, 97, 112, 115, 104, 111,
        116, 95, 112, 114, 101, 118, 105, 101, 119, 49, 32, 119, 97, 115, 105, 58, 115, 111,
        99, 107, 101, 116, 115, 47, 110, 101, 116, 119, 111, 114, 107, 64, 48, 46, 50, 46, 48,
    ];
    assert!(matches!(
        Wasip1Module::install(invalid),
        Err(Wasip1Error::UnsupportedImport)
    ));
}

#[test]
fn module_install_with_handler_set_rejects_disabled_syscall_import() {
    let handlers = Wasip1HandlerSet {
        fd_write: true,
        ..Wasip1HandlerSet::empty()
    };

    assert!(matches!(
        Wasip1Module::install_with_handlers(WASIP1_FULL_SUBSET_GUEST, handlers),
        Err(Wasip1Error::UnsupportedByProfile)
    ));
}

#[test]
fn module_install_with_handler_set_rejects_disabled_path_minimal_import() {
    let path_guest = b"\0asm\x01\0\0\0wasi_snapshot_preview1 fd_write path_open";
    let handlers = Wasip1HandlerSet {
        fd_write: true,
        ..Wasip1HandlerSet::empty()
    };
    assert!(matches!(
        Wasip1Module::install_with_handlers(path_guest, handlers),
        Err(Wasip1Error::UnsupportedByProfile)
    ));

    let handlers = Wasip1HandlerSet {
        fd_write: true,
        path_minimal: true,
        ..Wasip1HandlerSet::empty()
    };
    Wasip1Module::install_with_handlers(path_guest, handlers)
        .expect("path-minimal feature admits path imports for typed rejection");
}

#[test]
fn module_install_with_handler_set_rejects_disabled_path_full_import() {
    let path_guest = b"\0asm\x01\0\0\0wasi_snapshot_preview1 fd_write fd_seek";
    let handlers = Wasip1HandlerSet {
        fd_write: true,
        path_minimal: true,
        ..Wasip1HandlerSet::empty()
    };
    assert!(matches!(
        Wasip1Module::install_with_handlers(path_guest, handlers),
        Err(Wasip1Error::UnsupportedByProfile)
    ));

    let handlers = Wasip1HandlerSet {
        fd_write: true,
        path_minimal: true,
        path_full: true,
        ..Wasip1HandlerSet::empty()
    };
    Wasip1Module::install_with_handlers(path_guest, handlers)
        .expect("path-full feature admits path imports for typed rejection");
}

#[test]
fn module_install_with_handler_set_rejects_disabled_socket_import() {
    let sock_guest = b"\0asm\x01\0\0\0wasi_snapshot_preview1 fd_write sock_send";
    let handlers = Wasip1HandlerSet {
        fd_write: true,
        ..Wasip1HandlerSet::empty()
    };
    assert!(matches!(
        Wasip1Module::install_with_handlers(sock_guest, handlers),
        Err(Wasip1Error::UnsupportedByProfile)
    ));

    let handlers = Wasip1HandlerSet {
        fd_write: true,
        network_object: true,
        ..Wasip1HandlerSet::empty()
    };
    Wasip1Module::install_with_handlers(sock_guest, handlers)
        .expect("Network object feature admits P1 socket imports for typed rejection");
}

#[test]
fn module_install_with_handler_set_rejects_disabled_args_env_sizes_imports() {
    let args_guest =
        b"\0asm\x01\0\0\0wasi_snapshot_preview1 fd_write args_sizes_get environ_sizes_get";
    let handlers = Wasip1HandlerSet {
        fd_write: true,
        ..Wasip1HandlerSet::empty()
    };
    assert!(matches!(
        Wasip1Module::install_with_handlers(args_guest, handlers),
        Err(Wasip1Error::UnsupportedByProfile)
    ));

    let handlers = Wasip1HandlerSet {
        fd_write: true,
        args_env: true,
        ..Wasip1HandlerSet::empty()
    };
    Wasip1Module::install_with_handlers(args_guest, handlers)
        .expect("args/env feature admits startup size imports");
}

#[test]
fn module_install_with_handler_set_rejects_disabled_sched_yield_import() {
    let yield_guest = b"\0asm\x01\0\0\0wasi_snapshot_preview1 fd_write sched_yield";
    let handlers = Wasip1HandlerSet {
        fd_write: true,
        ..Wasip1HandlerSet::empty()
    };
    assert!(matches!(
        Wasip1Module::install_with_handlers(yield_guest, handlers),
        Err(Wasip1Error::UnsupportedByProfile)
    ));

    let handlers = Wasip1HandlerSet {
        fd_write: true,
        sched_yield: true,
        ..Wasip1HandlerSet::empty()
    };
    Wasip1Module::install_with_handlers(yield_guest, handlers)
        .expect("sched_yield feature admits typed yield syscall");
}

#[test]
fn module_install_with_handler_set_rejects_disabled_clock_res_import() {
    let clock_res_guest = b"\0asm\x01\0\0\0wasi_snapshot_preview1 fd_write clock_res_get";
    let handlers = Wasip1HandlerSet {
        fd_write: true,
        ..Wasip1HandlerSet::empty()
    };
    assert!(matches!(
        Wasip1Module::install_with_handlers(clock_res_guest, handlers),
        Err(Wasip1Error::UnsupportedByProfile)
    ));

    let handlers = Wasip1HandlerSet {
        fd_write: true,
        clock_res_get: true,
        ..Wasip1HandlerSet::empty()
    };
    Wasip1Module::install_with_handlers(clock_res_guest, handlers)
        .expect("clock_res_get feature admits typed resolution syscall");
}

#[test]
fn module_install_with_handler_set_accepts_profile_supported_imports() {
    let supported = b"\0asm\x01\0\0\0wasi_snapshot_preview1 fd_write poll_oneoff proc_exit";
    let module = Wasip1Module::install_with_handlers(supported, Wasip1HandlerSet::pico_min())
        .expect("Pico minimum profile supports fd_write + poll_oneoff + proc_exit");

    assert_eq!(module.bytes(), supported);
}

#[test]
fn full_subset_module_requires_all_p1_imports() {
    Wasip1FullSubsetModule::parse(WASIP1_FULL_SUBSET_GUEST).expect("full subset");
    let missing_clock_res = b"\0asm\x01\0\0\0wasi_snapshot_preview1 fd_write fd_read fd_fdstat_get fd_close clock_time_get poll_oneoff random_get proc_exit proc_raise sched_yield args_sizes_get args_get environ_sizes_get environ_get";
    assert!(matches!(
        Wasip1FullSubsetModule::parse(missing_clock_res),
        Err(Wasip1Error::MissingClockResGetImport)
    ));
    let missing_poll = b"\0asm\x01\0\0\0wasi_snapshot_preview1 fd_write fd_read fd_fdstat_get fd_close clock_res_get clock_time_get random_get proc_exit proc_raise sched_yield args_sizes_get args_get environ_sizes_get environ_get";
    assert!(matches!(
        Wasip1FullSubsetModule::parse(missing_poll),
        Err(Wasip1Error::MissingPollOneoffImport)
    ));
    let missing_proc_raise = b"\0asm\x01\0\0\0wasi_snapshot_preview1 fd_write fd_read fd_fdstat_get fd_close clock_res_get clock_time_get poll_oneoff random_get proc_exit sched_yield args_sizes_get args_get environ_sizes_get environ_get";
    assert!(matches!(
        Wasip1FullSubsetModule::parse(missing_proc_raise),
        Err(Wasip1Error::MissingProcRaiseImport)
    ));
    let missing_sched_yield = b"\0asm\x01\0\0\0wasi_snapshot_preview1 fd_write fd_read fd_fdstat_get fd_close clock_res_get clock_time_get poll_oneoff random_get proc_exit proc_raise args_sizes_get args_get environ_sizes_get environ_get";
    assert!(matches!(
        Wasip1FullSubsetModule::parse(missing_sched_yield),
        Err(Wasip1Error::MissingSchedYieldImport)
    ));
    let missing_args_sizes = b"\0asm\x01\0\0\0wasi_snapshot_preview1 fd_write fd_read fd_fdstat_get fd_close clock_res_get clock_time_get poll_oneoff random_get proc_exit proc_raise sched_yield args_get environ_sizes_get environ_get";
    assert!(matches!(
        Wasip1FullSubsetModule::parse(missing_args_sizes),
        Err(Wasip1Error::MissingArgsSizesGetImport)
    ));
    let missing_environ_sizes = b"\0asm\x01\0\0\0wasi_snapshot_preview1 fd_write fd_read fd_fdstat_get fd_close clock_res_get clock_time_get poll_oneoff random_get proc_exit proc_raise sched_yield args_sizes_get args_get environ_get";
    assert!(matches!(
        Wasip1FullSubsetModule::parse(missing_environ_sizes),
        Err(Wasip1Error::MissingEnvironSizesGetImport)
    ));
    let missing_path = b"\0asm\x01\0\0\0wasi_snapshot_preview1 fd_write fd_read fd_fdstat_get fd_close clock_res_get clock_time_get poll_oneoff random_get proc_exit proc_raise sched_yield args_sizes_get args_get environ_sizes_get environ_get";
    assert!(matches!(
        Wasip1FullSubsetModule::parse(missing_path),
        Err(Wasip1Error::MissingPathMinimalImport)
    ));
    let missing_path_full = b"\0asm\x01\0\0\0wasi_snapshot_preview1 fd_write fd_read fd_fdstat_get fd_close clock_res_get clock_time_get poll_oneoff random_get proc_exit proc_raise sched_yield args_sizes_get args_get environ_sizes_get environ_get fd_prestat_get fd_prestat_dir_name fd_filestat_get fd_readdir path_open path_filestat_get path_readlink path_create_directory path_remove_directory path_unlink_file path_rename";
    assert!(matches!(
        Wasip1FullSubsetModule::parse(missing_path_full),
        Err(Wasip1Error::MissingPathFullImport)
    ));
    let missing_socket = b"\0asm\x01\0\0\0wasi_snapshot_preview1 fd_write fd_read fd_fdstat_get fd_close clock_res_get clock_time_get poll_oneoff random_get proc_exit proc_raise sched_yield args_sizes_get args_get environ_sizes_get environ_get fd_prestat_get fd_prestat_dir_name fd_filestat_get fd_readdir path_open path_filestat_get path_readlink path_create_directory path_remove_directory path_unlink_file path_rename fd_advise fd_allocate fd_datasync fd_fdstat_set_flags fd_fdstat_set_rights fd_filestat_set_size fd_filestat_set_times fd_pread fd_pwrite fd_renumber fd_seek fd_sync fd_tell path_filestat_set_times path_link path_symlink";
    assert!(matches!(
        Wasip1FullSubsetModule::parse(missing_socket),
        Err(Wasip1Error::MissingSocketImport)
    ));
}

#[test]
fn memory_lease_table_validates_read_stream_transfer() {
    let mut table: MemoryLeaseTable<2> = MemoryLeaseTable::new(4096, 9);
    let borrow = MemBorrow::new(1024, 21, 9);
    let grant = table.grant_read(borrow).expect("grant read");
    assert_eq!(grant.rights(), MemRights::Read);

    let chunk = StdoutChunk::new_with_lease(grant.lease_id(), TEST_STDOUT_TEXT)
        .expect("leased stdout chunk");
    table.validate_read_chunk(&chunk).expect("valid read chunk");

    let oversized = StdoutChunk::new_with_lease(grant.lease_id(), b"0123456789012345678901")
        .expect("oversized chunk for lease");
    assert_eq!(
        table.validate_read_chunk(&oversized),
        Err(MemoryLeaseError::LengthExceeded)
    );

    let wrong_lease = chunk.with_lease(grant.lease_id() + 1);
    assert_eq!(
        table.validate_read_chunk(&wrong_lease),
        Err(MemoryLeaseError::UnknownLease)
    );

    let release = MemRelease::new(grant.lease_id());
    table.release(release).expect("release lease");
    assert_eq!(
        table.validate_read_chunk(&chunk),
        Err(MemoryLeaseError::UnknownLease)
    );

    let next = table
        .grant_read(MemBorrow::new(1024, 21, 9))
        .expect("grant next read");
    assert_eq!(next.lease_id(), grant.lease_id());
    let telemetry = table.rejection_telemetry();
    assert_eq!(telemetry.invalid_lease(), 2);
    assert_eq!(telemetry.length_exceeded(), 1);
    assert_eq!(telemetry.total(), 3);
}

#[test]
fn memory_lease_table_validates_write_stream_transfer() {
    let mut table: MemoryLeaseTable<2> = MemoryLeaseTable::new(4096, 4);
    let grant = table
        .grant_write(MemBorrow::new(2048, 24, 4))
        .expect("grant write");
    let request = StdinRequest::new_with_lease(grant.lease_id(), 24).expect("stdin request");
    table
        .validate_write_request(&request)
        .expect("valid write request");

    let chunk = hibana_pico::choreography::protocol::StdinChunk::new_with_lease(
        grant.lease_id(),
        TEST_STDIN_INPUT,
    )
    .expect("stdin chunk");
    table
        .validate_write_chunk(&chunk)
        .expect("valid write chunk");
    table
        .commit(MemCommit::new(grant.lease_id(), chunk.len() as u8))
        .expect("commit");

    let too_much = StdinRequest::new_with_lease(grant.lease_id(), 25).expect("request");
    assert_eq!(
        table.validate_write_request(&too_much),
        Err(MemoryLeaseError::LengthExceeded)
    );
    let telemetry = table.rejection_telemetry();
    assert_eq!(telemetry.length_exceeded(), 1);
    assert_eq!(telemetry.total(), 1);
}

#[test]
fn memory_lease_table_rejects_invalid_borrows() {
    let mut table: MemoryLeaseTable<1> = MemoryLeaseTable::new(64, 1);
    assert_eq!(
        table.grant_read(MemBorrow::new(0, 0, 1)),
        Err(MemoryLeaseError::Empty)
    );
    assert_eq!(
        table.grant_read(MemBorrow::new(0, 4, 2)),
        Err(MemoryLeaseError::EpochMismatch)
    );
    assert_eq!(
        table.grant_read(MemBorrow::new(60, 8, 1)),
        Err(MemoryLeaseError::OutOfBounds)
    );

    let grant = table
        .grant_read(MemBorrow::new(0, 4, 1))
        .expect("grant read");
    assert_eq!(
        table.commit(MemCommit::new(grant.lease_id(), 1)),
        Err(MemoryLeaseError::RightsMismatch)
    );
    assert_eq!(
        table.grant_read(MemBorrow::new(8, 4, 1)),
        Err(MemoryLeaseError::TableFull)
    );
    let telemetry = table.rejection_telemetry();
    assert_eq!(telemetry.bad_generation(), 1);
    assert_eq!(telemetry.rights_mismatch(), 1);
    assert_eq!(telemetry.out_of_bounds(), 1);
    assert_eq!(telemetry.table_full(), 1);
    assert_eq!(telemetry.other(), 1);
    assert_eq!(telemetry.total(), 5);
}

#[test]
fn memory_lease_table_fence_revokes_outstanding_leases_and_bumps_epoch() {
    let mut table: MemoryLeaseTable<2> = MemoryLeaseTable::new(4096, 1);
    let grant = table
        .grant_read(MemBorrow::new(1024, 21, 1))
        .expect("grant read");
    let chunk =
        StdoutChunk::new_with_lease(grant.lease_id(), TEST_STDOUT_TEXT).expect("leased chunk");
    table
        .validate_read_chunk(&chunk)
        .expect("valid before fence");
    assert!(table.has_outstanding_leases());

    table.fence(MemFence::new(MemFenceReason::HotSwap, 2));
    assert_eq!(table.epoch(), 2);
    assert!(!table.has_outstanding_leases());
    assert_eq!(
        table.validate_read_chunk(&chunk),
        Err(MemoryLeaseError::UnknownLease)
    );
    assert_eq!(
        table.grant_read(MemBorrow::new(1024, 21, 1)),
        Err(MemoryLeaseError::EpochMismatch)
    );
    table
        .grant_read(MemBorrow::new(1024, 21, 2))
        .expect("grant after fence");
    let telemetry = table.rejection_telemetry();
    assert_eq!(telemetry.bad_generation(), 1);
    assert_eq!(telemetry.invalid_lease(), 1);
    assert_eq!(telemetry.total(), 2);
}

#[test]
fn memory_lease_table_memory_grow_fence_rejects_stale_read_write_and_old_epoch() {
    let mut table: MemoryLeaseTable<2> = MemoryLeaseTable::new(4096, 1);
    let read_grant = table
        .grant_read(MemBorrow::new(1024, 21, 1))
        .expect("grant read before memory grow");
    let write_grant = table
        .grant_write(MemBorrow::new(2048, 8, 1))
        .expect("grant write before memory grow");
    let read_chunk = StdoutChunk::new_with_lease(read_grant.lease_id(), TEST_STDOUT_TEXT)
        .expect("leased stdout before memory grow");
    table
        .validate_read_chunk(&read_chunk)
        .expect("read lease is valid before memory grow");

    table.fence(MemFence::new(MemFenceReason::MemoryGrow, 2));
    assert_eq!(table.epoch(), 2);
    assert!(!table.has_outstanding_leases());
    assert_eq!(
        table.validate_read_chunk(&read_chunk),
        Err(MemoryLeaseError::UnknownLease)
    );
    assert_eq!(
        table.commit(MemCommit::new(write_grant.lease_id(), 1)),
        Err(MemoryLeaseError::UnknownLease)
    );
    assert_eq!(
        table.release(MemRelease::new(read_grant.lease_id())),
        Err(MemoryLeaseError::UnknownLease)
    );
    assert_eq!(
        table.grant_read(MemBorrow::new(1024, 21, 1)),
        Err(MemoryLeaseError::EpochMismatch)
    );
    table
        .grant_read(MemBorrow::new(1024, 21, 2))
        .expect("new epoch read lease after memory grow");
    let telemetry = table.rejection_telemetry();
    assert_eq!(telemetry.bad_generation(), 1);
    assert_eq!(telemetry.invalid_lease(), 3);
    assert_eq!(telemetry.total(), 4);
}

#[test]
fn wasm32_wasip1_stale_memory_lease_smoke_rejects() {
    let mut table: MemoryLeaseTable<2> = MemoryLeaseTable::new(4096, 7);
    let grant = table
        .grant_read(MemBorrow::new(1024, 21, 7))
        .expect("grant read");
    let chunk =
        StdoutChunk::new_with_lease(grant.lease_id(), TEST_STDOUT_TEXT).expect("leased stdout");

    table
        .release(MemRelease::new(grant.lease_id()))
        .expect("release lease");
    assert_eq!(
        table.validate_read_chunk(&chunk),
        Err(MemoryLeaseError::UnknownLease)
    );

    let new_grant = table
        .grant_read(MemBorrow::new(1024, 21, 7))
        .expect("grant reused id");
    table.fence(MemFence::new(MemFenceReason::HotSwap, 8));
    assert_eq!(
        table.release(MemRelease::new(new_grant.lease_id())),
        Err(MemoryLeaseError::UnknownLease)
    );
    assert_eq!(
        table.grant_read(MemBorrow::new(1024, 21, 7)),
        Err(MemoryLeaseError::EpochMismatch)
    );
    let telemetry = table.rejection_telemetry();
    assert_eq!(telemetry.bad_generation(), 1);
    assert_eq!(telemetry.invalid_lease(), 2);
    assert_eq!(telemetry.total(), 3);
}

#[test]
fn module_validation_rejects_without_stdout_import() {
    let mut invalid = *b"\0asm\x01\0\0\0wasi_snapshot_preview1 fd_read";
    assert!(matches!(
        Wasip1StdoutModule::parse(&invalid),
        Err(Wasip1Error::MissingFdWriteImport)
    ));
    invalid[0] = 1;
    assert!(matches!(
        Wasip1StdoutModule::parse(&invalid),
        Err(Wasip1Error::InvalidModule)
    ));
}

#[test]
fn module_validation_rejects_without_stderr_import() {
    let invalid = b"\0asm\x01\0\0\0wasi_snapshot_preview1 fd_read";
    assert!(matches!(
        Wasip1StderrModule::parse(invalid),
        Err(Wasip1Error::MissingFdWriteImport)
    ));
}

#[test]
fn module_validation_rejects_without_stdin_import() {
    let invalid = b"\0asm\x01\0\0\0wasi_snapshot_preview1 fd_write";
    assert!(matches!(
        Wasip1StdinModule::parse(invalid),
        Err(Wasip1Error::MissingFdReadImport)
    ));
}

#[test]
fn module_validation_rejects_without_wall_clock_import() {
    let invalid = b"\0asm\x01\0\0\0wasi_snapshot_preview1";
    assert!(matches!(
        Wasip1ClockModule::parse(invalid),
        Err(Wasip1Error::MissingClockTimeGetImport)
    ));
}

#[test]
fn module_validation_rejects_without_random_seed_import() {
    let invalid = b"\0asm\x01\0\0\0wasi_snapshot_preview1";
    assert!(matches!(
        Wasip1RandomModule::parse(invalid),
        Err(Wasip1Error::MissingRandomGetImport)
    ));
}

#[test]
fn module_validation_rejects_without_exit_import() {
    let invalid = b"\0asm\x01\0\0\0wasi_snapshot_preview1";
    assert!(matches!(
        Wasip1ExitModule::parse(invalid),
        Err(Wasip1Error::MissingProcExitImport)
    ));
}

#[test]
fn module_validation_rejects_without_environment_import() {
    let invalid = b"\0asm\x01\0\0\0wasi_snapshot_preview1 fd_write";
    assert!(matches!(
        Wasip1EnvironmentModule::parse(invalid),
        Err(Wasip1Error::MissingEnvironGetImport)
    ));
}
