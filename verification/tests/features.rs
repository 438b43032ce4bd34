use hibana_pico::kernel::features::{
    FeatureMatrix, Wasip1ControlCapacity, Wasip1HandlerSet, Wasip1ImportName, Wasip1Syscall, WasmEngineProfile,
    wasip1_preview1_imports,
};

#[test]
fn pico_min_profile_has_only_the_small_wasi_surface() {
    let handlers = Wasip1HandlerSet::pico_min();

    assert!(handlers.supports(Wasip1Syscall::FdWrite));
    assert!(handlers.supports(Wasip1Syscall::PollOneoff));
    assert!(handlers.supports(Wasip1Syscall::ProcExit));
    assert!(!handlers.supports(Wasip1Syscall::ProcRaise));
    assert!(!handlers.supports(Wasip1Syscall::FdRead));
    assert!(!handlers.supports(Wasip1Syscall::RandomGet));
    assert!(!handlers.is_fullish());
}

#[test]
fn core_wasm_engine_profile_does_not_imply_wasi_syscalls() {
    let matrix = FeatureMatrix {
        profiles: Default::default(),
        engine: WasmEngineProfile::Core,
        wasip1_handlers: Wasip1HandlerSet::empty(),
        wasip1_control: Wasip1ControlCapacity::full(),
    };

    assert!(matrix.engine.can_run_core_wasip1());
    assert!(!matrix.wasip1_handlers.supports(Wasip1Syscall::ProcExit));
    assert!(!matrix.wasip1_handlers.supports(Wasip1Syscall::FdWrite));
    assert!(!matrix.can_claim_wasip1_profile());
}

#[test]
fn full_profile_requires_engine_handlers_and_common_control_capacity() {
    let matrix = FeatureMatrix {
        profiles: Default::default(),
        engine: WasmEngineProfile::Wasip1Full,
        wasip1_handlers: Wasip1HandlerSet::full(),
        wasip1_control: Wasip1ControlCapacity::full(),
    };

    assert!(matrix.can_claim_wasip1_profile());
    assert!(matrix.can_claim_full_ordinary_std());
}

#[test]
fn every_preview1_import_name_parses_back_to_itself() {
    let imports = wasip1_preview1_imports();
    assert!(!imports.is_empty());
    for import in imports {
        assert_eq!(Wasip1ImportName::from_bytes(import.name().as_bytes()), Some(import));
    }
    assert_eq!(Wasip1ImportName::from_bytes(b"not_an_import"), None);
}

#[test]
fn fd_write_import_is_the_fd_write_syscall() {
    let import = Wasip1ImportName::from_bytes(b"fd_write").expect("known import");
    assert_eq!(import.name(), "fd_write");
    assert_eq!(import.syscall(), Wasip1Syscall::FdWrite);
}

#[test]
fn the_active_engine_is_the_core_engine() {
    assert_eq!(WasmEngineProfile::active(), WasmEngineProfile::Core);
    assert_eq!(FeatureMatrix::active().engine, WasmEngineProfile::Core);
}

#[test]
fn handler_counts_match_the_groups_supported() {
    let all = [
        Wasip1Syscall::ArgsEnv, Wasip1Syscall::FdWrite, Wasip1Syscall::FdRead, Wasip1Syscall::FdFdstatGet,
        Wasip1Syscall::FdClose, Wasip1Syscall::ClockResGet, Wasip1Syscall::ClockTimeGet, Wasip1Syscall::PollOneoff,
        Wasip1Syscall::RandomGet, Wasip1Syscall::ProcExit, Wasip1Syscall::ProcRaise, Wasip1Syscall::SchedYield,
        Wasip1Syscall::PathMinimal, Wasip1Syscall::PathFull, Wasip1Syscall::NetworkObject,
    ];
    for handlers in [Wasip1HandlerSet::empty(), Wasip1HandlerSet::pico_min(), Wasip1HandlerSet::full()] {
        let supported = all.iter().filter(|s| handlers.supports(**s)).count();
        assert_eq!(handlers.implemented_count(), supported);
        assert_eq!(handlers.is_fullish(), supported == 15);
    }
    assert_eq!(Wasip1HandlerSet::empty().implemented_count(), 0);
    assert_eq!(Wasip1HandlerSet::pico_min().implemented_count(), 3);
    assert!(Wasip1HandlerSet::full().is_fullish());
}

#[test]
fn import_names_are_distinct_and_exact() {
    let imports = wasip1_preview1_imports();
    assert_eq!(imports.len(), 46);
    for (i, a) in imports.iter().enumerate() {
        for b in imports.iter().skip(i + 1) {
            assert_ne!(a.name(), b.name());
        }
    }
    assert_eq!(Wasip1ImportName::from_bytes(b"fd_writ"), None);
    assert_eq!(Wasip1ImportName::from_bytes(b"wasi_snapshot_preview1"), None);
}
