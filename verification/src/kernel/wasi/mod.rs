//! WASI P1 control state: the fd view, memory leases, static arguments and module admission.
mod args;
mod fd_view;
mod lease;
mod module;
mod scan;
pub mod host_runner;
pub use args::{WASIP1_STATIC_ARGS_CAPACITY, WASIP1_STATIC_ENV_CAPACITY, WASIP1_STATIC_ARG_BYTES_CAPACITY, WASIP1_STATIC_ENV_BYTES_CAPACITY, StaticArgEnvError, arg_bytes, env_bytes, spec_static_arg_env, StaticArgEnvSnapshot, Wasip1StaticArgEnv};
pub use fd_view::{PicoFdError, PicoFdRejectionTelemetry, PicoFdRights, ChoreoResourceKind, PicoFdViewSource, PicoFdRoute, PicoFdMaterializedView, PicoFdGrant, PicoFdControl, PicoFdViewEntry, next_generation_after, generation_after, fd_slot, empty_fd_slot, live_fd_slot, fd_is_live, find_fd, validate_entry, validate_entry_route, spec_resolve, spec_resolve_current, routed, fd_telemetry_after, spec_materialize, spec_close, spec_restrict, spec_revoke, spec_apply_control, fenced_slot, PicoFdView};
pub use lease::{MemoryLeaseError, MemoryLeaseRejectionTelemetry, lease_slot, empty_lease_slot, held_lease_slot, lease_id_in_use, free_lease_id_from, spec_get_lease, spec_check_lease, spec_grant, lease_telemetry_after, MemoryLeaseTable};
pub use module::{Wasip1Error, import_bytes, module_name_bytes, wasm_header, disallowed_prefix, disallowed_suffix, spec_header, spec_require, then, spec_validate_module, spec_supported_import_set, spec_imports_against_handlers, spec_require_group, spec_install, spec_install_with_handlers, full_subset_required, spec_require_all, spec_full_subset_imports, Wasip1Module, Wasip1FullSubsetModule, Wasip1FdWriteModule, Wasip1LedBlinkModule, Wasip1StdoutModule, Wasip1StderrModule, Wasip1StdinModule, Wasip1ClockModule, Wasip1RandomModule, Wasip1ExitModule, Wasip1EnvironmentModule, spec_chunk_for, Wasip1ImportSummary, scan_error, sp_u8, sp_var, sp_skip, sp_name, sp_limits, sp_descriptor, sp_entry, sp_entries, spec_import_entries, spec_sections, spec_parse_strict_preview1};
pub use scan::{bytes_equal, bytes_at, find_bytes_from, spec_find_bytes, contains_bytes, lemma_find_bytes_from, find_bytes, spec_var_u32, lemma_var_u32_advances, ScanError, WasmByteReader};
