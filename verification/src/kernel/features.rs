//! Build profiles: which Wasm engine and which WASI P1 handlers a build carries,
//! and the table of WASI Preview 1 imports with the syscall group each belongs to.
use vstd::prelude::*;
use vstd::string::*;
use crate::seqs::{count, count_upto};

verus! {

/// The Wasm engine a build carries.
#[derive(Clone, Copy, Debug, PartialEq, Eq, Structural)]
pub enum WasmEngineProfile {
    NoEngine,
    Tiny,
    /// Core Wasm execution capacity only; it implies no WASI P1 syscall handler.
    Core,
    Wasip1StdProfile,
    Wasip1Full,
}

impl WasmEngineProfile {
    /// The engine of this build: the feature matrix is built with the core engine and with no
    /// larger engine profile, so the core engine.
    pub fn active() -> (out: Self)
        ensures
            out == WasmEngineProfile::Core,
    {
        WasmEngineProfile::Core
    }

    pub open spec fn spec_can_run_ordinary_wasip1_std(self) -> bool {
        self is Wasip1Full
    }

    #[verifier::when_used_as_spec(spec_can_run_ordinary_wasip1_std)]
    pub fn can_run_ordinary_wasip1_std(self) -> (out: bool)
        ensures
            out == self.spec_can_run_ordinary_wasip1_std(),
    {
        matches!(self, WasmEngineProfile::Wasip1Full)
    }

    pub open spec fn spec_can_run_core_wasip1(self) -> bool {
        self is Core || self is Wasip1StdProfile || self is Wasip1Full
    }

    #[verifier::when_used_as_spec(spec_can_run_core_wasip1)]
    pub fn can_run_core_wasip1(self) -> (out: bool)
        ensures
            out == self.spec_can_run_core_wasip1(),
    {
        matches!(self, WasmEngineProfile::Core | WasmEngineProfile::Wasip1StdProfile | WasmEngineProfile::Wasip1Full)
    }
}

/// The syscall groups a WASI P1 handler set can support.
#[derive(Clone, Copy, Debug, PartialEq, Eq, Structural)]
pub enum Wasip1Syscall {
    ArgsEnv,
    FdWrite,
    FdRead,
    FdFdstatGet,
    FdClose,
    ClockResGet,
    ClockTimeGet,
    PollOneoff,
    RandomGet,
    ProcExit,
    ProcRaise,
    SchedYield,
    PathMinimal,
    PathFull,
    NetworkObject,
}

/// How an import is answered when its handler group is present.
#[derive(Clone, Copy, Debug, PartialEq, Eq, Structural)]
pub enum Wasip1ImportDisposition {
    Supported,
    TypedEnosys,
    TypedReject,
}

/// How an import is answered under a given handler set.
#[derive(Clone, Copy, Debug, PartialEq, Eq, Structural)]
pub enum Wasip1ImportEffectiveDisposition {
    Supported,
    TypedEnosys,
    TypedReject,
    UnsupportedByProfile,
}

/// The import module name of WASI Preview 1.
pub const WASIP1_PREVIEW1_MODULE: &'static str = "wasi_snapshot_preview1";

/// Every WASI Preview 1 import.
#[derive(Clone, Copy, Debug, PartialEq, Eq, Structural)]
pub enum Wasip1ImportName {
    ArgsGet,
    ArgsSizesGet,
    ClockResGet,
    ClockTimeGet,
    EnvironGet,
    EnvironSizesGet,
    FdAdvise,
    FdAllocate,
    FdClose,
    FdDatasync,
    FdFdstatGet,
    FdFdstatSetFlags,
    FdFdstatSetRights,
    FdFilestatGet,
    FdFilestatSetSize,
    FdFilestatSetTimes,
    FdPread,
    FdPrestatDirName,
    FdPrestatGet,
    FdPwrite,
    FdRead,
    FdReaddir,
    FdRenumber,
    FdSeek,
    FdSync,
    FdTell,
    FdWrite,
    PathCreateDirectory,
    PathFilestatGet,
    PathFilestatSetTimes,
    PathLink,
    PathOpen,
    PathReadlink,
    PathRemoveDirectory,
    PathRename,
    PathSymlink,
    PathUnlinkFile,
    PollOneoff,
    ProcExit,
    ProcRaise,
    RandomGet,
    SchedYield,
    SockAccept,
    SockRecv,
    SockSend,
    SockShutdown,
}

impl Wasip1ImportName {
    pub open spec fn spec_name(self) -> &'static str {
        match self {
            Wasip1ImportName::ArgsGet => "args_get",
            Wasip1ImportName::ArgsSizesGet => "args_sizes_get",
            Wasip1ImportName::ClockResGet => "clock_res_get",
            Wasip1ImportName::ClockTimeGet => "clock_time_get",
            Wasip1ImportName::EnvironGet => "environ_get",
            Wasip1ImportName::EnvironSizesGet => "environ_sizes_get",
            Wasip1ImportName::FdAdvise => "fd_advise",
            Wasip1ImportName::FdAllocate => "fd_allocate",
            Wasip1ImportName::FdClose => "fd_close",
            Wasip1ImportName::FdDatasync => "fd_datasync",
            Wasip1ImportName::FdFdstatGet => "fd_fdstat_get",
            Wasip1ImportName::FdFdstatSetFlags => "fd_fdstat_set_flags",
            Wasip1ImportName::FdFdstatSetRights => "fd_fdstat_set_rights",
            Wasip1ImportName::FdFilestatGet => "fd_filestat_get",
            Wasip1ImportName::FdFilestatSetSize => "fd_filestat_set_size",
            Wasip1ImportName::FdFilestatSetTimes => "fd_filestat_set_times",
            Wasip1ImportName::FdPread => "fd_pread",
            Wasip1ImportName::FdPrestatDirName => "fd_prestat_dir_name",
            Wasip1ImportName::FdPrestatGet => "fd_prestat_get",
            Wasip1ImportName::FdPwrite => "fd_pwrite",
            Wasip1ImportName::FdRead => "fd_read",
            Wasip1ImportName::FdReaddir => "fd_readdir",
            Wasip1ImportName::FdRenumber => "fd_renumber",
            Wasip1ImportName::FdSeek => "fd_seek",
            Wasip1ImportName::FdSync => "fd_sync",
            Wasip1ImportName::FdTell => "fd_tell",
            Wasip1ImportName::FdWrite => "fd_write",
            Wasip1ImportName::PathCreateDirectory => "path_create_directory",
            Wasip1ImportName::PathFilestatGet => "path_filestat_get",
            Wasip1ImportName::PathFilestatSetTimes => "path_filestat_set_times",
            Wasip1ImportName::PathLink => "path_link",
            Wasip1ImportName::PathOpen => "path_open",
            Wasip1ImportName::PathReadlink => "path_readlink",
            Wasip1ImportName::PathRemoveDirectory => "path_remove_directory",
            Wasip1ImportName::PathRename => "path_rename",
            Wasip1ImportName::PathSymlink => "path_symlink",
            Wasip1ImportName::PathUnlinkFile => "path_unlink_file",
            Wasip1ImportName::PollOneoff => "poll_oneoff",
            Wasip1ImportName::ProcExit => "proc_exit",
            Wasip1ImportName::ProcRaise => "proc_raise",
            Wasip1ImportName::RandomGet => "random_get",
            Wasip1ImportName::SchedYield => "sched_yield",
            Wasip1ImportName::SockAccept => "sock_accept",
            Wasip1ImportName::SockRecv => "sock_recv",
            Wasip1ImportName::SockSend => "sock_send",
            Wasip1ImportName::SockShutdown => "sock_shutdown",
        }
    }

    /// The import's field name.
    #[verifier::when_used_as_spec(spec_name)]
    pub fn name(self) -> (out: &'static str)
        ensures
            out@ == self.spec_name()@,
    {
        match self {
            Wasip1ImportName::ArgsGet => "args_get",
            Wasip1ImportName::ArgsSizesGet => "args_sizes_get",
            Wasip1ImportName::ClockResGet => "clock_res_get",
            Wasip1ImportName::ClockTimeGet => "clock_time_get",
            Wasip1ImportName::EnvironGet => "environ_get",
            Wasip1ImportName::EnvironSizesGet => "environ_sizes_get",
            Wasip1ImportName::FdAdvise => "fd_advise",
            Wasip1ImportName::FdAllocate => "fd_allocate",
            Wasip1ImportName::FdClose => "fd_close",
            Wasip1ImportName::FdDatasync => "fd_datasync",
            Wasip1ImportName::FdFdstatGet => "fd_fdstat_get",
            Wasip1ImportName::FdFdstatSetFlags => "fd_fdstat_set_flags",
            Wasip1ImportName::FdFdstatSetRights => "fd_fdstat_set_rights",
            Wasip1ImportName::FdFilestatGet => "fd_filestat_get",
            Wasip1ImportName::FdFilestatSetSize => "fd_filestat_set_size",
            Wasip1ImportName::FdFilestatSetTimes => "fd_filestat_set_times",
            Wasip1ImportName::FdPread => "fd_pread",
            Wasip1ImportName::FdPrestatDirName => "fd_prestat_dir_name",
            Wasip1ImportName::FdPrestatGet => "fd_prestat_get",
            Wasip1ImportName::FdPwrite => "fd_pwrite",
            Wasip1ImportName::FdRead => "fd_read",
            Wasip1ImportName::FdReaddir => "fd_readdir",
            Wasip1ImportName::FdRenumber => "fd_renumber",
            Wasip1ImportName::FdSeek => "fd_seek",
            Wasip1ImportName::FdSync => "fd_sync",
            Wasip1ImportName::FdTell => "fd_tell",
            Wasip1ImportName::FdWrite => "fd_write",
            Wasip1ImportName::PathCreateDirectory => "path_create_directory",
            Wasip1ImportName::PathFilestatGet => "path_filestat_get",
            Wasip1ImportName::PathFilestatSetTimes => "path_filestat_set_times",
            Wasip1ImportName::PathLink => "path_link",
            Wasip1ImportName::PathOpen => "path_open",
            Wasip1ImportName::PathReadlink => "path_readlink",
            Wasip1ImportName::PathRemoveDirectory => "path_remove_directory",
            Wasip1ImportName::PathRename => "path_rename",
            Wasip1ImportName::PathSymlink => "path_symlink",
            Wasip1ImportName::PathUnlinkFile => "path_unlink_file",
            Wasip1ImportName::PollOneoff => "poll_oneoff",
            Wasip1ImportName::ProcExit => "proc_exit",
            Wasip1ImportName::ProcRaise => "proc_raise",
            Wasip1ImportName::RandomGet => "random_get",
            Wasip1ImportName::SchedYield => "sched_yield",
            Wasip1ImportName::SockAccept => "sock_accept",
            Wasip1ImportName::SockRecv => "sock_recv",
            Wasip1ImportName::SockSend => "sock_send",
            Wasip1ImportName::SockShutdown => "sock_shutdown",
        }
    }

    pub open spec fn spec_syscall(self) -> Wasip1Syscall {
        match self {
            Wasip1ImportName::ArgsGet => Wasip1Syscall::ArgsEnv,
            Wasip1ImportName::ArgsSizesGet => Wasip1Syscall::ArgsEnv,
            Wasip1ImportName::ClockResGet => Wasip1Syscall::ClockResGet,
            Wasip1ImportName::ClockTimeGet => Wasip1Syscall::ClockTimeGet,
            Wasip1ImportName::EnvironGet => Wasip1Syscall::ArgsEnv,
            Wasip1ImportName::EnvironSizesGet => Wasip1Syscall::ArgsEnv,
            Wasip1ImportName::FdAdvise => Wasip1Syscall::PathFull,
            Wasip1ImportName::FdAllocate => Wasip1Syscall::PathFull,
            Wasip1ImportName::FdClose => Wasip1Syscall::FdClose,
            Wasip1ImportName::FdDatasync => Wasip1Syscall::PathFull,
            Wasip1ImportName::FdFdstatGet => Wasip1Syscall::FdFdstatGet,
            Wasip1ImportName::FdFdstatSetFlags => Wasip1Syscall::PathFull,
            Wasip1ImportName::FdFdstatSetRights => Wasip1Syscall::PathFull,
            Wasip1ImportName::FdFilestatGet => Wasip1Syscall::PathMinimal,
            Wasip1ImportName::FdFilestatSetSize => Wasip1Syscall::PathFull,
            Wasip1ImportName::FdFilestatSetTimes => Wasip1Syscall::PathFull,
            Wasip1ImportName::FdPread => Wasip1Syscall::PathFull,
            Wasip1ImportName::FdPrestatDirName => Wasip1Syscall::PathMinimal,
            Wasip1ImportName::FdPrestatGet => Wasip1Syscall::PathMinimal,
            Wasip1ImportName::FdPwrite => Wasip1Syscall::PathFull,
            Wasip1ImportName::FdRead => Wasip1Syscall::FdRead,
            Wasip1ImportName::FdReaddir => Wasip1Syscall::PathMinimal,
            Wasip1ImportName::FdRenumber => Wasip1Syscall::PathFull,
            Wasip1ImportName::FdSeek => Wasip1Syscall::PathFull,
            Wasip1ImportName::FdSync => Wasip1Syscall::PathFull,
            Wasip1ImportName::FdTell => Wasip1Syscall::PathFull,
            Wasip1ImportName::FdWrite => Wasip1Syscall::FdWrite,
            Wasip1ImportName::PathCreateDirectory => Wasip1Syscall::PathMinimal,
            Wasip1ImportName::PathFilestatGet => Wasip1Syscall::PathMinimal,
            Wasip1ImportName::PathFilestatSetTimes => Wasip1Syscall::PathFull,
            Wasip1ImportName::PathLink => Wasip1Syscall::PathFull,
            Wasip1ImportName::PathOpen => Wasip1Syscall::PathMinimal,
            Wasip1ImportName::PathReadlink => Wasip1Syscall::PathMinimal,
            Wasip1ImportName::PathRemoveDirectory => Wasip1Syscall::PathMinimal,
            Wasip1ImportName::PathRename => Wasip1Syscall::PathMinimal,
            Wasip1ImportName::PathSymlink => Wasip1Syscall::PathFull,
            Wasip1ImportName::PathUnlinkFile => Wasip1Syscall::PathMinimal,
            Wasip1ImportName::PollOneoff => Wasip1Syscall::PollOneoff,
            Wasip1ImportName::ProcExit => Wasip1Syscall::ProcExit,
            Wasip1ImportName::ProcRaise => Wasip1Syscall::ProcRaise,
            Wasip1ImportName::RandomGet => Wasip1Syscall::RandomGet,
            Wasip1ImportName::SchedYield => Wasip1Syscall::SchedYield,
            Wasip1ImportName::SockAccept => Wasip1Syscall::NetworkObject,
            Wasip1ImportName::SockRecv => Wasip1Syscall::NetworkObject,
            Wasip1ImportName::SockSend => Wasip1Syscall::NetworkObject,
            Wasip1ImportName::SockShutdown => Wasip1Syscall::NetworkObject,
        }
    }

    /// The handler group that serves the import.
    #[verifier::when_used_as_spec(spec_syscall)]
    pub fn syscall(self) -> (out: Wasip1Syscall)
        ensures
            out == self.spec_syscall(),
    {
        match self {
            Wasip1ImportName::ArgsGet => Wasip1Syscall::ArgsEnv,
            Wasip1ImportName::ArgsSizesGet => Wasip1Syscall::ArgsEnv,
            Wasip1ImportName::ClockResGet => Wasip1Syscall::ClockResGet,
            Wasip1ImportName::ClockTimeGet => Wasip1Syscall::ClockTimeGet,
            Wasip1ImportName::EnvironGet => Wasip1Syscall::ArgsEnv,
            Wasip1ImportName::EnvironSizesGet => Wasip1Syscall::ArgsEnv,
            Wasip1ImportName::FdAdvise => Wasip1Syscall::PathFull,
            Wasip1ImportName::FdAllocate => Wasip1Syscall::PathFull,
            Wasip1ImportName::FdClose => Wasip1Syscall::FdClose,
            Wasip1ImportName::FdDatasync => Wasip1Syscall::PathFull,
            Wasip1ImportName::FdFdstatGet => Wasip1Syscall::FdFdstatGet,
            Wasip1ImportName::FdFdstatSetFlags => Wasip1Syscall::PathFull,
            Wasip1ImportName::FdFdstatSetRights => Wasip1Syscall::PathFull,
            Wasip1ImportName::FdFilestatGet => Wasip1Syscall::PathMinimal,
            Wasip1ImportName::FdFilestatSetSize => Wasip1Syscall::PathFull,
            Wasip1ImportName::FdFilestatSetTimes => Wasip1Syscall::PathFull,
            Wasip1ImportName::FdPread => Wasip1Syscall::PathFull,
            Wasip1ImportName::FdPrestatDirName => Wasip1Syscall::PathMinimal,
            Wasip1ImportName::FdPrestatGet => Wasip1Syscall::PathMinimal,
            Wasip1ImportName::FdPwrite => Wasip1Syscall::PathFull,
            Wasip1ImportName::FdRead => Wasip1Syscall::FdRead,
            Wasip1ImportName::FdReaddir => Wasip1Syscall::PathMinimal,
            Wasip1ImportName::FdRenumber => Wasip1Syscall::PathFull,
            Wasip1ImportName::FdSeek => Wasip1Syscall::PathFull,
            Wasip1ImportName::FdSync => Wasip1Syscall::PathFull,
            Wasip1ImportName::FdTell => Wasip1Syscall::PathFull,
            Wasip1ImportName::FdWrite => Wasip1Syscall::FdWrite,
            Wasip1ImportName::PathCreateDirectory => Wasip1Syscall::PathMinimal,
            Wasip1ImportName::PathFilestatGet => Wasip1Syscall::PathMinimal,
            Wasip1ImportName::PathFilestatSetTimes => Wasip1Syscall::PathFull,
            Wasip1ImportName::PathLink => Wasip1Syscall::PathFull,
            Wasip1ImportName::PathOpen => Wasip1Syscall::PathMinimal,
            Wasip1ImportName::PathReadlink => Wasip1Syscall::PathMinimal,
            Wasip1ImportName::PathRemoveDirectory => Wasip1Syscall::PathMinimal,
            Wasip1ImportName::PathRename => Wasip1Syscall::PathMinimal,
            Wasip1ImportName::PathSymlink => Wasip1Syscall::PathFull,
            Wasip1ImportName::PathUnlinkFile => Wasip1Syscall::PathMinimal,
            Wasip1ImportName::PollOneoff => Wasip1Syscall::PollOneoff,
            Wasip1ImportName::ProcExit => Wasip1Syscall::ProcExit,
            Wasip1ImportName::ProcRaise => Wasip1Syscall::ProcRaise,
            Wasip1ImportName::RandomGet => Wasip1Syscall::RandomGet,
            Wasip1ImportName::SchedYield => Wasip1Syscall::SchedYield,
            Wasip1ImportName::SockAccept => Wasip1Syscall::NetworkObject,
            Wasip1ImportName::SockRecv => Wasip1Syscall::NetworkObject,
            Wasip1ImportName::SockSend => Wasip1Syscall::NetworkObject,
            Wasip1ImportName::SockShutdown => Wasip1Syscall::NetworkObject,
        }
    }

    pub open spec fn spec_disposition(self) -> Wasip1ImportDisposition {
        match self {
            Wasip1ImportName::ArgsGet => Wasip1ImportDisposition::Supported,
            Wasip1ImportName::ArgsSizesGet => Wasip1ImportDisposition::Supported,
            Wasip1ImportName::ClockResGet => Wasip1ImportDisposition::Supported,
            Wasip1ImportName::ClockTimeGet => Wasip1ImportDisposition::Supported,
            Wasip1ImportName::EnvironGet => Wasip1ImportDisposition::Supported,
            Wasip1ImportName::EnvironSizesGet => Wasip1ImportDisposition::Supported,
            Wasip1ImportName::FdAdvise => Wasip1ImportDisposition::TypedEnosys,
            Wasip1ImportName::FdAllocate => Wasip1ImportDisposition::TypedEnosys,
            Wasip1ImportName::FdClose => Wasip1ImportDisposition::Supported,
            Wasip1ImportName::FdDatasync => Wasip1ImportDisposition::TypedEnosys,
            Wasip1ImportName::FdFdstatGet => Wasip1ImportDisposition::Supported,
            Wasip1ImportName::FdFdstatSetFlags => Wasip1ImportDisposition::TypedEnosys,
            Wasip1ImportName::FdFdstatSetRights => Wasip1ImportDisposition::TypedEnosys,
            Wasip1ImportName::FdFilestatGet => Wasip1ImportDisposition::Supported,
            Wasip1ImportName::FdFilestatSetSize => Wasip1ImportDisposition::TypedEnosys,
            Wasip1ImportName::FdFilestatSetTimes => Wasip1ImportDisposition::TypedEnosys,
            Wasip1ImportName::FdPread => Wasip1ImportDisposition::Supported,
            Wasip1ImportName::FdPrestatDirName => Wasip1ImportDisposition::Supported,
            Wasip1ImportName::FdPrestatGet => Wasip1ImportDisposition::Supported,
            Wasip1ImportName::FdPwrite => Wasip1ImportDisposition::TypedEnosys,
            Wasip1ImportName::FdRead => Wasip1ImportDisposition::Supported,
            Wasip1ImportName::FdReaddir => Wasip1ImportDisposition::Supported,
            Wasip1ImportName::FdRenumber => Wasip1ImportDisposition::TypedEnosys,
            Wasip1ImportName::FdSeek => Wasip1ImportDisposition::Supported,
            Wasip1ImportName::FdSync => Wasip1ImportDisposition::TypedEnosys,
            Wasip1ImportName::FdTell => Wasip1ImportDisposition::Supported,
            Wasip1ImportName::FdWrite => Wasip1ImportDisposition::Supported,
            Wasip1ImportName::PathCreateDirectory => Wasip1ImportDisposition::TypedEnosys,
            Wasip1ImportName::PathFilestatGet => Wasip1ImportDisposition::Supported,
            Wasip1ImportName::PathFilestatSetTimes => Wasip1ImportDisposition::TypedEnosys,
            Wasip1ImportName::PathLink => Wasip1ImportDisposition::TypedEnosys,
            Wasip1ImportName::PathOpen => Wasip1ImportDisposition::Supported,
            Wasip1ImportName::PathReadlink => Wasip1ImportDisposition::TypedEnosys,
            Wasip1ImportName::PathRemoveDirectory => Wasip1ImportDisposition::TypedEnosys,
            Wasip1ImportName::PathRename => Wasip1ImportDisposition::TypedEnosys,
            Wasip1ImportName::PathSymlink => Wasip1ImportDisposition::TypedEnosys,
            Wasip1ImportName::PathUnlinkFile => Wasip1ImportDisposition::TypedEnosys,
            Wasip1ImportName::PollOneoff => Wasip1ImportDisposition::Supported,
            Wasip1ImportName::ProcExit => Wasip1ImportDisposition::Supported,
            Wasip1ImportName::ProcRaise => Wasip1ImportDisposition::TypedReject,
            Wasip1ImportName::RandomGet => Wasip1ImportDisposition::Supported,
            Wasip1ImportName::SchedYield => Wasip1ImportDisposition::Supported,
            Wasip1ImportName::SockAccept => Wasip1ImportDisposition::TypedReject,
            Wasip1ImportName::SockRecv => Wasip1ImportDisposition::Supported,
            Wasip1ImportName::SockSend => Wasip1ImportDisposition::Supported,
            Wasip1ImportName::SockShutdown => Wasip1ImportDisposition::Supported,
        }
    }

    /// How the import is answered when its handler group is present.
    #[verifier::when_used_as_spec(spec_disposition)]
    pub fn disposition(self) -> (out: Wasip1ImportDisposition)
        ensures
            out == self.spec_disposition(),
    {
        match self {
            Wasip1ImportName::ArgsGet => Wasip1ImportDisposition::Supported,
            Wasip1ImportName::ArgsSizesGet => Wasip1ImportDisposition::Supported,
            Wasip1ImportName::ClockResGet => Wasip1ImportDisposition::Supported,
            Wasip1ImportName::ClockTimeGet => Wasip1ImportDisposition::Supported,
            Wasip1ImportName::EnvironGet => Wasip1ImportDisposition::Supported,
            Wasip1ImportName::EnvironSizesGet => Wasip1ImportDisposition::Supported,
            Wasip1ImportName::FdAdvise => Wasip1ImportDisposition::TypedEnosys,
            Wasip1ImportName::FdAllocate => Wasip1ImportDisposition::TypedEnosys,
            Wasip1ImportName::FdClose => Wasip1ImportDisposition::Supported,
            Wasip1ImportName::FdDatasync => Wasip1ImportDisposition::TypedEnosys,
            Wasip1ImportName::FdFdstatGet => Wasip1ImportDisposition::Supported,
            Wasip1ImportName::FdFdstatSetFlags => Wasip1ImportDisposition::TypedEnosys,
            Wasip1ImportName::FdFdstatSetRights => Wasip1ImportDisposition::TypedEnosys,
            Wasip1ImportName::FdFilestatGet => Wasip1ImportDisposition::Supported,
            Wasip1ImportName::FdFilestatSetSize => Wasip1ImportDisposition::TypedEnosys,
            Wasip1ImportName::FdFilestatSetTimes => Wasip1ImportDisposition::TypedEnosys,
            Wasip1ImportName::FdPread => Wasip1ImportDisposition::Supported,
            Wasip1ImportName::FdPrestatDirName => Wasip1ImportDisposition::Supported,
            Wasip1ImportName::FdPrestatGet => Wasip1ImportDisposition::Supported,
            Wasip1ImportName::FdPwrite => Wasip1ImportDisposition::TypedEnosys,
            Wasip1ImportName::FdRead => Wasip1ImportDisposition::Supported,
            Wasip1ImportName::FdReaddir => Wasip1ImportDisposition::Supported,
            Wasip1ImportName::FdRenumber => Wasip1ImportDisposition::TypedEnosys,
            Wasip1ImportName::FdSeek => Wasip1ImportDisposition::Supported,
            Wasip1ImportName::FdSync => Wasip1ImportDisposition::TypedEnosys,
            Wasip1ImportName::FdTell => Wasip1ImportDisposition::Supported,
            Wasip1ImportName::FdWrite => Wasip1ImportDisposition::Supported,
            Wasip1ImportName::PathCreateDirectory => Wasip1ImportDisposition::TypedEnosys,
            Wasip1ImportName::PathFilestatGet => Wasip1ImportDisposition::Supported,
            Wasip1ImportName::PathFilestatSetTimes => Wasip1ImportDisposition::TypedEnosys,
            Wasip1ImportName::PathLink => Wasip1ImportDisposition::TypedEnosys,
            Wasip1ImportName::PathOpen => Wasip1ImportDisposition::Supported,
            Wasip1ImportName::PathReadlink => Wasip1ImportDisposition::TypedEnosys,
            Wasip1ImportName::PathRemoveDirectory => Wasip1ImportDisposition::TypedEnosys,
            Wasip1ImportName::PathRename => Wasip1ImportDisposition::TypedEnosys,
            Wasip1ImportName::PathSymlink => Wasip1ImportDisposition::TypedEnosys,
            Wasip1ImportName::PathUnlinkFile => Wasip1ImportDisposition::TypedEnosys,
            Wasip1ImportName::PollOneoff => Wasip1ImportDisposition::Supported,
            Wasip1ImportName::ProcExit => Wasip1ImportDisposition::Supported,
            Wasip1ImportName::ProcRaise => Wasip1ImportDisposition::TypedReject,
            Wasip1ImportName::RandomGet => Wasip1ImportDisposition::Supported,
            Wasip1ImportName::SchedYield => Wasip1ImportDisposition::Supported,
            Wasip1ImportName::SockAccept => Wasip1ImportDisposition::TypedReject,
            Wasip1ImportName::SockRecv => Wasip1ImportDisposition::Supported,
            Wasip1ImportName::SockSend => Wasip1ImportDisposition::Supported,
            Wasip1ImportName::SockShutdown => Wasip1ImportDisposition::Supported,
        }
    }

    /// The import whose name is exactly `bytes`, searched in table order.
    pub fn from_bytes(bytes: &[u8]) -> (out: Option<Self>)
        ensures
            out is Some <==> exists|i: int| 0 <= i < 46 && (#[trigger] spec_preview1_imports()[i]).spec_name().spec_bytes() == bytes@,
            out is Some ==> out->Some_0.spec_name().spec_bytes() == bytes@,
    {
        let imports = wasip1_preview1_imports();
        let mut i: usize = 0;
        while i < imports.len()
            invariant
                imports@ == spec_preview1_imports(),
                i <= 46,
                forall|j: int| 0 <= j < i ==> (#[trigger] spec_preview1_imports()[j]).spec_name().spec_bytes() != bytes@,
            decreases 46 - i,
        {
            let import = imports[i];
            let name = import.name().as_bytes();
            if bytes_equal(name, bytes) {
                return Some(import);
            }
            i = i + 1;
        }
        None
    }
}

/// Whether two byte slices hold the same bytes.
pub fn bytes_equal(a: &[u8], b: &[u8]) -> (out: bool)
    ensures
        out == (a@ == b@),
{
    if a.len() != b.len() {
        return false;
    }
    let mut i: usize = 0;
    while i < a.len()
        invariant
            a@.len() == b@.len(),
            i <= a@.len(),
            forall|j: int| 0 <= j < i ==> a@[j] == b@[j],
        decreases a@.len() - i,
    {
        if a[i] != b[i] {
            return false;
        }
        i = i + 1;
    }
    assert(a@ =~= b@);
    true
}

/// Every WASI Preview 1 import, in table order.
pub open spec fn spec_preview1_imports() -> Seq<Wasip1ImportName> {
    seq![
        Wasip1ImportName::ArgsGet,
        Wasip1ImportName::ArgsSizesGet,
        Wasip1ImportName::ClockResGet,
        Wasip1ImportName::ClockTimeGet,
        Wasip1ImportName::EnvironGet,
        Wasip1ImportName::EnvironSizesGet,
        Wasip1ImportName::FdAdvise,
        Wasip1ImportName::FdAllocate,
        Wasip1ImportName::FdClose,
        Wasip1ImportName::FdDatasync,
        Wasip1ImportName::FdFdstatGet,
        Wasip1ImportName::FdFdstatSetFlags,
        Wasip1ImportName::FdFdstatSetRights,
        Wasip1ImportName::FdFilestatGet,
        Wasip1ImportName::FdFilestatSetSize,
        Wasip1ImportName::FdFilestatSetTimes,
        Wasip1ImportName::FdPread,
        Wasip1ImportName::FdPrestatGet,
        Wasip1ImportName::FdPrestatDirName,
        Wasip1ImportName::FdPwrite,
        Wasip1ImportName::FdRead,
        Wasip1ImportName::FdReaddir,
        Wasip1ImportName::FdRenumber,
        Wasip1ImportName::FdSeek,
        Wasip1ImportName::FdSync,
        Wasip1ImportName::FdTell,
        Wasip1ImportName::FdWrite,
        Wasip1ImportName::PathCreateDirectory,
        Wasip1ImportName::PathFilestatGet,
        Wasip1ImportName::PathFilestatSetTimes,
        Wasip1ImportName::PathLink,
        Wasip1ImportName::PathOpen,
        Wasip1ImportName::PathReadlink,
        Wasip1ImportName::PathRemoveDirectory,
        Wasip1ImportName::PathRename,
        Wasip1ImportName::PathSymlink,
        Wasip1ImportName::PathUnlinkFile,
        Wasip1ImportName::PollOneoff,
        Wasip1ImportName::ProcExit,
        Wasip1ImportName::ProcRaise,
        Wasip1ImportName::RandomGet,
        Wasip1ImportName::SchedYield,
        Wasip1ImportName::SockAccept,
        Wasip1ImportName::SockRecv,
        Wasip1ImportName::SockSend,
        Wasip1ImportName::SockShutdown
    ]
}

/// Every WASI Preview 1 import, in table order.
pub fn wasip1_preview1_imports() -> (out: Vec<Wasip1ImportName>)
    ensures
        out@ == spec_preview1_imports(),
        out@.len() == 46,
{
    let out = vec![
        Wasip1ImportName::ArgsGet,
        Wasip1ImportName::ArgsSizesGet,
        Wasip1ImportName::ClockResGet,
        Wasip1ImportName::ClockTimeGet,
        Wasip1ImportName::EnvironGet,
        Wasip1ImportName::EnvironSizesGet,
        Wasip1ImportName::FdAdvise,
        Wasip1ImportName::FdAllocate,
        Wasip1ImportName::FdClose,
        Wasip1ImportName::FdDatasync,
        Wasip1ImportName::FdFdstatGet,
        Wasip1ImportName::FdFdstatSetFlags,
        Wasip1ImportName::FdFdstatSetRights,
        Wasip1ImportName::FdFilestatGet,
        Wasip1ImportName::FdFilestatSetSize,
        Wasip1ImportName::FdFilestatSetTimes,
        Wasip1ImportName::FdPread,
        Wasip1ImportName::FdPrestatGet,
        Wasip1ImportName::FdPrestatDirName,
        Wasip1ImportName::FdPwrite,
        Wasip1ImportName::FdRead,
        Wasip1ImportName::FdReaddir,
        Wasip1ImportName::FdRenumber,
        Wasip1ImportName::FdSeek,
        Wasip1ImportName::FdSync,
        Wasip1ImportName::FdTell,
        Wasip1ImportName::FdWrite,
        Wasip1ImportName::PathCreateDirectory,
        Wasip1ImportName::PathFilestatGet,
        Wasip1ImportName::PathFilestatSetTimes,
        Wasip1ImportName::PathLink,
        Wasip1ImportName::PathOpen,
        Wasip1ImportName::PathReadlink,
        Wasip1ImportName::PathRemoveDirectory,
        Wasip1ImportName::PathRename,
        Wasip1ImportName::PathSymlink,
        Wasip1ImportName::PathUnlinkFile,
        Wasip1ImportName::PollOneoff,
        Wasip1ImportName::ProcExit,
        Wasip1ImportName::ProcRaise,
        Wasip1ImportName::RandomGet,
        Wasip1ImportName::SchedYield,
        Wasip1ImportName::SockAccept,
        Wasip1ImportName::SockRecv,
        Wasip1ImportName::SockSend,
        Wasip1ImportName::SockShutdown
    ];
    assert(out@ =~= spec_preview1_imports());
    out
}

/// The coverage row of one import: its name, group and disposition.
#[derive(Clone, Copy, Debug, PartialEq, Eq)]
pub struct Wasip1ImportCoverage {
    pub kind: Wasip1ImportName,
    pub import: &'static str,
    pub syscall: Wasip1Syscall,
    pub disposition: Wasip1ImportDisposition,
}

impl Wasip1ImportCoverage {
    pub fn from_import(kind: Wasip1ImportName) -> (out: Self)
        ensures
            out.kind == kind,
            out.import@ == kind.spec_name()@,
            out.syscall == kind.spec_syscall(),
            out.disposition == kind.spec_disposition(),
    {
        Self { kind, import: kind.name(), syscall: kind.syscall(), disposition: kind.disposition() }
    }

    pub open spec fn spec_effective(self, handlers: Wasip1HandlerSet) -> Wasip1ImportEffectiveDisposition {
        if !handlers.spec_supports(self.syscall) {
            Wasip1ImportEffectiveDisposition::UnsupportedByProfile
        } else {
            match self.disposition {
                Wasip1ImportDisposition::Supported => Wasip1ImportEffectiveDisposition::Supported,
                Wasip1ImportDisposition::TypedEnosys => Wasip1ImportEffectiveDisposition::TypedEnosys,
                Wasip1ImportDisposition::TypedReject => Wasip1ImportEffectiveDisposition::TypedReject,
            }
        }
    }

    /// How the import is answered under `handlers`: unsupported when its group is absent.
    pub fn effective(self, handlers: Wasip1HandlerSet) -> (out: Wasip1ImportEffectiveDisposition)
        ensures
            out == self.spec_effective(handlers),
    {
        if !handlers.supports(self.syscall) {
            return Wasip1ImportEffectiveDisposition::UnsupportedByProfile;
        }
        match self.disposition {
            Wasip1ImportDisposition::Supported => Wasip1ImportEffectiveDisposition::Supported,
            Wasip1ImportDisposition::TypedEnosys => Wasip1ImportEffectiveDisposition::TypedEnosys,
            Wasip1ImportDisposition::TypedReject => Wasip1ImportEffectiveDisposition::TypedReject,
        }
    }
}

/// The coverage rows of every import, in table order.
pub fn wasip1_preview1_import_coverage() -> (out: Vec<Wasip1ImportCoverage>)
    ensures
        out@.len() == 46,
        forall|i: int| 0 <= i < 46 ==> (#[trigger] out@[i]).kind == spec_preview1_imports()[i]
            && out@[i].syscall == spec_preview1_imports()[i].spec_syscall()
            && out@[i].disposition == spec_preview1_imports()[i].spec_disposition(),
{
    let imports = wasip1_preview1_imports();
    let mut out: Vec<Wasip1ImportCoverage> = Vec::new();
    let mut i: usize = 0;
    while i < imports.len()
        invariant
            imports@ == spec_preview1_imports(),
            i <= 46,
            out@.len() == i,
            forall|j: int| 0 <= j < i ==> (#[trigger] out@[j]).kind == spec_preview1_imports()[j]
                && out@[j].syscall == spec_preview1_imports()[j].spec_syscall()
                && out@[j].disposition == spec_preview1_imports()[j].spec_disposition(),
        decreases 46 - i,
    {
        out.push(Wasip1ImportCoverage::from_import(imports[i]));
        i = i + 1;
    }
    out
}

/// Which WASI P1 syscall groups a build handles.
#[derive(Clone, Copy, Debug, Default, PartialEq, Eq, Structural)]
pub struct Wasip1HandlerSet {
    pub args_env: bool,
    pub fd_write: bool,
    pub fd_read: bool,
    pub fd_fdstat_get: bool,
    pub fd_close: bool,
    pub clock_res_get: bool,
    pub clock_time_get: bool,
    pub poll_oneoff: bool,
    pub random_get: bool,
    pub proc_exit: bool,
    pub proc_raise: bool,
    pub sched_yield: bool,
    pub path_minimal: bool,
    pub path_full: bool,
    pub network_object: bool,
}

/// No handler at all.
pub open spec fn wasip1_handlers_empty() -> Wasip1HandlerSet {
    Wasip1HandlerSet { args_env: false, fd_write: false, fd_read: false, fd_fdstat_get: false, fd_close: false, clock_res_get: false, clock_time_get: false, poll_oneoff: false, random_get: false, proc_exit: false, proc_raise: false, sched_yield: false, path_minimal: false, path_full: false, network_object: false }
}
/// The smallest Pico profile: `fd_write`, `poll_oneoff` and `proc_exit`.
pub open spec fn wasip1_handlers_pico_min() -> Wasip1HandlerSet {
    Wasip1HandlerSet { args_env: false, fd_write: true, fd_read: false, fd_fdstat_get: false, fd_close: false, clock_res_get: false, clock_time_get: false, poll_oneoff: true, random_get: false, proc_exit: true, proc_raise: false, sched_yield: false, path_minimal: false, path_full: false, network_object: false }
}
/// The Pico profile that starts an ordinary std guest.
pub open spec fn wasip1_handlers_pico_std_start() -> Wasip1HandlerSet {
    Wasip1HandlerSet { args_env: true, fd_write: true, fd_read: false, fd_fdstat_get: false, fd_close: false, clock_res_get: false, clock_time_get: false, poll_oneoff: true, random_get: false, proc_exit: true, proc_raise: false, sched_yield: false, path_minimal: false, path_full: false, network_object: false }
}
/// The Pico std profile with ChoreoFS path access.
pub open spec fn wasip1_handlers_pico_std_choreofs() -> Wasip1HandlerSet {
    Wasip1HandlerSet { args_env: true, fd_write: true, fd_read: false, fd_fdstat_get: false, fd_close: false, clock_res_get: false, clock_time_get: false, poll_oneoff: true, random_get: false, proc_exit: true, proc_raise: false, sched_yield: false, path_minimal: true, path_full: false, network_object: false }
}
/// Every handler group.
pub open spec fn wasip1_handlers_full() -> Wasip1HandlerSet {
    Wasip1HandlerSet { args_env: true, fd_write: true, fd_read: true, fd_fdstat_get: true, fd_close: true, clock_res_get: true, clock_time_get: true, poll_oneoff: true, random_get: true, proc_exit: true, proc_raise: true, sched_yield: true, path_minimal: true, path_full: true, network_object: true }
}

impl Wasip1HandlerSet {
    pub fn empty() -> (out: Self)
        ensures
            out == wasip1_handlers_empty(),
    {
        Wasip1HandlerSet { args_env: false, fd_write: false, fd_read: false, fd_fdstat_get: false, fd_close: false, clock_res_get: false, clock_time_get: false, poll_oneoff: false, random_get: false, proc_exit: false, proc_raise: false, sched_yield: false, path_minimal: false, path_full: false, network_object: false }
    }

    pub fn pico_min() -> (out: Self)
        ensures
            out == wasip1_handlers_pico_min(),
    {
        Wasip1HandlerSet { args_env: false, fd_write: true, fd_read: false, fd_fdstat_get: false, fd_close: false, clock_res_get: false, clock_time_get: false, poll_oneoff: true, random_get: false, proc_exit: true, proc_raise: false, sched_yield: false, path_minimal: false, path_full: false, network_object: false }
    }

    pub fn pico_std_start() -> (out: Self)
        ensures
            out == wasip1_handlers_pico_std_start(),
    {
        Wasip1HandlerSet { args_env: true, fd_write: true, fd_read: false, fd_fdstat_get: false, fd_close: false, clock_res_get: false, clock_time_get: false, poll_oneoff: true, random_get: false, proc_exit: true, proc_raise: false, sched_yield: false, path_minimal: false, path_full: false, network_object: false }
    }

    pub fn pico_std_choreofs() -> (out: Self)
        ensures
            out == wasip1_handlers_pico_std_choreofs(),
    {
        Wasip1HandlerSet { args_env: true, fd_write: true, fd_read: false, fd_fdstat_get: false, fd_close: false, clock_res_get: false, clock_time_get: false, poll_oneoff: true, random_get: false, proc_exit: true, proc_raise: false, sched_yield: false, path_minimal: true, path_full: false, network_object: false }
    }

    pub fn full() -> (out: Self)
        ensures
            out == wasip1_handlers_full(),
    {
        Wasip1HandlerSet { args_env: true, fd_write: true, fd_read: true, fd_fdstat_get: true, fd_close: true, clock_res_get: true, clock_time_get: true, poll_oneoff: true, random_get: true, proc_exit: true, proc_raise: true, sched_yield: true, path_minimal: true, path_full: true, network_object: true }
    }


    /// The handler set of this build: no handler feature is enabled, so none.
    pub fn active() -> (out: Self)
        ensures
            out == wasip1_handlers_empty(),
    {
        Self::empty()
    }

    pub open spec fn spec_supports(self, syscall: Wasip1Syscall) -> bool {
        match syscall {
            Wasip1Syscall::ArgsEnv => self.args_env,
            Wasip1Syscall::FdWrite => self.fd_write,
            Wasip1Syscall::FdRead => self.fd_read,
            Wasip1Syscall::FdFdstatGet => self.fd_fdstat_get,
            Wasip1Syscall::FdClose => self.fd_close,
            Wasip1Syscall::ClockResGet => self.clock_res_get,
            Wasip1Syscall::ClockTimeGet => self.clock_time_get,
            Wasip1Syscall::PollOneoff => self.poll_oneoff,
            Wasip1Syscall::RandomGet => self.random_get,
            Wasip1Syscall::ProcExit => self.proc_exit,
            Wasip1Syscall::ProcRaise => self.proc_raise,
            Wasip1Syscall::SchedYield => self.sched_yield,
            Wasip1Syscall::PathMinimal => self.path_minimal,
            Wasip1Syscall::PathFull => self.path_full,
            Wasip1Syscall::NetworkObject => self.network_object,
        }
    }

    #[verifier::when_used_as_spec(spec_supports)]
    pub fn supports(self, syscall: Wasip1Syscall) -> (out: bool)
        ensures
            out == self.spec_supports(syscall),
    {
        match syscall {
            Wasip1Syscall::ArgsEnv => self.args_env,
            Wasip1Syscall::FdWrite => self.fd_write,
            Wasip1Syscall::FdRead => self.fd_read,
            Wasip1Syscall::FdFdstatGet => self.fd_fdstat_get,
            Wasip1Syscall::FdClose => self.fd_close,
            Wasip1Syscall::ClockResGet => self.clock_res_get,
            Wasip1Syscall::ClockTimeGet => self.clock_time_get,
            Wasip1Syscall::PollOneoff => self.poll_oneoff,
            Wasip1Syscall::RandomGet => self.random_get,
            Wasip1Syscall::ProcExit => self.proc_exit,
            Wasip1Syscall::ProcRaise => self.proc_raise,
            Wasip1Syscall::SchedYield => self.sched_yield,
            Wasip1Syscall::PathMinimal => self.path_minimal,
            Wasip1Syscall::PathFull => self.path_full,
            Wasip1Syscall::NetworkObject => self.network_object,
        }
    }

    pub open spec fn spec_implemented_count(self) -> nat {
        flags_five(self.args_env, self.fd_write, self.fd_read, self.fd_fdstat_get, self.fd_close)
            + flags_five(self.clock_res_get, self.clock_time_get, self.poll_oneoff, self.random_get, self.proc_exit)
            + flags_five(self.proc_raise, self.sched_yield, self.path_minimal, self.path_full, self.network_object)
    }

    /// How many handler groups are present.
    #[verifier::rlimit(60)]
    pub fn implemented_count(self) -> (out: usize)
        ensures
            out == self.spec_implemented_count(),
    {
        let a = count_five(self.args_env, self.fd_write, self.fd_read, self.fd_fdstat_get, self.fd_close);
        let b = count_five(self.clock_res_get, self.clock_time_get, self.poll_oneoff, self.random_get, self.proc_exit);
        let c = count_five(self.proc_raise, self.sched_yield, self.path_minimal, self.path_full, self.network_object);
        a + b + c
    }

    pub open spec fn spec_is_fullish(self) -> bool {
        self.args_env && self.fd_write && self.fd_read && self.fd_fdstat_get && self.fd_close && self.clock_res_get && self.clock_time_get && self.poll_oneoff && self.random_get && self.proc_exit && self.proc_raise && self.sched_yield && self.path_minimal && self.path_full && self.network_object
    }

    /// Whether every handler group is present.
    #[verifier::when_used_as_spec(spec_is_fullish)]
    pub fn is_fullish(self) -> (out: bool)
        ensures
            out == self.spec_is_fullish(),
    {
        self.args_env && self.fd_write && self.fd_read && self.fd_fdstat_get && self.fd_close && self.clock_res_get && self.clock_time_get && self.poll_oneoff && self.random_get && self.proc_exit && self.proc_raise && self.sched_yield && self.path_minimal && self.path_full && self.network_object
    }
}

/// One for a present flag, zero for an absent one.
#[verifier::opaque]
pub open spec fn flag_nat(flag: bool) -> nat {
    if flag { 1 } else { 0 }
}

fn flag_count(flag: bool) -> (out: usize)
    ensures
        out == flag_nat(flag),
        out <= 1,
{
    proof { reveal(flag_nat); }
    if flag { 1 } else { 0 }
}

/// How many of five flags are set.
pub open spec fn flags_five(a: bool, b: bool, c: bool, d: bool, e: bool) -> nat {
    flag_nat(a) + flag_nat(b) + flag_nat(c) + flag_nat(d) + flag_nat(e)
}

fn count_five(a: bool, b: bool, c: bool, d: bool, e: bool) -> (out: usize)
    ensures
        out == flags_five(a, b, c, d, e),
        out <= 5,
{
    let n1 = flag_count(a);
    let n2 = flag_count(b);
    let n3 = flag_count(c);
    let n4 = flag_count(d);
    let n5 = flag_count(e);
    n1 + n2 + n3 + n4 + n5
}

/// Which WASI P1 control capacities a build carries.
#[derive(Clone, Copy, Debug, Default, PartialEq, Eq, Structural)]
pub struct Wasip1ControlCapacity {
    pub fd_view: bool,
    pub memory_lease: bool,
    pub errno: bool,
    pub import_validation: bool,
    pub unsupported_reject: bool,
    pub memory_grow_fence: bool,
}

/// Every control capacity.
pub open spec fn wasip1_control_full() -> Wasip1ControlCapacity {
    Wasip1ControlCapacity { fd_view: true, memory_lease: true, errno: true, import_validation: true, unsupported_reject: true, memory_grow_fence: true }
}

impl Wasip1ControlCapacity {
    pub fn full() -> (out: Self)
        ensures
            out == wasip1_control_full(),
    {
        Wasip1ControlCapacity { fd_view: true, memory_lease: true, errno: true, import_validation: true, unsupported_reject: true, memory_grow_fence: true }
    }

    /// The control capacity of this build: no control feature is enabled.
    pub fn active() -> (out: Self)
        ensures
            out == (Wasip1ControlCapacity { fd_view: false, memory_lease: false, errno: false, import_validation: false, unsupported_reject: false, memory_grow_fence: false }),
    {
        Wasip1ControlCapacity { fd_view: false, memory_lease: false, errno: false, import_validation: false, unsupported_reject: false, memory_grow_fence: false }
    }

    pub open spec fn spec_is_complete_for_wasip1(self) -> bool {
        self.fd_view && self.memory_lease && self.errno && self.import_validation && self.unsupported_reject && self.memory_grow_fence
    }

    #[verifier::when_used_as_spec(spec_is_complete_for_wasip1)]
    pub fn is_complete_for_wasip1(self) -> (out: bool)
        ensures
            out == self.spec_is_complete_for_wasip1(),
    {
        self.fd_view && self.memory_lease && self.errno && self.import_validation && self.unsupported_reject && self.memory_grow_fence
    }
}

/// Which board and host profiles a build was made for.
#[derive(Clone, Copy, Debug, Default, PartialEq, Eq, Structural)]
pub struct FeatureProfiles {
    pub rp2040_pico_min: bool,
    pub rp2040_picow_swarm_min: bool,
    pub rp2350_pico2w_swarm_min: bool,
    pub host_qemu_swarm: bool,
    pub host_linux_wasip1_full: bool,
}

impl FeatureProfiles {
    /// The profiles of this build: no profile feature is enabled.
    pub fn active() -> (out: Self)
        ensures
            out == (FeatureProfiles { rp2040_pico_min: false, rp2040_picow_swarm_min: false, rp2350_pico2w_swarm_min: false, host_qemu_swarm: false, host_linux_wasip1_full: false }),
    {
        FeatureProfiles { rp2040_pico_min: false, rp2040_picow_swarm_min: false, rp2350_pico2w_swarm_min: false, host_qemu_swarm: false, host_linux_wasip1_full: false }
    }
}

/// Everything a build claims: profiles, engine, handlers and control capacity.
#[derive(Clone, Copy, Debug, PartialEq, Eq, Structural)]
pub struct FeatureMatrix {
    pub profiles: FeatureProfiles,
    pub engine: WasmEngineProfile,
    pub wasip1_handlers: Wasip1HandlerSet,
    pub wasip1_control: Wasip1ControlCapacity,
}

impl FeatureMatrix {
    pub fn active() -> (out: Self)
        ensures
            out.engine == WasmEngineProfile::Core,
            out.wasip1_handlers == wasip1_handlers_empty(),
            !out.wasip1_control.spec_is_complete_for_wasip1(),
    {
        Self {
            profiles: FeatureProfiles::active(),
            engine: WasmEngineProfile::active(),
            wasip1_handlers: Wasip1HandlerSet::active(),
            wasip1_control: Wasip1ControlCapacity::active(),
        }
    }

    pub open spec fn spec_can_claim_wasip1_profile(self) -> bool {
        self.engine.spec_can_run_core_wasip1() && self.wasip1_control.spec_is_complete_for_wasip1()
            && self.wasip1_handlers.spec_implemented_count() > 0
    }

    /// A WASI P1 profile needs a core engine, complete control capacity and some handler.
    pub fn can_claim_wasip1_profile(self) -> (out: bool)
        ensures
            out == self.spec_can_claim_wasip1_profile(),
    {
        self.engine.can_run_core_wasip1() && self.wasip1_control.is_complete_for_wasip1()
            && self.wasip1_handlers.implemented_count() > 0
    }

    pub open spec fn spec_can_claim_full_ordinary_std(self) -> bool {
        self.engine.spec_can_run_ordinary_wasip1_std() && self.wasip1_handlers.spec_is_fullish()
            && self.wasip1_control.spec_is_complete_for_wasip1()
    }

    /// Ordinary std guests need the full engine, every handler and complete control capacity.
    pub fn can_claim_full_ordinary_std(self) -> (out: bool)
        ensures
            out == self.spec_can_claim_full_ordinary_std(),
    {
        self.engine.can_run_ordinary_wasip1_std() && self.wasip1_handlers.is_fullish()
            && self.wasip1_control.is_complete_for_wasip1()
    }
}

/// A full profile claims both the WASI P1 profile and ordinary std.
pub proof fn lemma_full_std_claims_wasip1_profile(matrix: FeatureMatrix)
    requires
        matrix.spec_can_claim_full_ordinary_std(),
    ensures
        matrix.spec_can_claim_wasip1_profile(),
{
    reveal(flag_nat);
}


/// Each import's name names that import and no other: distinct imports have distinct names,
/// as text and as bytes, and the import table lists every import. So `from_bytes` of an
/// import's name finds that import.
pub proof fn lemma_import_names_distinct(a: Wasip1ImportName, b: Wasip1ImportName)
    ensures
        a != b ==> a.spec_name()@ != b.spec_name()@,
        a != b ==> a.spec_name().spec_bytes() != b.spec_name().spec_bytes(),
        spec_preview1_imports().contains(a),
{
    if a != b {
        lemma_names_differ(a, b);
        if a.spec_name().spec_bytes() == b.spec_name().spec_bytes() {
            lemma_name_bytes_determine_name(a.spec_name(), b.spec_name());
        }
    }
    lemma_preview1_imports_list(a);
}

/// Looking an import up by its name in the table finds that import.
pub proof fn lemma_from_bytes_finds_the_named_import(a: Wasip1ImportName, found: Wasip1ImportName)
    requires
        found.spec_name().spec_bytes() == a.spec_name().spec_bytes(),
    ensures
        found == a,
{
    lemma_import_names_distinct(a, found);
}

proof fn lemma_name_bytes_determine_name(x: &str, y: &str)
    requires
        x.spec_bytes() == y.spec_bytes(),
    ensures
        x@ == y@,
{
    vstd::utf8::encode_utf8_decode_utf8(x@);
    vstd::utf8::encode_utf8_decode_utf8(y@);
}

/// A number that tells the import names apart: the length, the first character and the
/// sixth.
pub open spec fn name_key(n: Seq<char>) -> int {
    n.len() * 65536 + (n[0] as int) * 256 + (n[5] as int)
}

/// The import whose name has key `k`, if any.
pub open spec fn import_with_key(k: u64) -> Option<Wasip1ImportName> {
    match k {
        549223u64 => Some(Wasip1ImportName::ArgsGet),
        942451u64 => Some(Wasip1ImportName::ArgsSizesGet),
        877407u64 => Some(Wasip1ImportName::ClockResGet),
        942943u64 => Some(Wasip1ImportName::ClockTimeGet),
        746863u64 => Some(Wasip1ImportName::EnvironGet),
        1140079u64 => Some(Wasip1ImportName::EnvironSizesGet),
        616054u64 => Some(Wasip1ImportName::FdAdvise),
        747116u64 => Some(Wasip1ImportName::FdAllocate),
        550511u64 => Some(Wasip1ImportName::FdClose),
        747124u64 => Some(Wasip1ImportName::FdDatasync),
        878195u64 => Some(Wasip1ImportName::FdFdstatGet),
        1271411u64 => Some(Wasip1ImportName::FdFdstatSetFlags),
        1336947u64 => Some(Wasip1ImportName::FdFdstatSetRights),
        1009260u64 => Some(Wasip1ImportName::FdFilestatGet),
        1336940u64 => Some(Wasip1ImportName::FdFilestatSetSize),
        1402476u64 => Some(Wasip1ImportName::FdFilestatSetTimes),
        550501u64 => Some(Wasip1ImportName::FdPread),
        1271397u64 => Some(Wasip1ImportName::FdPrestatDirName),
        943717u64 => Some(Wasip1ImportName::FdPrestatGet),
        616050u64 => Some(Wasip1ImportName::FdPwrite),
        484961u64 => Some(Wasip1ImportName::FdRead),
        681569u64 => Some(Wasip1ImportName::FdReaddir),
        747118u64 => Some(Wasip1ImportName::FdRenumber),
        484965u64 => Some(Wasip1ImportName::FdSeek),
        484974u64 => Some(Wasip1ImportName::FdSync),
        484972u64 => Some(Wasip1ImportName::FdTell),
        550505u64 => Some(Wasip1ImportName::FdWrite),
        1405027u64 => Some(Wasip1ImportName::PathCreateDirectory),
        1142886u64 => Some(Wasip1ImportName::PathFilestatGet),
        1536102u64 => Some(Wasip1ImportName::PathFilestatSetTimes),
        618604u64 => Some(Wasip1ImportName::PathLink),
        618607u64 => Some(Wasip1ImportName::PathOpen),
        880754u64 => Some(Wasip1ImportName::PathReadlink),
        1405042u64 => Some(Wasip1ImportName::PathRemoveDirectory),
        749682u64 => Some(Wasip1ImportName::PathRename),
        815219u64 => Some(Wasip1ImportName::PathSymlink),
        1077365u64 => Some(Wasip1ImportName::PathUnlinkFile),
        749679u64 => Some(Wasip1ImportName::PollOneoff),
        618597u64 => Some(Wasip1ImportName::ProcExit),
        684146u64 => Some(Wasip1ImportName::ProcRaise),
        684653u64 => Some(Wasip1ImportName::RandomGet),
        750431u64 => Some(Wasip1ImportName::SchedYield),
        750433u64 => Some(Wasip1ImportName::SockAccept),
        619378u64 => Some(Wasip1ImportName::SockRecv),
        619379u64 => Some(Wasip1ImportName::SockSend),
        881523u64 => Some(Wasip1ImportName::SockShutdown),
        _ => None,
    }
}

proof fn lemma_name_key(a: Wasip1ImportName)
    ensures
        0 <= name_key(a.spec_name()@) < 0x1_0000_0000,
        import_with_key(name_key(a.spec_name()@) as u64) == Some(a),
{
    match a {
            Wasip1ImportName::ArgsGet => {
                reveal_strlit("args_get");
                assert(name_key(a.spec_name()@) == 549223);
            },
            Wasip1ImportName::ArgsSizesGet => {
                reveal_strlit("args_sizes_get");
                assert(name_key(a.spec_name()@) == 942451);
            },
            Wasip1ImportName::ClockResGet => {
                reveal_strlit("clock_res_get");
                assert(name_key(a.spec_name()@) == 877407);
            },
            Wasip1ImportName::ClockTimeGet => {
                reveal_strlit("clock_time_get");
                assert(name_key(a.spec_name()@) == 942943);
            },
            Wasip1ImportName::EnvironGet => {
                reveal_strlit("environ_get");
                assert(name_key(a.spec_name()@) == 746863);
            },
            Wasip1ImportName::EnvironSizesGet => {
                reveal_strlit("environ_sizes_get");
                assert(name_key(a.spec_name()@) == 1140079);
            },
            Wasip1ImportName::FdAdvise => {
                reveal_strlit("fd_advise");
                assert(name_key(a.spec_name()@) == 616054);
            },
            Wasip1ImportName::FdAllocate => {
                reveal_strlit("fd_allocate");
                assert(name_key(a.spec_name()@) == 747116);
            },
            Wasip1ImportName::FdClose => {
                reveal_strlit("fd_close");
                assert(name_key(a.spec_name()@) == 550511);
            },
            Wasip1ImportName::FdDatasync => {
                reveal_strlit("fd_datasync");
                assert(name_key(a.spec_name()@) == 747124);
            },
            Wasip1ImportName::FdFdstatGet => {
                reveal_strlit("fd_fdstat_get");
                assert(name_key(a.spec_name()@) == 878195);
            },
            Wasip1ImportName::FdFdstatSetFlags => {
                reveal_strlit("fd_fdstat_set_flags");
                assert(name_key(a.spec_name()@) == 1271411);
            },
            Wasip1ImportName::FdFdstatSetRights => {
                reveal_strlit("fd_fdstat_set_rights");
                assert(name_key(a.spec_name()@) == 1336947);
            },
            Wasip1ImportName::FdFilestatGet => {
                reveal_strlit("fd_filestat_get");
                assert(name_key(a.spec_name()@) == 1009260);
            },
            Wasip1ImportName::FdFilestatSetSize => {
                reveal_strlit("fd_filestat_set_size");
                assert(name_key(a.spec_name()@) == 1336940);
            },
            Wasip1ImportName::FdFilestatSetTimes => {
                reveal_strlit("fd_filestat_set_times");
                assert(name_key(a.spec_name()@) == 1402476);
            },
            Wasip1ImportName::FdPread => {
                reveal_strlit("fd_pread");
                assert(name_key(a.spec_name()@) == 550501);
            },
            Wasip1ImportName::FdPrestatDirName => {
                reveal_strlit("fd_prestat_dir_name");
                assert(name_key(a.spec_name()@) == 1271397);
            },
            Wasip1ImportName::FdPrestatGet => {
                reveal_strlit("fd_prestat_get");
                assert(name_key(a.spec_name()@) == 943717);
            },
            Wasip1ImportName::FdPwrite => {
                reveal_strlit("fd_pwrite");
                assert(name_key(a.spec_name()@) == 616050);
            },
            Wasip1ImportName::FdRead => {
                reveal_strlit("fd_read");
                assert(name_key(a.spec_name()@) == 484961);
            },
            Wasip1ImportName::FdReaddir => {
                reveal_strlit("fd_readdir");
                assert(name_key(a.spec_name()@) == 681569);
            },
            Wasip1ImportName::FdRenumber => {
                reveal_strlit("fd_renumber");
                assert(name_key(a.spec_name()@) == 747118);
            },
            Wasip1ImportName::FdSeek => {
                reveal_strlit("fd_seek");
                assert(name_key(a.spec_name()@) == 484965);
            },
            Wasip1ImportName::FdSync => {
                reveal_strlit("fd_sync");
                assert(name_key(a.spec_name()@) == 484974);
            },
            Wasip1ImportName::FdTell => {
                reveal_strlit("fd_tell");
                assert(name_key(a.spec_name()@) == 484972);
            },
            Wasip1ImportName::FdWrite => {
                reveal_strlit("fd_write");
                assert(name_key(a.spec_name()@) == 550505);
            },
            Wasip1ImportName::PathCreateDirectory => {
                reveal_strlit("path_create_directory");
                assert(name_key(a.spec_name()@) == 1405027);
            },
            Wasip1ImportName::PathFilestatGet => {
                reveal_strlit("path_filestat_get");
                assert(name_key(a.spec_name()@) == 1142886);
            },
            Wasip1ImportName::PathFilestatSetTimes => {
                reveal_strlit("path_filestat_set_times");
                assert(name_key(a.spec_name()@) == 1536102);
            },
            Wasip1ImportName::PathLink => {
                reveal_strlit("path_link");
                assert(name_key(a.spec_name()@) == 618604);
            },
            Wasip1ImportName::PathOpen => {
                reveal_strlit("path_open");
                assert(name_key(a.spec_name()@) == 618607);
            },
            Wasip1ImportName::PathReadlink => {
                reveal_strlit("path_readlink");
                assert(name_key(a.spec_name()@) == 880754);
            },
            Wasip1ImportName::PathRemoveDirectory => {
                reveal_strlit("path_remove_directory");
                assert(name_key(a.spec_name()@) == 1405042);
            },
            Wasip1ImportName::PathRename => {
                reveal_strlit("path_rename");
                assert(name_key(a.spec_name()@) == 749682);
            },
            Wasip1ImportName::PathSymlink => {
                reveal_strlit("path_symlink");
                assert(name_key(a.spec_name()@) == 815219);
            },
            Wasip1ImportName::PathUnlinkFile => {
                reveal_strlit("path_unlink_file");
                assert(name_key(a.spec_name()@) == 1077365);
            },
            Wasip1ImportName::PollOneoff => {
                reveal_strlit("poll_oneoff");
                assert(name_key(a.spec_name()@) == 749679);
            },
            Wasip1ImportName::ProcExit => {
                reveal_strlit("proc_exit");
                assert(name_key(a.spec_name()@) == 618597);
            },
            Wasip1ImportName::ProcRaise => {
                reveal_strlit("proc_raise");
                assert(name_key(a.spec_name()@) == 684146);
            },
            Wasip1ImportName::RandomGet => {
                reveal_strlit("random_get");
                assert(name_key(a.spec_name()@) == 684653);
            },
            Wasip1ImportName::SchedYield => {
                reveal_strlit("sched_yield");
                assert(name_key(a.spec_name()@) == 750431);
            },
            Wasip1ImportName::SockAccept => {
                reveal_strlit("sock_accept");
                assert(name_key(a.spec_name()@) == 750433);
            },
            Wasip1ImportName::SockRecv => {
                reveal_strlit("sock_recv");
                assert(name_key(a.spec_name()@) == 619378);
            },
            Wasip1ImportName::SockSend => {
                reveal_strlit("sock_send");
                assert(name_key(a.spec_name()@) == 619379);
            },
            Wasip1ImportName::SockShutdown => {
                reveal_strlit("sock_shutdown");
                assert(name_key(a.spec_name()@) == 881523);
            },
    }
}

proof fn lemma_names_differ(a: Wasip1ImportName, b: Wasip1ImportName)
    requires
        a != b,
    ensures
        a.spec_name()@ != b.spec_name()@,
{
    lemma_name_key(a);
    lemma_name_key(b);
}

proof fn lemma_preview1_imports_list(a: Wasip1ImportName)
    ensures
        spec_preview1_imports().contains(a),
{
    let s = spec_preview1_imports();
    match a {
        Wasip1ImportName::ArgsGet => assert(s[0] == a),
        Wasip1ImportName::ArgsSizesGet => assert(s[1] == a),
        Wasip1ImportName::ClockResGet => assert(s[2] == a),
        Wasip1ImportName::ClockTimeGet => assert(s[3] == a),
        Wasip1ImportName::EnvironGet => assert(s[4] == a),
        Wasip1ImportName::EnvironSizesGet => assert(s[5] == a),
        Wasip1ImportName::FdAdvise => assert(s[6] == a),
        Wasip1ImportName::FdAllocate => assert(s[7] == a),
        Wasip1ImportName::FdClose => assert(s[8] == a),
        Wasip1ImportName::FdDatasync => assert(s[9] == a),
        Wasip1ImportName::FdFdstatGet => assert(s[10] == a),
        Wasip1ImportName::FdFdstatSetFlags => assert(s[11] == a),
        Wasip1ImportName::FdFdstatSetRights => assert(s[12] == a),
        Wasip1ImportName::FdFilestatGet => assert(s[13] == a),
        Wasip1ImportName::FdFilestatSetSize => assert(s[14] == a),
        Wasip1ImportName::FdFilestatSetTimes => assert(s[15] == a),
        Wasip1ImportName::FdPread => assert(s[16] == a),
        Wasip1ImportName::FdPrestatDirName => assert(s[18] == a),
        Wasip1ImportName::FdPrestatGet => assert(s[17] == a),
        Wasip1ImportName::FdPwrite => assert(s[19] == a),
        Wasip1ImportName::FdRead => assert(s[20] == a),
        Wasip1ImportName::FdReaddir => assert(s[21] == a),
        Wasip1ImportName::FdRenumber => assert(s[22] == a),
        Wasip1ImportName::FdSeek => assert(s[23] == a),
        Wasip1ImportName::FdSync => assert(s[24] == a),
        Wasip1ImportName::FdTell => assert(s[25] == a),
        Wasip1ImportName::FdWrite => assert(s[26] == a),
        Wasip1ImportName::PathCreateDirectory => assert(s[27] == a),
        Wasip1ImportName::PathFilestatGet => assert(s[28] == a),
        Wasip1ImportName::PathFilestatSetTimes => assert(s[29] == a),
        Wasip1ImportName::PathLink => assert(s[30] == a),
        Wasip1ImportName::PathOpen => assert(s[31] == a),
        Wasip1ImportName::PathReadlink => assert(s[32] == a),
        Wasip1ImportName::PathRemoveDirectory => assert(s[33] == a),
        Wasip1ImportName::PathRename => assert(s[34] == a),
        Wasip1ImportName::PathSymlink => assert(s[35] == a),
        Wasip1ImportName::PathUnlinkFile => assert(s[36] == a),
        Wasip1ImportName::PollOneoff => assert(s[37] == a),
        Wasip1ImportName::ProcExit => assert(s[38] == a),
        Wasip1ImportName::ProcRaise => assert(s[39] == a),
        Wasip1ImportName::RandomGet => assert(s[40] == a),
        Wasip1ImportName::SchedYield => assert(s[41] == a),
        Wasip1ImportName::SockAccept => assert(s[42] == a),
        Wasip1ImportName::SockRecv => assert(s[43] == a),
        Wasip1ImportName::SockSend => assert(s[44] == a),
        Wasip1ImportName::SockShutdown => assert(s[45] == a),
    }
}

/// Every handler group, once each.
pub open spec fn spec_all_syscalls() -> Seq<Wasip1Syscall> {
    seq![
        Wasip1Syscall::ArgsEnv,
        Wasip1Syscall::FdWrite,
        Wasip1Syscall::FdRead,
        Wasip1Syscall::FdFdstatGet,
        Wasip1Syscall::FdClose,
        Wasip1Syscall::ClockResGet,
        Wasip1Syscall::ClockTimeGet,
        Wasip1Syscall::PollOneoff,
        Wasip1Syscall::RandomGet,
        Wasip1Syscall::ProcExit,
        Wasip1Syscall::ProcRaise,
        Wasip1Syscall::SchedYield,
        Wasip1Syscall::PathMinimal,
        Wasip1Syscall::PathFull,
        Wasip1Syscall::NetworkObject
    ]
}

pub open spec fn supported_by(h: Wasip1HandlerSet) -> spec_fn(Wasip1Syscall) -> bool {
    |s: Wasip1Syscall| h.spec_supports(s)
}

/// A handler set's count is the number of handler groups it supports, at most fifteen; it is
/// full exactly when that count is fifteen, which is exactly when it supports every group.
#[verifier::spinoff_prover]
#[verifier::rlimit(100)]
pub proof fn lemma_implemented_count_counts_supported(h: Wasip1HandlerSet)
    ensures
        h.spec_implemented_count() == count(spec_all_syscalls(), supported_by(h)),
        h.spec_implemented_count() <= 15,
        h.spec_is_fullish() <==> h.spec_implemented_count() == 15,
        h.spec_is_fullish() <==> (forall|s: Wasip1Syscall| #[trigger] h.spec_supports(s)),
{
    lemma_count_is_flag_sum(h);
    lemma_fullish_is_every_group(h);
    lemma_flag_nat(h.args_env);
    lemma_flag_nat(h.fd_write);
    lemma_flag_nat(h.fd_read);
    lemma_flag_nat(h.fd_fdstat_get);
    lemma_flag_nat(h.fd_close);
    lemma_flag_nat(h.clock_res_get);
    lemma_flag_nat(h.clock_time_get);
    lemma_flag_nat(h.poll_oneoff);
    lemma_flag_nat(h.random_get);
    lemma_flag_nat(h.proc_exit);
    lemma_flag_nat(h.proc_raise);
    lemma_flag_nat(h.sched_yield);
    lemma_flag_nat(h.path_minimal);
    lemma_flag_nat(h.path_full);
    lemma_flag_nat(h.network_object);
}

proof fn lemma_flag_nat(b: bool)
    ensures
        flag_nat(b) <= 1,
        flag_nat(b) == 1 <==> b,
{
    reveal(flag_nat);
}

#[verifier::spinoff_prover]
#[verifier::rlimit(100)]
proof fn lemma_count_is_flag_sum(h: Wasip1HandlerSet)
    ensures
        h.spec_implemented_count() == count(spec_all_syscalls(), supported_by(h)),
{
    let p = supported_by(h);
    lemma_count_all_syscalls(p);
    lemma_supported_by_field(h, Wasip1Syscall::ArgsEnv);
    lemma_supported_by_field(h, Wasip1Syscall::FdWrite);
    lemma_supported_by_field(h, Wasip1Syscall::FdRead);
    lemma_supported_by_field(h, Wasip1Syscall::FdFdstatGet);
    lemma_supported_by_field(h, Wasip1Syscall::FdClose);
    lemma_supported_by_field(h, Wasip1Syscall::ClockResGet);
    lemma_supported_by_field(h, Wasip1Syscall::ClockTimeGet);
    lemma_supported_by_field(h, Wasip1Syscall::PollOneoff);
    lemma_supported_by_field(h, Wasip1Syscall::RandomGet);
    lemma_supported_by_field(h, Wasip1Syscall::ProcExit);
    lemma_supported_by_field(h, Wasip1Syscall::ProcRaise);
    lemma_supported_by_field(h, Wasip1Syscall::SchedYield);
    lemma_supported_by_field(h, Wasip1Syscall::PathMinimal);
    lemma_supported_by_field(h, Wasip1Syscall::PathFull);
    lemma_supported_by_field(h, Wasip1Syscall::NetworkObject);
    assert(count(spec_all_syscalls(), p) == flag_nat(h.args_env) + flag_nat(h.fd_write) + flag_nat(h.fd_read) + flag_nat(h.fd_fdstat_get) + flag_nat(h.fd_close) + flag_nat(h.clock_res_get) + flag_nat(h.clock_time_get) + flag_nat(h.poll_oneoff) + flag_nat(h.random_get) + flag_nat(h.proc_exit) + flag_nat(h.proc_raise) + flag_nat(h.sched_yield) + flag_nat(h.path_minimal) + flag_nat(h.path_full) + flag_nat(h.network_object));
}

proof fn lemma_supported_by_field(h: Wasip1HandlerSet, s: Wasip1Syscall)
    ensures
        flag_nat(supported_by(h)(s)) == flag_nat(h.spec_supports(s)),
{
}

#[verifier::spinoff_prover]
proof fn lemma_count_all_syscalls(p: spec_fn(Wasip1Syscall) -> bool)
    ensures
        count(spec_all_syscalls(), p) == flag_nat(p(Wasip1Syscall::ArgsEnv)) + flag_nat(p(Wasip1Syscall::FdWrite)) + flag_nat(p(Wasip1Syscall::FdRead)) + flag_nat(p(Wasip1Syscall::FdFdstatGet)) + flag_nat(p(Wasip1Syscall::FdClose)) + flag_nat(p(Wasip1Syscall::ClockResGet)) + flag_nat(p(Wasip1Syscall::ClockTimeGet)) + flag_nat(p(Wasip1Syscall::PollOneoff)) + flag_nat(p(Wasip1Syscall::RandomGet)) + flag_nat(p(Wasip1Syscall::ProcExit)) + flag_nat(p(Wasip1Syscall::ProcRaise)) + flag_nat(p(Wasip1Syscall::SchedYield)) + flag_nat(p(Wasip1Syscall::PathMinimal)) + flag_nat(p(Wasip1Syscall::PathFull)) + flag_nat(p(Wasip1Syscall::NetworkObject)),
{
    let all = spec_all_syscalls();
    lemma_all_syscalls_at();
    assert(count_upto(all, p, 0) == 0);
    lemma_count_step(all, p, 0);
    assert(count_upto(all, p, 1) == flag_nat(p(Wasip1Syscall::ArgsEnv)));
    lemma_count_step(all, p, 1);
    assert(count_upto(all, p, 2) == flag_nat(p(Wasip1Syscall::ArgsEnv)) + flag_nat(p(Wasip1Syscall::FdWrite)));
    lemma_count_step(all, p, 2);
    assert(count_upto(all, p, 3) == flag_nat(p(Wasip1Syscall::ArgsEnv)) + flag_nat(p(Wasip1Syscall::FdWrite)) + flag_nat(p(Wasip1Syscall::FdRead)));
    lemma_count_step(all, p, 3);
    assert(count_upto(all, p, 4) == flag_nat(p(Wasip1Syscall::ArgsEnv)) + flag_nat(p(Wasip1Syscall::FdWrite)) + flag_nat(p(Wasip1Syscall::FdRead)) + flag_nat(p(Wasip1Syscall::FdFdstatGet)));
    lemma_count_step(all, p, 4);
    assert(count_upto(all, p, 5) == flag_nat(p(Wasip1Syscall::ArgsEnv)) + flag_nat(p(Wasip1Syscall::FdWrite)) + flag_nat(p(Wasip1Syscall::FdRead)) + flag_nat(p(Wasip1Syscall::FdFdstatGet)) + flag_nat(p(Wasip1Syscall::FdClose)));
    lemma_count_step(all, p, 5);
    assert(count_upto(all, p, 6) == flag_nat(p(Wasip1Syscall::ArgsEnv)) + flag_nat(p(Wasip1Syscall::FdWrite)) + flag_nat(p(Wasip1Syscall::FdRead)) + flag_nat(p(Wasip1Syscall::FdFdstatGet)) + flag_nat(p(Wasip1Syscall::FdClose)) + flag_nat(p(Wasip1Syscall::ClockResGet)));
    lemma_count_step(all, p, 6);
    assert(count_upto(all, p, 7) == flag_nat(p(Wasip1Syscall::ArgsEnv)) + flag_nat(p(Wasip1Syscall::FdWrite)) + flag_nat(p(Wasip1Syscall::FdRead)) + flag_nat(p(Wasip1Syscall::FdFdstatGet)) + flag_nat(p(Wasip1Syscall::FdClose)) + flag_nat(p(Wasip1Syscall::ClockResGet)) + flag_nat(p(Wasip1Syscall::ClockTimeGet)));
    lemma_count_step(all, p, 7);
    assert(count_upto(all, p, 8) == flag_nat(p(Wasip1Syscall::ArgsEnv)) + flag_nat(p(Wasip1Syscall::FdWrite)) + flag_nat(p(Wasip1Syscall::FdRead)) + flag_nat(p(Wasip1Syscall::FdFdstatGet)) + flag_nat(p(Wasip1Syscall::FdClose)) + flag_nat(p(Wasip1Syscall::ClockResGet)) + flag_nat(p(Wasip1Syscall::ClockTimeGet)) + flag_nat(p(Wasip1Syscall::PollOneoff)));
    lemma_count_step(all, p, 8);
    assert(count_upto(all, p, 9) == flag_nat(p(Wasip1Syscall::ArgsEnv)) + flag_nat(p(Wasip1Syscall::FdWrite)) + flag_nat(p(Wasip1Syscall::FdRead)) + flag_nat(p(Wasip1Syscall::FdFdstatGet)) + flag_nat(p(Wasip1Syscall::FdClose)) + flag_nat(p(Wasip1Syscall::ClockResGet)) + flag_nat(p(Wasip1Syscall::ClockTimeGet)) + flag_nat(p(Wasip1Syscall::PollOneoff)) + flag_nat(p(Wasip1Syscall::RandomGet)));
    lemma_count_step(all, p, 9);
    assert(count_upto(all, p, 10) == flag_nat(p(Wasip1Syscall::ArgsEnv)) + flag_nat(p(Wasip1Syscall::FdWrite)) + flag_nat(p(Wasip1Syscall::FdRead)) + flag_nat(p(Wasip1Syscall::FdFdstatGet)) + flag_nat(p(Wasip1Syscall::FdClose)) + flag_nat(p(Wasip1Syscall::ClockResGet)) + flag_nat(p(Wasip1Syscall::ClockTimeGet)) + flag_nat(p(Wasip1Syscall::PollOneoff)) + flag_nat(p(Wasip1Syscall::RandomGet)) + flag_nat(p(Wasip1Syscall::ProcExit)));
    lemma_count_step(all, p, 10);
    assert(count_upto(all, p, 11) == flag_nat(p(Wasip1Syscall::ArgsEnv)) + flag_nat(p(Wasip1Syscall::FdWrite)) + flag_nat(p(Wasip1Syscall::FdRead)) + flag_nat(p(Wasip1Syscall::FdFdstatGet)) + flag_nat(p(Wasip1Syscall::FdClose)) + flag_nat(p(Wasip1Syscall::ClockResGet)) + flag_nat(p(Wasip1Syscall::ClockTimeGet)) + flag_nat(p(Wasip1Syscall::PollOneoff)) + flag_nat(p(Wasip1Syscall::RandomGet)) + flag_nat(p(Wasip1Syscall::ProcExit)) + flag_nat(p(Wasip1Syscall::ProcRaise)));
    lemma_count_step(all, p, 11);
    assert(count_upto(all, p, 12) == flag_nat(p(Wasip1Syscall::ArgsEnv)) + flag_nat(p(Wasip1Syscall::FdWrite)) + flag_nat(p(Wasip1Syscall::FdRead)) + flag_nat(p(Wasip1Syscall::FdFdstatGet)) + flag_nat(p(Wasip1Syscall::FdClose)) + flag_nat(p(Wasip1Syscall::ClockResGet)) + flag_nat(p(Wasip1Syscall::ClockTimeGet)) + flag_nat(p(Wasip1Syscall::PollOneoff)) + flag_nat(p(Wasip1Syscall::RandomGet)) + flag_nat(p(Wasip1Syscall::ProcExit)) + flag_nat(p(Wasip1Syscall::ProcRaise)) + flag_nat(p(Wasip1Syscall::SchedYield)));
    lemma_count_step(all, p, 12);
    assert(count_upto(all, p, 13) == flag_nat(p(Wasip1Syscall::ArgsEnv)) + flag_nat(p(Wasip1Syscall::FdWrite)) + flag_nat(p(Wasip1Syscall::FdRead)) + flag_nat(p(Wasip1Syscall::FdFdstatGet)) + flag_nat(p(Wasip1Syscall::FdClose)) + flag_nat(p(Wasip1Syscall::ClockResGet)) + flag_nat(p(Wasip1Syscall::ClockTimeGet)) + flag_nat(p(Wasip1Syscall::PollOneoff)) + flag_nat(p(Wasip1Syscall::RandomGet)) + flag_nat(p(Wasip1Syscall::ProcExit)) + flag_nat(p(Wasip1Syscall::ProcRaise)) + flag_nat(p(Wasip1Syscall::SchedYield)) + flag_nat(p(Wasip1Syscall::PathMinimal)));
    lemma_count_step(all, p, 13);
    assert(count_upto(all, p, 14) == flag_nat(p(Wasip1Syscall::ArgsEnv)) + flag_nat(p(Wasip1Syscall::FdWrite)) + flag_nat(p(Wasip1Syscall::FdRead)) + flag_nat(p(Wasip1Syscall::FdFdstatGet)) + flag_nat(p(Wasip1Syscall::FdClose)) + flag_nat(p(Wasip1Syscall::ClockResGet)) + flag_nat(p(Wasip1Syscall::ClockTimeGet)) + flag_nat(p(Wasip1Syscall::PollOneoff)) + flag_nat(p(Wasip1Syscall::RandomGet)) + flag_nat(p(Wasip1Syscall::ProcExit)) + flag_nat(p(Wasip1Syscall::ProcRaise)) + flag_nat(p(Wasip1Syscall::SchedYield)) + flag_nat(p(Wasip1Syscall::PathMinimal)) + flag_nat(p(Wasip1Syscall::PathFull)));
    lemma_count_step(all, p, 14);
    assert(count_upto(all, p, 15) == flag_nat(p(Wasip1Syscall::ArgsEnv)) + flag_nat(p(Wasip1Syscall::FdWrite)) + flag_nat(p(Wasip1Syscall::FdRead)) + flag_nat(p(Wasip1Syscall::FdFdstatGet)) + flag_nat(p(Wasip1Syscall::FdClose)) + flag_nat(p(Wasip1Syscall::ClockResGet)) + flag_nat(p(Wasip1Syscall::ClockTimeGet)) + flag_nat(p(Wasip1Syscall::PollOneoff)) + flag_nat(p(Wasip1Syscall::RandomGet)) + flag_nat(p(Wasip1Syscall::ProcExit)) + flag_nat(p(Wasip1Syscall::ProcRaise)) + flag_nat(p(Wasip1Syscall::SchedYield)) + flag_nat(p(Wasip1Syscall::PathMinimal)) + flag_nat(p(Wasip1Syscall::PathFull)) + flag_nat(p(Wasip1Syscall::NetworkObject)));
}

proof fn lemma_count_step(s: Seq<Wasip1Syscall>, p: spec_fn(Wasip1Syscall) -> bool, k: int)
    requires
        0 <= k < s.len(),
    ensures
        count_upto(s, p, k + 1) == count_upto(s, p, k) + flag_nat(p(s[k])),
{
    reveal(flag_nat);
}

proof fn lemma_all_syscalls_at()
    ensures
        spec_all_syscalls().len() == 15,
        spec_all_syscalls()[0] == Wasip1Syscall::ArgsEnv,
        spec_all_syscalls()[1] == Wasip1Syscall::FdWrite,
        spec_all_syscalls()[2] == Wasip1Syscall::FdRead,
        spec_all_syscalls()[3] == Wasip1Syscall::FdFdstatGet,
        spec_all_syscalls()[4] == Wasip1Syscall::FdClose,
        spec_all_syscalls()[5] == Wasip1Syscall::ClockResGet,
        spec_all_syscalls()[6] == Wasip1Syscall::ClockTimeGet,
        spec_all_syscalls()[7] == Wasip1Syscall::PollOneoff,
        spec_all_syscalls()[8] == Wasip1Syscall::RandomGet,
        spec_all_syscalls()[9] == Wasip1Syscall::ProcExit,
        spec_all_syscalls()[10] == Wasip1Syscall::ProcRaise,
        spec_all_syscalls()[11] == Wasip1Syscall::SchedYield,
        spec_all_syscalls()[12] == Wasip1Syscall::PathMinimal,
        spec_all_syscalls()[13] == Wasip1Syscall::PathFull,
        spec_all_syscalls()[14] == Wasip1Syscall::NetworkObject,
{
}

proof fn lemma_fullish_is_every_group(h: Wasip1HandlerSet)
    ensures
        h.spec_is_fullish() <==> (forall|s: Wasip1Syscall| #[trigger] h.spec_supports(s)),
{
    if forall|s: Wasip1Syscall| #[trigger] h.spec_supports(s) {
        assert(h.spec_supports(Wasip1Syscall::ArgsEnv));
        assert(h.spec_supports(Wasip1Syscall::FdWrite));
        assert(h.spec_supports(Wasip1Syscall::FdRead));
        assert(h.spec_supports(Wasip1Syscall::FdFdstatGet));
        assert(h.spec_supports(Wasip1Syscall::FdClose));
        assert(h.spec_supports(Wasip1Syscall::ClockResGet));
        assert(h.spec_supports(Wasip1Syscall::ClockTimeGet));
        assert(h.spec_supports(Wasip1Syscall::PollOneoff));
        assert(h.spec_supports(Wasip1Syscall::RandomGet));
        assert(h.spec_supports(Wasip1Syscall::ProcExit));
        assert(h.spec_supports(Wasip1Syscall::ProcRaise));
        assert(h.spec_supports(Wasip1Syscall::SchedYield));
        assert(h.spec_supports(Wasip1Syscall::PathMinimal));
        assert(h.spec_supports(Wasip1Syscall::PathFull));
        assert(h.spec_supports(Wasip1Syscall::NetworkObject));
    }
}

/// The handler groups are listed each once.
pub proof fn lemma_all_syscalls_listed(s: Wasip1Syscall)
    ensures
        spec_all_syscalls().contains(s),
        forall|i: int, j: int| 0 <= i < j < 15 ==> spec_all_syscalls()[i] != spec_all_syscalls()[j],
        spec_all_syscalls().len() == 15,
{
    let all = spec_all_syscalls();
    match s {
        Wasip1Syscall::ArgsEnv => assert(all[0] == s),
        Wasip1Syscall::FdWrite => assert(all[1] == s),
        Wasip1Syscall::FdRead => assert(all[2] == s),
        Wasip1Syscall::FdFdstatGet => assert(all[3] == s),
        Wasip1Syscall::FdClose => assert(all[4] == s),
        Wasip1Syscall::ClockResGet => assert(all[5] == s),
        Wasip1Syscall::ClockTimeGet => assert(all[6] == s),
        Wasip1Syscall::PollOneoff => assert(all[7] == s),
        Wasip1Syscall::RandomGet => assert(all[8] == s),
        Wasip1Syscall::ProcExit => assert(all[9] == s),
        Wasip1Syscall::ProcRaise => assert(all[10] == s),
        Wasip1Syscall::SchedYield => assert(all[11] == s),
        Wasip1Syscall::PathMinimal => assert(all[12] == s),
        Wasip1Syscall::PathFull => assert(all[13] == s),
        Wasip1Syscall::NetworkObject => assert(all[14] == s),
    }
}

} // verus!
