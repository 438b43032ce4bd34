//! Admission of WASI P1 guest modules: header, Preview 1 import evidence and handler coverage.
use vstd::prelude::*;
use vstd::string::*;
use crate::choreography::protocol::{
    ClockNow, ProtocolError, RandomSeed, StderrChunk, StdinChunk, StdinRequest, StdoutChunk, Wasip1ExitStatus,
    Wasip1StreamChunk, MEM_LEASE_NONE, WASIP1_STREAM_CHUNK_CAPACITY,
};
use crate::kernel::features::{
    spec_preview1_imports, wasip1_preview1_imports, Wasip1HandlerSet, Wasip1ImportName, Wasip1Syscall,
    WASIP1_PREVIEW1_MODULE,
};
use super::args::Wasip1StaticArgEnv;
use super::scan::{bytes_at, contains_bytes, find_bytes, lemma_find_bytes_from, spec_find_bytes, spec_var_u32, lemma_var_u32_advances, ScanError, WasmByteReader};

verus! {

/// Why a guest module is not admitted.
#[derive(Clone, Copy, Debug, PartialEq, Eq, Structural)]
pub enum Wasip1Error {
    Truncated,
    InvalidModule,
    MissingWasiModule,
    MissingFdWriteImport,
    MissingFdReadImport,
    MissingFdStatImport,
    MissingFdCloseImport,
    MissingClockResGetImport,
    MissingClockTimeGetImport,
    MissingPollOneoffImport,
    MissingRandomGetImport,
    MissingProcExitImport,
    MissingProcRaiseImport,
    MissingSchedYieldImport,
    MissingArgsSizesGetImport,
    MissingArgsGetImport,
    MissingEnvironSizesGetImport,
    MissingEnvironGetImport,
    MissingPathMinimalImport,
    MissingPathFullImport,
    MissingSocketImport,
    UnsupportedImport,
    UnsupportedByProfile,
    StdoutNotFound,
    StderrNotFound,
    StdoutTooLarge,
    StderrTooLarge,
    StdinTooLarge,
}

/// The bytes of an import's field name.
pub open spec fn import_bytes(import: Wasip1ImportName) -> Seq<u8> {
    import.spec_name().spec_bytes()
}

/// The bytes of the Preview 1 module name.
pub open spec fn module_name_bytes() -> Seq<u8> {
    WASIP1_PREVIEW1_MODULE.spec_bytes()
}

/// The Wasm magic and version 1.
pub open spec fn wasm_header() -> Seq<u8> {
    seq![0x00u8, 0x61, 0x73, 0x6d, 0x01, 0x00, 0x00, 0x00]
}

/// An import namespace this runtime never admits.
pub open spec fn disallowed_prefix() -> Seq<u8> {
    seq![119u8, 97, 115, 105, 58]
}

/// A version suffix this runtime never admits.
pub open spec fn disallowed_suffix() -> Seq<u8> {
    seq![64u8, 48, 46, 50]
}

pub open spec fn spec_header(b: Seq<u8>) -> Result<(), Wasip1Error> {
    if b.len() < 8 {
        Err(Wasip1Error::Truncated)
    } else if b.subrange(0, 8) != wasm_header() {
        Err(Wasip1Error::InvalidModule)
    } else {
        Ok(())
    }
}

pub open spec fn spec_require(b: Seq<u8>, needle: Seq<u8>, missing: Wasip1Error) -> Result<(), Wasip1Error> {
    if contains_bytes(b, needle) { Ok(()) } else { Err(missing) }
}

/// The first failure of two checks run in order.
pub open spec fn then(first: Result<(), Wasip1Error>, second: Result<(), Wasip1Error>) -> Result<(), Wasip1Error> {
    if first is Err { first } else { second }
}

pub open spec fn spec_validate_module(b: Seq<u8>) -> Result<(), Wasip1Error> {
    then(spec_header(b), spec_require(b, module_name_bytes(), Wasip1Error::MissingWasiModule))
}

pub open spec fn spec_supported_import_set(b: Seq<u8>) -> Result<(), Wasip1Error> {
    if contains_bytes(b, disallowed_prefix()) || contains_bytes(b, disallowed_suffix()) {
        Err(Wasip1Error::UnsupportedImport)
    } else {
        Ok(())
    }
}

/// Refused when the module names an import whose handler group `handlers` lacks.
pub open spec fn spec_imports_against_handlers(b: Seq<u8>, handlers: Wasip1HandlerSet) -> Result<(), Wasip1Error> {
    if exists|i: int| 0 <= i < 46 && contains_bytes(b, import_bytes(#[trigger] spec_preview1_imports()[i]))
        && !handlers.spec_supports(spec_preview1_imports()[i].spec_syscall()) {
        Err(Wasip1Error::UnsupportedByProfile)
    } else {
        Ok(())
    }
}

/// Refused with `error` when some import of group `syscall` is absent.
pub open spec fn spec_require_group(b: Seq<u8>, syscall: Wasip1Syscall, error: Wasip1Error) -> Result<(), Wasip1Error> {
    if exists|i: int| 0 <= i < 46 && (#[trigger] spec_preview1_imports()[i]).spec_syscall() == syscall
        && !contains_bytes(b, import_bytes(spec_preview1_imports()[i])) {
        Err(error)
    } else {
        Ok(())
    }
}

pub open spec fn spec_install(b: Seq<u8>) -> Result<(), Wasip1Error> {
    then(spec_validate_module(b), spec_supported_import_set(b))
}

pub open spec fn spec_install_with_handlers(b: Seq<u8>, handlers: Wasip1HandlerSet) -> Result<(), Wasip1Error> {
    then(spec_install(b), spec_imports_against_handlers(b, handlers))
}

/// The imports a full-subset module must carry, each with the error of its absence.
pub open spec fn full_subset_required() -> Seq<(Wasip1ImportName, Wasip1Error)> {
    seq![
        (Wasip1ImportName::FdWrite, Wasip1Error::MissingFdWriteImport),
        (Wasip1ImportName::FdRead, Wasip1Error::MissingFdReadImport),
        (Wasip1ImportName::FdFdstatGet, Wasip1Error::MissingFdStatImport),
        (Wasip1ImportName::FdClose, Wasip1Error::MissingFdCloseImport),
        (Wasip1ImportName::ClockResGet, Wasip1Error::MissingClockResGetImport),
        (Wasip1ImportName::ClockTimeGet, Wasip1Error::MissingClockTimeGetImport),
        (Wasip1ImportName::PollOneoff, Wasip1Error::MissingPollOneoffImport),
        (Wasip1ImportName::RandomGet, Wasip1Error::MissingRandomGetImport),
        (Wasip1ImportName::ProcExit, Wasip1Error::MissingProcExitImport),
        (Wasip1ImportName::ProcRaise, Wasip1Error::MissingProcRaiseImport),
        (Wasip1ImportName::SchedYield, Wasip1Error::MissingSchedYieldImport),
        (Wasip1ImportName::ArgsSizesGet, Wasip1Error::MissingArgsSizesGetImport),
        (Wasip1ImportName::ArgsGet, Wasip1Error::MissingArgsGetImport),
        (Wasip1ImportName::EnvironSizesGet, Wasip1Error::MissingEnvironSizesGetImport),
        (Wasip1ImportName::EnvironGet, Wasip1Error::MissingEnvironGetImport)
    ]
}

/// The first required import (from index `k` on) that `b` lacks.
pub open spec fn spec_require_all(b: Seq<u8>, list: Seq<(Wasip1ImportName, Wasip1Error)>, k: int) -> Result<(), Wasip1Error>
    decreases list.len() - k,
{
    if k < 0 || k >= list.len() {
        Ok(())
    } else if !contains_bytes(b, import_bytes(list[k].0)) {
        Err(list[k].1)
    } else {
        spec_require_all(b, list, k + 1)
    }
}

/// What a full-subset module needs beyond admission.
pub open spec fn spec_full_subset_imports(b: Seq<u8>) -> Result<(), Wasip1Error> {
    then(spec_require_all(b, full_subset_required(), 0),
    then(spec_require_group(b, Wasip1Syscall::PathMinimal, Wasip1Error::MissingPathMinimalImport),
    then(spec_require_group(b, Wasip1Syscall::PathFull, Wasip1Error::MissingPathFullImport),
        spec_require_group(b, Wasip1Syscall::NetworkObject, Wasip1Error::MissingSocketImport))))
}

fn import_name_bytes(import: Wasip1ImportName) -> (out: &'static [u8])
    ensures
        out@ == import_bytes(import),
{
    import.name().as_bytes()
}

fn require_import(bytes: &[u8], import: &[u8], missing: Wasip1Error) -> (out: Result<(), Wasip1Error>)
    ensures
        out == spec_require(bytes@, import@, missing),
{
    if find_bytes(bytes, import).is_none() {
        return Err(missing);
    }
    Ok(())
}

fn validate_module_header(bytes: &[u8]) -> (out: Result<(), Wasip1Error>)
    ensures
        out == spec_header(bytes@),
{
    if bytes.len() < 8 {
        return Err(Wasip1Error::Truncated);
    }
    let header = vec![0x00u8, 0x61, 0x73, 0x6d, 0x01, 0x00, 0x00, 0x00];
    let mut i: usize = 0;
    while i < 8
        invariant
            bytes@.len() >= 8,
            header@ == wasm_header(),
            i <= 8,
            forall|j: int| 0 <= j < i ==> bytes@[j] == wasm_header()[j],
        decreases 8 - i,
    {
        if bytes[i] != header[i] {
            assert(bytes@.subrange(0, 8)[i as int] != wasm_header()[i as int]);
            return Err(Wasip1Error::InvalidModule);
        }
        i = i + 1;
    }
    assert(bytes@.subrange(0, 8) =~= wasm_header());
    Ok(())
}

fn validate_module(bytes: &[u8]) -> (out: Result<(), Wasip1Error>)
    ensures
        out == spec_validate_module(bytes@),
{
    validate_module_header(bytes)?;
    require_import(bytes, WASIP1_PREVIEW1_MODULE.as_bytes(), Wasip1Error::MissingWasiModule)?;
    Ok(())
}

fn validate_supported_import_set(bytes: &[u8]) -> (out: Result<(), Wasip1Error>)
    ensures
        out == spec_supported_import_set(bytes@),
{
    let prefix = vec![119u8, 97, 115, 105, 58];
    let suffix = vec![64u8, 48, 46, 50];
    assert(prefix@ =~= disallowed_prefix());
    assert(suffix@ =~= disallowed_suffix());
    if find_bytes(bytes, prefix.as_slice()).is_some() || find_bytes(bytes, suffix.as_slice()).is_some() {
        return Err(Wasip1Error::UnsupportedImport);
    }
    Ok(())
}

fn validate_imports_against_handlers(bytes: &[u8], handlers: Wasip1HandlerSet) -> (out: Result<(), Wasip1Error>)
    ensures
        out == spec_imports_against_handlers(bytes@, handlers),
{
    let imports = wasip1_preview1_imports();
    let mut i: usize = 0;
    while i < imports.len()
        invariant
            imports@ == spec_preview1_imports(),
            i <= 46,
            forall|j: int| 0 <= j < i ==> !(contains_bytes(bytes@, import_bytes(#[trigger] spec_preview1_imports()[j]))
                && !handlers.spec_supports(spec_preview1_imports()[j].spec_syscall())),
        decreases 46 - i,
    {
        let import = imports[i];
        if find_bytes(bytes, import_name_bytes(import)).is_some() && !handlers.supports(import.syscall()) {
            return Err(Wasip1Error::UnsupportedByProfile);
        }
        i = i + 1;
    }
    Ok(())
}

fn require_imports_for_syscall(bytes: &[u8], syscall: Wasip1Syscall, error: Wasip1Error) -> (out: Result<(), Wasip1Error>)
    ensures
        out == spec_require_group(bytes@, syscall, error),
{
    let imports = wasip1_preview1_imports();
    let mut i: usize = 0;
    while i < imports.len()
        invariant
            imports@ == spec_preview1_imports(),
            i <= 46,
            forall|j: int| 0 <= j < i ==> !((#[trigger] spec_preview1_imports()[j]).spec_syscall() == syscall
                && !contains_bytes(bytes@, import_bytes(spec_preview1_imports()[j]))),
        decreases 46 - i,
    {
        let import = imports[i];
        if import.syscall() == syscall {
            require_import(bytes, import_name_bytes(import), error)?;
        }
        i = i + 1;
    }
    Ok(())
}

fn full_subset_required_list() -> (out: Vec<(Wasip1ImportName, Wasip1Error)>)
    ensures
        out@ == full_subset_required(),
{
    let out = vec![
        (Wasip1ImportName::FdWrite, Wasip1Error::MissingFdWriteImport),
        (Wasip1ImportName::FdRead, Wasip1Error::MissingFdReadImport),
        (Wasip1ImportName::FdFdstatGet, Wasip1Error::MissingFdStatImport),
        (Wasip1ImportName::FdClose, Wasip1Error::MissingFdCloseImport),
        (Wasip1ImportName::ClockResGet, Wasip1Error::MissingClockResGetImport),
        (Wasip1ImportName::ClockTimeGet, Wasip1Error::MissingClockTimeGetImport),
        (Wasip1ImportName::PollOneoff, Wasip1Error::MissingPollOneoffImport),
        (Wasip1ImportName::RandomGet, Wasip1Error::MissingRandomGetImport),
        (Wasip1ImportName::ProcExit, Wasip1Error::MissingProcExitImport),
        (Wasip1ImportName::ProcRaise, Wasip1Error::MissingProcRaiseImport),
        (Wasip1ImportName::SchedYield, Wasip1Error::MissingSchedYieldImport),
        (Wasip1ImportName::ArgsSizesGet, Wasip1Error::MissingArgsSizesGetImport),
        (Wasip1ImportName::ArgsGet, Wasip1Error::MissingArgsGetImport),
        (Wasip1ImportName::EnvironSizesGet, Wasip1Error::MissingEnvironSizesGetImport),
        (Wasip1ImportName::EnvironGet, Wasip1Error::MissingEnvironGetImport),
    ];
    assert(out@ =~= full_subset_required());
    out
}

fn require_full_subset_imports(bytes: &[u8]) -> (out: Result<(), Wasip1Error>)
    ensures
        out == spec_full_subset_imports(bytes@),
{
    let list = full_subset_required_list();
    let mut k: usize = 0;
    while k < list.len()
        invariant
            list@ == full_subset_required(),
            k <= list@.len(),
            spec_require_all(bytes@, list@, 0) == spec_require_all(bytes@, list@, k as int),
        decreases list@.len() - k,
    {
        let (import, error) = list[k];
        require_import(bytes, import_name_bytes(import), error)?;
        k = k + 1;
    }
    require_imports_for_syscall(bytes, Wasip1Syscall::PathMinimal, Wasip1Error::MissingPathMinimalImport)?;
    require_imports_for_syscall(bytes, Wasip1Syscall::PathFull, Wasip1Error::MissingPathFullImport)?;
    require_imports_for_syscall(bytes, Wasip1Syscall::NetworkObject, Wasip1Error::MissingSocketImport)?;
    Ok(())
}

/// A guest module admitted for WASI P1.
pub struct Wasip1Module<'a> {
    pub bytes: &'a [u8],
}

impl<'a> Wasip1Module<'a> {
    pub fn install(bytes: &'a [u8]) -> (out: Result<Self, Wasip1Error>)
        ensures
            match spec_install(bytes@) {
                Ok(_) => out is Ok && out->Ok_0.bytes@ == bytes@,
                Err(e) => out is Err && out->Err_0 == e,
            },
    {
        validate_module(bytes)?;
        validate_supported_import_set(bytes)?;
        Ok(Self { bytes })
    }

    pub fn install_with_handlers(bytes: &'a [u8], handlers: Wasip1HandlerSet) -> (out: Result<Self, Wasip1Error>)
        ensures
            match spec_install_with_handlers(bytes@, handlers) {
                Ok(_) => out is Ok && out->Ok_0.bytes@ == bytes@,
                Err(e) => out is Err && out->Err_0 == e,
            },
    {
        validate_module(bytes)?;
        validate_supported_import_set(bytes)?;
        validate_imports_against_handlers(bytes, handlers)?;
        Ok(Self { bytes })
    }

    pub fn bytes(&self) -> (out: &'a [u8])
        ensures
            out@ == self.bytes@,
    {
        self.bytes
    }
}

/// A module that carries every Preview 1 import.
pub struct Wasip1FullSubsetModule<'a> {
    pub bytes: &'a [u8],
}

impl<'a> Wasip1FullSubsetModule<'a> {
    pub fn parse(bytes: &'a [u8]) -> (out: Result<Self, Wasip1Error>)
        ensures
            match then(spec_install(bytes@), spec_full_subset_imports(bytes@)) {
                Ok(_) => out is Ok && out->Ok_0.bytes@ == bytes@,
                Err(e) => out is Err && out->Err_0 == e,
            },
    {
        Wasip1Module::install(bytes)?;
        require_full_subset_imports(bytes)?;
        Ok(Self { bytes })
    }

    pub fn parse_with_handlers(bytes: &'a [u8], handlers: Wasip1HandlerSet) -> (out: Result<Self, Wasip1Error>)
        ensures
            match then(spec_install_with_handlers(bytes@, handlers), spec_full_subset_imports(bytes@)) {
                Ok(_) => out is Ok && out->Ok_0.bytes@ == bytes@,
                Err(e) => out is Err && out->Err_0 == e,
            },
    {
        Wasip1Module::install_with_handlers(bytes, handlers)?;
        require_full_subset_imports(bytes)?;
        Ok(Self { bytes })
    }

    pub fn bytes(&self) -> (out: &'a [u8])
        ensures
            out@ == self.bytes@,
    {
        self.bytes
    }
}

/// A module that writes through `fd_write`.
pub struct Wasip1FdWriteModule<'a> {
    pub bytes: &'a [u8],
}

impl<'a> Wasip1FdWriteModule<'a> {
    pub fn parse(bytes: &'a [u8]) -> (out: Result<Self, Wasip1Error>)
        ensures
            match then(spec_install(bytes@), spec_require(bytes@, import_bytes(Wasip1ImportName::FdWrite), Wasip1Error::MissingFdWriteImport)) {
                Ok(_) => out is Ok && out->Ok_0.bytes@ == bytes@,
                Err(e) => out is Err && out->Err_0 == e,
            },
    {
        Wasip1Module::install(bytes)?;
        require_import(bytes, import_name_bytes(Wasip1ImportName::FdWrite), Wasip1Error::MissingFdWriteImport)?;
        Ok(Self { bytes: bytes })
    }

    pub fn bytes(&self) -> (out: &'a [u8])
        ensures
            out@ == self.bytes@,
    {
        self.bytes
    }
}

/// A module that blinks an LED: `fd_write` and `poll_oneoff`.
pub struct Wasip1LedBlinkModule<'a> {
    pub bytes: &'a [u8],
}

impl<'a> Wasip1LedBlinkModule<'a> {
    pub fn parse(bytes: &'a [u8]) -> (out: Result<Self, Wasip1Error>)
        ensures
            match then(then(spec_install(bytes@), spec_require(bytes@, import_bytes(Wasip1ImportName::FdWrite), Wasip1Error::MissingFdWriteImport)), spec_require(bytes@, import_bytes(Wasip1ImportName::PollOneoff), Wasip1Error::MissingPollOneoffImport)) {
                Ok(_) => out is Ok && out->Ok_0.bytes@ == bytes@,
                Err(e) => out is Err && out->Err_0 == e,
            },
    {
        Wasip1Module::install(bytes)?;
        require_import(bytes, import_name_bytes(Wasip1ImportName::FdWrite), Wasip1Error::MissingFdWriteImport)?;
        require_import(bytes, import_name_bytes(Wasip1ImportName::PollOneoff), Wasip1Error::MissingPollOneoffImport)?;
        Ok(Self { bytes: bytes })
    }

    pub fn bytes(&self) -> (out: &'a [u8])
        ensures
            out@ == self.bytes@,
    {
        self.bytes
    }
}

/// A module that writes to stdout.
pub struct Wasip1StdoutModule<'a> {
    pub bytes: &'a [u8],
}

impl<'a> Wasip1StdoutModule<'a> {
    pub fn parse(bytes: &'a [u8]) -> (out: Result<Self, Wasip1Error>)
        ensures
            match then(spec_install(bytes@), spec_require(bytes@, import_bytes(Wasip1ImportName::FdWrite), Wasip1Error::MissingFdWriteImport)) {
                Ok(_) => out is Ok && out->Ok_0.bytes@ == bytes@,
                Err(e) => out is Err && out->Err_0 == e,
            },
    {
        Wasip1Module::install(bytes)?;
        require_import(bytes, import_name_bytes(Wasip1ImportName::FdWrite), Wasip1Error::MissingFdWriteImport)?;
        Ok(Self { bytes: bytes })
    }

    /// The stdout chunk carrying `marker`, found in the module's bytes.
    pub fn stdout_chunk_for(&self, marker: &[u8]) -> (out: Result<StdoutChunk, Wasip1Error>)
        ensures
            match spec_chunk_for(self.bytes@, marker@, Wasip1Error::StdoutNotFound, Wasip1Error::StdoutTooLarge) {
                Ok(_) => out is Ok && out->Ok_0.lease_id == MEM_LEASE_NONE && out->Ok_0.bytes@ == marker@,
                Err(e) => out == Err::<StdoutChunk, Wasip1Error>(e),
            },
    {
        chunk_for(self.bytes, marker, Wasip1Error::StdoutNotFound, Wasip1Error::StdoutTooLarge)
    }
}

/// A module that writes to stderr.
pub struct Wasip1StderrModule<'a> {
    pub bytes: &'a [u8],
}

impl<'a> Wasip1StderrModule<'a> {
    pub fn parse(bytes: &'a [u8]) -> (out: Result<Self, Wasip1Error>)
        ensures
            match then(spec_install(bytes@), spec_require(bytes@, import_bytes(Wasip1ImportName::FdWrite), Wasip1Error::MissingFdWriteImport)) {
                Ok(_) => out is Ok && out->Ok_0.bytes@ == bytes@,
                Err(e) => out is Err && out->Err_0 == e,
            },
    {
        Wasip1Module::install(bytes)?;
        require_import(bytes, import_name_bytes(Wasip1ImportName::FdWrite), Wasip1Error::MissingFdWriteImport)?;
        Ok(Self { bytes: bytes })
    }

    /// The stderr chunk carrying `marker`, found in the module's bytes.
    pub fn stderr_chunk_for(&self, marker: &[u8]) -> (out: Result<StderrChunk, Wasip1Error>)
        ensures
            match spec_chunk_for(self.bytes@, marker@, Wasip1Error::StderrNotFound, Wasip1Error::StderrTooLarge) {
                Ok(_) => out is Ok && out->Ok_0.lease_id == MEM_LEASE_NONE && out->Ok_0.bytes@ == marker@,
                Err(e) => out == Err::<StderrChunk, Wasip1Error>(e),
            },
    {
        chunk_for(self.bytes, marker, Wasip1Error::StderrNotFound, Wasip1Error::StderrTooLarge)
    }
}

/// A module that reads stdin.
pub struct Wasip1StdinModule<'a> {
    pub _bytes: &'a [u8],
}

impl<'a> Wasip1StdinModule<'a> {
    pub fn parse(bytes: &'a [u8]) -> (out: Result<Self, Wasip1Error>)
        ensures
            match then(spec_install(bytes@), spec_require(bytes@, import_bytes(Wasip1ImportName::FdRead), Wasip1Error::MissingFdReadImport)) {
                Ok(_) => out is Ok && out->Ok_0._bytes@ == bytes@,
                Err(e) => out is Err && out->Err_0 == e,
            },
    {
        Wasip1Module::install(bytes)?;
        require_import(bytes, import_name_bytes(Wasip1ImportName::FdRead), Wasip1Error::MissingFdReadImport)?;
        Ok(Self { _bytes: bytes })
    }

    pub fn stdin_request_for(&self, max_len: u8) -> (out: Result<StdinRequest, Wasip1Error>)
        ensures
            max_len <= WASIP1_STREAM_CHUNK_CAPACITY ==> out == Ok::<StdinRequest, Wasip1Error>(StdinRequest { lease_id: MEM_LEASE_NONE, max_len }),
            max_len > WASIP1_STREAM_CHUNK_CAPACITY ==> out == Err::<StdinRequest, Wasip1Error>(Wasip1Error::StdinTooLarge),
    {
        match StdinRequest::new(max_len) {
            Ok(request) => Ok(request),
            Err(error) => Err(map_chunk_error(error, Wasip1Error::StdinTooLarge)),
        }
    }

    pub fn stdin_chunk_for(&self, input: &[u8]) -> (out: Result<StdinChunk, Wasip1Error>)
        ensures
            input@.len() <= WASIP1_STREAM_CHUNK_CAPACITY ==> out is Ok && out->Ok_0.bytes@ == input@
                && out->Ok_0.lease_id == MEM_LEASE_NONE,
            input@.len() > WASIP1_STREAM_CHUNK_CAPACITY ==> out == Err::<StdinChunk, Wasip1Error>(Wasip1Error::StdinTooLarge),
    {
        match Wasip1StreamChunk::new(input) {
            Ok(chunk) => Ok(chunk),
            Err(error) => Err(map_chunk_error(error, Wasip1Error::StdinTooLarge)),
        }
    }
}

/// A module that reads the wall clock.
pub struct Wasip1ClockModule<'a> {
    pub _bytes: &'a [u8],
}

impl<'a> Wasip1ClockModule<'a> {
    pub fn parse(bytes: &'a [u8]) -> (out: Result<Self, Wasip1Error>)
        ensures
            match then(spec_install(bytes@), spec_require(bytes@, import_bytes(Wasip1ImportName::ClockTimeGet), Wasip1Error::MissingClockTimeGetImport)) {
                Ok(_) => out is Ok && out->Ok_0._bytes@ == bytes@,
                Err(e) => out is Err && out->Err_0 == e,
            },
    {
        Wasip1Module::install(bytes)?;
        require_import(bytes, import_name_bytes(Wasip1ImportName::ClockTimeGet), Wasip1Error::MissingClockTimeGetImport)?;
        Ok(Self { _bytes: bytes })
    }

    pub fn clock_now(&self, nanos: u64) -> (out: ClockNow)
        ensures
            out == (ClockNow { nanos }),
    {
        ClockNow::new(nanos)
    }
}

/// A module that asks for random bytes.
pub struct Wasip1RandomModule<'a> {
    pub _bytes: &'a [u8],
}

impl<'a> Wasip1RandomModule<'a> {
    pub fn parse(bytes: &'a [u8]) -> (out: Result<Self, Wasip1Error>)
        ensures
            match then(spec_install(bytes@), spec_require(bytes@, import_bytes(Wasip1ImportName::RandomGet), Wasip1Error::MissingRandomGetImport)) {
                Ok(_) => out is Ok && out->Ok_0._bytes@ == bytes@,
                Err(e) => out is Err && out->Err_0 == e,
            },
    {
        Wasip1Module::install(bytes)?;
        require_import(bytes, import_name_bytes(Wasip1ImportName::RandomGet), Wasip1Error::MissingRandomGetImport)?;
        Ok(Self { _bytes: bytes })
    }

    pub fn random_seed(&self, lo: u64, hi: u64) -> (out: RandomSeed)
        ensures
            out == (RandomSeed { lo, hi }),
    {
        RandomSeed::new(lo, hi)
    }
}

/// A module that exits through `proc_exit`.
pub struct Wasip1ExitModule<'a> {
    pub _bytes: &'a [u8],
}

impl<'a> Wasip1ExitModule<'a> {
    pub fn parse(bytes: &'a [u8]) -> (out: Result<Self, Wasip1Error>)
        ensures
            match then(spec_install(bytes@), spec_require(bytes@, import_bytes(Wasip1ImportName::ProcExit), Wasip1Error::MissingProcExitImport)) {
                Ok(_) => out is Ok && out->Ok_0._bytes@ == bytes@,
                Err(e) => out is Err && out->Err_0 == e,
            },
    {
        Wasip1Module::install(bytes)?;
        require_import(bytes, import_name_bytes(Wasip1ImportName::ProcExit), Wasip1Error::MissingProcExitImport)?;
        Ok(Self { _bytes: bytes })
    }

    pub fn exit_status(&self, code: u8) -> (out: Wasip1ExitStatus)
        ensures
            out == (Wasip1ExitStatus { code }),
    {
        Wasip1ExitStatus::new(code)
    }
}

/// A module that reads its static arguments or environment.
pub struct Wasip1EnvironmentModule<'a> {
    pub _bytes: &'a [u8],
    pub has_environ_get: bool,
    pub has_args_get: bool,
}

impl<'a> Wasip1EnvironmentModule<'a> {
    pub fn parse(bytes: &'a [u8]) -> (out: Result<Self, Wasip1Error>)
        ensures
            match spec_install(bytes@) {
                Err(e) => out is Err && out->Err_0 == e,
                Ok(_) => {
                    let env = contains_bytes(bytes@, import_bytes(Wasip1ImportName::EnvironGet));
                    let args = contains_bytes(bytes@, import_bytes(Wasip1ImportName::ArgsGet));
                    if !env && !args {
                        out == Err::<Self, Wasip1Error>(Wasip1Error::MissingEnvironGetImport)
                    } else {
                        out is Ok && out->Ok_0._bytes@ == bytes@ && out->Ok_0.has_environ_get == env
                            && out->Ok_0.has_args_get == args
                    }
                },
            },
    {
        Wasip1Module::install(bytes)?;
        let has_environ_get = find_bytes(bytes, import_name_bytes(Wasip1ImportName::EnvironGet)).is_some();
        let has_args_get = find_bytes(bytes, import_name_bytes(Wasip1ImportName::ArgsGet)).is_some();
        if !has_environ_get && !has_args_get {
            return Err(Wasip1Error::MissingEnvironGetImport);
        }
        Ok(Self { _bytes: bytes, has_environ_get, has_args_get })
    }

    pub fn has_environ_get(&self) -> (out: bool)
        ensures
            out == self.has_environ_get,
    {
        self.has_environ_get
    }

    pub fn has_args_get(&self) -> (out: bool)
        ensures
            out == self.has_args_get,
    {
        self.has_args_get
    }

    /// The static snapshot a guest of this runtime sees: no arguments, no environment.
    pub fn static_snapshot(&self) -> (out: Wasip1StaticArgEnv<'static>)
        ensures
            out.args@.len() == 0,
            out.environment@.len() == 0,
    {
        Wasip1StaticArgEnv::empty()
    }
}

/// Whether a chunk carrying `marker` can be cut from `bytes`: it must occur and fit one chunk.
pub open spec fn spec_chunk_for(b: Seq<u8>, marker: Seq<u8>, not_found: Wasip1Error, too_large: Wasip1Error)
    -> Result<(), Wasip1Error> {
    if !contains_bytes(b, marker) {
        Err(not_found)
    } else if marker.len() > WASIP1_STREAM_CHUNK_CAPACITY {
        Err(too_large)
    } else {
        Ok(())
    }
}

fn chunk_for(bytes: &[u8], marker: &[u8], not_found: Wasip1Error, too_large: Wasip1Error) -> (out: Result<Wasip1StreamChunk, Wasip1Error>)
    ensures
        match spec_chunk_for(bytes@, marker@, not_found, too_large) {
            Ok(_) => out is Ok && out->Ok_0.lease_id == MEM_LEASE_NONE && out->Ok_0.bytes@ == marker@,
            Err(e) => out == Err::<Wasip1StreamChunk, Wasip1Error>(e),
        },
{
    let start = match find_bytes(bytes, marker) {
        Some(start) => start,
        None => return Err(not_found),
    };
    proof { lemma_find_bytes_from(bytes@, marker@, 0); }
    let blen = bytes.len();
    assert(start + marker@.len() <= blen);
    let end = start + marker.len();
    let found = &bytes[start..end];
    assert(found@ =~= marker@);
    match Wasip1StreamChunk::new(found) {
        Ok(chunk) => Ok(chunk),
        Err(error) => Err(map_chunk_error(error, too_large)),
    }
}

fn map_chunk_error(error: ProtocolError, too_large: Wasip1Error) -> (out: Wasip1Error)
    ensures
        out == too_large,
{
    match error {
        ProtocolError::TooLarge => too_large,
    }
}

/// The count of imports a strict Preview 1 import section declares.
#[derive(Clone, Copy, Debug, PartialEq, Eq, Structural)]
pub struct Wasip1ImportSummary {
    pub import_count: u16,
    pub preview1_import_count: u16,
}

pub open spec fn scan_error(e: ScanError) -> Wasip1Error {
    match e {
        ScanError::Truncated => Wasip1Error::Truncated,
        ScanError::Overlong => Wasip1Error::InvalidModule,
    }
}

pub open spec fn sp_u8(b: Seq<u8>, pos: int) -> Result<(u8, int), Wasip1Error> {
    if 0 <= pos < b.len() { Ok((b[pos], pos + 1)) } else { Err(Wasip1Error::Truncated) }
}

pub open spec fn sp_var(b: Seq<u8>, pos: int) -> Result<(u32, int), Wasip1Error> {
    match spec_var_u32(b, pos, 0, 0) {
        Ok(p) => Ok(p),
        Err(e) => Err(scan_error(e)),
    }
}

pub open spec fn sp_skip(b: Seq<u8>, pos: int, len: int) -> Result<int, Wasip1Error> {
    if pos + len <= b.len() { Ok(pos + len) } else { Err(Wasip1Error::Truncated) }
}

/// A length-prefixed name: where its bytes start and end.
pub open spec fn sp_name(b: Seq<u8>, pos: int) -> Result<(int, int), Wasip1Error> {
    match sp_var(b, pos) {
        Err(e) => Err(e),
        Ok((len, p1)) => match sp_skip(b, p1, len as int) {
            Err(e) => Err(e),
            Ok(p2) => Ok((p1, p2)),
        },
    }
}

/// Table or memory limits: a flag byte, a minimum and, when flagged, a maximum.
pub open spec fn sp_limits(b: Seq<u8>, pos: int) -> Result<int, Wasip1Error> {
    match sp_u8(b, pos) {
        Err(e) => Err(e),
        Ok((flags, p1)) => match sp_var(b, p1) {
            Err(e) => Err(e),
            Ok((_, p2)) => {
                let p3 = if flags & 1 != 0 {
                    match sp_var(b, p2) {
                        Err(e) => Err(e),
                        Ok((_, q)) => Ok(q),
                    }
                } else {
                    Ok(p2)
                };
                match p3 {
                    Err(e) => Err(e),
                    Ok(q) => if flags & !3u8 != 0 { Err(Wasip1Error::UnsupportedImport) } else { Ok(q) },
                }
            },
        },
    }
}

/// The import descriptor of kind `kind`, starting at `pos`.
pub open spec fn sp_descriptor(b: Seq<u8>, kind: u8, pos: int) -> Result<int, Wasip1Error> {
    if kind == 0 {
        match sp_var(b, pos) {
            Err(e) => Err(e),
            Ok((_, q)) => Ok(q),
        }
    } else if kind == 1 {
        match sp_skip(b, pos, 1) {
            Err(e) => Err(e),
            Ok(q) => sp_limits(b, q),
        }
    } else if kind == 2 {
        sp_limits(b, pos)
    } else if kind == 3 {
        sp_skip(b, pos, 2)
    } else {
        Err(Wasip1Error::UnsupportedImport)
    }
}

/// One import entry: module name, field name, kind and descriptor; the module must be Preview 1.
pub open spec fn sp_entry(b: Seq<u8>, pos: int) -> Result<int, Wasip1Error> {
    match sp_name(b, pos) {
        Err(e) => Err(e),
        Ok((ms, me)) => match sp_name(b, me) {
            Err(e) => Err(e),
            Ok((_, ne)) => match sp_u8(b, ne) {
                Err(e) => Err(e),
                Ok((kind, p)) => match sp_descriptor(b, kind, p) {
                    Err(e) => Err(e),
                    Ok(q) => if b.subrange(ms, me) != module_name_bytes() {
                        Err(Wasip1Error::UnsupportedImport)
                    } else {
                        Ok(q)
                    },
                },
            },
        },
    }
}

/// `remaining` import entries from `pos` on.
pub open spec fn sp_entries(b: Seq<u8>, pos: int, remaining: nat) -> Result<int, Wasip1Error>
    decreases remaining,
{
    if remaining == 0 {
        Ok(pos)
    } else {
        match sp_entry(b, pos) {
            Err(e) => Err(e),
            Ok(q) => sp_entries(b, q, (remaining - 1) as nat),
        }
    }
}

/// An import section body: a count, that many Preview 1 entries and nothing after them.
pub open spec fn spec_import_entries(b: Seq<u8>) -> Result<Wasip1ImportSummary, Wasip1Error> {
    match sp_var(b, 0) {
        Err(e) => Err(e),
        Ok((count, p)) => if count > u16::MAX {
            Err(Wasip1Error::UnsupportedImport)
        } else {
            match sp_entries(b, p, count as nat) {
                Err(e) => Err(e),
                Ok(q) => if q != b.len() {
                    Err(Wasip1Error::InvalidModule)
                } else if count == 0 {
                    Err(Wasip1Error::MissingWasiModule)
                } else {
                    Ok(Wasip1ImportSummary { import_count: count as u16, preview1_import_count: count as u16 })
                },
            }
        },
    }
}

/// The sections from `pos` on, up to the first import section.
pub open spec fn spec_sections(b: Seq<u8>, pos: int) -> Result<Wasip1ImportSummary, Wasip1Error>
    decreases b.len() - pos,
{
    if pos < 0 || pos >= b.len() {
        Err(Wasip1Error::MissingWasiModule)
    } else {
        match sp_u8(b, pos) {
            Err(e) => Err(e),
            Ok((id, p1)) => match sp_var(b, p1) {
                Err(e) => Err(e),
                Ok((len, p2)) => match sp_skip(b, p2, len as int) {
                    Err(e) => Err(e),
                    Ok(p3) => if id == 2 {
                        spec_import_entries(b.subrange(p2, p3))
                    } else {
                        proof { lemma_var_u32_advances(b, p1, 0, 0); }
                        spec_sections(b, p3)
                    },
                },
            },
        }
    }
}

pub open spec fn spec_parse_strict_preview1(b: Seq<u8>) -> Result<Wasip1ImportSummary, Wasip1Error> {
    match spec_header(b) {
        Err(e) => Err(e),
        Ok(_) => spec_sections(b, 8),
    }
}

fn read_u8_or(reader: &mut WasmByteReader) -> (out: Result<u8, Wasip1Error>)
    requires
        old(reader).pos <= old(reader).bytes@.len(),
    ensures
        final(reader).bytes == old(reader).bytes,
        final(reader).pos <= final(reader).bytes@.len(),
        match sp_u8(old(reader).bytes@, old(reader).pos as int) {
            Ok(p) => out == Ok::<u8, Wasip1Error>(p.0) && final(reader).pos == p.1,
            Err(e) => out == Err::<u8, Wasip1Error>(e),
        },
{
    match reader.read_u8() {
        Ok(byte) => Ok(byte),
        Err(_) => Err(Wasip1Error::Truncated),
    }
}

fn read_var_or(reader: &mut WasmByteReader) -> (out: Result<u32, Wasip1Error>)
    requires
        old(reader).pos <= old(reader).bytes@.len(),
    ensures
        final(reader).bytes == old(reader).bytes,
        final(reader).pos <= final(reader).bytes@.len(),
        match sp_var(old(reader).bytes@, old(reader).pos as int) {
            Ok(p) => out == Ok::<u32, Wasip1Error>(p.0) && final(reader).pos == p.1,
            Err(e) => out == Err::<u32, Wasip1Error>(e),
        },
{
    match reader.read_var_u32() {
        Ok(value) => Ok(value),
        Err(ScanError::Truncated) => Err(Wasip1Error::Truncated),
        Err(ScanError::Overlong) => Err(Wasip1Error::InvalidModule),
    }
}

fn skip_or(reader: &mut WasmByteReader, len: usize) -> (out: Result<(), Wasip1Error>)
    requires
        old(reader).pos <= old(reader).bytes@.len(),
    ensures
        final(reader).bytes == old(reader).bytes,
        final(reader).pos <= final(reader).bytes@.len(),
        match sp_skip(old(reader).bytes@, old(reader).pos as int, len as int) {
            Ok(q) => out is Ok && final(reader).pos == q,
            Err(e) => out == Err::<(), Wasip1Error>(e),
        },
{
    match reader.read_bytes(len) {
        Ok(_) => Ok(()),
        Err(_) => Err(Wasip1Error::Truncated),
    }
}

fn read_name<'a>(reader: &mut WasmByteReader<'a>) -> (out: Result<&'a [u8], Wasip1Error>)
    requires
        old(reader).pos <= old(reader).bytes@.len(),
    ensures
        final(reader).bytes == old(reader).bytes,
        final(reader).pos <= final(reader).bytes@.len(),
        match sp_name(old(reader).bytes@, old(reader).pos as int) {
            Ok(p) => out is Ok && out->Ok_0@ == old(reader).bytes@.subrange(p.0, p.1) && final(reader).pos == p.1,
            Err(e) => out == Err::<&'a [u8], Wasip1Error>(e),
        },
{
    let len = read_var_or(reader)?;
    match reader.read_bytes(len as usize) {
        Ok(name) => Ok(name),
        Err(_) => Err(Wasip1Error::Truncated),
    }
}

fn skip_limits(reader: &mut WasmByteReader) -> (out: Result<(), Wasip1Error>)
    requires
        old(reader).pos <= old(reader).bytes@.len(),
    ensures
        final(reader).bytes == old(reader).bytes,
        final(reader).pos <= final(reader).bytes@.len(),
        match sp_limits(old(reader).bytes@, old(reader).pos as int) {
            Ok(q) => out is Ok && final(reader).pos == q,
            Err(e) => out == Err::<(), Wasip1Error>(e),
        },
{
    let flags = read_u8_or(reader)?;
    read_var_or(reader)?;
    if flags & 0x01 != 0 {
        read_var_or(reader)?;
    }
    if flags & !0x03u8 != 0 {
        return Err(Wasip1Error::UnsupportedImport);
    }
    Ok(())
}

fn parse_entry(reader: &mut WasmByteReader) -> (out: Result<(), Wasip1Error>)
    requires
        old(reader).pos <= old(reader).bytes@.len(),
    ensures
        final(reader).bytes == old(reader).bytes,
        final(reader).pos <= final(reader).bytes@.len(),
        match sp_entry(old(reader).bytes@, old(reader).pos as int) {
            Ok(q) => out is Ok && final(reader).pos == q,
            Err(e) => out == Err::<(), Wasip1Error>(e),
        },
{
    let module = read_name(reader)?;
    let _name = read_name(reader)?;
    let kind = read_u8_or(reader)?;
    if kind == 0 {
        read_var_or(reader)?;
    } else if kind == 1 {
        skip_or(reader, 1)?;
        skip_limits(reader)?;
    } else if kind == 2 {
        skip_limits(reader)?;
    } else if kind == 3 {
        skip_or(reader, 2)?;
    } else {
        return Err(Wasip1Error::UnsupportedImport);
    }
    let module_name = WASIP1_PREVIEW1_MODULE.as_bytes();
    if !crate::kernel::features::bytes_equal(module, module_name) {
        return Err(Wasip1Error::UnsupportedImport);
    }
    Ok(())
}

fn parse_import_entries(bytes: &[u8]) -> (out: Result<Wasip1ImportSummary, Wasip1Error>)
    ensures
        out == spec_import_entries(bytes@),
{
    let mut reader = WasmByteReader::new(bytes);
    let import_count = read_var_or(&mut reader)?;
    if import_count > u16::MAX as u32 {
        return Err(Wasip1Error::UnsupportedImport);
    }
    let ghost p0 = reader.pos as int;
    let mut done: u32 = 0;
    while done < import_count
        invariant
            reader.bytes@ == bytes@,
            reader.pos <= reader.bytes@.len(),
            done <= import_count,
            import_count <= u16::MAX,
            sp_var(bytes@, 0) == Ok::<(u32, int), Wasip1Error>((import_count, p0)),
            sp_entries(bytes@, p0, import_count as nat)
                == sp_entries(bytes@, reader.pos as int, (import_count - done) as nat),
        decreases import_count - done,
    {
        proof { reveal_with_fuel(sp_entries, 2); }
        parse_entry(&mut reader)?;
        done = done + 1;
    }
    if !reader.is_empty() {
        return Err(Wasip1Error::InvalidModule);
    }
    if import_count == 0 {
        return Err(Wasip1Error::MissingWasiModule);
    }
    Ok(Wasip1ImportSummary { import_count: import_count as u16, preview1_import_count: import_count as u16 })
}

fn parse_import_section(bytes: &[u8]) -> (out: Result<Wasip1ImportSummary, Wasip1Error>)
    requires
        bytes@.len() >= 8,
    ensures
        out == spec_sections(bytes@, 8),
{
    let mut reader = WasmByteReader::new(bytes);
    reader.pos = 8;
    loop
        invariant
            reader.bytes@ == bytes@,
            reader.pos <= reader.bytes@.len(),
            spec_sections(bytes@, 8) == spec_sections(bytes@, reader.pos as int),
        decreases reader.bytes@.len() - reader.pos,
    {
        if reader.is_empty() {
            return Err(Wasip1Error::MissingWasiModule);
        }
        let ghost before = reader.pos as int;
        let section_id = read_u8_or(&mut reader)?;
        proof { lemma_var_u32_advances(bytes@, reader.pos as int, 0, 0); }
        let section_len = read_var_or(&mut reader)?;
        let section = match reader.read_bytes(section_len as usize) {
            Ok(section) => section,
            Err(_) => return Err(Wasip1Error::Truncated),
        };
        if section_id == 2 {
            return parse_import_entries(section);
        }
        assert(reader.pos > before);
    }
}

impl Wasip1ImportSummary {
    /// The import summary of a module whose import section holds only Preview 1 imports.
    pub fn parse_strict_preview1(bytes: &[u8]) -> (out: Result<Self, Wasip1Error>)
        ensures
            out == spec_parse_strict_preview1(bytes@),
    {
        validate_module_header(bytes)?;
        parse_import_section(bytes)
    }

    pub fn import_count(&self) -> (out: u16)
        ensures
            out == self.import_count,
    {
        self.import_count
    }

    pub fn preview1_import_count(&self) -> (out: u16)
        ensures
            out == self.preview1_import_count,
    {
        self.preview1_import_count
    }
}

} // verus!
