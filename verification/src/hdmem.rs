//! Error taxonomy of the memory-access layer.
//!
//! The memory-access provider reports failures in its own terms; the engine
//! classifies them into exactly three kinds: the target process is not
//! currently available (`OpenError`), a read did not complete
//! (`ReadFailure`), or anything else, preserved opaquely for diagnostics
//! (`Meta`).

use vstd::prelude::*;

verus! {

/// What the memory-access provider can report, held as plain tags so the
/// classification below can be stated and checked. The caller that talks to
/// the provider converts its error values into these tags one for one.
#[derive(Debug, Clone, Copy, PartialEq, Eq, Structural)]
pub enum ProviderError {
    CreateSnapshotFailure,
    IterateSnapshotFailure,
    ProcessNotFound,
    ModuleNotFound,
    GetHandleError,
    TerminateProcessError,
    ReadMemoryError,
    WriteMemoryError,
    SignatureNotFound,
    AddressOutOfBounds,
    RIPRelativeFailed,
}

/// The engine's error taxonomy. `OpenError` covers every way the target can
/// be "not currently available" at attach time; `ReadFailure` is a memory
/// read that did not complete; `Meta` preserves an unclassified provider
/// error.
#[derive(Debug, Clone, Copy, PartialEq, Eq, Structural)]
pub enum MemError {
    OpenError,
    ReadFailure,
    Meta(ProviderError),
}

/// How a provider error is classified: every attach-time failure collapses
/// to `OpenError`, a failed read to `ReadFailure`, and the rest is kept.
pub open spec fn classify(value: ProviderError) -> MemError {
    match value {
        ProviderError::CreateSnapshotFailure => MemError::OpenError,
        ProviderError::IterateSnapshotFailure => MemError::OpenError,
        ProviderError::ProcessNotFound => MemError::OpenError,
        ProviderError::ModuleNotFound => MemError::OpenError,
        ProviderError::GetHandleError => MemError::OpenError,
        ProviderError::ReadMemoryError => MemError::ReadFailure,
        e => MemError::Meta(e),
    }
}

/// How many bytes one of the target's pointers occupies: 4 when the
/// target is a 32-bit process, 8 otherwise. Determined once at attach
/// time and fixed for the accessor's lifetime; an address read fetches
/// exactly this many bytes and widens them.
pub fn pointer_width_bytes(target_is_32bit: bool) -> (r: usize)
    ensures
        r == (if target_is_32bit {
            4usize
        } else {
            8usize
        }),
{
    if target_is_32bit {
        4
    } else {
        8
    }
}

impl From<ProviderError> for MemError {
    fn from(value: ProviderError) -> (r: Self)
        ensures
            r == classify(value),
    {
        match value {
            ProviderError::CreateSnapshotFailure => MemError::OpenError,
            ProviderError::IterateSnapshotFailure => MemError::OpenError,
            ProviderError::ProcessNotFound => MemError::OpenError,
            ProviderError::ModuleNotFound => MemError::OpenError,
            ProviderError::GetHandleError => MemError::OpenError,
            ProviderError::ReadMemoryError => MemError::ReadFailure,
            e => MemError::Meta(e),
        }
    }
}

impl vstd::std_specs::convert::FromSpecImpl<ProviderError> for MemError {
    open spec fn obeys_from_spec() -> bool {
        true
    }

    open spec fn from_spec(value: ProviderError) -> Self {
        classify(value)
    }
}

} // verus!
