use sparrow::hdmem::{pointer_width_bytes, MemError, ProviderError};

/// Every attach-time provider failure is classified uniformly as
/// `OpenError`: the target is equally "not currently available" in each.
#[test]
fn attach_failures_classify_to_open_error() {
    for e in [
        ProviderError::CreateSnapshotFailure,
        ProviderError::IterateSnapshotFailure,
        ProviderError::ProcessNotFound,
        ProviderError::ModuleNotFound,
        ProviderError::GetHandleError,
    ] {
        assert_eq!(MemError::from(e), MemError::OpenError);
    }
}

/// A failed memory read classifies to `ReadFailure`.
#[test]
fn read_failure_classifies_to_read_failure() {
    assert_eq!(MemError::from(ProviderError::ReadMemoryError), MemError::ReadFailure);
}

/// Every other provider error is preserved opaquely, never dropped.
#[test]
fn unclassified_errors_are_preserved() {
    for e in [
        ProviderError::TerminateProcessError,
        ProviderError::WriteMemoryError,
        ProviderError::SignatureNotFound,
        ProviderError::AddressOutOfBounds,
        ProviderError::RIPRelativeFailed,
    ] {
        assert_eq!(MemError::from(e), MemError::Meta(e));
    }
}

/// An address read fetches 4 bytes from a 32-bit target and 8 from a
/// 64-bit one.
#[test]
fn pointer_width_follows_target() {
    assert_eq!(pointer_width_bytes(true), 4);
    assert_eq!(pointer_width_bytes(false), 8);
}
