use vstd::prelude::*;
use crate::registry::GlobalKind;

verus! {

/// The failure taxonomy of the pipeline. Every error is returned
/// synchronously from the operation that detected it; nothing retries
/// automatically.
#[derive(Debug, Clone, Copy, PartialEq, Eq, Structural)]
pub enum Error {
    /// A checked platform call failed; carries the raw platform error code.
    PlatformApi(u32),
    /// A required protocol global was not advertised; names the missing one.
    ProtocolUnavailable(GlobalKind),
    /// A capture reached the terminal failed state; carries the index of the
    /// output that failed.
    CaptureFailed(usize),
    /// A pixel format or plane layout outside the supported set; carries the
    /// offending value.
    UnsupportedFormat(u64),
}

} // verus!
