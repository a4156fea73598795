//! Version tuples of the launcher and of the hosted application, and the
//! compatibility check between them.

use vstd::prelude::*;

verus! {

/// The launcher's own version triple, fixed when the binary is built.
#[derive(Clone, Copy, PartialEq, Eq, Structural)]
pub struct NativeVersion {
    pub major: u32,
    pub minor: u32,
    pub patch: u32,
}

/// The five-field version tuple the hosted application reports at runtime.
#[derive(Debug)]
pub struct HostedVersion {
    pub major: u32,
    pub minor: u32,
    pub patch: u32,
    pub label: String,
    pub serial: u32,
}

/// The two components agree when their numeric triples are equal; the
/// release label and serial take no part in the comparison.
pub open spec fn triples_match(native: NativeVersion, hosted: HostedVersion) -> bool {
    &&& native.major == hosted.major
    &&& native.minor == hosted.minor
    &&& native.patch == hosted.patch
}

/// Decides whether the hosted application's version agrees with the
/// launcher's; a mismatch is a soft condition that only warrants a warning.
pub fn versions_match(native: &NativeVersion, hosted: &HostedVersion) -> (r: bool)
    ensures
        r == triples_match(*native, *hosted),
{
    native.major == hosted.major && native.minor == hosted.minor && native.patch == hosted.patch
}

} // verus!
