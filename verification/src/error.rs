//! Error taxonomy for DRM node resolution.
//!
//! Every stage of the resolution pipeline reports its failure as one of
//! these variants; no stage panics on malformed external input.

use vstd::prelude::*;

verus! {

/// Why a resolution step failed.
#[derive(Clone, Copy, Debug, PartialEq, Eq, Structural)]
pub enum DrmError {
    /// The device node (or a sysfs path derived from it) does not exist.
    NotFound,
    /// A read, open or canonicalization of a filesystem path failed.
    IoError,
    /// A path had no final segment or was not valid text.
    InvalidNode,
    /// The device name matched none of the known node-type prefixes.
    UnrecognizedNodeType,
    /// The subsystem link target named no known bus family.
    UnrecognizedBus,
    /// The PCI slot string did not have the `dddd:dd:dd.d` shape.
    MalformedPciSlot,
    /// The configuration-space buffer held fewer than 64 bytes.
    TruncatedBuffer,
    /// The caller expected a different bus than the node is on.
    BusMismatch,
    /// The node's bus carries no device information in this library.
    UnsupportedBus,
    /// `/sys/dev/char/{major}:{minor}/device/drm` is not a directory.
    NoDrmDeviceDir,
}

} // verus!
