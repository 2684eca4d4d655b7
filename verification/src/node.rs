//! Device-node handling: major/minor decoding of a raw device identifier,
//! node-type classification from the device name, and derivation of the
//! sysfs paths that belong to a node.

use vstd::prelude::*;
use vstd::string::StringExecFns;

use crate::error::DrmError;
use crate::sysfs::SysfsSnapshot;
use crate::text::{is_prefix_of, spec_decimal, str_starts_with, u64_to_decimal};

verus! {

/// The kernel packs the major number of a character device into two
/// non-contiguous bit ranges of the 64-bit raw identifier.
pub open spec fn spec_major(dev: u64) -> u64 {
    ((dev & 0x00000000000fff00) >> 8) | ((dev & 0xfffff00000000000) >> 32)
}

/// The minor number likewise occupies two packed bit ranges.
pub open spec fn spec_minor(dev: u64) -> u64 {
    (dev & 0x00000000000000ff) | ((dev & 0x00000ffffff00000) >> 12)
}

/// Decodes the major number from a raw 64-bit device identifier.
///
/// Total over all inputs; pure bit arithmetic with no error conditions.
pub fn major(dev: u64) -> (r: u64)
    ensures
        r == spec_major(dev),
{
    let mut major: u64 = (dev & 0x00000000000fff00) >> 8;
    major |= (dev & 0xfffff00000000000) >> 32;
    major
}

/// Decodes the minor number from a raw 64-bit device identifier.
///
/// Total over all inputs; pure bit arithmetic with no error conditions.
pub fn minor(dev: u64) -> (r: u64)
    ensures
        r == spec_minor(dev),
{
    let mut minor: u64 = dev & 0x00000000000000ff;
    minor |= (dev & 0x00000ffffff00000) >> 12;
    minor
}

/// The type of a DRM node, read off the device name's prefix.
#[derive(Clone, Copy, Debug, PartialEq, Eq, Structural)]
pub enum DrmNodeType {
    Primary,
    Control,
    Render,
}

/// The node type a device name announces: the prefixes `card`, `controlD`
/// and `renderD` are tried in that order; any other name has no node type.
pub open spec fn spec_node_type_of(name: Seq<char>) -> Option<DrmNodeType> {
    if is_prefix_of("card"@, name) {
        Some(DrmNodeType::Primary)
    } else if is_prefix_of("controlD"@, name) {
        Some(DrmNodeType::Control)
    } else if is_prefix_of("renderD"@, name) {
        Some(DrmNodeType::Render)
    } else {
        None
    }
}

/// The position of a node type in the stable ordering Primary, Control,
/// Render.
pub open spec fn spec_node_ordinal(t: DrmNodeType) -> i32 {
    match t {
        DrmNodeType::Primary => 0,
        DrmNodeType::Control => 1,
        DrmNodeType::Render => 2,
    }
}

/// The available-node bit of a node type: one bit, shifted by the type's
/// ordinal.
pub open spec fn spec_node_mask(t: DrmNodeType) -> i32 {
    match t {
        DrmNodeType::Primary => 1,
        DrmNodeType::Control => 2,
        DrmNodeType::Render => 4,
    }
}

impl DrmNodeType {
    /// Classifies a device name by its prefix; names with none of the
    /// known prefixes are rejected, never defaulted.
    pub fn from_minor_name(name: &str) -> (r: Result<DrmNodeType, DrmError>)
        ensures
            r == match spec_node_type_of(name@) {
                Some(t) => Ok::<DrmNodeType, DrmError>(t),
                None => Err::<DrmNodeType, DrmError>(DrmError::UnrecognizedNodeType),
            },
    {
        if str_starts_with(name, "card") {
            Ok(DrmNodeType::Primary)
        } else if str_starts_with(name, "controlD") {
            Ok(DrmNodeType::Control)
        } else if str_starts_with(name, "renderD") {
            Ok(DrmNodeType::Render)
        } else {
            Err(DrmError::UnrecognizedNodeType)
        }
    }
}

/// A resolved character-device node, identified by its major and minor
/// numbers. All sysfs paths of the node are recomputed from this pair.
#[derive(Clone, Copy, Debug, PartialEq, Eq, Structural)]
pub struct DrmNode {
    pub major: u64,
    pub minor: u64,
}

/// The sysfs directory of the character device `major:minor`.
pub open spec fn spec_char_dev_dir(major: u64, minor: u64) -> Seq<char> {
    "/sys/dev/char/"@ + spec_decimal(major) + ":"@ + spec_decimal(minor) + "/device"@
}

impl DrmNode {
    /// Builds the node for a raw device identifier, as read from the
    /// device node's filesystem metadata.
    pub fn from_rdev(rdev: u64) -> (n: DrmNode)
        ensures
            n.major == spec_major(rdev),
            n.minor == spec_minor(rdev),
    {
        DrmNode { major: major(rdev), minor: minor(rdev) }
    }

    /// Whether the snapshot saw `/sys/dev/char/{major}:{minor}/device/drm`
    /// as an existing directory. Never fails; any negative filesystem
    /// result was recorded as `false`.
    pub fn device_dir_exists(&self, sysfs: &SysfsSnapshot) -> (r: bool)
        ensures
            r == sysfs@.drm_dir_exists,
    {
        sysfs.drm_dir_exists
    }

    /// The path of the node's device directory, before canonicalization.
    pub fn get_device_path(&self) -> (r: String)
        ensures
            r@ == spec_char_dev_dir(self.major, self.minor),
    {
        let mut s = String::from_str("/sys/dev/char/");
        let maj = u64_to_decimal(self.major);
        s.append(maj.as_str());
        s.append(":");
        let min = u64_to_decimal(self.minor);
        s.append(min.as_str());
        s.append("/device");
        s
    }

    /// The path of the node's subsystem link, before canonicalization.
    pub fn get_subsystem_path(&self) -> (r: String)
        ensures
            r@ == spec_char_dev_dir(self.major, self.minor) + "/subsystem"@,
    {
        let mut s = self.get_device_path();
        s.append("/subsystem");
        s
    }

    /// The path of the node's configuration-space file, before
    /// canonicalization.
    pub fn get_config_path(&self) -> (r: String)
        ensures
            r@ == spec_char_dev_dir(self.major, self.minor) + "/config"@,
    {
        let mut s = self.get_device_path();
        s.append("/config");
        s
    }
}

} // verus!
