//! The filesystem evidence a resolution call works from.
//!
//! The library never reads the filesystem itself. A caller collects, for
//! one device name, everything the pipeline may need — the raw device
//! identifier from the node's metadata, the existence of the node's DRM
//! directory, the canonicalized subsystem path, and the contents of the
//! `uevent` and `config` files — and hands it in as one value. Each field
//! is `None` where the corresponding read or canonicalization failed.

use vstd::prelude::*;

verus! {

/// What the filesystem showed for one device name, read once before the
/// resolution call.
pub struct SysfsSnapshot {
    /// Raw device identifier from the metadata of `/dev/dri/{name}`;
    /// `None` when that node does not exist or its metadata is unreadable.
    pub node_rdev: Option<u64>,
    /// Whether `/sys/dev/char/{major}:{minor}/device/drm` exists and is a
    /// directory.
    pub drm_dir_exists: bool,
    /// The canonicalized target of `/sys/dev/char/{major}:{minor}/device/subsystem`;
    /// `None` when canonicalization failed.
    pub subsystem_path: Option<String>,
    /// The text of `{device_path}/uevent`; `None` when it could not be read.
    pub uevent_text: Option<String>,
    /// The bytes of the PCI configuration-space file; `None` when it could
    /// not be read.
    pub config_data: Option<Vec<u8>>,
}

/// The mathematical content of a `SysfsSnapshot`.
pub struct SysfsSnapshotModel {
    pub node_rdev: Option<u64>,
    pub drm_dir_exists: bool,
    pub subsystem_path: Option<Seq<char>>,
    pub uevent_text: Option<Seq<char>>,
    pub config_data: Option<Seq<u8>>,
}

impl View for SysfsSnapshot {
    type V = SysfsSnapshotModel;

    open spec fn view(&self) -> SysfsSnapshotModel {
        SysfsSnapshotModel {
            node_rdev: self.node_rdev,
            drm_dir_exists: self.drm_dir_exists,
            subsystem_path: self.subsystem_path.deep_view(),
            uevent_text: self.uevent_text.deep_view(),
            config_data: self.config_data.deep_view(),
        }
    }
}

} // verus!
