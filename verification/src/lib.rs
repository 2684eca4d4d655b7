//! Resolution of DRM character-device nodes into structured hardware
//! descriptions: node-type and bus classification, sysfs path derivation,
//! PCI slot-address parsing and PCI configuration-space decoding.
//!
//! The library itself never touches the filesystem: callers read the
//! relevant device files once and hand their contents in as plain values
//! (a [`sysfs::SysfsSnapshot`]), so that every decision the pipeline makes
//! is verified.

pub mod bus;
pub mod device;
pub mod error;
pub mod node;
pub mod sysfs;
pub mod text;

pub use bus::DrmBus;
pub use device::{BusInfo, DeviceInfo, DrmDevice, PCIBusInfo, PCIDeviceInfo};
pub use error::DrmError;
pub use node::{major, minor, DrmNode, DrmNodeType};
pub use sysfs::SysfsSnapshot;

use vstd::prelude::*;
use vstd::string::{StrSliceExecFns, StringExecFns};

use crate::bus::spec_subsystem_type;
use crate::device::{is_slot_format, spec_decode_config, spec_parse_slot};
use crate::node::{spec_node_mask, spec_node_type_of};
use crate::sysfs::SysfsSnapshotModel;
use crate::text::{
    is_prefix_of, lemma_prefix_before_first_at, lemma_suffix_after_last_absent,
    lemma_suffix_after_last_at, prefix_before_first, spec_uevent_value, str_starts_with,
    suffix_after_last,
};

verus! {

/// Extracts the value of the first `KEY=VALUE` line of `uevent_text` whose
/// text starts with `entry_key`: the text after the last `=` of that line.
/// The empty string where no line matches.
pub fn get_uevent_data_by_key(uevent_text: &str, entry_key: &str) -> (r: String)
    ensures
        r@ == spec_uevent_value(uevent_text@, entry_key@),
{
    let len = uevent_text.unicode_len();
    let mut pos: usize = 0;
    proof {
        assert(uevent_text@.subrange(0, len as int) =~= uevent_text@);
    }
    while pos < len
        invariant
            pos <= len,
            len == uevent_text@.len(),
            spec_uevent_value(uevent_text@, entry_key@) == spec_uevent_value(
                uevent_text@.subrange(pos as int, len as int),
                entry_key@,
            ),
        decreases len - pos,
    {
        let ghost rest = uevent_text@.subrange(pos as int, len as int);
        let line_end: usize = match text::find_char_from(uevent_text, pos, len, '\n') {
            Some(i) => i,
            None => len,
        };
        proof {
            lemma_prefix_before_first_at(rest, '\n', line_end - pos);
            assert(rest.subrange(0, line_end - pos) =~= uevent_text@.subrange(
                pos as int,
                line_end as int,
            ));
        }
        let line = uevent_text.substring_char(pos, line_end);
        let line_len = line_end - pos;
        if str_starts_with(line, entry_key) {
            match text::rfind_char_in(line, 0, line_len, '=') {
                Some(e) => {
                    proof {
                        lemma_suffix_after_last_at(line@, '=', e as int);
                    }
                    let v = line.substring_char(e + 1, line_len);
                    return String::from_str(v);
                },
                None => {
                    proof {
                        lemma_suffix_after_last_absent(line@, '=');
                    }
                    return String::from_str(line);
                },
            }
        }
        if line_end == len {
            proof {
                assert(prefix_before_first(rest, '\n').len() == rest.len());
            }
            return String::new();
        }
        proof {
            assert(rest.subrange(line_len + 1 as int, rest.len() as int) =~= uevent_text@.subrange(
                line_end + 1,
                len as int,
            ));
        }
        pos = line_end + 1;
    }
    proof {
        let rest = uevent_text@.subrange(pos as int, len as int);
        assert(rest.len() == 0);
        assert(prefix_before_first(rest, '\n').len() == 0);
        if is_prefix_of(entry_key@, prefix_before_first(rest, '\n')) {
            assert(suffix_after_last(prefix_before_first(rest, '\n'), '=').len() == 0);
            assert(suffix_after_last(prefix_before_first(rest, '\n'), '=') =~= Seq::<
                char,
            >::empty());
        }
    }
    String::new()
}

/// What `process_device` returns, as a function of the device name, the
/// expected bus, and the snapshot: the stages run in order and the first
/// failing stage names the error.
pub open spec fn spec_process(
    name: Seq<char>,
    expected: Option<DrmBus>,
    s: SysfsSnapshotModel,
) -> Result<DrmDevice, DrmError> {
    if s.node_rdev is None {
        Err(DrmError::NotFound)
    } else if !s.drm_dir_exists {
        Err(DrmError::NoDrmDeviceDir)
    } else if s.subsystem_path is None {
        Err(DrmError::IoError)
    } else {
        match spec_subsystem_type(s.subsystem_path->0) {
            Err(e) => Err(e),
            Ok(bus) => {
                if expected is Some && expected->0 != bus {
                    Err(DrmError::BusMismatch)
                } else {
                    match spec_node_type_of(name) {
                        None => Err(DrmError::UnrecognizedNodeType),
                        Some(node_type) => {
                            if bus is PCI {
                                if s.uevent_text is None {
                                    Err(DrmError::IoError)
                                } else {
                                    let slot = spec_uevent_value(
                                        s.uevent_text->0,
                                        "PCI_SLOT_NAME"@,
                                    );
                                    if !is_slot_format(slot) {
                                        Err(DrmError::MalformedPciSlot)
                                    } else if s.config_data is None {
                                        Err(DrmError::IoError)
                                    } else if s.config_data->0.len() < 64 {
                                        Err(DrmError::TruncatedBuffer)
                                    } else {
                                        Ok(
                                            DrmDevice {
                                                available_nodes: spec_node_mask(node_type),
                                                bus_type: bus,
                                                bus_info: BusInfo::Pci(spec_parse_slot(slot)),
                                                device_info: DeviceInfo::Pci(
                                                    spec_decode_config(s.config_data->0),
                                                ),
                                            },
                                        )
                                    }
                                }
                            } else {
                                Err(DrmError::UnsupportedBus)
                            }
                        },
                    }
                }
            },
        }
    }
}

/// A bus expectation that differs from the classified bus fails the
/// resolution with `BusMismatch` before any PCI data is consulted: the
/// result is the same whatever the snapshot's `uevent` and `config` fields
/// hold.
pub proof fn lemma_bus_mismatch_consults_no_pci_data(
    name: Seq<char>,
    expected: DrmBus,
    s: SysfsSnapshotModel,
)
    requires
        s.node_rdev is Some,
        s.drm_dir_exists,
        s.subsystem_path is Some,
        spec_subsystem_type(s.subsystem_path->0) is Ok,
        expected != spec_subsystem_type(s.subsystem_path->0)->Ok_0,
    ensures
        spec_process(name, Some(expected), s) == Err::<DrmDevice, DrmError>(DrmError::BusMismatch),
        forall|uevent: Option<Seq<char>>, config: Option<Seq<u8>>|
            spec_process(
                name,
                Some(expected),
                SysfsSnapshotModel {
                    node_rdev: s.node_rdev,
                    drm_dir_exists: s.drm_dir_exists,
                    subsystem_path: s.subsystem_path,
                    uevent_text: uevent,
                    config_data: config,
                },
            ) == Err::<DrmDevice, DrmError>(DrmError::BusMismatch),
{
}

/// Resolves one device name against the snapshot a caller read from the
/// filesystem: checks the node and its DRM directory, classifies bus and
/// node type, verifies the expected bus when one is given, and for a PCI
/// device parses the slot name from `uevent` and decodes the
/// configuration space. Fail-fast: the first failing stage aborts the
/// call, and no partial device is ever returned.
pub fn process_device(
    device_name: &str,
    expected_subsystem_type: Option<DrmBus>,
    sysfs: &SysfsSnapshot,
) -> (r: Result<DrmDevice, DrmError>)
    ensures
        r == spec_process(device_name@, expected_subsystem_type, sysfs@),
{
    if sysfs.node_rdev.is_none() {
        return Err(DrmError::NotFound);
    }
    if !sysfs.drm_dir_exists {
        return Err(DrmError::NoDrmDeviceDir);
    }
    let subsystem_path = match &sysfs.subsystem_path {
        Some(p) => p,
        None => {
            return Err(DrmError::IoError);
        },
    };
    let subsystem_type = match DrmBus::get_subsystem_type(subsystem_path.as_str()) {
        Ok(b) => b,
        Err(e) => {
            return Err(e);
        },
    };
    if let Some(expected) = expected_subsystem_type {
        if expected != subsystem_type {
            return Err(DrmError::BusMismatch);
        }
    }
    let node_type = match DrmNodeType::from_minor_name(device_name) {
        Ok(t) => t,
        Err(e) => {
            return Err(e);
        },
    };
    match subsystem_type {
        DrmBus::PCI => {
            let uevent = match &sysfs.uevent_text {
                Some(u) => u,
                None => {
                    return Err(DrmError::IoError);
                },
            };
            let pci_slot_name = get_uevent_data_by_key(uevent.as_str(), "PCI_SLOT_NAME");
            let bus_info = match PCIBusInfo::new(pci_slot_name.as_str()) {
                Ok(b) => b,
                Err(e) => {
                    return Err(e);
                },
            };
            let config = match &sysfs.config_data {
                Some(c) => c,
                None => {
                    return Err(DrmError::IoError);
                },
            };
            let device_info = match PCIDeviceInfo::new(config.as_slice()) {
                Ok(d) => d,
                Err(e) => {
                    return Err(e);
                },
            };
            Ok(
                DrmDevice::new(
                    node_type,
                    subsystem_type,
                    BusInfo::Pci(bus_info),
                    DeviceInfo::Pci(device_info),
                ),
            )
        },
        _ => Err(DrmError::UnsupportedBus),
    }
}

} // verus!
