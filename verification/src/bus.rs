//! Bus classification: which bus family owns a device, read off the final
//! segment of the node's canonicalized subsystem link.

use vstd::prelude::*;
use vstd::string::StrSliceExecFns;

use crate::error::DrmError;
use crate::text;
use crate::text::{str_eq, suffix_after_last};

verus! {

/// The bus family a DRM device is attached to.
#[derive(Clone, Copy, Debug, PartialEq, Eq, Structural)]
pub enum DrmBus {
    PCI,
    USB,
    PLATFORM,
    HOST1X,
    VIRTIO,
}

impl DrmBus {
    /// The numeric identity of each bus kind; the values take part in a
    /// stable external encoding and are preserved exactly.
    pub open spec fn spec_id_value(self) -> u64 {
        match self {
            DrmBus::PCI => 0,
            DrmBus::USB => 1,
            DrmBus::PLATFORM => 2,
            DrmBus::HOST1X => 3,
            DrmBus::VIRTIO => 0x10,
        }
    }

    /// The numeric identity of this bus kind.
    pub fn id_value(&self) -> (r: u64)
        ensures
            r == self.spec_id_value(),
    {
        match self {
            DrmBus::PCI => 0,
            DrmBus::USB => 1,
            DrmBus::PLATFORM => 2,
            DrmBus::HOST1X => 3,
            DrmBus::VIRTIO => 0x10,
        }
    }
}

/// The bus family a subsystem link target names; `spi` is an explicit
/// alias of `platform`.
pub open spec fn spec_bus_of(name: Seq<char>) -> Option<DrmBus> {
    if name == "pci"@ {
        Some(DrmBus::PCI)
    } else if name == "usb"@ {
        Some(DrmBus::USB)
    } else if name == "platform"@ {
        Some(DrmBus::PLATFORM)
    } else if name == "spi"@ {
        Some(DrmBus::PLATFORM)
    } else if name == "host1x"@ {
        Some(DrmBus::HOST1X)
    } else if name == "virtio"@ {
        Some(DrmBus::VIRTIO)
    } else {
        None
    }
}

/// What bus classification returns for a subsystem path: the final path
/// segment names the bus; a path without a final segment is an invalid
/// node, and an unknown name an unrecognized bus.
pub open spec fn spec_subsystem_type(path: Seq<char>) -> Result<DrmBus, DrmError> {
    let seg = suffix_after_last(path, '/');
    if seg.len() == 0 {
        Err(DrmError::InvalidNode)
    } else {
        match spec_bus_of(seg) {
            Some(b) => Ok(b),
            None => Err(DrmError::UnrecognizedBus),
        }
    }
}

/// Every supported subsystem link target classifies to its documented bus
/// family, and the `spi` alias lands on the same variant as `platform`.
pub proof fn lemma_bus_classification_targets()
    ensures
        spec_bus_of("pci"@) == Some(DrmBus::PCI),
        spec_bus_of("usb"@) == Some(DrmBus::USB),
        spec_bus_of("platform"@) == Some(DrmBus::PLATFORM),
        spec_bus_of("spi"@) == Some(DrmBus::PLATFORM),
        spec_bus_of("host1x"@) == Some(DrmBus::HOST1X),
        spec_bus_of("virtio"@) == Some(DrmBus::VIRTIO),
        spec_bus_of("spi"@) == spec_bus_of("platform"@),
{
    reveal_strlit("pci");
    reveal_strlit("usb");
    reveal_strlit("platform");
    reveal_strlit("spi");
    reveal_strlit("host1x");
    reveal_strlit("virtio");
    assert("usb"@[0] != "pci"@[0]);
    assert("spi"@[0] != "pci"@[0]);
    assert("spi"@[0] != "usb"@[0]);
    assert("virtio"@[0] != "host1x"@[0]);
    assert("platform"@.len() != "pci"@.len());
    assert("spi"@.len() != "platform"@.len());
    assert("host1x"@.len() != "pci"@.len());
    assert("host1x"@.len() != "platform"@.len());
    assert("virtio"@.len() != "pci"@.len());
    assert("virtio"@.len() != "platform"@.len());
}

impl DrmBus {
    /// Classifies the bus of the device whose canonicalized subsystem
    /// path is given, by that path's final segment.
    pub fn get_subsystem_type(subsystem_path: &str) -> (r: Result<DrmBus, DrmError>)
        ensures
            r == spec_subsystem_type(subsystem_path@),
    {
        let len = subsystem_path.unicode_len();
        let seg: &str = match text::rfind_char_in(subsystem_path, 0, len, '/') {
            Some(i) => {
                proof {
                    text::lemma_suffix_after_last_at(subsystem_path@, '/', i as int);
                }
                subsystem_path.substring_char(i + 1, len)
            },
            None => {
                proof {
                    text::lemma_suffix_after_last_absent(subsystem_path@, '/');
                }
                subsystem_path
            },
        };
        if seg.unicode_len() == 0 {
            return Err(DrmError::InvalidNode);
        }
        if str_eq(seg, "pci") {
            Ok(DrmBus::PCI)
        } else if str_eq(seg, "usb") {
            Ok(DrmBus::USB)
        } else if str_eq(seg, "platform") {
            Ok(DrmBus::PLATFORM)
        } else if str_eq(seg, "spi") {
            Ok(DrmBus::PLATFORM)
        } else if str_eq(seg, "host1x") {
            Ok(DrmBus::HOST1X)
        } else if str_eq(seg, "virtio") {
            Ok(DrmBus::VIRTIO)
        } else {
            Err(DrmError::UnrecognizedBus)
        }
    }
}

} // verus!
