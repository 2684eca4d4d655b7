//! PCI slot-address parsing, PCI configuration-space decoding, and the
//! assembled device description.

use vstd::prelude::*;
use vstd::slice::slice_index_get;
use vstd::string::StrSliceExecFns;

use crate::bus::DrmBus;
use crate::error::DrmError;
use crate::node::{spec_node_mask, spec_node_ordinal, DrmNodeType};

verus! {

/// `c` is a hexadecimal digit, in either case.
pub open spec fn is_hex_digit(c: char) -> bool {
    ('0' as u32 <= c as u32 && c as u32 <= '9' as u32) || ('a' as u32 <= c as u32 && c as u32
        <= 'f' as u32) || ('A' as u32 <= c as u32 && c as u32 <= 'F' as u32)
}

/// The value of a hexadecimal digit.
pub open spec fn hex_digit_val(c: char) -> u32
    recommends
        is_hex_digit(c),
{
    if '0' as u32 <= c as u32 && c as u32 <= '9' as u32 {
        (c as u32 - '0' as u32) as u32
    } else if 'a' as u32 <= c as u32 && c as u32 <= 'f' as u32 {
        (10 + c as u32 - 'a' as u32) as u32
    } else {
        (10 + c as u32 - 'A' as u32) as u32
    }
}

/// `c` is a decimal digit.
pub open spec fn is_dec_digit(c: char) -> bool {
    '0' as u32 <= c as u32 && c as u32 <= '9' as u32
}

/// The value of a decimal digit.
pub open spec fn dec_digit_val(c: char) -> u32
    recommends
        is_dec_digit(c),
{
    (c as u32 - '0' as u32) as u32
}

/// The shape of a PCI slot name: four hexadecimal digits of domain, two of
/// bus, two of device, and one decimal function digit, exactly.
pub open spec fn is_slot_format(s: Seq<char>) -> bool {
    &&& s.len() == 12
    &&& is_hex_digit(s[0]) && is_hex_digit(s[1]) && is_hex_digit(s[2]) && is_hex_digit(s[3])
    &&& s[4] == ':'
    &&& is_hex_digit(s[5]) && is_hex_digit(s[6])
    &&& s[7] == ':'
    &&& is_hex_digit(s[8]) && is_hex_digit(s[9])
    &&& s[10] == '.'
    &&& is_dec_digit(s[11])
}

/// The PCI bus address of a device, parsed from a textual slot name.
#[derive(Clone, Copy, Debug, PartialEq, Eq, Structural)]
pub struct PCIBusInfo {
    pub domain: u16,
    pub bus: u8,
    pub dev: u8,
    pub func: u8,
}

/// The address a well-formed slot name denotes.
pub open spec fn spec_parse_slot(s: Seq<char>) -> PCIBusInfo
    recommends
        is_slot_format(s),
{
    PCIBusInfo {
        domain: (4096 * hex_digit_val(s[0]) + 256 * hex_digit_val(s[1]) + 16 * hex_digit_val(s[2])
            + hex_digit_val(s[3])) as u16,
        bus: (16 * hex_digit_val(s[5]) + hex_digit_val(s[6])) as u8,
        dev: (16 * hex_digit_val(s[8]) + hex_digit_val(s[9])) as u8,
        func: dec_digit_val(s[11]) as u8,
    }
}

/// The value of `c` as a hexadecimal digit, or `None` where it is none.
fn hex_val(c: char) -> (r: Option<u32>)
    ensures
        r == if is_hex_digit(c) {
            Some(hex_digit_val(c))
        } else {
            None::<u32>
        },
{
    let v = c as u32;
    if '0' as u32 <= v && v <= '9' as u32 {
        Some(v - '0' as u32)
    } else if 'a' as u32 <= v && v <= 'f' as u32 {
        Some(10 + v - 'a' as u32)
    } else if 'A' as u32 <= v && v <= 'F' as u32 {
        Some(10 + v - 'A' as u32)
    } else {
        None
    }
}

impl PCIBusInfo {
    /// Parses a `dddd:dd:dd.d` slot name. A string of any other shape is
    /// rejected as malformed, never read as a zero-filled address.
    pub fn new(pci_slot_name: &str) -> (r: Result<PCIBusInfo, DrmError>)
        ensures
            r is Ok <==> is_slot_format(pci_slot_name@),
            r is Ok ==> r->Ok_0 == spec_parse_slot(pci_slot_name@),
            r is Err ==> r->Err_0 == DrmError::MalformedPciSlot,
    {
        if pci_slot_name.unicode_len() != 12 {
            return Err(DrmError::MalformedPciSlot);
        }
        if pci_slot_name.get_char(4) != ':' || pci_slot_name.get_char(7) != ':'
            || pci_slot_name.get_char(10) != '.' {
            return Err(DrmError::MalformedPciSlot);
        }
        let d0 = match hex_val(pci_slot_name.get_char(0)) {
            Some(v) => v,
            None => {
                return Err(DrmError::MalformedPciSlot);
            },
        };
        let d1 = match hex_val(pci_slot_name.get_char(1)) {
            Some(v) => v,
            None => {
                return Err(DrmError::MalformedPciSlot);
            },
        };
        let d2 = match hex_val(pci_slot_name.get_char(2)) {
            Some(v) => v,
            None => {
                return Err(DrmError::MalformedPciSlot);
            },
        };
        let d3 = match hex_val(pci_slot_name.get_char(3)) {
            Some(v) => v,
            None => {
                return Err(DrmError::MalformedPciSlot);
            },
        };
        let b0 = match hex_val(pci_slot_name.get_char(5)) {
            Some(v) => v,
            None => {
                return Err(DrmError::MalformedPciSlot);
            },
        };
        let b1 = match hex_val(pci_slot_name.get_char(6)) {
            Some(v) => v,
            None => {
                return Err(DrmError::MalformedPciSlot);
            },
        };
        let v0 = match hex_val(pci_slot_name.get_char(8)) {
            Some(v) => v,
            None => {
                return Err(DrmError::MalformedPciSlot);
            },
        };
        let v1 = match hex_val(pci_slot_name.get_char(9)) {
            Some(v) => v,
            None => {
                return Err(DrmError::MalformedPciSlot);
            },
        };
        let f = pci_slot_name.get_char(11) as u32;
        if !('0' as u32 <= f && f <= '9' as u32) {
            return Err(DrmError::MalformedPciSlot);
        }
        let domain: u16 = (4096 * d0 + 256 * d1 + 16 * d2 + d3) as u16;
        let bus: u8 = (16 * b0 + b1) as u8;
        let dev: u8 = (16 * v0 + v1) as u8;
        let func: u8 = (f - '0' as u32) as u8;
        Ok(PCIBusInfo { domain, bus, dev, func })
    }
}

/// Bus-specific address information; only the PCI arm carries data, the
/// other bus families are valid but empty states.
#[derive(Clone, Copy, Debug, PartialEq, Eq, Structural)]
pub enum BusInfo {
    Pci(PCIBusInfo),
    Usb,
    Platform,
    Host1x,
}

/// PCI identity fields, decoded from fixed offsets of the device's
/// configuration space.
#[derive(Clone, Copy, Debug, PartialEq, Eq, Structural)]
pub struct PCIDeviceInfo {
    pub vendor_id: u16,
    pub device_id: u16,
    pub revision_id: u8,
    pub subvendor_id: u16,
    pub subdevice_id: u16,
}

/// The little-endian 16-bit field at offset `i` of `b`.
pub open spec fn spec_le16(b: Seq<u8>, i: int) -> u16
    recommends
        0 <= i,
        i + 1 < b.len(),
{
    (b[i] + 256 * b[i + 1]) as u16
}

/// The identity a configuration-space buffer of at least 64 bytes holds:
/// little-endian 16-bit fields at offsets 0, 2, 44 and 46, and one byte at
/// offset 8.
pub open spec fn spec_decode_config(b: Seq<u8>) -> PCIDeviceInfo
    recommends
        b.len() >= 64,
{
    PCIDeviceInfo {
        vendor_id: spec_le16(b, 0),
        device_id: spec_le16(b, 2),
        revision_id: b[8],
        subvendor_id: spec_le16(b, 44),
        subdevice_id: spec_le16(b, 46),
    }
}

fn read_le16(b: &[u8], i: usize) -> (r: u16)
    requires
        i + 1 < b@.len(),
    ensures
        r == spec_le16(b@, i as int),
{
    let len = b.len();
    assert(i + 1 < len);
    let lo = *slice_index_get(b, i);
    let hi = *slice_index_get(b, i + 1);
    lo as u16 + 256 * (hi as u16)
}

impl PCIDeviceInfo {
    /// Decodes the identity fields from a configuration-space buffer; a
    /// buffer of fewer than 64 bytes is rejected as truncated.
    pub fn new(config: &[u8]) -> (r: Result<PCIDeviceInfo, DrmError>)
        ensures
            r is Ok <==> config@.len() >= 64,
            r is Ok ==> r->Ok_0 == spec_decode_config(config@),
            r is Err ==> r->Err_0 == DrmError::TruncatedBuffer,
    {
        if config.len() < 64 {
            return Err(DrmError::TruncatedBuffer);
        }
        let vendor_id = read_le16(config, 0);
        let device_id = read_le16(config, 2);
        let revision_id = *slice_index_get(config, 8);
        let subvendor_id = read_le16(config, 44);
        let subdevice_id = read_le16(config, 46);
        Ok(PCIDeviceInfo { vendor_id, device_id, revision_id, subvendor_id, subdevice_id })
    }
}

/// Device-specific identity information, mirroring `BusInfo`'s shape.
#[derive(Clone, Copy, Debug, PartialEq, Eq, Structural)]
pub enum DeviceInfo {
    Pci(PCIDeviceInfo),
    Usb,
    Platform,
    Host1x,
}

/// The final structured description of a resolved device.
#[derive(Clone, Copy, Debug, PartialEq, Eq, Structural)]
pub struct DrmDevice {
    pub available_nodes: i32,
    pub bus_type: DrmBus,
    pub bus_info: BusInfo,
    pub device_info: DeviceInfo,
}

impl DrmDevice {
    /// Assembles the device description; the available-node mask is the
    /// single bit shifted by the node type's ordinal.
    pub fn new(
        node_type: DrmNodeType,
        subsystem_type: DrmBus,
        bus_info: BusInfo,
        device_info: DeviceInfo,
    ) -> (d: DrmDevice)
        ensures
            d == (DrmDevice {
                available_nodes: spec_node_mask(node_type),
                bus_type: subsystem_type,
                bus_info: bus_info,
                device_info: device_info,
            }),
            d.available_nodes == 1i32 << spec_node_ordinal(node_type),
    {
        let ordinal: i32 = match node_type {
            DrmNodeType::Primary => 0,
            DrmNodeType::Control => 1,
            DrmNodeType::Render => 2,
        };
        let available_nodes: i32 = 1i32 << ordinal;
        proof {
            assert(1i32 << 0i32 == 1i32) by (bit_vector);
            assert(1i32 << 1i32 == 2i32) by (bit_vector);
            assert(1i32 << 2i32 == 4i32) by (bit_vector);
        }
        DrmDevice { available_nodes, bus_type: subsystem_type, bus_info, device_info }
    }
}

} // verus!
