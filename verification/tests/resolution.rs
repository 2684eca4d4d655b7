use rust_drm::{
    get_uevent_data_by_key, process_device, BusInfo, DeviceInfo, DrmBus, DrmDevice, DrmError,
    DrmNode, DrmNodeType, PCIBusInfo, PCIDeviceInfo, SysfsSnapshot,
};

fn snapshot(
    node_rdev: Option<u64>,
    drm_dir_exists: bool,
    subsystem_path: Option<&str>,
    uevent_text: Option<&str>,
    config_data: Option<Vec<u8>>,
) -> SysfsSnapshot {
    SysfsSnapshot {
        node_rdev,
        drm_dir_exists,
        subsystem_path: subsystem_path.map(|s| s.to_string()),
        uevent_text: uevent_text.map(|s| s.to_string()),
        config_data,
    }
}

fn pci_config(vendor: u16, device: u16) -> Vec<u8> {
    let mut buf = vec![0u8; 64];
    buf[0] = (vendor & 0xff) as u8;
    buf[1] = (vendor >> 8) as u8;
    buf[2] = (device & 0xff) as u8;
    buf[3] = (device >> 8) as u8;
    buf
}

#[test]
fn process_device_happy_path() {
    let snap = snapshot(
        Some(0xE280),
        true,
        Some("/sys/bus/pci"),
        Some("DRIVER=nvidia\nPCI_SLOT_NAME=0000:03:00.0\nMODALIAS=pci:xyz"),
        Some(pci_config(0x10de, 0x2204)),
    );
    let device = process_device("renderD128", Some(DrmBus::PCI), &snap).unwrap();
    let _ = device;
}

#[test]
fn major_minor_known_values() {
    assert_eq!(rust_drm::major(0xE280), 226);
    assert_eq!(rust_drm::minor(0xE280), 128);
    // Bits set in both high packed ranges.
    let dev: u64 = 0x000120006783459A;
    assert_eq!(rust_drm::major(dev), 0x12345);
    assert_eq!(rust_drm::minor(dev), 0x6789A);
    // Decoding is deterministic.
    assert_eq!(rust_drm::major(dev), rust_drm::major(dev));
    assert_eq!(rust_drm::minor(dev), rust_drm::minor(dev));
}

#[test]
fn node_type_classification() {
    assert_eq!(
        DrmNodeType::from_minor_name("card0").unwrap(),
        DrmNodeType::Primary
    );
    assert_eq!(
        DrmNodeType::from_minor_name("controlD128").unwrap(),
        DrmNodeType::Control
    );
    assert_eq!(
        DrmNodeType::from_minor_name("renderD128").unwrap(),
        DrmNodeType::Render
    );
    assert_eq!(
        DrmNodeType::from_minor_name("unknownD128"),
        Err(DrmError::UnrecognizedNodeType)
    );
}

#[test]
fn pci_slot_parsing() {
    assert_eq!(
        PCIBusInfo::new("0000:01:00.0").unwrap(),
        PCIBusInfo { domain: 0, bus: 1, dev: 0, func: 0 }
    );
    // A slot name missing the function digit is malformed.
    assert_eq!(
        PCIBusInfo::new("0000:01:00."),
        Err(DrmError::MalformedPciSlot)
    );
}

#[test]
fn pci_slot_parsing_hex_cases() {
    assert_eq!(
        PCIBusInfo::new("A0f3:aB:7e.5").unwrap(),
        PCIBusInfo { domain: 0xA0F3, bus: 0xAB, dev: 0x7E, func: 5 }
    );
    // The function digit is decimal, not hexadecimal.
    assert_eq!(
        PCIBusInfo::new("0000:01:00.a"),
        Err(DrmError::MalformedPciSlot)
    );
    // Nothing may surround the address.
    assert_eq!(
        PCIBusInfo::new(" 0000:01:00.0"),
        Err(DrmError::MalformedPciSlot)
    );
    assert_eq!(
        PCIBusInfo::new("0000-01-00.0"),
        Err(DrmError::MalformedPciSlot)
    );
    assert_eq!(PCIBusInfo::new(""), Err(DrmError::MalformedPciSlot));
}

#[test]
fn config_decoding() {
    let mut buf = vec![0u8; 64];
    buf[0] = 0x34;
    buf[1] = 0x10;
    buf[2] = 0x02;
    buf[3] = 0x68;
    buf[8] = 0xA1;
    buf[44] = 0x28;
    buf[45] = 0x10;
    buf[46] = 0x01;
    buf[47] = 0x20;
    let info = PCIDeviceInfo::new(&buf).unwrap();
    assert_eq!(info.vendor_id, 0x1034);
    assert_eq!(info.device_id, 0x6802);
    assert_eq!(info.revision_id, 0xA1);
    assert_eq!(info.subvendor_id, 0x1028);
    assert_eq!(info.subdevice_id, 0x2001);
}

#[test]
fn config_decoding_truncated() {
    let buf = vec![0u8; 32];
    assert_eq!(PCIDeviceInfo::new(&buf), Err(DrmError::TruncatedBuffer));
    let exact = vec![0u8; 64];
    assert!(PCIDeviceInfo::new(&exact).is_ok());
}

#[test]
fn bus_classification_targets() {
    assert_eq!(
        DrmBus::get_subsystem_type("/sys/bus/pci").unwrap(),
        DrmBus::PCI
    );
    assert_eq!(
        DrmBus::get_subsystem_type("/sys/bus/usb").unwrap(),
        DrmBus::USB
    );
    assert_eq!(
        DrmBus::get_subsystem_type("/sys/bus/platform").unwrap(),
        DrmBus::PLATFORM
    );
    assert_eq!(
        DrmBus::get_subsystem_type("/sys/bus/spi").unwrap(),
        DrmBus::PLATFORM
    );
    assert_eq!(
        DrmBus::get_subsystem_type("/sys/bus/host1x").unwrap(),
        DrmBus::HOST1X
    );
    assert_eq!(
        DrmBus::get_subsystem_type("/sys/bus/virtio").unwrap(),
        DrmBus::VIRTIO
    );
    // The spi alias and platform land on the same variant.
    assert_eq!(
        DrmBus::get_subsystem_type("/sys/bus/spi"),
        DrmBus::get_subsystem_type("/sys/bus/platform")
    );
}

#[test]
fn bus_classification_errors() {
    assert_eq!(
        DrmBus::get_subsystem_type("/sys/bus/sdio"),
        Err(DrmError::UnrecognizedBus)
    );
    assert_eq!(DrmBus::get_subsystem_type("/"), Err(DrmError::InvalidNode));
    assert_eq!(DrmBus::get_subsystem_type(""), Err(DrmError::InvalidNode));
}

#[test]
fn bus_id_values() {
    assert_eq!(DrmBus::PCI.id_value(), 0);
    assert_eq!(DrmBus::USB.id_value(), 1);
    assert_eq!(DrmBus::PLATFORM.id_value(), 2);
    assert_eq!(DrmBus::HOST1X.id_value(), 3);
    assert_eq!(DrmBus::VIRTIO.id_value(), 0x10);
}

#[test]
fn uevent_key_extraction() {
    let text = "DRIVER=nvidia\nPCI_CLASS=30000\nPCI_SLOT_NAME=0000:03:00.0\n";
    assert_eq!(
        get_uevent_data_by_key(text, "PCI_SLOT_NAME"),
        "0000:03:00.0"
    );
    assert_eq!(get_uevent_data_by_key(text, "DRIVER"), "nvidia");
    assert_eq!(get_uevent_data_by_key(text, "MISSING"), "");
    // The first matching line wins.
    assert_eq!(get_uevent_data_by_key("K=a\nK=b", "K"), "a");
    // The value is the text after the last `=` of the line.
    assert_eq!(get_uevent_data_by_key("K=a=b", "K"), "b");
    // A matching line without `=` yields the whole line.
    assert_eq!(get_uevent_data_by_key("KEY", "KEY"), "KEY");
    // Prefix matching: a longer key name still matches a shorter query.
    assert_eq!(get_uevent_data_by_key("KEY2=x", "KEY"), "x");
}

#[test]
fn sysfs_path_derivation() {
    let node = DrmNode { major: 226, minor: 128 };
    assert_eq!(node.get_device_path(), "/sys/dev/char/226:128/device");
    assert_eq!(
        node.get_subsystem_path(),
        "/sys/dev/char/226:128/device/subsystem"
    );
    assert_eq!(node.get_config_path(), "/sys/dev/char/226:128/device/config");
    let zero = DrmNode { major: 0, minor: 0 };
    assert_eq!(zero.get_device_path(), "/sys/dev/char/0:0/device");
}

#[test]
fn node_from_rdev() {
    let node = DrmNode::from_rdev(0xE280);
    assert_eq!(node, DrmNode { major: 226, minor: 128 });
    let snap = snapshot(None, true, None, None, None);
    assert!(node.device_dir_exists(&snap));
    let snap = snapshot(None, false, None, None, None);
    assert!(!node.device_dir_exists(&snap));
}

#[test]
fn device_assembly_masks() {
    let bus_info = BusInfo::Pci(PCIBusInfo { domain: 0, bus: 1, dev: 0, func: 0 });
    let device_info = DeviceInfo::Usb;
    let d = DrmDevice::new(DrmNodeType::Primary, DrmBus::PCI, bus_info, device_info);
    assert_eq!(d.available_nodes, 1 << 0);
    let d = DrmDevice::new(DrmNodeType::Control, DrmBus::PCI, bus_info, device_info);
    assert_eq!(d.available_nodes, 1 << 1);
    let d = DrmDevice::new(DrmNodeType::Render, DrmBus::PCI, bus_info, device_info);
    assert_eq!(d.available_nodes, 1 << 2);
    assert_eq!(d.bus_type, DrmBus::PCI);
    assert_eq!(d.bus_info, bus_info);
    assert_eq!(d.device_info, device_info);
}

#[test]
fn process_device_end_to_end() {
    let snap = snapshot(
        Some(0xE280),
        true,
        Some("/sys/devices/pci0000:00/0000:03:00.0/pci"),
        Some("DRIVER=nvidia\nPCI_SLOT_NAME=0000:03:00.0\n"),
        Some(pci_config(0x10de, 0x2204)),
    );
    let device = process_device("renderD128", Some(DrmBus::PCI), &snap).unwrap();
    assert_eq!(device.available_nodes, 1 << 2);
    assert_eq!(device.bus_type, DrmBus::PCI);
    assert_eq!(
        device.bus_info,
        BusInfo::Pci(PCIBusInfo { domain: 0, bus: 3, dev: 0, func: 0 })
    );
    match device.device_info {
        DeviceInfo::Pci(info) => assert_eq!(info.vendor_id, 0x10de),
        _ => panic!("expected PCI device info"),
    }
}

#[test]
fn process_device_bus_mismatch_reads_no_pci_data() {
    // Expecting USB against a PCI node fails before any PCI parsing or
    // config decoding: the snapshot carries neither uevent nor config.
    let snap = snapshot(Some(0xE280), true, Some("/sys/bus/pci"), None, None);
    assert_eq!(
        process_device("renderD128", Some(DrmBus::USB), &snap),
        Err(DrmError::BusMismatch)
    );
}

#[test]
fn process_device_stage_errors() {
    let config = pci_config(0x10de, 0x2204);
    // The device node itself is missing.
    let snap = snapshot(None, true, Some("/sys/bus/pci"), None, None);
    assert_eq!(
        process_device("card0", None, &snap),
        Err(DrmError::NotFound)
    );
    // The DRM device directory is missing.
    let snap = snapshot(Some(0xE280), false, Some("/sys/bus/pci"), None, None);
    assert_eq!(
        process_device("card0", None, &snap),
        Err(DrmError::NoDrmDeviceDir)
    );
    // The subsystem link could not be canonicalized.
    let snap = snapshot(Some(0xE280), true, None, None, None);
    assert_eq!(process_device("card0", None, &snap), Err(DrmError::IoError));
    // The subsystem path has no final segment.
    let snap = snapshot(Some(0xE280), true, Some("/"), None, None);
    assert_eq!(
        process_device("card0", None, &snap),
        Err(DrmError::InvalidNode)
    );
    // The subsystem names no known bus.
    let snap = snapshot(Some(0xE280), true, Some("/sys/bus/sdio"), None, None);
    assert_eq!(
        process_device("card0", None, &snap),
        Err(DrmError::UnrecognizedBus)
    );
    // The device name has no known prefix.
    let snap = snapshot(
        Some(0xE280),
        true,
        Some("/sys/bus/pci"),
        Some("PCI_SLOT_NAME=0000:03:00.0\n"),
        Some(config.clone()),
    );
    assert_eq!(
        process_device("unknownD128", None, &snap),
        Err(DrmError::UnrecognizedNodeType)
    );
    // Only PCI devices carry device information.
    let snap = snapshot(Some(0xE280), true, Some("/sys/bus/usb"), None, None);
    assert_eq!(
        process_device("card0", None, &snap),
        Err(DrmError::UnsupportedBus)
    );
    // The uevent file could not be read.
    let snap = snapshot(Some(0xE280), true, Some("/sys/bus/pci"), None, Some(config.clone()));
    assert_eq!(process_device("card0", None, &snap), Err(DrmError::IoError));
    // The uevent file has no slot entry, so the empty value is malformed.
    let snap = snapshot(
        Some(0xE280),
        true,
        Some("/sys/bus/pci"),
        Some("DRIVER=nvidia\n"),
        Some(config.clone()),
    );
    assert_eq!(
        process_device("card0", None, &snap),
        Err(DrmError::MalformedPciSlot)
    );
    // The config file could not be read.
    let snap = snapshot(
        Some(0xE280),
        true,
        Some("/sys/bus/pci"),
        Some("PCI_SLOT_NAME=0000:03:00.0\n"),
        None,
    );
    assert_eq!(process_device("card0", None, &snap), Err(DrmError::IoError));
    // The config file is shorter than 64 bytes.
    let snap = snapshot(
        Some(0xE280),
        true,
        Some("/sys/bus/pci"),
        Some("PCI_SLOT_NAME=0000:03:00.0\n"),
        Some(vec![0u8; 16]),
    );
    assert_eq!(
        process_device("card0", None, &snap),
        Err(DrmError::TruncatedBuffer)
    );
}

#[test]
fn process_device_matching_expectation_passes() {
    let snap = snapshot(Some(0xE280), true, Some("/sys/bus/usb"), None, None);
    // The expectation matches, so the pipeline reaches the unsupported-bus
    // stage instead of reporting a mismatch.
    assert_eq!(
        process_device("card0", Some(DrmBus::USB), &snap),
        Err(DrmError::UnsupportedBus)
    );
}
