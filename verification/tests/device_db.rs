use driverkit::pci::device_db::{find, get, make_key, PciDeviceInfo};

#[test]
fn test_device_map() {
    let key = make_key(0xfffe, 0x0710);
    let dev = get(&key).unwrap();
    assert_eq!(dev.vendor_name, "VMWare Inc (temporary ID)");
    assert_eq!(dev.device_name, "Virtual SVGA");
    assert_eq!(dev.vendor_id, 0xfffe);
    assert_eq!(dev.device_id, 0x0710);
}

#[test]
fn make_key_puts_vendor_above_device() {
    assert_eq!(make_key(0x8086, 0x100e), 0x8086_100e);
    assert_eq!(make_key(0, 0), 0);
    assert_eq!(make_key(0xffff, 0xffff), 0xffff_ffff);
    assert_eq!(make_key(1, 0), 0x1_0000);
}

#[test]
fn unknown_device_has_no_entry() {
    assert!(get(&make_key(0x0001, 0x0002)).is_none());
    assert!(get(&0xfffe_0711).is_none());
}

#[test]
fn known_network_devices_are_named() {
    let e1000 = get(&make_key(0x8086, 0x100e)).unwrap();
    assert_eq!(e1000.vendor_name, "Intel Corporation");
    assert_eq!(e1000.device_name, "82540EM Gigabit Ethernet Controller");
    let virtio = get(&make_key(0x1af4, 0x1000)).unwrap();
    assert_eq!(virtio.vendor_name, "Red Hat, Inc.");
    assert_eq!(virtio.device_name, "Virtio network device");
    let vmxnet = get(&0x15ad_07b0).unwrap();
    assert_eq!(vmxnet.device_id, 0x07b0);
    assert_eq!(vmxnet.device_name, "VMXNET3 Ethernet Controller");
}

#[test]
fn find_looks_in_any_table() {
    let entry = |vendor_id, device_id, device_name| PciDeviceInfo {
        vendor_id,
        device_id,
        vendor_name: "Realtek Semiconductor Co., Ltd.",
        device_name,
    };
    let table = vec![
        entry(0x10ec, 0x8139, "RTL-8100/8101L/8139 PCI Fast Ethernet Adapter"),
        entry(0x10ec, 0x8168, "RTL8111/8168/8211/8411 PCI Express Gigabit Ethernet Controller"),
        entry(0x10ec, 0x8139, "a later entry with the same key"),
    ];
    let found = find(&table, &make_key(0x10ec, 0x8168)).unwrap();
    assert_eq!(found.device_id, 0x8168);
    let first = find(&table, &0x10ec_8139).unwrap();
    assert_eq!(first.device_name, "RTL-8100/8101L/8139 PCI Fast Ethernet Adapter");
    assert!(find(&table, &0x10ec_8169).is_none());
    assert!(find(&Vec::new(), &0x10ec_8139).is_none());
    assert!(find(&table, &make_key(0xfffe, 0x0710)).is_none());
}
