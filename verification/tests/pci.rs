use driverkit::pci::{
    bar_count, bar_kind, class_code_of, device_type_of, is_present, low_half, mem_bar_32,
    mem_bar_64, revision_and_class_of, scan_bus, Bar, BarKind, BarType, ClassCode, PCIAddress,
    PCIHeader, PciDevice, PciDeviceType,
};
use driverkit::{PciInterface, PCI_CONF_ADDR, PCI_CONF_DATA};
use std::cell::RefCell;
use std::collections::HashMap;

/// A configuration space held in memory. A register that is written with
/// all bits set answers with its size mask, as a base address register does.
/// A register that was never set up is wired to zero and ignores writes.
struct FakeBus {
    regs: HashMap<u32, u32>,
    size_masks: HashMap<u32, u32>,
    reads: RefCell<Vec<u32>>,
    writes: Vec<(u32, u32)>,
}

impl FakeBus {
    fn new() -> FakeBus {
        FakeBus {
            regs: HashMap::new(),
            size_masks: HashMap::new(),
            reads: RefCell::new(Vec::new()),
            writes: Vec::new(),
        }
    }

    fn addr(bus: u8, dev: u8, fun: u8, offset: u32) -> u32 {
        PCIAddress::new(bus, dev, fun).addr() | offset
    }

    fn set(&mut self, bus: u8, dev: u8, fun: u8, offset: u32, value: u32) {
        self.regs.insert(FakeBus::addr(bus, dev, fun, offset), value);
    }

    fn set_bar(&mut self, bus: u8, dev: u8, fun: u8, offset: u32, value: u32, mask: u32) {
        self.set(bus, dev, fun, offset, value);
        self.size_masks.insert(FakeBus::addr(bus, dev, fun, offset), mask);
    }

    fn device(&mut self, bus: u8, dev: u8, fun: u8, id: u32) {
        self.set(bus, dev, fun, 0, id);
    }
}

impl PciInterface for FakeBus {
    fn answers(&self, addr: u32, value: u32) -> bool {
        match self.regs.get(&addr) {
            Some(v) => *v == value,
            None => value == if addr & 0xff == 0 { u32::MAX } else { 0 },
        }
    }

    fn leads_to(&self, addr: u32, value: u32, after: &FakeBus) -> bool {
        let stored = match self.size_masks.get(&addr) {
            Some(mask) if value == u32::MAX => *mask,
            _ => value,
        };
        !self.regs.contains_key(&addr) || after.regs.get(&addr) == Some(&stored)
    }

    fn read(&self, addr: u32) -> u32 {
        self.reads.borrow_mut().push(addr);
        match self.regs.get(&addr) {
            Some(v) => *v,
            None => {
                if addr & 0xff == 0 {
                    u32::MAX
                } else {
                    0
                }
            }
        }
    }

    fn write(&mut self, addr: u32, value: u32) {
        self.writes.push((addr, value));
        if !self.regs.contains_key(&addr) {
            return;
        }
        let stored = match self.size_masks.get(&addr) {
            Some(mask) if value == u32::MAX => *mask,
            _ => value,
        };
        self.regs.insert(addr, stored);
    }
}

#[test]
fn configuration_ports() {
    assert_eq!(PCI_CONF_ADDR, 0xcf8);
    assert_eq!(PCI_CONF_DATA, 0xcfc);
}

#[test]
fn address_packs_bus_device_and_function() {
    assert_eq!(PCIAddress::new(0, 0, 0).addr(), 0x8000_0000);
    assert_eq!(PCIAddress::new(1, 0, 0).addr(), 0x8001_0000);
    assert_eq!(PCIAddress::new(0, 1, 0).addr(), 0x8000_0800);
    assert_eq!(PCIAddress::new(0, 0, 1).addr(), 0x8000_0100);
    assert_eq!(PCIAddress::new(255, 31, 7).addr(), 0x80ff_ff00);
    let a = PCIAddress::new(3, 4, 5);
    assert_eq!((a.bus(), a.dev(), a.fun()), (3, 4, 5));
    assert_eq!(a.addr(), (1 << 31) | (3 << 16) | (4 << 11) | (5 << 8));
}

#[test]
fn address_reads_and_writes_at_the_offset() {
    let mut bus = FakeBus::new();
    bus.set(2, 3, 1, 0x10, 0);
    let a = PCIAddress::new(2, 3, 1);
    a.write(&mut bus, 0x10, 0xabcd);
    assert_eq!(bus.writes, vec![(0x8002_1910, 0xabcd)]);
    assert_eq!(a.read(&bus, 0x10), 0xabcd);
    assert_eq!(*bus.reads.borrow(), vec![0x8002_1910]);
}

#[test]
fn a_slot_that_answers_all_ones_is_empty() {
    assert!(!is_present(u32::MAX));
    assert!(is_present(0));
    assert!(is_present(0x100e_8086));
    assert!(is_present(0xffff_fffe));
    let mut bus = FakeBus::new();
    bus.device(0, 3, 0, 0x100e_8086);
    assert!(PCIHeader::is_valid(&bus, PCIAddress::new(0, 3, 0)));
    assert!(!PCIHeader::is_valid(&bus, PCIAddress::new(0, 4, 0)));
    assert!(PCIHeader::new(&bus, 0, 3, 0).is_some());
    assert!(PCIHeader::new(&bus, 0, 3, 1).is_none());
    assert!(PciDevice::new(&bus, 0, 3, 0).is_some());
    assert!(PciDevice::new(&bus, 1, 3, 0).is_none());
    let h = PCIHeader::new(&bus, 0, 3, 0).unwrap();
    assert_eq!(h.address(), PCIAddress::new(0, 3, 0));
}

#[test]
fn header_type_decoding() {
    assert_eq!(device_type_of(0x0000_0000), PciDeviceType::Endpoint);
    assert_eq!(device_type_of(0x0001_0000), PciDeviceType::PciBridge);
    assert_eq!(device_type_of(0x0002_0000), PciDeviceType::Unknown);
    assert_eq!(device_type_of(0x007f_0000), PciDeviceType::Unknown);
    assert_eq!(device_type_of(0x0080_0000), PciDeviceType::Endpoint);
    assert_eq!(device_type_of(0x0081_0000), PciDeviceType::PciBridge);
    assert_eq!(device_type_of(0xff00_ffff), PciDeviceType::Endpoint);
}

#[test]
fn ids_are_the_lower_half() {
    assert_eq!(low_half(0x100e_8086), 0x8086);
    assert_eq!(low_half(0xffff_0000), 0);
    assert_eq!(low_half(0x0000_ffff), 0xffff);
    let mut bus = FakeBus::new();
    bus.device(0, 1, 0, 0x100e_8086);
    bus.set(0, 1, 0, 0x02, 0x0000_100e);
    let d = PciDevice::new(&bus, 0, 1, 0).unwrap();
    assert_eq!(d.vendor_id(&bus), 0x8086);
    assert_eq!(d.device_id(&bus), 0x100e);
    assert_eq!(d.address(), PCIAddress::new(0, 1, 0));
}

#[test]
fn revision_and_class_bytes() {
    assert_eq!(revision_and_class_of(0x0200_0003), (0x03, 0x02, 0x00, 0x00));
    assert_eq!(revision_and_class_of(0x0106_8f02), (0x02, 0x01, 0x06, 0x8f));
    assert_eq!(revision_and_class_of(0xffff_ffff), (0xff, 0xff, 0xff, 0xff));
    assert_eq!(revision_and_class_of(0), (0, 0, 0, 0));
}

#[test]
fn class_codes() {
    assert_eq!(ClassCode::from(0x0101), ClassCode::IDEController);
    assert_eq!(ClassCode::from(0x0106), ClassCode::SATAController);
    assert_eq!(ClassCode::from(0x0200), ClassCode::EthernetController);
    assert_eq!(ClassCode::from(0x0300), ClassCode::VGACompatibleController);
    assert_eq!(ClassCode::from(0x0500), ClassCode::RAMController);
    assert_eq!(ClassCode::from(0x0600), ClassCode::HostBridge);
    assert_eq!(ClassCode::from(0x0601), ClassCode::ISABridge);
    assert_eq!(ClassCode::from(0x0680), ClassCode::OtherBridge);
    assert_eq!(ClassCode::from(0x0000), ClassCode::Unknown);
    assert_eq!(ClassCode::from(0xffff), ClassCode::Unknown);
    assert_eq!(class_code_of(0x02, 0x00), ClassCode::EthernetController);
    assert_eq!(class_code_of(0x06, 0x80), ClassCode::OtherBridge);
    assert_eq!(class_code_of(0x00, 0x02), ClassCode::Unknown);
    let mut bus = FakeBus::new();
    bus.device(0, 2, 0, 0x100e_8086);
    bus.set(0, 2, 0, 0x08, 0x0200_0003);
    let d = PciDevice::new(&bus, 0, 2, 0).unwrap();
    assert_eq!(d.revision_and_class(&bus), (3, 2, 0, 0));
    assert_eq!(d.device_class(&bus), ClassCode::EthernetController);
}

#[test]
fn bar_types() {
    assert_eq!(BarType::from(true), BarType::IO);
    assert_eq!(BarType::from(false), BarType::Mem);
    assert_eq!(bar_kind(0x0000_c001), BarKind::Io);
    assert_eq!(bar_kind(0xfebc_0000), BarKind::Mem32);
    assert_eq!(bar_kind(0xfebc_0008), BarKind::Mem32);
    assert_eq!(bar_kind(0xfebc_0004), BarKind::Mem64);
    assert_eq!(bar_kind(0xfebc_000c), BarKind::Mem64);
    assert_eq!(bar_kind(0xfebc_0002), BarKind::Reserved);
    assert_eq!(bar_kind(0xfebc_0006), BarKind::Reserved);
    assert_eq!(bar_count(PciDeviceType::Endpoint), 6);
    assert_eq!(bar_count(PciDeviceType::PciBridge), 2);
    assert_eq!(bar_count(PciDeviceType::Unknown), 0);
}

#[test]
fn memory_bar_of_32_bits() {
    let want = Bar {
        region_type: BarType::Mem,
        prefetchable: false,
        address: 0xfebc_0000,
        size: 0x2_0000,
    };
    assert_eq!(mem_bar_32(0xfebc_0000, 0xfffe_0000), Some(want));
    let want = Bar {
        region_type: BarType::Mem,
        prefetchable: true,
        address: 0xe000_0000,
        size: 0x1000_0000,
    };
    assert_eq!(mem_bar_32(0xe000_0008, 0xf000_0008), Some(want));
    assert_eq!(mem_bar_32(0xfebc_0000, 0xffff_fff0).map(|b| b.size), Some(16));
    assert_eq!(mem_bar_32(0xfebc_0000, 0x0000_0010).map(|b| b.size), Some(0xffff_fff0));
    assert_eq!(mem_bar_32(0xfebc_0000, 0x0000_000f), None);
    assert_eq!(mem_bar_32(0xfebc_0000, 0), None);
}

#[test]
fn memory_bar_of_64_bits() {
    let want = Bar {
        region_type: BarType::Mem,
        prefetchable: true,
        address: 0x0000_0038_0000_0000,
        size: 0x4_0000_0000,
    };
    assert_eq!(mem_bar_64(0x0000_000c, 0x38, 0x0000_000c, 0xffff_fffc), Some(want));
    let want = Bar {
        region_type: BarType::Mem,
        prefetchable: false,
        address: 0x0000_0001_febc_0000,
        size: 0x4000,
    };
    assert_eq!(mem_bar_64(0xfebc_0004, 1, 0xffff_c004, 0xffff_ffff), Some(want));
    assert_eq!(mem_bar_64(0xfebc_0004, 1, 0x0000_0004, 0), None);
    assert_eq!(mem_bar_64(0, 0, 0x10, 0).map(|b| b.size), Some(0xffff_ffff_ffff_fff0));
}

#[test]
fn device_bar_sizes_the_region_and_restores_the_register() {
    let mut bus = FakeBus::new();
    bus.device(0, 3, 0, 0x100e_8086);
    bus.set(0, 3, 0, 0x0c, 0x0000_0000);
    bus.set_bar(0, 3, 0, 0x10, 0xfebc_0000, 0xfffe_0000);
    let mut d = PciDevice::new(&bus, 0, 3, 0).unwrap();
    let bar = d.bar(&mut bus, 0).unwrap();
    assert_eq!(bar.region_type, BarType::Mem);
    assert_eq!(bar.address, 0xfebc_0000);
    assert_eq!(bar.size, 0x2_0000);
    assert!(!bar.prefetchable);
    let reg = FakeBus::addr(0, 3, 0, 0x10);
    assert_eq!(bus.writes, vec![(reg, u32::MAX), (reg, 0xfebc_0000)]);
    assert_eq!(bus.regs[&reg], 0xfebc_0000);
}

#[test]
fn device_bar_of_64_bits_takes_two_registers() {
    let mut bus = FakeBus::new();
    bus.device(0, 4, 0, 0x10fb_8086);
    bus.set_bar(0, 4, 0, 0x18, 0xfebc_000c, 0xfffc_000c);
    bus.set_bar(0, 4, 0, 0x1c, 0x0000_0002, 0xffff_ffff);
    let mut d = PciDevice::new(&bus, 0, 4, 0).unwrap();
    let bar = d.bar(&mut bus, 2).unwrap();
    assert_eq!(bar.address, 0x0000_0002_febc_0000);
    assert_eq!(bar.size, 0x4_0000);
    assert!(bar.prefetchable);
    let lo = FakeBus::addr(0, 4, 0, 0x18);
    let hi = FakeBus::addr(0, 4, 0, 0x1c);
    assert_eq!(
        bus.writes,
        vec![(lo, u32::MAX), (lo, 0xfebc_000c), (hi, u32::MAX), (hi, 2)]
    );
}

#[test]
fn device_bar_without_an_answer() {
    let mut bus = FakeBus::new();
    bus.device(0, 5, 0, 0x100e_8086);
    bus.set(0, 5, 0, 0x10, 0x0000_c001);
    bus.set_bar(0, 5, 0, 0x14, 0xfebc_0002, 0xffff_0002);
    let mut d = PciDevice::new(&bus, 0, 5, 0).unwrap();
    assert_eq!(d.bar(&mut bus, 0), None);
    assert!(bus.writes.is_empty());
    assert_eq!(d.bar(&mut bus, 1), None);
    assert_eq!(d.bar(&mut bus, 2), None);
    assert_eq!(d.bar(&mut bus, 6), None);
    assert_eq!(d.bar(&mut bus, 255), None);
    let mut bridge_bus = FakeBus::new();
    bridge_bus.device(0, 6, 0, 0x1234_8086);
    bridge_bus.set(0, 6, 0, 0x0c, 0x0001_0000);
    bridge_bus.set_bar(0, 6, 0, 0x14, 0xfe00_0000, 0xffff_f000);
    bridge_bus.set_bar(0, 6, 0, 0x18, 0xfe00_0000, 0xffff_f000);
    let mut bridge = PciDevice::new(&bridge_bus, 0, 6, 0).unwrap();
    assert_eq!(bridge.device_type(&bridge_bus), PciDeviceType::PciBridge);
    assert_eq!(bridge.bar(&mut bridge_bus, 1).map(|b| b.size), Some(0x1000));
    assert_eq!(bridge.bar(&mut bridge_bus, 2), None);
    let mut odd_bus = FakeBus::new();
    odd_bus.device(0, 7, 0, 0x1234_8086);
    odd_bus.set(0, 7, 0, 0x0c, 0x0002_0000);
    let mut odd = PciDevice::new(&odd_bus, 0, 7, 0).unwrap();
    assert_eq!(odd.bar(&mut odd_bus, 0), None);
}

#[test]
fn bus_mastering() {
    let mut bus = FakeBus::new();
    bus.device(0, 3, 0, 0x100e_8086);
    bus.set(0, 3, 0, 0x04, 0x0000_0103);
    let mut d = PciDevice::new(&bus, 0, 3, 0).unwrap();
    assert!(!d.is_bus_master(&bus));
    d.enable_bus_mastering(&mut bus);
    assert_eq!(bus.writes, vec![(FakeBus::addr(0, 3, 0, 0x04), 0x0000_0107)]);
    assert!(d.is_bus_master(&bus));
    d.enable_bus_mastering(&mut bus);
    assert_eq!(bus.regs[&FakeBus::addr(0, 3, 0, 0x04)], 0x0000_0107);
}

#[test]
fn device_info_comes_from_the_table() {
    let mut bus = FakeBus::new();
    bus.device(0, 3, 0, 0x100e_8086);
    bus.set(0, 3, 0, 0x02, 0x100e);
    bus.device(0, 4, 0, 0x0001_0002);
    bus.set(0, 4, 0, 0x02, 0x0001);
    let d = PciDevice::new(&bus, 0, 3, 0).unwrap();
    let info = d.info(&bus).unwrap();
    assert_eq!(info.vendor_name, "Intel Corporation");
    assert_eq!(info.device_name, "82540EM Gigabit Ethernet Controller");
    let other = PciDevice::new(&bus, 0, 4, 0).unwrap();
    assert!(other.info(&bus).is_none());
}

#[test]
fn scan_finds_devices_in_order() {
    let mut bus = FakeBus::new();
    bus.device(0, 0, 0, 0x1237_8086);
    bus.device(0, 0, 1, 0x7000_8086);
    bus.device(0, 0, 5, 0x7010_8086);
    let mut it = scan_bus();
    let found: Vec<PCIAddress> = (0..3).map(|_| it.next(&bus).unwrap().address()).collect();
    assert_eq!(
        found,
        vec![PCIAddress::new(0, 0, 0), PCIAddress::new(0, 0, 1), PCIAddress::new(0, 0, 5)]
    );
    assert!(it.next(&bus).is_none());
    assert!(it.next(&bus).is_none());
}

#[test]
fn scan_goes_on_from_the_function_after_the_last_find() {
    let mut bus = FakeBus::new();
    bus.device(0, 1, 2, 0x1000_1af4);
    bus.device(0, 3, 0, 0x1001_1af4);
    bus.device(0, 3, 4, 0x1001_1af4);
    bus.device(2, 1, 3, 0x100e_8086);
    bus.device(2, 0, 7, 0x100e_8086);
    let mut it = scan_bus();
    assert_eq!(it.next(&bus).unwrap().address(), PCIAddress::new(0, 1, 2));
    assert_eq!(it.next(&bus).unwrap().address(), PCIAddress::new(0, 3, 4));
    assert!(it.next(&bus).is_none());
}

#[test]
fn scan_of_an_empty_bus_looks_at_every_function() {
    let bus = FakeBus::new();
    let mut it = scan_bus();
    assert!(it.next(&bus).is_none());
    assert_eq!(bus.reads.borrow().len(), 256 * 32 * 8);
}
