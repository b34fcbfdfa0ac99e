//! The names of PCI vendors and devices.
//!
//! A device is looked up by a key made of its vendor id and its device id.
//! The table that comes with the crate holds the devices that drivers built
//! with it meet most: the network, disk and display devices of common
//! virtual machines and a few network controllers. It is a small part of
//! the PCI ID database; a program that has the whole database at hand looks
//! devices up in it with `find`.
//!
//! The names are those of the PCI ID database, a compilation of facts whose
//! copyright covers the collection and its form only; it is held by Martin
//! Mares and Albert Pool and licensed under the 3-clause BSD license. See
//! <https://github.com/pciutils/pciids>.

use vstd::prelude::*;

verus! {

/// Information about a PCI device.
#[derive(Debug, Clone, Copy, Eq, PartialEq)]
pub struct PciDeviceInfo {
    /// The id of the vendor.
    pub vendor_id: u16,
    /// The id that the vendor gave the device.
    pub device_id: u16,
    /// The name of the vendor.
    pub vendor_name: &'static str,
    /// The name of the device.
    pub device_name: &'static str,
}

/// The key of a device: the vendor id in the upper half of the word, the
/// device id in the lower.
pub open spec fn spec_make_key(vendor: u16, device: u16) -> u32 {
    (vendor * 0x1_0000 + device) as u32
}

/// Makes the key under which the device `device` of vendor `vendor` is
/// looked up.
#[verifier::when_used_as_spec(spec_make_key)]
pub fn make_key(vendor: u16, device: u16) -> (key: u32)
    ensures
        key == spec_make_key(vendor, device),
{
    let v: u32 = vendor as u32;
    let d: u32 = device as u32;
    assert((v << 16) | d == v * 0x1_0000 + d) by (bit_vector)
        requires
            v <= 0xffff,
            d <= 0xffff,
    ;
    (v << 16) | d
}

/// Different devices have different keys: the key gives back both ids.
pub proof fn lemma_key_tells_ids(vendor: u16, device: u16)
    ensures
        spec_make_key(vendor, device) / 0x1_0000 == vendor,
        spec_make_key(vendor, device) % 0x1_0000 == device,
        forall|v: u16, d: u16|
            #[trigger] spec_make_key(v, d) == spec_make_key(vendor, device) ==> v == vendor && d
                == device,
{
}

/// The key of an entry of the table.
pub open spec fn key_of(info: PciDeviceInfo) -> u32 {
    spec_make_key(info.vendor_id, info.device_id)
}

/// The devices that the table knows.
pub open spec fn known_devices() -> Seq<PciDeviceInfo> {
    seq![
        PciDeviceInfo {
            vendor_id: 0x1af4,
            device_id: 0x1000,
            vendor_name: "Red Hat, Inc.",
            device_name: "Virtio network device",
        },
        PciDeviceInfo {
            vendor_id: 0x1af4,
            device_id: 0x1001,
            vendor_name: "Red Hat, Inc.",
            device_name: "Virtio block device",
        },
        PciDeviceInfo {
            vendor_id: 0x15ad,
            device_id: 0x0405,
            vendor_name: "VMware",
            device_name: "SVGA II Adapter",
        },
        PciDeviceInfo {
            vendor_id: 0x15ad,
            device_id: 0x07b0,
            vendor_name: "VMware",
            device_name: "VMXNET3 Ethernet Controller",
        },
        PciDeviceInfo {
            vendor_id: 0x8086,
            device_id: 0x100e,
            vendor_name: "Intel Corporation",
            device_name: "82540EM Gigabit Ethernet Controller",
        },
        PciDeviceInfo {
            vendor_id: 0x8086,
            device_id: 0x10d3,
            vendor_name: "Intel Corporation",
            device_name: "82574L Gigabit Network Connection",
        },
        PciDeviceInfo {
            vendor_id: 0x8086,
            device_id: 0x10fb,
            vendor_name: "Intel Corporation",
            device_name: "82599ES 10-Gigabit SFI/SFP+ Network Connection",
        },
        PciDeviceInfo {
            vendor_id: 0x8086,
            device_id: 0x1237,
            vendor_name: "Intel Corporation",
            device_name: "440FX - 82441FX PMC [Natoma]",
        },
        PciDeviceInfo {
            vendor_id: 0x8086,
            device_id: 0x7000,
            vendor_name: "Intel Corporation",
            device_name: "82371SB PIIX3 ISA [Natoma/Triton II]",
        },
        PciDeviceInfo {
            vendor_id: 0x8086,
            device_id: 0x7010,
            vendor_name: "Intel Corporation",
            device_name: "82371SB PIIX3 IDE [Natoma/Triton II]",
        },
        PciDeviceInfo {
            vendor_id: 0x8086,
            device_id: 0x7113,
            vendor_name: "Intel Corporation",
            device_name: "82371AB/EB/MB PIIX4 ACPI",
        },
        PciDeviceInfo {
            vendor_id: 0xfffe,
            device_id: 0x0710,
            vendor_name: "VMWare Inc (temporary ID)",
            device_name: "Virtual SVGA",
        },
    ]
}

/// No two entries of the table share a key, so a key has at most one
/// answer.
pub proof fn lemma_keys_are_distinct()
    ensures
        forall|i: int, j: int|
            0 <= i < j < known_devices().len() ==> key_of(#[trigger] known_devices()[i]) != key_of(
                #[trigger] known_devices()[j],
            ),
{
    let t = known_devices();
    assert(t.len() == 12);
    assert(key_of(t[0]) == 0x1af4_1000);
    assert(key_of(t[1]) == 0x1af4_1001);
    assert(key_of(t[2]) == 0x15ad_0405);
    assert(key_of(t[3]) == 0x15ad_07b0);
    assert(key_of(t[4]) == 0x8086_100e);
    assert(key_of(t[5]) == 0x8086_10d3);
    assert(key_of(t[6]) == 0x8086_10fb);
    assert(key_of(t[7]) == 0x8086_1237);
    assert(key_of(t[8]) == 0x8086_7000);
    assert(key_of(t[9]) == 0x8086_7010);
    assert(key_of(t[10]) == 0x8086_7113);
    assert(key_of(t[11]) == 0xfffe_0710);
}

/// The table as a vector, in the order of `known_devices`.
fn table() -> (t: Vec<PciDeviceInfo>)
    ensures
        t@ == known_devices(),
{
    let t: Vec<PciDeviceInfo> = vec![
        PciDeviceInfo {
            vendor_id: 0x1af4,
            device_id: 0x1000,
            vendor_name: "Red Hat, Inc.",
            device_name: "Virtio network device",
        },
        PciDeviceInfo {
            vendor_id: 0x1af4,
            device_id: 0x1001,
            vendor_name: "Red Hat, Inc.",
            device_name: "Virtio block device",
        },
        PciDeviceInfo {
            vendor_id: 0x15ad,
            device_id: 0x0405,
            vendor_name: "VMware",
            device_name: "SVGA II Adapter",
        },
        PciDeviceInfo {
            vendor_id: 0x15ad,
            device_id: 0x07b0,
            vendor_name: "VMware",
            device_name: "VMXNET3 Ethernet Controller",
        },
        PciDeviceInfo {
            vendor_id: 0x8086,
            device_id: 0x100e,
            vendor_name: "Intel Corporation",
            device_name: "82540EM Gigabit Ethernet Controller",
        },
        PciDeviceInfo {
            vendor_id: 0x8086,
            device_id: 0x10d3,
            vendor_name: "Intel Corporation",
            device_name: "82574L Gigabit Network Connection",
        },
        PciDeviceInfo {
            vendor_id: 0x8086,
            device_id: 0x10fb,
            vendor_name: "Intel Corporation",
            device_name: "82599ES 10-Gigabit SFI/SFP+ Network Connection",
        },
        PciDeviceInfo {
            vendor_id: 0x8086,
            device_id: 0x1237,
            vendor_name: "Intel Corporation",
            device_name: "440FX - 82441FX PMC [Natoma]",
        },
        PciDeviceInfo {
            vendor_id: 0x8086,
            device_id: 0x7000,
            vendor_name: "Intel Corporation",
            device_name: "82371SB PIIX3 ISA [Natoma/Triton II]",
        },
        PciDeviceInfo {
            vendor_id: 0x8086,
            device_id: 0x7010,
            vendor_name: "Intel Corporation",
            device_name: "82371SB PIIX3 IDE [Natoma/Triton II]",
        },
        PciDeviceInfo {
            vendor_id: 0x8086,
            device_id: 0x7113,
            vendor_name: "Intel Corporation",
            device_name: "82371AB/EB/MB PIIX4 ACPI",
        },
        PciDeviceInfo {
            vendor_id: 0xfffe,
            device_id: 0x0710,
            vendor_name: "VMWare Inc (temporary ID)",
            device_name: "Virtual SVGA",
        },
    ];
    assert(t@ =~= known_devices());
    t
}

/// The first entry of `table` with the key `key`, if there is one.
pub open spec fn entry_for(table: Seq<PciDeviceInfo>, key: u32) -> Option<PciDeviceInfo>
    decreases table.len(),
{
    if table.len() == 0 {
        None
    } else if key_of(table[0]) == key {
        Some(table[0])
    } else {
        entry_for(table.drop_first(), key)
    }
}

/// What is known of the device with the key `key`: its entry in the table
/// of known devices.
pub open spec fn spec_get(key: u32) -> Option<PciDeviceInfo> {
    entry_for(known_devices(), key)
}

/// Looks up the device with the key `key` in `table`: the first entry with
/// that key, and nothing only if the table has no such entry. This serves
/// any table, such as the whole database where a program has it at hand.
pub fn find(table: &Vec<PciDeviceInfo>, key: &u32) -> (r: Option<PciDeviceInfo>)
    ensures
        r == entry_for(table@, *key),
        r matches Some(info) ==> key_of(info) == *key && table@.contains(info),
        r is None ==> forall|i: int| 0 <= i < table@.len() ==> key_of(#[trigger] table@[i]) != *key,
{
    let mut i: usize = 0;
    assert(table@.skip(0) =~= table@);
    while i < table.len()
        invariant
            i <= table@.len(),
            forall|j: int| 0 <= j < i ==> key_of(#[trigger] table@[j]) != *key,
            entry_for(table@, *key) == entry_for(table@.skip(i as int), *key),
        decreases table@.len() - i,
    {
        let info: PciDeviceInfo = table[i];
        assert(table@.skip(i as int)[0] == info);
        if make_key(info.vendor_id, info.device_id) == *key {
            return Some(info);
        }
        assert(table@.skip(i as int).drop_first() =~= table@.skip(i + 1));
        i += 1;
    }
    None
}

/// Looks up the device with the key `key` among the known devices. The
/// answer is the entry of the table with that key, and there is none only
/// if the table has no such entry.
pub fn get(key: &u32) -> (r: Option<PciDeviceInfo>)
    ensures
        r == spec_get(*key),
        r matches Some(info) ==> key_of(info) == *key && known_devices().contains(info),
        r is None ==> forall|i: int|
            0 <= i < known_devices().len() ==> key_of(#[trigger] known_devices()[i]) != *key,
{
    let t: Vec<PciDeviceInfo> = table();
    find(&t, key)
}

} // verus!
