//! PCI devices as configuration space shows them: where a device sits on
//! the bus, what kind of device it is, and where its memory regions lie.
//!
//! Every register is read and written through a `PciInterface`. What comes
//! back is decoded by functions of their own, which take the register
//! values as plain numbers. A function that reads registers says which
//! register it reads and how its answer comes from what the register
//! answered; a function that writes says what it writes where.

use crate::bitops::{bit_of, bits_of, get_bit, get_bits, set_bit, with_bit};
use crate::PciInterface;
use vstd::prelude::*;

pub mod device_db;

verus! {

/// The id of a vendor.
pub type VendorId = u16;

/// The id that a vendor gave a device.
pub type DeviceId = u16;

/// The revision of a device.
pub type DeviceRevision = u8;

/// The base class of a device: the kind of thing it is.
pub type BaseClass = u8;

/// The subclass of a device within its base class.
pub type SubClass = u8;

/// The programming interface of a device within its subclass.
pub type Interface = u8;

/// The number of a header layout.
pub type HeaderType = u8;

/// The layout of a device's configuration header.
#[derive(Debug, Clone, Copy, PartialEq, Eq, Structural)]
pub enum PciDeviceType {
    /// An ordinary device (header type 0).
    Endpoint,
    /// A bridge from PCI to PCI (header type 1).
    PciBridge,
    /// Any other header type.
    Unknown,
}

/// The place of a function on the bus: bus, device and function number.
#[derive(Debug, Clone, Copy, PartialEq, Eq, Structural)]
pub struct PCIAddress {
    bus: u8,
    dev: u8,
    fun: u8,
}

/// The address in configuration space of register 0 of the function
/// `fun` of device `dev` on bus `bus`: the enable bit, then the three
/// numbers, each in its field.
pub open spec fn config_address(bus: u8, dev: u8, fun: u8) -> u32 {
    (0x8000_0000 + bus * 0x1_0000 + dev * 0x800 + fun * 0x100) as u32
}

impl PCIAddress {
    /// The bus number.
    pub closed spec fn spec_bus(&self) -> u8 {
        self.bus
    }

    /// The device number on the bus.
    pub closed spec fn spec_dev(&self) -> u8 {
        self.dev
    }

    /// The function number in the device.
    pub closed spec fn spec_fun(&self) -> u8 {
        self.fun
    }

    /// Whether the device and function numbers are such as the bus has: a
    /// bus has 32 devices of 8 functions each.
    pub open spec fn wf(&self) -> bool {
        self.spec_dev() <= 31 && self.spec_fun() <= 7
    }

    /// The address of function `fun` of device `dev` on bus `bus`.
    pub fn new(bus: u8, dev: u8, fun: u8) -> (a: PCIAddress)
        requires
            dev <= 31,
            fun <= 7,
        ensures
            a.wf(),
            a.spec_bus() == bus,
            a.spec_dev() == dev,
            a.spec_fun() == fun,
    {
        PCIAddress { bus, dev, fun }
    }

    /// The bus number.
    pub fn bus(&self) -> (n: u8)
        ensures
            n == self.spec_bus(),
    {
        self.bus
    }

    /// The device number on the bus.
    pub fn dev(&self) -> (n: u8)
        ensures
            n == self.spec_dev(),
    {
        self.dev
    }

    /// The function number in the device.
    pub fn fun(&self) -> (n: u8)
        ensures
            n == self.spec_fun(),
    {
        self.fun
    }

    /// The address in configuration space of the function's register 0.
    pub fn addr(&self) -> (a: u32)
        requires
            self.wf(),
        ensures
            a == config_address(self.spec_bus(), self.spec_dev(), self.spec_fun()),
    {
        let bus: u32 = self.bus as u32;
        let dev: u32 = self.dev as u32;
        let fun: u32 = self.fun as u32;
        assert((1u32 << 31) | (bus << 16) | (dev << 11) | (fun << 8) == 0x8000_0000 + bus * 0x1_0000
            + dev * 0x800 + fun * 0x100) by (bit_vector)
            requires
                bus <= 255,
                dev <= 31,
                fun <= 7,
        ;
        (1u32 << 31) | (bus << 16) | (dev << 11) | (fun << 8)
    }

    /// The address in configuration space of the function's register at
    /// `offset`.
    pub open spec fn register(&self, offset: u32) -> u32 {
        config_address(self.spec_bus(), self.spec_dev(), self.spec_fun()) | offset
    }

    /// Reads the function's register at `offset`: the answer is one that
    /// the configuration space may give for that register.
    pub fn read<P: PciInterface>(&self, io: &P, offset: u32) -> (value: u32)
        requires
            self.wf(),
        ensures
            io.answers(self.register(offset), value),
    {
        io.read(self.addr() | offset)
    }

    /// Writes `value` to the function's register at `offset`, and nothing
    /// else.
    pub fn write<P: PciInterface>(&self, io: &mut P, offset: u32, value: u32)
        requires
            self.wf(),
        ensures
            old(io).leads_to(self.register(offset), value, final(io)),
    {
        io.write(self.addr() | offset, value)
    }
}

/// Whether the id register of a function shows that a device is there: a
/// slot that holds none answers with all bits set.
pub open spec fn spec_is_present(id_register: u32) -> bool {
    id_register != u32::MAX
}

/// Tells from the id register of a function whether a device is there.
#[verifier::when_used_as_spec(spec_is_present)]
pub fn is_present(id_register: u32) -> (b: bool)
    ensures
        b == spec_is_present(id_register),
{
    id_register != u32::MAX
}

/// Whether the configuration space may answer a read of the id register of
/// the function `fun` of device `dev` on bus `bus` with a value that shows a
/// device.
pub open spec fn answers_present<P: PciInterface>(io: &P, bus: u8, dev: u8, fun: u8) -> bool {
    exists|id: u32| #[trigger] io.answers(config_address(bus, dev, fun) | 0, id) && is_present(id)
}

/// Whether the configuration space may answer a read of the id register of
/// the function `fun` of device `dev` on bus `bus` with the value of an
/// empty slot.
pub open spec fn answers_absent<P: PciInterface>(io: &P, bus: u8, dev: u8, fun: u8) -> bool {
    exists|id: u32| #[trigger] io.answers(config_address(bus, dev, fun) | 0, id) && !is_present(id)
}

/// The configuration header of a function at which a device was found.
#[derive(Debug, Clone, Copy)]
pub struct PCIHeader(PCIAddress);

impl PCIHeader {
    /// The address of the function.
    pub closed spec fn spec_address(&self) -> PCIAddress {
        self.0
    }

    /// Whether the address is a valid one.
    pub open spec fn wf(&self) -> bool {
        self.spec_address().wf()
    }

    /// The header of the function `function` of device `device` on bus
    /// `bus`, if a device answers there: there is a header if and only if
    /// the id register of the function, read once, shows a device.
    pub fn new<P: PciInterface>(io: &P, bus: u8, device: u8, function: u8) -> (r: Option<PCIHeader>)
        requires
            device <= 31,
            function <= 7,
        ensures
            r matches Some(h) ==> h.wf() && h.spec_address().spec_bus() == bus
                && h.spec_address().spec_dev() == device && h.spec_address().spec_fun() == function,
            r is Some ==> answers_present(io, bus, device, function),
            r is None ==> answers_absent(io, bus, device, function),
    {
        let addr = PCIAddress::new(bus, device, function);
        if PCIHeader::is_valid(io, addr) {
            Some(PCIHeader(addr))
        } else {
            None
        }
    }

    /// Whether a device answers at `addr`: whether the id register of the
    /// function, read once, shows one.
    pub fn is_valid<P: PciInterface>(io: &P, addr: PCIAddress) -> (b: bool)
        requires
            addr.wf(),
        ensures
            b ==> answers_present(io, addr.spec_bus(), addr.spec_dev(), addr.spec_fun()),
            !b ==> answers_absent(io, addr.spec_bus(), addr.spec_dev(), addr.spec_fun()),
    {
        let id: u32 = addr.read(io, 0);
        is_present(id)
    }

    /// The address of the function.
    pub fn address(&self) -> (a: PCIAddress)
        ensures
            a == self.spec_address(),
    {
        self.0
    }
}

/// What a device is for, as its class and subclass say. See
/// <https://wiki.osdev.org/PCI#Class_Codes>.
#[derive(Debug, Clone, Copy, PartialEq, Eq, Structural)]
pub enum ClassCode {
    /// Class `0x0101`.
    IDEController,
    /// Class `0x0106`.
    SATAController,
    /// Class `0x0200`.
    EthernetController,
    /// Class `0x0300`.
    VGACompatibleController,
    /// Class `0x0500`.
    RAMController,
    /// Class `0x0600`.
    HostBridge,
    /// Class `0x0601`.
    ISABridge,
    /// Class `0x0680`.
    OtherBridge,
    /// Any other class.
    Unknown,
}

/// The class that the number `value` stands for: the base class in the
/// upper byte, the subclass in the lower.
pub open spec fn class_of(value: u16) -> ClassCode {
    if value == 0x0101 {
        ClassCode::IDEController
    } else if value == 0x0106 {
        ClassCode::SATAController
    } else if value == 0x0200 {
        ClassCode::EthernetController
    } else if value == 0x0300 {
        ClassCode::VGACompatibleController
    } else if value == 0x0500 {
        ClassCode::RAMController
    } else if value == 0x0600 {
        ClassCode::HostBridge
    } else if value == 0x0601 {
        ClassCode::ISABridge
    } else if value == 0x0680 {
        ClassCode::OtherBridge
    } else {
        ClassCode::Unknown
    }
}

impl From<u16> for ClassCode {
    fn from(value: u16) -> (c: ClassCode) {
        match value {
            0x0101 => ClassCode::IDEController,
            0x0106 => ClassCode::SATAController,
            0x0200 => ClassCode::EthernetController,
            0x0300 => ClassCode::VGACompatibleController,
            0x0500 => ClassCode::RAMController,
            0x0600 => ClassCode::HostBridge,
            0x0601 => ClassCode::ISABridge,
            0x0680 => ClassCode::OtherBridge,
            _ => ClassCode::Unknown,
        }
    }
}

impl vstd::std_specs::convert::FromSpecImpl<u16> for ClassCode {
    open spec fn obeys_from_spec() -> bool {
        true
    }

    open spec fn from_spec(value: u16) -> ClassCode {
        class_of(value)
    }
}

/// The address space in which a region of a device lies.
#[derive(Debug, Clone, Copy, PartialEq, Eq, Structural)]
pub enum BarType {
    /// I/O ports.
    IO,
    /// Memory.
    Mem,
}

impl From<bool> for BarType {
    fn from(value: bool) -> (t: BarType) {
        match value {
            true => BarType::IO,
            false => BarType::Mem,
        }
    }
}

impl vstd::std_specs::convert::FromSpecImpl<bool> for BarType {
    open spec fn obeys_from_spec() -> bool {
        true
    }

    open spec fn from_spec(value: bool) -> BarType {
        if value {
            BarType::IO
        } else {
            BarType::Mem
        }
    }
}

/// A region of a device as one of its base address registers describes it.
#[derive(Debug, Clone, Copy, PartialEq, Eq, Structural)]
pub struct Bar {
    /// The address space in which the region lies.
    pub region_type: BarType,
    /// Whether reads of the region have no side effects, so that it may be
    /// read ahead.
    pub prefetchable: bool,
    /// Where the region starts.
    pub address: u64,
    /// The size of the region in bytes.
    pub size: u64,
}

/// The header type that the register at offset `0x0c` shows: its bits
/// 16 to 22. Bit 23, which marks a device of several functions, is left
/// out.
pub open spec fn spec_device_type(header: u32) -> PciDeviceType {
    let ty = bits_of(header, 16, 23);
    if ty == 0 {
        PciDeviceType::Endpoint
    } else if ty == 1 {
        PciDeviceType::PciBridge
    } else {
        PciDeviceType::Unknown
    }
}

/// Decodes the header type from the register at offset `0x0c`.
#[verifier::when_used_as_spec(spec_device_type)]
pub fn device_type_of(header: u32) -> (t: PciDeviceType)
    ensures
        t == spec_device_type(header),
{
    let ty: u32 = get_bits(header, 16, 23);
    if ty == 0 {
        PciDeviceType::Endpoint
    } else if ty == 1 {
        PciDeviceType::PciBridge
    } else {
        PciDeviceType::Unknown
    }
}

/// The lower half of a register: where an id of 16 bits stands.
pub open spec fn spec_low_half(register: u32) -> u16 {
    (register & 0xffff) as u16
}

/// Takes the lower half of a register.
#[verifier::when_used_as_spec(spec_low_half)]
pub fn low_half(register: u32) -> (id: u16)
    ensures
        id == spec_low_half(register),
        id == register % 0x1_0000,
{
    assert(register & 0xffff == register % 0x1_0000) by (bit_vector);
    (register & 0xffff) as u16
}

/// Revision, base class, subclass and programming interface of a device,
/// as the four bytes of the register at offset `0x08` give them, from the
/// lowest byte: revision, interface, subclass, base class.
pub open spec fn spec_revision_and_class(field: u32) -> (u8, u8, u8, u8) {
    (
        bits_of(field, 0, 8) as u8,
        bits_of(field, 24, 32) as u8,
        bits_of(field, 16, 24) as u8,
        bits_of(field, 8, 16) as u8,
    )
}

/// Splits the register at offset `0x08` into revision, base class, subclass
/// and programming interface, in this order.
#[verifier::when_used_as_spec(spec_revision_and_class)]
pub fn revision_and_class_of(field: u32) -> (r: (DeviceRevision, BaseClass, SubClass, Interface))
    ensures
        r == spec_revision_and_class(field),
        r.0 == field % 0x100,
        r.3 == (field / 0x100) % 0x100,
        r.2 == (field / 0x1_0000) % 0x100,
        r.1 == field / 0x100_0000,
{
    let revision: u32 = get_bits(field, 0, 8);
    let base: u32 = get_bits(field, 24, 32);
    let sub: u32 = get_bits(field, 16, 24);
    let interface: u32 = get_bits(field, 8, 16);
    assert(bits_of(field, 0, 8) == field % 0x100) by (bit_vector);
    assert(bits_of(field, 8, 16) == (field / 0x100) % 0x100) by (bit_vector);
    assert(bits_of(field, 16, 24) == (field / 0x1_0000) % 0x100) by (bit_vector);
    assert(bits_of(field, 24, 32) == field / 0x100_0000) by (bit_vector);
    (revision as u8, base as u8, sub as u8, interface as u8)
}

/// The class of a device with base class `base_class` and subclass
/// `sub_class`.
pub open spec fn spec_class_code(base_class: u8, sub_class: u8) -> ClassCode {
    class_of((base_class * 0x100 + sub_class) as u16)
}

/// Names the class of a device from its base class and its subclass.
#[verifier::when_used_as_spec(spec_class_code)]
pub fn class_code_of(base_class: BaseClass, sub_class: SubClass) -> (c: ClassCode)
    ensures
        c == spec_class_code(base_class, sub_class),
{
    let base: u16 = base_class as u16;
    let sub: u16 = sub_class as u16;
    assert((base << 8) | sub == base * 0x100 + sub) by (bit_vector)
        requires
            base <= 0xff,
            sub <= 0xff,
    ;
    let class: u16 = (base << 8) | sub;
    ClassCode::from(class)
}

/// The number of base address registers that a header of type `ty` has.
pub open spec fn spec_bar_count(ty: PciDeviceType) -> u8 {
    match ty {
        PciDeviceType::Endpoint => 6,
        PciDeviceType::PciBridge => 2,
        PciDeviceType::Unknown => 0,
    }
}

/// Tells how many base address registers a header of type `ty` has.
#[verifier::when_used_as_spec(spec_bar_count)]
pub fn bar_count(ty: PciDeviceType) -> (n: u8)
    ensures
        n == spec_bar_count(ty),
{
    match ty {
        PciDeviceType::Endpoint => 6,
        PciDeviceType::PciBridge => 2,
        PciDeviceType::Unknown => 0,
    }
}

/// How a base address register places its region.
#[derive(Debug, Clone, Copy, PartialEq, Eq, Structural)]
pub enum BarKind {
    /// The region lies in I/O space.
    Io,
    /// The region lies in memory, at an address of 32 bits.
    Mem32,
    /// The region lies in memory, at an address of 64 bits that takes this
    /// register and the next.
    Mem64,
    /// The region lies in memory, placed in a way that is not in use.
    Reserved,
}

/// What the lowest bits of a base address register say: bit 0 tells I/O
/// from memory, and for memory bits 1 and 2 tell the width of the address.
pub open spec fn spec_bar_kind(base: u32) -> BarKind {
    if bit_of(base, 0) {
        BarKind::Io
    } else if bits_of(base, 1, 3) == 0 {
        BarKind::Mem32
    } else if bits_of(base, 1, 3) == 2 {
        BarKind::Mem64
    } else {
        BarKind::Reserved
    }
}

/// Tells how a base address register places its region.
#[verifier::when_used_as_spec(spec_bar_kind)]
pub fn bar_kind(base: u32) -> (k: BarKind)
    ensures
        k == spec_bar_kind(base),
{
    if get_bit(base, 0) {
        BarKind::Io
    } else {
        let locatable: u32 = get_bits(base, 1, 3);
        if locatable == 0 {
            BarKind::Mem32
        } else if locatable == 2 {
            BarKind::Mem64
        } else {
            BarKind::Reserved
        }
    }
}

/// The size of a region from what its register reads after all bits were
/// written to it: the four lowest bits are flags and count as clear, and
/// the size is the two's complement of the rest. A register that lets no
/// address bit be set describes no region.
pub open spec fn spec_region_size(size_encoded: u64, limit: u64) -> Option<u64> {
    let mask = size_encoded & !0xFu64;
    if mask == 0 {
        None
    } else {
        Some(((!mask & limit) + 1) as u64)
    }
}

/// The memory region that a register of 32 bits describes: `base` is what
/// the register holds, `size_encoded` what it reads after all bits were
/// written to it.
pub open spec fn spec_mem_bar_32(base: u32, size_encoded: u32) -> Option<Bar> {
    match spec_region_size(size_encoded as u64, 0xffff_ffff) {
        Some(size) => Some(
            Bar {
                region_type: BarType::Mem,
                prefetchable: bit_of(base, 3),
                address: (base & 0xFFFF_FFF0) as u64,
                size,
            },
        ),
        None => None,
    }
}

/// Decodes the memory region of a register of 32 bits.
#[verifier::when_used_as_spec(spec_mem_bar_32)]
pub fn mem_bar_32(base: u32, size_encoded: u32) -> (r: Option<Bar>)
    ensures
        r == spec_mem_bar_32(base, size_encoded),
        r matches Some(bar) ==> bar.size > 0 && bar.size % 16 == 0 && bar.address % 16 == 0
            && bar.size <= 0xffff_fff0,
{
    let mask: u32 = size_encoded & !0xFu32;
    assert((size_encoded as u64) & !0xFu64 == (size_encoded & !0xFu32) as u64) by (bit_vector);
    if mask == 0 {
        return None;
    }
    assert(mask & 0xFu32 == 0) by (bit_vector)
        requires
            mask == size_encoded & !0xFu32,
    ;
    assert(!mask < u32::MAX && ((!(mask as u64) & 0xffff_ffffu64) + 1) == (!mask) + 1 && ((!mask)
        + 1) % 16 == 0 && (!mask) + 1 <= 0xffff_fff0) by (bit_vector)
        requires
            mask != 0,
            mask & 0xFu32 == 0,
    ;
    assert((base & 0xFFFF_FFF0u32) % 16 == 0) by (bit_vector);
    let size: u32 = !mask + 1;
    Some(
        Bar {
            region_type: BarType::from(false),
            prefetchable: get_bit(base, 3),
            address: (base & 0xFFFF_FFF0) as u64,
            size: size as u64,
        },
    )
}

/// The memory region that a pair of registers describes: `base` and
/// `next_bar` are what the lower and the upper register hold,
/// `size_encoded` and `msb_size_encoded` what they read after all bits
/// were written to them.
pub open spec fn spec_mem_bar_64(
    base: u32,
    next_bar: u32,
    size_encoded: u32,
    msb_size_encoded: u32,
) -> Option<Bar> {
    let encoded = ((msb_size_encoded as u64) << 32) | (size_encoded as u64);
    match spec_region_size(encoded, u64::MAX) {
        Some(size) => Some(
            Bar {
                region_type: BarType::Mem,
                prefetchable: bit_of(base, 3),
                address: ((base & 0xFFFF_FFF0) as u64) | ((next_bar as u64) << 32),
                size,
            },
        ),
        None => None,
    }
}

/// Decodes the memory region of a pair of registers.
#[verifier::when_used_as_spec(spec_mem_bar_64)]
pub fn mem_bar_64(base: u32, next_bar: u32, size_encoded: u32, msb_size_encoded: u32) -> (r: Option<
    Bar,
>)
    ensures
        r == spec_mem_bar_64(base, next_bar, size_encoded, msb_size_encoded),
        r matches Some(bar) ==> bar.size > 0 && bar.size % 16 == 0 && bar.address % 16 == 0,
{
    let encoded: u64 = ((msb_size_encoded as u64) << 32) | (size_encoded as u64);
    let mask: u64 = encoded & !0xFu64;
    if mask == 0 {
        return None;
    }
    assert(mask & 0xFu64 == 0) by (bit_vector)
        requires
            mask == encoded & !0xFu64,
    ;
    assert(!mask < u64::MAX && (!mask & u64::MAX) == !mask && ((!mask) + 1) % 16 == 0) by (
        bit_vector)
        requires
            mask != 0,
            mask & 0xFu64 == 0,
    ;
    let low: u32 = base & 0xFFFF_FFF0;
    let high: u64 = next_bar as u64;
    assert((((low as u64) | (high << 32)) % 16) == 0) by (bit_vector)
        requires
            low == base & 0xFFFF_FFF0u32,
    ;
    let size: u64 = !mask + 1;
    Some(
        Bar {
            region_type: BarType::from(false),
            prefetchable: get_bit(base, 3),
            address: (low as u64) | (high << 32),
            size,
        },
    )
}

/// The offset in the header of the base address register `index`.
pub open spec fn bar_offset(index: u8) -> u32 {
    (0x10 + index * 4) as u32
}

/// Whether a register that holds `held` was sized between the states
/// `before` and `after` of the configuration space, with `size_encoded` as
/// the answer: all bits were written to the register, the register was read
/// and answered `size_encoded`, and `held` was written back.
pub open spec fn sizes<P: PciInterface>(
    before: &P,
    register: u32,
    held: u32,
    size_encoded: u32,
    after: &P,
) -> bool {
    exists|probing: P| #[trigger]
        before.leads_to(register, u32::MAX, &probing) && probing.answers(register, size_encoded)
            && probing.leads_to(register, held, after)
}

/// Whether the upper register of a region of 64 bits was read and sized
/// between `before` and `after`, and `r` is the region that the two
/// registers describe.
pub open spec fn probes_upper_register<P: PciInterface>(
    before: &P,
    register: u32,
    base: u32,
    size_encoded: u32,
    r: Option<Bar>,
    after: &P,
) -> bool {
    exists|next_bar: u32, msb_size_encoded: u32|
        before.answers(register, next_bar) && #[trigger] sizes(
            before,
            register,
            next_bar,
            msb_size_encoded,
            after,
        ) && r == spec_mem_bar_64(base, next_bar, size_encoded, msb_size_encoded)
}

/// Whether `r` is what a register that holds `base` and was sized with the
/// answer `size_encoded` describes, and `after` is the configuration space
/// once that is found out. A register that lets no bit be set and a
/// placement that is not in use describe nothing. A region of 32 bits is
/// decoded as it is. A region of 64 bits takes the register at
/// `next_register` too, which is read and sized in its turn.
pub open spec fn decodes_sized<P: PciInterface>(
    restored: &P,
    next_register: u32,
    base: u32,
    size_encoded: u32,
    r: Option<Bar>,
    after: &P,
) -> bool {
    if size_encoded == 0 {
        r is None && after == restored
    } else {
        match spec_bar_kind(base) {
            BarKind::Mem32 => r == spec_mem_bar_32(base, size_encoded) && after == restored,
            BarKind::Mem64 => probes_upper_register(
                restored,
                next_register,
                base,
                size_encoded,
                r,
                after,
            ),
            _ => r is None && after == restored,
        }
    }
}

/// Whether `r` is what probing the base address register at `register`
/// gives, and `after` the configuration space that the probe leaves: the
/// register is read; a region in I/O space has no answer and nothing is
/// written; any other register is sized and then decoded.
pub open spec fn probes_register<P: PciInterface>(
    before: &P,
    register: u32,
    next_register: u32,
    r: Option<Bar>,
    after: &P,
) -> bool {
    exists|base: u32| #[trigger]
        before.answers(register, base) && if spec_bar_kind(base) == BarKind::Io {
            r is None && after == before
        } else {
            exists|size_encoded: u32, restored: P| #[trigger]
                sizes(before, register, base, size_encoded, &restored) && decodes_sized(
                    &restored,
                    next_register,
                    base,
                    size_encoded,
                    r,
                    after,
                )
        }
}

/// Whether `r` is what asking the function at `addr` for its base address
/// register `index` gives, and `after` the configuration space afterwards:
/// the header type is read; a register that a header of that type does not
/// have has no answer and nothing is written; any other register is probed.
pub open spec fn probes_bar<P: PciInterface>(
    before: &P,
    addr: PCIAddress,
    index: u8,
    r: Option<Bar>,
    after: &P,
) -> bool {
    exists|header: u32| #[trigger]
        before.answers(addr.register(0x0c), header) && if index >= spec_bar_count(
            spec_device_type(header),
        ) {
            r is None && after == before
        } else {
            probes_register(
                before,
                addr.register(bar_offset(index)),
                addr.register((bar_offset(index) + 4) as u32),
                r,
                after,
            )
        }
}

/// A device on the bus, known by the header at which it was found.
#[derive(Debug, Clone, Copy)]
pub struct PciDevice {
    header: PCIHeader,
}

impl PciDevice {
    /// The header at which the device was found.
    pub closed spec fn spec_header(&self) -> PCIHeader {
        self.header
    }

    /// The place of the device on the bus.
    pub open spec fn spec_address(&self) -> PCIAddress {
        self.spec_header().spec_address()
    }

    /// Whether the device's address is a valid one.
    pub open spec fn wf(&self) -> bool {
        self.spec_header().wf()
    }

    /// Whether a read of the device's register at `offset` may answer
    /// `value`.
    pub open spec fn reads<P: PciInterface>(&self, io: &P, offset: u32, value: u32) -> bool {
        io.answers(self.spec_address().register(offset), value)
    }

    /// The device at function `function` of device `device` on bus `bus`,
    /// if one answers there: there is a device if and only if the id
    /// register of the function, read once, shows one.
    pub fn new<P: PciInterface>(io: &P, bus: u8, device: u8, function: u8) -> (r: Option<PciDevice>)
        requires
            device <= 31,
            function <= 7,
        ensures
            r matches Some(d) ==> d.wf() && d.spec_address().spec_bus() == bus
                && d.spec_address().spec_dev() == device && d.spec_address().spec_fun() == function,
            r is Some ==> answers_present(io, bus, device, function),
            r is None ==> answers_absent(io, bus, device, function),
    {
        let header = PCIHeader::new(io, bus, device, function);
        if let Some(header) = header {
            Some(PciDevice { header })
        } else {
            None
        }
    }

    /// The place of the device on the bus.
    pub fn address(&self) -> (a: PCIAddress)
        ensures
            a == self.spec_address(),
    {
        self.header.address()
    }

    /// The layout of the device's header, decoded from the register at
    /// offset `0x0c`, which is read once.
    pub fn device_type<P: PciInterface>(&self, io: &P) -> (t: PciDeviceType)
        requires
            self.wf(),
        ensures
            exists|header: u32| #[trigger]
                self.reads(io, 0x0c, header) && t == spec_device_type(header),
    {
        let header: u32 = self.header.address().read(io, 0x0c);
        assert(self.reads(io, 0x0c, header));
        device_type_of(header)
    }

    /// The id of the device's vendor: the lower half of the register at
    /// offset `0x00`, which is read once.
    pub fn vendor_id<P: PciInterface>(&self, io: &P) -> (id: VendorId)
        requires
            self.wf(),
        ensures
            exists|register: u32| #[trigger]
                self.reads(io, 0x00, register) && id == spec_low_half(register),
    {
        let register: u32 = self.header.address().read(io, 0x00);
        assert(self.reads(io, 0x00, register));
        low_half(register)
    }

    /// The id that the vendor gave the device: the lower half of what a
    /// read at offset `0x02` answers.
    pub fn device_id<P: PciInterface>(&self, io: &P) -> (id: DeviceId)
        requires
            self.wf(),
        ensures
            exists|register: u32| #[trigger]
                self.reads(io, 0x02, register) && id == spec_low_half(register),
    {
        let register: u32 = self.header.address().read(io, 0x02);
        assert(self.reads(io, 0x02, register));
        low_half(register)
    }

    /// Whether the device may act as bus master: bit 2 of the command
    /// register at offset `0x04`, which is read once.
    pub fn is_bus_master<P: PciInterface>(&self, io: &P) -> (b: bool)
        requires
            self.wf(),
        ensures
            exists|command: u32| #[trigger]
                self.reads(io, 0x04, command) && b == bit_of(command, 2),
    {
        let command: u32 = self.header.address().read(io, 0x04);
        assert(self.reads(io, 0x04, command));
        get_bit(command, 2)
    }

    /// Lets the device act as bus master: reads the command register at
    /// offset `0x04` and writes it back with bit 2 set and the other bits
    /// as they were read. Nothing else is written.
    pub fn enable_bus_mastering<P: PciInterface>(&mut self, io: &mut P)
        requires
            old(self).wf(),
        ensures
            *final(self) == *old(self),
            exists|command: u32| #[trigger]
                old(self).reads(old(io), 0x04, command) && old(io).leads_to(
                    old(self).spec_address().register(0x04),
                    with_bit(command, 2, true),
                    final(io),
                ),
    {
        let command: u32 = self.header.address().read(io, 0x04);
        assert(self.reads(old(io), 0x04, command));
        let enabled: u32 = set_bit(command, 2, true);
        self.header.address().write(io, 0x04, enabled);
    }

    /// The region that the base address register `index` describes. The
    /// size of the region is found by writing all bits to the register and
    /// reading it back; the register then gets its value back. There is no
    /// answer for a register that the header does not have, for a region in
    /// I/O space, for a register that lets no address bit be set and for a
    /// placement that is not in use. What is read and written, in which
    /// order, and how the answer comes from what was read, is what
    /// `probes_bar` says.
    pub fn bar<P: PciInterface>(&mut self, io: &mut P, index: u8) -> (r: Option<Bar>)
        requires
            old(self).wf(),
        ensures
            *final(self) == *old(self),
            probes_bar(old(io), old(self).spec_address(), index, r, final(io)),
            r matches Some(bar) ==> index < 6 && bar.region_type == BarType::Mem && bar.size > 0
                && bar.size % 16 == 0 && bar.address % 16 == 0,
    {
        let addr: PCIAddress = self.header.address();
        let ghost start = *io;
        let header: u32 = addr.read(io, 0x0c);
        let count: u8 = bar_count(device_type_of(header));
        if index >= count {
            return None;
        }
        let offset: u32 = 0x10 + (index as u32) * 4;
        let ghost register = addr.register(offset);
        let ghost next_register = addr.register((offset + 4) as u32);
        let base: u32 = addr.read(io, offset);
        let kind: BarKind = bar_kind(base);
        if kind == BarKind::Io {
            assert(probes_register(&start, register, next_register, None, &start));
            return None;
        }
        addr.write(io, offset, u32::MAX);
        let ghost probing = *io;
        let size_encoded: u32 = addr.read(io, offset);
        addr.write(io, offset, base);
        let ghost restored = *io;
        assert(sizes(&start, register, base, size_encoded, &restored)) by {
            assert(start.leads_to(register, u32::MAX, &probing));
        }
        if size_encoded == 0 {
            assert(decodes_sized(&restored, next_register, base, size_encoded, None, &restored));
            assert(probes_register(&start, register, next_register, None, &restored));
            return None;
        }
        let r: Option<Bar> = match kind {
            BarKind::Mem32 => mem_bar_32(base, size_encoded),
            BarKind::Mem64 => {
                let next_offset: u32 = offset + 4;
                let next_bar: u32 = addr.read(io, next_offset);
                addr.write(io, next_offset, u32::MAX);
                let ghost probing_upper = *io;
                let msb_size_encoded: u32 = addr.read(io, next_offset);
                addr.write(io, next_offset, next_bar);
                let ghost last = *io;
                let r = mem_bar_64(base, next_bar, size_encoded, msb_size_encoded);
                assert(sizes(&restored, next_register, next_bar, msb_size_encoded, &last)) by {
                    assert(restored.leads_to(next_register, u32::MAX, &probing_upper));
                }
                assert(probes_upper_register(
                    &restored,
                    next_register,
                    base,
                    size_encoded,
                    r,
                    &last,
                ));
                r
            },
            _ => None,
        };
        assert(decodes_sized(&restored, next_register, base, size_encoded, r, &*io));
        assert(probes_register(&start, register, next_register, r, &*io));
        r
    }

    /// Revision, base class, subclass and programming interface of the
    /// device, split from the register at offset `0x08`, which is read
    /// once.
    pub fn revision_and_class<P: PciInterface>(&self, io: &P) -> (r: (
        DeviceRevision,
        BaseClass,
        SubClass,
        Interface,
    ))
        requires
            self.wf(),
        ensures
            exists|field: u32| #[trigger]
                self.reads(io, 0x08, field) && r == spec_revision_and_class(field),
    {
        let field: u32 = self.header.address().read(io, 0x08);
        assert(self.reads(io, 0x08, field));
        revision_and_class_of(field)
    }

    /// What the device is for: the class that the base class and the
    /// subclass in the register at offset `0x08` name.
    pub fn device_class<P: PciInterface>(&self, io: &P) -> (c: ClassCode)
        requires
            self.wf(),
        ensures
            exists|field: u32| #[trigger]
                self.reads(io, 0x08, field) && c == spec_class_code(
                    spec_revision_and_class(field).1,
                    spec_revision_and_class(field).2,
                ),
    {
        let (_revision, base_class, sub_class, _interface) = self.revision_and_class(io);
        class_code_of(base_class, sub_class)
    }

    /// The names of the device and its vendor, where the table of devices
    /// has them: the entry for the key made of the vendor id and the
    /// device id, each read once.
    pub fn info<P: PciInterface>(&self, io: &P) -> (r: Option<device_db::PciDeviceInfo>)
        requires
            self.wf(),
        ensures
            exists|vendor: u32, device: u32| #[trigger]
                self.reads(io, 0x00, vendor) && #[trigger] self.reads(io, 0x02, device) && r
                    == device_db::spec_get(
                    device_db::spec_make_key(spec_low_half(vendor), spec_low_half(device)),
                ),
            r matches Some(info) ==> device_db::known_devices().contains(info),
    {
        let key: u32 = device_db::make_key(self.vendor_id(io), self.device_id(io));
        device_db::get(&key)
    }
}

/// A walk over the functions of the bus that stops at each device it
/// finds. It remembers the bus and the device at which it stopped last and
/// the function after the one it found there. From there it goes on: over
/// the buses from the remembered one, on each bus over the devices from the
/// remembered one, and in each device over the functions from the
/// remembered one.
#[derive(Debug)]
pub struct PciDeviceIterator {
    bus: u8,
    device: u8,
    function: u8,
}

impl PciDeviceIterator {
    /// The bus at which the walk goes on.
    pub closed spec fn spec_bus(&self) -> u8 {
        self.bus
    }

    /// The lowest device number that the walk still looks at.
    pub closed spec fn spec_device(&self) -> u8 {
        self.device
    }

    /// The lowest function number that the walk still looks at.
    pub closed spec fn spec_function(&self) -> u8 {
        self.function
    }

    /// Whether the remembered numbers are such as the walk leaves them.
    pub open spec fn wf(&self) -> bool {
        self.spec_device() <= 31 && self.spec_function() <= 8
    }

    /// Whether the walk, as it stands, still looks at the function `fun` of
    /// device `dev` on bus `bus`.
    pub open spec fn covers(&self, bus: u8, dev: u8, fun: u8) -> bool {
        &&& self.spec_bus() <= bus
        &&& self.spec_device() <= dev <= 31
        &&& self.spec_function() <= fun <= 7
    }

    /// Goes on to the next device: the first function that the walk still
    /// looks at whose id register, read once, shows a device. The functions
    /// are looked at bus by bus, on a bus device by device, in a device
    /// function by function, and every function that comes before the one
    /// that is handed out has answered as an empty slot. The walk then
    /// stands behind the device it found. A walk that hands out nothing
    /// has found every function it still looked at empty, and stays where
    /// it was.
    pub fn next<P: PciInterface>(&mut self, io: &P) -> (r: Option<PciDevice>)
        requires
            old(self).wf(),
        ensures
            final(self).wf(),
            r matches Some(d) ==> d.wf() && old(self).covers(
                d.spec_address().spec_bus(),
                d.spec_address().spec_dev(),
                d.spec_address().spec_fun(),
            ) && answers_present(
                io,
                d.spec_address().spec_bus(),
                d.spec_address().spec_dev(),
                d.spec_address().spec_fun(),
            ) && final(self).spec_bus() == d.spec_address().spec_bus() && final(self).spec_device()
                == d.spec_address().spec_dev() && final(self).spec_function()
                == d.spec_address().spec_fun() + 1,
            r matches Some(d) ==> forall|bus: u8, dev: u8, fun: u8|
                old(self).covers(bus, dev, fun) && comes_before(
                    bus,
                    dev,
                    fun,
                    d.spec_address().spec_bus(),
                    d.spec_address().spec_dev(),
                    d.spec_address().spec_fun(),
                ) ==> #[trigger] answers_absent(io, bus, dev, fun),
            r is None ==> *final(self) == *old(self),
            r is None ==> forall|bus: u8, dev: u8, fun: u8|
                old(self).covers(bus, dev, fun) ==> #[trigger] answers_absent(io, bus, dev, fun),
    {
        let first_device: u8 = self.device;
        let first_function: u8 = self.function;
        let mut bus: u16 = self.bus as u16;
        while bus <= 255
            invariant
                *self == *old(self),
                self.wf(),
                first_device == self.device,
                first_function == self.function,
                self.bus <= bus <= 256,
                forall|b: u8, d: u8, f: u8|
                    old(self).covers(b, d, f) && b < bus ==> #[trigger] answers_absent(io, b, d, f),
            decreases 256 - bus,
        {
            let mut device: u8 = first_device;
            while device <= 31
                invariant
                    *self == *old(self),
                    self.wf(),
                    first_device == self.device,
                    first_function == self.function,
                    self.bus <= bus <= 255,
                    first_device <= device <= 32,
                    forall|b: u8, d: u8, f: u8|
                        old(self).covers(b, d, f) && (b < bus || (b == bus && d < device))
                            ==> #[trigger] answers_absent(io, b, d, f),
                decreases 32 - device,
            {
                let mut function: u8 = first_function;
                while function <= 7
                    invariant
                        *self == *old(self),
                        self.wf(),
                        first_device == self.device,
                        first_function == self.function,
                        self.bus <= bus <= 255,
                        first_device <= device <= 31,
                        first_function <= function <= 8,
                        forall|b: u8, d: u8, f: u8|
                            old(self).covers(b, d, f) && (b < bus || (b == bus && (d < device || (d
                                == device && f < function)))) ==> #[trigger] answers_absent(
                                io,
                                b,
                                d,
                                f,
                            ),
                    decreases 8 - function,
                {
                    if let Some(pci_device) = PciDevice::new(io, bus as u8, device, function) {
                        self.bus = bus as u8;
                        self.device = device;
                        self.function = function + 1;
                        return Some(pci_device);
                    }
                    function += 1;
                }
                device += 1;
            }
            bus += 1;
        }
        None
    }
}

/// Whether the walk over the bus looks at the function `f1` of device `d1`
/// on bus `b1` before it looks at the function `f2` of device `d2` on bus
/// `b2`.
pub open spec fn comes_before(b1: u8, d1: u8, f1: u8, b2: u8, d2: u8, f2: u8) -> bool {
    b1 < b2 || (b1 == b2 && (d1 < d2 || (d1 == d2 && f1 < f2)))
}

/// Starts a walk over all functions of all devices on all buses.
pub fn scan_bus() -> (it: PciDeviceIterator)
    ensures
        it.wf(),
        it.spec_bus() == 0,
        it.spec_device() == 0,
        it.spec_function() == 0,
        forall|bus: u8, dev: u8, fun: u8| dev <= 31 && fun <= 7 ==> it.covers(bus, dev, fun),
{
    PciDeviceIterator { bus: 0x0, device: 0x0, function: 0x0 }
}

} // verus!
