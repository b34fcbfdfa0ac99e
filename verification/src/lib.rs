//! Building blocks for device drivers that move data by DMA: buffers, buffer
//! pools, scatter/gather chains and the queue interface that carries chains
//! to and from a hardware ring, with the life cycle of a driver and the
//! helpers for registers and PCI configuration space around them.

use vstd::prelude::*;

pub mod bitops;
pub mod devq;
pub mod iomem;
pub mod linux;
pub mod loopback;
pub mod mem;
pub mod net;
pub mod pci;
pub mod timedops;

verus! {

/// Where a driver stands in its life.
#[derive(Debug, Clone, Copy, PartialEq, Eq, Structural)]
pub enum DriverState {
    /// Nothing was done yet.
    Uninitialized,
    /// The device was initialized.
    Initialized,
    /// The driver owns the device; the number is the sleep level.
    Attached(usize),
    /// The driver has given the device up.
    Detached,
    /// The driver is gone for good.
    Destroyed,
}

impl DriverState {
    /// Whether the driver owns the device, at whatever sleep level.
    pub open spec fn is_attached(self) -> bool {
        self is Attached
    }

    /// Whether a driver in this state may attach to its device: it was
    /// initialized and has not been destroyed.
    pub open spec fn may_attach(self) -> bool {
        self == DriverState::Initialized || self == DriverState::Detached || self is Attached
    }

    /// Tells whether the driver owns the device.
    #[verifier::when_used_as_spec(is_attached)]
    pub fn attached(self) -> (b: bool)
        ensures
            b == self.is_attached(),
    {
        match self {
            DriverState::Attached(_) => true,
            _ => false,
        }
    }

    /// Tells whether a driver in this state may attach to its device.
    #[verifier::when_used_as_spec(may_attach)]
    pub fn can_attach(self) -> (b: bool)
        ensures
            b == self.may_attach(),
    {
        match self {
            DriverState::Initialized | DriverState::Detached | DriverState::Attached(_) => true,
            _ => false,
        }
    }
}

/// The life cycle of a driver. An implementation keeps the state and says
/// how to read and to write it; the steps of the life cycle are the same
/// for all drivers. Each step may be taken from certain states only.
pub trait DriverControl: Sized {
    /// The state that the driver is in.
    spec fn spec_state(&self) -> DriverState;

    /// The state that the driver is in.
    fn state(&self) -> (ds: DriverState)
        ensures
            ds == self.spec_state(),
    ;

    /// Puts the driver in the state `ds`.
    fn set_state(&mut self, ds: DriverState)
        ensures
            final(self).spec_state() == ds,
    ;

    /// Initializes the device, which nothing may have touched before.
    fn init(&mut self)
        requires
            old(self).spec_state() == DriverState::Uninitialized,
        ensures
            final(self).spec_state() == DriverState::Initialized,
    {
        self.set_state(DriverState::Initialized);
    }

    /// Attaches the driver to the device and so claims it, awake. The
    /// driver must be initialized, detached or attached already.
    fn attach(&mut self)
        requires
            old(self).spec_state().may_attach(),
        ensures
            final(self).spec_state() == DriverState::Attached(0),
    {
        self.set_state(DriverState::Attached(0));
    }

    /// Detaches the driver from the device that it is attached to.
    fn detach(&mut self)
        requires
            old(self).spec_state().is_attached(),
        ensures
            final(self).spec_state() == DriverState::Detached,
    {
        self.set_state(DriverState::Detached);
    }

    /// Sets the sleep level of the device that the driver is attached to.
    fn set_sleep_level(&mut self, level: usize)
        requires
            old(self).spec_state().is_attached(),
        ensures
            final(self).spec_state() == DriverState::Attached(level),
    {
        self.set_state(DriverState::Attached(level));
    }

    /// Ends the life of a driver that is attached to its device.
    fn destroy(self)
        requires
            self.spec_state().is_attached(),
    {
        let mut driver = self;
        driver.set_state(DriverState::Destroyed);
    }
}

/// The I/O port through which an address in PCI configuration space is
/// chosen.
pub const PCI_CONF_ADDR: u16 = 0xcf8;

/// The I/O port through which the register at the chosen address is read
/// and written.
pub const PCI_CONF_DATA: u16 = 0xcfc;

/// Access to PCI configuration space. A platform implements it once, with
/// port I/O or with whatever its kernel offers; all else reaches the
/// registers through it. What a register holds is the device's business:
/// an implementation says for itself which values a register may answer and
/// what a write may leave behind, and all that is asked of `read` and
/// `write` is that they keep to that.
pub trait PciInterface {
    /// Whether a read of the register at `addr` may answer `value`.
    spec fn answers(&self, addr: u32, value: u32) -> bool;

    /// Whether a write of `value` to the register at `addr` may leave the
    /// configuration space as `after` shows it.
    spec fn leads_to(&self, addr: u32, value: u32, after: &Self) -> bool;

    /// Reads the register at `addr`.
    fn read(&self, addr: u32) -> (value: u32)
        ensures
            self.answers(addr, value),
    ;

    /// Writes `value` to the register at `addr`.
    fn write(&mut self, addr: u32, value: u32)
        ensures
            old(self).leads_to(addr, value, final(self)),
    ;
}

} // verus!
