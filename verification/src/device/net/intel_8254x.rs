//! The Intel 8254x family of Ethernet controllers.

use super::NetworkDevice;
use crate::device::pci::types::{header_bar_count, header_type_of};
use crate::device::pci::{ConfigurationSpaceMechanism, PciAddress};
use crate::device::{DeviceError, GenericDevice};
use vstd::prelude::*;

verus! {

/// One controller of the family. It is found and made a bus master, and not
/// driven any further.
pub struct Intel8254xDevice {
    pci_addr: PciAddress,
    bar0: Option<u32>,
}

impl Intel8254xDevice {
    /// Where the controller sits on the bus.
    pub closed spec fn address(&self) -> PciAddress {
        self.pci_addr
    }

    /// The first base address register, as read when the controller was
    /// brought up, if the controller has one.
    pub closed spec fn register_base(&self) -> Option<u32> {
        self.bar0
    }

    /// The controller at `pci_addr`, not yet brought up.
    pub fn new(pci_addr: PciAddress) -> (device: Self)
        ensures
            device.address() == pci_addr,
            device.register_base() is None,
    {
        Self { pci_addr, bar0: None }
    }

    /// The first base address register, as read when the controller was
    /// brought up.
    pub fn bar0(&self) -> (bar: Option<u32>)
        ensures
            bar == self.register_base(),
    {
        self.bar0
    }
}

impl GenericDevice for Intel8254xDevice {
    /// Makes the controller a bus master, then reads its first base address
    /// register. This does not fail.
    fn initialize<M: ConfigurationSpaceMechanism>(&mut self, pci: &mut M) -> (result: Result<
        (),
        DeviceError,
    >)
        ensures
            result is Ok,
            final(self).address() == old(self).address(),
            old(pci).written(
                final(pci),
                old(self).address(),
                0x4,
                old(pci).word_at(old(self).address(), 0x4) | 0x4,
            ),
            final(self).register_base() == (if 0 < header_bar_count(
                header_type_of(final(pci).word_at(old(self).address(), 0xE) as u8),
            ) {
                Some(final(pci).dword_at(old(self).address(), 0x10))
            } else {
                None
            }),
    {
        pci.enable_bus_mastering(self.pci_addr);

        self.bar0 = pci.base_address(self.pci_addr, 0);

        Ok(())
    }
}

impl NetworkDevice for Intel8254xDevice {

}

} // verus!
