//! Device discovery and device-level helpers.

pub mod acpi;
pub mod net;
pub mod pci;
pub mod pit;

use self::pci::ConfigurationSpaceMechanism;
use vstd::prelude::*;

verus! {

/// What the AML interpreter can fail with, as far as the kernel tells its
/// failures apart.
#[derive(Debug, Clone, PartialEq, Eq)]
pub enum AmlFailure {
    /// No object of this name exists.
    ValueDoesNotExist(String),
    /// Any other failure, with its description.
    Other(String),
}

/// What reading an ACPI table can fail with, by its description.
#[derive(Debug, Clone, PartialEq, Eq)]
pub struct AcpiFailure {
    pub description: String,
}

/// From which subsystem a device error comes.
#[derive(Debug, Clone, PartialEq, Eq)]
pub enum DeviceErrorKind {
    Acpi(AcpiFailure),
    Aml(AmlFailure),
}

/// A failure of a device, together with the place where it happened.
#[derive(Debug, Clone, PartialEq, Eq)]
pub struct DeviceError {
    pub kind: DeviceErrorKind,
    pub region: &'static str,
}

/// The place of an error that has not been given one.
pub open spec fn unknown_region() -> &'static str {
    "(unknown)"
}

impl DeviceError {
    /// The same failure, at the place `region`.
    pub fn with_region(self, region: &'static str) -> (error: Self)
        ensures
            error.kind == self.kind,
            error.region == region,
    {
        Self { region, kind: self.kind }
    }

    /// A failure of reading the ACPI tables, at an unknown place.
    pub fn acpi(error: AcpiFailure) -> (wrapped: Self)
        ensures
            wrapped.kind == DeviceErrorKind::Acpi(error),
            wrapped.region == unknown_region(),
    {
        DeviceError { kind: DeviceErrorKind::Acpi(error), region: "(unknown)" }
    }

    /// A failure of the AML interpreter, at an unknown place.
    pub fn aml(error: AmlFailure) -> (wrapped: Self)
        ensures
            wrapped.kind == DeviceErrorKind::Aml(error),
            wrapped.region == unknown_region(),
    {
        DeviceError { kind: DeviceErrorKind::Aml(error), region: "(unknown)" }
    }
}

/// A device on the PCI bus that the kernel can bring up.
pub trait GenericDevice {
    fn initialize<M: ConfigurationSpaceMechanism>(&mut self, pci: &mut M) -> Result<
        (),
        DeviceError,
    >;
}

} // verus!
