//! Shutting the machine down: through the shutdown port of a known emulator,
//! or through the ACPI soft-off sequence.

use crate::device::acpi::{AddressSpace, Fadt, GenericAddress};
use crate::device::{AcpiFailure, AmlFailure};
use crate::platform::{word_write, PortWrite};
use raw_cpuid::CpuId;
use vstd::prelude::*;

verus! {

/// The sleep-enable bit of a PM1 control register.
pub const ACPI_SLP_EN: u16 = 1 << 13;

/// Position of the sleep type in a PM1 control register.
pub const ACPI_SLP_TYP_SHIFT: u16 = 10;

/// The emulators that the kernel can tell from real hardware.
#[derive(Debug, Clone, Copy, PartialEq, Eq, Structural)]
pub enum HypervisorKind {
    Bochs,
    QemuOld,
    QemuNew,
    VMWare,
    VirtualBox,
}

/// The emulator that a processor brand string gives away.
pub open spec fn hypervisor_of(brand: Seq<char>) -> Option<HypervisorKind> {
    if brand == "TCGTCGTCGTCG"@ {
        Some(HypervisorKind::QemuOld)
    } else if brand == "QEMU Virtual CPU version 2.5+"@ {
        Some(HypervisorKind::QemuNew)
    } else if brand == "VMwareVMware"@ {
        Some(HypervisorKind::VMWare)
    } else if brand == "VBoxVBoxVBox"@ {
        Some(HypervisorKind::VMWare)
    } else {
        None
    }
}

/// The write to its shutdown port that switches an emulator off, for those
/// emulators that have one.
pub open spec fn shutdown_port_write(hypervisor: Option<HypervisorKind>) -> Option<PortWrite> {
    match hypervisor {
        Some(HypervisorKind::Bochs) => Some(word_write(0xB004, 0x2000)),
        Some(HypervisorKind::QemuOld) => Some(word_write(0x604, 0x2000)),
        Some(HypervisorKind::VirtualBox) => Some(word_write(0x4004, 0x3400)),
        _ => None,
    }
}

/// How a shutdown is to be carried out.
#[derive(Debug, Clone, Copy, PartialEq, Eq, Structural)]
pub enum ShutdownRequest {
    /// By this write to the shutdown port of the emulator.
    Port(PortWrite),
    /// By the ACPI soft-off sequence.
    Acpi,
}

/// `CpuId::get_processor_brand_string` on the processor that runs the code,
/// and `ProcessorBrandString::as_str` on what it returns. Nothing is known
/// of the string: it is whatever the processor answers.
#[verifier::external_body]
fn processor_brand_string() -> (brand: Option<String>) {
    match CpuId::default().get_processor_brand_string() {
        Some(brand) => Some(String::from(brand.as_str())),
        None => None,
    }
}

pub struct System;

impl System {
    /// How to shut down under the given emulator: the three emulators with a
    /// shutdown port are switched off through it, everything else through
    /// ACPI.
    pub fn request_shutdown(hypervisor: Option<HypervisorKind>) -> (request: ShutdownRequest)
        ensures
            request == (match shutdown_port_write(hypervisor) {
                Some(write) => ShutdownRequest::Port(write),
                None => ShutdownRequest::Acpi,
            }),
    {
        match hypervisor {
            Some(HypervisorKind::Bochs) => ShutdownRequest::Port(PortWrite::word(0xB004, 0x2000u16)),
            Some(HypervisorKind::QemuOld) => ShutdownRequest::Port(
                PortWrite::word(0x604, 0x2000u16),
            ),
            Some(HypervisorKind::VirtualBox) => ShutdownRequest::Port(
                PortWrite::word(0x4004, 0x3400u16),
            ),
            _ => ShutdownRequest::Acpi,
        }
    }

    /// The emulator that the processor of this machine gives away by its
    /// brand string, if it has one and it is one of the known strings. The
    /// answer is one that `hypervisor_of` gives for some string.
    pub fn detect_hypervisor() -> (hypervisor: Option<HypervisorKind>)
        ensures
            hypervisor is Some ==> exists|brand: Seq<char>| hypervisor == hypervisor_of(brand),
    {
        match processor_brand_string() {
            Some(brand) => Self::hypervisor_from_brand(brand.as_str()),
            None => None,
        }
    }

    /// The emulator that a processor brand string gives away.
    pub fn hypervisor_from_brand(brand: &str) -> (hypervisor: Option<HypervisorKind>)
        ensures
            hypervisor == hypervisor_of(brand@),
    {
        let brand = brand.to_owned();
        if brand == "TCGTCGTCGTCG".to_owned() {
            Some(HypervisorKind::QemuOld)
        } else if brand == "QEMU Virtual CPU version 2.5+".to_owned() {
            Some(HypervisorKind::QemuNew)
        } else if brand == "VMwareVMware".to_owned() {
            Some(HypervisorKind::VMWare)
        } else if brand == "VBoxVBoxVBox".to_owned() {
            Some(HypervisorKind::VMWare)
        } else {
            None
        }
    }
}

/// An element of the package that the `\_S5_` object holds.
#[derive(Debug, Clone, Copy, PartialEq, Eq, Structural)]
pub enum AmlElement {
    Integer(u64),
    /// Anything that is no integer.
    Other,
}

/// What the namespace holds under a name, as far as the shutdown sequence
/// looks at it.
#[derive(Debug, Clone, PartialEq, Eq)]
pub enum AmlObject {
    Package(Vec<AmlElement>),
    /// Anything that is no package.
    Other,
}

/// Why the ACPI soft-off sequence failed.
#[derive(Debug, Clone, PartialEq, Eq)]
pub enum AcpiShutdownErrorKind {
    Acpi(AcpiFailure),
    Aml(AmlFailure),
    NoAml,
    NoFadt,
    PmControlAddressNotInIoPortRange(u64),
    PmControlBlockNotInSystemIoSpace(AddressSpace),
    S5PathNotPackage,
    S5ValueNotInteger,
    S5ValueOutsideWordSize(u64),
}

/// The value that puts the machine into a sleep state when it is written to
/// a PM1 control register: the sleep-enable bit, and the sleep type from bit
/// 10 on.
pub open spec fn sleep_command(sleep_type: u16) -> u16 {
    ACPI_SLP_EN | (sleep_type << ACPI_SLP_TYP_SHIFT)
}

/// What `perform_acpi_sleep` returns: the write of the sleep command to the
/// control block, or the first of these that applies: the sleep type is no
/// integer; it does not fit 16 bits; the control block is not an I/O port;
/// its address does not fit 16 bits.
pub open spec fn acpi_sleep(s5_value: Option<AmlElement>, control_block: GenericAddress) -> Result<
    PortWrite,
    AcpiShutdownErrorKind,
> {
    match s5_value {
        Some(AmlElement::Integer(sleep_type)) => {
            if sleep_type > u16::MAX {
                Err(AcpiShutdownErrorKind::S5ValueOutsideWordSize(sleep_type))
            } else if control_block.address_space != AddressSpace::SystemIo {
                Err(
                    AcpiShutdownErrorKind::PmControlBlockNotInSystemIoSpace(
                        control_block.address_space,
                    ),
                )
            } else if control_block.address > u16::MAX {
                Err(AcpiShutdownErrorKind::PmControlAddressNotInIoPortRange(control_block.address))
            } else {
                Ok(word_write(control_block.address as u16, sleep_command(sleep_type as u16)))
            }
        },
        _ => Err(AcpiShutdownErrorKind::S5ValueNotInteger),
    }
}

/// The port write that puts the machine to sleep through one control block.
/// `s5_value` is the element of the `\_S5_` package that belongs to the
/// block, if the package has it.
pub fn perform_acpi_sleep(s5_value: Option<&AmlElement>, control_block: GenericAddress) -> (write:
    Result<PortWrite, AcpiShutdownErrorKind>)
    ensures
        write == acpi_sleep(
            match s5_value {
                Some(element) => Some(*element),
                None => None,
            },
            control_block,
        ),
{
    let sleep_type: u64 = match s5_value {
        Some(AmlElement::Integer(sleep_type)) => *sleep_type,
        _ => {
            return Err(AcpiShutdownErrorKind::S5ValueNotInteger);
        },
    };

    if sleep_type > u16::MAX as u64 {
        return Err(AcpiShutdownErrorKind::S5ValueOutsideWordSize(sleep_type));
    }
    let sleep_type: u16 = sleep_type as u16;

    if control_block.address_space != AddressSpace::SystemIo {
        return Err(
            AcpiShutdownErrorKind::PmControlBlockNotInSystemIoSpace(control_block.address_space),
        );
    }
    if control_block.address > u16::MAX as u64 {
        return Err(AcpiShutdownErrorKind::PmControlAddressNotInIoPortRange(control_block.address));
    }
    Ok(
        PortWrite::word(
            control_block.address as u16,
            ACPI_SLP_EN | (sleep_type << ACPI_SLP_TYP_SHIFT),
        ),
    )
}

/// What the platform found when it was asked for the facts of the soft-off
/// state: whether an AML namespace exists, the FADT, and what the namespace
/// holds under `\_S5_`.
pub struct SleepFacts {
    pub aml_present: bool,
    pub fadt: Option<Fadt>,
    pub s5: Result<AmlObject, AmlFailure>,
}

/// What the soft-off sequence does: the port writes to make, in order, and
/// how it ended. Writes made before a failure stay made.
pub struct SleepPlan {
    pub writes: Vec<PortWrite>,
    pub result: Result<(), AcpiShutdownErrorKind>,
}

/// The element of a package at a position, if the package is that long.
pub open spec fn element_at(package: Seq<AmlElement>, index: int) -> Option<AmlElement> {
    if 0 <= index < package.len() {
        Some(package[index])
    } else {
        None
    }
}

/// The port writes of the soft-off sequence: that of the first control block
/// if it can be made, then that of the second if there is a second block and
/// both writes can be made.
pub open spec fn sleep_writes(facts: SleepFacts) -> Seq<PortWrite> {
    if !facts.aml_present || facts.fadt is None {
        Seq::empty()
    } else {
        match (facts.s5, facts.fadt->0.pm1a_control_block) {
            (Ok(AmlObject::Package(package)), Ok(pm1a)) => {
                match acpi_sleep(element_at(package@, 0), pm1a) {
                    Ok(first) => match facts.fadt->0.pm1b_control_block {
                        Ok(Some(block)) => match acpi_sleep(element_at(package@, 1), block) {
                            Ok(second) => seq![first, second],
                            Err(_) => seq![first],
                        },
                        _ => seq![first],
                    },
                    Err(_) => Seq::empty(),
                }
            },
            _ => Seq::empty(),
        }
    }
}

/// How the soft-off sequence ends: with the first of these failures that
/// applies, or well. No AML namespace; no FADT; `\_S5_` cannot be read; it is
/// no package; the first control block cannot be read from the FADT; the
/// write for it cannot be made; the second control block cannot be read;
/// there is a second control block and the write for it cannot be made.
pub open spec fn sleep_result(facts: SleepFacts) -> Result<(), AcpiShutdownErrorKind> {
    if !facts.aml_present {
        Err(AcpiShutdownErrorKind::NoAml)
    } else if facts.fadt is None {
        Err(AcpiShutdownErrorKind::NoFadt)
    } else {
        match facts.s5 {
            Err(failure) => Err(AcpiShutdownErrorKind::Aml(failure)),
            Ok(AmlObject::Other) => Err(AcpiShutdownErrorKind::S5PathNotPackage),
            Ok(AmlObject::Package(package)) => match facts.fadt->0.pm1a_control_block {
                Err(failure) => Err(AcpiShutdownErrorKind::Acpi(failure)),
                Ok(pm1a) => match acpi_sleep(element_at(package@, 0), pm1a) {
                    Err(error) => Err(error),
                    Ok(_) => match facts.fadt->0.pm1b_control_block {
                        Err(failure) => Err(AcpiShutdownErrorKind::Acpi(failure)),
                        Ok(Some(block)) => match acpi_sleep(element_at(package@, 1), block) {
                            Err(error) => Err(error),
                            Ok(_) => Ok(()),
                        },
                        Ok(None) => Ok(()),
                    },
                },
            },
        }
    }
}

/// The soft-off sequence proper: the sleep type of each control block is
/// taken from the `\_S5_` package, element 0 for the first block and element
/// 1 for the second, and written to the block with the sleep-enable bit.
pub fn do_shutdown_using_acpi(facts: SleepFacts) -> (plan: SleepPlan)
    ensures
        plan.writes@ == sleep_writes(facts),
        plan.result == sleep_result(facts),
{
    let mut writes: Vec<PortWrite> = Vec::new();
    if !facts.aml_present {
        return SleepPlan { writes, result: Err(AcpiShutdownErrorKind::NoAml) };
    }
    let fadt = match facts.fadt {
        Some(fadt) => fadt,
        None => {
            return SleepPlan { writes, result: Err(AcpiShutdownErrorKind::NoFadt) };
        },
    };
    let s5_pkg = match facts.s5 {
        Err(failure) => {
            return SleepPlan { writes, result: Err(AcpiShutdownErrorKind::Aml(failure)) };
        },
        Ok(AmlObject::Other) => {
            return SleepPlan { writes, result: Err(AcpiShutdownErrorKind::S5PathNotPackage) };
        },
        Ok(AmlObject::Package(package)) => package,
    };

    let pm1a_control_block = match fadt.pm1a_control_block {
        Ok(block) => block,
        Err(failure) => {
            return SleepPlan { writes, result: Err(AcpiShutdownErrorKind::Acpi(failure)) };
        },
    };
    let first = if s5_pkg.len() > 0 {
        Some(&s5_pkg[0])
    } else {
        None
    };
    match perform_acpi_sleep(first, pm1a_control_block) {
        Ok(write) => {
            writes.push(write);
        },
        Err(error) => {
            return SleepPlan { writes, result: Err(error) };
        },
    }

    let pm1b_control_block = match fadt.pm1b_control_block {
        Ok(block) => block,
        Err(failure) => {
            return SleepPlan { writes, result: Err(AcpiShutdownErrorKind::Acpi(failure)) };
        },
    };
    if let Some(pm1b_control_block) = pm1b_control_block {
        let second = if s5_pkg.len() > 1 {
            Some(&s5_pkg[1])
        } else {
            None
        };
        match perform_acpi_sleep(second, pm1b_control_block) {
            Ok(write) => {
                writes.push(write);
            },
            Err(error) => {
                return SleepPlan { writes, result: Err(error) };
            },
        }
    }
    assert(writes@ =~= sleep_writes(facts));
    SleepPlan { writes, result: Ok(()) }
}

/// What the answer of the platform to `\_PTS` means for the sequence: that
/// the method does not exist is no failure, since some platforms lack it;
/// any other failure ends the sequence. Without an AML namespace the method
/// is not invoked and nothing has failed.
pub open spec fn prepared(aml_present: bool, answer: Result<(), AmlFailure>) -> Result<
    (),
    AcpiShutdownErrorKind,
> {
    if !aml_present {
        Ok(())
    } else {
        match answer {
            Ok(()) => Ok(()),
            Err(AmlFailure::ValueDoesNotExist(name)) => if name@ == "\\_PTS"@ {
                Ok(())
            } else {
                Err(AcpiShutdownErrorKind::Aml(AmlFailure::ValueDoesNotExist(name)))
            },
            Err(failure) => Err(AcpiShutdownErrorKind::Aml(failure)),
        }
    }
}

/// Judges the answer of the platform to the invocation of `\_PTS` with the
/// soft-off state.
pub fn before_acpi_shutdown(aml_present: bool, answer: Result<(), AmlFailure>) -> (result: Result<
    (),
    AcpiShutdownErrorKind,
>)
    ensures
        result == prepared(aml_present, answer),
{
    if aml_present {
        match answer {
            Err(AmlFailure::ValueDoesNotExist(name)) => {
                // _PTS might not be present on some hardware
                if name != "\\_PTS".to_owned() {
                    return Err(AcpiShutdownErrorKind::Aml(AmlFailure::ValueDoesNotExist(name)));
                }
            },
            Err(e) => {
                return Err(AcpiShutdownErrorKind::Aml(e));
            },
            _ => (),
        }
    }
    Ok(())
}

/// What is left to do when the soft-off sequence has come to its end.
pub struct ShutdownOutcome {
    /// The port writes to make, in order.
    pub writes: Vec<PortWrite>,
    /// Whether `\_WAK` is to be invoked with the soft-off state, to tell the
    /// platform that the transition was given up.
    pub wake: bool,
    pub result: Result<(), AcpiShutdownErrorKind>,
}

/// The whole soft-off sequence after `\_PTS` was invoked: if that failed, or
/// if the sequence proper fails, the platform is told to wake, and the
/// failure is returned. A sequence that ends well and still returns has not
/// put the machine to sleep.
pub fn shutdown_using_acpi(
    aml_present: bool,
    prepare_answer: Result<(), AmlFailure>,
    facts: SleepFacts,
) -> (outcome: ShutdownOutcome)
    ensures
        match prepared(aml_present, prepare_answer) {
            Err(error) => {
                &&& outcome.writes@ == Seq::<PortWrite>::empty()
                &&& outcome.wake
                &&& outcome.result == Err::<(), AcpiShutdownErrorKind>(error)
            },
            Ok(()) => {
                &&& outcome.writes@ == sleep_writes(facts)
                &&& outcome.wake == (sleep_result(facts) is Err)
                &&& outcome.result == sleep_result(facts)
            },
        },
{
    if let Err(err) = before_acpi_shutdown(aml_present, prepare_answer) {
        return ShutdownOutcome { writes: Vec::new(), wake: true, result: Err(err) };
    }
    let plan = do_shutdown_using_acpi(facts);
    let wake = plan.result.is_err();
    ShutdownOutcome { writes: plan.writes, wake, result: plan.result }
}

} // verus!
