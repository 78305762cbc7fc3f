//! # Non-volatile Memory Controller
//!
//! NVMCTRL is an intermediary between memory buses and physical non-volatile
//! memory. It provides means of managing a flash memory content, its
//! properties (bootloader blocks protection), power management and address
//! remapping if necessary (in case bank mechanism is used).
//!
//! NVM supports splitting flash into two sections called banks. Bank
//! considered active is mapped to _virtual_ address `0x0`, meaning it contains
//! currently executed application. Through NVM command & control interface,
//! banks can be swapped and MCU reset, so the firmware from the other bank
//! will run after restart.
//!
//! [`Nvm`] decides. A request is checked against the guard first; what passes
//! comes back as an [`Operation`], and a request that is refused leaves nothing
//! to perform, so that no register is touched for it.
use vstd::prelude::*;
use core::ops::Range;
use crate::error::Error;
use crate::geometry::{flash_size, retrieve_flash_size, Parameters, PhysicalBank};
use crate::guard::{boot_protected, range_overlap, span};
use crate::operation::{Operation, Progress};
use crate::regions::{
    little_endian, read_little_endian, CalibrationArea, TemperaturesCalibrationArea, Userpage,
};
use crate::registers::{PowerReductionMode, Status};
use crate::script::{
    bank_swap_script, boot_protection_script, erase_script, power_reduction_script, write_script,
    EraseGranularity,
};

verus! {

/// Whether a range runs into the flash set aside for the SmartEEPROM. The
/// controller alone sets nothing aside.
pub open spec fn smart_eeprom_area(range: Range<u32>) -> bool {
    false
}

/// Why a write is refused, if it is: an address that is no multiple of 4
/// comes first, then a destination that runs into the boot protection, then
/// one that runs into the SmartEEPROM.
pub open spec fn write_refusal(
    status: Status,
    destination_address: u32,
    source_address: u32,
    words: u32,
) -> Option<Error> {
    let write_addresses = span(destination_address as int, destination_address + 4 * words);
    if source_address % 4 != 0 || destination_address % 4 != 0 {
        Some(Error::Alignment)
    } else if boot_protected(status, write_addresses) {
        Some(Error::Protected)
    } else if smart_eeprom_area(write_addresses) {
        Some(Error::SmartEepromArea)
    } else {
        None
    }
}

/// The boundary of a unit of `granularity` at or below `address`.
pub open spec fn unit_base(address: u32, granularity: EraseGranularity) -> int {
    address - address % granularity.unit()
}

/// The range that an erase covers: `length` whole units, from the boundary at
/// or below `address` on.
pub open spec fn erase_range(address: u32, length: u32, granularity: EraseGranularity) -> Range<
    u32,
> {
    span(
        unit_base(address, granularity),
        unit_base(address, granularity) + length * granularity.unit(),
    )
}

/// Why an erase is refused, if it is.
pub open spec fn erase_refusal(
    status: Status,
    address: u32,
    length: u32,
    granularity: EraseGranularity,
) -> Option<Error> {
    let range_to_erase = erase_range(address, length, granularity);
    if boot_protected(status, range_to_erase) {
        Some(Error::Protected)
    } else if smart_eeprom_area(range_to_erase) {
        Some(Error::SmartEepromArea)
    } else {
        None
    }
}

/// An erase sees of its address only the unit that holds it: both the guard
/// and the steps are those of an erase from the boundary of that unit.
pub proof fn lemma_erase_rounds_down(
    status: Status,
    address: u32,
    length: u32,
    granularity: EraseGranularity,
)
    ensures
        0 <= unit_base(address, granularity) <= address,
        unit_base(address, granularity) % (granularity.unit() as int) == 0,
        unit_base(unit_base(address, granularity) as u32, granularity) == unit_base(
            address,
            granularity,
        ),
        erase_refusal(status, unit_base(address, granularity) as u32, length, granularity)
            == erase_refusal(status, address, length, granularity),
{
    match granularity {
        EraseGranularity::Block => {
            assert(address % 8192 <= address);
        },
        EraseGranularity::Page => {
            assert(address % 512 <= address);
        },
    }
}

/// Non-volatile memory controller
#[derive(Debug)]
pub struct Nvm {
    /// Total size of the flash, computed once.
    flash_size: u32,
}

impl Nvm {
    #[verifier::type_invariant]
    spec fn inv(self) -> bool {
        self.flash_size > 0
    }

    /// Total size of the flash that the controller was made for.
    pub closed spec fn total_size(&self) -> nat {
        self.flash_size as nat
    }

    /// Create a new NVM controller from the fields of its parameter register
    pub fn new(parameters: &Parameters) -> (nvm: Nvm)
        requires
            parameters.supported(),
        ensures
            nvm.total_size() == flash_size(*parameters),
    {
        Nvm { flash_size: retrieve_flash_size(parameters) }
    }

    /// Total size of the flash in bytes. It was computed when the controller
    /// was created and never changes.
    pub fn flash_size(&self) -> (size: u32)
        ensures
            size == self.total_size(),
            size > 0,
    {
        proof {
            use_type_invariant(self);
        }
        self.flash_size
    }

    /// Size of one bank in bytes: half of the flash.
    pub fn bank_size(&self) -> (size: u32)
        ensures
            size == self.total_size() / 2,
    {
        self.flash_size / 2
    }

    /// Swap the flash banks. The processor will be reset, after which the
    /// inactive bank will become the active bank.
    ///
    /// The operation never completes: the reset happens atomically with the
    /// command, and an operation that comes past it ends in
    /// [`Action::Fatal`](crate::operation::Action::Fatal).
    ///
    /// Ensure there is a working, memory safe program in place in the inactive
    /// bank before performing it.
    pub fn bank_swap(&mut self) -> (operation: Operation)
        ensures
            *final(self) == *old(self),
            operation@ == Progress::begin(bank_swap_script()),
    {
        Operation::bank_swap()
    }

    /// Set the power reduction mode
    pub fn power_reduction_mode(&mut self, prm: PowerReductionMode) -> (operation: Operation)
        ensures
            *final(self) == *old(self),
            operation@ == Progress::begin(power_reduction_script(prm)),
    {
        Operation::power_reduction(prm)
    }

    /// Check if the flash is boot protected
    pub fn is_boot_protected(&self, status: &Status) -> (protected: bool)
        ensures
            protected == !status.boot_protection_disabled,
    {
        !status.boot_protection_disabled
    }

    /// Get first bank
    pub fn first_bank(&self, status: &Status) -> (bank: PhysicalBank)
        ensures
            bank == if status.bank_a_first {
                PhysicalBank::A
            } else {
                PhysicalBank::B
            },
    {
        if status.bank_a_first {
            PhysicalBank::A
        } else {
            PhysicalBank::B
        }
    }

    /// Determine if the controller is busy writing or erasing
    pub fn is_ready(&self, status: &Status) -> (ready: bool)
        ensures
            ready == status.ready,
    {
        status.ready
    }

    /// Read the user page from its sixteen bytes
    pub fn user_page(&self, bytes: &[u8; 16]) -> (page: Userpage)
        ensures
            page.0 == little_endian(bytes@),
    {
        Userpage(read_little_endian(bytes))
    }

    /// Read the calibration area from its eight bytes
    pub fn calibration_area(&self, bytes: &[u8; 8]) -> (area: CalibrationArea)
        ensures
            area.0 == little_endian(bytes@),
    {
        let buffer = read_little_endian(bytes);
        proof {
            vstd::arithmetic::power2::lemma2_to64();
        }
        CalibrationArea(buffer as u64)
    }

    /// Read the calibration area for temperatures from its sixteen bytes
    pub fn temperatures_calibration_area(&self, bytes: &[u8; 16]) -> (area:
        TemperaturesCalibrationArea)
        ensures
            area.0 == little_endian(bytes@),
    {
        TemperaturesCalibrationArea(read_little_endian(bytes))
    }

    /// Enable/disable boot protection on/off
    ///
    /// Userpage's NVM BOOT field defines a memory region that is supposed to be
    /// protected. The size field of the status register is read-only and
    /// populated on reset with a value from the user page.
    ///
    /// A request for the state that `status` already shows is refused.
    pub fn boot_protection(&mut self, status: &Status, protect: bool) -> (operation: Result<
        Operation,
        Error,
    >)
        ensures
            *final(self) == *old(self),
            protect == !status.boot_protection_disabled <==> operation is Err,
            match operation {
                Ok(operation) => operation@ == Progress::begin(boot_protection_script(protect)),
                Err(error) => error == Error::NoChangeBootProtection,
            },
    {
        // Check if requested state differs from current state
        if self.is_boot_protected(status) != protect {
            Ok(Operation::boot_protection(protect))
        } else {
            Err(Error::NoChangeBootProtection)
        }
    }

    /// Write to flash memory
    /// If an address is not word-aligned, an error is returned.
    pub fn write(
        &mut self,
        status: &Status,
        destination_address: u32,
        source_address: u32,
        words: u32,
    ) -> (operation: Result<Operation, Error>)
        requires
            status.valid(),
            destination_address + 4 * words <= u32::MAX,
            source_address + 4 * words <= u32::MAX,
        ensures
            *final(self) == *old(self),
            source_address % 4 != 0 || destination_address % 4 != 0 ==> operation matches Err(
                Error::Alignment,
            ),
            source_address % 4 == 0 && destination_address % 4 == 0 && boot_protected(
                *status,
                span(destination_address as int, destination_address + 4 * words),
            ) ==> operation matches Err(Error::Protected),
            match operation {
                Ok(operation) => {
                    &&& write_refusal(*status, destination_address, source_address, words) is None
                    &&& operation@ == Progress::begin(
                        write_script(
                            destination_address as int,
                            source_address as int,
                            words as nat,
                        ),
                    )
                },
                Err(error) => write_refusal(*status, destination_address, source_address, words)
                    == Some(error),
            },
    {
        // Length of memory step
        let step_size: u32 = 4;
        // Length of data in bytes
        let length = words * step_size;
        let write_addresses = destination_address..(destination_address + length);

        if source_address % step_size != 0 {
            return Err(Error::Alignment);
        }
        if destination_address % step_size != 0 {
            return Err(Error::Alignment);
        }
        if self.contains_bootprotected(status, &write_addresses) {
            Err(Error::Protected)
        } else if self.contains_smart_eeprom(&write_addresses) {
            Err(Error::SmartEepromArea)
        } else {
            Ok(Operation::write(destination_address, source_address, words))
        }
    }

    /// Erase flash memory.
    ///
    /// Unit of `length` depends on a chosen erasing granularity. An address
    /// inside a unit stands for the whole unit.
    pub fn erase(
        &mut self,
        status: &Status,
        address: u32,
        length: u32,
        granularity: EraseGranularity,
    ) -> (operation: Result<Operation, Error>)
        requires
            status.valid(),
            unit_base(address, granularity) + length * granularity.unit() <= u32::MAX,
        ensures
            *final(self) == *old(self),
            boot_protected(*status, erase_range(address, length, granularity)) <==> operation
                matches Err(Error::Protected),
            match operation {
                Ok(operation) => {
                    &&& erase_refusal(*status, address, length, granularity) is None
                    &&& operation@ == Progress::begin(
                        erase_script(unit_base(address, granularity), length as nat, granularity),
                    )
                },
                Err(error) => erase_refusal(*status, address, length, granularity) == Some(error),
            },
    {
        // Align to block/page boundary
        // While the NVM will accept any address in the block, we need to compute the
        // aligned address to check for boot protection.
        let size = granularity.size();
        assert(address % size <= address) by {
            if size == 512 {
                assert(address % 512 <= address);
            } else {
                assert(address % 8192 <= address);
            }
        }
        let flash_address = address - address % size;
        assert(length * size >= 0 && flash_address + length * size <= u32::MAX) by (nonlinear_arith)
            requires
                size == granularity.unit(),
                flash_address == unit_base(address, granularity),
                unit_base(address, granularity) + length * granularity.unit() <= u32::MAX,
                length >= 0,
                size >= 0,
                flash_address >= 0,
        ;
        let range_to_erase = flash_address..(flash_address + length * size);

        if self.contains_bootprotected(status, &range_to_erase) {
            Err(Error::Protected)
        } else if self.contains_smart_eeprom(&range_to_erase) {
            Err(Error::SmartEepromArea)
        } else {
            Ok(Operation::erase(flash_address, length, granularity))
        }
    }

    /// Whether `inp` runs into the boot-protected range
    pub fn contains_bootprotected(&self, status: &Status, inp: &Range<u32>) -> (protected: bool)
        requires
            status.valid(),
        ensures
            protected == boot_protected(*status, *inp),
            status.boot_protection_disabled ==> !protected,
    {
        // Calculate size that is protected for bootloader
        //   * 15 = no bootprotection, default value
        //   * 0 = max bootprotection, 15 * 8Kibyte = 120KiB
        //   * (15 - bootprot) * 8KiB = protected size
        let bootprot: u8 = status.boot_protection;
        let bp_space: u32 = 8 * 1024 * ((15 - bootprot) as u32);

        let boot = 0..bp_space;
        self.is_boot_protected(status) && range_overlap(inp, &boot)
    }

    /// Whether `inp` runs into the flash set aside for the SmartEEPROM
    pub fn contains_smart_eeprom(&self, inp: &Range<u32>) -> (reserved: bool)
        ensures
            reserved == smart_eeprom_area(*inp),
            !reserved,
    {
        false
    }
}

} // verus!
