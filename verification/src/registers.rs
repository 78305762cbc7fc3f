//! What the controller's registers hold, as plain values.
//!
//! Reading a register gives one of the snapshots below; writing one is named
//! by a [`Command`], a [`Flag`] or a [`PowerReductionMode`]. Where a field sits
//! in its register is the business of whoever performs the access.
use vstd::prelude::*;

verus! {

/// A snapshot of the status register.
#[derive(Clone, Copy, Debug, PartialEq, Eq)]
pub struct Status {
    /// The controller is neither writing nor erasing.
    pub ready: bool,
    /// Boot protection is switched off.
    pub boot_protection_disabled: bool,
    /// Physical bank A is the one mapped to address 0.
    pub bank_a_first: bool,
    /// The boot-protection size field. 15 protects nothing, 0 protects the
    /// most; each step below 15 adds 8 KiB.
    pub boot_protection: u8,
}

impl Status {
    /// The boot-protection size field is four bits wide.
    pub open spec fn valid(&self) -> bool {
        self.boot_protection <= 15
    }

    /// Whether the snapshot is one the register can hold.
    pub fn is_valid(&self) -> (valid: bool)
        ensures
            valid == self.valid(),
    {
        self.boot_protection <= 15
    }
}

/// A snapshot of the interrupt-flag register. Every flag is sticky: it stays
/// set until it is cleared by writing it back.
#[derive(Clone, Copy, Debug, PartialEq, Eq)]
pub struct InterruptFlags {
    /// The last command has finished.
    pub done: bool,
    /// An address outside the flash was used.
    pub address_error: bool,
    /// A command was refused or misused the page buffer.
    pub programming_error: bool,
    /// A locked region was the target of a command.
    pub lock_error: bool,
}

/// The sticky flags of the interrupt-flag register that the driver clears.
#[derive(Clone, Copy, Debug, PartialEq, Eq)]
pub enum Flag {
    /// Operation done
    Done,
    /// Address error
    AddressError,
    /// Lock error
    LockError,
    /// Programming error
    ProgrammingError,
}

/// The controller commands that the driver issues. Each one is written to the
/// control register together with the unlock key.
#[derive(Clone, Copy, Debug, PartialEq, Eq)]
pub enum Command {
    /// Erase the page that the address register points into
    ErasePage,
    /// Erase the block that the address register points into
    EraseBlock,
    /// Commit the page buffer to flash
    WritePage,
    /// Clear the page buffer
    PageBufferClear,
    /// Switch boot protection off
    SetBootProtectionDisable,
    /// Switch boot protection on
    ClearBootProtectionDisable,
    /// Swap the banks and reset the device
    BankSwapReset,
}

/// How far the flash powers down while the device sleeps.
#[derive(Clone, Copy, Debug, PartialEq, Eq)]
pub enum PowerReductionMode {
    /// Enters low power when the device sleeps, wakes up on first access
    SemiAuto,
    /// Enters low power when the device sleeps, wakes up with the device
    FullAuto,
    /// Enters and leaves low power by command only
    Manual,
}

} // verus!
