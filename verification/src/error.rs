//! The driver's errors, and the decoding of the controller's error flags.
use vstd::prelude::*;
use crate::registers::InterruptFlags;

verus! {

/// Errors generated by the NVM peripheral
#[derive(Clone, Copy, Debug, PartialEq, Eq)]
pub enum PeripheralError {
    /// NVM error
    NvmError,
    /// Single ECC error
    EccSingleError,
    /// Dual ECC error
    EccDualError,
    /// Locked error
    LockError,
    /// Programming error
    ProgrammingError,
    /// Address error
    AddressError,
}

/// Driver errors
#[non_exhaustive]
#[derive(Clone, Copy, Debug, PartialEq, Eq)]
pub enum Error {
    /// Target sector is protected
    Protected,
    /// Memory region is used by SmartEEPROM
    SmartEepromArea,
    /// Requested protection state already in place
    NoChangeBootProtection,
    /// Errors generated by hardware
    Peripheral(PeripheralError),
    /// An alignment requirement was not fulfilled
    Alignment,
}

/// NVM result type
pub type Result<T> = core::result::Result<T, Error>;

/// What a snapshot of the error flags stands for. The address error is the
/// most specific and wins over the lock error, which wins over the programming
/// error; with none of the three set the command went through.
pub open spec fn error_state(flags: InterruptFlags) -> Result<()> {
    if flags.address_error {
        Err(Error::Peripheral(PeripheralError::AddressError))
    } else if flags.lock_error {
        Err(Error::Peripheral(PeripheralError::LockError))
    } else if flags.programming_error {
        Err(Error::Peripheral(PeripheralError::ProgrammingError))
    } else {
        Ok(())
    }
}

/// Classify the error flags read after a command.
pub fn manage_error_states(flags: &InterruptFlags) -> (state: Result<()>)
    ensures
        state == error_state(*flags),
        state is Ok <==> !flags.address_error && !flags.lock_error && !flags.programming_error,
{
    // Check ADDRE and LOCKE first as it is more specific than PROGE
    if flags.address_error {
        Err(Error::Peripheral(PeripheralError::AddressError))
    } else if flags.lock_error {
        Err(Error::Peripheral(PeripheralError::LockError))
    } else if flags.programming_error {
        Err(Error::Peripheral(PeripheralError::ProgrammingError))
    } else {
        Ok(())
    }
}

} // verus!
