//! Flash geometry: page and block sizes, total size, and the two banks.
use vstd::prelude::*;

verus! {

/// Size of a page in bytes
pub const PAGESIZE: u32 = 512;

/// Size of one block
pub const BLOCKSIZE: u32 = 512 * 16;

/// The fields of the controller's parameter register.
#[derive(Clone, Copy, Debug, PartialEq, Eq)]
pub struct Parameters {
    /// Page size in bytes.
    pub page_size: u32,
    /// Number of pages of the flash.
    pub pages: u16,
}

impl Parameters {
    /// The parts this driver supports have pages of `PAGESIZE` bytes, and at
    /// least one of them.
    pub open spec fn supported(&self) -> bool {
        self.page_size == PAGESIZE && self.pages > 0
    }

    /// Whether the parameters describe a supported part.
    pub fn is_supported(&self) -> (supported: bool)
        ensures
            supported == self.supported(),
    {
        self.page_size == PAGESIZE && self.pages > 0
    }
}

/// Total flash size in bytes: the number of pages times the page size.
pub open spec fn flash_size(parameters: Parameters) -> nat {
    parameters.pages as nat * 512
}

/// Size of one bank in bytes: half of the flash.
pub open spec fn bank_size(parameters: Parameters) -> nat {
    flash_size(parameters) / 2
}

/// Retrieve a total NVM size from the parameter register's fields
pub fn retrieve_flash_size(parameters: &Parameters) -> (size: u32)
    requires
        parameters.supported(),
    ensures
        size == flash_size(*parameters),
        size > 0,
        size % PAGESIZE == 0,
{
    let pages: u32 = parameters.pages as u32;
    pages * PAGESIZE
}

/// Retrieve a bank size from the parameter register's fields
pub fn retrieve_bank_size(parameters: &Parameters) -> (size: u32)
    requires
        parameters.supported(),
    ensures
        size == bank_size(*parameters),
        size == flash_size(*parameters) / 2,
        size > 0,
{
    retrieve_flash_size(parameters) / 2
}

/// Physical flash banks
#[derive(Clone, Copy, PartialEq, Eq, Debug)]
pub enum PhysicalBank {
    /// Flash bank A
    A,
    /// Flash bank B
    B,
}

/// Flash banks identified by which one we boot from.
///
/// Memory layout:
/// ```text
/// [  Active bank  | Inactive bank ]
/// ^               ^               ^
/// 0x0000_0000     flash_size/2    flash_size
/// ```
#[derive(Clone, Copy, PartialEq, Eq, Debug)]
pub enum Bank {
    /// Bank that is mapped to 0x0000_0000
    ///
    /// Active bank occupies first half of the flash memory.
    Active,
    /// Bank that is not mapped to 0x0000_0000
    ///
    /// Inactive bank occupies second half of the flash memory.
    Inactive,
}

impl Bank {
    /// Where the bank begins, for banks of `bank_size` bytes.
    pub open spec fn base(self, bank_size: u32) -> u32 {
        match self {
            Bank::Active => 0,
            Bank::Inactive => bank_size,
        }
    }

    /// Provides the address of the bank
    pub fn address(&self, bank_size: u32) -> (address: u32)
        ensures
            address == self.base(bank_size),
            *self == Bank::Active ==> address == 0,
            *self == Bank::Inactive ==> address == bank_size,
    {
        match self {
            Bank::Active => 0,
            Bank::Inactive => bank_size,
        }
    }

    /// Provides bank length in bytes
    pub fn length(&self, bank_size: u32) -> (length: u32)
        ensures
            length == bank_size,
    {
        bank_size
    }
}

} // verus!
