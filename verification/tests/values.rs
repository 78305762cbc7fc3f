use nvmctrl::error::{manage_error_states, Error, PeripheralError};
use nvmctrl::geometry::{
    retrieve_bank_size, retrieve_flash_size, Bank, Parameters, PhysicalBank, BLOCKSIZE, PAGESIZE,
};
use nvmctrl::guard::range_overlap;
use nvmctrl::nvm::Nvm;
use nvmctrl::regions::{read_little_endian, CalibrationArea, TemperaturesCalibrationArea, Userpage};
use nvmctrl::registers::{Command, InterruptFlags, Status};
use nvmctrl::script::EraseGranularity;

fn nvm() -> Nvm {
    Nvm::new(&Parameters { page_size: 512, pages: 1024 })
}

fn status(boot_protection: u8, boot_protection_disabled: bool) -> Status {
    Status { ready: true, boot_protection_disabled, bank_a_first: true, boot_protection }
}

fn flags(address_error: bool, lock_error: bool, programming_error: bool) -> InterruptFlags {
    InterruptFlags { done: true, address_error, programming_error, lock_error }
}

#[test]
fn sizes_are_fixed() {
    assert_eq!(PAGESIZE, 512);
    assert_eq!(BLOCKSIZE, 8192);
    assert_eq!(EraseGranularity::Page.size(), 512);
    assert_eq!(EraseGranularity::Block.size(), 8192);
    assert_eq!(EraseGranularity::Page.command(), Command::ErasePage);
    assert_eq!(EraseGranularity::Block.command(), Command::EraseBlock);
}

#[test]
fn flash_size_is_pages_times_page_size() {
    let parameters = Parameters { page_size: 512, pages: 2048 };
    assert!(parameters.is_supported());
    assert_eq!(retrieve_flash_size(&parameters), 1024 * 1024);
    assert_eq!(retrieve_bank_size(&parameters), 512 * 1024);

    let smallest = Parameters { page_size: 512, pages: 1 };
    assert_eq!(retrieve_flash_size(&smallest), 512);
    assert_eq!(retrieve_bank_size(&smallest), 256);

    let largest = Parameters { page_size: 512, pages: u16::MAX };
    assert_eq!(retrieve_flash_size(&largest), 33_553_920);
    assert_eq!(retrieve_bank_size(&largest), 16_776_960);
}

#[test]
fn flash_size_is_the_same_on_every_call() {
    let parameters = Parameters { page_size: 512, pages: 512 };
    let first = retrieve_flash_size(&parameters);
    for _ in 0..10 {
        assert_eq!(retrieve_flash_size(&parameters), first);
        assert_eq!(retrieve_bank_size(&parameters), first / 2);
    }
    let nvm = Nvm::new(&parameters);
    assert_eq!(nvm.flash_size(), first);
    assert_eq!(nvm.bank_size(), first / 2);
}

#[test]
fn unsupported_parameters_are_told_apart() {
    assert!(!Parameters { page_size: 1024, pages: 512 }.is_supported());
    assert!(!Parameters { page_size: 256, pages: 512 }.is_supported());
    assert!(!Parameters { page_size: 512, pages: 0 }.is_supported());
    assert!(Parameters { page_size: 512, pages: 1 }.is_supported());
}

#[test]
fn banks_lie_one_behind_the_other() {
    for bank_size in [0, 256, 128 * 1024, 512 * 1024, u32::MAX] {
        assert_eq!(Bank::Active.address(bank_size), 0);
        assert_eq!(Bank::Inactive.address(bank_size), bank_size);
        assert_eq!(Bank::Active.length(bank_size), bank_size);
        assert_eq!(Bank::Inactive.length(bank_size), bank_size);
    }
    let nvm = nvm();
    assert_eq!(Bank::Inactive.address(nvm.bank_size()), 256 * 1024);
}

#[test]
fn status_bits_are_reported() {
    let nvm = nvm();
    let mut snapshot = status(15, false);
    assert!(nvm.is_boot_protected(&snapshot));
    assert!(nvm.is_ready(&snapshot));
    assert_eq!(nvm.first_bank(&snapshot), PhysicalBank::A);
    snapshot.boot_protection_disabled = true;
    snapshot.ready = false;
    snapshot.bank_a_first = false;
    assert!(!nvm.is_boot_protected(&snapshot));
    assert!(!nvm.is_ready(&snapshot));
    assert_eq!(nvm.first_bank(&snapshot), PhysicalBank::B);
}

#[test]
fn status_validity() {
    assert!(status(0, false).is_valid());
    assert!(status(15, false).is_valid());
    assert!(!status(16, false).is_valid());
    assert!(!status(255, true).is_valid());
}

#[test]
fn overlap_is_symmetric() {
    let ranges = [0..0, 0..8, 4..12, 8..16, 9..10, 16..16, 0..u32::MAX, u32::MAX..u32::MAX];
    for a in &ranges {
        for b in &ranges {
            assert_eq!(range_overlap(a, b), range_overlap(b, a));
        }
    }
}

#[test]
fn empty_ranges_overlap_nothing() {
    let ranges = [0..0, 0..8, 4..12, 8..16, 0..u32::MAX];
    for empty in [0..0, 5..5, 8..8, u32::MAX..u32::MAX] {
        for other in &ranges {
            assert!(!range_overlap(&empty, other));
            assert!(!range_overlap(other, &empty));
        }
    }
}

#[test]
fn overlap_of_given_ranges() {
    assert!(range_overlap(&(0..8), &(4..12)));
    assert!(range_overlap(&(0..8), &(0..8)));
    assert!(range_overlap(&(2..3), &(0..8)));
    assert!(range_overlap(&(0..8), &(7..16)));
    assert!(!range_overlap(&(0..8), &(9..16)));
    assert!(!range_overlap(&(9..16), &(0..8)));
}

#[test]
fn ranges_that_only_touch_do_not_overlap() {
    assert!(!range_overlap(&(0..4), &(4..8)));
    assert!(!range_overlap(&(4..8), &(0..4)));
    assert!(!range_overlap(&(0..8), &(8..16)));
    assert!(!range_overlap(&(0..8192), &(8192..16384)));
    assert!(range_overlap(&(0..8192), &(8191..16384)));
    assert!(range_overlap(&(0..5), &(4..8)));
}

#[test]
fn nothing_is_protected_while_protection_is_disabled() {
    let nvm = nvm();
    for boot_protection in 0..=15 {
        let open = status(boot_protection, true);
        for range in [0..4, 0..0x2_0000, 0x1000..0x1004, 0..u32::MAX] {
            assert!(!nvm.contains_bootprotected(&open, &range));
        }
    }
}

#[test]
fn protected_space_follows_the_size_field() {
    let nvm = nvm();
    for boot_protection in 0..15u8 {
        let protecting = status(boot_protection, false);
        let space = 8 * 1024 * (15 - boot_protection as u32);
        assert!(nvm.contains_bootprotected(&protecting, &(0..4)));
        assert!(nvm.contains_bootprotected(&protecting, &(space - 4..space)));
        assert!(nvm.contains_bootprotected(&protecting, &(space - 1..space + 4)));
        assert!(!nvm.contains_bootprotected(&protecting, &(space..space + 4)));
        assert!(!nvm.contains_bootprotected(&protecting, &(space + 4..space + 8)));
    }
    // 15 protects nothing, 14 protects 8 KiB, 0 protects 120 KiB.
    assert!(!nvm.contains_bootprotected(&status(15, false), &(0..4)));
    assert!(nvm.contains_bootprotected(&status(14, false), &(8188..8192)));
    assert!(!nvm.contains_bootprotected(&status(14, false), &(8192..8196)));
    assert!(nvm.contains_bootprotected(&status(0, false), &(120 * 1024 - 1..120 * 1024)));
    assert!(!nvm.contains_bootprotected(&status(0, false), &(120 * 1024..120 * 1024 + 1)));
}

#[test]
fn nothing_is_set_aside_for_the_smart_eeprom() {
    let nvm = nvm();
    for range in [0..0, 0..4, 0..u32::MAX, 0x7_0000..0x8_0000] {
        assert!(!nvm.contains_smart_eeprom(&range));
    }
}

#[test]
fn error_flags_are_classified_by_priority() {
    assert_eq!(manage_error_states(&flags(false, false, false)), Ok(()));
    assert_eq!(
        manage_error_states(&flags(true, false, false)),
        Err(Error::Peripheral(PeripheralError::AddressError))
    );
    assert_eq!(
        manage_error_states(&flags(false, true, false)),
        Err(Error::Peripheral(PeripheralError::LockError))
    );
    assert_eq!(
        manage_error_states(&flags(false, false, true)),
        Err(Error::Peripheral(PeripheralError::ProgrammingError))
    );
    assert_eq!(
        manage_error_states(&flags(true, true, true)),
        Err(Error::Peripheral(PeripheralError::AddressError))
    );
    assert_eq!(
        manage_error_states(&flags(true, false, true)),
        Err(Error::Peripheral(PeripheralError::AddressError))
    );
    assert_eq!(
        manage_error_states(&flags(false, true, true)),
        Err(Error::Peripheral(PeripheralError::LockError))
    );
}

#[test]
fn done_flag_alone_is_no_error() {
    let mut snapshot = flags(false, false, false);
    assert_eq!(manage_error_states(&snapshot), Ok(()));
    snapshot.done = false;
    assert_eq!(manage_error_states(&snapshot), Ok(()));
}

#[test]
fn bytes_are_put_together_least_significant_first() {
    assert_eq!(read_little_endian(&[]), 0);
    assert_eq!(read_little_endian(&[0x12]), 0x12);
    assert_eq!(read_little_endian(&[0x34, 0x12]), 0x1234);
    assert_eq!(read_little_endian(&[0, 0, 0, 1]), 0x0100_0000);
    assert_eq!(read_little_endian(&[0xFF; 16]), u128::MAX);
    assert_eq!(
        read_little_endian(&[1, 2, 3, 4, 5, 6, 7, 8, 9, 10, 11, 12, 13, 14, 15, 16]),
        0x100F_0E0D_0C0B_0A09_0807_0605_0403_0201
    );
}

#[test]
fn user_page_is_decoded_field_by_field() {
    let bytes = [
        0x39, 0xA6, 0xE4, 0x92, 0xB7, 0x00, 0x5D, 0xC3, 0x78, 0x56, 0x34, 0x12, 0xEF, 0xBE, 0xAD,
        0xDE,
    ];
    let page = nvm().user_page(&bytes);
    assert_eq!(page.0, 0xDEAD_BEEF_1234_5678_C35D_00B7_92E4_A639);
    // 0x39 = 0011_1001: bit 0 is set, bits 1 to 7 are 001_1100.
    assert!(page.bod33_disable());
    // Bit 8 is bit 0 of 0xA6, which is clear: 0_0011100.
    assert_eq!(page.bod33_level(), 0b0001_1100);
    // 0xA6 = 1010_0110: bits 9 and 10 are 11.
    assert_eq!(page.bod33_action(), 0b11);
    // Bits 11 to 14 are bits 3 to 6 of 0xA6: 0100.
    assert_eq!(page.bod33_hysteresis(), 0b0100);
    // Bits 12 to 25: the high nibble of 0xA6, all of 0xE4, bits 0 and 1 of 0x92.
    assert_eq!(page.bod12_calibration_parameters(), 0x2E4A);
    // 0x92 = 1001_0010: bits 26 to 29 are bits 2 to 5 of it, 0100.
    assert_eq!(page.nvm_bootloader_size(), 0b0100);
    // 0xB7 = 1011_0111: the low nibble, then bits 4 to 6, then bit 7.
    assert_eq!(page.see_sblk(), 0b0111);
    assert_eq!(page.see_psz(), 0b011);
    assert!(page.ram_ecc_disable());
    // 0x5D = 0101_1101: bit 0, bit 1, bits 2 to 5, bits 6 and 7 with the
    // low two bits of 0xC3.
    assert!(page.wdt_enable());
    assert!(!page.wdt_always_on());
    assert_eq!(page.wdt_period(), 0b0111);
    assert_eq!(page.wdt_window(), 0b1101);
    // 0xC3 = 1100_0011: bits 2 to 5 are clear, bit 6 is set.
    assert_eq!(page.wdt_ewoffset(), 0);
    assert!(page.wdt_wen());
    assert_eq!(page.nvm_locks(), 0x1234_5678);
    assert_eq!(page.user_page(), 0xDEAD_BEEF);
}

#[test]
fn user_page_of_zeros_and_of_ones() {
    let blank = nvm().user_page(&[0; 16]);
    assert_eq!(blank, Userpage::default());
    assert!(!blank.bod33_disable());
    assert_eq!(blank.bod33_level(), 0);
    assert_eq!(blank.nvm_locks(), 0);
    assert_eq!(blank.user_page(), 0);

    let erased = nvm().user_page(&[0xFF; 16]);
    assert!(erased.bod33_disable());
    assert_eq!(erased.bod33_level(), 0xFF);
    assert_eq!(erased.bod33_action(), 3);
    assert_eq!(erased.bod33_hysteresis(), 0xF);
    assert_eq!(erased.bod12_calibration_parameters(), 0x3FFF);
    assert_eq!(erased.nvm_bootloader_size(), 0xF);
    assert_eq!(erased.see_sblk(), 0xF);
    assert_eq!(erased.see_psz(), 7);
    assert!(erased.ram_ecc_disable());
    assert!(erased.wdt_enable());
    assert!(erased.wdt_always_on());
    assert_eq!(erased.wdt_period(), 0xF);
    assert_eq!(erased.wdt_window(), 0xF);
    assert_eq!(erased.wdt_ewoffset(), 0xF);
    assert!(erased.wdt_wen());
    assert_eq!(erased.nvm_locks(), 0xFFFF_FFFF);
    assert_eq!(erased.user_page(), 0xFFFF_FFFF);
}

#[test]
fn user_page_fields_do_not_leak_into_each_other() {
    // Only bit 39 set.
    let page = Userpage(1 << 39);
    assert!(page.ram_ecc_disable());
    assert_eq!(page.see_psz(), 0);
    assert_eq!(page.see_sblk(), 0);
    assert!(!page.wdt_enable());
    // Only bit 26 set.
    let page = Userpage(1 << 26);
    assert_eq!(page.nvm_bootloader_size(), 1);
    assert_eq!(page.bod12_calibration_parameters(), 0);
    // Only bit 127 set.
    let page = Userpage(1 << 127);
    assert_eq!(page.user_page(), 0x8000_0000);
    assert_eq!(page.nvm_locks(), 0);
}

#[test]
fn calibration_area_is_decoded_field_by_field() {
    let bytes = [0xB6, 0x05, 0x9A, 0x01, 0x7C, 0x1B, 0xFF, 0xFF];
    let area = nvm().calibration_area(&bytes);
    assert_eq!(area.0, 0xFFFF_1B7C_019A_05B6);
    // 0xB6 = 101_101_10
    assert_eq!(area.ac_bias(), 0b10);
    assert_eq!(area.adc0_biascomp(), 0b101);
    assert_eq!(area.adc0_biasrefbuf(), 0b101);
    // 0x05 = 0000_0101
    assert_eq!(area.adc0_biasr2r(), 0b101);
    // 0x9A = 10_011_010, and bit 0 of 0x01 on top of its two high bits
    assert_eq!(area.adc1_biascomp(), 0b010);
    assert_eq!(area.adc1_biasrefbuf(), 0b011);
    assert_eq!(area.adc1_biasr2r(), 0b110);
    // 0x7C = 011_11100, 0x1B = 000_110_11
    assert_eq!(area.usb_transn(), 0b11100);
    assert_eq!(area.usb_transp(), 0b11011);
    assert_eq!(area.usb_trim(), 0b110);

    assert_eq!(nvm().calibration_area(&[0; 8]), CalibrationArea::default());
}

#[test]
fn temperatures_calibration_area_is_decoded_field_by_field() {
    let bytes = [
        0x19, 0x58, 0x3C, 0xFF, 0xFF, 0xD2, 0x9A, 0xB4, 0x6E, 0xF5, 0xA1, 0x00, 0x00, 0x00, 0x00,
        0x00,
    ];
    let area = nvm().temperatures_calibration_area(&bytes);
    assert_eq!(area.0, 0x00A1_F56E_B49A_D2FF_FF3C_5819);
    assert_eq!(area.tli(), 0x19);
    assert_eq!(area.tld(), 0x8);
    assert_eq!(area.thi(), 0xC5);
    assert_eq!(area.thd(), 0x3);
    assert_eq!(area.vpl(), 0xAD2);
    assert_eq!(area.vph(), 0xB49);
    // Bits 63 to 75: the top bit of 0xB4, all of 0x6E, the low nibble of 0xF5.
    assert_eq!(area.vcl(), 0b0101_0110_1110_1);
    assert_eq!(area.vch(), 0xA1F);

    assert_eq!(
        nvm().temperatures_calibration_area(&[0; 16]),
        TemperaturesCalibrationArea::default()
    );
}
