//! Read-only views of three fixed regions of the flash: the user page and the
//! two calibration areas.
//!
//! The bytes of a region are put together as one little-endian number, and the
//! named fields are ranges of its bits. Nothing here reaches the flash: the
//! bytes are handed in as they were read.
use vstd::prelude::*;
use vstd::arithmetic::power2::{lemma2_to64, lemma2_to64_rest, lemma_pow2_adds, lemma_pow2_strictly_increases, pow2};

verus! {

/// Address of the first of the sixteen bytes of the user page
pub const USER_PAGE_ADDRESS: u32 = 0x0080_4000;

/// Address of the first of the eight bytes of the calibration area
pub const CALIBRATION_AREA_ADDRESS: u32 = 0x0080_0080;

/// Address of the first of the sixteen bytes of the calibration area for
/// temperatures
pub const TEMPERATURES_CALIBRATION_AREA_ADDRESS: u32 = 0x0080_0100;

/// The number that `bytes` spell, least significant byte first.
pub open spec fn little_endian(bytes: Seq<u8>) -> nat
    decreases bytes.len(),
{
    if bytes.len() == 0 {
        0
    } else {
        bytes[0] as nat + 256 * little_endian(bytes.skip(1))
    }
}

/// Bits `lsb` to `msb` of `value`, both included and counted from the least
/// significant bit, read as a number.
pub open spec fn bits(value: nat, msb: nat, lsb: nat) -> nat {
    (value / pow2(lsb)) % pow2((msb - lsb + 1) as nat)
}

/// Whether bit `index` of `value` is set.
pub open spec fn bit(value: nat, index: nat) -> bool {
    bits(value, index, index) == 1
}

/// A number spelled by `n` bytes is below 2 to the power of `8 * n`.
pub proof fn lemma_little_endian_bound(bytes: Seq<u8>)
    ensures
        little_endian(bytes) < pow2(8 * bytes.len()),
    decreases bytes.len(),
{
    lemma2_to64();
    if bytes.len() > 0 {
        let rest = bytes.skip(1);
        lemma_little_endian_bound(rest);
        lemma_pow2_adds(8, 8 * rest.len());
        assert(256 * little_endian(rest) + 256 <= 256 * pow2(8 * rest.len())) by (nonlinear_arith)
            requires
                little_endian(rest) < pow2(8 * rest.len()),
        ;
    }
}

/// Each byte is found again in the number: bits `8 * k` to `8 * k + 7` of it
/// are byte `k`.
pub proof fn lemma_little_endian_byte(bytes: Seq<u8>, k: int)
    requires
        0 <= k < bytes.len(),
    ensures
        bits(little_endian(bytes), (8 * k + 7) as nat, (8 * k) as nat) == bytes[k],
    decreases k,
{
    lemma2_to64();
    let value = little_endian(bytes);
    let rest = little_endian(bytes.skip(1));
    assert(value == bytes[0] + 256 * rest);
    if k > 0 {
        let below = (8 * (k - 1)) as nat;
        lemma_little_endian_byte(bytes.skip(1), k - 1);
        lemma_pow2_adds(8, below);
        vstd::arithmetic::power2::lemma_pow2_pos(below);
        vstd::arithmetic::div_mod::lemma_div_denominator(value as int, 256, pow2(below) as int);
        assert(value / 256 == rest);
        assert(value / pow2((8 * k) as nat) == rest / pow2(below));
    }
}

/// Put up to sixteen bytes together as one number, least significant byte
/// first.
pub fn read_little_endian<const N: usize>(bytes: &[u8; N]) -> (value: u128)
    requires
        N <= 16,
    ensures
        value == little_endian(bytes@),
        value < pow2(8 * N as nat),
{
    let mut value: u128 = 0;
    let mut i: usize = N;
    while i > 0
        invariant
            i <= N <= 16,
            bytes@.len() == N,
            value == little_endian(bytes@.skip(i as int)),
        decreases i,
    {
        proof {
            let seen = bytes@.skip(i as int);
            lemma_little_endian_bound(seen);
            lemma2_to64_rest();
            lemma_pow2_adds(60, 60);
            if 8 * seen.len() < 120 {
                lemma_pow2_strictly_increases(8 * seen.len(), 120);
            }
            assert(bytes@.skip(i - 1).skip(1) =~= seen);
        }
        i = i - 1;
        value = value * 256 + bytes[i] as u128;
    }
    proof {
        assert(bytes@.skip(0) =~= bytes@);
        lemma_little_endian_bound(bytes@);
    }
    value
}

/// `bitfield`'s `BitRange::<u32>::bit_range` on a `u128`: bits `lsb` to `msb`
/// of `value` as a number. The crate shifts the bits above `msb` out to the
/// left and those below `lsb` out to the right; each of its shift amounts is
/// in range exactly for the positions that `requires` admits.
#[verifier::external_body]
fn bit_range_u128(value: u128, msb: usize, lsb: usize) -> (field: u32)
    requires
        lsb <= msb < 128,
        msb - lsb < 32,
    ensures
        field == bits(value as nat, msb as nat, lsb as nat),
{
    bitfield::BitRange::<u32>::bit_range(&value, msb, lsb)
}

/// `bitfield`'s `BitRange::<u32>::bit_range` on a `u64`: bits `lsb` to `msb`
/// of `value` as a number, computed as on a `u128`.
#[verifier::external_body]
fn bit_range_u64(value: u64, msb: usize, lsb: usize) -> (field: u32)
    requires
        lsb <= msb < 64,
        msb - lsb < 32,
    ensures
        field == bits(value as nat, msb as nat, lsb as nat),
{
    bitfield::BitRange::<u32>::bit_range(&value, msb, lsb)
}

/// `bitfield`'s `Bit::bit` on a `u128`: whether bit `index` of `value` is
/// set. The crate reads the one-bit range at `index` and compares it with 0.
#[verifier::external_body]
fn bit_u128(value: u128, index: usize) -> (set: bool)
    requires
        index < 128,
    ensures
        set == bit(value as nat, index as nat),
{
    bitfield::Bit::bit(&value, index)
}

/// POD-style struct representing NVM user page
#[derive(Copy, Clone, Default, Debug, PartialEq, Eq)]
pub struct Userpage(pub u128);

impl Userpage {
    /// The 3.3 V brown-out detector is disabled: bit 0.
    pub fn bod33_disable(&self) -> (set: bool)
        ensures
            set == bit(self.0 as nat, 0),
    {
        bit_u128(self.0, 0)
    }

    /// Threshold level of the 3.3 V brown-out detector: bits 1 to 8.
    pub fn bod33_level(&self) -> (field: u32)
        ensures
            field == bits(self.0 as nat, 8, 1),
    {
        bit_range_u128(self.0, 8, 1)
    }

    /// What the 3.3 V brown-out detector does when it trips: bits 9 to 10.
    pub fn bod33_action(&self) -> (field: u32)
        ensures
            field == bits(self.0 as nat, 10, 9),
    {
        bit_range_u128(self.0, 10, 9)
    }

    /// Hysteresis of the 3.3 V brown-out detector: bits 11 to 14.
    pub fn bod33_hysteresis(&self) -> (field: u32)
        ensures
            field == bits(self.0 as nat, 14, 11),
    {
        bit_range_u128(self.0, 14, 11)
    }

    /// Calibration of the 1.2 V brown-out detector: bits 12 to 25.
    pub fn bod12_calibration_parameters(&self) -> (field: u32)
        ensures
            field == bits(self.0 as nat, 25, 12),
    {
        bit_range_u128(self.0, 25, 12)
    }

    /// The boot-protection size field: bits 26 to 29.
    pub fn nvm_bootloader_size(&self) -> (field: u32)
        ensures
            field == bits(self.0 as nat, 29, 26),
    {
        bit_range_u128(self.0, 29, 26)
    }

    /// Number of blocks set aside for the SmartEEPROM: bits 32 to 35.
    pub fn see_sblk(&self) -> (field: u32)
        ensures
            field == bits(self.0 as nat, 35, 32),
    {
        bit_range_u128(self.0, 35, 32)
    }

    /// Page size of the SmartEEPROM: bits 36 to 38.
    pub fn see_psz(&self) -> (field: u32)
        ensures
            field == bits(self.0 as nat, 38, 36),
    {
        bit_range_u128(self.0, 38, 36)
    }

    /// Error correction of the RAM is disabled: bit 39.
    pub fn ram_ecc_disable(&self) -> (set: bool)
        ensures
            set == bit(self.0 as nat, 39),
    {
        bit_u128(self.0, 39)
    }

    /// The watchdog is enabled at power-on: bit 48.
    pub fn wdt_enable(&self) -> (set: bool)
        ensures
            set == bit(self.0 as nat, 48),
    {
        bit_u128(self.0, 48)
    }

    /// The watchdog cannot be switched off: bit 49.
    pub fn wdt_always_on(&self) -> (set: bool)
        ensures
            set == bit(self.0 as nat, 49),
    {
        bit_u128(self.0, 49)
    }

    /// Time-out period of the watchdog: bits 50 to 53.
    pub fn wdt_period(&self) -> (field: u32)
        ensures
            field == bits(self.0 as nat, 53, 50),
    {
        bit_range_u128(self.0, 53, 50)
    }

    /// Window of the watchdog: bits 54 to 57.
    pub fn wdt_window(&self) -> (field: u32)
        ensures
            field == bits(self.0 as nat, 57, 54),
    {
        bit_range_u128(self.0, 57, 54)
    }

    /// Early-warning offset of the watchdog: bits 58 to 61.
    pub fn wdt_ewoffset(&self) -> (field: u32)
        ensures
            field == bits(self.0 as nat, 61, 58),
    {
        bit_range_u128(self.0, 61, 58)
    }

    /// The watchdog runs in window mode: bit 62.
    pub fn wdt_wen(&self) -> (set: bool)
        ensures
            set == bit(self.0 as nat, 62),
    {
        bit_u128(self.0, 62)
    }

    /// Region lock bits: bits 64 to 95.
    pub fn nvm_locks(&self) -> (field: u32)
        ensures
            field == bits(self.0 as nat, 95, 64),
    {
        bit_range_u128(self.0, 95, 64)
    }

    /// The word left to the user: bits 96 to 127.
    pub fn user_page(&self) -> (field: u32)
        ensures
            field == bits(self.0 as nat, 127, 96),
    {
        bit_range_u128(self.0, 127, 96)
    }
}

/// POD-style struct representing NVM calibration area
#[derive(Copy, Clone, Default, Debug, PartialEq, Eq)]
pub struct CalibrationArea(pub u64);

impl CalibrationArea {
    /// Bias of the analog comparators: bits 0 to 1.
    pub fn ac_bias(&self) -> (field: u32)
        ensures
            field == bits(self.0 as nat, 1, 0),
    {
        bit_range_u64(self.0, 1, 0)
    }

    /// Comparator bias of ADC0: bits 2 to 4.
    pub fn adc0_biascomp(&self) -> (field: u32)
        ensures
            field == bits(self.0 as nat, 4, 2),
    {
        bit_range_u64(self.0, 4, 2)
    }

    /// Reference buffer bias of ADC0: bits 5 to 7.
    pub fn adc0_biasrefbuf(&self) -> (field: u32)
        ensures
            field == bits(self.0 as nat, 7, 5),
    {
        bit_range_u64(self.0, 7, 5)
    }

    /// Rail-to-rail bias of ADC0: bits 8 to 10.
    pub fn adc0_biasr2r(&self) -> (field: u32)
        ensures
            field == bits(self.0 as nat, 10, 8),
    {
        bit_range_u64(self.0, 10, 8)
    }

    /// Comparator bias of ADC1: bits 16 to 18.
    pub fn adc1_biascomp(&self) -> (field: u32)
        ensures
            field == bits(self.0 as nat, 18, 16),
    {
        bit_range_u64(self.0, 18, 16)
    }

    /// Reference buffer bias of ADC1: bits 19 to 21.
    pub fn adc1_biasrefbuf(&self) -> (field: u32)
        ensures
            field == bits(self.0 as nat, 21, 19),
    {
        bit_range_u64(self.0, 21, 19)
    }

    /// Rail-to-rail bias of ADC1: bits 22 to 24.
    pub fn adc1_biasr2r(&self) -> (field: u32)
        ensures
            field == bits(self.0 as nat, 24, 22),
    {
        bit_range_u64(self.0, 24, 22)
    }

    /// USB pad calibration, negative side: bits 32 to 36.
    pub fn usb_transn(&self) -> (field: u32)
        ensures
            field == bits(self.0 as nat, 36, 32),
    {
        bit_range_u64(self.0, 36, 32)
    }

    /// USB pad calibration, positive side: bits 37 to 41.
    pub fn usb_transp(&self) -> (field: u32)
        ensures
            field == bits(self.0 as nat, 41, 37),
    {
        bit_range_u64(self.0, 41, 37)
    }

    /// USB pad trim: bits 42 to 44.
    pub fn usb_trim(&self) -> (field: u32)
        ensures
            field == bits(self.0 as nat, 44, 42),
    {
        bit_range_u64(self.0, 44, 42)
    }
}

/// POD-style struct representing NVM calibration area for temperature calibration
#[derive(Copy, Clone, Default, Debug, PartialEq, Eq)]
pub struct TemperaturesCalibrationArea(pub u128);

impl TemperaturesCalibrationArea {
    /// Integer part of the low calibration temperature: bits 0 to 7.
    pub fn tli(&self) -> (field: u32)
        ensures
            field == bits(self.0 as nat, 7, 0),
    {
        bit_range_u128(self.0, 7, 0)
    }

    /// Decimal part of the low calibration temperature: bits 8 to 11.
    pub fn tld(&self) -> (field: u32)
        ensures
            field == bits(self.0 as nat, 11, 8),
    {
        bit_range_u128(self.0, 11, 8)
    }

    /// Integer part of the high calibration temperature: bits 12 to 19.
    pub fn thi(&self) -> (field: u32)
        ensures
            field == bits(self.0 as nat, 19, 12),
    {
        bit_range_u128(self.0, 19, 12)
    }

    /// Decimal part of the high calibration temperature: bits 20 to 23.
    pub fn thd(&self) -> (field: u32)
        ensures
            field == bits(self.0 as nat, 23, 20),
    {
        bit_range_u128(self.0, 23, 20)
    }

    /// PTAT sensor reading at the low temperature: bits 40 to 51.
    pub fn vpl(&self) -> (field: u32)
        ensures
            field == bits(self.0 as nat, 51, 40),
    {
        bit_range_u128(self.0, 51, 40)
    }

    /// PTAT sensor reading at the high temperature: bits 52 to 63.
    pub fn vph(&self) -> (field: u32)
        ensures
            field == bits(self.0 as nat, 63, 52),
    {
        bit_range_u128(self.0, 63, 52)
    }

    /// CTAT sensor reading at the low temperature: bits 63 to 75.
    pub fn vcl(&self) -> (field: u32)
        ensures
            field == bits(self.0 as nat, 75, 63),
    {
        bit_range_u128(self.0, 75, 63)
    }

    /// CTAT sensor reading at the high temperature: bits 76 to 87.
    pub fn vch(&self) -> (field: u32)
        ensures
            field == bits(self.0 as nat, 87, 76),
    {
        bit_range_u128(self.0, 87, 76)
    }
}

} // verus!
