//! Decoder for the factory-programmed fuse block.
//!
//! The fuse block is immutable at run time. [`Efuse`] holds the raw fields as
//! they were read from it; every decoder is a pure function of those fields.

use vstd::prelude::*;
use vstd::arithmetic::power2::{lemma2_to64, lemma_pow2_pos, lemma_pow2_strictly_increases, pow2};
use vstd::bits::{lemma_u32_low_bits_mask_is_mod, lemma_u32_shl_is_mul, lemma_u32_shr_is_div, low_bits_mask};

verus! {

/// The package of the chip.
#[allow(non_camel_case_types)]
#[derive(Clone, Copy, PartialEq, Eq, Structural, Debug)]
pub enum ChipType {
    ESP32D0WDQ6,
    ESP32D0WDQ5,
    ESP32D2WDQ5,
    ESP32PICOD2,
    ESP32PICOD4,
    Unknown,
}

/// The fields of the fuse block that the decoders read, as they come out of
/// the block.
#[derive(Clone, Copy, PartialEq, Eq, Structural, Debug)]
pub struct Efuse {
    /// Low word of the MAC address (`BLK0_RDATA1.RD_WIFI_MAC_CRC_LOW`).
    pub mac_low: u32,
    /// High word of the MAC address (`BLK0_RDATA2.RD_WIFI_MAC_CRC_HIGH`).
    pub mac_high: u32,
    /// The second core is disabled (`BLK0_RDATA3.RD_CHIP_VER_DIS_APP_CPU`).
    pub app_cpu_disabled: bool,
    /// The chip has a clock rating (`BLK0_RDATA3.RD_CHIP_CPU_FREQ_RATED`).
    pub cpu_freq_rated: bool,
    /// The clock rating is the low one (`BLK0_RDATA3.RD_CHIP_CPU_FREQ_LOW`).
    pub cpu_freq_low: bool,
    /// Bluetooth is disabled (`BLK0_RDATA3.RD_CHIP_VER_DIS_BT`).
    pub bluetooth_disabled: bool,
    /// Package of the chip, three bits (`BLK0_RDATA3.RD_CHIP_VER_PKG`).
    pub chip_package: u8,
    /// Trim of the reference voltage, five bits (`BLK0_RDATA4.RD_ADC_VREF`).
    pub adc_vref: u8,
    /// Unit 1 at 150 mV, seven bits (`BLK3_RDATA3.RD_ADC1_TP_LOW`).
    pub adc1_tp_low: u16,
    /// Unit 1 at 850 mV, nine bits (`BLK3_RDATA3.RD_ADC1_TP_HIGH`).
    pub adc1_tp_high: u16,
    /// Unit 2 at 150 mV, seven bits (`BLK3_RDATA3.RD_ADC2_TP_LOW`).
    pub adc2_tp_low: u16,
    /// Unit 2 at 850 mV, nine bits (`BLK3_RDATA3.RD_ADC2_TP_HIGH`).
    pub adc2_tp_high: u16,
}

/// All that the fuse block says of the chip, decoded.
#[derive(Clone, Copy, PartialEq, Eq, Debug)]
pub struct CalibrationRecord {
    pub mac_address: [u8; 6],
    pub core_count: u8,
    pub max_frequency_mhz: u8,
    pub bluetooth_enabled: bool,
    pub chip_variant: ChipType,
    /// Reference voltage in millivolts, if the chip was trimmed.
    pub reference_voltage_mv: Option<i32>,
    /// For unit 1 and unit 2 in turn: the raw readings at 150 mV and at
    /// 850 mV, if the unit was calibrated.
    pub two_point_cal: [Option<(i32, i32)>; 2],
}

/// Reference voltage of an untrimmed chip, in millivolts.
pub const VREF_BASE_MV: i32 = 1100;

/// Millivolts per step of the reference voltage trim.
pub const VREF_STEP_MV: i32 = 7;

/// Raw counts per step of a two-point calibration offset.
pub const TP_STEP: i32 = 4;

/// Width of the low field of a two-point calibration.
pub const TP_LOW_BITS: u8 = 7;

/// Width of the high field of a two-point calibration.
pub const TP_HIGH_BITS: u8 = 9;

/// Worth of the sign bit of the low field.
pub const TP_LOW_HALF: i32 = 64;

/// Worth of the sign bit of the high field.
pub const TP_HIGH_HALF: i32 = 256;

/// Reading of an uncalibrated unit 1 at 150 mV.
pub const ADC1_TP_LOW_BASE: i32 = 278;

/// Reading of an uncalibrated unit 1 at 850 mV.
pub const ADC1_TP_HIGH_BASE: i32 = 3265;

/// Reading of an uncalibrated unit 2 at 150 mV.
pub const ADC2_TP_LOW_BASE: i32 = 421;

/// Reading of an uncalibrated unit 2 at 850 mV.
pub const ADC2_TP_HIGH_BASE: i32 = 3406;

/// The six bytes of the MAC address held in two fuse words: the low two
/// bytes of `high`, then the four bytes of `low`, most significant first.
pub open spec fn spec_mac_address(low: u32, high: u32) -> Seq<u8> {
    seq![
        (high / 0x100 % 0x100) as u8,
        (high % 0x100) as u8,
        (low / 0x100_0000) as u8,
        (low / 0x1_0000 % 0x100) as u8,
        (low / 0x100 % 0x100) as u8,
        (low % 0x100) as u8,
    ]
}

/// The number whose big-endian digits to base 256 are `bytes`.
pub open spec fn spec_big_endian(bytes: Seq<u8>) -> nat
    decreases bytes.len(),
{
    if bytes.len() == 0 {
        0
    } else {
        spec_big_endian(bytes.drop_last()) * 256 + bytes.last() as nat
    }
}

/// The package a three-bit package code stands for.
pub open spec fn spec_chip_version(package: u8) -> ChipType {
    if package == 0 {
        ChipType::ESP32D0WDQ6
    } else if package == 1 {
        ChipType::ESP32D0WDQ5
    } else if package == 2 {
        ChipType::ESP32D2WDQ5
    } else if package == 4 {
        ChipType::ESP32PICOD2
    } else if package == 5 {
        ChipType::ESP32PICOD4
    } else {
        ChipType::Unknown
    }
}

/// The reference voltage a trim field stands for: none for zero, else the
/// base plus or minus seven millivolts for each step of the low four bits,
/// minus if anything is set above them.
pub open spec fn spec_adc_vref(raw: u8) -> Option<int> {
    if raw == 0 {
        None
    } else if raw / 16 == 0 {
        Some(VREF_BASE_MV + (raw % 16) * VREF_STEP_MV)
    } else {
        Some(VREF_BASE_MV - (raw % 16) * VREF_STEP_MV)
    }
}

/// The pair of readings two calibration fields stand for: none if either
/// field is zero, else each base moved by four counts for each step of its
/// field.
pub open spec fn spec_two_point_cal(low: u16, high: u16, low_base: int, high_base: int) -> Option<
    (int, int),
> {
    if low == 0 || high == 0 {
        None
    } else {
        Some(
            (
                low_base + spec_sign_magnitude(low as int, TP_LOW_HALF as int) * TP_STEP,
                high_base + spec_sign_magnitude(high as int, TP_HIGH_HALF as int) * TP_STEP,
            ),
        )
    }
}

/// A voltage as a mathematical integer.
pub open spec fn spec_millivolts(value: Option<i32>) -> Option<int> {
    match value {
        None => None,
        Some(mv) => Some(mv as int),
    }
}

/// A pair of readings as mathematical integers.
pub open spec fn spec_pair(pair: Option<(i32, i32)>) -> Option<(int, int)> {
    match pair {
        None => None,
        Some((low, high)) => Some((low as int, high as int)),
    }
}

/// Value of a field whose sign bit is worth `half`: the magnitude is what
/// the bits below the sign bit hold, and it counts as negative if the sign
/// bit is set.
pub open spec fn spec_sign_magnitude(value: int, half: int) -> int {
    if (value / half) % 2 == 0 {
        value % half
    } else {
        -(value % half)
    }
}

/// Value of a `bits`-wide fuse field that stores a sign in its top bit and a
/// magnitude in the `bits - 1` bits below it.
pub open spec fn spec_from_twos_complement(value: int, bits: nat) -> int {
    spec_sign_magnitude(value, pow2((bits - 1) as nat) as int)
}

/// Decodes a signed calibration offset from the low `bits` bits of `value`.
///
/// Bit `bits - 1` is the sign, the bits below it are the magnitude; anything
/// above the field is ignored.
pub fn from_twos_complement(value: u16, bits: u8) -> (decoded: i32)
    requires
        1 <= bits <= 16,
    ensures
        decoded == spec_from_twos_complement(value as int, bits as nat),
{
    let shift: u32 = (bits - 1) as u32;
    let wide: u32 = value as u32;
    proof {
        lemma2_to64();
        lemma_pow2_pos(shift as nat);
        lemma_pow2_strictly_increases(shift as nat, 16);
        lemma_u32_shl_is_mul(1, shift);
        lemma_u32_low_bits_mask_is_mod(wide, shift as nat);
        lemma_u32_shr_is_div(wide, shift);
    }
    let half: u32 = 1u32 << shift;
    let magnitude: u32 = wide & (half - 1);
    let above: u32 = wide >> shift;
    let sign: u32 = above & 1;
    assert(sign == above % 2) by (bit_vector)
        requires
            sign == above & 1,
    ;
    assert(half - 1 == low_bits_mask(shift as nat));
    if sign == 0 {
        magnitude as i32
    } else {
        -(magnitude as i32)
    }
}

/// The magnitude of a decoded offset is below half the range of its field.
pub proof fn lemma_from_twos_complement_range(value: int, bits: nat)
    requires
        0 <= value,
        1 <= bits,
    ensures
        -pow2((bits - 1) as nat) < spec_from_twos_complement(value, bits) < pow2(
            (bits - 1) as nat,
        ),
{
    lemma_pow2_pos((bits - 1) as nat);
}

fn two_point_cal(low: u16, high: u16, low_base: i32, high_base: i32) -> (pair: Option<(i32, i32)>)
    requires
        0 <= low_base <= 4096,
        0 <= high_base <= 4096,
    ensures
        spec_pair(pair) == spec_two_point_cal(low, high, low_base as int, high_base as int),
{
    if low == 0 || high == 0 {
        None
    } else {
        proof {
            lemma2_to64();
            lemma_from_twos_complement_range(low as int, TP_LOW_BITS as nat);
            lemma_from_twos_complement_range(high as int, TP_HIGH_BITS as nat);
        }
        Some(
            (
                low_base + from_twos_complement(low, TP_LOW_BITS) * TP_STEP,
                high_base + from_twos_complement(high, TP_HIGH_BITS) * TP_STEP,
            ),
        )
    }
}

impl Efuse {
    /// The MAC address, most significant byte first.
    pub fn get_mac_address(&self) -> (mac: [u8; 6])
        ensures
            mac@ == spec_mac_address(self.mac_low, self.mac_high),
    {
        let low = self.mac_low;
        let high = self.mac_high;
        assert((high >> 8) & 0xff == high / 0x100 % 0x100 && high & 0xff == high % 0x100 && low
            >> 24 == low / 0x100_0000 && (low >> 16) & 0xff == low / 0x1_0000 % 0x100 && (low >> 8)
            & 0xff == low / 0x100 % 0x100 && low & 0xff == low % 0x100) by (bit_vector);
        let mac = [
            ((high >> 8) & 0xff) as u8,
            (high & 0xff) as u8,
            (low >> 24) as u8,
            ((low >> 16) & 0xff) as u8,
            ((low >> 8) & 0xff) as u8,
            (low & 0xff) as u8,
        ];
        assert(mac@ =~= spec_mac_address(low, high));
        mac
    }

    /// Number of cores: one if the second core is disabled, else two.
    pub fn get_core_count(&self) -> (cores: u8)
        ensures
            cores == if self.app_cpu_disabled { 1u8 } else { 2u8 },
    {
        if self.app_cpu_disabled {
            1
        } else {
            2
        }
    }

    /// Highest clock in MHz: 160 if the chip is rated and rated low, else 240.
    pub fn get_max_cpu_fequency(&self) -> (mhz: u8)
        ensures
            mhz == if self.cpu_freq_rated && self.cpu_freq_low { 160u8 } else { 240u8 },
    {
        if self.cpu_freq_rated && self.cpu_freq_low {
            160
        } else {
            240
        }
    }

    /// Whether Bluetooth is left enabled.
    pub fn is_bluetooth_enabled(&self) -> (enabled: bool)
        ensures
            enabled == !self.bluetooth_disabled,
    {
        !self.bluetooth_disabled
    }

    /// The package of the chip.
    pub fn get_chip_version(&self) -> (chip: ChipType)
        ensures
            chip == spec_chip_version(self.chip_package),
    {
        match self.chip_package {
            0 => ChipType::ESP32D0WDQ6,
            1 => ChipType::ESP32D0WDQ5,
            2 => ChipType::ESP32D2WDQ5,
            4 => ChipType::ESP32PICOD2,
            5 => ChipType::ESP32PICOD4,
            _ => ChipType::Unknown,
        }
    }

    /// The reference voltage in millivolts, if the chip was trimmed.
    pub fn get_adc_vref(&self) -> (vref: Option<i32>)
        ensures
            spec_millivolts(vref) == spec_adc_vref(self.adc_vref),
    {
        let calibration = self.adc_vref;
        if calibration == 0 {
            return None;
        }
        assert(calibration >> 4 == calibration / 16 && calibration & 0x0f == calibration % 16)
            by (bit_vector);
        let sign = (calibration >> 4) as i32;
        let offset = (calibration & 0x0f) as i32;
        if sign == 0 {
            Some(VREF_BASE_MV + offset * VREF_STEP_MV)
        } else {
            Some(VREF_BASE_MV - offset * VREF_STEP_MV)
        }
    }

    /// The raw readings of unit 1 at 150 mV and at 850 mV, if the unit was
    /// calibrated.
    pub fn get_adc1_two_point_cal(&self) -> (pair: Option<(i32, i32)>)
        ensures
            spec_pair(pair) == spec_two_point_cal(
                self.adc1_tp_low,
                self.adc1_tp_high,
                ADC1_TP_LOW_BASE as int,
                ADC1_TP_HIGH_BASE as int,
            ),
            pair is None <==> self.adc1_tp_low == 0 || self.adc1_tp_high == 0,
    {
        two_point_cal(self.adc1_tp_low, self.adc1_tp_high, ADC1_TP_LOW_BASE, ADC1_TP_HIGH_BASE)
    }

    /// The raw readings of unit 2 at 150 mV and at 850 mV, if the unit was
    /// calibrated.
    pub fn get_adc2_two_point_cal(&self) -> (pair: Option<(i32, i32)>)
        ensures
            spec_pair(pair) == spec_two_point_cal(
                self.adc2_tp_low,
                self.adc2_tp_high,
                ADC2_TP_LOW_BASE as int,
                ADC2_TP_HIGH_BASE as int,
            ),
            pair is None <==> self.adc2_tp_low == 0 || self.adc2_tp_high == 0,
    {
        two_point_cal(self.adc2_tp_low, self.adc2_tp_high, ADC2_TP_LOW_BASE, ADC2_TP_HIGH_BASE)
    }

    /// Decodes the whole record.
    pub fn decode(&self) -> (record: CalibrationRecord)
        ensures
            record.mac_address@ == spec_mac_address(self.mac_low, self.mac_high),
            record.core_count == if self.app_cpu_disabled { 1u8 } else { 2u8 },
            record.max_frequency_mhz == if self.cpu_freq_rated && self.cpu_freq_low {
                160u8
            } else {
                240u8
            },
            record.bluetooth_enabled == !self.bluetooth_disabled,
            record.chip_variant == spec_chip_version(self.chip_package),
            spec_millivolts(record.reference_voltage_mv) == spec_adc_vref(self.adc_vref),
            record.two_point_cal@.len() == 2,
            spec_pair(record.two_point_cal@[0]) == spec_two_point_cal(
                self.adc1_tp_low,
                self.adc1_tp_high,
                ADC1_TP_LOW_BASE as int,
                ADC1_TP_HIGH_BASE as int,
            ),
            spec_pair(record.two_point_cal@[1]) == spec_two_point_cal(
                self.adc2_tp_low,
                self.adc2_tp_high,
                ADC2_TP_LOW_BASE as int,
                ADC2_TP_HIGH_BASE as int,
            ),
    {
        let two_point_cal = [self.get_adc1_two_point_cal(), self.get_adc2_two_point_cal()];
        CalibrationRecord {
            mac_address: self.get_mac_address(),
            core_count: self.get_core_count(),
            max_frequency_mhz: self.get_max_cpu_fequency(),
            bluetooth_enabled: self.is_bluetooth_enabled(),
            chip_variant: self.get_chip_version(),
            reference_voltage_mv: self.get_adc_vref(),
            two_point_cal,
        }
    }
}

/// The MAC address read as one number is the low sixteen bits of the high
/// word followed by the thirty-two bits of the low word.
pub proof fn lemma_mac_address_value(low: u32, high: u32)
    ensures
        spec_big_endian(spec_mac_address(low, high)) == (high % 0x1_0000) * 0x1_0000_0000 + low,
{
    let mac = spec_mac_address(low, high);
    reveal_with_fuel(spec_big_endian, 7);
    assert(mac.drop_last() =~= seq![mac[0], mac[1], mac[2], mac[3], mac[4]]);
    assert(mac.drop_last().drop_last() =~= seq![mac[0], mac[1], mac[2], mac[3]]);
    assert(mac.drop_last().drop_last().drop_last() =~= seq![mac[0], mac[1], mac[2]]);
    assert(mac.drop_last().drop_last().drop_last().drop_last() =~= seq![mac[0], mac[1]]);
    assert(mac.drop_last().drop_last().drop_last().drop_last().drop_last() =~= seq![mac[0]]);
    assert(mac.drop_last().drop_last().drop_last().drop_last().drop_last().drop_last()
        =~= Seq::<u8>::empty());
}

} // verus!
