use esp32_hal::efuse::{from_twos_complement, CalibrationRecord, ChipType, Efuse};

fn blank() -> Efuse {
    Efuse {
        mac_low: 0,
        mac_high: 0,
        app_cpu_disabled: false,
        cpu_freq_rated: false,
        cpu_freq_low: false,
        bluetooth_disabled: false,
        chip_package: 0,
        adc_vref: 0,
        adc1_tp_low: 0,
        adc1_tp_high: 0,
        adc2_tp_low: 0,
        adc2_tp_high: 0,
    }
}

#[test]
fn offset_of_zero_field_is_zero() {
    assert_eq!(from_twos_complement(0x00, 7), 0);
}

#[test]
fn offset_with_clear_sign_is_the_magnitude() {
    assert_eq!(from_twos_complement(0x01, 7), 1);
}

#[test]
fn offset_with_set_sign_is_negative() {
    assert_eq!(from_twos_complement(0x41, 7), -1);
}

#[test]
fn offset_at_largest_magnitude() {
    assert_eq!(from_twos_complement(0x3f, 7), 63);
    assert_eq!(from_twos_complement(0x7f, 7), -63);
    assert_eq!(from_twos_complement(0x0ff, 9), 255);
    assert_eq!(from_twos_complement(0x1ff, 9), -255);
}

#[test]
fn offset_with_sign_alone_is_zero() {
    assert_eq!(from_twos_complement(0x40, 7), 0);
    assert_eq!(from_twos_complement(0x100, 9), 0);
}

#[test]
fn offset_ignores_bits_above_the_field() {
    assert_eq!(from_twos_complement(0xff81, 7), 1);
    assert_eq!(from_twos_complement(0x0241, 7), -1);
}

#[test]
fn offset_at_narrowest_and_widest_field() {
    assert_eq!(from_twos_complement(0x0001, 1), 0);
    assert_eq!(from_twos_complement(0x0003, 2), -1);
    assert_eq!(from_twos_complement(0x7fff, 16), 32767);
    assert_eq!(from_twos_complement(0x8001, 16), -1);
    assert_eq!(from_twos_complement(0xffff, 16), -32767);
}

#[test]
fn reference_voltage_absent_when_untrimmed() {
    let fuses = Efuse { adc_vref: 0, ..blank() };
    assert_eq!(fuses.get_adc_vref(), None);
}

#[test]
fn reference_voltage_one_step_up() {
    let fuses = Efuse { adc_vref: 0b00001, ..blank() };
    assert_eq!(fuses.get_adc_vref(), Some(1107));
}

#[test]
fn reference_voltage_one_step_down() {
    let fuses = Efuse { adc_vref: 0b10001, ..blank() };
    assert_eq!(fuses.get_adc_vref(), Some(1093));
}

#[test]
fn reference_voltage_at_the_ends() {
    assert_eq!(Efuse { adc_vref: 0b01111, ..blank() }.get_adc_vref(), Some(1205));
    assert_eq!(Efuse { adc_vref: 0b11111, ..blank() }.get_adc_vref(), Some(995));
    assert_eq!(Efuse { adc_vref: 0b10000, ..blank() }.get_adc_vref(), Some(1100));
}

#[test]
fn two_point_pair_absent_when_low_is_zero() {
    let fuses = Efuse { adc1_tp_low: 0, adc1_tp_high: 5, adc2_tp_low: 0, adc2_tp_high: 5, ..blank() };
    assert_eq!(fuses.get_adc1_two_point_cal(), None);
    assert_eq!(fuses.get_adc2_two_point_cal(), None);
}

#[test]
fn two_point_pair_absent_when_high_is_zero() {
    let fuses = Efuse { adc1_tp_low: 5, adc1_tp_high: 0, adc2_tp_low: 5, adc2_tp_high: 0, ..blank() };
    assert_eq!(fuses.get_adc1_two_point_cal(), None);
    assert_eq!(fuses.get_adc2_two_point_cal(), None);
}

#[test]
fn two_point_pair_of_unit_1() {
    let up = Efuse { adc1_tp_low: 0x01, adc1_tp_high: 0x001, ..blank() };
    assert_eq!(up.get_adc1_two_point_cal(), Some((282, 3269)));
    let down = Efuse { adc1_tp_low: 0x41, adc1_tp_high: 0x101, ..blank() };
    assert_eq!(down.get_adc1_two_point_cal(), Some((274, 3261)));
    let far = Efuse { adc1_tp_low: 0x3f, adc1_tp_high: 0x1ff, ..blank() };
    assert_eq!(far.get_adc1_two_point_cal(), Some((278 + 252, 3265 - 1020)));
}

#[test]
fn two_point_pair_of_unit_2() {
    let up = Efuse { adc2_tp_low: 0x01, adc2_tp_high: 0x001, ..blank() };
    assert_eq!(up.get_adc2_two_point_cal(), Some((425, 3410)));
    let far = Efuse { adc2_tp_low: 0x3f, adc2_tp_high: 0x0ff, ..blank() };
    assert_eq!(far.get_adc2_two_point_cal(), Some((673, 4426)));
}

#[test]
fn two_point_pairs_of_the_units_are_independent() {
    let fuses = Efuse { adc1_tp_low: 0x02, adc1_tp_high: 0x002, ..blank() };
    assert_eq!(fuses.get_adc1_two_point_cal(), Some((286, 3273)));
    assert_eq!(fuses.get_adc2_two_point_cal(), None);
    let fuses = Efuse { adc2_tp_low: 0x42, adc2_tp_high: 0x102, ..blank() };
    assert_eq!(fuses.get_adc1_two_point_cal(), None);
    assert_eq!(fuses.get_adc2_two_point_cal(), Some((413, 3398)));
}

#[test]
fn mac_address_is_reassembled_from_two_words() {
    let fuses = Efuse { mac_low: 0x1234_5678, mac_high: 0x00ab_cdef, ..blank() };
    assert_eq!(fuses.get_mac_address(), [0xcd, 0xef, 0x12, 0x34, 0x56, 0x78]);
}

#[test]
fn mac_address_ignores_the_checksum_byte() {
    let fuses = Efuse { mac_low: 0xa1b2_c3d4, mac_high: 0xff77_2430, ..blank() };
    assert_eq!(fuses.get_mac_address(), [0x24, 0x30, 0xa1, 0xb2, 0xc3, 0xd4]);
}

#[test]
fn core_count_follows_the_disable_bit() {
    assert_eq!(Efuse { app_cpu_disabled: true, ..blank() }.get_core_count(), 1);
    assert_eq!(Efuse { app_cpu_disabled: false, ..blank() }.get_core_count(), 2);
}

#[test]
fn max_frequency_is_low_only_with_both_bits() {
    assert_eq!(Efuse { cpu_freq_rated: true, cpu_freq_low: true, ..blank() }.get_max_cpu_fequency(), 160);
    assert_eq!(Efuse { cpu_freq_rated: true, cpu_freq_low: false, ..blank() }.get_max_cpu_fequency(), 240);
    assert_eq!(Efuse { cpu_freq_rated: false, cpu_freq_low: true, ..blank() }.get_max_cpu_fequency(), 240);
    assert_eq!(Efuse { cpu_freq_rated: false, cpu_freq_low: false, ..blank() }.get_max_cpu_fequency(), 240);
}

#[test]
fn bluetooth_is_enabled_unless_disabled() {
    assert!(Efuse { bluetooth_disabled: false, ..blank() }.is_bluetooth_enabled());
    assert!(!Efuse { bluetooth_disabled: true, ..blank() }.is_bluetooth_enabled());
}

#[test]
fn chip_version_table() {
    let chip = |package: u8| Efuse { chip_package: package, ..blank() }.get_chip_version();
    assert_eq!(chip(0), ChipType::ESP32D0WDQ6);
    assert_eq!(chip(1), ChipType::ESP32D0WDQ5);
    assert_eq!(chip(2), ChipType::ESP32D2WDQ5);
    assert_eq!(chip(3), ChipType::Unknown);
    assert_eq!(chip(4), ChipType::ESP32PICOD2);
    assert_eq!(chip(5), ChipType::ESP32PICOD4);
    assert_eq!(chip(6), ChipType::Unknown);
    assert_eq!(chip(7), ChipType::Unknown);
    assert_eq!(chip(200), ChipType::Unknown);
}

#[test]
fn whole_record_is_decoded() {
    let fuses = Efuse {
        mac_low: 0x1234_5678,
        mac_high: 0x00ab_cdef,
        app_cpu_disabled: true,
        cpu_freq_rated: true,
        cpu_freq_low: true,
        bluetooth_disabled: true,
        chip_package: 5,
        adc_vref: 0b10011,
        adc1_tp_low: 0x03,
        adc1_tp_high: 0x103,
        adc2_tp_low: 0,
        adc2_tp_high: 0x044,
    };
    let expected = CalibrationRecord {
        mac_address: [0xcd, 0xef, 0x12, 0x34, 0x56, 0x78],
        core_count: 1,
        max_frequency_mhz: 160,
        bluetooth_enabled: false,
        chip_variant: ChipType::ESP32PICOD4,
        reference_voltage_mv: Some(1079),
        two_point_cal: [Some((290, 3253)), None],
    };
    assert_eq!(fuses.decode(), expected);
}

#[test]
fn record_of_a_blank_fuse_block() {
    let expected = CalibrationRecord {
        mac_address: [0; 6],
        core_count: 2,
        max_frequency_mhz: 240,
        bluetooth_enabled: true,
        chip_variant: ChipType::ESP32D0WDQ6,
        reference_voltage_mv: None,
        two_point_cal: [None, None],
    };
    assert_eq!(blank().decode(), expected);
}
