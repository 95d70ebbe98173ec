use esp32_hal::adc::{
    conclude, entry, start_conversion, AdcError, ConversionState, Entry, ReadError, ReadSession,
    ADC,
};
use esp32_hal::channel::Adc1Pin;
use esp32_hal::config::{AdcConfig, Attenuation, Config, Resolution};
use esp32_hal::registers::{Field, RegisterOp};

fn op(field: Field, mask: u32, bits: u32) -> RegisterOp {
    RegisterOp { field, mask, bits }
}

fn start_ops(channel: u8) -> Vec<RegisterOp> {
    vec![
        op(Field::Sar1EnPad, 0xfff, 1 << channel),
        op(Field::Meas1StartSar, 1, 0),
        op(Field::Meas1StartSar, 1, 1),
    ]
}

fn unit_with(pins: &[Adc1Pin]) -> ADC {
    let mut config = AdcConfig::default();
    for pin in pins {
        config.enable_pin(*pin, Attenuation::Attenuation11dB);
    }
    let (adc, _) = ADC::adc1(config).unwrap();
    adc
}

#[test]
fn power_up_sequence_is_in_order() {
    let mut config = AdcConfig::default();
    config.resolution = Resolution::Resolution10Bit;
    config.enable_pin(Adc1Pin::Gpio39, Attenuation::Attenuation6dB);
    config.enable_pin(Adc1Pin::Gpio36, Attenuation::Attenuation11dB);
    config.enable_hall_sensor();
    let (adc, ops) = ADC::adc1(config).unwrap();
    let expected = vec![
        op(Field::Sar1BitWidth, 0x3, 1),
        op(Field::Sar1SampleBit, 0x3, 1),
        op(Field::Sar1Atten, 0b11, 0b11),
        op(Field::Sar1Atten, 0b1100_0000, 0b1000_0000),
        op(Field::Sar1DigForce, 1, 0),
        op(Field::Meas1StartForce, 1, 1),
        op(Field::Sar1EnPadForce, 1, 1),
        op(Field::XpdHallForce, 1, 1),
        op(Field::HallPhaseForce, 1, 1),
        op(Field::ForceXpdSar, 0x3, 0b11),
        op(Field::RtcIoXpdHall, 1, 1),
        op(Field::ForceXpdAmp, 0x3, 0b10),
        op(Field::AmpRstFbFsm, 0xf, 0),
        op(Field::AmpShortRefFsm, 0xf, 0),
        op(Field::AmpShortRefGndFsm, 0xf, 0),
        op(Field::SarAmpWait1, 0xffff, 1),
        op(Field::SarAmpWait2, 0xffff, 1),
        op(Field::SarAmpWait3, 0xffff, 1),
    ];
    assert_eq!(ops, expected);
    assert_eq!(*adc.settings(), config.conversion());
}

#[test]
fn power_up_of_default_config() {
    let (_, ops) = ADC::adc1(AdcConfig::default()).unwrap();
    assert_eq!(ops.len(), 16);
    assert_eq!(ops[0], op(Field::Sar1BitWidth, 0x3, 3));
    assert_eq!(ops[1], op(Field::Sar1SampleBit, 0x3, 3));
    assert_eq!(ops[2], op(Field::Sar1DigForce, 1, 0));
    assert_eq!(ops[8], op(Field::RtcIoXpdHall, 1, 0));
}

#[test]
fn power_up_steps_one_by_one() {
    assert_eq!(
        ADC::set_resolution(Resolution::Resolution9Bit),
        vec![op(Field::Sar1BitWidth, 0x3, 0), op(Field::Sar1SampleBit, 0x3, 0)]
    );
    assert_eq!(
        ADC::set_resolution(Resolution::Resolution11Bit),
        vec![op(Field::Sar1BitWidth, 0x3, 2), op(Field::Sar1SampleBit, 0x3, 2)]
    );
    assert_eq!(ADC::set_power(), vec![op(Field::ForceXpdSar, 0x3, 0b11)]);
    assert_eq!(ADC::set_hall(true), vec![op(Field::RtcIoXpdHall, 1, 1)]);
    assert_eq!(ADC::set_hall(false), vec![op(Field::RtcIoXpdHall, 1, 0)]);
    assert_eq!(ADC::set_controller().len(), 5);
    assert_eq!(ADC::set_amp().len(), 7);
}

#[test]
fn attenuation_goes_to_the_slot_of_the_channel() {
    let mut table = [None; 10];
    table[0] = Some(Attenuation::Attenuation0dB);
    table[3] = Some(Attenuation::Attenuation2p5dB);
    table[7] = Some(Attenuation::Attenuation6dB);
    table[9] = Some(Attenuation::Attenuation11dB);
    let expected = vec![
        op(Field::Sar1Atten, 0b11, 0b00),
        op(Field::Sar1Atten, 0b11 << 6, 0b01 << 6),
        op(Field::Sar1Atten, 0b11 << 14, 0b10 << 14),
        op(Field::Sar1Atten, 0b11 << 18, 0b11 << 18),
    ];
    assert_eq!(ADC::set_attenuation(table), expected);
    assert_eq!(ADC::set_attenuation([None; 10]), vec![]);
}

#[test]
fn attenuation_op_changes_its_slot_only() {
    let table = {
        let mut table = [None; 10];
        table[2] = Some(Attenuation::Attenuation2p5dB);
        table
    };
    let ops = ADC::set_attenuation(table);
    assert_eq!(ops.len(), 1);
    assert_eq!(ops[0].apply(0xffff_ffff), 0xffff_ffdf);
    assert_eq!(ops[0].apply(0), 0x10);
}

#[test]
fn entry_by_state() {
    let mut settings = Config::default();
    settings.enable_pin(0, Attenuation::Attenuation0dB);
    settings.enable_pin(3, Attenuation::Attenuation0dB);
    assert_eq!(entry(&settings, None, 0), Err(ReadError::WouldBlock));
    assert_eq!(entry(&settings, Some(ConversionState::Idle), 0), Ok(Entry::Start));
    assert_eq!(entry(&settings, Some(ConversionState::Pending(0)), 0), Ok(Entry::Resume));
    assert_eq!(entry(&settings, Some(ConversionState::Pending(3)), 0), Err(ReadError::WouldBlock));
    assert_eq!(entry(&settings, Some(ConversionState::Pending(0)), 3), Err(ReadError::WouldBlock));
}

#[test]
fn entry_refuses_unconfigured_channel_in_every_state() {
    let mut settings = Config::default();
    settings.enable_pin(0, Attenuation::Attenuation0dB);
    let refused = Err(ReadError::Other(AdcError::UnconfiguredChannel));
    assert_eq!(entry(&settings, None, 1), refused);
    assert_eq!(entry(&settings, Some(ConversionState::Idle), 1), refused);
    assert_eq!(entry(&settings, Some(ConversionState::Pending(0)), 1), refused);
    assert_eq!(entry(&settings, Some(ConversionState::Pending(1)), 1), refused);
    assert_eq!(entry(&settings, Some(ConversionState::Idle), 10), refused);
    assert_eq!(entry(&settings, Some(ConversionState::Idle), 255), refused);
}

#[test]
fn conclude_by_state() {
    assert_eq!(conclude(ConversionState::Pending(4), true, 1234), (ConversionState::Idle, Ok(1234)));
    assert_eq!(
        conclude(ConversionState::Pending(4), false, 1234),
        (ConversionState::Pending(4), Err(ReadError::WouldBlock))
    );
    assert_eq!(
        conclude(ConversionState::Idle, true, 1234),
        (ConversionState::Idle, Err(ReadError::WouldBlock))
    );
    assert_eq!(
        conclude(ConversionState::Idle, false, 1234),
        (ConversionState::Idle, Err(ReadError::WouldBlock))
    );
}

#[test]
fn conclude_hands_the_data_field_out_as_it_came() {
    for raw in [0u16, 1, 511, 512, 1234, 4095, 4096, 0xffff] {
        assert_eq!(conclude(ConversionState::Pending(0), true, raw), (ConversionState::Idle, Ok(raw)));
    }
}

#[test]
fn start_conversion_enables_the_pad_then_pulses() {
    assert_eq!(start_conversion(0), start_ops(0));
    assert_eq!(start_conversion(7), start_ops(7));
    assert_eq!(start_conversion(11), start_ops(11));
    assert_eq!(
        start_conversion(12),
        vec![op(Field::Sar1EnPad, 0xfff, 0), op(Field::Meas1StartSar, 1, 0), op(Field::Meas1StartSar, 1, 1)]
    );
}

#[test]
fn slot_and_state_correspond() {
    assert_eq!(ConversionState::from_slot(None), ConversionState::Idle);
    assert_eq!(ConversionState::from_slot(Some(5)), ConversionState::Pending(5));
    assert_eq!(ConversionState::Idle.slot(), None);
    assert_eq!(ConversionState::Pending(5).slot(), Some(5));
}

#[test]
fn read_of_unconfigured_channel_is_refused() {
    let adc = unit_with(&[Adc1Pin::Gpio36]);
    assert!(matches!(
        adc.begin_read(Adc1Pin::Gpio37.channel()),
        Err(ReadError::Other(AdcError::UnconfiguredChannel))
    ));
    assert!(matches!(adc.begin_read(200), Err(ReadError::Other(AdcError::UnconfiguredChannel))));
    assert_eq!(
        adc.read(1, |_| panic!("the hardware is not to be touched")),
        Err(ReadError::Other(AdcError::UnconfiguredChannel))
    );
}

#[test]
fn first_read_starts_a_conversion() {
    let adc = unit_with(&[Adc1Pin::Gpio36, Adc1Pin::Gpio39]);
    let mut session = adc.begin_read(3).unwrap();
    assert_eq!(session.channel(), 3);
    assert_eq!(session.state(), ConversionState::Pending(3));
    assert_eq!(session.take_start_ops(), start_ops(3));
    assert_eq!(session.take_start_ops(), vec![]);
    assert_eq!(session.complete(false, 0), Err(ReadError::WouldBlock));
    assert_eq!(session.state(), ConversionState::Pending(3));
}

#[test]
fn repeated_read_does_not_start_again() {
    let adc = unit_with(&[Adc1Pin::Gpio36]);
    {
        let mut session = adc.begin_read(0).unwrap();
        assert_eq!(session.take_start_ops(), start_ops(0));
        assert_eq!(session.complete(false, 0), Err(ReadError::WouldBlock));
    }
    for _ in 0..5 {
        let mut session = adc.begin_read(0).unwrap();
        assert_eq!(session.state(), ConversionState::Pending(0));
        assert_eq!(session.take_start_ops(), vec![]);
        assert_eq!(session.complete(false, 0), Err(ReadError::WouldBlock));
    }
    {
        let mut session = adc.begin_read(0).unwrap();
        assert_eq!(session.take_start_ops(), vec![]);
        assert_eq!(session.complete(true, 2047), Ok(2047));
        assert_eq!(session.state(), ConversionState::Idle);
    }
    let mut session = adc.begin_read(0).unwrap();
    assert_eq!(session.take_start_ops(), start_ops(0));
}

#[test]
fn other_channel_would_block_until_the_sample_is_out() {
    let adc = unit_with(&[Adc1Pin::Gpio36, Adc1Pin::Gpio37]);
    {
        let mut session = adc.begin_read(0).unwrap();
        assert_eq!(session.take_start_ops(), start_ops(0));
        assert_eq!(session.complete(false, 0), Err(ReadError::WouldBlock));
    }
    assert!(matches!(adc.begin_read(1), Err(ReadError::WouldBlock)));
    assert!(matches!(adc.begin_read(1), Err(ReadError::WouldBlock)));
    {
        let mut session = adc.begin_read(0).unwrap();
        assert_eq!(session.take_start_ops(), vec![]);
        assert_eq!(session.complete(true, 77), Ok(77));
    }
    let mut session = adc.begin_read(1).unwrap();
    assert_eq!(session.take_start_ops(), start_ops(1));
    assert_eq!(session.complete(true, 88), Ok(88));
}

#[test]
fn held_guard_keeps_every_read_out() {
    let adc = unit_with(&[Adc1Pin::Gpio36, Adc1Pin::Gpio37]);
    let mut session = adc.begin_read(0).unwrap();
    assert!(matches!(adc.begin_read(0), Err(ReadError::WouldBlock)));
    assert!(matches!(adc.begin_read(1), Err(ReadError::WouldBlock)));
    assert!(matches!(
        adc.begin_read(2),
        Err(ReadError::Other(AdcError::UnconfiguredChannel))
    ));
    assert_eq!(session.take_start_ops(), start_ops(0));
    assert_eq!(session.complete(true, 5), Ok(5));
    assert!(matches!(adc.begin_read(1), Err(ReadError::WouldBlock)));
    drop(session);
    assert!(adc.begin_read(1).is_ok());
}

#[test]
fn abandoned_conversion_keeps_the_unit() {
    let adc = unit_with(&[Adc1Pin::Gpio36, Adc1Pin::Gpio37]);
    drop(adc.begin_read(0).unwrap());
    for _ in 0..3 {
        assert!(matches!(adc.begin_read(1), Err(ReadError::WouldBlock)));
    }
    let mut session = adc.begin_read(0).unwrap();
    assert_eq!(session.take_start_ops(), vec![]);
}

#[test]
fn session_that_is_over_gives_no_second_sample() {
    let adc = unit_with(&[Adc1Pin::Gpio36]);
    let mut session = adc.begin_read(0).unwrap();
    assert_eq!(session.complete(true, 9), Ok(9));
    assert_eq!(session.complete(true, 9), Err(ReadError::WouldBlock));
    assert_eq!(session.state(), ConversionState::Idle);
}

#[test]
fn sample_of_a_read_is_the_data_field_as_it_came() {
    for resolution in [
        Resolution::Resolution9Bit,
        Resolution::Resolution10Bit,
        Resolution::Resolution11Bit,
        Resolution::Resolution12Bit,
    ] {
        let mut config = AdcConfig::default();
        config.resolution = resolution;
        config.enable_pin(Adc1Pin::Gpio36, Attenuation::Attenuation0dB);
        let (adc, _) = ADC::adc1(config).unwrap();
        let mut session = adc.begin_read(0).unwrap();
        assert_eq!(session.complete(true, 1234), Ok(1234));
        drop(session);
        assert_eq!(adc.read(0, |_| (true, 0x0fff)), Ok(0x0fff));
        assert_eq!(adc.read(0, |_| (true, 0xffff)), Ok(0xffff));
    }
}

#[test]
fn polled_channel_blocks_until_done_and_starts_once() {
    for refusals in 0..6 {
        let adc = unit_with(&[Adc1Pin::Gpio33]);
        let mut starts = 0;
        for poll in 0..refusals {
            let outcome = adc.read(4, |ops| {
                if !ops.is_empty() {
                    assert_eq!(ops, start_ops(4));
                    assert_eq!(poll, 0);
                    starts += 1;
                }
                (false, 1234)
            });
            assert_eq!(outcome, Err(ReadError::WouldBlock));
        }
        let outcome = adc.read(4, |ops| {
            if !ops.is_empty() {
                assert_eq!(ops, start_ops(4));
                assert_eq!(refusals, 0);
                starts += 1;
            }
            (true, 1234)
        });
        assert_eq!(outcome, Ok(1234));
        assert_eq!(starts, 1);
        assert_eq!(adc.begin_read(4).unwrap().take_start_ops(), start_ops(4));
    }
}

fn settings_with(channels: &[u8]) -> Config {
    let mut settings = Config::default();
    for channel in channels {
        settings.enable_pin(*channel, Attenuation::Attenuation0dB);
    }
    settings
}

#[test]
fn entering_an_idle_unit_starts_a_conversion() {
    let settings = settings_with(&[0, 3]);
    let lock = spin::Mutex::new(None);
    {
        let mut session = ReadSession::enter(&settings, lock.try_lock().unwrap(), 3).unwrap();
        assert_eq!(session.channel(), 3);
        assert_eq!(session.state(), ConversionState::Pending(3));
        assert_eq!(session.take_start_ops(), start_ops(3));
        assert!(lock.try_lock().is_none());
    }
    assert_eq!(*lock.try_lock().unwrap(), Some(3));
}

#[test]
fn entering_a_unit_busy_with_the_same_channel_resumes() {
    let settings = settings_with(&[0, 3]);
    let lock = spin::Mutex::new(Some(3));
    {
        let mut session = ReadSession::enter(&settings, lock.try_lock().unwrap(), 3).unwrap();
        assert_eq!(session.state(), ConversionState::Pending(3));
        assert_eq!(session.take_start_ops(), vec![]);
        assert_eq!(session.complete(false, 7), Err(ReadError::WouldBlock));
    }
    assert_eq!(*lock.try_lock().unwrap(), Some(3));
    {
        let mut session = ReadSession::enter(&settings, lock.try_lock().unwrap(), 3).unwrap();
        assert_eq!(session.complete(true, 7), Ok(7));
    }
    assert_eq!(*lock.try_lock().unwrap(), None);
}

#[test]
fn entering_a_unit_busy_with_another_channel_is_turned_away() {
    let settings = settings_with(&[0, 3]);
    let lock = spin::Mutex::new(Some(3));
    assert!(matches!(
        ReadSession::enter(&settings, lock.try_lock().unwrap(), 0),
        Err(ReadError::WouldBlock)
    ));
    assert_eq!(*lock.try_lock().unwrap(), Some(3));
}

#[test]
fn entering_with_an_unconfigured_channel_is_refused() {
    let settings = settings_with(&[0, 3]);
    for slot in [None, Some(0), Some(1), Some(3)] {
        let lock = spin::Mutex::new(slot);
        assert!(matches!(
            ReadSession::enter(&settings, lock.try_lock().unwrap(), 1),
            Err(ReadError::Other(AdcError::UnconfiguredChannel))
        ));
        assert_eq!(*lock.try_lock().unwrap(), slot);
    }
}

#[test]
fn whole_read_through_the_hardware() {
    let adc = unit_with(&[Adc1Pin::Gpio36, Adc1Pin::Gpio37]);
    let mut seen: Vec<Vec<RegisterOp>> = Vec::new();
    assert_eq!(
        adc.read(0, |ops| {
            seen.push(ops);
            (false, 0)
        }),
        Err(ReadError::WouldBlock)
    );
    assert_eq!(
        adc.read(1, |ops| {
            seen.push(ops);
            (true, 1)
        }),
        Err(ReadError::WouldBlock)
    );
    assert_eq!(
        adc.read(0, |ops| {
            seen.push(ops);
            (false, 0)
        }),
        Err(ReadError::WouldBlock)
    );
    assert_eq!(
        adc.read(0, |ops| {
            seen.push(ops);
            (true, 4095)
        }),
        Ok(4095)
    );
    assert_eq!(
        adc.read(1, |ops| {
            seen.push(ops);
            (true, 17)
        }),
        Ok(17)
    );
    assert_eq!(seen, vec![start_ops(0), vec![], vec![], start_ops(1)]);
}

struct FakeRegisters {
    fields: Vec<(Field, u32)>,
}

impl FakeRegisters {
    fn new() -> Self {
        FakeRegisters { fields: Vec::new() }
    }

    fn get(&self, field: Field) -> u32 {
        self.fields.iter().find(|(f, _)| *f == field).map(|(_, v)| *v).unwrap_or(0)
    }

    fn set(&mut self, field: Field, value: u32) {
        match self.fields.iter_mut().find(|(f, _)| *f == field) {
            Some(entry) => entry.1 = value,
            None => self.fields.push((field, value)),
        }
    }

    fn run(&mut self, ops: &[RegisterOp]) {
        for op in ops {
            let old = self.get(op.field);
            self.set(op.field, op.apply(old));
        }
    }
}

#[test]
fn power_up_leaves_the_configuration_in_the_registers() {
    let mut registers = FakeRegisters::new();
    registers.set(Field::Sar1Atten, 0xffff_ffff);
    registers.set(Field::Sar1DigForce, 1);
    registers.set(Field::Sar1BitWidth, 3);
    registers.set(Field::ForceXpdAmp, 3);
    registers.set(Field::SarAmpWait3, 0xffff);
    registers.set(Field::Sar1EnPad, 0x5a5);
    let mut config = AdcConfig::default();
    config.resolution = Resolution::Resolution11Bit;
    config.enable_pin(Adc1Pin::Gpio37, Attenuation::Attenuation0dB);
    config.enable_pin(Adc1Pin::Gpio35, Attenuation::Attenuation6dB);
    let (_, ops) = ADC::adc1(config).unwrap();
    registers.run(&ops);
    assert_eq!(registers.get(Field::Sar1BitWidth), 2);
    assert_eq!(registers.get(Field::Sar1SampleBit), 2);
    assert_eq!(registers.get(Field::Sar1Atten), 0xffff_bff3);
    assert_eq!(registers.get(Field::Sar1DigForce), 0);
    assert_eq!(registers.get(Field::Meas1StartForce), 1);
    assert_eq!(registers.get(Field::Sar1EnPadForce), 1);
    assert_eq!(registers.get(Field::XpdHallForce), 1);
    assert_eq!(registers.get(Field::HallPhaseForce), 1);
    assert_eq!(registers.get(Field::ForceXpdSar), 0b11);
    assert_eq!(registers.get(Field::RtcIoXpdHall), 0);
    assert_eq!(registers.get(Field::ForceXpdAmp), 0b10);
    assert_eq!(registers.get(Field::AmpRstFbFsm), 0);
    assert_eq!(registers.get(Field::AmpShortRefFsm), 0);
    assert_eq!(registers.get(Field::AmpShortRefGndFsm), 0);
    assert_eq!(registers.get(Field::SarAmpWait1), 1);
    assert_eq!(registers.get(Field::SarAmpWait2), 1);
    assert_eq!(registers.get(Field::SarAmpWait3), 1);
    assert_eq!(registers.get(Field::Sar1EnPad), 0x5a5);
    assert_eq!(registers.get(Field::Meas1StartSar), 0);
}

#[test]
fn start_of_a_conversion_enables_one_pad() {
    let mut registers = FakeRegisters::new();
    registers.set(Field::Sar1EnPad, 0xfff);
    registers.set(Field::Meas1StartSar, 1);
    registers.run(&start_conversion(5));
    assert_eq!(registers.get(Field::Sar1EnPad), 1 << 5);
    assert_eq!(registers.get(Field::Meas1StartSar), 1);
    registers.run(&start_conversion(0));
    assert_eq!(registers.get(Field::Sar1EnPad), 1);
    assert_eq!(registers.get(Field::Meas1StartSar), 1);
}
