use rctrl::adc::ads101x::{
    decode_raw_sample, ADS101x, CompLatch, CompMode, CompPolarity, CompQueue, Config,
    ConfigOutcome, DataRate, Mode, Mux, Os, Pga, CONFIG_REG, CONVERSION_REG, HI_THRESH_REG,
    LO_THRESH_REG,
};
use rctrl::api::sensor::{Pressure, PressureUnit};
use rctrl::sensor::{KellerPA7LC, Sensor};

const ALL_OS: [Os; 2] = [Os::Off, Os::On];
const ALL_MUX: [Mux; 8] = [
    Mux::Ain0Ain1,
    Mux::Ain0Ain3,
    Mux::Ain1Ain3,
    Mux::Ain2Ain3,
    Mux::Ain0Gnd,
    Mux::Ain1Gnd,
    Mux::Ain2Gnd,
    Mux::Ain3Gnd,
];
const ALL_PGA: [Pga; 6] = [
    Pga::Fsr6_144V,
    Pga::Fsr4_096V,
    Pga::Fsr2_048V,
    Pga::Fsr1_024V,
    Pga::Fsr0_512V,
    Pga::Fsr0_256V,
];
const ALL_MODE: [Mode; 2] = [Mode::Continuous, Mode::SingleShot];
const ALL_DATA_RATE: [DataRate; 7] = [
    DataRate::Sps128,
    DataRate::Sps250,
    DataRate::Sps490,
    DataRate::Sps920,
    DataRate::Sps1600,
    DataRate::Sps2400,
    DataRate::Sps3300,
];
const ALL_COMP_MODE: [CompMode; 2] = [CompMode::Traditional, CompMode::Window];
const ALL_COMP_POLARITY: [CompPolarity; 2] = [CompPolarity::ActiveLow, CompPolarity::ActiveHigh];
const ALL_COMP_LATCH: [CompLatch; 2] = [CompLatch::Nonlatching, CompLatch::Latching];
const ALL_COMP_QUEUE: [CompQueue; 4] = [
    CompQueue::OneConversion,
    CompQueue::TwoConversion,
    CompQueue::FourConversion,
    CompQueue::Disable,
];

/// The transfer word of a conversion register value: the device sends the
/// high byte first and the bus reads the low byte first.
fn transfer(register: u16) -> u16 {
    register.swap_bytes()
}

#[test]
fn register_addresses() {
    assert_eq!(CONVERSION_REG, 0);
    assert_eq!(CONFIG_REG, 1);
    assert_eq!(LO_THRESH_REG, 2);
    assert_eq!(HI_THRESH_REG, 3);
}

#[test]
fn default_config_is_reset_value() {
    let config = Config::default();
    assert_eq!(config.os, Os::On);
    assert_eq!(config.mux, Mux::Ain0Ain1);
    assert_eq!(config.pga, Pga::Fsr2_048V);
    assert_eq!(config.mode, Mode::SingleShot);
    assert_eq!(config.data_rate, DataRate::Sps1600);
    assert_eq!(config.comp_mode, CompMode::Traditional);
    assert_eq!(config.comp_polarity, CompPolarity::ActiveLow);
    assert_eq!(config.comp_latch, CompLatch::Nonlatching);
    assert_eq!(config.comp_queue, CompQueue::Disable);
    assert_eq!(u16::from(config), 0x8583);
    assert_eq!(Config::from(0x8583), config);
}

#[test]
fn field_defaults() {
    assert_eq!(Os::default(), Os::On);
    assert_eq!(Mux::default(), Mux::Ain0Ain1);
    assert_eq!(Pga::default(), Pga::Fsr2_048V);
    assert_eq!(Mode::default(), Mode::SingleShot);
    assert_eq!(DataRate::default(), DataRate::Sps1600);
    assert_eq!(CompMode::default(), CompMode::Traditional);
    assert_eq!(CompPolarity::default(), CompPolarity::ActiveLow);
    assert_eq!(CompLatch::default(), CompLatch::Nonlatching);
    assert_eq!(CompQueue::default(), CompQueue::Disable);
}

#[test]
fn encode_places_each_field() {
    let zero = Config::from(0x0000);
    assert_eq!(u16::from(zero), 0x0000);
    assert_eq!(u16::from(zero.with_os(Os::On)), 0x8000);
    assert_eq!(u16::from(zero.with_mux(Mux::Ain3Gnd)), 0x7000);
    assert_eq!(u16::from(zero.with_mux(Mux::Ain0Ain3)), 0x1000);
    assert_eq!(u16::from(zero.with_pga(Pga::Fsr0_256V)), 0x0A00);
    assert_eq!(u16::from(zero.with_pga(Pga::Fsr4_096V)), 0x0200);
    assert_eq!(u16::from(zero.with_mode(Mode::SingleShot)), 0x0100);
    assert_eq!(u16::from(zero.with_data_rate(DataRate::Sps3300)), 0x00C0);
    assert_eq!(u16::from(zero.with_comp_mode(CompMode::Window)), 0x0010);
    assert_eq!(u16::from(zero.with_comp_polarity(CompPolarity::ActiveHigh)), 0x0008);
    assert_eq!(u16::from(zero.with_comp_latch(CompLatch::Latching)), 0x0004);
    assert_eq!(u16::from(zero.with_comp_queue(CompQueue::Disable)), 0x0003);
    assert_eq!(u16::from(zero.with_comp_queue(CompQueue::FourConversion)), 0x0002);
}

#[test]
fn field_bits() {
    assert_eq!(Os::On.bits(), 1);
    assert_eq!(Mux::Ain2Gnd.bits(), 6);
    assert_eq!(Pga::Fsr0_256V.bits(), 5);
    assert_eq!(Mode::Continuous.bits(), 0);
    assert_eq!(DataRate::Sps3300.bits(), 6);
    assert_eq!(CompMode::Window.bits(), 1);
    assert_eq!(CompPolarity::ActiveHigh.bits(), 1);
    assert_eq!(CompLatch::Latching.bits(), 1);
    assert_eq!(CompQueue::Disable.bits(), 3);
}

#[test]
fn decode_reads_each_field() {
    assert_eq!(Os::from(0x8000), Os::On);
    assert_eq!(Os::from(0x7FFF), Os::Off);
    assert_eq!(Mux::from(0x5000), Mux::Ain1Gnd);
    assert_eq!(Mux::from(0x8FFF), Mux::Ain0Ain1);
    assert_eq!(Pga::from(0x0600), Pga::Fsr1_024V);
    assert_eq!(Mode::from(0x0100), Mode::SingleShot);
    assert_eq!(Mode::from(0xFEFF), Mode::Continuous);
    assert_eq!(DataRate::from(0x0040), DataRate::Sps490);
    assert_eq!(CompMode::from(0x0010), CompMode::Window);
    assert_eq!(CompPolarity::from(0x0008), CompPolarity::ActiveHigh);
    assert_eq!(CompLatch::from(0x0004), CompLatch::Latching);
    assert_eq!(CompQueue::from(0x0001), CompQueue::TwoConversion);
    assert_eq!(CompQueue::from(0xFFFC), CompQueue::OneConversion);
}

#[test]
fn reserved_patterns_read_as_last_defined() {
    assert_eq!(Pga::from(0x0A00), Pga::Fsr0_256V);
    assert_eq!(Pga::from(0x0C00), Pga::Fsr0_256V);
    assert_eq!(Pga::from(0x0E00), Pga::Fsr0_256V);
    assert_eq!(DataRate::from(0x00C0), DataRate::Sps3300);
    assert_eq!(DataRate::from(0x00E0), DataRate::Sps3300);
    let config = Config::from(0xFFFF);
    assert_eq!(config.pga, Pga::Fsr0_256V);
    assert_eq!(config.data_rate, DataRate::Sps3300);
    assert_eq!(u16::from(config), 0xFBDF);
}

#[test]
fn config_round_trip_every_combination() {
    let mut count = 0;
    for os in ALL_OS {
        for mux in ALL_MUX {
            for pga in ALL_PGA {
                for mode in ALL_MODE {
                    for data_rate in ALL_DATA_RATE {
                        for comp_mode in ALL_COMP_MODE {
                            for comp_polarity in ALL_COMP_POLARITY {
                                for comp_latch in ALL_COMP_LATCH {
                                    for comp_queue in ALL_COMP_QUEUE {
                                        let config = Config::default()
                                            .with_os(os)
                                            .with_mux(mux)
                                            .with_pga(pga)
                                            .with_mode(mode)
                                            .with_data_rate(data_rate)
                                            .with_comp_mode(comp_mode)
                                            .with_comp_polarity(comp_polarity)
                                            .with_comp_latch(comp_latch)
                                            .with_comp_queue(comp_queue);
                                        assert_eq!(config.mux, mux);
                                        assert_eq!(config.comp_queue, comp_queue);
                                        assert_eq!(Config::from(u16::from(config)), config);
                                        count += 1;
                                    }
                                }
                            }
                        }
                    }
                }
            }
        }
    }
    assert_eq!(count, 2 * 8 * 6 * 2 * 7 * 2 * 2 * 2 * 4);
}

#[test]
fn with_methods_replace_one_field() {
    let config = Config::default().with_pga(Pga::Fsr6_144V);
    assert_eq!(config.pga, Pga::Fsr6_144V);
    assert_eq!(config.os, Os::On);
    assert_eq!(config.data_rate, DataRate::Sps1600);
    assert_eq!(u16::from(config), 0x8183);
}

#[test]
fn lsb_table() {
    assert_eq!(Pga::Fsr6_144V.lsb_microvolts(), 3000);
    assert_eq!(Pga::Fsr4_096V.lsb_microvolts(), 2000);
    assert_eq!(Pga::Fsr2_048V.lsb_microvolts(), 1000);
    assert_eq!(Pga::Fsr1_024V.lsb_microvolts(), 500);
    assert_eq!(Pga::Fsr0_512V.lsb_microvolts(), 250);
    assert_eq!(Pga::Fsr0_256V.lsb_microvolts(), 125);
}

#[test]
fn raw_sample_sign_extension() {
    assert_eq!(decode_raw_sample(transfer(0x0000)), 0);
    assert_eq!(decode_raw_sample(transfer(0x0010)), 1);
    assert_eq!(decode_raw_sample(transfer(0x7FF0)), 2047);
    assert_eq!(decode_raw_sample(transfer(0x8000)), -2048);
    assert_eq!(decode_raw_sample(transfer(0xFFF0)), -1);
    assert_eq!(decode_raw_sample(transfer(0x3E80)), 1000);
    assert_eq!(decode_raw_sample(transfer(0xC180)), -1000);
    assert_eq!(decode_raw_sample(0xF07F), 2047);
    assert_eq!(decode_raw_sample(0x0080), -2048);
}

#[test]
fn raw_sample_ignores_low_nibble() {
    assert_eq!(decode_raw_sample(transfer(0x3E8F)), 1000);
    assert_eq!(decode_raw_sample(transfer(0xC187)), -1000);
}

#[test]
fn raw_sample_range_and_linearity_every_word() {
    for register in 0..=u16::MAX {
        let counts = decode_raw_sample(transfer(register));
        assert!((-2048..=2047).contains(&counts));
        let pattern = (register >> 4) as i32;
        let expected = if pattern >= 2048 { pattern - 4096 } else { pattern };
        assert_eq!(counts as i32, expected);
    }
}

#[test]
fn read_raw_scales_by_gain() {
    let adc = ADS101x::new(0x8583);
    assert_eq!(adc.current().pga, Pga::Fsr2_048V);
    assert_eq!(adc.read_raw(transfer(0x3E80)), 1_000_000);
    assert_eq!(adc.read_raw(transfer(0xC180)), -1_000_000);
    assert_eq!(adc.read_raw(transfer(0x3E80)) as f64 / 1e6, 1.0);
    assert_eq!(adc.read_raw(transfer(0xC180)) as f64 / 1e6, -1.0);
    let wide = ADS101x::new(u16::from(Config::default().with_pga(Pga::Fsr6_144V)));
    assert_eq!(wide.read_raw(transfer(0x7FF0)), 6_141_000);
    assert_eq!(wide.read_raw(transfer(0x8000)), -6_144_000);
    let narrow = ADS101x::new(u16::from(Config::default().with_pga(Pga::Fsr0_256V)));
    assert_eq!(narrow.read_raw(transfer(0x0010)), 125);
}

#[test]
fn adapter_mirrors_what_the_device_reports() {
    let mut adc = ADS101x::new(0x8583);
    assert_eq!(adc.current(), Config::default());
    let wanted = Config::default().with_mux(Mux::Ain0Ain3).with_pga(Pga::Fsr4_096V);
    assert_eq!(adc.config(wanted, u16::from(wanted)), ConfigOutcome::Confirmed);
    assert_eq!(adc.current(), wanted);
    // A device without a multiplexer reports the field as it was.
    let reported = Config::default().with_pga(Pga::Fsr4_096V);
    assert_eq!(adc.config(wanted, u16::from(reported)), ConfigOutcome::Mismatch);
    assert_eq!(adc.current(), reported);
    assert_eq!(adc.read_raw(transfer(0x0010)), 2000);
}

#[test]
fn sensor_conversion_zero_volts() {
    let sensor = KellerPA7LC::new();
    let reading = sensor.conversion(0);
    assert_eq!(reading, Pressure { microbar: 0, unit: PressureUnit::Bar });
    assert_eq!(reading.microbar as f64 / 1e6, 0.0);
}

#[test]
fn sensor_conversion_one_volt_per_bar() {
    let sensor = KellerPA7LC::new();
    assert_eq!(sensor.conversion(1_500_000), Pressure { microbar: 1_500_000, unit: PressureUnit::Bar });
    assert_eq!(sensor.conversion(-125), Pressure { microbar: -125, unit: PressureUnit::Bar });
}

#[test]
fn adapter_read_goes_through_the_sensor() {
    let adc = ADS101x::new(0x8583);
    let sensor = KellerPA7LC::new();
    assert_eq!(
        adc.read(transfer(0x3E80), &sensor),
        Pressure { microbar: 1_000_000, unit: PressureUnit::Bar }
    );
    assert_eq!(adc.read(transfer(0x0000), &sensor), Pressure { microbar: 0, unit: PressureUnit::Bar });
}
