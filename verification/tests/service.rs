use rctrl::adc::ads101x::{Config, ConfigOutcome, Mux, Os};
use rctrl::api::remote::{Cmd, CmdEnum, Data};
use rctrl::api::sensor::{Pressure, PressureUnit};
use rctrl::context::{Context, Sensors, ADC};
use rctrl::gui::{DataFrameRemote, LoggerApp, TelemetryApp};
use rctrl::wire::{decode_cmd, encode_cmd, ws_read, DecodeError, Inbound};

const OPEN: Cmd = Cmd { cmd: CmdEnum::ValveOpen };
const CLOSE: Cmd = Cmd { cmd: CmdEnum::ValveClose };

#[test]
fn command_bytes() {
    assert_eq!(encode_cmd(&OPEN), vec![0, 0, 0, 0]);
    assert_eq!(encode_cmd(&CLOSE), vec![1, 0, 0, 0]);
}

#[test]
fn command_round_trip() {
    for cmd in [OPEN, CLOSE] {
        assert_eq!(decode_cmd(&encode_cmd(&cmd)), Ok(cmd));
    }
}

#[test]
fn command_from_bytes() {
    assert_eq!(decode_cmd(&[0, 0, 0, 0]), Ok(OPEN));
    assert_eq!(decode_cmd(&[1, 0, 0, 0]), Ok(CLOSE));
    // Bytes after the directive are left unread.
    assert_eq!(decode_cmd(&[1, 0, 0, 0, 9, 9]), Ok(CLOSE));
}

#[test]
fn malformed_commands() {
    assert_eq!(decode_cmd(&[]), Err(DecodeError::Truncated));
    assert_eq!(decode_cmd(&[1, 0, 0]), Err(DecodeError::Truncated));
    assert_eq!(decode_cmd(&[2, 0, 0, 0]), Err(DecodeError::UnknownDirective(2)));
    assert_eq!(decode_cmd(&[0, 1, 0, 0]), Err(DecodeError::UnknownDirective(256)));
    assert_eq!(decode_cmd(&[0, 0, 0, 1]), Err(DecodeError::UnknownDirective(16777216)));
    assert_eq!(decode_cmd(&[255, 255, 255, 255]), Err(DecodeError::UnknownDirective(u32::MAX)));
}

#[test]
fn read_loop_decisions() {
    assert_eq!(ws_read(true, &[0, 0, 0, 0]), Inbound::Forward(OPEN));
    assert_eq!(ws_read(true, &[1, 0, 0, 0]), Inbound::Forward(CLOSE));
    assert_eq!(ws_read(true, &[7, 0, 0, 0]), Inbound::Rejected(DecodeError::UnknownDirective(7)));
    assert_eq!(ws_read(true, &[1]), Inbound::Rejected(DecodeError::Truncated));
    assert_eq!(ws_read(false, &[1, 0, 0, 0]), Inbound::Ignored);
    assert_eq!(ws_read(false, &[]), Inbound::Ignored);
}

#[test]
fn startup_configuration() {
    let config = ADC::startup_config();
    assert_eq!(config, Config::default().with_os(Os::On).with_mux(Mux::Ain0Ain3));
    assert_eq!(u16::from(config), 0x9583);
    let (adc, outcome) = ADC::new(0x8583, 0x9583);
    assert_eq!(outcome, ConfigOutcome::Confirmed);
    assert_eq!(adc.fc_ads1014_no1.current(), config);
    // A device without a multiplexer keeps the field at zero.
    let (adc, outcome) = ADC::new(0x8583, 0x8583);
    assert_eq!(outcome, ConfigOutcome::Mismatch);
    assert_eq!(adc.fc_ads1014_no1.current(), Config::default());
    let sensors = Sensors::new();
    assert_eq!(adc.fc_ads1014_no1.read(0x803E, &sensors.pressure).microbar, 1_000_000);
}

#[test]
fn tick_without_command() {
    let (mut context, _) = Context::new(0x8583, 0x9583);
    let data: Data = context.run(None, Some(0x803E));
    assert_eq!(data.sensor, Some(Pressure { microbar: 1_000_000, unit: PressureUnit::Bar }));
    assert_eq!(data.valve, None);
    assert_eq!(data.log_msg, None);
}

#[test]
fn tick_applies_one_command() {
    let (mut context, _) = Context::new(0x8583, 0x9583);
    let opened = context.run(Some(OPEN), Some(0x0000));
    assert_eq!(opened.valve, Some(true));
    assert_eq!(opened.log_msg, Some("valve opened".to_string()));
    assert_eq!(opened.sensor, Some(Pressure { microbar: 0, unit: PressureUnit::Bar }));
    let closed = context.run(Some(CLOSE), Some(0x80C1));
    assert_eq!(closed.valve, Some(false));
    assert_eq!(closed.log_msg, Some("valve closed".to_string()));
    assert_eq!(closed.sensor, Some(Pressure { microbar: -1_000_000, unit: PressureUnit::Bar }));
}

#[test]
fn tick_with_failed_read() {
    let (mut context, _) = Context::new(0x8583, 0x9583);
    let data = context.run(Some(OPEN), None);
    assert_eq!(data.sensor, None);
    assert_eq!(data.valve, Some(true));
    let idle = context.run(None, None);
    assert!(idle.sensor.is_none() && idle.valve.is_none() && idle.log_msg.is_none());
}

#[test]
fn tick_scales_by_the_range_read_back() {
    // The device reports the widest range after startup.
    let (mut context, outcome) = Context::new(0x8583, 0x9183);
    assert_eq!(outcome, ConfigOutcome::Mismatch);
    let data = context.run(None, Some(0x1000));
    assert_eq!(data.sensor, Some(Pressure { microbar: 3000, unit: PressureUnit::Bar }));
}

#[test]
fn logger_keeps_messages_in_order() {
    let mut logger = LoggerApp::default();
    assert_eq!(logger.len(), 0);
    logger.log("first".to_string());
    logger.log("second".to_string());
    assert_eq!(logger.len(), 2);
    assert_eq!(logger.get(0), "first");
    assert_eq!(logger.get(1), "second");
}

#[test]
fn empty_panels() {
    assert_eq!(TelemetryApp::default(), TelemetryApp {});
    assert_eq!(DataFrameRemote::default(), DataFrameRemote {});
}
