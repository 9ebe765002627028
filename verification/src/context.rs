//! The real-time context: what one tick of the control loop decides.
//!
//! The loop's owner performs the bus transfers and the channel operations,
//! none of them blocking, and hands the results to this type: the read-backs
//! of the configuration register at startup, and in each tick the command
//! taken from the command channel, if there was one, and the transfer word of
//! the conversion register, if the read succeeded.

use crate::adc::ads101x::{ADS101x, Config, ConfigOutcome, Mux, Os};
use crate::api::remote::{Cmd, CmdEnum, Data};
use crate::sensor::{KellerPA7LC, Sensor};
use vstd::prelude::*;
use vstd::string::*;

verus! {

/// The converters of the instrument.
pub struct ADC {
    pub fc_ads1014_no1: ADS101x,
}

/// The sensors of the instrument.
pub struct Sensors {
    pub pressure: KellerPA7LC,
}

/// The state that the control loop owns.
pub struct Context {
    adc: ADC,
    sensor: Sensors,
}

/// The message that goes with a command.
pub open spec fn command_message(cmd: CmdEnum) -> Seq<char> {
    match cmd {
        CmdEnum::ValveOpen => "valve opened"@,
        CmdEnum::ValveClose => "valve closed"@,
    }
}

/// The valve's state after a command.
pub open spec fn command_valve(cmd: CmdEnum) -> bool {
    cmd == CmdEnum::ValveOpen
}

/// The configuration written to the converter at startup: a conversion
/// started on the input pair AIN0 and AIN3, and the defaults elsewhere.
pub open spec fn startup() -> Config {
    Config { os: Os::On, mux: Mux::Ain0Ain3, ..Config::reset() }
}

impl ADC {
    /// The configuration written to the converter at startup.
    pub fn startup_config() -> (r: Config)
        ensures
            r == startup(),
    {
        Config::default().with_os(Os::On).with_mux(Mux::Ain0Ain3)
    }

    /// The converters after startup: `opened` is what the configuration
    /// register read when the device was opened, `readback` what it read after
    /// the startup configuration was written to it. The outcome tells whether
    /// the device took the startup configuration.
    pub fn new(opened: u16, readback: u16) -> (r: (Self, ConfigOutcome))
        ensures
            r.0.fc_ads1014_no1.spec_current() == Config::decode(readback),
            r.1 == ConfigOutcome::Confirmed <==> Config::decode(readback) == startup(),
            readback == startup().encode() ==> r.1 == ConfigOutcome::Confirmed,
    {
        let mut fc_ads1014_no1 = ADS101x::new(opened);
        let wanted = ADC::startup_config();
        let outcome = fc_ads1014_no1.config(wanted, readback);
        (ADC { fc_ads1014_no1 }, outcome)
    }
}

impl Sensors {
    /// The sensors of the instrument: one pressure transmitter.
    pub fn new() -> (r: Self)
        ensures
            r == (Sensors { pressure: KellerPA7LC {  } }),
    {
        Sensors { pressure: KellerPA7LC::new() }
    }
}

impl Context {
    /// The converter's state.
    pub closed spec fn spec_adc(&self) -> ADS101x {
        self.adc.fc_ads1014_no1
    }

    /// The context after startup: `opened` is what the configuration register
    /// read when the device was opened, `readback` what it read after
    /// `ADC::startup_config()` was written to it. The outcome tells whether
    /// the device took the startup configuration; the loop runs either way.
    pub fn new(opened: u16, readback: u16) -> (r: (Self, ConfigOutcome))
        ensures
            r.0.spec_adc().spec_current() == Config::decode(readback),
            r.1 == ConfigOutcome::Confirmed <==> Config::decode(readback) == startup(),
    {
        let (adc, outcome) = ADC::new(opened, readback);
        (Context { adc, sensor: Sensors::new() }, outcome)
    }

    /// The frame that a tick produces: the command's effect on the valve with
    /// its message, and the sensor reading.
    pub open spec fn frame(&self, cmd: Option<Cmd>, sample: Option<u16>, data: Data) -> bool {
        &&& match cmd {
            Some(c) => data.valve == Some(command_valve(c.cmd)) && data.log_msg is Some
                && data.log_msg.unwrap()@ == command_message(c.cmd),
            None => data.valve is None && data.log_msg is None,
        }
        &&& match sample {
            Some(word) => data.sensor == Some(
                (KellerPA7LC {  }).reading(self.spec_adc().voltage(word) as i32),
            ),
            None => data.sensor is None,
        }
    }

    /// One tick: applies the command, if any, then takes in the sample, if the
    /// read succeeded, and gives the frame to push.
    ///
    /// At most one command is applied per tick. A failed read leaves the
    /// frame's sensor field empty and the tick goes on.
    pub fn run(&mut self, cmd: Option<Cmd>, sample: Option<u16>) -> (data: Data)
        ensures
            final(self).spec_adc() == old(self).spec_adc(),
            old(self).frame(cmd, sample, data),
    {
        let mut data = Data::default();
        match cmd {
            Some(cmd) => match cmd.cmd {
                CmdEnum::ValveOpen => {
                    data.valve = Some(true);
                    data.log_msg = Some(String::from_str("valve opened"));
                },
                CmdEnum::ValveClose => {
                    data.valve = Some(false);
                    data.log_msg = Some(String::from_str("valve closed"));
                },
            },
            None => {},
        }
        data.sensor = match sample {
            Some(word) => Some(self.adc.fc_ads1014_no1.read(word, &self.sensor.pressure)),
            None => None,
        };
        data
    }
}

} // verus!
