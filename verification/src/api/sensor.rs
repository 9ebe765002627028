//! Calibrated sensor readings.

use crate::influx::decimal::{micro_numeral, push_micro};
use crate::influx::error::LineProtocolError;
use crate::influx::time::TimestampPrecision;
use crate::influx::record::TimeSeriesRecord;
use crate::influx::{record, LineProtocol, ToLineProtocol};
use vstd::prelude::*;
use vstd::string::*;

verus! {

/// The unit of a pressure reading.
#[derive(Clone, Copy, Debug, PartialEq, Eq, Structural)]
pub enum PressureUnit {
    Bar,
}

impl PressureUnit {
    /// The unit's name as text.
    pub open spec fn name(self) -> Seq<char> {
        match self {
            PressureUnit::Bar => "Bar"@,
        }
    }

    /// The unit's name, as it stands in a tag of a telemetry record.
    pub fn to_string(&self) -> (r: String)
        ensures
            r@ == self.name(),
    {
        match self {
            PressureUnit::Bar => String::from_str("Bar"),
        }
    }
}

/// A pressure reading: a fixed-point value in millionths of the unit.
#[derive(Clone, Copy, Debug, PartialEq, Eq, Structural)]
pub struct Pressure {
    /// The pressure in millionths of `unit`.
    pub microbar: i32,
    pub unit: PressureUnit,
}

impl Pressure {
    /// The tag set of a pressure record: the measurement, then the unit.
    pub open spec fn tags(self) -> Seq<Seq<char>> {
        seq!["pressure"@, "unit"@ + seq!['='] + self.unit.name()]
    }

    /// The field set of a pressure record: the pressure as a numeral.
    pub open spec fn fields(self) -> Seq<Seq<char>> {
        seq!["pressure"@ + seq!['='] + micro_numeral(self.microbar as int)]
    }

    /// The record of this reading at a timestamp.
    pub open spec fn line_at(self, timestamp: nat) -> Seq<char> {
        record(self.tags(), self.fields(), timestamp)
    }

    /// Writes the record of this reading with the timestamp given.
    pub fn line_protocol_at(&self, timestamp: u128) -> (r: LineProtocol)
        ensures
            r@ == self.line_at(timestamp as nat),
    {
        let mut entry = TimeSeriesRecord::new(String::from_str("pressure"));
        proof {
            reveal_strlit("pressure");
            reveal_strlit("unit");
        }
        entry.tag(String::from_str("unit"), self.unit.to_string());
        let mut pressure = String::new();
        push_micro(&mut pressure, self.microbar);
        entry.field(String::from_str("pressure"), pressure);
        assert(entry.tag_set() =~= self.tags());
        assert(entry.field_set() =~= self.fields());
        match entry.to_line(timestamp) {
            Some(line) => line,
            None => String::new(),
        }
    }
}

impl ToLineProtocol for Pressure {
    open spec fn record_at(&self, timestamp: nat) -> Option<Seq<char>> {
        Some(self.line_at(timestamp))
    }

    /// The timestamp counts nanoseconds.
    fn to_line_protocol(&self) -> (r: Result<LineProtocol, LineProtocolError>) {
        match TimestampPrecision::Nanoseconds.now() {
            Ok(timestamp) => {
                let line = self.line_protocol_at(timestamp);
                assert(self.record_at(timestamp as nat) == Some(line@));
                Ok(line)
            },
            Err(e) => Err(LineProtocolError::from(e)),
        }
    }
}

} // verus!
