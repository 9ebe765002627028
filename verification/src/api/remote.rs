//! Frames and commands on the link between the instrument and its clients.

use crate::api::sensor::Pressure;
use crate::influx::error::LineProtocolError;
use crate::influx::{LineProtocol, ToLineProtocol, ToLineProtocolEntries};
use vstd::prelude::*;

verus! {

/// One snapshot of the instrument, produced once per tick of the control loop.
#[derive(Clone, Debug)]
pub struct Data {
    /// The sensor reading; empty where the read failed.
    pub sensor: Option<Pressure>,
    /// The valve's state, where a command set it in this tick.
    pub valve: Option<bool>,
    /// A message for the operator.
    pub log_msg: Option<String>,
}

impl Default for Data {
    fn default() -> (r: Self)
        ensures
            r.sensor is None,
            r.valve is None,
            r.log_msg is None,
    {
        Data { sensor: None, valve: None, log_msg: None }
    }
}

/// A directive for the valve.
#[derive(Clone, Copy, Debug, PartialEq, Eq, Structural)]
pub enum CmdEnum {
    /// Open the valve.
    ValveOpen,
    /// Close the valve.
    ValveClose,
}

/// A command from a client.
#[derive(Clone, Copy, Debug, PartialEq, Eq, Structural)]
pub struct Cmd {
    pub cmd: CmdEnum,
}

impl Data {
    /// The records of this frame at a timestamp: one for the sensor reading,
    /// where there is one. The valve's state and the message are not recorded.
    pub open spec fn entries(&self, timestamp: nat) -> Seq<Seq<char>> {
        match self.sensor {
            Some(reading) => seq![reading.line_at(timestamp)],
            None => Seq::empty(),
        }
    }

    /// Writes the records of this frame with the timestamp given.
    pub fn line_protocol_entries_at(&self, timestamp: u128) -> (r: Vec<LineProtocol>)
        ensures
            r.deep_view() == self.entries(timestamp as nat),
    {
        let mut entries: Vec<LineProtocol> = Vec::new();
        match self.sensor {
            Some(reading) => {
                entries.push(reading.line_protocol_at(timestamp));
            },
            None => {},
        }
        assert(entries.deep_view() =~= self.entries(timestamp as nat));
        entries
    }
}

impl ToLineProtocolEntries for Data {
    open spec fn entry_count(&self) -> nat {
        self.entries(0).len()
    }

    open spec fn entry_at(&self, i: int, timestamp: nat) -> Seq<char> {
        self.entries(timestamp)[i]
    }

    fn to_line_protocol_entries(&self) -> (r: Result<Vec<LineProtocol>, LineProtocolError>) {
        let mut entries: Vec<LineProtocol> = Vec::new();
        match self.sensor {
            Some(reading) => {
                match reading.to_line_protocol() {
                    Ok(line) => {
                        proof {
                            let timestamp = choose|timestamp: nat|
                                reading.record_at(timestamp) == Some(line@);
                            assert(self.entry_at(0, timestamp) == line@);
                        }
                        entries.push(line);
                    },
                    Err(e) => {
                        return Err(e);
                    },
                }
            },
            None => {},
        }
        Ok(entries)
    }
}

/// A frame without a sensor reading has no record, at any timestamp.
pub proof fn empty_frame_has_no_record(frame: Data, timestamp: nat)
    requires
        frame.sensor is None,
    ensures
        frame.entries(timestamp).len() == 0,
        frame.entry_count() == 0,
{
}

} // verus!
