//! The wire protocol of the network service: commands from a client arrive
//! as binary messages in bincode's fixed-width little-endian encoding.
//!
//! A command is a record of one member, a directive, and a directive is one
//! of an enumeration without data. Bincode writes a record as its members in
//! their order and such a directive as its place in the enumeration, a `u32`:
//! so the message of a command is the four bytes of that number.

use crate::api::remote::{Cmd, CmdEnum};
use vstd::prelude::*;

verus! {

/// What went wrong inside bincode.
#[verifier::external_type_specification]
#[verifier::external_body]
pub struct ExBincodeErrorKind(bincode::ErrorKind);

/// The four bytes of a number, the lowest first.
pub open spec fn le_bytes(value: u32) -> Seq<u8> {
    seq![
        (value % 256) as u8,
        (value / 256 % 256) as u8,
        (value / 65536 % 256) as u8,
        (value / 16777216) as u8,
    ]
}

/// The number that the first four bytes of a message hold, the lowest first.
pub open spec fn le_value(bytes: Seq<u8>) -> int {
    bytes[0] + 256 * bytes[1] + 65536 * bytes[2] + 16777216 * bytes[3]
}

/// `bincode::serialize` on a `u32`: always four bytes, the lowest first.
///
/// With bincode's default options the size is not limited and the bytes go
/// to a vector, so that the call does not fail.
#[verifier::external_body]
fn serialize_u32(value: u32) -> (r: Result<Vec<u8>, Box<bincode::ErrorKind>>)
    ensures
        r is Ok,
        r matches Ok(bytes) ==> bytes@ == le_bytes(value),
{
    bincode::serialize(&value)
}

/// `bincode::deserialize` to a `u32`: the number that the first four bytes
/// hold, the lowest first. Bytes that follow are left unread; fewer than four
/// bytes are an error.
#[verifier::external_body]
fn deserialize_u32(bytes: &[u8]) -> (r: Result<u32, Box<bincode::ErrorKind>>)
    ensures
        r is Ok <==> bytes@.len() >= 4,
        r matches Ok(value) ==> value == le_value(bytes@),
{
    bincode::deserialize::<u32>(bytes)
}

/// Why a message was not taken as a command.
#[derive(Clone, Copy, Debug, PartialEq, Eq, Structural)]
pub enum DecodeError {
    /// The message ends before the directive does.
    Truncated,
    /// The message names a directive that does not exist.
    UnknownDirective(u32),
}

/// The number that stands for a directive on the wire: its place in the
/// enumeration.
pub open spec fn directive_index(cmd: CmdEnum) -> u32 {
    match cmd {
        CmdEnum::ValveOpen => 0,
        CmdEnum::ValveClose => 1,
    }
}

/// The message that carries a command.
pub open spec fn encoded(cmd: Cmd) -> Seq<u8> {
    le_bytes(directive_index(cmd.cmd))
}

/// The command that a message carries.
pub open spec fn decoded(bytes: Seq<u8>) -> Result<Cmd, DecodeError> {
    if bytes.len() < 4 {
        Err(DecodeError::Truncated)
    } else if le_value(bytes) == 0 {
        Ok(Cmd { cmd: CmdEnum::ValveOpen })
    } else if le_value(bytes) == 1 {
        Ok(Cmd { cmd: CmdEnum::ValveClose })
    } else {
        Err(DecodeError::UnknownDirective(le_value(bytes) as u32))
    }
}

/// Writes a command as a message.
pub fn encode_cmd(cmd: &Cmd) -> (r: Vec<u8>)
    ensures
        r@ == encoded(*cmd),
{
    let index: u32 = match cmd.cmd {
        CmdEnum::ValveOpen => 0,
        CmdEnum::ValveClose => 1,
    };
    match serialize_u32(index) {
        Ok(bytes) => bytes,
        Err(_) => Vec::new(),
    }
}

/// Reads a command from a message.
pub fn decode_cmd(bytes: &[u8]) -> (r: Result<Cmd, DecodeError>)
    ensures
        r == decoded(bytes@),
{
    match deserialize_u32(bytes) {
        Ok(index) => {
            if index == 0 {
                Ok(Cmd { cmd: CmdEnum::ValveOpen })
            } else if index == 1 {
                Ok(Cmd { cmd: CmdEnum::ValveClose })
            } else {
                Err(DecodeError::UnknownDirective(index))
            }
        },
        Err(_) => Err(DecodeError::Truncated),
    }
}

/// A command written as a message and read back is the same command.
pub proof fn cmd_round_trip(cmd: Cmd)
    ensures
        decoded(encoded(cmd)) == Ok::<Cmd, DecodeError>(cmd),
{
    let bytes = encoded(cmd);
    assert(bytes.len() == 4);
    assert(le_value(bytes) == directive_index(cmd.cmd));
}

/// What the read loop of a connection does with a message.
#[derive(Clone, Copy, Debug, PartialEq, Eq, Structural)]
pub enum Inbound {
    /// The message carries a command, which goes to the command channel.
    Forward(Cmd),
    /// The message is binary and carries no command: the error is logged and
    /// the connection stays open.
    Rejected(DecodeError),
    /// The message is not binary and is passed over.
    Ignored,
}

/// What the read loop of a connection does with a message of the given kind
/// and payload.
pub open spec fn inbound(is_binary: bool, payload: Seq<u8>) -> Inbound {
    if !is_binary {
        Inbound::Ignored
    } else {
        match decoded(payload) {
            Ok(cmd) => Inbound::Forward(cmd),
            Err(e) => Inbound::Rejected(e),
        }
    }
}

/// Decides what the read loop of a connection does with a message.
pub fn ws_read(is_binary: bool, payload: &[u8]) -> (r: Inbound)
    ensures
        r == inbound(is_binary, payload@),
{
    if is_binary {
        match decode_cmd(payload) {
            Ok(cmd) => Inbound::Forward(cmd),
            Err(e) => Inbound::Rejected(e),
        }
    } else {
        Inbound::Ignored
    }
}

} // verus!
