//! The command table: from a command and its parameter to the bytes that
//! encode it.
//!
//! Every wired polling rate has an opcode and a footer of its own; no rate
//! falls back to the encoding of another one.

use crate::error::ProtocolError;
use vstd::prelude::*;

verus! {

/// Number of opcode bytes of every command.
pub const OPCODE_LEN: usize = 4;

/// A command for the device, with its parameter as the caller gave it.
#[derive(Clone, Copy, Debug, PartialEq, Eq, Structural)]
pub enum CommandKind {
    /// Set the sensor resolution.
    SetDpi(u16),
    /// Set the polling rate used on the cable, in Hz: 125, 500 or 1000.
    SetWiredPollingRate(u16),
    /// Set the polling rate used over the air, in Hz: 125, 500, 1000, 2000,
    /// 4000 or 8000.
    SetWirelessPollingRate(u16),
}

/// The bytes that encode one command.
#[derive(Debug, PartialEq, Eq)]
pub struct CommandSpec {
    pub opcode: [u8; 4],
    pub argument_bytes: Vec<u8>,
    pub footer: u8,
}

/// A `CommandSpec` as mathematical values.
pub struct Encoding {
    pub opcode: Seq<u8>,
    pub argument_bytes: Seq<u8>,
    pub footer: u8,
}

impl View for CommandSpec {
    type V = Encoding;

    open spec fn view(&self) -> Encoding {
        Encoding {
            opcode: self.opcode@,
            argument_bytes: self.argument_bytes@,
            footer: self.footer,
        }
    }
}

/// The more significant byte of a 16-bit value.
pub open spec fn high_byte(value: u16) -> u8 {
    (value / 256) as u8
}

/// The less significant byte of a 16-bit value.
pub open spec fn low_byte(value: u16) -> u8 {
    (value % 256) as u8
}

/// The argument of a resolution command: the value in big-endian order, twice.
pub open spec fn dpi_argument(value: u16) -> Seq<u8> {
    seq![high_byte(value), low_byte(value), high_byte(value), low_byte(value)]
}

/// One row of the table.
pub open spec fn row(opcode: Seq<u8>, argument_bytes: Seq<u8>, footer: u8) -> Encoding {
    Encoding { opcode, argument_bytes, footer }
}

/// The rows for the polling rate on the cable.
pub open spec fn wired_entry(hz: u16) -> Option<Encoding> {
    if hz == 125 {
        Some(row(seq![0x01u8, 0x00u8, 0x05u8, 0x08u8], seq![0x00u8], 0x0c))
    } else if hz == 500 {
        Some(row(seq![0x01u8, 0x00u8, 0x05u8, 0x02u8], seq![0x00u8], 0x06))
    } else if hz == 1000 {
        Some(row(seq![0x01u8, 0x00u8, 0x05u8, 0x01u8], seq![0x00u8], 0x05))
    } else {
        None
    }
}

/// The rows for the polling rate over the air.
pub open spec fn wireless_entry(hz: u16) -> Option<Encoding> {
    if hz == 125 {
        Some(row(seq![0x02u8, 0x00u8, 0x40u8, 0x01u8], seq![0x40u8], 0x03))
    } else if hz == 500 {
        Some(row(seq![0x02u8, 0x00u8, 0x40u8, 0x01u8], seq![0x10u8], 0x53))
    } else if hz == 1000 {
        Some(row(seq![0x02u8, 0x00u8, 0x40u8, 0x00u8], seq![0x08u8], 0x4a))
    } else if hz == 2000 {
        Some(row(seq![0x02u8, 0x00u8, 0x40u8, 0x01u8], seq![0x04u8], 0x47))
    } else if hz == 4000 {
        Some(row(seq![0x02u8, 0x00u8, 0x40u8, 0x01u8], seq![0x02u8], 0x41))
    } else if hz == 8000 {
        Some(row(seq![0x02u8, 0x00u8, 0x40u8, 0x01u8], seq![0x01u8], 0x42))
    } else {
        None
    }
}

/// The table: the entry of a command, or `None` where its parameter is not
/// supported.
pub open spec fn table_entry(command: CommandKind) -> Option<Encoding> {
    match command {
        CommandKind::SetDpi(value) => Some(
            row(seq![0x07u8, 0x04u8, 0x05u8, 0x01u8], dpi_argument(value), 0x07),
        ),
        CommandKind::SetWiredPollingRate(hz) => wired_entry(hz),
        CommandKind::SetWirelessPollingRate(hz) => wireless_entry(hz),
    }
}

/// Whether the table has an entry for the command.
pub open spec fn supported(command: CommandKind) -> bool {
    table_entry(command) is Some
}

/// Looks a command up in the table.
///
/// A command with a supported parameter gives its entry; any other gives
/// `InvalidParameter`.
pub fn command_spec(command: CommandKind) -> (result: Result<CommandSpec, ProtocolError>)
    ensures
        match table_entry(command) {
            Some(entry) => result is Ok && result->Ok_0@ == entry,
            None => result == Err::<CommandSpec, ProtocolError>(ProtocolError::InvalidParameter),
        },
{
    match command {
        CommandKind::SetDpi(value) => {
            let high: u8 = (value / 256) as u8;
            let low: u8 = (value % 256) as u8;
            let mut argument_bytes: Vec<u8> = Vec::new();
            argument_bytes.push(high);
            argument_bytes.push(low);
            argument_bytes.push(high);
            argument_bytes.push(low);
            let spec = CommandSpec { opcode: [0x07, 0x04, 0x05, 0x01], argument_bytes, footer: 0x07 };
            assert(spec@.opcode =~= table_entry(command)->Some_0.opcode);
            assert(spec@.argument_bytes =~= table_entry(command)->Some_0.argument_bytes);
            Ok(spec)
        },
        CommandKind::SetWiredPollingRate(hz) => {
            let (selector, footer): (u8, u8) = if hz == 125 {
                (0x08, 0x0c)
            } else if hz == 500 {
                (0x02, 0x06)
            } else if hz == 1000 {
                (0x01, 0x05)
            } else {
                return Err(ProtocolError::InvalidParameter);
            };
            let mut argument_bytes: Vec<u8> = Vec::new();
            argument_bytes.push(0x00);
            let spec = CommandSpec { opcode: [0x01, 0x00, 0x05, selector], argument_bytes, footer };
            assert(spec@.opcode =~= table_entry(command)->Some_0.opcode);
            assert(spec@.argument_bytes =~= table_entry(command)->Some_0.argument_bytes);
            Ok(spec)
        },
        CommandKind::SetWirelessPollingRate(hz) => {
            let (selector, argument, footer): (u8, u8, u8) = if hz == 125 {
                (0x01, 0x40, 0x03)
            } else if hz == 500 {
                (0x01, 0x10, 0x53)
            } else if hz == 1000 {
                (0x00, 0x08, 0x4a)
            } else if hz == 2000 {
                (0x01, 0x04, 0x47)
            } else if hz == 4000 {
                (0x01, 0x02, 0x41)
            } else if hz == 8000 {
                (0x01, 0x01, 0x42)
            } else {
                return Err(ProtocolError::InvalidParameter);
            };
            let mut argument_bytes: Vec<u8> = Vec::new();
            argument_bytes.push(argument);
            let spec = CommandSpec { opcode: [0x02, 0x00, 0x40, selector], argument_bytes, footer };
            assert(spec@.opcode =~= table_entry(command)->Some_0.opcode);
            assert(spec@.argument_bytes =~= table_entry(command)->Some_0.argument_bytes);
            Ok(spec)
        },
    }
}

} // verus!
