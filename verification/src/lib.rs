//! Configuration protocol of a HID pointing device.
//!
//! The crate selects the device among the HID endpoints of a machine, turns a
//! command (sensor resolution, wired or wireless polling rate) into the
//! 91-byte feature report that the firmware understands, and decides the
//! order of the steps of a run. It also reads the options of the command
//! line. Enumerating the endpoints, opening the device and writing the
//! reports is left to the caller.

pub mod args;
pub mod command;
pub mod device;
pub mod error;
pub mod number;
pub mod report;
pub mod run;

pub use args::{parse_args, AppArgs, ArgsError};
pub use command::{command_spec, CommandKind, CommandSpec};
pub use device::{find_first_match, get_device_info, DeviceDescriptor, Endpoint};
pub use error::ProtocolError;
pub use number::parse_number;
pub use report::{build_report, Report};
pub use run::{Action, Outcome, Phase, Request, Run};
