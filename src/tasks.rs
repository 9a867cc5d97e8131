//! The decisions of the start-up path and of the command dispatcher. The
//! loops themselves, with their sleeps and serial I/O, run outside the
//! library and hand each outcome to these functions.

use vstd::prelude::*;
use crate::protocol::ActuatorCommand;
use crate::status::Status;

verus! {

/// Baud rate of the serial link.
pub const BAUD_RATE: u32 = 9600;

/// Pause of the telemetry reader between two reads, in milliseconds.
pub const TELEMETRY_POLL_MS: u64 = 10;

/// Pause of the dispatcher after each command, in milliseconds.
pub const DISPATCH_PACING_MS: u64 = 50;

/// How long the interaction loop waits for a key, in milliseconds.
pub const INPUT_POLL_MS: u64 = 100;

/// Capacity of the command queue.
pub const COMMAND_QUEUE_CAPACITY: usize = 100;

/// Capacity of the status queue.
pub const STATUS_QUEUE_CAPACITY: usize = 100;

/// Capacity of the telemetry queue.
pub const TELEMETRY_QUEUE_CAPACITY: usize = 10;

/// Shown when the serial device path is missing from the command line.
pub const USAGE: &'static str = "supply path argument. Example: /dev/ttyACM0";

/// The status that reports the outcome of writing a command's frame: the
/// error text when the write failed, and otherwise the effect the command
/// has on the device.
pub open spec fn dispatch_outcome(cmd: ActuatorCommand, written: Result<usize, String>) -> Status {
    match written {
        Err(e) => Status::SerialError(e),
        Ok(_) => match cmd {
            ActuatorCommand::SetSpeed(speed, _) => Status::SpeedSet(speed),
            ActuatorCommand::SetDirection(d, _) => Status::DirectionSet(d),
        },
    }
}

/// The status the dispatcher reports after trying to write `cmd`'s frame.
pub fn dispatch_status(cmd: ActuatorCommand, written: Result<usize, String>) -> (r: Status)
    ensures
        r == dispatch_outcome(cmd, written),
{
    match written {
        Err(e) => Status::SerialError(e),
        Ok(_) => match cmd {
            ActuatorCommand::SetSpeed(speed, _) => Status::SpeedSet(speed),
            ActuatorCommand::SetDirection(d, _) => Status::DirectionSet(d),
        },
    }
}

/// The serial device path among the process arguments (the program name
/// first): the second argument, if there is one.
pub fn port_argument(args: &Vec<String>) -> (r: Option<String>)
    ensures
        args@.len() >= 2 ==> r == Some(args@[1]),
        args@.len() < 2 ==> r is None,
{
    if args.len() >= 2 {
        Some(args[1].clone())
    } else {
        None
    }
}

} // verus!
