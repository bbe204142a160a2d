//! The query surface of the command line: the subcommands, their
//! arguments, and the single line of output each query produces from
//! a battery snapshot. Argument parsing itself lives with the binary.
use vstd::prelude::*;
use crate::battery::BatteryState;
use crate::battery::remaining_str;
use crate::battery::summary_line;
use crate::battery::summary_str;
use crate::error::BatteryError;
use crate::status::status_text;
use crate::text::dec_of;
use crate::text::render_u128;

verus! {

/// How long the daemon sleeps between ticks when not configured
/// otherwise, in seconds.
pub const DEFAULT_POLL_INTERVAL: u64 = 15;

/// Arguments of the daemon subcommand.
#[derive(Clone, Copy, Debug, PartialEq, Eq, Structural)]
pub struct DaemonArgs {
    /// The refresh interval, in seconds.
    pub interval: u64,
}

/// One subcommand: a single raw value to print, the default summary,
/// or the long-running daemon.
#[derive(Clone, Copy, Debug, PartialEq, Eq, Structural)]
pub enum Command {
    /// The capacity, in uAh.
    Capacity,
    /// The current charge, in uAh.
    Charge,
    /// The current draw, in uA.
    Current,
    /// The number of charge cycles.
    Cycles,
    /// The battery level, as a percentage.
    Level,
    /// The battery's name.
    Name,
    /// The charging status.
    Status,
    /// The time remaining until charged or discharged.
    Time,
    /// The one-line summary; also what runs with no subcommand.
    Summary,
    /// The battery state notification daemon.
    Daemon(DaemonArgs),
}

/// The parsed command line: an optional subcommand and an optional
/// explicit device name that bypasses discovery.
#[derive(Clone, Debug)]
pub struct Cli {
    pub command: Option<Command>,
    pub device: Option<String>,
}

/// The line a query subcommand prints for a named snapshot. The
/// daemon subcommand prints no single line and is not a query.
pub fn query_line(cmd: &Command, name: &str, st: &BatteryState) -> (r: Result<
    String,
    BatteryError,
>)
    requires
        !(cmd matches Command::Daemon(_)),
    ensures
        match *cmd {
            Command::Capacity => r matches Ok(s) && s@ == dec_of(st.capacity as int),
            Command::Charge => r matches Ok(s) && s@ == dec_of(st.charge as int),
            Command::Current => r matches Ok(s) && s@ == dec_of(st.current as int),
            Command::Cycles => r matches Ok(s) && s@ == dec_of(st.cycles as int),
            Command::Level => r matches Ok(s) && s@ == dec_of(st.level as int),
            Command::Name => r matches Ok(s) && s@ == name@,
            Command::Status => r matches Ok(s) && s@ == status_text(st.status),
            Command::Time => (r matches Ok(s) ==> remaining_str(*st) matches Ok(q) && s@ == q) && (
            r matches Err(e) ==> remaining_str(*st) == Err::<Seq<char>, BatteryError>(e)),
            Command::Summary => (r matches Ok(s) ==> summary_str(name@, *st) matches Ok(q) && s@
                == q) && (r matches Err(e) ==> summary_str(name@, *st) == Err::<
                Seq<char>,
                BatteryError,
            >(e)),
            Command::Daemon(_) => true,
        },
{
    match cmd {
        Command::Capacity => Ok(render_u128(st.capacity as u128)),
        Command::Charge => Ok(render_u128(st.charge as u128)),
        Command::Current => Ok(render_u128(st.current as u128)),
        Command::Cycles => Ok(render_u128(st.cycles as u128)),
        Command::Level => Ok(render_u128(st.level as u128)),
        Command::Name => Ok(name.to_owned()),
        Command::Status => Ok(st.status.label().to_owned()),
        Command::Time => st.remaining(),
        Command::Summary => summary_line(name, st),
        Command::Daemon(_) => vstd::pervasive::unreached(),
    }
}

} // verus!
