//! Messages delivered to a running log monitor.

use vstd::prelude::*;

verus! {

/// What a log-monitor message asks the monitor to do: shut down, record a
/// log line, or nothing at all.
#[derive(Clone, Debug, PartialEq, Eq)]
pub enum LogMonitorCmd {
    Close,
    Log,
    Empty,
}

/// One message on a log monitor's channel: a command plus the log line it
/// applies to, if any.
#[derive(Clone, Debug)]
pub struct LogMonitorMessage {
    pub cmd: LogMonitorCmd,
    pub message: String,
}

impl LogMonitorMessage {
    pub fn new() -> (r: Self)
        ensures
            r.cmd == LogMonitorCmd::Empty,
            r.message@ == "Empty message."@,
    {
        LogMonitorMessage { cmd: LogMonitorCmd::Empty, message: "Empty message.".to_owned() }
    }

    /// Builds the message with the specified command.
    pub fn cmd(self, c: LogMonitorCmd) -> (r: Self)
        ensures
            r.cmd == c,
            r.message@ == self.message@,
    {
        LogMonitorMessage { cmd: c, message: self.message }
    }

    /// Builds the message with the specified log line.
    pub fn message(self, m: String) -> (r: Self)
        ensures
            r.cmd == self.cmd,
            r.message@ == m@,
    {
        LogMonitorMessage { cmd: self.cmd, message: m }
    }
}

} // verus!
