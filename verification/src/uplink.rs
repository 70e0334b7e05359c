//! Messages sent upward from a process thread to its supervisor.

use vstd::prelude::*;

verus! {

/// What an uplink message announces: an action request, or nothing.
#[derive(Clone, Debug, PartialEq, Eq)]
pub enum Cmd {
    Action,
    Empty,
}

/// One message on a task's uplink channel.
#[derive(Clone, Debug)]
pub struct UplinkMessage {
    pub cmd: Cmd,
    pub message: String,
}

impl UplinkMessage {
    pub fn new() -> (r: Self)
        ensures
            r.cmd == Cmd::Empty,
            r.message@ == "Empty message."@,
    {
        UplinkMessage { cmd: Cmd::Empty, message: "Empty message.".to_owned() }
    }

    /// Builds the message with the specified command.
    pub fn cmd(self, c: Cmd) -> (r: Self)
        ensures
            r.cmd == c,
            r.message@ == self.message@,
    {
        UplinkMessage { cmd: c, message: self.message }
    }

    /// Builds the message with the specified text.
    pub fn message(self, m: String) -> (r: Self)
        ensures
            r.cmd == self.cmd,
            r.message@ == m@,
    {
        UplinkMessage { cmd: self.cmd, message: m }
    }
}

} // verus!
