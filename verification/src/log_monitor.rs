//! The definition and message loop of a log monitor.

use crate::message::LogMonitorCmd;
use crate::message::LogMonitorMessage;
use crate::rolling_buffer::RollingBuffer;
use vstd::prelude::*;

verus! {

/// Mathematical image of a log monitor.
pub ghost struct LogMonitorView {
    pub buffer: Seq<Seq<char>>,
    pub buffer_size: nat,
    pub name: Seq<char>,
    pub ontrigger: Seq<char>,
    pub test: Seq<char>,
}

/// What the monitor's message loop must do next: run the test command with
/// the dumped buffer, stop the loop, or nothing.
#[derive(Clone, Debug)]
pub enum MonitorDirective {
    RunTest(String),
    Stop,
    Idle,
}

/// A named watcher over a rolling window of one process's output lines.
///
/// Each pushed line lands in the buffer, after which the `test` command is
/// run with the dumped buffer contents in its environment; a zero exit
/// status fires the `ontrigger` action. The monitor owns its buffer and
/// mutates it from a single thread, so no locking is needed.
#[derive(Clone, Debug)]
pub struct LogMonitor {
    pub buffer: RollingBuffer,
    pub buffer_size: usize,
    pub name: String,
    pub ontrigger: String,
    pub test: String,
}

impl View for LogMonitor {
    type V = LogMonitorView;

    open spec fn view(&self) -> LogMonitorView {
        LogMonitorView {
            buffer: self.buffer.lines.deep_view(),
            buffer_size: self.buffer_size as nat,
            name: self.name@,
            ontrigger: self.ontrigger@,
            test: self.test@,
        }
    }
}

impl DeepView for LogMonitor {
    type V = LogMonitorView;

    open spec fn deep_view(&self) -> LogMonitorView {
        self.view()
    }
}

impl LogMonitor {
    /// The buffer matches the declared capacity and never overflows it.
    pub open spec fn wf(&self) -> bool {
        &&& self.buffer.wf()
        &&& self.buffer.size == self.buffer_size
    }

    /// Constructs a new, empty `LogMonitor` with the default window of 20
    /// lines.
    pub fn new(name: String) -> (r: Self)
        ensures
            r@ == (LogMonitorView {
                buffer: Seq::<Seq<char>>::empty(),
                buffer_size: 20,
                name: name@,
                ontrigger: Seq::<char>::empty(),
                test: Seq::<char>::empty(),
            }),
            r.wf(),
    {
        LogMonitor {
            buffer: RollingBuffer::new(20),
            buffer_size: 20,
            name,
            ontrigger: String::new(),
            test: String::new(),
        }
    }

    /// Builds `LogMonitor` with the specified rolling-buffer capacity,
    /// starting over with an empty buffer.
    pub fn buffer_size(self, b: usize) -> (r: Self)
        ensures
            r@ == (LogMonitorView {
                buffer: Seq::<Seq<char>>::empty(),
                buffer_size: b as nat,
                ..self@
            }),
            r.wf(),
    {
        LogMonitor { buffer: RollingBuffer::new(b), buffer_size: b, ..self }
    }

    /// Builds `LogMonitor` with the action to run when the test succeeds.
    pub fn ontrigger(self, o: String) -> (r: Self)
        ensures
            r@ == (LogMonitorView { ontrigger: o@, ..self@ }),
            self.wf() ==> r.wf(),
    {
        LogMonitor { ontrigger: o, ..self }
    }

    /// Builds `LogMonitor` with the specified test command.
    pub fn test(self, t: String) -> (r: Self)
        ensures
            r@ == (LogMonitorView { test: t@, ..self@ }),
            self.wf() ==> r.wf(),
    {
        LogMonitor { test: t, ..self }
    }

    /// Handles one channel message: `Log` pushes the line and asks for
    /// exactly one run of the test command over the new window; `Close`
    /// stops the loop; an empty message does nothing.
    pub fn handle_message(&mut self, msg: &LogMonitorMessage) -> (r: MonitorDirective)
        requires
            old(self).wf(),
        ensures
            final(self).wf(),
            final(self)@.buffer_size == old(self)@.buffer_size,
            final(self)@.name == old(self)@.name,
            final(self)@.ontrigger == old(self)@.ontrigger,
            final(self)@.test == old(self)@.test,
            match msg.cmd {
                LogMonitorCmd::Close => final(self)@ == old(self)@ && r is Stop,
                LogMonitorCmd::Log => {
                    &&& final(self)@.buffer == RollingBuffer::spec_push(
                        old(self)@.buffer,
                        old(self)@.buffer_size,
                        msg.message@,
                    )
                    &&& r matches MonitorDirective::RunTest(dump) && dump@
                        == RollingBuffer::spec_joined(final(self)@.buffer)
                },
                LogMonitorCmd::Empty => final(self)@ == old(self)@ && r is Idle,
            },
    {
        match msg.cmd {
            LogMonitorCmd::Close => MonitorDirective::Stop,
            LogMonitorCmd::Log => {
                self.buffer.push(msg.message.clone());
                MonitorDirective::RunTest(self.buffer.dump())
            },
            LogMonitorCmd::Empty => MonitorDirective::Idle,
        }
    }
}

/// A run of the monitor's message loop over a queue of messages, stopping
/// at the first `Close`: the final monitor state paired with the buffer
/// dumps over which the test command is run, in order.
pub open spec fn spec_monitor_run(m: LogMonitorView, msgs: Seq<LogMonitorMessage>) -> (
    LogMonitorView,
    Seq<Seq<char>>,
)
    decreases msgs.len(),
{
    if msgs.len() == 0 {
        (m, Seq::<Seq<char>>::empty())
    } else {
        match msgs[0].cmd {
            LogMonitorCmd::Close => (m, Seq::<Seq<char>>::empty()),
            LogMonitorCmd::Log => {
                let stepped = LogMonitorView {
                    buffer: RollingBuffer::spec_push(m.buffer, m.buffer_size, msgs[0].message@),
                    ..m
                };
                let (end, rest) = spec_monitor_run(stepped, msgs.skip(1));
                (end, seq![RollingBuffer::spec_joined(stepped.buffer)] + rest)
            },
            LogMonitorCmd::Empty => spec_monitor_run(m, msgs.skip(1)),
        }
    }
}

/// How many `Log` messages stand before the first `Close` in a queue.
pub open spec fn spec_logs_before_close(msgs: Seq<LogMonitorMessage>) -> nat
    decreases msgs.len(),
{
    if msgs.len() == 0 {
        0
    } else {
        match msgs[0].cmd {
            LogMonitorCmd::Close => 0,
            LogMonitorCmd::Log => 1 + spec_logs_before_close(msgs.skip(1)),
            LogMonitorCmd::Empty => spec_logs_before_close(msgs.skip(1)),
        }
    }
}

/// The test command runs exactly once per pushed line: a monitor's message
/// loop issues one test run for each `Log` message delivered before the
/// first `Close`, and none after it.
pub proof fn lemma_one_test_per_push(m: LogMonitorView, msgs: Seq<LogMonitorMessage>)
    ensures
        spec_monitor_run(m, msgs).1.len() == spec_logs_before_close(msgs),
    decreases msgs.len(),
{
    if msgs.len() > 0 {
        match msgs[0].cmd {
            LogMonitorCmd::Close => {
            },
            LogMonitorCmd::Log => {
                let stepped = LogMonitorView {
                    buffer: RollingBuffer::spec_push(m.buffer, m.buffer_size, msgs[0].message@),
                    ..m
                };
                lemma_one_test_per_push(stepped, msgs.skip(1));
            },
            LogMonitorCmd::Empty => {
                lemma_one_test_per_push(m, msgs.skip(1));
            },
        }
    }
}

} // verus!
