//! The shared, read-only-after-construction runtime context.

use crate::local_bin::BinCommand;
use crate::log_monitor::LogMonitor;
use crate::log_monitor::LogMonitorView;
use crate::process::Process;
use crate::process::ProcessView;
use crate::util::str_eq_string;
use vstd::prelude::*;

verus! {

/// The first process definition with the given name, if any.
pub open spec fn spec_find_process(procs: Seq<ProcessView>, name: Seq<char>) -> Option<
    ProcessView,
>
    decreases procs.len(),
{
    if procs.len() == 0 {
        None
    } else if procs[0].name == name {
        Some(procs[0])
    } else {
        spec_find_process(procs.skip(1), name)
    }
}

/// The first log-monitor definition with the given name, if any.
pub open spec fn spec_find_log_monitor(monitors: Seq<LogMonitorView>, name: Seq<char>) -> Option<
    LogMonitorView,
>
    decreases monitors.len(),
{
    if monitors.len() == 0 {
        None
    } else if monitors[0].name == name {
        Some(monitors[0])
    } else {
        spec_find_log_monitor(monitors.skip(1), name)
    }
}

/// Runtime context object.
///
/// Holds the compiled process and log-monitor registries and the current
/// `BinCommand`. It is built once per runtime and never mutated afterwards;
/// every thread that must resolve an action name works from its own copy,
/// so no registry locking is ever needed.
#[derive(Clone, Debug)]
pub struct Ctx {
    pub bin_command: BinCommand,
    pub log_monitor_map: Vec<LogMonitor>,
    pub process_map: Vec<Process>,
}

impl Ctx {
    /// Every registered monitor's buffer respects its declared capacity.
    pub open spec fn wf(&self) -> bool {
        forall|i: int| 0 <= i < self.log_monitor_map@.len() ==> self.log_monitor_map@[i].wf()
    }

    /// Constructs a new, empty `Ctx` over the POSIX shell.
    pub fn new() -> (r: Self)
        ensures
            r.bin_command.bin@ == "sh"@,
            r.bin_command.args.deep_view() == seq!["-c"@],
            r.log_monitor_map.deep_view() == Seq::<LogMonitorView>::empty(),
            r.process_map.deep_view() == Seq::<ProcessView>::empty(),
            r.wf(),
    {
        proof {
            reveal_strlit("bash");
            reveal_strlit("powershell");
            assert("bash"@.len() != "powershell"@.len());
        }
        let r = Ctx {
            bin_command: BinCommand::from_preset("bash"),
            log_monitor_map: Vec::new(),
            process_map: Vec::new(),
        };
        proof {
            assert(r.log_monitor_map.deep_view() =~= Seq::<LogMonitorView>::empty());
            assert(r.process_map.deep_view() =~= Seq::<ProcessView>::empty());
        }
        r
    }

    /// Looks a process definition up by name.
    pub fn find_process(&self, name: &str) -> (r: Option<&Process>)
        ensures
            match r {
                Some(p) => spec_find_process(self.process_map.deep_view(), name@) == Some(p@),
                None => spec_find_process(self.process_map.deep_view(), name@) is None,
            },
    {
        find_process_in(&self.process_map, name)
    }

    /// Looks a log-monitor definition up by name.
    pub fn find_log_monitor(&self, name: &str) -> (r: Option<&LogMonitor>)
        ensures
            match r {
                Some(m) => spec_find_log_monitor(self.log_monitor_map.deep_view(), name@) == Some(
                    m@,
                ),
                None => spec_find_log_monitor(self.log_monitor_map.deep_view(), name@) is None,
            },
    {
        find_log_monitor_in(&self.log_monitor_map, name)
    }
}

/// Looks a log-monitor definition up by name in a registry slice.
pub fn find_log_monitor_in<'a>(monitors: &'a Vec<LogMonitor>, name: &str) -> (r: Option<
    &'a LogMonitor,
>)
    ensures
        match r {
            Some(m) => spec_find_log_monitor(monitors.deep_view(), name@) == Some(m@),
            None => spec_find_log_monitor(monitors.deep_view(), name@) is None,
        },
{
    let ghost views = monitors.deep_view();
    proof {
        assert(views.skip(0) =~= views);
    }
    let mut i: usize = 0;
    while i < monitors.len()
        invariant
            i <= views.len(),
            views == monitors.deep_view(),
            spec_find_log_monitor(views, name@) == spec_find_log_monitor(
                views.skip(i as int),
                name@,
            ),
        decreases views.len() - i,
    {
        let candidate = &monitors[i];
        proof {
            assert(views.skip(i as int)[0] == views[i as int]);
        }
        if str_eq_string(&candidate.name, name) {
            return Some(candidate);
        }
        proof {
            assert(views.skip(i as int).skip(1) =~= views.skip(i + 1));
        }
        i = i + 1;
    }
    proof {
        assert(views.skip(views.len() as int) =~= Seq::<LogMonitorView>::empty());
    }
    None
}

/// Looks a process definition up by name in a registry slice.
pub fn find_process_in<'a>(procs: &'a Vec<Process>, name: &str) -> (r: Option<&'a Process>)
    ensures
        match r {
            Some(p) => spec_find_process(procs.deep_view(), name@) == Some(p@),
            None => spec_find_process(procs.deep_view(), name@) is None,
        },
{
    let ghost views = procs.deep_view();
    proof {
        assert(views.skip(0) =~= views);
    }
    let mut i: usize = 0;
    while i < procs.len()
        invariant
            i <= views.len(),
            views == procs.deep_view(),
            spec_find_process(views, name@) == spec_find_process(views.skip(i as int), name@),
        decreases views.len() - i,
    {
        let candidate = &procs[i];
        proof {
            assert(views.skip(i as int)[0] == views[i as int]);
        }
        if str_eq_string(&candidate.name, name) {
            return Some(candidate);
        }
        proof {
            assert(views.skip(i as int).skip(1) =~= views.skip(i + 1));
        }
        i = i + 1;
    }
    proof {
        assert(views.skip(views.len() as int) =~= Seq::<ProcessView>::empty());
    }
    None
}

} // verus!
