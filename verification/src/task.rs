//! A task: processes that run concurrently and join at one barrier.

use crate::ctx::spec_find_log_monitor;
use crate::ctx::Ctx;
use crate::log_monitor::LogMonitor;
use crate::log_monitor::LogMonitorView;
use crate::process::Process;
use crate::process::ProcessView;
use vstd::prelude::*;

verus! {

/// One scheduling unit of a job: a set of processes executed concurrently.
/// The task completes only when every spawned process and monitor thread
/// has joined; tasks of one job never overlap.
#[derive(Clone, Debug)]
pub struct Task {
    pub processes: Vec<Process>,
}

impl View for Task {
    type V = Seq<ProcessView>;

    open spec fn view(&self) -> Seq<ProcessView> {
        self.processes.deep_view()
    }
}

impl DeepView for Task {
    type V = Seq<ProcessView>;

    open spec fn deep_view(&self) -> Seq<ProcessView> {
        self.view()
    }
}

impl Task {
    /// Constructs a new `Task` over the given processes.
    pub fn new(processes: Vec<Process>) -> (r: Self)
        ensures
            r@ == processes.deep_view(),
    {
        Task { processes }
    }
}

/// A fresh monitor instance: the registered definition with a rolling
/// buffer of its own, empty. Monitor state is per use, never shared across
/// concurrent occurrences of one monitor name.
pub open spec fn spec_fresh_instance(def: LogMonitorView) -> LogMonitorView {
    LogMonitorView { buffer: Seq::<Seq<char>>::empty(), ..def }
}

impl LogMonitor {
    /// A fresh instance of this definition with its own empty buffer.
    pub fn instantiate(&self) -> (r: Self)
        ensures
            r@ == spec_fresh_instance(self@),
            r.wf(),
    {
        LogMonitor::new(self.name.clone()).buffer_size(self.buffer_size).ontrigger(
            self.ontrigger.clone(),
        ).test(self.test.clone())
    }
}

/// Whether an instance is the fresh image of the definition registered
/// under the given name.
pub open spec fn spec_instance_ok(
    monitors: Seq<LogMonitorView>,
    name: Seq<char>,
    instance: LogMonitorView,
) -> bool {
    match spec_find_log_monitor(monitors, name) {
        Some(def) => instance == spec_fresh_instance(def),
        None => false,
    }
}

/// The monitor instances owed to one process occurrence, one fresh
/// instance per attached name, in attachment order; nothing when a name is
/// not registered (compilation rules that out beforehand).
pub fn monitor_instances(process: &Process, ctx: &Ctx) -> (r: Option<Vec<LogMonitor>>)
    ensures
        match r {
            Some(instances) => {
                &&& instances@.len() == process@.log_monitors.len()
                &&& forall|k: int|
                    0 <= k < instances@.len() ==> spec_instance_ok(
                        ctx.log_monitor_map.deep_view(),
                        process@.log_monitors[k],
                        #[trigger] instances@[k]@,
                    )
            },
            None => exists|k: int|
                0 <= k < process@.log_monitors.len() && spec_find_log_monitor(
                    ctx.log_monitor_map.deep_view(),
                    #[trigger] process@.log_monitors[k],
                ) is None,
        },
{
    let mut instances: Vec<LogMonitor> = Vec::new();
    let mut i: usize = 0;
    while i < process.log_monitors.len()
        invariant
            i <= process@.log_monitors.len(),
            instances@.len() == i,
            forall|k: int|
                0 <= k < i ==> spec_instance_ok(
                    ctx.log_monitor_map.deep_view(),
                    process@.log_monitors[k],
                    #[trigger] instances@[k]@,
                ),
        decreases process@.log_monitors.len() - i,
    {
        match ctx.find_log_monitor(process.log_monitors[i].as_str()) {
            Some(def) => {
                instances.push(def.instantiate());
                proof {
                    assert(instances@[i as int]@ == spec_fresh_instance(def@));
                    assert(spec_instance_ok(
                        ctx.log_monitor_map.deep_view(),
                        process@.log_monitors[i as int],
                        instances@[i as int]@,
                    ));
                }
            },
            None => {
                proof {
                    assert(spec_find_log_monitor(
                        ctx.log_monitor_map.deep_view(),
                        process@.log_monitors[i as int],
                    ) is None);
                }
                return None;
            },
        }
        i = i + 1;
    }
    Some(instances)
}

} // verus!
