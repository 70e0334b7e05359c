//! The top-level runtime object: jobs plus the shared context.

use crate::ctx::Ctx;
use crate::job::Job;
use crate::job::JobView;
use crate::local_bin::BinCommand;
use crate::log_monitor::LogMonitor;
use crate::log_monitor::LogMonitorView;
use crate::process::Process;
use crate::process::ProcessView;
use vstd::prelude::*;

verus! {

/// Mathematical image of a runtime.
pub ghost struct RuntimeView {
    pub bin: Seq<char>,
    pub bin_args: Seq<Seq<char>>,
    pub log_monitor_map: Seq<LogMonitorView>,
    pub process_map: Seq<ProcessView>,
    pub jobs: Seq<JobView>,
}

/// An ordered list of jobs plus the compiled context they run against.
/// Jobs execute strictly in order, fail-fast: the first job error aborts
/// the whole run, and already-completed children are not undone.
#[derive(Clone, Debug)]
pub struct Runtime {
    pub ctx: Ctx,
    pub jobs: Vec<Job>,
}

impl View for Runtime {
    type V = RuntimeView;

    open spec fn view(&self) -> RuntimeView {
        RuntimeView {
            bin: self.ctx.bin_command.bin@,
            bin_args: self.ctx.bin_command.args.deep_view(),
            log_monitor_map: self.ctx.log_monitor_map.deep_view(),
            process_map: self.ctx.process_map.deep_view(),
            jobs: self.jobs.deep_view(),
        }
    }
}

impl Runtime {
    /// Constructs a new, empty `Runtime` over the POSIX shell.
    pub fn new() -> (r: Self)
        ensures
            r@.bin == "sh"@,
            r@.bin_args == seq!["-c"@],
            r@.log_monitor_map == Seq::<LogMonitorView>::empty(),
            r@.process_map == Seq::<ProcessView>::empty(),
            r@.jobs == Seq::<JobView>::empty(),
            r.ctx.wf(),
    {
        let r = Runtime { ctx: Ctx::new(), jobs: Vec::new() };
        proof {
            assert(r.jobs.deep_view() =~= Seq::<JobView>::empty());
        }
        r
    }

    /// Builds `Runtime` with the specified jobs.
    pub fn jobs(self, j: Vec<Job>) -> (r: Self)
        ensures
            r@ == (RuntimeView { jobs: j.deep_view(), ..self@ }),
            self.ctx.wf() ==> r.ctx.wf(),
    {
        Runtime { jobs: j, ..self }
    }

    /// Builds `Runtime` with the specified log-monitor registry.
    pub fn log_monitor_map(self, m: Vec<LogMonitor>) -> (r: Self)
        ensures
            r@ == (RuntimeView { log_monitor_map: m.deep_view(), ..self@ }),
            (forall|i: int| 0 <= i < m@.len() ==> #[trigger] m@[i].wf()) ==> r.ctx.wf(),
    {
        Runtime { ctx: Ctx { log_monitor_map: m, ..self.ctx }, jobs: self.jobs }
    }

    /// Builds `Runtime` with the specified process registry.
    pub fn process_map(self, p: Vec<Process>) -> (r: Self)
        ensures
            r@ == (RuntimeView { process_map: p.deep_view(), ..self@ }),
            self.ctx.wf() ==> r.ctx.wf(),
    {
        Runtime { ctx: Ctx { process_map: p, ..self.ctx }, jobs: self.jobs }
    }

    /// Builds `Runtime` with the specified binary command.
    pub fn bin_command(self, c: BinCommand) -> (r: Self)
        ensures
            r@ == (RuntimeView { bin: c.bin@, bin_args: c.args.deep_view(), ..self@ }),
            self.ctx.wf() ==> r.ctx.wf(),
    {
        Runtime { ctx: Ctx { bin_command: c, ..self.ctx }, jobs: self.jobs }
    }
}

} // verus!
