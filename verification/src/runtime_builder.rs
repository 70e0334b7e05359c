//! Compilation of a raw profile into a validated, runnable runtime.
//!
//! The builder is a pure function from definitions, requested job names,
//! and ceilings to a runtime or a configuration error. Every reference a
//! job makes — process names, attached log monitors, action overrides —
//! must resolve, every working directory must exist, and every cardinality
//! must stay under its ceiling; the first violation wins and aborts
//! compilation before any process is spawned.

use crate::action::spec_is_builtin;
use crate::ctx::spec_find_log_monitor;
use crate::ctx::spec_find_process;
use crate::error::invalid_configuration;
use crate::error::ArpxError;
use crate::error::ArpxErrorView;
use crate::job::Job;
use crate::job::JobView;
use crate::limits::Limits;
use crate::log_monitor::LogMonitor;
use crate::log_monitor::LogMonitorView;
use crate::process::Process;
use crate::process::ProcessView;
use crate::profile::JobEntry;
use crate::profile::JobEntryView;
use crate::profile::OccurrenceView;
use crate::profile::ProcessOccurrence;
use crate::profile::Profile;
use crate::profile::ProfileLogMonitor;
use crate::profile::ProfileLogMonitorView;
use crate::profile::ProfileProcess;
use crate::profile::ProfileProcessView;
use crate::profile::ProfileView;
use crate::runtime::Runtime;
use crate::runtime::RuntimeView;
use crate::task::Task;
use crate::text::spec_dec;
use crate::text::push_decimal;
use vstd::prelude::*;

verus! {

// ---------------------------------------------------------------------
// What compiles to what.
// ---------------------------------------------------------------------

/// An empty action string in a profile means no action.
pub open spec fn spec_none_if_empty(s: Seq<char>) -> Option<Seq<char>> {
    if s.len() == 0 {
        None
    } else {
        Some(s)
    }
}

/// The registry entry a raw log-monitor definition compiles to: the
/// definition itself, with an empty buffer of the declared capacity.
pub open spec fn spec_compile_monitor(m: ProfileLogMonitorView) -> LogMonitorView {
    LogMonitorView {
        buffer: Seq::<Seq<char>>::empty(),
        buffer_size: m.buffer_size,
        name: m.name,
        ontrigger: m.ontrigger,
        test: m.test,
    }
}

/// The whole log-monitor registry of a profile.
pub open spec fn spec_monitor_lib(ms: Seq<ProfileLogMonitorView>) -> Seq<LogMonitorView> {
    ms.map_values(|m: ProfileLogMonitorView| spec_compile_monitor(m))
}

/// The registry entry a raw process definition compiles to.
pub open spec fn spec_compile_process(p: ProfileProcessView) -> ProcessView {
    ProcessView {
        command: p.command,
        cwd: p.cwd,
        log_monitors: p.log_monitors,
        name: p.name,
        onfail: spec_none_if_empty(p.onfail),
        onsucceed: spec_none_if_empty(p.onsucceed),
    }
}

/// The whole process registry of a profile.
pub open spec fn spec_process_lib(ps: Seq<ProfileProcessView>) -> Seq<ProcessView> {
    ps.map_values(|p: ProfileProcessView| spec_compile_process(p))
}

/// The first job entry with the given name, if any.
pub open spec fn spec_find_job(jobs: Seq<JobEntryView>, name: Seq<char>) -> Option<JobEntryView>
    decreases jobs.len(),
{
    if jobs.len() == 0 {
        None
    } else if jobs[0].name == name {
        Some(jobs[0])
    } else {
        spec_find_job(jobs.skip(1), name)
    }
}

/// Whether an action override resolves: a builtin tag or a registered
/// process name.
pub open spec fn spec_action_valid(lib: Seq<ProcessView>, name: Seq<char>) -> bool {
    spec_is_builtin(name) || spec_find_process(lib, name) is Some
}

/// The process one occurrence compiles to: the registered definition, with
/// this occurrence's monitor attachments and its action overrides where
/// given.
pub open spec fn spec_compile_occurrence(lib: Seq<ProcessView>, occ: OccurrenceView) -> ProcessView {
    let def = spec_find_process(lib, occ.name).unwrap();
    ProcessView {
        command: def.command,
        cwd: def.cwd,
        log_monitors: occ.log_monitors,
        name: def.name,
        onfail: if occ.onfail is Some {
            occ.onfail
        } else {
            def.onfail
        },
        onsucceed: if occ.onsucceed is Some {
            occ.onsucceed
        } else {
            def.onsucceed
        },
    }
}

/// The processes one task group compiles to, in order.
pub open spec fn spec_compile_task(lib: Seq<ProcessView>, occs: Seq<OccurrenceView>) -> Seq<
    ProcessView,
> {
    occs.map_values(|o: OccurrenceView| spec_compile_occurrence(lib, o))
}

/// The job one requested name compiles to.
pub open spec fn spec_compile_job(
    lib: Seq<ProcessView>,
    name: Seq<char>,
    outline: Seq<Seq<OccurrenceView>>,
) -> JobView {
    JobView { name, tasks: outline.map_values(|t: Seq<OccurrenceView>| spec_compile_task(lib, t)) }
}

/// The jobs all requested names compile to, in request order.
pub open spec fn spec_compile_jobs(
    names: Seq<Seq<char>>,
    jobs: Seq<JobEntryView>,
    lib: Seq<ProcessView>,
) -> Seq<JobView> {
    names.map_values(
        |n: Seq<char>| spec_compile_job(lib, n, spec_find_job(jobs, n).unwrap().outline),
    )
}

/// The runtime a valid profile compiles to, over the default POSIX shell.
pub open spec fn spec_built_runtime(profile: ProfileView, names: Seq<Seq<char>>) -> RuntimeView {
    RuntimeView {
        bin: "sh"@,
        bin_args: seq!["-c"@],
        log_monitor_map: spec_monitor_lib(profile.log_monitors),
        process_map: spec_process_lib(profile.processes),
        jobs: spec_compile_jobs(names, profile.jobs, spec_process_lib(profile.processes)),
    }
}

// ---------------------------------------------------------------------
// The error messages, exactly as surfaced.
// ---------------------------------------------------------------------

/// The common prefix of every task-indexed message (tasks are reported
/// 1-based).
pub open spec fn spec_task_prefix(job: Seq<char>, tix: nat) -> Seq<char> {
    "Job \""@ + job + "\", task "@ + spec_dec(tix) + ": "@
}

pub open spec fn spec_msg_no_jobs() -> Seq<char> {
    "No jobs requested for runtime"@
}

pub open spec fn spec_msg_too_many_monitors() -> Seq<char> {
    "Too many log_monitors defined in profile"@
}

pub open spec fn spec_msg_bad_cwd(cwd: Seq<char>, name: Seq<char>) -> Seq<char> {
    "Configured current working directory \""@ + cwd + "\" on process \""@ + name
        + "\" is not a valid directory"@
}

pub open spec fn spec_msg_too_many_processes() -> Seq<char> {
    "Too many processes defined in profile"@
}

pub open spec fn spec_msg_no_processes() -> Seq<char> {
    "No valid processes exist in profile"@
}

pub open spec fn spec_msg_job_missing(name: Seq<char>) -> Seq<char> {
    "Requested job \""@ + name + "\" not defined in jobs"@
}

pub open spec fn spec_msg_task_too_many_processes(job: Seq<char>, tix: nat) -> Seq<char> {
    spec_task_prefix(job, tix) + "too many processes"@
}

pub open spec fn spec_msg_process_missing(job: Seq<char>, tix: nat, name: Seq<char>) -> Seq<char> {
    spec_task_prefix(job, tix) + "process \""@ + name + "\" not defined in processes"@
}

pub open spec fn spec_msg_too_many_threads(job: Seq<char>, tix: nat) -> Seq<char> {
    spec_task_prefix(job, tix) + "too many threads (reduce processes or log_monitors on task)"@
}

pub open spec fn spec_msg_monitor_missing(job: Seq<char>, tix: nat, name: Seq<char>) -> Seq<char> {
    spec_task_prefix(job, tix) + "log monitor \""@ + name + "\" not defined in log_monitors"@
}

pub open spec fn spec_msg_invalid_onfail(job: Seq<char>, tix: nat, name: Seq<char>) -> Seq<char> {
    spec_task_prefix(job, tix) + "invalid onfail \""@ + name + "\" provided"@
}

pub open spec fn spec_msg_invalid_onsucceed(job: Seq<char>, tix: nat, name: Seq<char>) -> Seq<
    char,
> {
    spec_task_prefix(job, tix) + "invalid onsucceed \""@ + name + "\" provided"@
}

// ---------------------------------------------------------------------
// The first violation, if any.
// ---------------------------------------------------------------------

/// The first process whose working directory is not a directory.
pub open spec fn spec_cwd_fault(ps: Seq<ProfileProcessView>, cwd_ok: Seq<bool>) -> Option<
    Seq<char>,
>
    decreases ps.len(),
{
    if ps.len() == 0 || cwd_ok.len() == 0 {
        None
    } else if !cwd_ok[0] {
        Some(spec_msg_bad_cwd(ps[0].cwd, ps[0].name))
    } else {
        spec_cwd_fault(ps.skip(1), cwd_ok.skip(1))
    }
}

/// The first attached monitor name that is not registered.
pub open spec fn spec_monitors_fault(
    job: Seq<char>,
    tix: nat,
    mlib: Seq<LogMonitorView>,
    names: Seq<Seq<char>>,
) -> Option<Seq<char>>
    decreases names.len(),
{
    if names.len() == 0 {
        None
    } else if spec_find_log_monitor(mlib, names[0]) is None {
        Some(spec_msg_monitor_missing(job, tix, names[0]))
    } else {
        spec_monitors_fault(job, tix, mlib, names.skip(1))
    }
}

/// The first violation inside one occurrence: unresolved process name,
/// thread ceiling, unresolved monitor, invalid override.
pub open spec fn spec_occurrence_fault(
    job: Seq<char>,
    tix: nat,
    lib: Seq<ProcessView>,
    mlib: Seq<LogMonitorView>,
    task_len: int,
    limits: Limits,
    occ: OccurrenceView,
) -> Option<Seq<char>> {
    if spec_find_process(lib, occ.name) is None {
        Some(spec_msg_process_missing(job, tix, occ.name))
    } else if task_len + occ.log_monitors.len() > limits.thread_max {
        Some(spec_msg_too_many_threads(job, tix))
    } else {
        match spec_monitors_fault(job, tix, mlib, occ.log_monitors) {
            Some(m) => Some(m),
            None => match occ.onfail {
                Some(n) if !spec_action_valid(lib, n) => Some(spec_msg_invalid_onfail(job, tix, n)),
                _ => match occ.onsucceed {
                    Some(n) if !spec_action_valid(lib, n) => Some(
                        spec_msg_invalid_onsucceed(job, tix, n),
                    ),
                    _ => None,
                },
            },
        }
    }
}

/// The first violation among a task group's occurrences.
pub open spec fn spec_occurrences_fault(
    job: Seq<char>,
    tix: nat,
    lib: Seq<ProcessView>,
    mlib: Seq<LogMonitorView>,
    task_len: int,
    limits: Limits,
    occs: Seq<OccurrenceView>,
) -> Option<Seq<char>>
    decreases occs.len(),
{
    if occs.len() == 0 {
        None
    } else {
        match spec_occurrence_fault(job, tix, lib, mlib, task_len, limits, occs[0]) {
            Some(m) => Some(m),
            None => spec_occurrences_fault(job, tix, lib, mlib, task_len, limits, occs.skip(1)),
        }
    }
}

/// The first violation among a job's tasks, reported 1-based.
pub open spec fn spec_tasks_fault(
    job: Seq<char>,
    lib: Seq<ProcessView>,
    mlib: Seq<LogMonitorView>,
    limits: Limits,
    tasks: Seq<Seq<OccurrenceView>>,
    tix: nat,
) -> Option<Seq<char>>
    decreases tasks.len(),
{
    if tasks.len() == 0 {
        None
    } else if tasks[0].len() > limits.concurrent_processes_max {
        Some(spec_msg_task_too_many_processes(job, tix))
    } else {
        match spec_occurrences_fault(job, tix, lib, mlib, tasks[0].len() as int, limits, tasks[0]) {
            Some(m) => Some(m),
            None => spec_tasks_fault(job, lib, mlib, limits, tasks.skip(1), tix + 1),
        }
    }
}

/// The first violation among the requested jobs, in request order.
pub open spec fn spec_jobs_fault(
    names: Seq<Seq<char>>,
    jobs: Seq<JobEntryView>,
    lib: Seq<ProcessView>,
    mlib: Seq<LogMonitorView>,
    limits: Limits,
) -> Option<Seq<char>>
    decreases names.len(),
{
    if names.len() == 0 {
        None
    } else {
        match spec_find_job(jobs, names[0]) {
            None => Some(spec_msg_job_missing(names[0])),
            Some(entry) => match spec_tasks_fault(names[0], lib, mlib, limits, entry.outline, 1) {
                Some(m) => Some(m),
                None => spec_jobs_fault(names.skip(1), jobs, lib, mlib, limits),
            },
        }
    }
}

/// The first violation in the whole compilation, in checking order: the
/// requested job list, the monitor registry's ceiling, the working
/// directories, the process registry's ceiling and non-emptiness, then
/// every requested job. `None` means the profile compiles.
pub open spec fn spec_build_fault(
    profile: ProfileView,
    names: Seq<Seq<char>>,
    limits: Limits,
    cwd_ok: Seq<bool>,
) -> Option<Seq<char>> {
    let mlib = spec_monitor_lib(profile.log_monitors);
    let lib = spec_process_lib(profile.processes);
    if names.len() == 0 {
        Some(spec_msg_no_jobs())
    } else if mlib.len() > limits.log_monitors_max {
        Some(spec_msg_too_many_monitors())
    } else {
        match spec_cwd_fault(profile.processes, cwd_ok) {
            Some(m) => Some(m),
            None => if lib.len() > limits.processes_max {
                Some(spec_msg_too_many_processes())
            } else if lib.len() == 0 {
                Some(spec_msg_no_processes())
            } else {
                spec_jobs_fault(names, profile.jobs, lib, mlib, limits)
            },
        }
    }
}

// ---------------------------------------------------------------------
// Exec message builders.
// ---------------------------------------------------------------------

/// The common prefix of every task-indexed message.
fn task_prefix(job: &String, tix: usize) -> (r: String)
    ensures
        r@ == spec_task_prefix(job@, tix as nat),
{
    let mut out = String::new();
    out.append("Job \"");
    out.append(job.as_str());
    out.append("\", task ");
    push_decimal(&mut out, tix);
    out.append(": ");
    proof {
        assert(out@ =~= spec_task_prefix(job@, tix as nat));
    }
    out
}

/// A task-indexed message: the prefix, a quoted name, and a tail.
fn task_message(job: &String, tix: usize, head: &str, name: &String, tail: &str) -> (r: String)
    ensures
        r@ == spec_task_prefix(job@, tix as nat) + head@ + name@ + tail@,
{
    let mut out = task_prefix(job, tix);
    out.append(head);
    out.append(name.as_str());
    out.append(tail);
    proof {
        assert(out@ =~= spec_task_prefix(job@, tix as nat) + head@ + name@ + tail@);
    }
    out
}

/// A task-indexed message with no name in it: the prefix and a tail.
fn task_tail_message(job: &String, tix: usize, tail: &str) -> (r: String)
    ensures
        r@ == spec_task_prefix(job@, tix as nat) + tail@,
{
    let mut out = task_prefix(job, tix);
    out.append(tail);
    out
}

fn msg_bad_cwd(cwd: &String, name: &String) -> (r: String)
    ensures
        r@ == spec_msg_bad_cwd(cwd@, name@),
{
    let mut out = String::new();
    out.append("Configured current working directory \"");
    out.append(cwd.as_str());
    out.append("\" on process \"");
    out.append(name.as_str());
    out.append("\" is not a valid directory");
    proof {
        assert(out@ =~= spec_msg_bad_cwd(cwd@, name@));
    }
    out
}

fn msg_job_missing(name: &String) -> (r: String)
    ensures
        r@ == spec_msg_job_missing(name@),
{
    let mut out = String::new();
    out.append("Requested job \"");
    out.append(name.as_str());
    out.append("\" not defined in jobs");
    proof {
        assert(out@ =~= spec_msg_job_missing(name@));
    }
    out
}

// ---------------------------------------------------------------------
// Exec compilation helpers.
// ---------------------------------------------------------------------

/// An empty action string means no action.
fn none_if_empty(s: &String) -> (r: Option<String>)
    ensures
        r.deep_view() == spec_none_if_empty(s@),
{
    if s.as_str().is_empty() {
        None
    } else {
        Some(s.clone())
    }
}

/// Compiles one raw log-monitor definition into its registry entry.
fn compile_monitor(m: &ProfileLogMonitor) -> (r: LogMonitor)
    ensures
        r@ == spec_compile_monitor(m@),
        r.wf(),
{
    LogMonitor::new(m.name.clone()).buffer_size(m.buffer_size).ontrigger(
        m.ontrigger.clone(),
    ).test(m.test.clone())
}

/// Compiles one raw process definition into its registry entry.
fn compile_process(p: &ProfileProcess) -> (r: Process)
    ensures
        r@ == spec_compile_process(p@),
{
    Process::new(p.name.clone()).command(p.command.clone()).cwd(p.cwd.clone()).log_monitors(
        crate::util::clone_string_vec(&p.log_monitors),
    ).onfail(none_if_empty(&p.onfail)).onsucceed(none_if_empty(&p.onsucceed))
}

/// Compiles one occurrence against its registry entry: the definition,
/// this occurrence's monitor attachments, and its overrides where given.
fn compile_occurrence(def: &Process, occ: &ProcessOccurrence) -> (r: Process)
    ensures
        r@ == (ProcessView {
            command: def@.command,
            cwd: def@.cwd,
            log_monitors: occ@.log_monitors,
            name: def@.name,
            onfail: if occ@.onfail is Some {
                occ@.onfail
            } else {
                def@.onfail
            },
            onsucceed: if occ@.onsucceed is Some {
                occ@.onsucceed
            } else {
                def@.onsucceed
            },
        }),
{
    let onfail = match &occ.onfail {
        Some(n) => Some(n.clone()),
        None => crate::util::clone_opt_string(&def.onfail),
    };
    let onsucceed = match &occ.onsucceed {
        Some(n) => Some(n.clone()),
        None => crate::util::clone_opt_string(&def.onsucceed),
    };
    Process::new(def.name.clone()).command(def.command.clone()).cwd(def.cwd.clone()).log_monitors(
        crate::util::clone_string_vec(&occ.log_monitors),
    ).onfail(onfail).onsucceed(onsucceed)
}

/// Looks a job entry up by name.
fn find_job_in<'a>(jobs: &'a Vec<JobEntry>, name: &str) -> (r: Option<&'a JobEntry>)
    ensures
        match r {
            Some(j) => spec_find_job(jobs.deep_view(), name@) == Some(j@),
            None => spec_find_job(jobs.deep_view(), name@) is None,
        },
{
    let ghost views = jobs.deep_view();
    proof {
        assert(views.skip(0) =~= views);
    }
    let mut i: usize = 0;
    while i < jobs.len()
        invariant
            i <= views.len(),
            views == jobs.deep_view(),
            spec_find_job(views, name@) == spec_find_job(views.skip(i as int), name@),
        decreases views.len() - i,
    {
        let candidate = &jobs[i];
        proof {
            assert(views.skip(i as int)[0] == views[i as int]);
        }
        if crate::util::str_eq_string(&candidate.name, name) {
            return Some(candidate);
        }
        proof {
            assert(views.skip(i as int).skip(1) =~= views.skip(i + 1));
        }
        i = i + 1;
    }
    proof {
        assert(views.skip(views.len() as int) =~= Seq::<JobEntryView>::empty());
    }
    None
}

/// Whether an action override resolves: a builtin tag or a registered
/// process name.
fn action_valid(lib: &Vec<Process>, name: &String) -> (r: bool)
    ensures
        r == spec_action_valid(lib.deep_view(), name@),
{
    crate::action::is_builtin_action(name.as_str()) || match crate::ctx::find_process_in(
        lib,
        name.as_str(),
    ) {
        Some(_) => true,
        None => false,
    }
}

/// What a build result must be, given which working directories exist:
/// the compiled runtime exactly when nothing is violated, and the first
/// violation as a configuration error otherwise.
pub open spec fn spec_build_result(
    profile: ProfileView,
    names: Seq<Seq<char>>,
    limits: Limits,
    cwd_ok: Seq<bool>,
    r: Result<Runtime, ArpxError>,
) -> bool {
    match r {
        Ok(rt) => spec_build_fault(profile, names, limits, cwd_ok) is None && rt@
            == spec_built_runtime(profile, names),
        Err(e) => match spec_build_fault(profile, names, limits, cwd_ok) {
            Some(m) => e@ == ArpxErrorView::InvalidConfiguration(m),
            None => false,
        },
    }
}

/// Relies on `std::path::Path::is_dir`. Nothing is promised of the
/// result: it depends on the machine's file system at the moment of the
/// call.
#[verifier::external_body]
fn path_is_dir(path: &String) -> bool {
    std::path::Path::new(path.as_str()).is_dir()
}

/// Compiles raw definitions and requested job names into a validated
/// runtime.
pub struct RuntimeBuilder;

impl RuntimeBuilder {
    /// The log-monitor registry of a profile.
    pub fn build_log_monitor_lib(log_monitors: &Vec<ProfileLogMonitor>) -> (r: Vec<LogMonitor>)
        ensures
            r.deep_view() == spec_monitor_lib(log_monitors.deep_view()),
            forall|k: int| 0 <= k < r@.len() ==> #[trigger] r@[k].wf(),
    {
        let mut lib: Vec<LogMonitor> = Vec::new();
        let mut i: usize = 0;
        while i < log_monitors.len()
            invariant
                i <= log_monitors@.len(),
                lib@.len() == i,
                forall|k: int|
                    0 <= k < i ==> #[trigger] lib@[k]@ == spec_compile_monitor(
                        log_monitors@[k]@,
                    ),
                forall|k: int| 0 <= k < i ==> #[trigger] lib@[k].wf(),
            decreases log_monitors@.len() - i,
        {
            lib.push(compile_monitor(&log_monitors[i]));
            i = i + 1;
        }
        proof {
            assert(lib.deep_view() =~= spec_monitor_lib(log_monitors.deep_view()));
        }
        lib
    }

    /// The process registry of a profile, given which working directories
    /// exist: the registry, or the first definition whose directory does
    /// not.
    pub fn build_process_lib(processes: &Vec<ProfileProcess>, cwd_ok: &Vec<bool>) -> (r: Result<
        Vec<Process>,
        ArpxError,
    >)
        requires
            cwd_ok@.len() == processes@.len(),
        ensures
            match r {
                Ok(lib) => spec_cwd_fault(processes.deep_view(), cwd_ok@) is None && lib.deep_view()
                    == spec_process_lib(processes.deep_view()),
                Err(e) => match spec_cwd_fault(processes.deep_view(), cwd_ok@) {
                    Some(m) => e@ == ArpxErrorView::InvalidConfiguration(m),
                    None => false,
                },
            },
    {
        let ghost views = processes.deep_view();
        proof {
            assert(views.skip(0) =~= views);
            assert(cwd_ok@.skip(0) =~= cwd_ok@);
        }
        let mut lib: Vec<Process> = Vec::new();
        let mut i: usize = 0;
        while i < processes.len()
            invariant
                i <= views.len(),
                views == processes.deep_view(),
                cwd_ok@.len() == views.len(),
                lib@.len() == i,
                forall|k: int|
                    0 <= k < i ==> #[trigger] lib@[k]@ == spec_compile_process(views[k]),
                spec_cwd_fault(views, cwd_ok@) == spec_cwd_fault(
                    views.skip(i as int),
                    cwd_ok@.skip(i as int),
                ),
            decreases views.len() - i,
        {
            proof {
                assert(views.skip(i as int)[0] == views[i as int]);
                assert(cwd_ok@.skip(i as int)[0] == cwd_ok@[i as int]);
            }
            if !cwd_ok[i] {
                return Err(
                    invalid_configuration(msg_bad_cwd(&processes[i].cwd, &processes[i].name)),
                );
            }
            lib.push(compile_process(&processes[i]));
            proof {
                assert(views.skip(i as int).skip(1) =~= views.skip(i + 1));
                assert(cwd_ok@.skip(i as int).skip(1) =~= cwd_ok@.skip(i + 1));
            }
            i = i + 1;
        }
        proof {
            assert(views.skip(views.len() as int) =~= Seq::<ProfileProcessView>::empty());
            assert(lib.deep_view() =~= spec_process_lib(views));
        }
        Ok(lib)
    }

    /// Compiles a profile for the requested job names, told which working
    /// directories exist. The result is the compiled runtime exactly when
    /// nothing is violated, and the first violation otherwise.
    pub fn build_with_dir_info(
        profile: &Profile,
        job_names: &Vec<String>,
        limits: &Limits,
        cwd_ok: &Vec<bool>,
    ) -> (r: Result<Runtime, ArpxError>)
        requires
            cwd_ok@.len() == profile.processes@.len(),
        ensures
            spec_build_result(profile@, job_names.deep_view(), *limits, cwd_ok@, r),
            r matches Ok(rt) ==> rt.ctx.wf(),
    {
        let ghost pv = profile@;
        let ghost namesv = job_names.deep_view();
        let ghost mlibv = spec_monitor_lib(pv.log_monitors);
        let ghost libv = spec_process_lib(pv.processes);
        if job_names.len() == 0 {
            return Err(invalid_configuration("No jobs requested for runtime".to_owned()));
        }
        let log_monitor_lib = Self::build_log_monitor_lib(&profile.log_monitors);
        if log_monitor_lib.len() > limits.log_monitors_max {
            return Err(
                invalid_configuration("Too many log_monitors defined in profile".to_owned()),
            );
        }
        let process_lib = match Self::build_process_lib(&profile.processes, cwd_ok) {
            Ok(lib) => lib,
            Err(e) => {
                return Err(e);
            },
        };
        if process_lib.len() > limits.processes_max {
            return Err(invalid_configuration("Too many processes defined in profile".to_owned()));
        }
        if process_lib.len() == 0 {
            return Err(invalid_configuration("No valid processes exist in profile".to_owned()));
        }
        let mut jobs: Vec<Job> = Vec::new();
        let mut ji: usize = 0;
        proof {
            assert(namesv.skip(0) =~= namesv);
            assert(jobs.deep_view() =~= spec_compile_jobs(namesv.take(0), pv.jobs, libv));
        }
        while ji < job_names.len()
            invariant
                ji <= namesv.len(),
                namesv == job_names.deep_view(),
                pv == profile@,
                libv == spec_process_lib(pv.processes),
                mlibv == spec_monitor_lib(pv.log_monitors),
                process_lib.deep_view() == libv,
                log_monitor_lib.deep_view() == mlibv,
                namesv.len() > 0,
                mlibv.len() <= limits.log_monitors_max,
                spec_cwd_fault(pv.processes, cwd_ok@) is None,
                libv.len() <= limits.processes_max,
                libv.len() > 0,
                jobs@.len() == ji,
                jobs.deep_view() == spec_compile_jobs(namesv.take(ji as int), pv.jobs, libv),
                spec_jobs_fault(namesv, pv.jobs, libv, mlibv, *limits) == spec_jobs_fault(
                    namesv.skip(ji as int),
                    pv.jobs,
                    libv,
                    mlibv,
                    *limits,
                ),
            decreases namesv.len() - ji,
        {
            let job_name = &job_names[ji];
            proof {
                assert(namesv.skip(ji as int)[0] == namesv[ji as int]);
                assert(namesv[ji as int] == job_name@);
            }
            let entry = match find_job_in(&profile.jobs, job_name.as_str()) {
                Some(entry) => entry,
                None => {
                    return Err(invalid_configuration(msg_job_missing(job_name)));
                },
            };
            let ghost outline = spec_find_job(pv.jobs, namesv[ji as int]).unwrap().outline;
            let tasks = match Self::build_job_tasks(
                entry,
                job_name,
                &process_lib,
                &log_monitor_lib,
                limits,
            ) {
                Ok(tasks) => tasks,
                Err(e) => {
                    return Err(e);
                },
            };
            let ghost prev_deep = jobs.deep_view();
            jobs.push(Job::new(job_name.clone(), tasks));
            proof {
                assert(jobs@[ji as int]@.tasks =~= spec_compile_job(
                    libv,
                    namesv[ji as int],
                    outline,
                ).tasks);
                assert(jobs@[ji as int]@ == spec_compile_job(libv, namesv[ji as int], outline));
                let ghost target = spec_compile_jobs(namesv.take(ji + 1), pv.jobs, libv);
                assert(jobs.deep_view().len() == ji + 1);
                assert(target.len() == ji + 1);
                assert forall|m: int| 0 <= m < ji + 1 implies jobs.deep_view()[m]
                    == target[m] by {
                    assert(namesv.take(ji + 1)[m] == namesv[m]);
                    assert(target[m] == spec_compile_job(
                        libv,
                        namesv[m],
                        spec_find_job(pv.jobs, namesv[m]).unwrap().outline,
                    ));
                    if m < ji {
                        assert(jobs.deep_view()[m] == jobs@[m].deep_view());
                        assert(jobs@[m].deep_view() == prev_deep[m]);
                        assert(namesv.take(ji as int)[m] == namesv[m]);
                        assert(prev_deep[m] == spec_compile_job(
                            libv,
                            namesv.take(ji as int)[m],
                            spec_find_job(pv.jobs, namesv.take(ji as int)[m]).unwrap().outline,
                        ));
                    } else {
                        assert(jobs.deep_view()[m] == jobs@[ji as int]@);
                    }
                }
                assert(jobs.deep_view() =~= target);
                assert(namesv.skip(ji as int).skip(1) =~= namesv.skip(ji + 1));
            }
            ji = ji + 1;
        }
        proof {
            assert(namesv.skip(namesv.len() as int) =~= Seq::<Seq<char>>::empty());
            assert(namesv.take(namesv.len() as int) =~= namesv);
        }
        let runtime = Runtime::new().jobs(jobs).log_monitor_map(log_monitor_lib).process_map(
            process_lib,
        );
        proof {
            assert(runtime@.jobs =~= spec_compile_jobs(namesv, pv.jobs, libv));
            assert(runtime@ == spec_built_runtime(pv, namesv));
        }
        Ok(runtime)
    }

    /// Compiles the tasks of one requested job, or its first violation.
    fn build_job_tasks(
        entry: &JobEntry,
        job_name: &String,
        process_lib: &Vec<Process>,
        log_monitor_lib: &Vec<LogMonitor>,
        limits: &Limits,
    ) -> (r: Result<Vec<Task>, ArpxError>)
        ensures
            match r {
                Ok(tasks) => spec_tasks_fault(
                    job_name@,
                    process_lib.deep_view(),
                    log_monitor_lib.deep_view(),
                    *limits,
                    entry@.outline,
                    1,
                ) is None && tasks.deep_view() == entry@.outline.map_values(
                    |t: Seq<OccurrenceView>| spec_compile_task(process_lib.deep_view(), t),
                ),
                Err(e) => match spec_tasks_fault(
                    job_name@,
                    process_lib.deep_view(),
                    log_monitor_lib.deep_view(),
                    *limits,
                    entry@.outline,
                    1,
                ) {
                    Some(m) => e@ == ArpxErrorView::InvalidConfiguration(m),
                    None => false,
                },
            },
    {
        let ghost libv = process_lib.deep_view();
        let ghost mlibv = log_monitor_lib.deep_view();
        let ghost outline = entry@.outline;
        let mut tasks: Vec<Task> = Vec::new();
        let mut ti: usize = 0;
        proof {
            assert(outline.skip(0) =~= outline);
        }
        while ti < entry.outline.tasks.len()
            invariant
                ti <= outline.len(),
                outline == entry@.outline,
                libv == process_lib.deep_view(),
                mlibv == log_monitor_lib.deep_view(),
                tasks@.len() == ti,
                forall|k: int|
                    0 <= k < ti ==> #[trigger] tasks@[k]@ == spec_compile_task(libv, outline[k]),
                spec_tasks_fault(job_name@, libv, mlibv, *limits, outline, 1) == spec_tasks_fault(
                    job_name@,
                    libv,
                    mlibv,
                    *limits,
                    outline.skip(ti as int),
                    (ti + 1) as nat,
                ),
            decreases outline.len() - ti,
        {
            let outline_task = &entry.outline.tasks[ti];
            let tix = ti + 1;
            proof {
                assert(outline.skip(ti as int)[0] == outline[ti as int]);
                assert(outline[ti as int] == outline_task@);
            }
            if outline_task.processes.len() > limits.concurrent_processes_max {
                return Err(
                    invalid_configuration(task_tail_message(job_name, tix, "too many processes")),
                );
            }
            let procs = match Self::build_task_processes(
                outline_task,
                job_name,
                tix,
                process_lib,
                log_monitor_lib,
                limits,
            ) {
                Ok(procs) => procs,
                Err(e) => {
                    return Err(e);
                },
            };
            tasks.push(Task::new(procs));
            proof {
                assert(outline.skip(ti as int).skip(1) =~= outline.skip(ti + 1));
            }
            ti = ti + 1;
        }
        proof {
            assert(outline.skip(outline.len() as int) =~= Seq::<Seq<OccurrenceView>>::empty());
            assert(tasks.deep_view() =~= outline.map_values(
                |t: Seq<OccurrenceView>| spec_compile_task(libv, t),
            ));
        }
        Ok(tasks)
    }

    /// Compiles the occurrences of one task group, or its first violation.
    fn build_task_processes(
        outline_task: &crate::profile::TaskOutline,
        job_name: &String,
        tix: usize,
        process_lib: &Vec<Process>,
        log_monitor_lib: &Vec<LogMonitor>,
        limits: &Limits,
    ) -> (r: Result<Vec<Process>, ArpxError>)
        requires
            tix >= 1,
            outline_task@.len() <= limits.concurrent_processes_max,
        ensures
            match r {
                Ok(procs) => spec_occurrences_fault(
                    job_name@,
                    tix as nat,
                    process_lib.deep_view(),
                    log_monitor_lib.deep_view(),
                    outline_task@.len() as int,
                    *limits,
                    outline_task@,
                ) is None && procs.deep_view() == spec_compile_task(
                    process_lib.deep_view(),
                    outline_task@,
                ),
                Err(e) => match spec_occurrences_fault(
                    job_name@,
                    tix as nat,
                    process_lib.deep_view(),
                    log_monitor_lib.deep_view(),
                    outline_task@.len() as int,
                    *limits,
                    outline_task@,
                ) {
                    Some(m) => e@ == ArpxErrorView::InvalidConfiguration(m),
                    None => false,
                },
            },
    {
        let ghost libv = process_lib.deep_view();
        let ghost mlibv = log_monitor_lib.deep_view();
        let ghost occs = outline_task@;
        let task_len = outline_task.processes.len();
        let mut procs: Vec<Process> = Vec::new();
        let mut pi: usize = 0;
        proof {
            assert(occs.skip(0) =~= occs);
        }
        while pi < outline_task.processes.len()
            invariant
                pi <= occs.len(),
                occs == outline_task@,
                task_len == occs.len(),
                libv == process_lib.deep_view(),
                mlibv == log_monitor_lib.deep_view(),
                procs@.len() == pi,
                forall|k: int|
                    0 <= k < pi ==> #[trigger] procs@[k]@ == spec_compile_occurrence(
                        libv,
                        occs[k],
                    ),
                spec_occurrences_fault(job_name@, tix as nat, libv, mlibv, occs.len() as int, *limits, occs)
                    == spec_occurrences_fault(
                    job_name@,
                    tix as nat,
                    libv,
                    mlibv,
                    occs.len() as int,
                    *limits,
                    occs.skip(pi as int),
                ),
            decreases occs.len() - pi,
        {
            let occ = &outline_task.processes[pi];
            proof {
                assert(occs.skip(pi as int)[0] == occs[pi as int]);
                assert(occs[pi as int] == occ@);
            }
            let def = match crate::ctx::find_process_in(process_lib, occ.name.as_str()) {
                Some(def) => def,
                None => {
                    return Err(
                        invalid_configuration(
                            task_message(
                                job_name,
                                tix,
                                "process \"",
                                &occ.name,
                                "\" not defined in processes",
                            ),
                        ),
                    );
                },
            };
            if occ.log_monitors.len() > limits.thread_max || task_len > limits.thread_max
                - occ.log_monitors.len() {
                return Err(
                    invalid_configuration(
                        task_tail_message(
                            job_name,
                            tix,
                            "too many threads (reduce processes or log_monitors on task)",
                        ),
                    ),
                );
            }
            match Self::check_monitor_names(occ, job_name, tix, log_monitor_lib) {
                Ok(_unit) => {},
                Err(e) => {
                    return Err(e);
                },
            }
            match &occ.onfail {
                Some(name) => {
                    if !action_valid(process_lib, name) {
                        return Err(
                            invalid_configuration(
                                task_message(
                                    job_name,
                                    tix,
                                    "invalid onfail \"",
                                    name,
                                    "\" provided",
                                ),
                            ),
                        );
                    }
                },
                None => {},
            }
            match &occ.onsucceed {
                Some(name) => {
                    if !action_valid(process_lib, name) {
                        return Err(
                            invalid_configuration(
                                task_message(
                                    job_name,
                                    tix,
                                    "invalid onsucceed \"",
                                    name,
                                    "\" provided",
                                ),
                            ),
                        );
                    }
                },
                None => {},
            }
            procs.push(compile_occurrence(def, occ));
            proof {
                assert(spec_occurrence_fault(
                    job_name@,
                    tix as nat,
                    libv,
                    mlibv,
                    occs.len() as int,
                    *limits,
                    occs[pi as int],
                ) is None);
                assert(occs.skip(pi as int).skip(1) =~= occs.skip(pi + 1));
            }
            pi = pi + 1;
        }
        proof {
            assert(occs.skip(occs.len() as int) =~= Seq::<OccurrenceView>::empty());
            assert(procs.deep_view() =~= spec_compile_task(libv, occs));
        }
        Ok(procs)
    }

    /// Checks that every monitor name an occurrence attaches is
    /// registered.
    fn check_monitor_names(
        occ: &ProcessOccurrence,
        job_name: &String,
        tix: usize,
        log_monitor_lib: &Vec<LogMonitor>,
    ) -> (r: Result<(), ArpxError>)
        ensures
            match r {
                Ok(_) => spec_monitors_fault(
                    job_name@,
                    tix as nat,
                    log_monitor_lib.deep_view(),
                    occ@.log_monitors,
                ) is None,
                Err(e) => match spec_monitors_fault(
                    job_name@,
                    tix as nat,
                    log_monitor_lib.deep_view(),
                    occ@.log_monitors,
                ) {
                    Some(m) => e@ == ArpxErrorView::InvalidConfiguration(m),
                    None => false,
                },
            },
    {
        let ghost mlibv = log_monitor_lib.deep_view();
        let ghost names = occ@.log_monitors;
        let mut mi: usize = 0;
        proof {
            assert(names.skip(0) =~= names);
        }
        while mi < occ.log_monitors.len()
            invariant
                mi <= names.len(),
                names == occ@.log_monitors,
                mlibv == log_monitor_lib.deep_view(),
                spec_monitors_fault(job_name@, tix as nat, mlibv, names) == spec_monitors_fault(
                    job_name@,
                    tix as nat,
                    mlibv,
                    names.skip(mi as int),
                ),
            decreases names.len() - mi,
        {
            proof {
                assert(names.skip(mi as int)[0] == names[mi as int]);
            }
            match crate::ctx::find_log_monitor_in(log_monitor_lib, occ.log_monitors[mi].as_str()) {
                Some(_def) => {},
                None => {
                    return Err(
                        invalid_configuration(
                            task_message(
                                job_name,
                                tix,
                                "log monitor \"",
                                &occ.log_monitors[mi],
                                "\" not defined in log_monitors",
                            ),
                        ),
                    );
                },
            }
            proof {
                assert(names.skip(mi as int).skip(1) =~= names.skip(mi + 1));
            }
            mi = mi + 1;
        }
        proof {
            assert(names.skip(names.len() as int) =~= Seq::<Seq<char>>::empty());
        }
        Ok(())
    }

    /// Compiles a profile for the requested job names, checking each
    /// process's working directory against the file system. Whatever the
    /// file system answered, the result is exact for those answers: the
    /// compiled runtime when nothing is violated, the first violation
    /// otherwise.
    pub fn from_profile_and_job_names(
        profile: &Profile,
        job_names: &Vec<String>,
        limits: &Limits,
    ) -> (r: Result<Runtime, ArpxError>)
        ensures
            exists|cwd_ok: Seq<bool>|
                cwd_ok.len() == profile@.processes.len() && spec_build_result(
                    profile@,
                    job_names.deep_view(),
                    *limits,
                    cwd_ok,
                    r,
                ),
            r matches Ok(rt) ==> rt@ == spec_built_runtime(profile@, job_names.deep_view())
                && rt.ctx.wf(),
    {
        let mut cwd_ok: Vec<bool> = Vec::new();
        let mut i: usize = 0;
        while i < profile.processes.len()
            invariant
                i <= profile.processes@.len(),
                cwd_ok@.len() == i,
            decreases profile.processes@.len() - i,
        {
            cwd_ok.push(path_is_dir(&profile.processes[i].cwd));
            i = i + 1;
        }
        let r = Self::build_with_dir_info(profile, job_names, limits, &cwd_ok);
        proof {
            assert(cwd_ok@.len() == profile@.processes.len() && spec_build_result(
                profile@,
                job_names.deep_view(),
                *limits,
                cwd_ok@,
                r,
            ));
        }
        r
    }
}

// ---------------------------------------------------------------------
// Validation characterized: compilation succeeds exactly on profiles
// where every reference resolves, every directory exists, and every
// cardinality stays under its ceiling.
// ---------------------------------------------------------------------

/// Whether one occurrence breaks no rule: its process name resolves, the
/// task stays under the thread ceiling, every attached monitor resolves,
/// and any action override is a builtin tag or a registered process.
pub open spec fn spec_occurrence_ok(
    lib: Seq<ProcessView>,
    mlib: Seq<LogMonitorView>,
    task_len: int,
    limits: Limits,
    occ: OccurrenceView,
) -> bool {
    &&& spec_find_process(lib, occ.name) is Some
    &&& task_len + occ.log_monitors.len() <= limits.thread_max
    &&& forall|m: int|
        0 <= m < occ.log_monitors.len() ==> spec_find_log_monitor(
            mlib,
            #[trigger] occ.log_monitors[m],
        ) is Some
    &&& match occ.onfail {
        Some(n) => spec_action_valid(lib, n),
        None => true,
    }
    &&& match occ.onsucceed {
        Some(n) => spec_action_valid(lib, n),
        None => true,
    }
}

/// Whether one task group breaks no rule.
pub open spec fn spec_task_ok(
    lib: Seq<ProcessView>,
    mlib: Seq<LogMonitorView>,
    limits: Limits,
    occs: Seq<OccurrenceView>,
) -> bool {
    &&& occs.len() <= limits.concurrent_processes_max
    &&& forall|p: int|
        0 <= p < occs.len() ==> spec_occurrence_ok(
            lib,
            mlib,
            occs.len() as int,
            limits,
            #[trigger] occs[p],
        )
}

/// Whether one requested job name resolves to a job whose tasks all pass.
pub open spec fn spec_job_ok(
    jobs: Seq<JobEntryView>,
    lib: Seq<ProcessView>,
    mlib: Seq<LogMonitorView>,
    limits: Limits,
    name: Seq<char>,
) -> bool {
    match spec_find_job(jobs, name) {
        Some(entry) => forall|t: int|
            0 <= t < entry.outline.len() ==> spec_task_ok(
                lib,
                mlib,
                limits,
                #[trigger] entry.outline[t],
            ),
        None => false,
    }
}

/// Whether a whole compilation breaks no rule.
pub open spec fn spec_profile_valid(
    profile: ProfileView,
    names: Seq<Seq<char>>,
    limits: Limits,
    cwd_ok: Seq<bool>,
) -> bool {
    let mlib = spec_monitor_lib(profile.log_monitors);
    let lib = spec_process_lib(profile.processes);
    &&& names.len() > 0
    &&& profile.log_monitors.len() <= limits.log_monitors_max
    &&& forall|i: int| 0 <= i < cwd_ok.len() ==> #[trigger] cwd_ok[i]
    &&& profile.processes.len() <= limits.processes_max
    &&& profile.processes.len() > 0
    &&& forall|j: int|
        0 <= j < names.len() ==> spec_job_ok(profile.jobs, lib, mlib, limits, #[trigger] names[j])
}

/// A directory check faults exactly when some directory is missing.
proof fn lemma_cwd_fault_none(ps: Seq<ProfileProcessView>, cwd_ok: Seq<bool>)
    requires
        ps.len() == cwd_ok.len(),
    ensures
        spec_cwd_fault(ps, cwd_ok) is None <==> forall|i: int|
            0 <= i < cwd_ok.len() ==> #[trigger] cwd_ok[i],
    decreases ps.len(),
{
    if ps.len() > 0 {
        lemma_cwd_fault_none(ps.skip(1), cwd_ok.skip(1));
        if cwd_ok[0] {
            if forall|i: int| 0 <= i < cwd_ok.skip(1).len() ==> #[trigger] cwd_ok.skip(1)[i] {
                assert forall|i: int| 0 <= i < cwd_ok.len() implies #[trigger] cwd_ok[i] by {
                    if i > 0 {
                        assert(cwd_ok.skip(1)[i - 1] == cwd_ok[i]);
                        assert(cwd_ok.skip(1)[i - 1]);
                    }
                }
            } else {
                let i = choose|i: int| 0 <= i < cwd_ok.skip(1).len() && !#[trigger] cwd_ok.skip(
                    1,
                )[i];
                assert(cwd_ok.skip(1)[i] == cwd_ok[i + 1]);
                assert(!cwd_ok[i + 1]);
            }
        }
    }
}

/// The monitor-name check faults exactly when some name is unregistered.
proof fn lemma_monitors_fault_none(
    job: Seq<char>,
    tix: nat,
    mlib: Seq<LogMonitorView>,
    names: Seq<Seq<char>>,
)
    ensures
        spec_monitors_fault(job, tix, mlib, names) is None <==> forall|m: int|
            0 <= m < names.len() ==> spec_find_log_monitor(mlib, #[trigger] names[m]) is Some,
    decreases names.len(),
{
    if names.len() > 0 {
        lemma_monitors_fault_none(job, tix, mlib, names.skip(1));
        if spec_find_log_monitor(mlib, names[0]) is Some {
            if forall|m: int|
                0 <= m < names.skip(1).len() ==> spec_find_log_monitor(
                    mlib,
                    #[trigger] names.skip(1)[m],
                ) is Some {
                assert forall|m: int| 0 <= m < names.len() implies spec_find_log_monitor(
                    mlib,
                    #[trigger] names[m],
                ) is Some by {
                    if m > 0 {
                        assert(names.skip(1)[m - 1] == names[m]);
                        assert(spec_find_log_monitor(mlib, names.skip(1)[m - 1]) is Some);
                    }
                }
            } else {
                let m = choose|m: int|
                    0 <= m < names.skip(1).len() && !(spec_find_log_monitor(
                        mlib,
                        #[trigger] names.skip(1)[m],
                    ) is Some);
                assert(names.skip(1)[m] == names[m + 1]);
                assert(!(spec_find_log_monitor(mlib, names[m + 1]) is Some));
            }
        }
    }
}

/// One occurrence's check faults exactly when the occurrence breaks a
/// rule.
proof fn lemma_occurrence_fault_none(
    job: Seq<char>,
    tix: nat,
    lib: Seq<ProcessView>,
    mlib: Seq<LogMonitorView>,
    task_len: int,
    limits: Limits,
    occ: OccurrenceView,
)
    ensures
        spec_occurrence_fault(job, tix, lib, mlib, task_len, limits, occ) is None
            <==> spec_occurrence_ok(lib, mlib, task_len, limits, occ),
{
    lemma_monitors_fault_none(job, tix, mlib, occ.log_monitors);
}

/// A task group's check faults exactly when some occurrence breaks a
/// rule.
proof fn lemma_occurrences_fault_none(
    job: Seq<char>,
    tix: nat,
    lib: Seq<ProcessView>,
    mlib: Seq<LogMonitorView>,
    task_len: int,
    limits: Limits,
    occs: Seq<OccurrenceView>,
)
    ensures
        spec_occurrences_fault(job, tix, lib, mlib, task_len, limits, occs) is None <==> forall|
            p: int,
        |
            0 <= p < occs.len() ==> spec_occurrence_ok(
                lib,
                mlib,
                task_len,
                limits,
                #[trigger] occs[p],
            ),
    decreases occs.len(),
{
    if occs.len() > 0 {
        lemma_occurrence_fault_none(job, tix, lib, mlib, task_len, limits, occs[0]);
        lemma_occurrences_fault_none(job, tix, lib, mlib, task_len, limits, occs.skip(1));
        if spec_occurrence_ok(lib, mlib, task_len, limits, occs[0]) {
            if forall|p: int|
                0 <= p < occs.skip(1).len() ==> spec_occurrence_ok(
                    lib,
                    mlib,
                    task_len,
                    limits,
                    #[trigger] occs.skip(1)[p],
                ) {
                assert forall|p: int| 0 <= p < occs.len() implies spec_occurrence_ok(
                    lib,
                    mlib,
                    task_len,
                    limits,
                    #[trigger] occs[p],
                ) by {
                    if p > 0 {
                        assert(occs.skip(1)[p - 1] == occs[p]);
                        assert(spec_occurrence_ok(lib, mlib, task_len, limits, occs.skip(1)[p - 1]));
                    }
                }
            } else {
                let p = choose|p: int|
                    0 <= p < occs.skip(1).len() && !spec_occurrence_ok(
                        lib,
                        mlib,
                        task_len,
                        limits,
                        #[trigger] occs.skip(1)[p],
                    );
                assert(occs.skip(1)[p] == occs[p + 1]);
                assert(!spec_occurrence_ok(lib, mlib, task_len, limits, occs[p + 1]));
            }
        }
    }
}

/// A job's task checks fault exactly when some task breaks a rule.
proof fn lemma_tasks_fault_none(
    job: Seq<char>,
    lib: Seq<ProcessView>,
    mlib: Seq<LogMonitorView>,
    limits: Limits,
    tasks: Seq<Seq<OccurrenceView>>,
    tix: nat,
)
    ensures
        spec_tasks_fault(job, lib, mlib, limits, tasks, tix) is None <==> forall|t: int|
            0 <= t < tasks.len() ==> spec_task_ok(lib, mlib, limits, #[trigger] tasks[t]),
    decreases tasks.len(),
{
    if tasks.len() > 0 {
        lemma_tasks_fault_none(job, lib, mlib, limits, tasks.skip(1), tix + 1);
        lemma_occurrences_fault_none(job, tix, lib, mlib, tasks[0].len() as int, limits, tasks[0]);
        if spec_task_ok(lib, mlib, limits, tasks[0]) {
            if forall|t: int|
                0 <= t < tasks.skip(1).len() ==> spec_task_ok(
                    lib,
                    mlib,
                    limits,
                    #[trigger] tasks.skip(1)[t],
                ) {
                assert forall|t: int| 0 <= t < tasks.len() implies spec_task_ok(
                    lib,
                    mlib,
                    limits,
                    #[trigger] tasks[t],
                ) by {
                    if t > 0 {
                        assert(tasks.skip(1)[t - 1] == tasks[t]);
                        assert(spec_task_ok(lib, mlib, limits, tasks.skip(1)[t - 1]));
                    }
                }
            } else {
                let t = choose|t: int|
                    0 <= t < tasks.skip(1).len() && !spec_task_ok(
                        lib,
                        mlib,
                        limits,
                        #[trigger] tasks.skip(1)[t],
                    );
                assert(tasks.skip(1)[t] == tasks[t + 1]);
                assert(!spec_task_ok(lib, mlib, limits, tasks[t + 1]));
            }
        }
    }
}

/// The requested jobs' checks fault exactly when some requested job
/// breaks a rule.
proof fn lemma_jobs_fault_none(
    names: Seq<Seq<char>>,
    jobs: Seq<JobEntryView>,
    lib: Seq<ProcessView>,
    mlib: Seq<LogMonitorView>,
    limits: Limits,
)
    ensures
        spec_jobs_fault(names, jobs, lib, mlib, limits) is None <==> forall|j: int|
            0 <= j < names.len() ==> spec_job_ok(jobs, lib, mlib, limits, #[trigger] names[j]),
    decreases names.len(),
{
    if names.len() > 0 {
        lemma_jobs_fault_none(names.skip(1), jobs, lib, mlib, limits);
        match spec_find_job(jobs, names[0]) {
            Some(entry) => {
                lemma_tasks_fault_none(names[0], lib, mlib, limits, entry.outline, 1);
                if spec_job_ok(jobs, lib, mlib, limits, names[0]) {
                    if forall|j: int|
                        0 <= j < names.skip(1).len() ==> spec_job_ok(
                            jobs,
                            lib,
                            mlib,
                            limits,
                            #[trigger] names.skip(1)[j],
                        ) {
                        assert forall|j: int| 0 <= j < names.len() implies spec_job_ok(
                            jobs,
                            lib,
                            mlib,
                            limits,
                            #[trigger] names[j],
                        ) by {
                            if j > 0 {
                                assert(names.skip(1)[j - 1] == names[j]);
                                assert(spec_job_ok(jobs, lib, mlib, limits, names.skip(1)[j - 1]));
                            }
                        }
                    } else {
                        let j = choose|j: int|
                            0 <= j < names.skip(1).len() && !spec_job_ok(
                                jobs,
                                lib,
                                mlib,
                                limits,
                                #[trigger] names.skip(1)[j],
                            );
                        assert(names.skip(1)[j] == names[j + 1]);
                        assert(!spec_job_ok(jobs, lib, mlib, limits, names[j + 1]));
                    }
                }
            },
            None => {},
        }
    }
}

/// Compilation succeeds exactly on valid input: the builder faults if and
/// only if a reference fails to resolve, a working directory is missing,
/// a ceiling is exceeded, the process set is empty, or no job was
/// requested -- and then no runtime (and so no child process) exists at
/// all.
pub proof fn lemma_build_fault_characterized(
    profile: ProfileView,
    names: Seq<Seq<char>>,
    limits: Limits,
    cwd_ok: Seq<bool>,
)
    requires
        cwd_ok.len() == profile.processes.len(),
    ensures
        spec_build_fault(profile, names, limits, cwd_ok) is None <==> spec_profile_valid(
            profile,
            names,
            limits,
            cwd_ok,
        ),
{
    let mlib = spec_monitor_lib(profile.log_monitors);
    let lib = spec_process_lib(profile.processes);
    assert(mlib.len() == profile.log_monitors.len());
    assert(lib.len() == profile.processes.len());
    lemma_cwd_fault_none(profile.processes, cwd_ok);
    lemma_jobs_fault_none(names, profile.jobs, lib, mlib, limits);
}


} // verus!
