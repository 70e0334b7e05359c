//! The raw profile: what an external deserializer hands the builder.
//!
//! A profile holds job scripts (parsed into outlines of task groups),
//! process definitions, and log-monitor definitions. Everything here is
//! plain data; compiling it into a runnable runtime, with every reference
//! and ceiling checked, is the builder's job.

use vstd::prelude::*;

verus! {

/// Mathematical image of one process occurrence in a job script.
pub ghost struct OccurrenceView {
    pub log_monitors: Seq<Seq<char>>,
    pub name: Seq<char>,
    pub onfail: Option<Seq<char>>,
    pub onsucceed: Option<Seq<char>>,
}

/// One occurrence of a named process inside a task group: the process
/// name, the per-occurrence action overrides, and the log monitors
/// attached to this occurrence alone.
#[derive(Clone, Debug, PartialEq, Eq)]
pub struct ProcessOccurrence {
    pub log_monitors: Vec<String>,
    pub name: String,
    pub onfail: Option<String>,
    pub onsucceed: Option<String>,
}

impl View for ProcessOccurrence {
    type V = OccurrenceView;

    open spec fn view(&self) -> OccurrenceView {
        OccurrenceView {
            log_monitors: self.log_monitors.deep_view(),
            name: self.name@,
            onfail: self.onfail.deep_view(),
            onsucceed: self.onsucceed.deep_view(),
        }
    }
}

impl DeepView for ProcessOccurrence {
    type V = OccurrenceView;

    open spec fn deep_view(&self) -> OccurrenceView {
        self.view()
    }
}

/// One task group of a job script: occurrences that run concurrently.
#[derive(Clone, Debug, PartialEq, Eq)]
pub struct TaskOutline {
    pub processes: Vec<ProcessOccurrence>,
}

impl View for TaskOutline {
    type V = Seq<OccurrenceView>;

    open spec fn view(&self) -> Seq<OccurrenceView> {
        self.processes.deep_view()
    }
}

impl DeepView for TaskOutline {
    type V = Seq<OccurrenceView>;

    open spec fn deep_view(&self) -> Seq<OccurrenceView> {
        self.view()
    }
}

/// A parsed job script: ordered task groups of process occurrences.
#[derive(Clone, Debug, PartialEq, Eq)]
pub struct JobOutline {
    pub tasks: Vec<TaskOutline>,
}

impl View for JobOutline {
    type V = Seq<Seq<OccurrenceView>>;

    open spec fn view(&self) -> Seq<Seq<OccurrenceView>> {
        self.tasks.deep_view()
    }
}

impl DeepView for JobOutline {
    type V = Seq<Seq<OccurrenceView>>;

    open spec fn deep_view(&self) -> Seq<Seq<OccurrenceView>> {
        self.view()
    }
}

/// Mathematical image of a parse fault.
pub ghost struct ParseFaultView {
    pub line: u32,
    pub col: u32,
    pub context: Seq<char>,
}

/// Where and around what text a job script failed to parse.
#[derive(Clone, Debug, PartialEq, Eq)]
pub struct ParseFault {
    pub line: u32,
    pub col: u32,
    pub context: String,
}

impl View for ParseFault {
    type V = ParseFaultView;

    open spec fn view(&self) -> ParseFaultView {
        ParseFaultView { line: self.line, col: self.col, context: self.context@ }
    }
}

/// What `arpx_job_parser::parse_job` returns for the given script text:
/// the parsed task groups, or the coordinates and context of the first
/// offending spot. The result depends on the script text alone.
pub uninterp spec fn parsed_job(script: Seq<char>) -> Result<Seq<Seq<OccurrenceView>>, ParseFaultView>;

/// Relies on `arpx_job_parser::parse_job`: the parse of a job script
/// depends on the script text alone.
///
/// The admitted scripts step around the parser's panics, which all sit in
/// its error-context slicing: that slicing indexes bytes, so a non-ASCII
/// script whose parse fails can split a character, and when exactly one
/// character is left unconsumed it takes a slice whose start exceeds its
/// end. A script that is empty parses without any error context; one of
/// length at least two that ends in a line feed can never strand exactly
/// one character, because the parser consumes whitespace greedily after
/// each task group, so a one-character remainder would be that final line
/// feed, which cannot survive a preceding successful parse and cannot be
/// the whole remainder of a zero-task parse. Callers normalize a script
/// by appending a line feed, which never changes what it parses to.
#[verifier::external_body]
pub fn parse_job_script(script: &str) -> (r: Result<JobOutline, ParseFault>)
    requires
        script.is_ascii(),
        script@.len() == 0 || (script@.len() >= 2 && script@.last() == '\n'),
    ensures
        match r {
            Ok(outline) => parsed_job(script@) == Ok::<_, ParseFaultView>(outline@),
            Err(fault) => parsed_job(script@) == Err::<Seq<Seq<OccurrenceView>>, _>(fault@),
        },
{
    match arpx_job_parser::parse_job(script) {
        Ok(job) => Ok(JobOutline {
            tasks: job.tasks.into_iter().map(|t| TaskOutline {
                processes: t.processes.into_iter().map(|p| ProcessOccurrence {
                    log_monitors: p.log_monitors,
                    name: p.name,
                    onfail: p.onfail,
                    onsucceed: p.onsucceed,
                }).collect(),
            }).collect(),
        }),
        Err(((line, col), context)) => Err(ParseFault { line, col, context }),
    }
}

/// Mathematical image of a raw process definition.
pub ghost struct ProfileProcessView {
    pub command: Seq<char>,
    pub cwd: Seq<char>,
    pub log_monitors: Seq<Seq<char>>,
    pub name: Seq<char>,
    pub onfail: Seq<char>,
    pub onsucceed: Seq<char>,
}

/// A raw process definition as the profile states it. Empty `onfail` and
/// `onsucceed` strings mean no action.
#[derive(Clone, Debug, PartialEq, Eq)]
pub struct ProfileProcess {
    pub command: String,
    pub cwd: String,
    pub log_monitors: Vec<String>,
    pub name: String,
    pub onfail: String,
    pub onsucceed: String,
}

impl View for ProfileProcess {
    type V = ProfileProcessView;

    open spec fn view(&self) -> ProfileProcessView {
        ProfileProcessView {
            command: self.command@,
            cwd: self.cwd@,
            log_monitors: self.log_monitors.deep_view(),
            name: self.name@,
            onfail: self.onfail@,
            onsucceed: self.onsucceed@,
        }
    }
}

impl DeepView for ProfileProcess {
    type V = ProfileProcessView;

    open spec fn deep_view(&self) -> ProfileProcessView {
        self.view()
    }
}

/// Mathematical image of a raw log-monitor definition.
pub ghost struct ProfileLogMonitorView {
    pub buffer_size: nat,
    pub name: Seq<char>,
    pub ontrigger: Seq<char>,
    pub test: Seq<char>,
}

/// A raw log-monitor definition as the profile states it.
#[derive(Clone, Debug, PartialEq, Eq)]
pub struct ProfileLogMonitor {
    pub buffer_size: usize,
    pub name: String,
    pub ontrigger: String,
    pub test: String,
}

impl View for ProfileLogMonitor {
    type V = ProfileLogMonitorView;

    open spec fn view(&self) -> ProfileLogMonitorView {
        ProfileLogMonitorView {
            buffer_size: self.buffer_size as nat,
            name: self.name@,
            ontrigger: self.ontrigger@,
            test: self.test@,
        }
    }
}

impl DeepView for ProfileLogMonitor {
    type V = ProfileLogMonitorView;

    open spec fn deep_view(&self) -> ProfileLogMonitorView {
        self.view()
    }
}

/// Mathematical image of one named job entry.
pub ghost struct JobEntryView {
    pub name: Seq<char>,
    pub outline: Seq<Seq<OccurrenceView>>,
}

/// A named job and its parsed outline.
#[derive(Clone, Debug, PartialEq, Eq)]
pub struct JobEntry {
    pub name: String,
    pub outline: JobOutline,
}

impl View for JobEntry {
    type V = JobEntryView;

    open spec fn view(&self) -> JobEntryView {
        JobEntryView { name: self.name@, outline: self.outline@ }
    }
}

impl DeepView for JobEntry {
    type V = JobEntryView;

    open spec fn deep_view(&self) -> JobEntryView {
        self.view()
    }
}

/// Mathematical image of a whole profile.
pub ghost struct ProfileView {
    pub jobs: Seq<JobEntryView>,
    pub processes: Seq<ProfileProcessView>,
    pub log_monitors: Seq<ProfileLogMonitorView>,
}

/// A whole raw profile: named jobs, process definitions, and log-monitor
/// definitions, in the order the external deserializer delivered them.
#[derive(Clone, Debug)]
pub struct Profile {
    pub jobs: Vec<JobEntry>,
    pub processes: Vec<ProfileProcess>,
    pub log_monitors: Vec<ProfileLogMonitor>,
}

impl View for Profile {
    type V = ProfileView;

    open spec fn view(&self) -> ProfileView {
        ProfileView {
            jobs: self.jobs.deep_view(),
            processes: self.processes.deep_view(),
            log_monitors: self.log_monitors.deep_view(),
        }
    }
}

} // verus!
