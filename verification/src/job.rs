//! A job: tasks executed strictly in order.

use crate::process::ProcessView;
use crate::task::Task;
use vstd::prelude::*;

verus! {

/// Mathematical image of a job.
pub ghost struct JobView {
    pub name: Seq<char>,
    pub tasks: Seq<Seq<ProcessView>>,
}

/// A named, ordered list of tasks. Running a job executes its tasks one
/// after another, fail-fast: the first task error aborts the rest.
#[derive(Clone, Debug)]
pub struct Job {
    pub name: String,
    pub tasks: Vec<Task>,
}

impl View for Job {
    type V = JobView;

    open spec fn view(&self) -> JobView {
        JobView { name: self.name@, tasks: self.tasks.deep_view() }
    }
}

impl DeepView for Job {
    type V = JobView;

    open spec fn deep_view(&self) -> JobView {
        self.view()
    }
}

impl Job {
    /// Constructs a new `Job` over the given tasks.
    pub fn new(name: String, tasks: Vec<Task>) -> (r: Self)
        ensures
            r@.name == name@,
            r@.tasks == tasks.deep_view(),
    {
        Job { name, tasks }
    }
}

} // verus!
