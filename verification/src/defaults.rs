//! The default values an external deserializer fills absent profile
//! fields with.

use crate::profile::JobEntry;
use crate::profile::ProfileLogMonitor;
use crate::profile::ProfileProcess;
use vstd::prelude::*;

verus! {

/// No jobs, by default.
pub fn jobs() -> (r: Vec<JobEntry>)
    ensures
        r@.len() == 0,
{
    Vec::new()
}

/// No log monitors, by default.
pub fn log_monitors() -> (r: Vec<ProfileLogMonitor>)
    ensures
        r@.len() == 0,
{
    Vec::new()
}

/// No processes, by default.
pub fn processes() -> (r: Vec<ProfileProcess>)
    ensures
        r@.len() == 0,
{
    Vec::new()
}

/// A process runs in the current directory unless told otherwise.
pub fn cwd() -> (r: String)
    ensures
        r@ == "."@,
{
    ".".to_owned()
}

/// An absent string field is empty.
pub fn string() -> (r: String)
    ensures
        r@ == Seq::<char>::empty(),
{
    String::new()
}

/// An absent string-list field is empty.
pub fn string_vec() -> (r: Vec<String>)
    ensures
        r@.len() == 0,
{
    Vec::new()
}

/// A log monitor keeps the 20 most recent lines unless told otherwise.
pub fn buffer_size() -> (r: usize)
    ensures
        r == 20usize,
{
    20
}

} // verus!
