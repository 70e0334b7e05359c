//! Substring-triggered monitor rules: which actions a watched process's
//! log line sets off, with the matched snippet recorded per action.

use vstd::prelude::*;

verus! {

/// Whether `needle` occurs contiguously inside `hay`.
pub open spec fn spec_contains(hay: Seq<char>, needle: Seq<char>) -> bool {
    exists|i: int|
        0 <= i <= hay.len() - needle.len() && #[trigger] hay.subrange(i, i + needle.len())
            == needle
}

/// Whether one string occurs contiguously inside another.
pub fn contains_substring(hay: &str, needle: &str) -> (r: bool)
    ensures
        r == spec_contains(hay@, needle@),
{
    let hay_len = hay.unicode_len();
    let needle_len = needle.unicode_len();
    if needle_len > hay_len {
        return false;
    }
    if needle_len == 0 {
        proof {
            assert(hay@.subrange(0, 0 + needle@.len() as int) =~= needle@);
        }
        return true;
    }
    let mut i: usize = 0;
    while i <= hay_len - needle_len
        invariant
            needle_len <= hay_len,
            needle_len >= 1,
            hay_len == hay@.len(),
            needle_len == needle@.len(),
            i <= hay_len - needle_len + 1,
            forall|j: int|
                0 <= j < i ==> #[trigger] hay@.subrange(j, j + needle@.len()) != needle@,
        decreases hay_len - needle_len - i + 1,
    {
        if matches_at(hay, needle, i) {
            return true;
        }
        i = i + 1;
    }
    false
}

/// Whether `needle` matches `hay` starting at position `at`.
fn matches_at(hay: &str, needle: &str, at: usize) -> (r: bool)
    requires
        at + needle@.len() <= hay@.len(),
    ensures
        r == (hay@.subrange(at as int, at + needle@.len()) == needle@),
{
    let hay_len = hay.unicode_len();
    let needle_len = needle.unicode_len();
    let mut k: usize = 0;
    while k < needle_len
        invariant
            hay_len == hay@.len(),
            needle_len == needle@.len(),
            at + needle@.len() <= hay@.len(),
            k <= needle_len,
            forall|j: int| 0 <= j < k ==> hay@[at + j] == needle@[j],
        decreases needle_len - k,
    {
        if hay.get_char(at + k) != needle.get_char(k) {
            proof {
                let ghost window = hay@.subrange(at as int, at + needle@.len());
                assert(window[k as int] != needle@[k as int]);
            }
            return false;
        }
        k = k + 1;
    }
    proof {
        assert(hay@.subrange(at as int, at + needle@.len()) =~= needle@);
    }
    true
}

/// A log line under monitoring, with the snippets already extracted for
/// actions that earlier rules set off.
#[derive(Clone, Debug)]
pub struct LogData {
    pub message: String,
    pub snippets: Vec<(String, String)>,
}

/// What one rule evaluation sets off: the actions to execute, and the
/// snippet recorded for each.
#[derive(Clone, Debug)]
pub struct MonitorOutput {
    pub exec_actions: Vec<String>,
    pub snippets: Vec<(String, String)>,
}

/// A log-trigger rule: fire when the watched line contains this string.
#[derive(Clone, Debug, PartialEq, Eq)]
pub struct LogTriggerCfg {
    pub includes_string: String,
}

/// The trigger conditions of one monitor rule.
#[derive(Clone, Debug, PartialEq, Eq)]
pub struct Triggers {
    pub logs: LogTriggerCfg,
}

/// One monitor rule: which process it watches, what sets it off, and the
/// actions it then executes.
#[derive(Clone, Debug, PartialEq, Eq)]
pub struct MonitorCfg {
    pub process: String,
    pub triggers: Triggers,
    pub actions: Vec<String>,
}

/// The snippet recorded for a fired trigger: the matched string itself.
pub fn get_trigger_snippet(log_data: &LogData, substr: &str) -> (r: String)
    ensures
        r@ == substr@,
{
    let _ = log_data;
    substr.to_owned()
}

/// Which actions a log trigger sets off for one line: every listed action
/// when the trigger string is non-empty and occurs in the line, none
/// otherwise; each fired action is paired with its snippet.
pub fn logs_potential_pull(
    log_actions: &Vec<String>,
    log_triggers: &LogTriggerCfg,
    log_data: &LogData,
) -> (r: MonitorOutput)
    ensures
        log_triggers.includes_string@.len() > 0 && spec_contains(
            log_data.message@,
            log_triggers.includes_string@,
        ) ==> {
            &&& r.exec_actions.deep_view() == log_actions.deep_view()
            &&& r.snippets@.len() == log_actions@.len()
            &&& forall|k: int|
                0 <= k < r.snippets@.len() ==> (#[trigger] r.snippets@[k]).0@
                    == log_actions@[k]@ && r.snippets@[k].1@ == log_triggers.includes_string@
        },
        !(log_triggers.includes_string@.len() > 0 && spec_contains(
            log_data.message@,
            log_triggers.includes_string@,
        )) ==> r.exec_actions@.len() == 0 && r.snippets@.len() == 0,
{
    let mut output = MonitorOutput { exec_actions: Vec::new(), snippets: Vec::new() };
    let fires = !log_triggers.includes_string.as_str().is_empty() && contains_substring(
        log_data.message.as_str(),
        log_triggers.includes_string.as_str(),
    );
    if !fires {
        return output;
    }
    let mut i: usize = 0;
    while i < log_actions.len()
        invariant
            i <= log_actions@.len(),
            output.exec_actions@.len() == i,
            forall|k: int|
                0 <= k < i ==> #[trigger] output.exec_actions@[k]@ == log_actions@[k]@,
            output.snippets@.len() == i,
            forall|k: int|
                0 <= k < i ==> (#[trigger] output.snippets@[k]).0@ == log_actions@[k]@
                    && output.snippets@[k].1@ == log_triggers.includes_string@,
        decreases log_actions@.len() - i,
    {
        let action = &log_actions[i];
        output.exec_actions.push(action.clone());
        output.snippets.push(
            (action.clone(), get_trigger_snippet(log_data, log_triggers.includes_string.as_str())),
        );
        i = i + 1;
    }
    proof {
        assert(output.exec_actions.deep_view() =~= log_actions.deep_view());
    }
    output
}

} // verus!
