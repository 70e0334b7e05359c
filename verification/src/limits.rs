//! Resource ceilings, with the silent-fallback parsing of their
//! environment overrides.

use vstd::prelude::*;

verus! {

/// Whether a character is a decimal digit.
pub open spec fn spec_is_digit(c: char) -> bool {
    48 <= c as int <= 57
}

/// The value of a decimal digit character.
pub open spec fn spec_digit_val(c: char) -> int {
    c as int - 48
}

/// Whether every character of a sequence is a decimal digit.
pub open spec fn spec_all_digits(s: Seq<char>) -> bool {
    forall|k: int| 0 <= k < s.len() ==> spec_is_digit(#[trigger] s[k])
}

/// The value of a digit sequence, most significant digit first.
pub open spec fn spec_digits_value(s: Seq<char>) -> int
    decreases s.len(),
{
    if s.len() == 0 {
        0
    } else {
        spec_digits_value(s.drop_last()) * 10 + spec_digit_val(s.last())
    }
}

/// What `str::parse::<usize>` accepts: an optional leading plus sign, then
/// at least one digit, with a value that fits. Anything else is no value.
pub open spec fn spec_parse_usize(s: Seq<char>) -> Option<int> {
    let body = if s.len() > 0 && s[0] == '+' {
        s.skip(1)
    } else {
        s
    };
    if body.len() > 0 && spec_all_digits(body) && spec_digits_value(body) <= usize::MAX as int {
        Some(spec_digits_value(body))
    } else {
        None
    }
}

/// What a ceiling becomes under an optional environment override: the
/// parsed value where one parses, the default silently otherwise.
pub open spec fn spec_env_limit(value: Option<Seq<char>>, default: int) -> int {
    match value {
        Some(s) => match spec_parse_usize(s) {
            Some(v) => v,
            None => default,
        },
        None => default,
    }
}

/// A digit sequence's value never shrinks as digits are appended, and is
/// never negative.
proof fn lemma_digits_value_monotonic(s: Seq<char>, m: int)
    requires
        spec_all_digits(s),
        0 <= m <= s.len(),
    ensures
        spec_digits_value(s) >= spec_digits_value(s.take(m)),
        spec_digits_value(s) >= 0,
    decreases s.len(),
{
    if s.len() == 0 {
        assert(s.take(m) =~= s);
    } else {
        let shorter = s.drop_last();
        assert(spec_all_digits(shorter));
        if m <= shorter.len() {
            assert(shorter.take(m) =~= s.take(m));
            lemma_digits_value_monotonic(shorter, m);
        } else {
            assert(s.take(m) =~= s);
            lemma_digits_value_monotonic(shorter, shorter.len() as int);
        }
    }
}

/// Parses a decimal `usize` exactly as std does: optional plus sign, one
/// or more digits, no overflow.
pub fn parse_usize(s: &str) -> (r: Option<usize>)
    ensures
        match r {
            Some(v) => spec_parse_usize(s@) == Some(v as int),
            None => spec_parse_usize(s@) is None,
        },
{
    let len = s.unicode_len();
    let start: usize = if len > 0 && s.get_char(0) == '+' {
        1
    } else {
        0
    };
    let ghost body = if s@.len() > 0 && s@[0] == '+' {
        s@.skip(1)
    } else {
        s@
    };
    proof {
        assert(body =~= s@.skip(start as int));
    }
    if start >= len {
        return None;
    }
    let mut acc: usize = 0;
    let mut i: usize = start;
    while i < len
        invariant
            start <= i <= len,
            len == s@.len(),
            body == if s@.len() > 0 && s@[0] == '+' {
                s@.skip(1)
            } else {
                s@
            },
            body == s@.skip(start as int),
            spec_all_digits(body.take(i - start)),
            acc as int == spec_digits_value(body.take(i - start)),
        decreases len - i,
    {
        let c = s.get_char(i);
        let code = c as u32;
        proof {
            assert(body[i - start] == s@[i as int]);
        }
        if code < 48 || code > 57 {
            proof {
                assert(c as int == code as int);
                assert(0 <= i - start < body.len());
                assert(!spec_is_digit(body[i - start]));
                assert(!spec_all_digits(body));
                assert(spec_parse_usize(s@) is None);
            }
            return None;
        }
        let d = (code - 48) as usize;
        let next = match acc.checked_mul(10) {
            Some(m) => m.checked_add(d),
            None => None,
        };
        match next {
            Some(v) => {
                acc = v;
                proof {
                    assert(body.take(i + 1 - start).drop_last() =~= body.take(i - start));
                    assert(body.take(i + 1 - start).last() == body[i - start]);
                }
            },
            None => {
                proof {
                    assert(body.take(i + 1 - start).drop_last() =~= body.take(i - start));
                    assert(body.take(i + 1 - start).last() == body[i - start]);
                    assert(spec_digits_value(body.take(i + 1 - start)) > usize::MAX as int);
                    if spec_all_digits(body) {
                        lemma_digits_value_monotonic(body, i + 1 - start);
                    }
                }
                return None;
            },
        }
        i = i + 1;
    }
    proof {
        assert(body.take(len - start) =~= body);
    }
    Some(acc)
}

/// One ceiling under an optional environment override: the override where
/// it parses as a `usize`, the stated default otherwise. Malformed values
/// fall back silently.
pub fn env_limit(value: &Option<String>, default: usize) -> (r: usize)
    ensures
        r as int == spec_env_limit(value.deep_view(), default as int),
{
    match value {
        Some(s) => match parse_usize(s.as_str()) {
            Some(v) => v,
            None => default,
        },
        None => default,
    }
}

/// The configurable ceilings the builder enforces: how many processes and
/// log monitors a profile may define, and how many concurrent processes
/// and threads one task may ask for.
#[derive(Clone, Copy, Debug, PartialEq, Eq, Structural)]
pub struct Limits {
    pub processes_max: usize,
    pub log_monitors_max: usize,
    pub concurrent_processes_max: usize,
    pub thread_max: usize,
}

impl Limits {
    /// The stated defaults: 200 defined processes, 200 defined log
    /// monitors, 500 concurrent processes, 500 threads per task.
    pub fn new() -> (r: Self)
        ensures
            r == (Limits {
                processes_max: 200usize,
                log_monitors_max: 200usize,
                concurrent_processes_max: 500usize,
                thread_max: 500usize,
            }),
    {
        Limits {
            processes_max: 200,
            log_monitors_max: 200,
            concurrent_processes_max: 500,
            thread_max: 500,
        }
    }

    /// The ceilings under their optional environment overrides, each
    /// falling back silently to its default.
    pub fn from_env_values(
        processes_max: &Option<String>,
        log_monitors_max: &Option<String>,
        concurrent_processes_max: &Option<String>,
        thread_max: &Option<String>,
    ) -> (r: Self)
        ensures
            r.processes_max as int == spec_env_limit(processes_max.deep_view(), 200),
            r.log_monitors_max as int == spec_env_limit(log_monitors_max.deep_view(), 200),
            r.concurrent_processes_max as int == spec_env_limit(
                concurrent_processes_max.deep_view(),
                500,
            ),
            r.thread_max as int == spec_env_limit(thread_max.deep_view(), 500),
    {
        Limits {
            processes_max: env_limit(processes_max, 200),
            log_monitors_max: env_limit(log_monitors_max, 200),
            concurrent_processes_max: env_limit(concurrent_processes_max, 500),
            thread_max: env_limit(thread_max, 500),
        }
    }
}

} // verus!
