//! Log formatting: annotated messages and the layout patterns the runtime
//! logger is configured with.

use vstd::prelude::*;

verus! {

/// An output line annotated with the name of the process it came from.
pub struct AnnotatedMessage;

impl AnnotatedMessage {
    /// The annotated form of a message: the annotation in brackets, a
    /// space, then the message.
    pub fn new(annotation: &str, message: &str) -> (r: String)
        ensures
            r@ == "["@ + annotation@ + "] "@ + message@,
    {
        let mut out = String::new();
        out.append("[");
        out.append(annotation);
        out.append("] ");
        out.append(message);
        proof {
            assert(out@ =~= "["@ + annotation@ + "] "@ + message@);
        }
        out
    }
}

/// The logger's layout patterns: the plain console form, the debugging
/// form with source locations, and the verbose timestamped form.
pub enum Patterns {
    Console,
    Debug,
    File,
}

impl Patterns {
    /// The layout string a pattern stands for.
    pub fn as_str(&self) -> (r: &'static str)
        ensures
            match self {
                Patterns::Console => r@ == "[{h({T})}] {m}{n}"@,
                Patterns::Debug => r@ == "{d} {l} {f}, line {L}: [{T} \\({I}\\)] {m}{n}"@,
                Patterns::File => r@ == "{d} | {l} | {T} \\({I}\\) > {m}{n}"@,
            },
    {
        match self {
            Patterns::Console => "[{h({T})}] {m}{n}",
            Patterns::Debug => "{d} {l} {f}, line {L}: [{T} \\({I}\\)] {m}{n}",
            Patterns::File => "{d} | {l} | {T} \\({I}\\) > {m}{n}",
        }
    }
}

} // verus!
