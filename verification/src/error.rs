//! The library's error type: configuration faults told apart from the
//! profile faults that precede them.

use vstd::prelude::*;

verus! {

/// Mathematical image of an error.
pub ghost enum ArpxErrorView {
    ProfileNotFound(Seq<char>),
    ProfileParseError(Seq<char>),
    InternalError(Seq<char>),
    InvalidConfiguration(Seq<char>),
}

/// What went wrong, with the detail a caller can show: the profile path
/// that was not found, the parse error's rendering, or the offending
/// configuration detail.
#[derive(Clone, Debug)]
pub enum ArpxErrorEnum {
    ProfileNotFound(String),
    ProfileParseError(String),
    InternalError(String),
    InvalidConfiguration(String),
}

/// An error surfaced to the caller. Configuration errors are raised before
/// any process is spawned, never mid-run.
#[derive(Clone, Debug)]
pub struct ArpxError(Box<ArpxErrorEnum>);

impl View for ArpxErrorEnum {
    type V = ArpxErrorView;

    open spec fn view(&self) -> ArpxErrorView {
        match self {
            ArpxErrorEnum::ProfileNotFound(s) => ArpxErrorView::ProfileNotFound(s@),
            ArpxErrorEnum::ProfileParseError(s) => ArpxErrorView::ProfileParseError(s@),
            ArpxErrorEnum::InternalError(s) => ArpxErrorView::InternalError(s@),
            ArpxErrorEnum::InvalidConfiguration(s) => ArpxErrorView::InvalidConfiguration(s@),
        }
    }
}

impl View for ArpxError {
    type V = ArpxErrorView;

    closed spec fn view(&self) -> ArpxErrorView {
        self.0@
    }
}

/// A profile file could not be found at the given path.
pub fn profile_not_found(filepath: String) -> (r: ArpxError)
    ensures
        r@ == ArpxErrorView::ProfileNotFound(filepath@),
{
    ArpxError(Box::new(ArpxErrorEnum::ProfileNotFound(filepath)))
}

/// A profile file could not be parsed.
pub fn profile_parse_error(error_display: String) -> (r: ArpxError)
    ensures
        r@ == ArpxErrorView::ProfileParseError(error_display@),
{
    ArpxError(Box::new(ArpxErrorEnum::ProfileParseError(error_display)))
}

/// The runtime failed in a way configuration cannot explain.
pub fn internal_error(details: String) -> (r: ArpxError)
    ensures
        r@ == ArpxErrorView::InternalError(details@),
{
    ArpxError(Box::new(ArpxErrorEnum::InternalError(details)))
}

/// A definition broke a reference or cardinality rule.
pub fn invalid_configuration(details: String) -> (r: ArpxError)
    ensures
        r@ == ArpxErrorView::InvalidConfiguration(details@),
{
    ArpxError(Box::new(ArpxErrorEnum::InvalidConfiguration(details)))
}

impl ArpxError {
    /// The detail string the error carries.
    pub fn description(&self) -> (r: &String)
        ensures
            match self@ {
                ArpxErrorView::ProfileNotFound(s) => r@ == s,
                ArpxErrorView::ProfileParseError(s) => r@ == s,
                ArpxErrorView::InternalError(s) => r@ == s,
                ArpxErrorView::InvalidConfiguration(s) => r@ == s,
            },
    {
        match &*self.0 {
            ArpxErrorEnum::ProfileNotFound(filepath) => filepath,
            ArpxErrorEnum::ProfileParseError(error_display) => error_display,
            ArpxErrorEnum::InternalError(details) => details,
            ArpxErrorEnum::InvalidConfiguration(details) => details,
        }
    }

    /// Which kind of error this is.
    pub fn kind(&self) -> (r: &ArpxErrorEnum)
        ensures
            r@ == self@,
    {
        &self.0
    }
}

} // verus!
