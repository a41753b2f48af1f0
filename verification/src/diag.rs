//! Diagnostics and validation outcomes.
//!
//! A diagnostic is a structured, span-anchored report: severity, primary
//! span, a short message, and optional note and help text. Diagnostics
//! accumulate in emission order; the mathematical model of a validator run is
//! an [`Outcome`]: the exact sequence of reports it appends, whether any of
//! them is error-severity, and whether the walk hit a structurally required
//! generic argument that was absent (the one non-recoverable shape).

use vstd::prelude::*;
use vstd::string::StringExecFns;

verus! {

#[derive(Debug, Clone, Copy, PartialEq, Eq, Structural)]
pub enum Severity {
    Error,
    Warning,
}

/// A report handed to the caller's renderer.
#[derive(Debug)]
pub struct Diagnostic {
    pub severity: Severity,
    pub span: usize,
    pub message: String,
    pub note: Option<String>,
    pub help: Option<String>,
}

/// The mathematical value of a [`Diagnostic`]: the same record with its text
/// as character sequences.
#[verifier::ext_equal]
pub struct DiagRecord {
    pub severity: Severity,
    pub span: usize,
    pub message: Seq<char>,
    pub note: Option<Seq<char>>,
    pub help: Option<Seq<char>>,
}

impl View for Diagnostic {
    type V = DiagRecord;

    open spec fn view(&self) -> DiagRecord {
        DiagRecord {
            severity: self.severity,
            span: self.span,
            message: self.message@,
            note: match self.note {
                Some(n) => Some(n@),
                None => None,
            },
            help: match self.help {
                Some(h) => Some(h@),
                None => None,
            },
        }
    }
}

/// A structurally required generic argument was absent; the walk cannot
/// continue past the node at `span`.
#[derive(Debug, Clone, Copy, PartialEq, Eq, Structural)]
pub struct MissingGeneric {
    pub span: usize,
}

/// The model of one validator run: `abort` is set when the walk hit a
/// [`MissingGeneric`] (in which case `diags` and `err` are not meaningful to
/// the caller), otherwise `diags` is the exact sequence of reports appended
/// and `err` says whether any of them is error-severity.
#[verifier::ext_equal]
pub struct Outcome {
    pub abort: Option<MissingGeneric>,
    pub diags: Seq<DiagRecord>,
    pub err: bool,
}

impl Outcome {
    /// A clean run: nothing reported.
    pub open spec fn clean() -> Outcome {
        Outcome { abort: None, diags: Seq::empty(), err: false }
    }

    /// A completed run that reported exactly `d`.
    pub open spec fn report(d: DiagRecord) -> Outcome {
        Outcome { abort: None, diags: seq![d], err: d.severity is Error }
    }

    /// An aborted run.
    pub open spec fn aborted(span: usize) -> Outcome {
        Outcome { abort: Some(MissingGeneric { span }), diags: Seq::empty(), err: true }
    }

    /// `self` and then `next`: the first abort wins, reports concatenate,
    /// error verdicts combine by logical OR.
    pub open spec fn followed_by(self, next: Outcome) -> Outcome {
        if self.abort is Some {
            self
        } else if next.abort is Some {
            next
        } else {
            Outcome { abort: None, diags: self.diags + next.diags, err: self.err || next.err }
        }
    }
}

/// The sequence of diagnostic records held by a vector of diagnostics.
pub open spec fn diag_views(s: Seq<Diagnostic>) -> Seq<DiagRecord> {
    s.map_values(|d: Diagnostic| d@)
}

/// Append one diagnostic, extending the record sequence by its value.
pub fn push_diag(diags: &mut Vec<Diagnostic>, d: Diagnostic)
    ensures
        diag_views(final(diags)@) == diag_views(old(diags)@) + seq![d@],
{
    let ghost pre = diags@;
    let ghost dv = d@;
    diags.push(d);
    proof {
        assert(diag_views(diags@) =~= diag_views(pre) + seq![dv]);
    }
}

// The diagnostic vocabulary. Each report kind has a spec constructor giving
// its exact record, and an exec builder proved to produce that record.
pub open spec fn d_receiver(span: usize) -> DiagRecord {
    DiagRecord {
        severity: Severity::Error,
        span,
        message: "invalid system parameter"@,
        note: Some("a system function takes no receiver"@),
        help: None,
    }
}

pub fn mk_receiver(span: usize) -> (d: Diagnostic)
    ensures
        d@ == d_receiver(span),
{
    Diagnostic {
        severity: Severity::Error,
        span,
        message: String::from_str("invalid system parameter"),
        note: Some(String::from_str("a system function takes no receiver")),
        help: None,
    }
}

pub open spec fn d_too_many(span: usize) -> DiagRecord {
    DiagRecord {
        severity: Severity::Error,
        span,
        message: "too many system parameters"@,
        note: Some("group related parameters into a tuple to stay under the limit"@),
        help: None,
    }
}

pub fn mk_too_many(span: usize) -> (d: Diagnostic)
    ensures
        d@ == d_too_many(span),
{
    Diagnostic {
        severity: Severity::Error,
        span,
        message: String::from_str("too many system parameters"),
        note: Some(String::from_str("group related parameters into a tuple to stay under the limit")),
        help: None,
    }
}

pub open spec fn d_commands_by_ref(span: usize, pat: Seq<char>) -> DiagRecord {
    DiagRecord {
        severity: Severity::Error,
        span,
        message: "commands must be taken by value"@,
        note: None,
        help: Some("use `mut "@ + pat + ": Commands`"@),
    }
}

pub fn mk_commands_by_ref(span: usize, pat: &String) -> (d: Diagnostic)
    ensures
        d@ == d_commands_by_ref(span, pat@),
{
    let mut help = String::from_str("use `mut ");
    help.append(pat.as_str());
    help.append(": Commands`");
    Diagnostic {
        severity: Severity::Error,
        span,
        message: String::from_str("commands must be taken by value"),
        note: None,
        help: Some(help),
    }
}

pub open spec fn d_assets_by_ref(span: usize, pat: Seq<char>, elem: Seq<char>) -> DiagRecord {
    DiagRecord {
        severity: Severity::Error,
        span,
        message: "assets must be accessed through a resource"@,
        note: None,
        help: Some("use `"@ + pat + ": ResMut<Assets<"@ + elem + ">>`"@),
    }
}

pub fn mk_assets_by_ref(span: usize, pat: &String, elem: &String) -> (d: Diagnostic)
    ensures
        d@ == d_assets_by_ref(span, pat@, elem@),
{
    let mut help = String::from_str("use `");
    help.append(pat.as_str());
    help.append(": ResMut<Assets<");
    help.append(elem.as_str());
    help.append(">>`");
    Diagnostic {
        severity: Severity::Error,
        span,
        message: String::from_str("assets must be accessed through a resource"),
        note: None,
        help: Some(help),
    }
}

pub open spec fn d_unrecognized(span: usize, name: Seq<char>, severity: Severity) -> DiagRecord {
    DiagRecord {
        severity,
        span,
        message: "possibly invalid system parameter"@,
        note: None,
        help: Some("use `Res<"@ + name + ">` or `ResMut<"@ + name + ">`"@),
    }
}

pub fn mk_unrecognized(span: usize, name: &String, severity: Severity) -> (d: Diagnostic)
    ensures
        d@ == d_unrecognized(span, name@, severity),
{
    let mut help = String::from_str("use `Res<");
    help.append(name.as_str());
    help.append(">` or `ResMut<");
    help.append(name.as_str());
    help.append(">`");
    Diagnostic {
        severity,
        span,
        message: String::from_str("possibly invalid system parameter"),
        note: None,
        help: Some(help),
    }
}

pub open spec fn d_unrecognized_shape(span: usize) -> DiagRecord {
    DiagRecord {
        severity: Severity::Warning,
        span,
        message: "possibly invalid system parameter"@,
        note: None,
        help: None,
    }
}

pub fn mk_unrecognized_shape(span: usize) -> (d: Diagnostic)
    ensures
        d@ == d_unrecognized_shape(span),
{
    Diagnostic {
        severity: Severity::Warning,
        span,
        message: String::from_str("possibly invalid system parameter"),
        note: None,
        help: None,
    }
}

pub open spec fn d_query_bare(span: usize, name: Seq<char>) -> DiagRecord {
    DiagRecord {
        severity: Severity::Error,
        span,
        message: "not a valid query parameter"@,
        note: None,
        help: Some("use `&"@ + name + "` or `&mut "@ + name + "`"@),
    }
}

pub fn mk_query_bare(span: usize, name: &String) -> (d: Diagnostic)
    ensures
        d@ == d_query_bare(span, name@),
{
    let mut help = String::from_str("use `&");
    help.append(name.as_str());
    help.append("` or `&mut ");
    help.append(name.as_str());
    help.append("`");
    Diagnostic {
        severity: Severity::Error,
        span,
        message: String::from_str("not a valid query parameter"),
        note: None,
        help: Some(help),
    }
}

pub open spec fn d_query_shape(span: usize) -> DiagRecord {
    DiagRecord {
        severity: Severity::Error,
        span,
        message: "not a valid query parameter"@,
        note: None,
        help: None,
    }
}

pub fn mk_query_shape(span: usize) -> (d: Diagnostic)
    ensures
        d@ == d_query_shape(span),
{
    Diagnostic {
        severity: Severity::Error,
        span,
        message: String::from_str("not a valid query parameter"),
        note: None,
        help: None,
    }
}

pub open spec fn d_filter_nesting(span: usize) -> DiagRecord {
    DiagRecord {
        severity: Severity::Error,
        span,
        message: "invalid query filter nesting"@,
        note: Some("a filter takes a plain component name, not another filter"@),
        help: None,
    }
}

pub fn mk_filter_nesting(span: usize) -> (d: Diagnostic)
    ensures
        d@ == d_filter_nesting(span),
{
    Diagnostic {
        severity: Severity::Error,
        span,
        message: String::from_str("invalid query filter nesting"),
        note: Some(String::from_str("a filter takes a plain component name, not another filter")),
        help: None,
    }
}

pub open spec fn d_or_needs_tuple(span: usize) -> DiagRecord {
    DiagRecord {
        severity: Severity::Error,
        span,
        message: "this filter expects a tuple of filters"@,
        note: None,
        help: None,
    }
}

pub fn mk_or_needs_tuple(span: usize) -> (d: Diagnostic)
    ensures
        d@ == d_or_needs_tuple(span),
{
    Diagnostic {
        severity: Severity::Error,
        span,
        message: String::from_str("this filter expects a tuple of filters"),
        note: None,
        help: None,
    }
}

pub open spec fn d_unknown_filter(span: usize, name: Seq<char>) -> DiagRecord {
    DiagRecord {
        severity: Severity::Error,
        span,
        message: "unknown query filter"@,
        note: None,
        help: Some("use `With<"@ + name + ">`"@),
    }
}

pub fn mk_unknown_filter(span: usize, name: &String) -> (d: Diagnostic)
    ensures
        d@ == d_unknown_filter(span, name@),
{
    let mut help = String::from_str("use `With<");
    help.append(name.as_str());
    help.append(">`");
    Diagnostic {
        severity: Severity::Error,
        span,
        message: String::from_str("unknown query filter"),
        note: None,
        help: Some(help),
    }
}

pub open spec fn d_filter_ref(span: usize, name: Seq<char>) -> DiagRecord {
    DiagRecord {
        severity: Severity::Error,
        span,
        message: "a reference is not a valid query filter"@,
        note: None,
        help: Some("use `With<"@ + name + ">`"@),
    }
}

pub fn mk_filter_ref(span: usize, name: &String) -> (d: Diagnostic)
    ensures
        d@ == d_filter_ref(span, name@),
{
    let mut help = String::from_str("use `With<");
    help.append(name.as_str());
    help.append(">`");
    Diagnostic {
        severity: Severity::Error,
        span,
        message: String::from_str("a reference is not a valid query filter"),
        note: None,
        help: Some(help),
    }
}

pub open spec fn d_query_set_shape(span: usize) -> DiagRecord {
    DiagRecord {
        severity: Severity::Error,
        span,
        message: "should be a tuple of queries"@,
        note: None,
        help: None,
    }
}

pub fn mk_query_set_shape(span: usize) -> (d: Diagnostic)
    ensures
        d@ == d_query_set_shape(span),
{
    Diagnostic {
        severity: Severity::Error,
        span,
        message: String::from_str("should be a tuple of queries"),
        note: None,
        help: None,
    }
}

pub open spec fn d_extra_generics(span: usize) -> DiagRecord {
    DiagRecord {
        severity: Severity::Error,
        span,
        message: "filter expects type parameters"@,
        note: None,
        help: None,
    }
}

pub fn mk_extra_generics(span: usize) -> (d: Diagnostic)
    ensures
        d@ == d_extra_generics(span),
{
    Diagnostic {
        severity: Severity::Error,
        span,
        message: String::from_str("filter expects type parameters"),
        note: None,
        help: None,
    }
}

pub open spec fn d_missing_generic(span: usize) -> DiagRecord {
    DiagRecord {
        severity: Severity::Error,
        span,
        message: "expected a generic type argument"@,
        note: None,
        help: None,
    }
}

pub fn mk_missing_generic(span: usize) -> (d: Diagnostic)
    ensures
        d@ == d_missing_generic(span),
{
    Diagnostic {
        severity: Severity::Error,
        span,
        message: String::from_str("expected a generic type argument"),
        note: None,
        help: None,
    }
}

} // verus!
