//! Classification of the lines that the engine's tools print, and the decision
//! of what becomes of each line.
use vstd::prelude::*;
use crate::text::{contains_text, has_substring};

verus! {

/// What the compiler prints in a line that reports a warning.
pub const WARNING_MARKER: &'static str = "): warning C";

/// What the compiler prints in a line that reports an error.
pub const ERROR_MARKER: &'static str = "): error C";

/// The class of one line of output.
#[derive(Clone, Copy, Debug, PartialEq, Eq, Structural)]
pub enum LineKind {
    Warning,
    Error,
    Plain,
}

/// The class of a line: a warning marker wins over an error marker.
pub open spec fn kind_of(line: Seq<char>) -> LineKind {
    if has_substring(line, WARNING_MARKER@) {
        LineKind::Warning
    } else if has_substring(line, ERROR_MARKER@) {
        LineKind::Error
    } else {
        LineKind::Plain
    }
}

/// A line is kept unless only errors are wanted and it is not one.
pub open spec fn kept(line: Seq<char>, error_only: bool) -> bool {
    !error_only || kind_of(line) == LineKind::Error
}

/// What becomes of a line: `None` when it is dropped, else the class in
/// which it is shown and logged.
pub open spec fn route(line: Seq<char>, error_only: bool) -> Option<LineKind> {
    if kept(line, error_only) {
        Some(kind_of(line))
    } else {
        None
    }
}

/// Classifies a line by the markers that it holds.
pub fn classify_line(line: &str) -> (r: LineKind)
    ensures
        r == kind_of(line@),
{
    if contains_text(line, WARNING_MARKER) {
        LineKind::Warning
    } else if contains_text(line, ERROR_MARKER) {
        LineKind::Error
    } else {
        LineKind::Plain
    }
}

/// Decides whether a line is shown and logged, and in which class.
pub fn route_line(line: &str, error_only: bool) -> (r: Option<LineKind>)
    ensures
        r == route(line@, error_only),
{
    let kind = classify_line(line);
    if error_only && kind != LineKind::Error {
        None
    } else {
        Some(kind)
    }
}

} // verus!
