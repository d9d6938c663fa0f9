//! What a probe reports when it ends.

use vstd::prelude::*;
use crate::available::Available;

verus! {

/// What a probe learnt about a module.
#[derive(Debug, PartialEq, Eq)]
pub enum Finding {
    /// No candidate name is a regular file in any directory of the search path.
    NotFound,
    /// The file found carries no execute permission; it was not launched.
    NotExecutable,
    /// The file found could not be launched.
    LaunchFailed,
    /// The file found was launched, and what it printed is not text.
    Unreadable,
    /// The file found was launched and printed this text, trimmed, which is not the
    /// expected one.
    Mismatch(String),
    /// The file found was launched and printed the expected text.
    Confirmed,
}

/// A `Finding` with its text as a sequence of characters.
pub enum FindingView {
    NotFound,
    NotExecutable,
    LaunchFailed,
    Unreadable,
    Mismatch(Seq<char>),
    Confirmed,
}

impl View for Finding {
    type V = FindingView;

    open spec fn view(&self) -> FindingView {
        match self {
            Finding::NotFound => FindingView::NotFound,
            Finding::NotExecutable => FindingView::NotExecutable,
            Finding::LaunchFailed => FindingView::LaunchFailed,
            Finding::Unreadable => FindingView::Unreadable,
            Finding::Mismatch(text) => FindingView::Mismatch(text@),
            Finding::Confirmed => FindingView::Confirmed,
        }
    }
}

impl FindingView {
    /// The classification that the finding amounts to: `Yes` for a confirmed version, `No`
    /// where nothing was found, `Degraded` for everything in between.
    pub open spec fn available(self) -> Available {
        match self {
            FindingView::Confirmed => Available::Yes,
            FindingView::NotFound => Available::No,
            _ => Available::Degraded,
        }
    }
}

impl Clone for Finding {
    fn clone(&self) -> (copy: Self)
        ensures
            copy@ == self@,
    {
        match self {
            Finding::NotFound => Finding::NotFound,
            Finding::NotExecutable => Finding::NotExecutable,
            Finding::LaunchFailed => Finding::LaunchFailed,
            Finding::Unreadable => Finding::Unreadable,
            Finding::Mismatch(text) => Finding::Mismatch(text.clone()),
            Finding::Confirmed => Finding::Confirmed,
        }
    }
}

impl Finding {
    /// The classification that the finding amounts to.
    pub fn available(&self) -> (class: Available)
        ensures
            class == self@.available(),
    {
        match self {
            Finding::Confirmed => Available::Yes,
            Finding::NotFound => Available::No,
            _ => Available::Degraded,
        }
    }
}

/// The end of a probe: the candidate name that matched, empty where none did, and what was
/// learnt about the file of that name.
#[derive(Debug, PartialEq, Eq)]
pub struct Report {
    pub name: String,
    pub finding: Finding,
}

/// A `Report` with its texts as sequences of characters.
pub struct ReportView {
    pub name: Seq<char>,
    pub finding: FindingView,
}

impl View for Report {
    type V = ReportView;

    open spec fn view(&self) -> ReportView {
        ReportView { name: self.name@, finding: self.finding@ }
    }
}

impl ReportView {
    /// The report of a probe that found no file.
    pub open spec fn not_found() -> ReportView {
        ReportView { name: Seq::empty(), finding: FindingView::NotFound }
    }

    /// The classification that the report amounts to.
    pub open spec fn available(self) -> Available {
        self.finding.available()
    }
}

impl Clone for Report {
    fn clone(&self) -> (copy: Self)
        ensures
            copy@ == self@,
    {
        Report { name: self.name.clone(), finding: self.finding.clone() }
    }
}

impl Report {
    /// The classification that the report amounts to.
    pub fn available(&self) -> (class: Available)
        ensures
            class == self@.available(),
    {
        self.finding.available()
    }
}

} // verus!
