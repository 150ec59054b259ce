//! The record of one build attempt, and the names under which it is stored.

use crate::payload::Payload;
use crate::text::{decimal_digits, lemma_decimal_digits_differ, push_decimal};
use vstd::prelude::*;

verus! {

/// When a build began, in seconds since the epoch.
#[derive(Debug, Clone, Copy, PartialEq, Eq, Structural)]
pub struct Start {
    pub time: u64,
}

/// When a build ended, and whether it succeeded.
#[derive(Debug, Clone, Copy, PartialEq, Eq, Structural)]
pub struct Finish {
    pub time: u64,
    pub ok: bool,
}

/// The record of one build attempt. It is written once when the build
/// begins, without `finish`, and once more when the build has ended.
#[derive(Debug)]
pub struct Report {
    /// The name of the build's artifact directory.
    pub artifacts: String,
    /// The message of the commit that was pushed.
    pub message: String,
    /// The pushed ref.
    pub git_ref: String,
    pub start: Start,
    pub finish: Option<Finish>,
}

/// A report as plain values.
pub struct ReportView {
    pub artifacts: Seq<char>,
    pub message: Seq<char>,
    pub git_ref: Seq<char>,
    pub start: Start,
    pub finish: Option<Finish>,
}

impl View for Report {
    type V = ReportView;

    open spec fn view(&self) -> ReportView {
        ReportView {
            artifacts: self.artifacts@,
            message: self.message@,
            git_ref: self.git_ref@,
            start: self.start,
            finish: self.finish,
        }
    }
}

/// The name of the artifact directory of the build of `repo` that began
/// at `time`: the repository's name, a hyphen, the time.
pub open spec fn artifacts_name(repo: Seq<char>, time: nat) -> Seq<char> {
    repo + "-"@ + decimal_digits(time)
}

/// The name of the file that holds the report of the build that began at
/// `time`.
pub open spec fn report_file_name(time: nat) -> Seq<char> {
    decimal_digits(time) + ".json"@
}

/// The report of a build of `repo` for `payload` that began at `time` and
/// has not ended.
pub open spec fn started_report(repo: Seq<char>, payload: crate::payload::PayloadView, time: u64) -> ReportView {
    ReportView {
        artifacts: artifacts_name(repo, time as nat),
        message: payload.message,
        git_ref: payload.git_ref,
        start: Start { time },
        finish: None,
    }
}

/// `report` once the build has ended: a report that already says how its
/// build ended stays as it is.
pub open spec fn concluded_report(report: ReportView, time: u64, ok: bool) -> ReportView {
    if report.finish is Some {
        report
    } else {
        ReportView { finish: Some(Finish { time, ok }), ..report }
    }
}

impl Report {
    /// The report of a build of the repository called `repo` that begins
    /// at `time`.
    pub fn begin(repo: &str, payload: &Payload, time: u64) -> (report: Report)
        ensures
            report@ == started_report(repo@, payload@, time),
    {
        let mut artifacts = repo.to_owned();
        artifacts.append("-");
        push_decimal(&mut artifacts, time);
        Report {
            artifacts,
            message: payload.head_commit.message.clone(),
            git_ref: payload.git_ref.clone(),
            start: Start { time },
            finish: None,
        }
    }

    /// Records how the build ended. A report that already says so is left
    /// as it is.
    pub fn conclude(&mut self, time: u64, ok: bool)
        ensures
            final(self)@ == concluded_report(old(self)@, time, ok),
    {
        if self.finish.is_none() {
            self.finish = Some(Finish { time, ok });
        }
    }

    /// Whether the report says how its build ended.
    pub fn is_finished(&self) -> (r: bool)
        ensures
            r == (self@.finish is Some),
    {
        self.finish.is_some()
    }

    /// A second copy of the report.
    pub fn duplicate(&self) -> (copy: Report)
        ensures
            copy@ == self@,
    {
        Report {
            artifacts: self.artifacts.clone(),
            message: self.message.clone(),
            git_ref: self.git_ref.clone(),
            start: self.start,
            finish: self.finish,
        }
    }

    /// The name of the file that holds this report.
    pub fn file_name(&self) -> (name: String)
        ensures
            name@ == report_file_name(self@.start.time as nat),
    {
        let mut name = String::new();
        push_decimal(&mut name, self.start.time);
        name.append(".json");
        name
    }
}

/// Builds that begin at different times keep their reports in different
/// files and their artifacts in different directories.
pub proof fn lemma_names_differ(repo: Seq<char>, first: nat, second: nat)
    requires
        first != second,
    ensures
        report_file_name(first) != report_file_name(second),
        artifacts_name(repo, first) != artifacts_name(repo, second),
{
    lemma_decimal_digits_differ(first, second);
    let a = decimal_digits(first);
    let b = decimal_digits(second);
    if report_file_name(first) == report_file_name(second) {
        assert(report_file_name(first).len() == a.len() + ".json"@.len());
        assert(report_file_name(second).len() == b.len() + ".json"@.len());
        assert(a =~= report_file_name(first).subrange(0, a.len() as int));
        assert(b =~= report_file_name(second).subrange(0, b.len() as int));
    }
    if artifacts_name(repo, first) == artifacts_name(repo, second) {
        let head = (repo + "-"@).len() as int;
        assert(a =~= artifacts_name(repo, first).skip(head));
        assert(b =~= artifacts_name(repo, second).skip(head));
    }
}

} // verus!
