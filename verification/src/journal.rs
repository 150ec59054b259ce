//! How a report reaches the report directory.
//!
//! A report is never written in place. Its text goes to a temporary name
//! and is moved over the final name in one step, and the link to the most
//! recent report is replaced in the same way, so a reader finds either the
//! old state or the new one. The library says which operations to perform
//! and proves what they do to a model of the directory; performing them is
//! left to the caller.

use crate::report::{report_file_name, Report, ReportView};
use crate::text::{decimal_digits, is_digit, lemma_decimal_digits};
use vstd::prelude::*;

verus! {

/// One operation on the report directory. All names are relative to it.
#[derive(Debug)]
pub enum JournalOp {
    /// Write the whole of `report` to the file `name`.
    Write { name: String, report: Report },
    /// Make `name` a link to `target`.
    Link { name: String, target: String },
    /// Move `from` over `to` in one step, replacing what `to` was.
    Rename { from: String, to: String },
}

/// An operation as plain values.
pub enum JournalOpView {
    Write { name: Seq<char>, report: ReportView },
    Link { name: Seq<char>, target: Seq<char> },
    Rename { from: Seq<char>, to: Seq<char> },
}

impl View for JournalOp {
    type V = JournalOpView;

    open spec fn view(&self) -> JournalOpView {
        match self {
            JournalOp::Write { name, report } => JournalOpView::Write { name: name@, report: report@ },
            JournalOp::Link { name, target } => JournalOpView::Link { name: name@, target: target@ },
            JournalOp::Rename { from, to } => JournalOpView::Rename { from: from@, to: to@ },
        }
    }
}

/// What a name in the report directory stands for.
pub enum Entry {
    /// A file that holds a whole report.
    Record(ReportView),
    /// A link to another name.
    Pointer(Seq<char>),
}

/// The report directory: what each name in it stands for.
pub type Directory = Map<Seq<char>, Entry>;

/// The name of the link to the most recent report.
pub open spec fn latest_name() -> Seq<char> {
    "latest"@
}

/// The name under which something is prepared before it is moved to `name`.
pub open spec fn temporary_name(name: Seq<char>) -> Seq<char> {
    name + ".tmp"@
}

/// Whether `name` is one under which things are only prepared.
pub open spec fn is_temporary(name: Seq<char>) -> bool {
    ".tmp"@.is_suffix_of(name)
}

/// The directory after one operation. Moving a name that does not exist
/// changes nothing.
pub open spec fn apply(dir: Directory, op: JournalOpView) -> Directory {
    match op {
        JournalOpView::Write { name, report } => dir.insert(name, Entry::Record(report)),
        JournalOpView::Link { name, target } => dir.insert(name, Entry::Pointer(target)),
        JournalOpView::Rename { from, to } => if dir.contains_key(from) {
            dir.remove(from).insert(to, dir[from])
        } else {
            dir
        },
    }
}

/// The directory after the operations, performed in order.
pub open spec fn apply_all(dir: Directory, ops: Seq<JournalOpView>) -> Directory
    decreases ops.len(),
{
    if ops.len() == 0 {
        dir
    } else {
        apply(apply_all(dir, ops.drop_last()), ops.last())
    }
}

/// Whether the link to the most recent report leads to `target`, and
/// `target` is a report.
pub open spec fn latest_is(dir: Directory, target: Seq<char>) -> bool {
    &&& dir.contains_key(latest_name())
    &&& dir[latest_name()] == Entry::Pointer(target)
    &&& dir.contains_key(target)
    &&& dir[target] is Record
}

/// Whether the link to the most recent report leads to a report.
pub open spec fn latest_resolves(dir: Directory) -> bool {
    exists|target: Seq<char>| latest_is(dir, target)
}

/// The operations that publish `report`: its text is written under a
/// temporary name and moved to the report's own name, then a link to it is
/// made under a temporary name and moved over the link to the most recent
/// report.
pub open spec fn publish_plan(report: ReportView) -> Seq<JournalOpView> {
    let file = report_file_name(report.start.time as nat);
    seq![
        JournalOpView::Write { name: temporary_name(file), report },
        JournalOpView::Rename { from: temporary_name(file), to: file },
        JournalOpView::Link { name: temporary_name(latest_name()), target: file },
        JournalOpView::Rename { from: temporary_name(latest_name()), to: latest_name() },
    ]
}

/// The views of the operations, in order.
pub open spec fn views_of(ops: Seq<JournalOp>) -> Seq<JournalOpView> {
    Seq::new(ops.len(), |i: int| ops[i]@)
}

/// The operations that publish `report`, to be performed in order. Both
/// the start and the end of a build publish the build's report in this way.
pub fn publish(report: &Report) -> (ops: Vec<JournalOp>)
    ensures
        views_of(ops@) == publish_plan(report@),
{
    let file = report.file_name();
    let mut file_tmp = file.clone();
    file_tmp.append(".tmp");
    let mut link_tmp = "latest".to_owned();
    link_tmp.append(".tmp");
    let mut ops: Vec<JournalOp> = Vec::new();
    ops.push(JournalOp::Write { name: file_tmp.clone(), report: report.duplicate() });
    ops.push(JournalOp::Rename { from: file_tmp, to: file.clone() });
    ops.push(JournalOp::Link { name: link_tmp.clone(), target: file });
    ops.push(JournalOp::Rename { from: link_tmp, to: "latest".to_owned() });
    assert(views_of(ops@) =~= publish_plan(report@));
    ops
}

/// Whether the link to the most recent report leads to a report whose
/// name is not a temporary one.
pub open spec fn latest_settled(dir: Directory) -> bool {
    exists|target: Seq<char>| latest_is(dir, target) && !is_temporary(target)
}

/// The directory after the first `done` of the operations that publish
/// `report`.
pub open spec fn publishing(dir: Directory, report: ReportView, done: int) -> Directory {
    apply_all(dir, publish_plan(report).take(done))
}

/// Performing `k` operations is performing `k - 1` and then one more.
proof fn lemma_apply_all_step(dir: Directory, ops: Seq<JournalOpView>, k: int)
    requires
        0 < k <= ops.len(),
    ensures
        apply_all(dir, ops.take(k)) == apply(apply_all(dir, ops.take(k - 1)), ops[k - 1]),
{
    assert(ops.take(k).drop_last() =~= ops.take(k - 1));
}

/// The four names that publishing a report goes through are what they
/// look like: two temporary ones, and two final ones that differ.
proof fn lemma_names(time: nat)
    ensures
        report_file_name(time) != latest_name(),
        !is_temporary(report_file_name(time)),
        !is_temporary(latest_name()),
        is_temporary(temporary_name(report_file_name(time))),
        is_temporary(temporary_name(latest_name())),
{
    reveal_strlit("latest");
    reveal_strlit(".tmp");
    reveal_strlit(".json");
    lemma_decimal_digits(time);
    let file = report_file_name(time);
    assert(is_digit(decimal_digits(time)[0]));
    assert(file[0] == decimal_digits(time)[0]);
    assert(latest_name()[0] == 'l');
    assert(file[file.len() - 1] == 'n');
    assert(latest_name()[latest_name().len() - 1] == 't');
    assert(".tmp"@[3] == 'p');
    assert(!is_temporary(file)) by {
        if is_temporary(file) {
            assert(file.subrange(file.len() - 4, file.len() as int)[3] == 'p');
        }
    }
    assert(!is_temporary(latest_name())) by {
        if is_temporary(latest_name()) {
            assert(latest_name().subrange(2, 6)[3] == 'p');
        }
    }
    let file_tmp = temporary_name(file);
    assert(file_tmp.subrange(file_tmp.len() - 4, file_tmp.len() as int) =~= ".tmp"@);
    let link_tmp = temporary_name(latest_name());
    assert(link_tmp.subrange(link_tmp.len() - 4, link_tmp.len() as int) =~= ".tmp"@);
}

/// The operations that publish a report never leave the link to the most
/// recent report without a report behind it: if the link led to a report
/// before, it leads to one after each of the operations.
pub proof fn lemma_publish_never_dangles(dir: Directory, report: ReportView, done: int)
    requires
        latest_settled(dir),
        0 <= done <= publish_plan(report).len(),
    ensures
        latest_settled(publishing(dir, report, done)),
        latest_resolves(publishing(dir, report, done)),
    decreases done,
{
    let plan = publish_plan(report);
    if done == 0 {
        assert(plan.take(0) =~= Seq::empty());
    } else {
        lemma_publish_never_dangles(dir, report, done - 1);
        lemma_apply_all_step(dir, plan, done);
        lemma_names(report.start.time as nat);
        let before = publishing(dir, report, done - 1);
        let after = publishing(dir, report, done);
        let target = choose|target: Seq<char>| latest_is(before, target) && !is_temporary(target);
        let file = report_file_name(report.start.time as nat);
        if done == 1 || done == 2 {
            assert(latest_is(after, target));
        } else if done == 3 {
            assert(latest_is(after, target));
        } else {
            lemma_publish_steps(dir, report);
            assert(latest_is(after, file));
        }
    }
}

/// What the directory holds after each of the operations that publish a
/// report.
proof fn lemma_publish_steps(dir: Directory, report: ReportView)
    ensures
        ({
            let file = report_file_name(report.start.time as nat);
            let record = Entry::Record(report);
            let pointer = Entry::Pointer(file);
            let file_tmp = temporary_name(file);
            let link_tmp = temporary_name(latest_name());
            let d1 = dir.insert(file_tmp, record);
            let d2 = d1.remove(file_tmp).insert(file, record);
            let d3 = d2.insert(link_tmp, pointer);
            let d4 = d3.remove(link_tmp).insert(latest_name(), pointer);
            &&& publishing(dir, report, 0) == dir
            &&& publishing(dir, report, 1) == d1
            &&& publishing(dir, report, 2) == d2
            &&& publishing(dir, report, 3) == d3
            &&& publishing(dir, report, 4) == d4
        }),
{
    let plan = publish_plan(report);
    assert(plan.take(0) =~= Seq::empty());
    lemma_apply_all_step(dir, plan, 1);
    lemma_apply_all_step(dir, plan, 2);
    lemma_apply_all_step(dir, plan, 3);
    lemma_apply_all_step(dir, plan, 4);
}

/// Once a report is published, the link to the most recent report leads
/// to the report's file, and that file holds the report, whatever the
/// directory held before.
pub proof fn lemma_publish_sets_latest(dir: Directory, report: ReportView)
    ensures
        ({
            let after = apply_all(dir, publish_plan(report));
            let file = report_file_name(report.start.time as nat);
            &&& latest_is(after, file)
            &&& after[file] == Entry::Record(report)
            &&& latest_settled(after)
            &&& latest_resolves(after)
        }),
{
    let plan = publish_plan(report);
    assert(plan.take(4) =~= plan);
    lemma_publish_steps(dir, report);
    lemma_names(report.start.time as nat);
    let after = apply_all(dir, plan);
    let file = report_file_name(report.start.time as nat);
    assert(latest_is(after, file));
}

/// Publishing a report writes text under temporary names only: every
/// final name gets what it holds by a move.
pub proof fn lemma_publish_writes_aside(report: ReportView, i: int)
    requires
        0 <= i < publish_plan(report).len(),
    ensures
        match publish_plan(report)[i] {
            JournalOpView::Write { name, .. } => is_temporary(name),
            JournalOpView::Link { name, .. } => is_temporary(name),
            JournalOpView::Rename { from, to } => is_temporary(from) && !is_temporary(to),
        },
{
    lemma_names(report.start.time as nat);
}

} // verus!
