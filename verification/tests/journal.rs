use minicycle::journal::{publish, JournalOp};
use minicycle::payload::Payload;
use minicycle::report::{Finish, Report, Start};
use std::collections::HashMap;

#[derive(Debug, Clone, PartialEq)]
enum Entry {
    Record(String, Option<Finish>),
    Pointer(String),
}

type Directory = HashMap<String, Entry>;

fn perform(dir: &mut Directory, op: &JournalOp) {
    match op {
        JournalOp::Write { name, report } => {
            dir.insert(name.clone(), Entry::Record(report.artifacts.clone(), report.finish));
        },
        JournalOp::Link { name, target } => {
            dir.insert(name.clone(), Entry::Pointer(target.clone()));
        },
        JournalOp::Rename { from, to } => {
            if let Some(entry) = dir.remove(from) {
                dir.insert(to.clone(), entry);
            }
        },
    }
}

fn latest(dir: &Directory) -> Option<&Entry> {
    match dir.get("latest") {
        Some(Entry::Pointer(target)) => match dir.get(target) {
            Some(entry @ Entry::Record(..)) => Some(entry),
            _ => None,
        },
        _ => None,
    }
}

fn report(time: u64) -> Report {
    let payload = Payload::new(
        "refs/heads/main".to_string(),
        "https://example.org/site.git".to_string(),
        "a commit".to_string(),
    );
    Report::begin("site", &payload, time)
}

#[test]
fn a_report_begins_without_an_end() {
    let report = report(1700000000);
    assert_eq!(report.artifacts, "site-1700000000");
    assert_eq!(report.message, "a commit");
    assert_eq!(report.git_ref, "refs/heads/main");
    assert_eq!(report.start, Start { time: 1700000000 });
    assert_eq!(report.finish, None);
    assert!(!report.is_finished());
    assert_eq!(report.file_name(), "1700000000.json");
}

#[test]
fn a_report_is_named_by_its_start() {
    assert_eq!(report(0).file_name(), "0.json");
    assert_eq!(report(0).artifacts, "site-0");
    assert_eq!(report(u64::MAX).file_name(), "18446744073709551615.json");
}

#[test]
fn a_report_is_concluded_once() {
    let mut report = report(5);
    report.conclude(9, true);
    assert_eq!(report.finish, Some(Finish { time: 9, ok: true }));
    assert!(report.is_finished());
    assert_eq!(report.start, Start { time: 5 });
    assert_eq!(report.file_name(), "5.json");
    report.conclude(12, false);
    assert_eq!(report.finish, Some(Finish { time: 9, ok: true }));
}

#[test]
fn a_copy_of_a_report_says_the_same() {
    let mut report = report(5);
    report.conclude(9, false);
    let copy = report.duplicate();
    assert_eq!(copy.artifacts, report.artifacts);
    assert_eq!(copy.message, report.message);
    assert_eq!(copy.git_ref, report.git_ref);
    assert_eq!(copy.start, report.start);
    assert_eq!(copy.finish, report.finish);
}

#[test]
fn publishing_writes_aside_and_moves_into_place() {
    let ops = publish(&report(42));
    assert_eq!(ops.len(), 4);
    match &ops[0] {
        JournalOp::Write { name, report } => {
            assert_eq!(name, "42.json.tmp");
            assert_eq!(report.artifacts, "site-42");
            assert_eq!(report.finish, None);
        },
        other => panic!("not a write: {:?}", other),
    }
    match &ops[1] {
        JournalOp::Rename { from, to } => {
            assert_eq!(from, "42.json.tmp");
            assert_eq!(to, "42.json");
        },
        other => panic!("not a move: {:?}", other),
    }
    match &ops[2] {
        JournalOp::Link { name, target } => {
            assert_eq!(name, "latest.tmp");
            assert_eq!(target, "42.json");
        },
        other => panic!("not a link: {:?}", other),
    }
    match &ops[3] {
        JournalOp::Rename { from, to } => {
            assert_eq!(from, "latest.tmp");
            assert_eq!(to, "latest");
        },
        other => panic!("not a move: {:?}", other),
    }
}

#[test]
fn the_latest_report_follows_each_phase() {
    let mut dir = Directory::new();
    let mut report = report(42);
    for op in publish(&report) {
        perform(&mut dir, &op);
    }
    assert_eq!(latest(&dir), Some(&Entry::Record("site-42".to_string(), None)));
    report.conclude(50, true);
    for op in publish(&report) {
        perform(&mut dir, &op);
    }
    let finished = Entry::Record("site-42".to_string(), Some(Finish { time: 50, ok: true }));
    assert_eq!(latest(&dir), Some(&finished));
    assert_eq!(dir.get("42.json"), Some(&finished));
    assert_eq!(dir.len(), 2);
}

#[test]
fn the_latest_report_never_dangles() {
    let mut dir = Directory::new();
    for op in publish(&report(41)) {
        perform(&mut dir, &op);
    }
    let mut next = report(42);
    for phase in 0..2 {
        for op in publish(&next) {
            perform(&mut dir, &op);
            assert!(latest(&dir).is_some(), "dangling after {:?}", op);
        }
        if phase == 0 {
            assert_eq!(latest(&dir), Some(&Entry::Record("site-42".to_string(), None)));
            next.conclude(43, false);
        }
    }
    assert_eq!(
        latest(&dir),
        Some(&Entry::Record("site-42".to_string(), Some(Finish { time: 43, ok: false })))
    );
    assert_eq!(dir.get("41.json"), Some(&Entry::Record("site-41".to_string(), None)));
}
