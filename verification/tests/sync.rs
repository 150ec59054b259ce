use minicycle::payload::Payload;
use minicycle::sync::{
    CheckoutStep, CommandOutcome, SyncFailure, SyncState, SyncStep, Synchronizer,
};

fn payload(git_ref: &str) -> Payload {
    Payload::new(
        git_ref.to_string(),
        "https://example.org/site.git".to_string(),
        "a commit".to_string(),
    )
}

fn fresh(git_ref: &str, enforce: bool) -> Synchronizer {
    Synchronizer::new("/srv/site", &payload(git_ref), enforce)
}

fn words(args: &[&str]) -> Option<Vec<String>> {
    Some(args.iter().map(|a| a.to_string()).collect())
}

fn after(mut sync: Synchronizer, outcomes: Vec<CommandOutcome>) -> Synchronizer {
    for outcome in outcomes {
        sync = sync.advance(outcome);
    }
    sync
}

fn successes(n: usize) -> Vec<CommandOutcome> {
    (0..n).map(|_| CommandOutcome::Succeeded).collect()
}

#[test]
fn begins_with_the_probe() {
    let sync = fresh("refs/heads/main", true);
    assert!(matches!(sync.state, SyncState::Checking));
    assert!(!sync.is_done());
    assert_eq!(sync.command(), words(&["-C", "/srv/site", "status"]));
    assert_eq!(sync.path, "/srv/site");
    assert_eq!(sync.clone_url, "https://example.org/site.git");
    assert_eq!(sync.git_ref, "refs/heads/main");
    assert!(sync.enforce_signatures);
}

#[test]
fn a_healthy_copy_is_fetched_and_checked_out() {
    let mut sync = fresh("refs/heads/main", true);
    let expected: Vec<Vec<&str>> = vec![
        vec!["-C", "/srv/site", "status"],
        vec!["-C", "/srv/site", "fetch", "origin", "refs/heads/main"],
        vec!["-C", "/srv/site", "checkout", "main"],
        vec!["-C", "/srv/site", "pull"],
        vec!["-C", "/srv/site", "restore", "."],
        vec!["-C", "/srv/site", "reset", "--hard", "origin/main"],
        vec!["-C", "/srv/site", "verify-commit", "refs/heads/main"],
    ];
    for args in &expected {
        assert!(!sync.is_done());
        assert_eq!(sync.command(), words(args));
        sync = sync.advance(CommandOutcome::Succeeded);
    }
    assert!(sync.is_done());
    assert_eq!(sync.command(), None);
    assert!(matches!(sync.state, SyncState::Ready { verified: true }));
}

#[test]
fn a_missing_copy_is_cloned_and_checked_out() {
    let mut sync = fresh("refs/heads/main", false).advance(CommandOutcome::Failed);
    assert!(matches!(sync.state, SyncState::Cloning));
    let expected: Vec<Vec<&str>> = vec![
        vec!["clone", "https://example.org/site.git", "/srv/site"],
        vec!["-C", "/srv/site", "checkout", "main"],
        vec!["-C", "/srv/site", "pull"],
        vec!["-C", "/srv/site", "restore", "."],
        vec!["-C", "/srv/site", "reset", "--hard", "origin/main"],
    ];
    for args in &expected {
        assert_eq!(sync.command(), words(args));
        sync = sync.advance(CommandOutcome::Succeeded);
    }
    assert!(matches!(sync.state, SyncState::Ready { verified: false }));
}

#[test]
fn the_signature_check_is_passed_over_only_by_configuration() {
    let unchecked = after(fresh("refs/heads/main", false), successes(6));
    assert!(matches!(unchecked.state, SyncState::Ready { verified: false }));
    let pending = after(fresh("refs/heads/main", true), successes(6));
    assert!(matches!(pending.state, SyncState::VerifyingSignature));
    let refused = pending.advance(CommandOutcome::Failed);
    assert!(matches!(
        refused.state,
        SyncState::Failed(SyncFailure { step: SyncStep::Signature, detail: None })
    ));
}

#[test]
fn synchronizing_twice_goes_the_same_way() {
    let first = after(fresh("refs/heads/main", true), successes(7));
    let second = after(fresh("refs/heads/main", true), successes(7));
    assert!(matches!(first.state, SyncState::Ready { verified: true }));
    assert!(matches!(second.state, SyncState::Ready { verified: true }));
}

#[test]
fn a_failed_pull_is_passed_over() {
    let mut outcomes = successes(3);
    outcomes.push(CommandOutcome::Failed);
    let sync = after(fresh("refs/heads/main", true), outcomes);
    assert!(matches!(
        &sync.state,
        SyncState::CheckingOut { step: CheckoutStep::Discarding, branch } if branch == "main"
    ));
}

fn failure_after(successes_before: usize, outcome: CommandOutcome) -> SyncFailure {
    let sync = after(fresh("refs/heads/main", true), successes(successes_before)).advance(outcome);
    match sync.state {
        SyncState::Failed(failure) => failure,
        other => panic!("not failed: {:?}", other),
    }
}

#[test]
fn each_step_fails_under_its_own_name() {
    let cases = vec![
        (1, SyncStep::Fetch, "Error while fetching the pushed ref."),
        (2, SyncStep::Checkout, "Error while checking out the branch."),
        (4, SyncStep::Discard, "Error while discarding local modifications."),
        (5, SyncStep::Reset, "Error while resetting the working copy."),
        (6, SyncStep::Signature, "Error while verifying the commit signature."),
    ];
    for (before, step, text) in cases {
        let failure = failure_after(before, CommandOutcome::Failed);
        assert_eq!(failure.step, step);
        assert_eq!(failure.detail, None);
        assert_eq!(failure.message(), text);
    }
}

#[test]
fn a_command_that_cannot_start_fails_its_step_with_the_reason() {
    let cases = vec![
        (0, SyncStep::Check, "Error while checking the working copy: no git"),
        (1, SyncStep::Fetch, "Error while fetching the pushed ref: no git"),
        (2, SyncStep::Checkout, "Error while checking out the branch: no git"),
        (3, SyncStep::Pull, "Error while pulling the branch: no git"),
        (4, SyncStep::Discard, "Error while discarding local modifications: no git"),
        (5, SyncStep::Reset, "Error while resetting the working copy: no git"),
        (6, SyncStep::Signature, "Error while verifying the commit signature: no git"),
    ];
    for (before, step, text) in cases {
        let failure = failure_after(before, CommandOutcome::NotRun("no git".to_string()));
        assert_eq!(failure.step, step);
        assert_eq!(failure.detail, Some("no git".to_string()));
        assert_eq!(failure.message(), text);
    }
}

#[test]
fn a_failed_clone_fails_the_synchronization() {
    let cloning = fresh("refs/heads/main", true).advance(CommandOutcome::Failed);
    let failed = cloning.advance(CommandOutcome::Failed);
    match &failed.state {
        SyncState::Failed(failure) => {
            assert_eq!(failure.step, SyncStep::Clone);
            assert_eq!(failure.message(), "Error while cloning the repository.");
        },
        other => panic!("not failed: {:?}", other),
    }
    let cloning = fresh("refs/heads/main", true).advance(CommandOutcome::Failed);
    let failed = cloning.advance(CommandOutcome::NotRun("denied".to_string()));
    match &failed.state {
        SyncState::Failed(failure) => {
            assert_eq!(failure.message(), "Error while cloning the repository: denied");
        },
        other => panic!("not failed: {:?}", other),
    }
}

fn refused(sync: Synchronizer, step: SyncStep, text: &str) {
    assert!(sync.is_done());
    assert_eq!(sync.command(), None);
    match &sync.state {
        SyncState::Failed(failure) => {
            assert_eq!(failure.step, step);
            assert_eq!(failure.detail, None);
            assert_eq!(failure.message(), text);
        },
        other => panic!("not failed: {:?}", other),
    }
}

const BAD_REF: &str = "Error while reading the branch out of the pushed ref.";

#[test]
fn a_ref_without_a_branch_is_refused_before_git_sees_it() {
    for git_ref in ["main", "refs/main", ""] {
        refused(fresh(git_ref, true).advance(CommandOutcome::Succeeded), SyncStep::RefFormat, BAD_REF);
        refused(fresh(git_ref, true).advance(CommandOutcome::Failed), SyncStep::RefFormat, BAD_REF);
    }
}

#[test]
fn a_branch_that_reads_as_an_option_is_refused() {
    for git_ref in ["refs/heads/--upload-pack=x", "refs/heads/-f", "refs/heads/-", "a/b/-c"] {
        refused(fresh(git_ref, true).advance(CommandOutcome::Succeeded), SyncStep::RefFormat, BAD_REF);
        refused(fresh(git_ref, false).advance(CommandOutcome::Failed), SyncStep::RefFormat, BAD_REF);
    }
}

#[test]
fn a_ref_that_reads_as_an_option_is_refused() {
    for git_ref in ["--upload-pack=x/heads/main", "-refs/heads/main", "-/-/main"] {
        refused(fresh(git_ref, true).advance(CommandOutcome::Succeeded), SyncStep::RefFormat, BAD_REF);
        refused(fresh(git_ref, true).advance(CommandOutcome::Failed), SyncStep::RefFormat, BAD_REF);
    }
}

#[test]
fn a_ref_with_characters_that_git_gives_a_meaning_is_refused() {
    let refs = [
        "refs/heads/main:refs/heads/other",
        "refs/heads/ma in",
        "refs/heads/main\n",
        "refs/heads/ma\tin",
        "refs/heads/*",
        "refs/heads/main~1",
        "refs/heads/main^",
        "refs/heads/ma?n",
        "refs/heads/[main]",
        "refs/heads/ma\\in",
        "refs/heads/ma\u{7f}in",
        "refs/heads/ma\u{0}in",
    ];
    for git_ref in refs {
        refused(fresh(git_ref, true).advance(CommandOutcome::Succeeded), SyncStep::RefFormat, BAD_REF);
    }
}

#[test]
fn hyphens_inside_a_ref_are_kept() {
    let sync = after(fresh("refs/heads/fix-1--x", true), successes(2));
    assert_eq!(sync.command(), words(&["-C", "/srv/site", "checkout", "fix-1--x"]));
    let sync = after(fresh("refs/heads/\u{fc}ber.2_x+y@z", true), successes(1));
    assert_eq!(
        sync.command(),
        words(&["-C", "/srv/site", "fetch", "origin", "refs/heads/\u{fc}ber.2_x+y@z"])
    );
}

#[test]
fn an_address_that_reads_as_an_option_is_refused() {
    let text = "Error while reading the address to clone from.";
    for url in ["--upload-pack=x", "-u", "-", "https://example.org/a b.git", "https://x/\n"] {
        let payload =
            Payload::new("refs/heads/main".to_string(), url.to_string(), "a commit".to_string());
        let sync = Synchronizer::new("/srv/site", &payload, true);
        refused(sync.advance(CommandOutcome::Failed), SyncStep::CloneUrl, text);
        let sync = Synchronizer::new("/srv/site", &payload, true);
        let healthy = sync.advance(CommandOutcome::Succeeded);
        assert!(matches!(healthy.state, SyncState::Fetching));
    }
}

#[test]
fn no_word_of_the_push_reaches_git_as_an_option() {
    let refs = ["refs/heads/main", "refs/heads/-x", "-a/b/c", "refs/heads/a-b", "x", "refs/heads/"];
    let urls = ["https://example.org/site.git", "-u", "--upload-pack=x"];
    for git_ref in refs {
        for url in urls {
            for healthy in [true, false] {
                let payload =
                    Payload::new(git_ref.to_string(), url.to_string(), "a commit".to_string());
                let mut sync = Synchronizer::new("-path", &payload, true);
                let mut probe = true;
                while let Some(args) = sync.command() {
                    for (i, word) in args.iter().enumerate() {
                        let own = word == "-C" || word == "--hard" || (i == 1 && args[0] == "-C")
                            || (i == 2 && args[0] == "clone");
                        assert!(own || !word.starts_with('-'), "{:?}", args);
                    }
                    let outcome = if probe && !healthy {
                        CommandOutcome::Failed
                    } else {
                        CommandOutcome::Succeeded
                    };
                    probe = false;
                    sync = sync.advance(outcome);
                }
            }
        }
    }
}

#[test]
fn a_healthy_probe_never_leads_to_a_clone() {
    let outcomes = [
        vec![false, false, false, false, false, false],
        vec![true, true, false, true, true, true],
        vec![true, true, true, false, true, true],
    ];
    for rest in outcomes {
        let mut sync = fresh("refs/heads/main", true).advance(CommandOutcome::Succeeded);
        for ok in rest {
            assert!(!matches!(sync.state, SyncState::Cloning | SyncState::Checking));
            if let Some(args) = sync.command() {
                assert_ne!(args[0], "clone");
            }
            sync = sync.advance(if ok { CommandOutcome::Succeeded } else { CommandOutcome::Failed });
        }
    }
}

#[test]
fn final_states_stay() {
    let ready = after(fresh("refs/heads/main", false), successes(6));
    let still = after(
        ready,
        vec![
            CommandOutcome::Failed,
            CommandOutcome::NotRun("late".to_string()),
            CommandOutcome::Succeeded,
        ],
    );
    assert!(matches!(still.state, SyncState::Ready { verified: false }));
    let failed = fresh("refs/heads/main", true).advance(CommandOutcome::NotRun("no git".to_string()));
    let still = after(failed, successes(9));
    assert!(still.is_done());
    match &still.state {
        SyncState::Failed(failure) => {
            assert_eq!(failure.step, SyncStep::Check);
            assert_eq!(failure.detail, Some("no git".to_string()));
        },
        other => panic!("not failed: {:?}", other),
    }
}

#[test]
fn slashes_in_the_branch_are_kept() {
    let sync = after(fresh("refs/heads/feature/login", true), successes(2));
    assert_eq!(sync.command(), words(&["-C", "/srv/site", "checkout", "feature/login"]));
}
