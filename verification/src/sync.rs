//! Bringing a working copy to the pushed ref.
//!
//! A [`Synchronizer`] walks through the steps one git command at a time:
//! it names the command to run, takes the report of how it went, and moves
//! on. It ends in `Ready` or in `Failed`, and stays there.

use crate::git::{
    branch_of, check_ref, check_url, checkout, clone, fetch, fetched_tip, is_option,
    lemma_branch_of_canonical, pull_branch, reset, restore, status, usable_ref, usable_url,
    verify_commit,
};
use crate::payload::Payload;
use crate::text::texts_of;
use vstd::prelude::*;

verus! {

/// How a command went.
#[derive(Debug)]
pub enum CommandOutcome {
    /// It ran and reported success.
    Succeeded,
    /// It ran and reported failure.
    Failed,
    /// It could not be started; the text says why.
    NotRun(String),
}

/// How a command went, as plain values.
pub enum CommandOutcomeView {
    Succeeded,
    Failed,
    NotRun(Seq<char>),
}

impl View for CommandOutcome {
    type V = CommandOutcomeView;

    open spec fn view(&self) -> CommandOutcomeView {
        match self {
            CommandOutcome::Succeeded => CommandOutcomeView::Succeeded,
            CommandOutcome::Failed => CommandOutcomeView::Failed,
            CommandOutcome::NotRun(why) => CommandOutcomeView::NotRun(why@),
        }
    }
}

/// The steps of a synchronization that can fail.
#[derive(Debug, Clone, Copy, PartialEq, Eq, Structural)]
pub enum SyncStep {
    /// Probing the working copy.
    Check,
    /// Reading the address to clone from.
    CloneUrl,
    /// Cloning the repository.
    Clone,
    /// Fetching the pushed ref.
    Fetch,
    /// Reading the branch out of the pushed ref.
    RefFormat,
    /// Checking out the branch.
    Checkout,
    /// Pulling the branch.
    Pull,
    /// Discarding local modifications.
    Discard,
    /// Resetting the working copy.
    Reset,
    /// Verifying the signature of the commit.
    Signature,
}

/// Why a synchronization failed: the step, and what the system said if
/// the step's command could not be started.
#[derive(Debug)]
pub struct SyncFailure {
    pub step: SyncStep,
    pub detail: Option<String>,
}

/// A failure as plain values.
pub struct SyncFailureView {
    pub step: SyncStep,
    pub detail: Option<Seq<char>>,
}

impl View for SyncFailure {
    type V = SyncFailureView;

    open spec fn view(&self) -> SyncFailureView {
        SyncFailureView {
            step: self.step,
            detail: match self.detail {
                Some(text) => Some(text@),
                None => None,
            },
        }
    }
}

/// The four commands of a checkout, in the order in which they run.
#[derive(Debug, Clone, Copy, PartialEq, Eq, Structural)]
pub enum CheckoutStep {
    Switching,
    Pulling,
    Discarding,
    Resetting,
}

/// Where a synchronization stands.
#[derive(Debug)]
pub enum SyncState {
    /// Probing whether the path holds a healthy working copy.
    Checking,
    /// Cloning, because it does not.
    Cloning,
    /// Fetching the pushed ref, because it does.
    Fetching,
    /// Bringing the working copy to the tip of `branch`.
    CheckingOut { step: CheckoutStep, branch: String },
    /// Verifying the signature of the commit that is checked out.
    VerifyingSignature,
    /// Done. `verified` says whether the commit's signature was verified;
    /// it is not where the configuration switches the check off.
    Ready { verified: bool },
    /// Given up.
    Failed(SyncFailure),
}

/// A state as plain values.
pub enum SyncStateView {
    Checking,
    Cloning,
    Fetching,
    CheckingOut { step: CheckoutStep, branch: Seq<char> },
    VerifyingSignature,
    Ready { verified: bool },
    Failed(SyncFailureView),
}

impl View for SyncState {
    type V = SyncStateView;

    open spec fn view(&self) -> SyncStateView {
        match self {
            SyncState::Checking => SyncStateView::Checking,
            SyncState::Cloning => SyncStateView::Cloning,
            SyncState::Fetching => SyncStateView::Fetching,
            SyncState::CheckingOut { step, branch } => SyncStateView::CheckingOut {
                step: *step,
                branch: branch@,
            },
            SyncState::VerifyingSignature => SyncStateView::VerifyingSignature,
            SyncState::Ready { verified } => SyncStateView::Ready { verified: *verified },
            SyncState::Failed(failure) => SyncStateView::Failed(failure@),
        }
    }
}

/// One synchronization of one working copy.
#[derive(Debug)]
pub struct Synchronizer {
    pub state: SyncState,
    /// Where the working copy lives.
    pub path: String,
    /// Where to clone it from if it is missing.
    pub clone_url: String,
    /// The pushed ref.
    pub git_ref: String,
    /// Whether the commit's signature has to be verified.
    pub enforce_signatures: bool,
}

/// A synchronization as plain values.
pub struct SynchronizerView {
    pub state: SyncStateView,
    pub path: Seq<char>,
    pub clone_url: Seq<char>,
    pub git_ref: Seq<char>,
    pub enforce_signatures: bool,
}

impl View for Synchronizer {
    type V = SynchronizerView;

    open spec fn view(&self) -> SynchronizerView {
        SynchronizerView {
            state: self.state@,
            path: self.path@,
            clone_url: self.clone_url@,
            git_ref: self.git_ref@,
            enforce_signatures: self.enforce_signatures,
        }
    }
}

/// The state after a failure of `step`.
pub open spec fn failed_at(step: SyncStep, outcome: CommandOutcomeView) -> SyncStateView {
    SyncStateView::Failed(
        SyncFailureView {
            step,
            detail: match outcome {
                CommandOutcomeView::NotRun(why) => Some(why),
                _ => None,
            },
        },
    )
}

/// The state after a ref was found unfit to be handed to git.
pub open spec fn bad_ref() -> SyncStateView {
    SyncStateView::Failed(SyncFailureView { step: SyncStep::RefFormat, detail: None })
}

/// The state in which a checkout begins: the branch is read out of the
/// ref, and a ref that cannot be handed to git ends the synchronization.
pub open spec fn checkout_of(git_ref: Seq<char>) -> SyncStateView {
    if usable_ref(git_ref) {
        SyncStateView::CheckingOut { step: CheckoutStep::Switching, branch: branch_of(git_ref)->0 }
    } else {
        bad_ref()
    }
}

/// The state that follows the probe of the working copy. Nothing of the
/// push notification has been handed to git so far, and nothing is
/// unless it is fit for that: a ref that is not ends the synchronization
/// here, and so does an address that is not, where one is needed. A
/// healthy working copy is fetched into; where there is none, one is
/// cloned.
pub open spec fn after_probe(sync: SynchronizerView, healthy: bool) -> SyncStateView {
    if !usable_ref(sync.git_ref) {
        bad_ref()
    } else if healthy {
        SyncStateView::Fetching
    } else if usable_url(sync.clone_url) {
        SyncStateView::Cloning
    } else {
        SyncStateView::Failed(SyncFailureView { step: SyncStep::CloneUrl, detail: None })
    }
}

/// The state that follows `sync.state` once its command went as
/// `outcome` says.
///
/// A command that could not be started fails its step. A command that
/// reports failure fails its step too, with two exceptions: a failed probe
/// means that there is no healthy working copy, so one is cloned; and a
/// failed pull is passed over, since the reset behind it brings the
/// working copy to the fetched tip of the branch either way. `Ready` and
/// `Failed` are final.
pub open spec fn next_state(sync: SynchronizerView, outcome: CommandOutcomeView) -> SyncStateView {
    match sync.state {
        SyncStateView::Checking => match outcome {
            CommandOutcomeView::Succeeded => after_probe(sync, true),
            CommandOutcomeView::Failed => after_probe(sync, false),
            CommandOutcomeView::NotRun(_) => failed_at(SyncStep::Check, outcome),
        },
        SyncStateView::Cloning => match outcome {
            CommandOutcomeView::Succeeded => checkout_of(sync.git_ref),
            _ => failed_at(SyncStep::Clone, outcome),
        },
        SyncStateView::Fetching => match outcome {
            CommandOutcomeView::Succeeded => checkout_of(sync.git_ref),
            _ => failed_at(SyncStep::Fetch, outcome),
        },
        SyncStateView::CheckingOut { step, branch } => match step {
            CheckoutStep::Switching => match outcome {
                CommandOutcomeView::Succeeded => SyncStateView::CheckingOut {
                    step: CheckoutStep::Pulling,
                    branch,
                },
                _ => failed_at(SyncStep::Checkout, outcome),
            },
            CheckoutStep::Pulling => match outcome {
                CommandOutcomeView::NotRun(_) => failed_at(SyncStep::Pull, outcome),
                _ => SyncStateView::CheckingOut { step: CheckoutStep::Discarding, branch },
            },
            CheckoutStep::Discarding => match outcome {
                CommandOutcomeView::Succeeded => SyncStateView::CheckingOut {
                    step: CheckoutStep::Resetting,
                    branch,
                },
                _ => failed_at(SyncStep::Discard, outcome),
            },
            CheckoutStep::Resetting => match outcome {
                CommandOutcomeView::Succeeded => if sync.enforce_signatures {
                    SyncStateView::VerifyingSignature
                } else {
                    SyncStateView::Ready { verified: false }
                },
                _ => failed_at(SyncStep::Reset, outcome),
            },
        },
        SyncStateView::VerifyingSignature => match outcome {
            CommandOutcomeView::Succeeded => SyncStateView::Ready { verified: true },
            _ => failed_at(SyncStep::Signature, outcome),
        },
        SyncStateView::Ready { .. } => sync.state,
        SyncStateView::Failed(_) => sync.state,
    }
}

/// The arguments of the git command that `sync.state` waits for, `None`
/// in a final state.
pub open spec fn pending_command(sync: SynchronizerView) -> Option<Seq<Seq<char>>> {
    match sync.state {
        SyncStateView::Checking => Some(seq!["-C"@, sync.path, "status"@]),
        SyncStateView::Cloning => Some(seq!["clone"@, sync.clone_url, sync.path]),
        SyncStateView::Fetching => Some(seq!["-C"@, sync.path, "fetch"@, "origin"@, sync.git_ref]),
        SyncStateView::CheckingOut { step, branch } => match step {
            CheckoutStep::Switching => Some(seq!["-C"@, sync.path, "checkout"@, branch]),
            CheckoutStep::Pulling => Some(seq!["-C"@, sync.path, "pull"@]),
            CheckoutStep::Discarding => Some(seq!["-C"@, sync.path, "restore"@, "."@]),
            CheckoutStep::Resetting => Some(
                seq!["-C"@, sync.path, "reset"@, "--hard"@, fetched_tip(branch)],
            ),
        },
        SyncStateView::VerifyingSignature => Some(
            seq!["-C"@, sync.path, "verify-commit"@, sync.git_ref],
        ),
        SyncStateView::Ready { .. } => None,
        SyncStateView::Failed(_) => None,
    }
}

/// The synchronization after its pending command went as `outcome` says.
pub open spec fn step(sync: SynchronizerView, outcome: CommandOutcomeView) -> SynchronizerView {
    SynchronizerView { state: next_state(sync, outcome), ..sync }
}

/// The synchronization after one command for each of the outcomes, in
/// order.
pub open spec fn run(sync: SynchronizerView, outcomes: Seq<CommandOutcomeView>) -> SynchronizerView
    decreases outcomes.len(),
{
    if outcomes.len() == 0 {
        sync
    } else {
        step(run(sync, outcomes.drop_last()), outcomes.last())
    }
}

/// Whether a state is final.
pub open spec fn is_final(state: SyncStateView) -> bool {
    state is Ready || state is Failed
}

/// The largest number of commands that can still run from a state.
pub open spec fn commands_left(state: SyncStateView) -> nat {
    match state {
        SyncStateView::Checking => 7,
        SyncStateView::Cloning => 6,
        SyncStateView::Fetching => 6,
        SyncStateView::CheckingOut { step, .. } => match step {
            CheckoutStep::Switching => 5,
            CheckoutStep::Pulling => 4,
            CheckoutStep::Discarding => 3,
            CheckoutStep::Resetting => 2,
        },
        SyncStateView::VerifyingSignature => 1,
        SyncStateView::Ready { .. } => 0,
        SyncStateView::Failed(_) => 0,
    }
}

/// Every command brings the synchronization closer to its end, and a
/// synchronization that has ended stays as it is.
pub proof fn lemma_step_progress(sync: SynchronizerView, outcome: CommandOutcomeView)
    ensures
        is_final(sync.state) <==> commands_left(sync.state) == 0,
        is_final(sync.state) <==> pending_command(sync) is None,
        is_final(sync.state) ==> step(sync, outcome) == sync,
        !is_final(sync.state) ==> commands_left(step(sync, outcome).state) < commands_left(sync.state),
{
}

/// A synchronization ends within seven commands, however they go: after
/// as many outcomes as there were commands left, it is in a final state.
pub proof fn lemma_run_ends(sync: SynchronizerView, outcomes: Seq<CommandOutcomeView>)
    ensures
        commands_left(run(sync, outcomes).state) + outcomes.len() <= commands_left(sync.state)
            || is_final(run(sync, outcomes).state),
        outcomes.len() >= commands_left(sync.state) ==> is_final(run(sync, outcomes).state),
        commands_left(sync.state) <= 7,
    decreases outcomes.len(),
{
    if outcomes.len() > 0 {
        lemma_run_ends(sync, outcomes.drop_last());
        lemma_step_progress(run(sync, outcomes.drop_last()), outcomes.last());
    }
}

/// Whether the state agrees with the configuration on commit signatures.
pub open spec fn honours_signatures(sync: SynchronizerView) -> bool {
    &&& sync.state is VerifyingSignature ==> sync.enforce_signatures
    &&& sync.state matches SyncStateView::Ready { verified } ==> verified == sync.enforce_signatures
}

/// The check of the commit's signature is passed over only where the
/// configuration says so, and the final state shows it: a synchronization
/// that began with the probe ends in `Ready` with `verified` set exactly
/// if signatures are enforced.
pub proof fn lemma_signature_honoured(sync: SynchronizerView, outcomes: Seq<CommandOutcomeView>)
    requires
        honours_signatures(sync),
    ensures
        honours_signatures(run(sync, outcomes)),
        run(sync, outcomes).enforce_signatures == sync.enforce_signatures,
        run(sync, outcomes).git_ref == sync.git_ref,
        run(sync, outcomes).path == sync.path,
        run(sync, outcomes).clone_url == sync.clone_url,
    decreases outcomes.len(),
{
    if outcomes.len() > 0 {
        lemma_signature_honoured(sync, outcomes.drop_last());
    }
}

/// A command that succeeds never fails the synchronization, but for the
/// one case of a ref that cannot be handed to git.
pub proof fn lemma_success_moves_on(sync: SynchronizerView)
    requires
        !is_final(sync.state),
        usable_ref(sync.git_ref),
    ensures
        !(next_state(sync, CommandOutcomeView::Succeeded) is Failed),
{
}

/// A command that cannot be started fails the synchronization at once,
/// and the failure carries what the system said.
pub proof fn lemma_not_run_fails(sync: SynchronizerView, why: Seq<char>)
    requires
        !is_final(sync.state),
    ensures
        next_state(sync, CommandOutcomeView::NotRun(why)) matches SyncStateView::Failed(failure)
            && failure.detail == Some(why),
{
}

/// On a healthy working copy where every command succeeds, the
/// synchronization never clones and ends in `Ready` after six commands,
/// or seven where the signature is verified. It goes the same way each
/// time.
pub proof fn lemma_healthy_copy(sync: SynchronizerView, outcomes: Seq<CommandOutcomeView>)
    requires
        sync.state is Checking,
        usable_ref(sync.git_ref),
        forall|i: int| 0 <= i < outcomes.len() ==> #[trigger] outcomes[i] is Succeeded,
    ensures
        !(run(sync, outcomes).state is Cloning),
        !(run(sync, outcomes).state is Failed),
        outcomes.len() + commands_left(run(sync, outcomes).state) == 7 || (run(
            sync,
            outcomes,
        ).state is Ready),
        !sync.enforce_signatures && outcomes.len() >= 6 ==> run(sync, outcomes).state is Ready,
        outcomes.len() >= 7 ==> run(sync, outcomes).state is Ready,
    decreases outcomes.len(),
{
    if outcomes.len() > 0 {
        lemma_healthy_copy(sync, outcomes.drop_last());
        lemma_signature_honoured(sync, outcomes.drop_last());
    }
}

/// Whether the word at the place `i` of the command that `state` waits
/// for comes from the push notification: the address in a clone, the ref
/// in a fetch and in the check of the signature, the branch in the switch,
/// and the fetched tip of the branch in the reset.
pub open spec fn is_given_word(state: SyncStateView, i: int) -> bool {
    match state {
        SyncStateView::Cloning => i == 1,
        SyncStateView::Fetching => i == 4,
        SyncStateView::CheckingOut { step, .. } => match step {
            CheckoutStep::Switching => i == 3,
            CheckoutStep::Resetting => i == 4,
            _ => false,
        },
        SyncStateView::VerifyingSignature => i == 3,
        _ => false,
    }
}

/// Whether a word is one that the library writes into a command itself.
pub open spec fn is_own_word(word: Seq<char>) -> bool {
    ||| word == "-C"@
    ||| word == "status"@
    ||| word == "clone"@
    ||| word == "fetch"@
    ||| word == "origin"@
    ||| word == "checkout"@
    ||| word == "pull"@
    ||| word == "restore"@
    ||| word == "."@
    ||| word == "reset"@
    ||| word == "--hard"@
    ||| word == "verify-commit"@
}

/// Whether what the state is about to hand to git was found fit for it.
pub open spec fn is_vetted(sync: SynchronizerView) -> bool {
    match sync.state {
        SyncStateView::Cloning => usable_ref(sync.git_ref) && usable_url(sync.clone_url),
        SyncStateView::Fetching => usable_ref(sync.git_ref),
        SyncStateView::CheckingOut { branch, .. } => usable_ref(sync.git_ref) && branch_of(
            sync.git_ref,
        ) == Some(branch),
        SyncStateView::VerifyingSignature => usable_ref(sync.git_ref),
        _ => true,
    }
}

/// What was found fit for git stays so: a synchronization that holds
/// nothing unfit holds nothing unfit after any run of commands. One that
/// stands at the probe holds nothing unfit.
pub proof fn lemma_run_is_vetted(sync: SynchronizerView, outcomes: Seq<CommandOutcomeView>)
    requires
        is_vetted(sync),
    ensures
        is_vetted(run(sync, outcomes)),
    decreases outcomes.len(),
{
    if outcomes.len() > 0 {
        lemma_run_is_vetted(sync, outcomes.drop_last());
        lemma_run_keeps_fields(sync, outcomes.drop_last());
    }
}

/// A run changes the state only: the path, the address, the ref and the
/// setting stay.
proof fn lemma_run_keeps_fields(sync: SynchronizerView, outcomes: Seq<CommandOutcomeView>)
    ensures
        run(sync, outcomes) == (SynchronizerView { state: run(sync, outcomes).state, ..sync }),
    decreases outcomes.len(),
{
    if outcomes.len() > 0 {
        lemma_run_keeps_fields(sync, outcomes.drop_last());
    }
}

/// Nothing that comes from the push notification reaches git as an
/// option. In a synchronization that began with the probe, however its
/// commands went, every word of the pending command is either one that
/// the library writes itself, or the configured path, or a word from the
/// notification that does not begin with a hyphen.
pub proof fn lemma_given_words_are_no_options(
    sync: SynchronizerView,
    outcomes: Seq<CommandOutcomeView>,
)
    requires
        sync.state is Checking,
    ensures
        pending_command(run(sync, outcomes)) matches Some(words) ==> forall|i: int|
            0 <= i < words.len() ==> if is_given_word(run(sync, outcomes).state, i) {
                !is_option(#[trigger] words[i])
            } else {
                words[i] == sync.path || is_own_word(words[i])
            },
{
    lemma_run_is_vetted(sync, outcomes);
    lemma_run_keeps_fields(sync, outcomes);
    reveal_strlit("origin/");
    let now = run(sync, outcomes);
    match now.state {
        SyncStateView::CheckingOut { step, branch } => {
            assert(fetched_tip(branch)[0] == 'o');
        },
        _ => {},
    }
}

/// A push for a branch that begins with a hyphen is refused when the
/// probe has run, whatever the probe found: the synchronization fails at
/// the ref, and no command is left to run.
pub proof fn lemma_option_branch_is_refused(
    sync: SynchronizerView,
    branch: Seq<char>,
    outcome: CommandOutcomeView,
)
    requires
        sync.state is Checking,
        sync.git_ref == "refs/heads/"@ + branch,
        is_option(branch),
        !(outcome is NotRun),
    ensures
        next_state(sync, outcome) == bad_ref(),
        pending_command(step(sync, outcome)) is None,
{
    lemma_branch_of_canonical(branch);
}

/// A synchronization whose probe finds a healthy working copy never
/// clones, however the commands behind the probe go.
pub proof fn lemma_healthy_probe_never_clones(
    sync: SynchronizerView,
    outcomes: Seq<CommandOutcomeView>,
)
    requires
        sync.state is Checking,
        outcomes.len() > 0,
        outcomes[0] is Succeeded,
    ensures
        !(run(sync, outcomes).state is Cloning),
        !(run(sync, outcomes).state is Checking),
    decreases outcomes.len(),
{
    if outcomes.len() == 1 {
        assert(outcomes.drop_last() =~= Seq::empty());
    } else {
        lemma_healthy_probe_never_clones(sync, outcomes.drop_last());
    }
}

/// What a step was doing, in words.
pub open spec fn step_words(step: SyncStep) -> Seq<char> {
    match step {
        SyncStep::Check => "checking the working copy"@,
        SyncStep::CloneUrl => "reading the address to clone from"@,
        SyncStep::Clone => "cloning the repository"@,
        SyncStep::Fetch => "fetching the pushed ref"@,
        SyncStep::RefFormat => "reading the branch out of the pushed ref"@,
        SyncStep::Checkout => "checking out the branch"@,
        SyncStep::Pull => "pulling the branch"@,
        SyncStep::Discard => "discarding local modifications"@,
        SyncStep::Reset => "resetting the working copy"@,
        SyncStep::Signature => "verifying the commit signature"@,
    }
}

/// The reason of a failure, for a reader: the step in words, and what the
/// system said where it said something.
pub open spec fn failure_text(failure: SyncFailureView) -> Seq<char> {
    match failure.detail {
        Some(detail) => "Error while "@ + step_words(failure.step) + ": "@ + detail,
        None => "Error while "@ + step_words(failure.step) + "."@,
    }
}

impl SyncStep {
    /// What the step was doing, in words.
    pub fn words(&self) -> (text: &'static str)
        ensures
            text@ == step_words(*self),
    {
        match self {
            SyncStep::Check => "checking the working copy",
            SyncStep::CloneUrl => "reading the address to clone from",
            SyncStep::Clone => "cloning the repository",
            SyncStep::Fetch => "fetching the pushed ref",
            SyncStep::RefFormat => "reading the branch out of the pushed ref",
            SyncStep::Checkout => "checking out the branch",
            SyncStep::Pull => "pulling the branch",
            SyncStep::Discard => "discarding local modifications",
            SyncStep::Reset => "resetting the working copy",
            SyncStep::Signature => "verifying the commit signature",
        }
    }
}

impl SyncFailure {
    /// The reason of the failure, for a reader.
    pub fn message(&self) -> (text: String)
        ensures
            text@ == failure_text(self@),
    {
        let mut text = "Error while ".to_owned();
        text.append(self.step.words());
        match &self.detail {
            Some(detail) => {
                text.append(": ");
                text.append(detail.as_str());
            },
            None => {
                text.append(".");
            },
        }
        text
    }

    fn at(step: SyncStep, outcome: CommandOutcome) -> (failure: SyncFailure)
        ensures
            SyncStateView::Failed(failure@) == failed_at(step, outcome@),
    {
        match outcome {
            CommandOutcome::NotRun(why) => SyncFailure { step, detail: Some(why) },
            _ => SyncFailure { step, detail: None },
        }
    }
}

impl Synchronizer {
    /// A synchronization of the working copy at `path` for the push that
    /// `payload` describes. It begins by probing the working copy.
    pub fn new(path: &str, payload: &Payload, enforce_signatures: bool) -> (sync: Synchronizer)
        ensures
            sync@ == (SynchronizerView {
                state: SyncStateView::Checking,
                path: path@,
                clone_url: payload@.clone_url,
                git_ref: payload@.git_ref,
                enforce_signatures,
            }),
    {
        Synchronizer {
            state: SyncState::Checking,
            path: path.to_owned(),
            clone_url: payload.repository.clone_url.clone(),
            git_ref: payload.git_ref.clone(),
            enforce_signatures,
        }
    }

    /// Whether the synchronization has ended, well or badly.
    pub fn is_done(&self) -> (done: bool)
        ensures
            done == (pending_command(self@) is None),
            done == (self@.state is Ready || self@.state is Failed),
    {
        match &self.state {
            SyncState::Ready { .. } => true,
            SyncState::Failed(_) => true,
            _ => false,
        }
    }

    /// The arguments of the git command to run next, `None` once the
    /// synchronization has ended.
    pub fn command(&self) -> (args: Option<Vec<String>>)
        ensures
            match args {
                Some(words) => pending_command(self@) == Some(texts_of(words@)),
                None => pending_command(self@) is None,
            },
    {
        let path = self.path.as_str();
        match &self.state {
            SyncState::Checking => Some(status(path)),
            SyncState::Cloning => Some(clone(path, self.clone_url.as_str())),
            SyncState::Fetching => Some(fetch(path, self.git_ref.as_str())),
            SyncState::CheckingOut { step, branch } => match step {
                CheckoutStep::Switching => Some(checkout(path, branch.as_str())),
                CheckoutStep::Pulling => Some(pull_branch(path)),
                CheckoutStep::Discarding => Some(restore(path)),
                CheckoutStep::Resetting => Some(reset(path, branch.as_str())),
            },
            SyncState::VerifyingSignature => Some(verify_commit(path, self.git_ref.as_str())),
            SyncState::Ready { .. } => None,
            SyncState::Failed(_) => None,
        }
    }

    fn begin_checkout(git_ref: &str) -> (state: SyncState)
        ensures
            state@ == checkout_of(git_ref@),
    {
        match check_ref(git_ref) {
            Some(branch) => SyncState::CheckingOut { step: CheckoutStep::Switching, branch },
            None => SyncState::Failed(SyncFailure { step: SyncStep::RefFormat, detail: None }),
        }
    }

    fn leave_probe(git_ref: &str, clone_url: &str, healthy: bool) -> (state: SyncState)
        ensures
            state@ == (if !usable_ref(git_ref@) {
                bad_ref()
            } else if healthy {
                SyncStateView::Fetching
            } else if usable_url(clone_url@) {
                SyncStateView::Cloning
            } else {
                SyncStateView::Failed(SyncFailureView { step: SyncStep::CloneUrl, detail: None })
            }),
    {
        if check_ref(git_ref).is_none() {
            SyncState::Failed(SyncFailure { step: SyncStep::RefFormat, detail: None })
        } else if healthy {
            SyncState::Fetching
        } else if check_url(clone_url) {
            SyncState::Cloning
        } else {
            SyncState::Failed(SyncFailure { step: SyncStep::CloneUrl, detail: None })
        }
    }

    /// Moves on after the pending command went as `outcome` says. In a
    /// final state nothing changes.
    pub fn advance(self, outcome: CommandOutcome) -> (next: Synchronizer)
        ensures
            next@ == step(self@, outcome@),
    {
        let Synchronizer { state, path, clone_url, git_ref, enforce_signatures } = self;
        let state = match state {
            SyncState::Checking => match outcome {
                CommandOutcome::Succeeded => Self::leave_probe(
                    git_ref.as_str(),
                    clone_url.as_str(),
                    true,
                ),
                CommandOutcome::Failed => Self::leave_probe(
                    git_ref.as_str(),
                    clone_url.as_str(),
                    false,
                ),
                CommandOutcome::NotRun(_) => SyncState::Failed(SyncFailure::at(SyncStep::Check, outcome)),
            },
            SyncState::Cloning => match outcome {
                CommandOutcome::Succeeded => Self::begin_checkout(git_ref.as_str()),
                _ => SyncState::Failed(SyncFailure::at(SyncStep::Clone, outcome)),
            },
            SyncState::Fetching => match outcome {
                CommandOutcome::Succeeded => Self::begin_checkout(git_ref.as_str()),
                _ => SyncState::Failed(SyncFailure::at(SyncStep::Fetch, outcome)),
            },
            SyncState::CheckingOut { step, branch } => match step {
                CheckoutStep::Switching => match outcome {
                    CommandOutcome::Succeeded => SyncState::CheckingOut {
                        step: CheckoutStep::Pulling,
                        branch,
                    },
                    _ => SyncState::Failed(SyncFailure::at(SyncStep::Checkout, outcome)),
                },
                CheckoutStep::Pulling => match outcome {
                    CommandOutcome::NotRun(_) => SyncState::Failed(
                        SyncFailure::at(SyncStep::Pull, outcome),
                    ),
                    _ => SyncState::CheckingOut { step: CheckoutStep::Discarding, branch },
                },
                CheckoutStep::Discarding => match outcome {
                    CommandOutcome::Succeeded => SyncState::CheckingOut {
                        step: CheckoutStep::Resetting,
                        branch,
                    },
                    _ => SyncState::Failed(SyncFailure::at(SyncStep::Discard, outcome)),
                },
                CheckoutStep::Resetting => match outcome {
                    CommandOutcome::Succeeded => if enforce_signatures {
                        SyncState::VerifyingSignature
                    } else {
                        SyncState::Ready { verified: false }
                    },
                    _ => SyncState::Failed(SyncFailure::at(SyncStep::Reset, outcome)),
                },
            },
            SyncState::VerifyingSignature => match outcome {
                CommandOutcome::Succeeded => SyncState::Ready { verified: true },
                _ => SyncState::Failed(SyncFailure::at(SyncStep::Signature, outcome)),
            },
            SyncState::Ready { verified } => SyncState::Ready { verified },
            SyncState::Failed(failure) => SyncState::Failed(failure),
        };
        Synchronizer { state, path, clone_url, git_ref, enforce_signatures }
    }
}

} // verus!
