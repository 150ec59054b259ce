//! One build, from the trigger to the finished report.
//!
//! The pipeline is a chain of three values. A [`Pipeline`] synchronizes
//! the working copy, one git command at a time. If that ends well it
//! becomes a [`Build`], which says what to launch and holds the report of
//! the build's start. Either way it ends as a [`Closure`], which holds the
//! finished report. A build and its end each list what is to be done,
//! in order; the caller runs the commands, performs the actions and reads
//! the clock.

use crate::cfg::{ref_admitted, Cfg, Repo};
use crate::payload::{Payload, PayloadView};
use crate::journal::{
    apply_all, latest_is, lemma_publish_sets_latest, publish, publish_plan, views_of, Directory, Entry,
    JournalOp, JournalOpView,
};
use crate::report::{
    artifacts_name, concluded_report, report_file_name, started_report, Finish, Report, ReportView,
};
use crate::sync::{
    commands_left, failure_text, lemma_signature_honoured, lemma_step_progress, pending_command, run,
    step, CommandOutcome, CommandOutcomeView, SyncState, SyncStateView, Synchronizer,
    SynchronizerView,
};
use crate::text::texts_of;
use vstd::prelude::*;

verus! {

/// The name of the environment variable that tells the entrypoint where
/// its artifact directory is.
pub const ARTIFACTS_VARIABLE: &'static str = "MINICYCLE_ARTIFACTS";

/// The name of the file in the artifact directory that takes the
/// entrypoint's standard output and standard error.
pub const OUTPUT_LOG: &'static str = "output";

/// Why a trigger led to no build. None of these is a failure of a build:
/// nothing is synchronized, run or written.
#[derive(Debug, Clone, Copy, PartialEq, Eq, Structural)]
pub enum Dropped {
    /// The body is no payload.
    PayloadDecodeError,
    /// No repository is configured under the name.
    ConfigLookupError,
    /// The pushed ref ends with none of the repository's suffixes.
    BranchMismatch,
}

/// A build whose working copy is being synchronized.
#[derive(Debug)]
pub struct Pipeline {
    /// The name of the repository.
    pub name: String,
    /// The build command of the repository.
    pub entrypoint: String,
    pub payload: Payload,
    pub sync: Synchronizer,
}

/// A pipeline as plain values.
pub struct PipelineView {
    pub name: Seq<char>,
    pub entrypoint: Seq<char>,
    pub payload: PayloadView,
    pub sync: SynchronizerView,
}

impl View for Pipeline {
    type V = PipelineView;

    open spec fn view(&self) -> PipelineView {
        PipelineView {
            name: self.name@,
            entrypoint: self.entrypoint@,
            payload: self.payload@,
            sync: self.sync@,
        }
    }
}

/// The pipeline that a trigger for `repo` begins with.
pub open spec fn first_pipeline(repo: Repo, payload: PayloadView, enforce_signatures: bool) -> PipelineView {
    PipelineView {
        name: repo.name@,
        entrypoint: repo.entrypoint@,
        payload,
        sync: SynchronizerView {
            state: SyncStateView::Checking,
            path: repo.path@,
            clone_url: payload.clone_url,
            git_ref: payload.git_ref,
            enforce_signatures,
        },
    }
}

/// Decides whether a trigger that was admitted leads to a build: the body
/// has to be a payload, the name has to be that of a configured
/// repository, and the pushed ref has to end with one of the repository's
/// branch suffixes. `payload` is `None` where the body could not be read
/// as a payload.
pub fn run_hook(config: &Cfg, name: &str, payload: Option<Payload>) -> (r: Result<Pipeline, Dropped>)
    ensures
        payload is None ==> r == Err::<Pipeline, Dropped>(Dropped::PayloadDecodeError),
        payload is Some && !config.knows(name@) ==> r == Err::<Pipeline, Dropped>(
            Dropped::ConfigLookupError,
        ),
        forall|i: int|
            payload is Some && config.first_named(name@, i) ==> if ref_admitted(
                config.repos[i].branches@,
                payload->0@.git_ref,
            ) {
                r is Ok && r->Ok_0@ == first_pipeline(
                    config.repos[i],
                    payload->0@,
                    config.enforce_signatures,
                )
            } else {
                r == Err::<Pipeline, Dropped>(Dropped::BranchMismatch)
            },
        r is Ok ==> exists|i: int|
            config.first_named(name@, i) && r->Ok_0@ == first_pipeline(
                #[trigger] config.repos[i],
                payload->0@,
                config.enforce_signatures,
            ),
{
    let payload = match payload {
        Some(payload) => payload,
        None => {
            return Err(Dropped::PayloadDecodeError);
        },
    };
    let repo = match config.find_repo(name) {
        Some(repo) => repo,
        None => {
            return Err(Dropped::ConfigLookupError);
        },
    };
    if !repo.admits(payload.git_ref.as_str()) {
        return Err(Dropped::BranchMismatch);
    }
    let sync = Synchronizer::new(repo.path.as_str(), &payload, config.enforce_signatures);
    Ok(Pipeline { name: repo.name.clone(), entrypoint: repo.entrypoint.clone(), payload, sync })
}

/// What to launch for a build.
#[derive(Debug)]
pub struct Launch {
    /// The directory to run in: the repository's working copy.
    pub working_dir: String,
    /// The program to run, relative to `working_dir`.
    pub program: String,
    /// The name of the build's artifact directory under the configured
    /// artifact directory. It has to exist before the program starts; the
    /// program finds its absolute path in [`ARTIFACTS_VARIABLE`], and its
    /// output goes to [`OUTPUT_LOG`] in it.
    pub artifacts: String,
}

/// A launch as plain values.
pub struct LaunchView {
    pub working_dir: Seq<char>,
    pub program: Seq<char>,
    pub artifacts: Seq<char>,
}

impl View for Launch {
    type V = LaunchView;

    open spec fn view(&self) -> LaunchView {
        LaunchView {
            working_dir: self.working_dir@,
            program: self.program@,
            artifacts: self.artifacts@,
        }
    }
}

/// A build whose entrypoint is to run. `report` is the report of its
/// start, to be published before the entrypoint is launched.
#[derive(Debug)]
pub struct Build {
    pub report: Report,
    pub launch: Launch,
    /// Whether the signature of the commit was verified. It is not where
    /// the configuration switches the check off.
    pub verified: bool,
}

/// A build as plain values.
pub struct BuildView {
    pub report: ReportView,
    pub launch: LaunchView,
    pub verified: bool,
}

impl View for Build {
    type V = BuildView;

    open spec fn view(&self) -> BuildView {
        BuildView { report: self.report@, launch: self.launch@, verified: self.verified }
    }
}

/// How the entrypoint went.
#[derive(Debug)]
pub enum ExitOutcome {
    /// It ran to its end. `status` is its exit status in words.
    Exited { success: bool, status: String },
    /// It could not be started; the text says why.
    NotStarted(String),
}

/// How the entrypoint went, as plain values.
pub enum ExitOutcomeView {
    Exited { success: bool, status: Seq<char> },
    NotStarted(Seq<char>),
}

impl View for ExitOutcome {
    type V = ExitOutcomeView;

    open spec fn view(&self) -> ExitOutcomeView {
        match self {
            ExitOutcome::Exited { success, status } => ExitOutcomeView::Exited {
                success: *success,
                status: status@,
            },
            ExitOutcome::NotStarted(why) => ExitOutcomeView::NotStarted(why@),
        }
    }
}

/// The end of a build. `report` is the finished report, to be published.
#[derive(Debug)]
pub struct Closure {
    pub report: Report,
    /// What went wrong, `None` for a build that succeeded.
    pub error: Option<String>,
    /// Whether the entrypoint was launched. Where it was not, the
    /// artifact directory does not exist yet, and `error` is all there is
    /// to put into its output log.
    pub launched: bool,
}

/// The end of a build as plain values.
pub struct ClosureView {
    pub report: ReportView,
    pub error: Option<Seq<char>>,
    pub launched: bool,
}

impl View for Closure {
    type V = ClosureView;

    open spec fn view(&self) -> ClosureView {
        ClosureView {
            report: self.report@,
            error: match self.error {
                Some(text) => Some(text@),
                None => None,
            },
            launched: self.launched,
        }
    }
}

/// One thing to do for a build.
#[derive(Debug)]
pub enum BuildAction {
    /// Make the artifact directory `name` under the configured artifact
    /// directory, with all that leads to it.
    CreateArtifacts { name: String },
    /// Write `text` to [`OUTPUT_LOG`] in the artifact directory `name`.
    WriteLog { name: String, text: String },
    /// Perform the operations on the report directory, in order.
    Publish(Vec<JournalOp>),
    /// Launch the entrypoint and wait for its end.
    Launch(Launch),
}

/// An action as plain values.
pub enum BuildActionView {
    CreateArtifacts { name: Seq<char> },
    WriteLog { name: Seq<char>, text: Seq<char> },
    Publish(Seq<JournalOpView>),
    Launch(LaunchView),
}

impl View for BuildAction {
    type V = BuildActionView;

    open spec fn view(&self) -> BuildActionView {
        match self {
            BuildAction::CreateArtifacts { name } => BuildActionView::CreateArtifacts { name: name@ },
            BuildAction::WriteLog { name, text } => BuildActionView::WriteLog {
                name: name@,
                text: text@,
            },
            BuildAction::Publish(ops) => BuildActionView::Publish(views_of(ops@)),
            BuildAction::Launch(launch) => BuildActionView::Launch(launch@),
        }
    }
}

/// The views of the actions, in order.
pub open spec fn action_views(actions: Seq<BuildAction>) -> Seq<BuildActionView> {
    Seq::new(actions.len(), |i: int| actions[i]@)
}

/// What the start of a build consists of, in order: the artifact
/// directory is made, the report of the start is published, and only
/// then the entrypoint is launched.
pub open spec fn start_plan(build: BuildView) -> Seq<BuildActionView> {
    seq![
        BuildActionView::CreateArtifacts { name: build.launch.artifacts },
        BuildActionView::Publish(publish_plan(build.report)),
        BuildActionView::Launch(build.launch),
    ]
}

/// What the end of a build consists of, in order. After a launch, the
/// finished report is published. Where nothing was launched, the artifact
/// directory is made first and the reason goes into its output log.
pub open spec fn end_plan(closure: ClosureView) -> Seq<BuildActionView> {
    if closure.launched {
        seq![BuildActionView::Publish(publish_plan(closure.report))]
    } else {
        seq![
            BuildActionView::CreateArtifacts { name: closure.report.artifacts },
            BuildActionView::WriteLog {
                name: closure.report.artifacts,
                text: match closure.error {
                    Some(text) => text,
                    None => Seq::empty(),
                },
            },
            BuildActionView::Publish(publish_plan(closure.report)),
        ]
    }
}

/// Where a build stands after a git command.
#[derive(Debug)]
pub enum Progress {
    /// The synchronization goes on.
    Syncing(Pipeline),
    /// The working copy is ready; the entrypoint is to run.
    Building(Build),
    /// The synchronization failed; the build is over.
    Closed(Closure),
}

/// Progress as plain values.
pub enum ProgressView {
    Syncing(PipelineView),
    Building(BuildView),
    Closed(ClosureView),
}

impl View for Progress {
    type V = ProgressView;

    open spec fn view(&self) -> ProgressView {
        match self {
            Progress::Syncing(pipeline) => ProgressView::Syncing(pipeline@),
            Progress::Building(build) => ProgressView::Building(build@),
            Progress::Closed(closure) => ProgressView::Closed(closure@),
        }
    }
}

/// The build that begins at `time` in the working copy at `path`.
pub open spec fn started_build(
    name: Seq<char>,
    path: Seq<char>,
    entrypoint: Seq<char>,
    payload: PayloadView,
    verified: bool,
    time: u64,
) -> BuildView {
    BuildView {
        report: started_report(name, payload, time),
        launch: LaunchView {
            working_dir: path,
            program: entrypoint,
            artifacts: artifacts_name(name, time as nat),
        },
        verified,
    }
}

/// Where `pipeline` stands once its pending git command went as `outcome`
/// says, at the time `now`.
///
/// While the synchronization goes on, so does the pipeline. Once the
/// working copy is ready, the build begins. If the synchronization fails,
/// the entrypoint is not run: the build ends at once, its report says
/// that it did not succeed, and the reason of the failure is its error.
pub open spec fn progress_of(
    pipeline: PipelineView,
    outcome: CommandOutcomeView,
    now: u64,
) -> ProgressView {
    let sync = step(pipeline.sync, outcome);
    match sync.state {
        SyncStateView::Ready { verified } => ProgressView::Building(
            started_build(
                pipeline.name,
                sync.path,
                pipeline.entrypoint,
                pipeline.payload,
                verified,
                now,
            ),
        ),
        SyncStateView::Failed(failure) => ProgressView::Closed(
            ClosureView {
                report: concluded_report(
                    started_report(pipeline.name, pipeline.payload, now),
                    now,
                    false,
                ),
                error: Some(failure_text(failure)),
                launched: false,
            },
        ),
        _ => ProgressView::Syncing(PipelineView { sync, ..pipeline }),
    }
}

/// What an entrypoint that did not succeed is reported with.
pub open spec fn exit_error(exit: ExitOutcomeView) -> Option<Seq<char>> {
    match exit {
        ExitOutcomeView::Exited { success, status } => if success {
            None
        } else {
            Some("entrypoint exited with status: "@ + status)
        },
        ExitOutcomeView::NotStarted(why) => Some(why),
    }
}

/// The end of `build` once its entrypoint went as `exit` says, at the
/// time `now`. The build succeeded exactly if the entrypoint ran and
/// reported success.
pub open spec fn closure_of(build: BuildView, exit: ExitOutcomeView, now: u64) -> ClosureView {
    ClosureView {
        report: concluded_report(build.report, now, exit_error(exit) is None),
        error: exit_error(exit),
        launched: true,
    }
}

/// Begins a build at `time_start`: the report of its start and what to
/// launch. `name` is the repository's name, `path` its working copy and
/// `entrypoint` its build command; `verified` says whether the signature
/// of the commit was verified.
pub fn run_entrypoint(
    name: &str,
    path: String,
    entrypoint: String,
    payload: &Payload,
    verified: bool,
    time_start: u64,
) -> (build: Build)
    ensures
        build@ == started_build(name@, path@, entrypoint@, payload@, verified, time_start),
{
    let report = Report::begin(name, payload, time_start);
    let artifacts = report.artifacts.clone();
    Build { report, launch: Launch { working_dir: path, program: entrypoint, artifacts }, verified }
}

impl Pipeline {
    /// The arguments of the git command to run next.
    pub fn command(&self) -> (args: Option<Vec<String>>)
        ensures
            match args {
                Some(words) => pending_command(self@.sync) == Some(
                    texts_of(words@),
                ),
                None => pending_command(self@.sync) is None,
            },
    {
        self.sync.command()
    }

    /// Moves on after the pending git command went as `outcome` says.
    /// `now` is the time in seconds since the epoch.
    pub fn bump_repo(self, outcome: CommandOutcome, now: u64) -> (progress: Progress)
        ensures
            progress@ == progress_of(self@, outcome@, now),
    {
        let Pipeline { name, entrypoint, payload, sync } = self;
        let sync = sync.advance(outcome);
        match &sync.state {
            SyncState::Ready { verified } => {
                let verified = *verified;
                Progress::Building(
                    run_entrypoint(name.as_str(), sync.path, entrypoint, &payload, verified, now),
                )
            },
            SyncState::Failed(failure) => {
                let mut report = Report::begin(name.as_str(), &payload, now);
                report.conclude(now, false);
                Progress::Closed(Closure { report, error: Some(failure.message()), launched: false })
            },
            _ => Progress::Syncing(Pipeline { name, entrypoint, payload, sync }),
        }
    }
}

impl Launch {
    /// A second copy of the launch.
    pub fn duplicate(&self) -> (copy: Launch)
        ensures
            copy@ == self@,
    {
        Launch {
            working_dir: self.working_dir.clone(),
            program: self.program.clone(),
            artifacts: self.artifacts.clone(),
        }
    }
}

impl Closure {
    /// What is to be done at the end of the build, in order.
    pub fn actions(&self) -> (actions: Vec<BuildAction>)
        ensures
            action_views(actions@) == end_plan(self@),
    {
        let mut actions: Vec<BuildAction> = Vec::new();
        if !self.launched {
            actions.push(BuildAction::CreateArtifacts { name: self.report.artifacts.clone() });
            let text = match &self.error {
                Some(text) => text.clone(),
                None => String::new(),
            };
            actions.push(BuildAction::WriteLog { name: self.report.artifacts.clone(), text });
        }
        actions.push(BuildAction::Publish(publish(&self.report)));
        assert(action_views(actions@) =~= end_plan(self@));
        actions
    }
}

impl Build {
    /// What is to be done at the start of the build, in order. The last
    /// action is the launch; how it went is what [`Build::finish`] takes.
    pub fn actions(&self) -> (actions: Vec<BuildAction>)
        ensures
            action_views(actions@) == start_plan(self@),
    {
        let mut actions: Vec<BuildAction> = Vec::new();
        actions.push(BuildAction::CreateArtifacts { name: self.launch.artifacts.clone() });
        actions.push(BuildAction::Publish(publish(&self.report)));
        actions.push(BuildAction::Launch(self.launch.duplicate()));
        assert(action_views(actions@) =~= start_plan(self@));
        actions
    }

    /// Ends the build after its entrypoint went as `exit` says. `now` is
    /// the time in seconds since the epoch.
    pub fn finish(self, exit: ExitOutcome, now: u64) -> (closure: Closure)
        ensures
            closure@ == closure_of(self@, exit@, now),
    {
        let Build { report, launch: _, verified: _ } = self;
        let mut report = report;
        let error = match exit {
            ExitOutcome::Exited { success, status } => if success {
                None
            } else {
                let mut text = "entrypoint exited with status: ".to_owned();
                text.append(status.as_str());
                Some(text)
            },
            ExitOutcome::NotStarted(why) => Some(why),
        };
        report.conclude(now, error.is_none());
        Closure { report, error, launched: true }
    }
}

/// The entrypoint runs only on a working copy that is ready. A failed
/// synchronization ends the build at once: nothing is launched, and the
/// report says that the build did not succeed.
pub proof fn lemma_failed_sync_ends_build(pipeline: PipelineView, outcome: CommandOutcomeView, now: u64)
    ensures
        progress_of(pipeline, outcome, now) is Building <==> step(pipeline.sync, outcome).state is Ready,
        progress_of(pipeline, outcome, now) is Closed <==> step(pipeline.sync, outcome).state is Failed,
        progress_of(pipeline, outcome, now) matches ProgressView::Closed(closure) ==> {
            &&& !closure.launched
            &&& closure.error is Some
            &&& closure.report.finish == Some(Finish { time: now, ok: false })
        },
        progress_of(pipeline, outcome, now) matches ProgressView::Building(build)
            ==> build.report.finish is None && build.report.start.time == now,
{
}

/// A build begins without a verified signature only where the
/// configuration switches the check off, and the build says so: in a
/// pipeline that began with a trigger, `verified` is set exactly if
/// signatures are enforced.
pub proof fn lemma_unverified_build_is_configured(
    pipeline: PipelineView,
    outcomes: Seq<CommandOutcomeView>,
    last: CommandOutcomeView,
    now: u64,
)
    requires
        pipeline.sync.state is Checking,
    ensures
        progress_of(
            PipelineView { sync: run(pipeline.sync, outcomes), ..pipeline },
            last,
            now,
        ) matches ProgressView::Building(build) ==> build.verified
            == pipeline.sync.enforce_signatures,
{
    lemma_signature_honoured(pipeline.sync, outcomes.push(last));
    assert(outcomes.push(last).drop_last() =~= outcomes);
}

/// A pipeline that goes on is closer to its end: it leaves the
/// synchronization within seven git commands.
pub proof fn lemma_pipeline_progress(pipeline: PipelineView, outcome: CommandOutcomeView, now: u64)
    ensures
        progress_of(pipeline, outcome, now) matches ProgressView::Syncing(next) ==> {
            &&& commands_left(next.sync.state) < commands_left(pipeline.sync.state)
            &&& commands_left(pipeline.sync.state) <= 7
            &&& next == (PipelineView { sync: next.sync, ..pipeline })
            &&& pending_command(next.sync) is Some
        },
{
    lemma_step_progress(pipeline.sync, outcome);
    lemma_step_progress(step(pipeline.sync, outcome), outcome);
}

/// The end of a build rewrites the report of its start: same file, same
/// artifacts, message, ref and start, and now with the time and the
/// outcome of the end.
pub proof fn lemma_finish_completes_report(build: BuildView, exit: ExitOutcomeView, now: u64)
    requires
        build.report.finish is None,
    ensures
        ({
            let closure = closure_of(build, exit, now);
            let succeeded = exit matches ExitOutcomeView::Exited { success, .. } && success;
            &&& closure.report == (ReportView {
                finish: Some(Finish { time: now, ok: succeeded }),
                ..build.report
            })
            &&& report_file_name(closure.report.start.time as nat) == report_file_name(
                build.report.start.time as nat,
            )
            &&& closure.error is None <==> succeeded
        }),
{
}

/// Both phases of a build leave the report directory with the link to
/// the most recent report leading to the build's own file: after the
/// start the file holds the report of the start, after the end the
/// finished report.
pub proof fn lemma_two_phases(dir: Directory, build: BuildView, exit: ExitOutcomeView, now: u64)
    ensures
        ({
            let file = report_file_name(build.report.start.time as nat);
            let started = apply_all(dir, publish_plan(build.report));
            let closure = closure_of(build, exit, now);
            let finished = apply_all(started, publish_plan(closure.report));
            &&& latest_is(started, file)
            &&& started[file] == Entry::Record(build.report)
            &&& latest_is(finished, file)
            &&& finished[file] == Entry::Record(closure.report)
        }),
{
    let started = apply_all(dir, publish_plan(build.report));
    lemma_publish_sets_latest(dir, build.report);
    lemma_publish_sets_latest(started, closure_of(build, exit, now).report);
}

/// The order of a build. Its start makes the artifact directory, then
/// publishes the report of the start, then launches the entrypoint, and
/// nothing else. Its end, whatever the entrypoint did, publishes the
/// finished report last, and that report is the one of the start with the
/// end added.
pub proof fn lemma_build_order(build: BuildView, exit: ExitOutcomeView, now: u64)
    requires
        build.report.finish is None,
    ensures
        ({
            let start = start_plan(build);
            let end = end_plan(closure_of(build, exit, now));
            &&& start.len() == 3
            &&& start[0] == (BuildActionView::CreateArtifacts { name: build.launch.artifacts })
            &&& start[1] == BuildActionView::Publish(publish_plan(build.report))
            &&& start[2] == BuildActionView::Launch(build.launch)
            &&& end.len() == 1
            &&& end[0] == BuildActionView::Publish(
                publish_plan(
                    ReportView {
                        finish: Some(Finish { time: now, ok: exit_error(exit) is None }),
                        ..build.report
                    },
                ),
            )
        }),
{
}

} // verus!
