//! The workflow of one repository and of a whole run.
//!
//! A repository is pulled (fast-forward only); then, when pushing is on, its
//! changes go either to the side channel (through the engine) or the straight
//! path: stage, commit when something is staged, push. `RepoRun` makes these
//! decisions one git answer at a time; `Workflow` takes the repositories in
//! order and keeps one result for each.
use vstd::prelude::*;
use vstd::string::*;
use crate::config::{FailurePolicy, ResolvedRunConfig};
use crate::engine::{
    awaited, error_text, sync_next, sync_start, SideChannelSync, SideChannelSyncResult, SyncStep,
    SyncView,
};
use crate::git::{
    commit, commit_words, diff_words, ensure_remote_exists, failure_detail, failure_text,
    has_staged_changes, plain, prune_fetch_words, pull_ff_only, pull_words, push, push_words,
    remote_check_words, stage_changes, stage_words, CallView, GitCall, GitOutput, OutputView,
};
use crate::message::{generate_commit_message, is_commit_message};

verus! {

/// How a repository fared.
#[derive(Debug, Clone, Copy, PartialEq, Eq, Structural)]
pub enum RepoStatus {
    Success,
    NoOp,
    Failed,
}

/// The outcome of one repository in a run.
#[derive(Debug)]
pub struct RepoResult {
    pub repo: String,
    pub status: RepoStatus,
    pub message: String,
}

/// `RepoResult` as a mathematical value.
pub struct ResultView {
    pub repo: Seq<char>,
    pub status: RepoStatus,
    pub message: Seq<char>,
}

impl View for RepoResult {
    type V = ResultView;

    open spec fn view(&self) -> ResultView {
        ResultView { repo: self.repo@, status: self.status, message: self.message@ }
    }
}

/// Where the workflow of a repository stands.
#[derive(Debug)]
pub enum RunStage {
    Pull,
    PreflightRemote,
    PreflightFetch,
    Side(SideChannelSync),
    StageFiles,
    CheckDiff,
    Commit,
    Push { has_changes: bool },
    Done,
}

/// `RunStage` as a mathematical value.
pub enum RunStageView {
    Pull,
    PreflightRemote,
    PreflightFetch,
    Side(SyncView),
    StageFiles,
    CheckDiff,
    Commit,
    Push { has_changes: bool },
    Done,
}

impl View for RunStage {
    type V = RunStageView;

    open spec fn view(&self) -> RunStageView {
        match self {
            RunStage::Pull => RunStageView::Pull,
            RunStage::PreflightRemote => RunStageView::PreflightRemote,
            RunStage::PreflightFetch => RunStageView::PreflightFetch,
            RunStage::Side(m) => RunStageView::Side(m@),
            RunStage::StageFiles => RunStageView::StageFiles,
            RunStage::CheckDiff => RunStageView::CheckDiff,
            RunStage::Commit => RunStageView::Commit,
            RunStage::Push { has_changes } => RunStageView::Push { has_changes: *has_changes },
            RunStage::Done => RunStageView::Done,
        }
    }
}

/// The workflow of one repository.
#[derive(Debug)]
pub struct RepoRun {
    pub repo: String,
    pub config: ResolvedRunConfig,
    /// The commit message used if anything is committed.
    pub message: String,
    pub stage: RunStage,
}

/// `RepoRun` as a mathematical value.
pub struct RepoRunView {
    pub repo: Seq<char>,
    pub config: ResolvedRunConfig,
    pub message: Seq<char>,
    pub stage: RunStageView,
}

impl View for RepoRun {
    type V = RepoRunView;

    open spec fn view(&self) -> RepoRunView {
        RepoRunView {
            repo: self.repo@,
            config: self.config,
            message: self.message@,
            stage: self.stage@,
        }
    }
}

/// What a step of a repository's workflow hands back.
#[derive(Debug)]
pub enum RunStep {
    Run(GitCall),
    Finished(RepoResult),
}

/// `RunStep` as a mathematical value.
pub enum RunStepView {
    Run(CallView),
    Finished(ResultView),
}

impl View for RunStep {
    type V = RunStepView;

    open spec fn view(&self) -> RunStepView {
        match self {
            RunStep::Run(c) => RunStepView::Run(c@),
            RunStep::Finished(r) => RunStepView::Finished(r@),
        }
    }
}

impl RepoRunView {
    /// A side-channel stage holds an engine that is not done.
    pub open spec fn wf(self) -> bool {
        self.stage matches RunStageView::Side(m) ==> !(m.stage is Done)
    }
}

/// The call that the workflow awaits the answer to.
pub open spec fn run_awaited(r: RepoRunView) -> CallView {
    match r.stage {
        RunStageView::Pull => plain(pull_words()),
        RunStageView::PreflightRemote => plain(remote_check_words(r.config.side_channel.remote_name@)),
        RunStageView::PreflightFetch => plain(prune_fetch_words(r.config.side_channel.remote_name@)),
        RunStageView::Side(m) => awaited(m),
        RunStageView::StageFiles => plain(stage_words(r.config.include_untracked)),
        RunStageView::CheckDiff => plain(diff_words()),
        RunStageView::Commit => plain(commit_words(r.message)),
        RunStageView::Push { .. } => plain(push_words()),
        RunStageView::Done => plain(Seq::empty()),
    }
}

/// The workflow after finishing with `status` and `message`.
pub open spec fn run_ended(r: RepoRunView, status: RepoStatus, message: Seq<char>) -> (
    RepoRunView,
    Option<ResultView>,
) {
    (
        RepoRunView { stage: RunStageView::Done, ..r },
        Some(ResultView { repo: r.repo, status, message }),
    )
}

/// The workflow moved to stage `s`.
pub open spec fn run_moved(r: RepoRunView, s: RunStageView) -> (RepoRunView, Option<ResultView>) {
    (RepoRunView { stage: s, ..r }, None)
}

/// `prefix` followed by what the failed awaited call reported.
pub open spec fn failed_with(r: RepoRunView, o: OutputView, prefix: Seq<char>) -> Seq<char> {
    prefix + failure_detail(run_awaited(r), o)
}

/// The message of a repository that pulled and had nothing to publish.
pub open spec fn nothing_to_commit() -> Seq<char> {
    "pull ok, no local changes to commit"@
}

/// One decision of a repository's workflow: the next state, and the result
/// when the repository is done (else the next call is `run_awaited`).
pub open spec fn run_next(r: RepoRunView, o: OutputView) -> (RepoRunView, Option<ResultView>) {
    match r.stage {
        RunStageView::Pull => if !o.succeeded() {
            run_ended(r, RepoStatus::Failed, failed_with(r, o, "pull failed: "@))
        } else if !r.config.push_enabled {
            run_ended(r, RepoStatus::Success, "pull ok"@)
        } else if r.config.side_channel.enabled {
            run_moved(r, RunStageView::PreflightRemote)
        } else {
            run_moved(r, RunStageView::StageFiles)
        },
        RunStageView::PreflightRemote => if o.succeeded() {
            run_moved(r, RunStageView::PreflightFetch)
        } else {
            run_ended(
                r,
                RepoStatus::Failed,
                "side-channel setup failed: missing side-channel remote '"@
                    + r.config.side_channel.remote_name@ + "': "@ + failure_detail(run_awaited(r), o),
            )
        },
        RunStageView::PreflightFetch => if o.succeeded() {
            run_moved(
                r,
                RunStageView::Side(
                    sync_start(r.config.side_channel, r.config.include_untracked, r.message),
                ),
            )
        } else {
            run_ended(r, RepoStatus::Failed, failed_with(r, o, "side-channel setup failed: "@))
        },
        RunStageView::Side(m) => match sync_next(m, o).1 {
            None => run_moved(r, RunStageView::Side(sync_next(m, o).0)),
            Some(Ok(SideChannelSyncResult::Pushed)) => run_ended(
                r,
                RepoStatus::Success,
                "pull ok, side-channel commit pushed"@,
            ),
            Some(Ok(SideChannelSyncResult::NoChanges)) => run_ended(
                r,
                RepoStatus::NoOp,
                nothing_to_commit(),
            ),
            Some(Err(e)) => run_ended(
                r,
                RepoStatus::Failed,
                "side-channel sync failed: "@ + error_text(e),
            ),
        },
        RunStageView::StageFiles => if o.succeeded() {
            run_moved(r, RunStageView::CheckDiff)
        } else {
            run_ended(r, RepoStatus::Failed, failed_with(r, o, "stage failed: "@))
        },
        RunStageView::CheckDiff => if o.code == Some(0i32) {
            run_moved(r, RunStageView::Push { has_changes: false })
        } else if o.code == Some(1i32) {
            run_moved(r, RunStageView::Commit)
        } else {
            run_ended(r, RepoStatus::Failed, failed_with(r, o, "failed to inspect staged diff: "@))
        },
        RunStageView::Commit => if o.succeeded() {
            run_moved(r, RunStageView::Push { has_changes: true })
        } else {
            run_ended(r, RepoStatus::Failed, failed_with(r, o, "commit failed: "@))
        },
        RunStageView::Push { has_changes } => if !o.succeeded() {
            run_ended(r, RepoStatus::Failed, failed_with(r, o, "push failed: "@))
        } else if has_changes {
            run_ended(r, RepoStatus::Success, "pull ok, committed, pushed"@)
        } else {
            run_ended(r, RepoStatus::NoOp, nothing_to_commit())
        },
        RunStageView::Done => (r, None),
    }
}

/// A step of the workflow as the caller sees it.
pub open spec fn run_step_view(r: RepoRunView, o: OutputView) -> RunStepView {
    match run_next(r, o).1 {
        Some(res) => RunStepView::Finished(res),
        None => RunStepView::Run(run_awaited(run_next(r, o).0)),
    }
}

/// A workflow that starts by pulling.
pub open spec fn run_start(repo: Seq<char>, config: ResolvedRunConfig, message: Seq<char>) -> RepoRunView {
    RepoRunView { repo, config, message, stage: RunStageView::Pull }
}

fn prefixed(prefix: &str, text: &str) -> (r: String)
    ensures
        r@ == prefix@ + text@,
{
    crate::git::concat(prefix, text)
}

impl RepoRun {
    /// The workflow of `repo` under `config`, committing (if at all) with `message`.
    pub fn with_message(repo: String, config: ResolvedRunConfig, message: String) -> (r: RepoRun)
        ensures
            r@ == run_start(repo@, config, message@),
            r@.wf(),
    {
        RepoRun { repo, config, message, stage: RunStage::Pull }
    }

    /// The workflow of `repo` under `config`, with a commit message made from
    /// the configured template now.
    pub fn new(repo: String, config: ResolvedRunConfig) -> (r: RepoRun)
        ensures
            r@ == run_start(repo@, config, r@.message),
            is_commit_message(config.commit_template@, config.include_untracked, r@.message),
            r@.wf(),
    {
        let message = generate_commit_message(config.commit_template.as_str(), config.include_untracked);
        RepoRun::with_message(repo, config, message)
    }

    /// The call whose answer the workflow awaits.
    pub fn awaited_call(&self) -> (c: GitCall)
        ensures
            c@ == run_awaited(self@),
    {
        match &self.stage {
            RunStage::Pull => pull_ff_only(),
            RunStage::PreflightRemote => ensure_remote_exists(self.config.side_channel.remote_name.as_str()),
            RunStage::PreflightFetch => {
                let v = crate::git::words3("fetch", self.config.side_channel.remote_name.as_str(), "--prune");
                GitCall { args: v, snapshot_index: false }
            },
            RunStage::Side(m) => m.awaited_call(),
            RunStage::StageFiles => stage_changes(self.config.include_untracked),
            RunStage::CheckDiff => has_staged_changes(),
            RunStage::Commit => commit(self.message.as_str()),
            RunStage::Push { .. } => push(),
            RunStage::Done => {
                let c = GitCall { args: Vec::new(), snapshot_index: false };
                assert(c@.words =~= Seq::<Seq<char>>::empty());
                c
            },
        }
    }

    fn finish(&mut self, status: RepoStatus, message: String) -> (r: RunStep)
        ensures
            final(self)@ == (RepoRunView { stage: RunStageView::Done, ..old(self)@ }),
            r@ == RunStepView::Finished(ResultView { repo: old(self)@.repo, status, message: message@ }),
    {
        self.stage = RunStage::Done;
        RunStep::Finished(RepoResult { repo: self.repo.clone(), status, message })
    }

    fn fail(&mut self, prefix: &str, out: &GitOutput) -> (r: RunStep)
        ensures
            final(self)@ == (RepoRunView { stage: RunStageView::Done, ..old(self)@ }),
            r@ == RunStepView::Finished(
                ResultView {
                    repo: old(self)@.repo,
                    status: RepoStatus::Failed,
                    message: failed_with(old(self)@, out@, prefix@),
                },
            ),
    {
        let detail = failure_text(&self.awaited_call(), out);
        let text = prefixed(prefix, detail.as_str());
        self.finish(RepoStatus::Failed, text)
    }

    fn go(&mut self, s: RunStage) -> (r: RunStep)
        ensures
            final(self)@ == (RepoRunView { stage: s@, ..old(self)@ }),
            r@ == RunStepView::Run(run_awaited(final(self)@)),
    {
        self.stage = s;
        RunStep::Run(self.awaited_call())
    }

    /// Takes the answer to the awaited call and decides: the next call, or
    /// the repository's result.
    pub fn step(&mut self, out: &GitOutput) -> (r: RunStep)
        requires
            old(self)@.wf(),
            !(old(self)@.stage is Done),
        ensures
            final(self)@ == run_next(old(self)@, out@).0,
            final(self)@.wf(),
            r@ == run_step_view(old(self)@, out@),
    {
        let ok = matches!(out.code, Some(0));
        match &mut self.stage {
            RunStage::Side(m) => {
                let s = m.step(out);
                match s {
                    SyncStep::Run(c) => {
                        proof {
                            assert(!(sync_next(old(self)@.stage->Side_0, out@).0.stage is Done));
                        }
                        return RunStep::Run(c);
                    },
                    SyncStep::Finished(Ok(SideChannelSyncResult::Pushed)) => {
                        return self.finish(
                            RepoStatus::Success,
                            String::from_str("pull ok, side-channel commit pushed"),
                        );
                    },
                    SyncStep::Finished(Ok(SideChannelSyncResult::NoChanges)) => {
                        return self.finish(
                            RepoStatus::NoOp,
                            String::from_str("pull ok, no local changes to commit"),
                        );
                    },
                    SyncStep::Finished(Err(e)) => {
                        let text = e.to_string();
                        return self.finish(
                            RepoStatus::Failed,
                            prefixed("side-channel sync failed: ", text.as_str()),
                        );
                    },
                }
            },
            _ => {},
        }
        match self.stage {
            RunStage::Pull => {
                if !ok {
                    self.fail("pull failed: ", out)
                } else if !self.config.push_enabled {
                    self.finish(RepoStatus::Success, String::from_str("pull ok"))
                } else if self.config.side_channel.enabled {
                    self.go(RunStage::PreflightRemote)
                } else {
                    self.go(RunStage::StageFiles)
                }
            },
            RunStage::PreflightRemote => {
                if ok {
                    self.go(RunStage::PreflightFetch)
                } else {
                    let detail = failure_text(&self.awaited_call(), out);
                    let mut text = String::from_str(
                        "side-channel setup failed: missing side-channel remote '",
                    );
                    text.append(self.config.side_channel.remote_name.as_str());
                    text.append("': ");
                    text.append(detail.as_str());
                    self.finish(RepoStatus::Failed, text)
                }
            },
            RunStage::PreflightFetch => {
                if ok {
                    let m = SideChannelSync::new(
                        self.config.side_channel.copy_of(),
                        self.config.include_untracked,
                        self.message.clone(),
                    );
                    self.go(RunStage::Side(m))
                } else {
                    self.fail("side-channel setup failed: ", out)
                }
            },
            RunStage::StageFiles => {
                if ok {
                    self.go(RunStage::CheckDiff)
                } else {
                    self.fail("stage failed: ", out)
                }
            },
            RunStage::CheckDiff => {
                if ok {
                    self.go(RunStage::Push { has_changes: false })
                } else if matches!(out.code, Some(1)) {
                    self.go(RunStage::Commit)
                } else {
                    self.fail("failed to inspect staged diff: ", out)
                }
            },
            RunStage::Commit => {
                if ok {
                    self.go(RunStage::Push { has_changes: true })
                } else {
                    self.fail("commit failed: ", out)
                }
            },
            RunStage::Push { has_changes } => {
                if !ok {
                    self.fail("push failed: ", out)
                } else if has_changes {
                    self.finish(RepoStatus::Success, String::from_str("pull ok, committed, pushed"))
                } else {
                    self.finish(RepoStatus::NoOp, String::from_str("pull ok, no local changes to commit"))
                }
            },
            _ => {
                RunStep::Run(self.awaited_call())
            },
        }
    }
}


/// The calls issued for one repository while the answers are fed in.
pub open spec fn run_calls(r: RepoRunView, answers: Seq<OutputView>) -> Seq<CallView>
    decreases answers.len(),
{
    if answers.len() == 0 || r.stage is Done {
        Seq::empty()
    } else {
        let (next, res) = run_next(r, answers[0]);
        if res is Some {
            seq![run_awaited(r)]
        } else {
            seq![run_awaited(r)] + run_calls(next, answers.drop_first())
        }
    }
}

/// With pushing off (and the side channel off), a repository runs
/// `pull --ff-only` and nothing else: no state is written to any remote.
pub proof fn lemma_pull_only_runs_only_pull(
    repo: Seq<char>,
    config: ResolvedRunConfig,
    message: Seq<char>,
    answers: Seq<OutputView>,
)
    requires
        !config.push_enabled,
        !config.side_channel.enabled,
    ensures
        forall|i: int|
            0 <= i < run_calls(run_start(repo, config, message), answers).len()
                ==> #[trigger] run_calls(run_start(repo, config, message), answers)[i] == plain(
                pull_words(),
            ),
        answers.len() > 0 ==> run_next(run_start(repo, config, message), answers[0]).1 is Some,
{
    let r = run_start(repo, config, message);
    if answers.len() > 0 {
        assert(run_calls(r, answers) =~= seq![plain(pull_words())]);
    }
}

/// On the straight path, a working tree with nothing to stage is not
/// committed: after a pull, staging, an empty staged diff and a push, the
/// repository ends as a no-op, having run pull, add, diff and push only.
pub proof fn lemma_clean_straight_run_is_noop(
    repo: Seq<char>,
    config: ResolvedRunConfig,
    message: Seq<char>,
    pulled: OutputView,
    staged: OutputView,
    diffed: OutputView,
    pushed: OutputView,
)
    requires
        config.push_enabled,
        !config.side_channel.enabled,
        pulled.succeeded(),
        staged.succeeded(),
        diffed.code == Some(0i32),
        pushed.succeeded(),
    ensures
        ({
            let r0 = run_start(repo, config, message);
            let r1 = run_next(r0, pulled).0;
            let r2 = run_next(r1, staged).0;
            let r3 = run_next(r2, diffed).0;
            &&& run_awaited(r1) == plain(stage_words(config.include_untracked))
            &&& run_awaited(r2) == plain(diff_words())
            &&& run_awaited(r3) == plain(push_words())
            &&& run_next(r3, pushed).1 == Some(
                ResultView { repo, status: RepoStatus::NoOp, message: nothing_to_commit() },
            )
        }),
{
}

/// A repository to process and its effective configuration.
#[derive(Debug)]
pub struct RunTarget {
    pub repo: String,
    pub config: ResolvedRunConfig,
}

/// A run over several repositories, one after the other, in the given order.
#[derive(Debug)]
pub struct Workflow {
    pub targets: Vec<RunTarget>,
    /// One result for each repository done so far, in order.
    pub results: Vec<RepoResult>,
    /// The workflow of the repository in progress.
    pub current: Option<RepoRun>,
}

impl Workflow {
    /// Results so far belong to the first targets, in order; a repository is
    /// in progress exactly when some remain.
    pub open spec fn wf(&self) -> bool {
        &&& self.results@.len() <= self.targets@.len()
        &&& (self.current is Some <==> self.results@.len() < self.targets@.len())
        &&& forall|i: int|
            0 <= i < self.results@.len() ==> #[trigger] self.results@[i].repo@
                == self.targets@[i].repo@
        &&& self.current matches Some(r) ==> {
            &&& r@.wf()
            &&& !(r@.stage is Done)
            &&& r@.repo == self.targets@[self.results@.len() as int].repo@
            &&& r@.config == self.targets@[self.results@.len() as int].config
        }
    }

    /// Every repository has its result.
    pub open spec fn finished(&self) -> bool {
        self.results@.len() == self.targets@.len()
    }

    fn start_next(&mut self)
        requires
            old(self).current is None,
            old(self).results@.len() <= old(self).targets@.len(),
            forall|i: int|
                0 <= i < old(self).results@.len() ==> #[trigger] old(self).results@[i].repo@
                    == old(self).targets@[i].repo@,
        ensures
            final(self).wf(),
            final(self).targets == old(self).targets,
            final(self).results == old(self).results,
    {
        let k = self.results.len();
        if k < self.targets.len() {
            let t = &self.targets[k];
            let r = RepoRun::new(t.repo.clone(), t.config.copy_of());
            self.current = Some(r);
        }
    }

    /// A run over `targets`, in order.
    pub fn new(targets: Vec<RunTarget>) -> (w: Workflow)
        ensures
            w.wf(),
            w.targets == targets,
            w.results@.len() == 0,
    {
        let mut w = Workflow { targets, results: Vec::new(), current: None };
        w.start_next();
        w
    }

    /// The repository in progress and the call whose answer it awaits, or
    /// `None` once every repository has its result.
    pub fn pending(&self) -> (r: Option<(String, GitCall)>)
        requires
            self.wf(),
        ensures
            r is None <==> self.finished(),
            r matches Some(p) ==> p.0@ == self.targets@[self.results@.len() as int].repo@ && p.1@
                == run_awaited(self.current->Some_0@),
    {
        match &self.current {
            Some(r) => Some((r.repo.clone(), r.awaited_call())),
            None => None,
        }
    }

    /// Takes the answer to the pending call. When it completes a repository,
    /// its result is appended and the next repository starts.
    pub fn step(&mut self, out: &GitOutput)
        requires
            old(self).wf(),
            !old(self).finished(),
        ensures
            final(self).wf(),
            final(self).targets == old(self).targets,
            ({
                let r = old(self).current->Some_0@;
                match run_next(r, out@).1 {
                    Some(res) => final(self).results@.len() == old(self).results@.len() + 1
                        && final(self).results@.take(old(self).results@.len() as int)
                        == old(self).results@ && final(self).results@.last()@ == res,
                    None => final(self).results == old(self).results && (final(self).current
                        matches Some(c) && c@ == run_next(r, out@).0),
                }
            }),
    {
        let mut r = self.current.take().unwrap();
        let s = r.step(out);
        match s {
            RunStep::Run(_) => {
                self.current = Some(r);
            },
            RunStep::Finished(res) => {
                let policy = r.config.failure_policy;
                self.results.push(res);
                match policy {
                    FailurePolicy::Continue => self.start_next(),
                }
            },
        }
    }

    /// The results, one for each repository, in order.
    pub fn into_results(self) -> (r: Vec<RepoResult>)
        ensures
            r == self.results,
    {
        self.results
    }
}

/// A run over `repos`, in order, each under `cfg`.
pub fn run(repos: &Vec<String>, cfg: &ResolvedRunConfig) -> (w: Workflow)
    ensures
        w.wf(),
        w.results@.len() == 0,
        w.targets@.len() == repos@.len(),
        forall|i: int|
            0 <= i < repos@.len() ==> #[trigger] w.targets@[i].repo@ == repos@[i]@
                && w.targets@[i].config == *cfg,
{
    let mut targets: Vec<RunTarget> = Vec::new();
    let mut i: usize = 0;
    while i < repos.len()
        invariant
            i <= repos@.len(),
            targets@.len() == i,
            forall|j: int|
                0 <= j < i ==> #[trigger] targets@[j].repo@ == repos@[j]@ && targets@[j].config
                    == *cfg,
        decreases repos@.len() - i,
    {
        targets.push(RunTarget { repo: repos[i].clone(), config: cfg.copy_of() });
        i = i + 1;
    }
    Workflow::new(targets)
}

} // verus!
