//! The side-channel sync engine.
//!
//! It captures the working tree into a snapshot index (never the primary
//! index), writes that as a tree, merges it with the side branch's tip when the
//! tip has moved past HEAD, commits the result on top of the tip (or of HEAD)
//! without touching HEAD, and pushes it; a push refused as non-fast-forward is
//! retried once after fetching the branch again.
//!
//! The engine decides; its caller runs git. `SideChannelSync::new` gives the
//! first call through `awaited_call`, and each `step` takes what that call
//! returned and gives the next call or the outcome. `sync_next` states each
//! decision.
use vstd::prelude::*;
use vstd::string::*;
use crate::config::SideChannelConfig;
use crate::git::{
    branch_fetch_words, conflict_path_set, destination_ref, diff_words, failure_detail,
    on_snapshot, plain, push_rejected, remote_check_words, remote_ref, stage_words, CallView,
    GitCall, GitOutput, OutputView,
};
use crate::git::{
    conflict_paths_from_merge_tree_output, failure_text, is_push_rejected, merged_tree_from,
    push_text, push_word, stage_args,
};
use crate::order::{lemma_sorted_unique, strictly_sorted};
use crate::text::{join, trim};
use crate::text::{first_line, has_infix, has_prefix, joined, occurs_at, trimmed, views};

verus! {

/// How a sync that did not fail ended.
#[derive(Debug, Clone, Copy, PartialEq, Eq, Structural)]
pub enum SideChannelSyncResult {
    /// A commit with the snapshot was pushed to the side branch.
    Pushed,
    /// The working tree matches HEAD: nothing was published.
    NoChanges,
}

/// Why a sync failed.
#[derive(Debug)]
pub enum SyncError {
    /// The auxiliary remote is not configured in the repository.
    MissingRemote { remote: String, detail: String },
    /// A git command failed.
    CommandFailed { detail: String },
    /// Merging the snapshot with the side tip conflicts on these paths (sorted).
    Conflict { tip: String, paths: Vec<String> },
    /// The merge itself failed without naming conflicts.
    MergeFailed { tip: String, detail: String },
    /// The merge succeeded but printed no tree.
    NoMergedTree { tip: String },
    /// The push was refused again after the retry.
    Raced,
    /// The push failed for another reason.
    PushFailed { detail: String },
}

/// `SyncError` as a mathematical value.
pub enum SyncErrorView {
    MissingRemote { remote: Seq<char>, detail: Seq<char> },
    CommandFailed { detail: Seq<char> },
    Conflict { tip: Seq<char>, paths: Seq<Seq<char>> },
    MergeFailed { tip: Seq<char>, detail: Seq<char> },
    NoMergedTree { tip: Seq<char> },
    Raced,
    PushFailed { detail: Seq<char> },
}

impl View for SyncError {
    type V = SyncErrorView;

    open spec fn view(&self) -> SyncErrorView {
        match self {
            SyncError::MissingRemote { remote, detail } => SyncErrorView::MissingRemote {
                remote: remote@,
                detail: detail@,
            },
            SyncError::CommandFailed { detail } => SyncErrorView::CommandFailed { detail: detail@ },
            SyncError::Conflict { tip, paths } => SyncErrorView::Conflict {
                tip: tip@,
                paths: views(paths@),
            },
            SyncError::MergeFailed { tip, detail } => SyncErrorView::MergeFailed {
                tip: tip@,
                detail: detail@,
            },
            SyncError::NoMergedTree { tip } => SyncErrorView::NoMergedTree { tip: tip@ },
            SyncError::Raced => SyncErrorView::Raced,
            SyncError::PushFailed { detail } => SyncErrorView::PushFailed { detail: detail@ },
        }
    }
}

/// Where the engine stands: each stage awaits the answer to one git call.
#[derive(Debug)]
pub enum SyncStage {
    CheckRemote,
    ReadTree,
    StageFiles,
    CheckDiff,
    WriteTree,
    ReadHead,
    LookupTip,
    CheckAncestor { tip: String },
    FindBase { tip: String },
    CommitLocal { tip: String, base: String },
    MergeTrees { tip: String, base: String, local: String },
    CommitSnapshot { tree: String, parent: String },
    Push { commit: String },
    ConfirmRemote,
    Refetch,
    Done,
}

/// `SyncStage` as a mathematical value.
pub enum StageView {
    CheckRemote,
    ReadTree,
    StageFiles,
    CheckDiff,
    WriteTree,
    ReadHead,
    LookupTip,
    CheckAncestor { tip: Seq<char> },
    FindBase { tip: Seq<char> },
    CommitLocal { tip: Seq<char>, base: Seq<char> },
    MergeTrees { tip: Seq<char>, base: Seq<char>, local: Seq<char> },
    CommitSnapshot { tree: Seq<char>, parent: Seq<char> },
    Push { commit: Seq<char> },
    ConfirmRemote,
    Refetch,
    Done,
}

impl View for SyncStage {
    type V = StageView;

    open spec fn view(&self) -> StageView {
        match self {
            SyncStage::CheckRemote => StageView::CheckRemote,
            SyncStage::ReadTree => StageView::ReadTree,
            SyncStage::StageFiles => StageView::StageFiles,
            SyncStage::CheckDiff => StageView::CheckDiff,
            SyncStage::WriteTree => StageView::WriteTree,
            SyncStage::ReadHead => StageView::ReadHead,
            SyncStage::LookupTip => StageView::LookupTip,
            SyncStage::CheckAncestor { tip } => StageView::CheckAncestor { tip: tip@ },
            SyncStage::FindBase { tip } => StageView::FindBase { tip: tip@ },
            SyncStage::CommitLocal { tip, base } => StageView::CommitLocal { tip: tip@, base: base@ },
            SyncStage::MergeTrees { tip, base, local } => StageView::MergeTrees {
                tip: tip@,
                base: base@,
                local: local@,
            },
            SyncStage::CommitSnapshot { tree, parent } => StageView::CommitSnapshot {
                tree: tree@,
                parent: parent@,
            },
            SyncStage::Push { commit } => StageView::Push { commit: commit@ },
            SyncStage::ConfirmRemote => StageView::ConfirmRemote,
            SyncStage::Refetch => StageView::Refetch,
            SyncStage::Done => StageView::Done,
        }
    }
}

/// One sync of one repository.
#[derive(Debug)]
pub struct SideChannelSync {
    pub side: SideChannelConfig,
    pub include_untracked: bool,
    pub message: String,
    /// The snapshot's tree, once written.
    pub local_tree: String,
    /// HEAD's commit, once read.
    pub local_head: String,
    /// Whether the push has been retried already.
    pub retried: bool,
    pub stage: SyncStage,
}

/// `SideChannelSync` as a mathematical value.
pub struct SyncView {
    pub side: SideChannelConfig,
    pub include_untracked: bool,
    pub message: Seq<char>,
    pub local_tree: Seq<char>,
    pub local_head: Seq<char>,
    pub retried: bool,
    pub stage: StageView,
}

impl View for SideChannelSync {
    type V = SyncView;

    open spec fn view(&self) -> SyncView {
        SyncView {
            side: self.side,
            include_untracked: self.include_untracked,
            message: self.message@,
            local_tree: self.local_tree@,
            local_head: self.local_head@,
            retried: self.retried,
            stage: self.stage@,
        }
    }
}

/// What a step hands back: the next call to run, or the outcome.
#[derive(Debug)]
pub enum SyncStep {
    Run(GitCall),
    Finished(Result<SideChannelSyncResult, SyncError>),
}

/// `SyncStep` as a mathematical value.
pub enum StepView {
    Run(CallView),
    Finished(Result<SideChannelSyncResult, SyncErrorView>),
}

impl View for SyncStep {
    type V = StepView;

    open spec fn view(&self) -> StepView {
        match self {
            SyncStep::Run(c) => StepView::Run(c@),
            SyncStep::Finished(Ok(r)) => StepView::Finished(Ok(*r)),
            SyncStep::Finished(Err(e)) => StepView::Finished(Err(e@)),
        }
    }
}

pub open spec fn read_tree_words() -> Seq<Seq<char>> {
    seq!["read-tree"@, "HEAD"@]
}

pub open spec fn write_tree_words() -> Seq<Seq<char>> {
    seq!["write-tree"@]
}

pub open spec fn head_words() -> Seq<Seq<char>> {
    seq!["rev-parse"@, "HEAD"@]
}

pub open spec fn lookup_words(rev: Seq<char>) -> Seq<Seq<char>> {
    seq!["rev-parse"@, "--verify"@, "--quiet"@, rev]
}

pub open spec fn ancestor_words(ancestor: Seq<char>, descendant: Seq<char>) -> Seq<Seq<char>> {
    seq!["merge-base"@, "--is-ancestor"@, ancestor, descendant]
}

pub open spec fn base_words(left: Seq<char>, right: Seq<char>) -> Seq<Seq<char>> {
    seq!["merge-base"@, left, right]
}

pub open spec fn commit_tree_words(tree: Seq<char>, message: Seq<char>, parent: Seq<char>) -> Seq<
    Seq<char>,
> {
    seq!["commit-tree"@, tree, "-m"@, message, "-p"@, parent]
}

pub open spec fn merge_tree_words(base: Seq<char>, local: Seq<char>, tip: Seq<char>) -> Seq<
    Seq<char>,
> {
    seq!["merge-tree"@, "--write-tree"@, "--merge-base"@, base, local, tip]
}

/// `push <remote> <commit>:<destination>`.
pub open spec fn side_push_words(side: SideChannelConfig, commit: Seq<char>) -> Seq<Seq<char>> {
    seq!["push"@, side.remote_name@, commit + ":"@ + destination_ref(side.branch_name@)]
}

/// The message of the throwaway commit that carries the snapshot into a merge.
pub open spec fn local_snapshot_message() -> Seq<char> {
    "shephard side-channel local snapshot"@
}

/// The call that the engine awaits the answer to in state `m`.
pub open spec fn awaited(m: SyncView) -> CallView {
    match m.stage {
        StageView::CheckRemote => plain(remote_check_words(m.side.remote_name@)),
        StageView::ReadTree => on_snapshot(read_tree_words()),
        StageView::StageFiles => on_snapshot(stage_words(m.include_untracked)),
        StageView::CheckDiff => on_snapshot(diff_words()),
        StageView::WriteTree => on_snapshot(write_tree_words()),
        StageView::ReadHead => plain(head_words()),
        StageView::LookupTip => plain(lookup_words(remote_ref(m.side))),
        StageView::CheckAncestor { tip } => plain(ancestor_words(tip, m.local_head)),
        StageView::FindBase { tip } => plain(base_words(m.local_head, tip)),
        StageView::CommitLocal { tip, base } => plain(
            commit_tree_words(m.local_tree, local_snapshot_message(), m.local_head),
        ),
        StageView::MergeTrees { tip, base, local } => plain(merge_tree_words(base, local, tip)),
        StageView::CommitSnapshot { tree, parent } => plain(
            commit_tree_words(tree, m.message, parent),
        ),
        StageView::Push { commit } => plain(side_push_words(m.side, commit)),
        StageView::ConfirmRemote => plain(remote_check_words(m.side.remote_name@)),
        StageView::Refetch => plain(branch_fetch_words(m.side)),
        StageView::Done => plain(Seq::empty()),
    }
}

/// The conflicting paths of `merge-tree` output, sorted, each once.
pub open spec fn sorted_conflicts(output: Seq<char>) -> Seq<Seq<char>> {
    choose|v: Seq<Seq<char>>| strictly_sorted(v, false) && v.to_set() == conflict_path_set(output)
}

/// The state after the stage `s`.
pub open spec fn moved(m: SyncView, s: StageView) -> SyncView {
    SyncView { stage: s, ..m }
}

/// The state after finishing.
pub open spec fn ended(m: SyncView) -> SyncView {
    SyncView { stage: StageView::Done, ..m }
}

/// The error of a failed command in state `m`.
pub open spec fn command_failed(m: SyncView, o: OutputView) -> SyncErrorView {
    SyncErrorView::CommandFailed { detail: failure_detail(awaited(m), o) }
}

/// The error of a missing remote in state `m`.
pub open spec fn missing_remote(m: SyncView, o: OutputView) -> SyncErrorView {
    SyncErrorView::MissingRemote { remote: m.side.remote_name@, detail: failure_detail(awaited(m), o) }
}

/// One decision of the engine: given the state and the answer to the awaited
/// call, the next state, and the outcome when the engine is done (else the
/// next call is `awaited` of the next state).
pub open spec fn sync_next(m: SyncView, o: OutputView) -> (SyncView, Option<
    Result<SideChannelSyncResult, SyncErrorView>,
>) {
    let out = trimmed(o.stdout);
    match m.stage {
        StageView::CheckRemote => if o.succeeded() {
            (moved(m, StageView::ReadTree), None)
        } else {
            (ended(m), Some(Err(missing_remote(m, o))))
        },
        StageView::ReadTree => if o.succeeded() {
            (moved(m, StageView::StageFiles), None)
        } else {
            (ended(m), Some(Err(command_failed(m, o))))
        },
        StageView::StageFiles => if o.succeeded() {
            (moved(m, StageView::CheckDiff), None)
        } else {
            (ended(m), Some(Err(command_failed(m, o))))
        },
        StageView::CheckDiff => if o.code == Some(0i32) {
            (ended(m), Some(Ok(SideChannelSyncResult::NoChanges)))
        } else if o.code == Some(1i32) {
            (moved(m, StageView::WriteTree), None)
        } else {
            (ended(m), Some(Err(command_failed(m, o))))
        },
        StageView::WriteTree => if o.succeeded() {
            (SyncView { local_tree: out, stage: StageView::ReadHead, ..m }, None)
        } else {
            (ended(m), Some(Err(command_failed(m, o))))
        },
        StageView::ReadHead => if o.succeeded() {
            (SyncView { local_head: out, stage: StageView::LookupTip, ..m }, None)
        } else {
            (ended(m), Some(Err(command_failed(m, o))))
        },
        StageView::LookupTip => if o.code is None {
            (ended(m), Some(Err(command_failed(m, o))))
        } else if o.succeeded() {
            (moved(m, StageView::CheckAncestor { tip: out }), None)
        } else {
            (moved(m, StageView::CommitSnapshot { tree: m.local_tree, parent: m.local_head }), None)
        },
        StageView::CheckAncestor { tip } => if o.code == Some(0i32) {
            (moved(m, StageView::CommitSnapshot { tree: m.local_tree, parent: tip }), None)
        } else if o.code == Some(1i32) {
            (moved(m, StageView::FindBase { tip }), None)
        } else {
            (ended(m), Some(Err(command_failed(m, o))))
        },
        StageView::FindBase { tip } => if o.succeeded() {
            (moved(m, StageView::CommitLocal { tip, base: out }), None)
        } else {
            (ended(m), Some(Err(command_failed(m, o))))
        },
        StageView::CommitLocal { tip, base } => if o.succeeded() {
            (moved(m, StageView::MergeTrees { tip, base, local: out }), None)
        } else {
            (ended(m), Some(Err(command_failed(m, o))))
        },
        StageView::MergeTrees { tip, base, local } => if o.code is None {
            (ended(m), Some(Err(command_failed(m, o))))
        } else if o.succeeded() {
            let tree = trimmed(first_line(o.stdout));
            if tree.len() > 0 {
                (moved(m, StageView::CommitSnapshot { tree, parent: tip }), None)
            } else {
                (ended(m), Some(Err(SyncErrorView::NoMergedTree { tip })))
            }
        } else if conflict_path_set(o.stdout) != Set::<Seq<char>>::empty() {
            (ended(m), Some(Err(SyncErrorView::Conflict { tip, paths: sorted_conflicts(o.stdout) })))
        } else {
            (
                ended(m),
                Some(Err(SyncErrorView::MergeFailed { tip, detail: failure_detail(awaited(m), o) })),
            )
        },
        StageView::CommitSnapshot { tree, parent } => if o.succeeded() {
            (moved(m, StageView::Push { commit: out }), None)
        } else {
            (ended(m), Some(Err(command_failed(m, o))))
        },
        StageView::Push { commit } => if o.succeeded() {
            (ended(m), Some(Ok(SideChannelSyncResult::Pushed)))
        } else if o.code is None {
            (ended(m), Some(Err(command_failed(m, o))))
        } else if push_rejected(o) {
            if m.retried {
                (ended(m), Some(Err(SyncErrorView::Raced)))
            } else {
                (SyncView { retried: true, stage: StageView::ConfirmRemote, ..m }, None)
            }
        } else {
            (ended(m), Some(Err(SyncErrorView::PushFailed { detail: failure_detail(awaited(m), o) })))
        },
        StageView::ConfirmRemote => if o.succeeded() {
            (moved(m, StageView::Refetch), None)
        } else {
            (ended(m), Some(Err(missing_remote(m, o))))
        },
        StageView::Refetch => if o.succeeded() {
            (moved(m, StageView::LookupTip), None)
        } else {
            (ended(m), Some(Err(command_failed(m, o))))
        },
        StageView::Done => (m, None),
    }
}

/// The step that `sync_next` describes, as the caller sees it.
pub open spec fn step_view(m: SyncView, o: OutputView) -> StepView {
    match sync_next(m, o).1 {
        Some(r) => StepView::Finished(r),
        None => StepView::Run(awaited(sync_next(m, o).0)),
    }
}

/// The state in which a sync starts: it first checks that the remote exists.
pub open spec fn sync_start(side: SideChannelConfig, include_untracked: bool, message: Seq<char>) -> SyncView {
    SyncView {
        side,
        include_untracked,
        message,
        local_tree: Seq::empty(),
        local_head: Seq::empty(),
        retried: false,
        stage: StageView::CheckRemote,
    }
}


/// The text that reports an error.
pub open spec fn error_text(e: SyncErrorView) -> Seq<char> {
    match e {
        SyncErrorView::MissingRemote { remote, detail } => "missing side-channel remote '"@ + remote
            + "': "@ + detail,
        SyncErrorView::CommandFailed { detail } => detail,
        SyncErrorView::Conflict { tip, paths } =>
            "side-channel merge conflict while combining local changes with remote tip "@ + tip
                + ": "@ + joined(paths, ", "@),
        SyncErrorView::MergeFailed { tip, detail } =>
            "git merge-tree failed while combining local changes with remote tip "@ + tip + ": "@
                + detail,
        SyncErrorView::NoMergedTree { tip } => "git merge-tree returned no tree for remote tip "@
            + tip,
        SyncErrorView::Raced =>
            "side-channel push rejected after retry because branch advanced concurrently"@,
        SyncErrorView::PushFailed { detail } => detail,
    }
}

impl SyncError {
    /// The text that reports this error.
    pub fn to_string(&self) -> (r: String)
        ensures
            r@ == error_text(self@),
    {
        match self {
            SyncError::MissingRemote { remote, detail } => {
                let mut r = String::from_str("missing side-channel remote '");
                r.append(remote.as_str());
                r.append("': ");
                r.append(detail.as_str());
                r
            },
            SyncError::CommandFailed { detail } => detail.clone(),
            SyncError::Conflict { tip, paths } => {
                let mut r = String::from_str(
                    "side-channel merge conflict while combining local changes with remote tip ",
                );
                r.append(tip.as_str());
                r.append(": ");
                let list = join(paths, ", ");
                r.append(list.as_str());
                r
            },
            SyncError::MergeFailed { tip, detail } => {
                let mut r = String::from_str(
                    "git merge-tree failed while combining local changes with remote tip ",
                );
                r.append(tip.as_str());
                r.append(": ");
                r.append(detail.as_str());
                r
            },
            SyncError::NoMergedTree { tip } => {
                let mut r = String::from_str("git merge-tree returned no tree for remote tip ");
                r.append(tip.as_str());
                r
            },
            SyncError::Raced => String::from_str(
                "side-channel push rejected after retry because branch advanced concurrently",
            ),
            SyncError::PushFailed { detail } => detail.clone(),
        }
    }

    /// The error of a failed command.
    fn failed(call: &GitCall, out: &GitOutput) -> (e: SyncError)
        ensures
            e@ == (SyncErrorView::CommandFailed { detail: failure_detail(call@, out@) }),
    {
        SyncError::CommandFailed { detail: failure_text(call, out) }
    }
}

impl SideChannelSync {
    /// A sync of the working copy into `side`, committing with `message`,
    /// staging untracked files too when `include_untracked`.
    pub fn new(side: SideChannelConfig, include_untracked: bool, message: String) -> (r: SideChannelSync)
        ensures
            r@ == sync_start(side, include_untracked, message@),
    {
        SideChannelSync {
            side,
            include_untracked,
            message,
            local_tree: String::new(),
            local_head: String::new(),
            retried: false,
            stage: SyncStage::CheckRemote,
        }
    }

    /// Whether the sync is over.
    pub fn is_done(&self) -> (r: bool)
        ensures
            r == (self@.stage is Done),
    {
        matches!(self.stage, SyncStage::Done)
    }

    /// The call whose answer the engine awaits.
    pub fn awaited_call(&self) -> (c: GitCall)
        ensures
            c@ == awaited(self@),
    {
        let mut v: Vec<String> = Vec::new();
        let mut idx = false;
        match &self.stage {
            SyncStage::CheckRemote | SyncStage::ConfirmRemote => {
                push_text(&mut v, "remote");
                push_text(&mut v, "get-url");
                push_text(&mut v, self.side.remote_name.as_str());
            },
            SyncStage::ReadTree => {
                push_text(&mut v, "read-tree");
                push_text(&mut v, "HEAD");
                idx = true;
            },
            SyncStage::StageFiles => {
                v = stage_args(self.include_untracked);
                idx = true;
            },
            SyncStage::CheckDiff => {
                push_text(&mut v, "diff");
                push_text(&mut v, "--cached");
                push_text(&mut v, "--quiet");
                idx = true;
            },
            SyncStage::WriteTree => {
                push_text(&mut v, "write-tree");
                idx = true;
            },
            SyncStage::ReadHead => {
                push_text(&mut v, "rev-parse");
                push_text(&mut v, "HEAD");
            },
            SyncStage::LookupTip => {
                push_text(&mut v, "rev-parse");
                push_text(&mut v, "--verify");
                push_text(&mut v, "--quiet");
                push_word(&mut v, crate::git::remote_tracking_ref(&self.side));
            },
            SyncStage::CheckAncestor { tip } => {
                push_text(&mut v, "merge-base");
                push_text(&mut v, "--is-ancestor");
                push_text(&mut v, tip.as_str());
                push_text(&mut v, self.local_head.as_str());
            },
            SyncStage::FindBase { tip } => {
                push_text(&mut v, "merge-base");
                push_text(&mut v, self.local_head.as_str());
                push_text(&mut v, tip.as_str());
            },
            SyncStage::CommitLocal { .. } => {
                push_text(&mut v, "commit-tree");
                push_text(&mut v, self.local_tree.as_str());
                push_text(&mut v, "-m");
                push_text(&mut v, "shephard side-channel local snapshot");
                push_text(&mut v, "-p");
                push_text(&mut v, self.local_head.as_str());
            },
            SyncStage::MergeTrees { tip, base, local } => {
                push_text(&mut v, "merge-tree");
                push_text(&mut v, "--write-tree");
                push_text(&mut v, "--merge-base");
                push_text(&mut v, base.as_str());
                push_text(&mut v, local.as_str());
                push_text(&mut v, tip.as_str());
            },
            SyncStage::CommitSnapshot { tree, parent } => {
                push_text(&mut v, "commit-tree");
                push_text(&mut v, tree.as_str());
                push_text(&mut v, "-m");
                push_text(&mut v, self.message.as_str());
                push_text(&mut v, "-p");
                push_text(&mut v, parent.as_str());
            },
            SyncStage::Push { commit } => {
                push_text(&mut v, "push");
                push_text(&mut v, self.side.remote_name.as_str());
                let mut spec = crate::git::concat(commit.as_str(), ":");
                let dest = crate::git::side_destination_ref(self.side.branch_name.as_str());
                spec.append(dest.as_str());
                push_word(&mut v, spec);
            },
            SyncStage::Refetch => {
                push_text(&mut v, "fetch");
                push_text(&mut v, self.side.remote_name.as_str());
                push_text(&mut v, self.side.branch_name.as_str());
            },
            SyncStage::Done => {},
        }
        let c = GitCall { args: v, snapshot_index: idx };
        assert(c@.words =~= awaited(self@).words);
        c
    }

    fn missing_remote(&self, out: &GitOutput) -> (e: SyncError)
        ensures
            e@ == missing_remote(self@, out@),
    {
        SyncError::MissingRemote {
            remote: self.side.remote_name.clone(),
            detail: failure_text(&self.awaited_call(), out),
        }
    }

    fn command_failed(&self, out: &GitOutput) -> (e: SyncError)
        ensures
            e@ == command_failed(self@, out@),
    {
        SyncError::failed(&self.awaited_call(), out)
    }

    /// Takes the answer to the awaited call and decides: the next call, or
    /// the outcome.
    pub fn step(&mut self, out: &GitOutput) -> (r: SyncStep)
        requires
            !(old(self)@.stage is Done),
        ensures
            final(self)@ == sync_next(old(self)@, out@).0,
            r@ == step_view(old(self)@, out@),
    {
        let ok = matches!(out.code, Some(0));
        let ghost o = out@;
        let outcome: Option<Result<SideChannelSyncResult, SyncError>>;
        let next: SyncStage;
        match &self.stage {
            SyncStage::CheckRemote | SyncStage::ConfirmRemote => {
                if ok {
                    next = if matches!(self.stage, SyncStage::CheckRemote) {
                        SyncStage::ReadTree
                    } else {
                        SyncStage::Refetch
                    };
                    outcome = None;
                } else {
                    next = SyncStage::Done;
                    outcome = Some(Err(self.missing_remote(out)));
                }
            },
            SyncStage::ReadTree | SyncStage::StageFiles | SyncStage::Refetch => {
                if ok {
                    next = match self.stage {
                        SyncStage::ReadTree => SyncStage::StageFiles,
                        SyncStage::StageFiles => SyncStage::CheckDiff,
                        _ => SyncStage::LookupTip,
                    };
                    outcome = None;
                } else {
                    next = SyncStage::Done;
                    outcome = Some(Err(self.command_failed(out)));
                }
            },
            SyncStage::CheckDiff => {
                if ok {
                    next = SyncStage::Done;
                    outcome = Some(Ok(SideChannelSyncResult::NoChanges));
                } else if matches!(out.code, Some(1)) {
                    next = SyncStage::WriteTree;
                    outcome = None;
                } else {
                    next = SyncStage::Done;
                    outcome = Some(Err(self.command_failed(out)));
                }
            },
            SyncStage::WriteTree | SyncStage::ReadHead => {
                if ok {
                    let value = trim(out.stdout.as_str());
                    if matches!(self.stage, SyncStage::WriteTree) {
                        next = SyncStage::ReadHead;
                        self.local_tree = value;
                    } else {
                        next = SyncStage::LookupTip;
                        self.local_head = value;
                    }
                    outcome = None;
                } else {
                    next = SyncStage::Done;
                    outcome = Some(Err(self.command_failed(out)));
                }
            },
            SyncStage::LookupTip => {
                if out.code.is_none() {
                    next = SyncStage::Done;
                    outcome = Some(Err(self.command_failed(out)));
                } else if ok {
                    next = SyncStage::CheckAncestor { tip: trim(out.stdout.as_str()) };
                    outcome = None;
                } else {
                    next = SyncStage::CommitSnapshot {
                        tree: self.local_tree.clone(),
                        parent: self.local_head.clone(),
                    };
                    outcome = None;
                }
            },
            SyncStage::CheckAncestor { tip } => {
                if ok {
                    next = SyncStage::CommitSnapshot {
                        tree: self.local_tree.clone(),
                        parent: tip.clone(),
                    };
                    outcome = None;
                } else if matches!(out.code, Some(1)) {
                    next = SyncStage::FindBase { tip: tip.clone() };
                    outcome = None;
                } else {
                    next = SyncStage::Done;
                    outcome = Some(Err(self.command_failed(out)));
                }
            },
            SyncStage::FindBase { tip } => {
                if ok {
                    next = SyncStage::CommitLocal { tip: tip.clone(), base: trim(out.stdout.as_str()) };
                    outcome = None;
                } else {
                    next = SyncStage::Done;
                    outcome = Some(Err(self.command_failed(out)));
                }
            },
            SyncStage::CommitLocal { tip, base } => {
                if ok {
                    next = SyncStage::MergeTrees {
                        tip: tip.clone(),
                        base: base.clone(),
                        local: trim(out.stdout.as_str()),
                    };
                    outcome = None;
                } else {
                    next = SyncStage::Done;
                    outcome = Some(Err(self.command_failed(out)));
                }
            },
            SyncStage::MergeTrees { tip, .. } => {
                if out.code.is_none() {
                    next = SyncStage::Done;
                    outcome = Some(Err(self.command_failed(out)));
                } else if ok {
                    let tree = merged_tree_from(out.stdout.as_str());
                    if tree.unicode_len() > 0 {
                        next = SyncStage::CommitSnapshot { tree, parent: tip.clone() };
                        outcome = None;
                    } else {
                        next = SyncStage::Done;
                        outcome = Some(Err(SyncError::NoMergedTree { tip: tip.clone() }));
                    }
                } else {
                    let paths = conflict_paths_from_merge_tree_output(out.stdout.as_str());
                    proof {
                        if paths.len() > 0 {
                            assert(views(paths@).to_set().contains(views(paths@)[0]));
                        } else {
                            assert(views(paths@).to_set() =~= Set::<Seq<char>>::empty());
                        }
                    }
                    if paths.len() > 0 {
                        proof {
                            let w = sorted_conflicts(o.stdout);
                            lemma_sorted_unique(views(paths@), w, false);
                        }
                        next = SyncStage::Done;
                        outcome = Some(Err(SyncError::Conflict { tip: tip.clone(), paths }));
                    } else {
                        next = SyncStage::Done;
                        outcome = Some(
                            Err(
                                SyncError::MergeFailed {
                                    tip: tip.clone(),
                                    detail: failure_text(&self.awaited_call(), out),
                                },
                            ),
                        );
                    }
                }
            },
            SyncStage::CommitSnapshot { .. } => {
                if ok {
                    next = SyncStage::Push { commit: trim(out.stdout.as_str()) };
                    outcome = None;
                } else {
                    next = SyncStage::Done;
                    outcome = Some(Err(self.command_failed(out)));
                }
            },
            SyncStage::Push { .. } => {
                if ok {
                    next = SyncStage::Done;
                    outcome = Some(Ok(SideChannelSyncResult::Pushed));
                } else if out.code.is_none() {
                    next = SyncStage::Done;
                    outcome = Some(Err(self.command_failed(out)));
                } else if is_push_rejected(out) {
                    if self.retried {
                        next = SyncStage::Done;
                        outcome = Some(Err(SyncError::Raced));
                    } else {
                        self.retried = true;
                        next = SyncStage::ConfirmRemote;
                        outcome = None;
                    }
                } else {
                    next = SyncStage::Done;
                    outcome = Some(
                        Err(SyncError::PushFailed { detail: failure_text(&self.awaited_call(), out) }),
                    );
                }
            },
            SyncStage::Done => {
                next = SyncStage::Done;
                outcome = None;
            },
        }
        self.stage = next;
        match outcome {
            Some(res) => SyncStep::Finished(res),
            None => SyncStep::Run(self.awaited_call()),
        }
    }
}


/// The calls issued while the answers are fed in, starting in state `m`: the
/// awaited call of each state, up to the one that ends the sync.
pub open spec fn sync_calls(m: SyncView, answers: Seq<OutputView>) -> Seq<CallView>
    decreases answers.len(),
{
    if answers.len() == 0 || m.stage is Done {
        Seq::empty()
    } else {
        let (next, outcome) = sync_next(m, answers[0]);
        if outcome is Some {
            seq![awaited(m)]
        } else {
            seq![awaited(m)] + sync_calls(next, answers.drop_first())
        }
    }
}

/// The outcome reached while the answers are fed in, if any.
pub open spec fn sync_outcome(m: SyncView, answers: Seq<OutputView>) -> Option<
    Result<SideChannelSyncResult, SyncErrorView>,
>
    decreases answers.len(),
{
    if answers.len() == 0 || m.stage is Done {
        None
    } else {
        let (next, outcome) = sync_next(m, answers[0]);
        if outcome is Some {
            outcome
        } else {
            sync_outcome(next, answers.drop_first())
        }
    }
}

/// A call that cannot move HEAD nor write the primary index: it only reads
/// refs, writes objects, or talks to a remote; or it writes an index, but the
/// snapshot index.
pub open spec fn keeps_head_and_index(c: CallView) -> bool {
    c.words.len() > 0 && {
        let cmd = c.words[0];
        ||| cmd == "remote"@
        ||| cmd == "rev-parse"@
        ||| cmd == "merge-base"@
        ||| cmd == "commit-tree"@
        ||| cmd == "merge-tree"@
        ||| cmd == "push"@
        ||| cmd == "fetch"@
        ||| cmd == "diff"@ && c.snapshot_index
        ||| cmd == "write-tree"@ && c.snapshot_index
        ||| cmd == "read-tree"@ && c.snapshot_index
        ||| cmd == "add"@ && c.snapshot_index
    }
}

/// A push to a remote.
pub open spec fn is_push(c: CallView) -> bool {
    c.words.len() > 0 && c.words[0] == "push"@
}

/// Before the dirty check: nothing has been written yet.
pub open spec fn before_diff(s: StageView) -> bool {
    s is CheckRemote || s is ReadTree || s is StageFiles || s is CheckDiff
}

/// Whatever the state, the call that the engine awaits leaves HEAD and the
/// primary index as they were: all staging goes to the snapshot index.
pub proof fn lemma_engine_keeps_head_and_index(m: SyncView)
    requires
        !(m.stage is Done),
    ensures
        keeps_head_and_index(awaited(m)),
{
}

proof fn lemma_first_words_differ()
    ensures
        "remote"@ != "push"@,
        "read-tree"@ != "push"@,
        "add"@ != "push"@,
        "diff"@ != "push"@,
        "write-tree"@ != "push"@,
        "rev-parse"@ != "push"@,
        "merge-base"@ != "push"@,
        "commit-tree"@ != "push"@,
        "merge-tree"@ != "push"@,
        "fetch"@ != "push"@,
{
    reveal_strlit("remote");
    reveal_strlit("push");
    reveal_strlit("read-tree");
    reveal_strlit("add");
    reveal_strlit("diff");
    reveal_strlit("write-tree");
    reveal_strlit("rev-parse");
    reveal_strlit("merge-base");
    reveal_strlit("commit-tree");
    reveal_strlit("merge-tree");
    reveal_strlit("fetch");
    assert("push"@.len() == 4);
    assert("diff"@[0] != "push"@[0]);
}

/// No more calls are issued than answers are given.
pub proof fn lemma_calls_within_answers(m: SyncView, answers: Seq<OutputView>)
    ensures
        sync_calls(m, answers).len() <= answers.len(),
    decreases answers.len(),
{
    if answers.len() > 0 && !(m.stage is Done) {
        let (next, outcome) = sync_next(m, answers[0]);
        if outcome is None {
            lemma_calls_within_answers(next, answers.drop_first());
        }
    }
}

/// Only the push stage awaits a push.
proof fn lemma_push_only_from_push_stage(m: SyncView)
    requires
        !(m.stage is Done),
        is_push(awaited(m)),
    ensures
        m.stage is Push,
{
    lemma_first_words_differ();
    reveal_strlit("-u");
    reveal_strlit("-A");
}

proof fn lemma_after_diff_never_clean(m: SyncView, answers: Seq<OutputView>)
    requires
        !before_diff(m.stage),
    ensures
        sync_outcome(m, answers) != Some(Ok::<SideChannelSyncResult, SyncErrorView>(SideChannelSyncResult::NoChanges)),
    decreases answers.len(),
{
    if answers.len() > 0 && !(m.stage is Done) {
        let (next, outcome) = sync_next(m, answers[0]);
        if outcome is None {
            lemma_after_diff_never_clean(next, answers.drop_first());
        }
    }
}

proof fn lemma_clean_pushes_nothing_from(m: SyncView, answers: Seq<OutputView>)
    requires
        before_diff(m.stage),
        sync_outcome(m, answers) == Some(Ok::<SideChannelSyncResult, SyncErrorView>(SideChannelSyncResult::NoChanges)),
    ensures
        forall|i: int| 0 <= i < sync_calls(m, answers).len() ==> !is_push(#[trigger] sync_calls(m, answers)[i]),
    decreases answers.len(),
{
    lemma_first_words_differ();
    reveal_strlit("-u");
    reveal_strlit("-A");
    let (next, outcome) = sync_next(m, answers[0]);
    if outcome is None {
        if before_diff(next.stage) {
            lemma_clean_pushes_nothing_from(next, answers.drop_first());
        } else {
            lemma_after_diff_never_clean(next, answers.drop_first());
        }
        assert forall|i: int| 0 <= i < sync_calls(m, answers).len() implies !is_push(
            #[trigger] sync_calls(m, answers)[i],
        ) by {
            if i > 0 {
                assert(sync_calls(m, answers)[i] == sync_calls(next, answers.drop_first())[i - 1]);
            }
        }
    }
}

/// A working tree that matches HEAD ends the sync with `NoChanges`.
pub proof fn lemma_clean_tree_is_no_changes(m: SyncView, o: OutputView)
    requires
        m.stage is CheckDiff,
        o.code == Some(0i32),
    ensures
        sync_next(m, o).1 == Some(Ok::<SideChannelSyncResult, SyncErrorView>(SideChannelSyncResult::NoChanges)),
{
}

/// A sync that ends with `NoChanges` has issued no push: the side branch is
/// left as it was.
pub proof fn lemma_no_changes_pushes_nothing(
    side: SideChannelConfig,
    include_untracked: bool,
    message: Seq<char>,
    answers: Seq<OutputView>,
)
    requires
        sync_outcome(sync_start(side, include_untracked, message), answers) == Some(
            Ok::<SideChannelSyncResult, SyncErrorView>(SideChannelSyncResult::NoChanges),
        ),
    ensures
        forall|i: int|
            0 <= i < sync_calls(sync_start(side, include_untracked, message), answers).len()
                ==> !is_push(#[trigger] sync_calls(sync_start(side, include_untracked, message), answers)[i]),
{
    lemma_clean_pushes_nothing_from(sync_start(side, include_untracked, message), answers);
}

proof fn lemma_unpushed_from(m: SyncView, answers: Seq<OutputView>)
    requires
        sync_outcome(m, answers) != Some(Ok::<SideChannelSyncResult, SyncErrorView>(SideChannelSyncResult::Pushed)),
    ensures
        forall|i: int|
            0 <= i < sync_calls(m, answers).len() && is_push(#[trigger] sync_calls(m, answers)[i])
                ==> !answers[i].succeeded(),
    decreases answers.len(),
{
    if answers.len() > 0 && !(m.stage is Done) {
        let (next, outcome) = sync_next(m, answers[0]);
        if is_push(awaited(m)) {
            lemma_push_only_from_push_stage(m);
        }
        if outcome is None {
            lemma_unpushed_from(next, answers.drop_first());
            lemma_calls_within_answers(next, answers.drop_first());
            assert forall|i: int|
                0 <= i < sync_calls(m, answers).len() && is_push(
                    #[trigger] sync_calls(m, answers)[i],
                ) implies !answers[i].succeeded() by {
                if i > 0 {
                    assert(sync_calls(m, answers)[i] == sync_calls(next, answers.drop_first())[i - 1]);
                    assert(answers[i] == answers.drop_first()[i - 1]);
                }
            }
        }
    }
}

/// A sync that does not end with `Pushed` had every push it made refused:
/// it published nothing. In particular one that ends in a conflict leaves
/// the side branch with the peer's tree.
pub proof fn lemma_unpushed_publishes_nothing(
    side: SideChannelConfig,
    include_untracked: bool,
    message: Seq<char>,
    answers: Seq<OutputView>,
)
    requires
        sync_outcome(sync_start(side, include_untracked, message), answers) != Some(
            Ok::<SideChannelSyncResult, SyncErrorView>(SideChannelSyncResult::Pushed),
        ),
    ensures
        forall|i: int|
            0 <= i < sync_calls(sync_start(side, include_untracked, message), answers).len()
                && is_push(#[trigger] sync_calls(sync_start(side, include_untracked, message), answers)[i])
                ==> !answers[i].succeeded(),
{
    lemma_unpushed_from(sync_start(side, include_untracked, message), answers);
}

/// A merge that reports conflicting paths ends the sync with a conflict, and
/// its report says so.
pub proof fn lemma_conflict_is_reported(m: SyncView, o: OutputView)
    requires
        m.stage is MergeTrees,
        o.code is Some,
        !o.succeeded(),
        conflict_path_set(o.stdout) != Set::<Seq<char>>::empty(),
    ensures
        sync_next(m, o).1 matches Some(Err(e)) && e is Conflict && has_infix(error_text(e), "conflict"@),
{
    let e = SyncErrorView::Conflict { tip: m.stage->MergeTrees_tip, paths: sorted_conflicts(o.stdout) };
    let pre = "side-channel merge conflict while combining local changes with remote tip "@;
    reveal_strlit("side-channel merge conflict while combining local changes with remote tip ");
    reveal_strlit("conflict");
    assert(error_text(e).subrange(19, 27) =~= "conflict"@);
    assert(occurs_at(error_text(e), "conflict"@, 19));
}

/// How many of the calls are pushes.
pub open spec fn push_count(calls: Seq<CallView>) -> nat
    decreases calls.len(),
{
    if calls.len() == 0 {
        0
    } else {
        (if is_push(calls[0]) {
            1nat
        } else {
            0nat
        }) + push_count(calls.drop_first())
    }
}

proof fn lemma_push_bound_from(m: SyncView, answers: Seq<OutputView>)
    requires
        !(m.stage is Done),
    ensures
        push_count(sync_calls(m, answers)) <= if m.retried {
            1nat
        } else {
            2nat
        },
    decreases answers.len(),
{
    if answers.len() > 0 {
        let (next, outcome) = sync_next(m, answers[0]);
        let calls = sync_calls(m, answers);
        if is_push(awaited(m)) {
            lemma_push_only_from_push_stage(m);
        }
        assert(calls[0] == awaited(m));
        if outcome is None {
            assert(!(next.stage is Done));
            if m.stage is Push {
                assert(next.retried && !m.retried);
            } else {
                assert(next.retried == m.retried);
            }
            lemma_push_bound_from(next, answers.drop_first());
            assert(calls.drop_first() =~= sync_calls(next, answers.drop_first()));
        } else {
            assert(calls.drop_first() =~= Seq::<CallView>::empty());
            assert(push_count(calls.drop_first()) == 0);
        }
    }
}

/// A sync tries to push at most twice: once, and once more after a refused
/// push and a fresh fetch.
pub proof fn lemma_at_most_two_pushes(
    side: SideChannelConfig,
    include_untracked: bool,
    message: Seq<char>,
    answers: Seq<OutputView>,
)
    ensures
        push_count(sync_calls(sync_start(side, include_untracked, message), answers)) <= 2,
{
    lemma_push_bound_from(sync_start(side, include_untracked, message), answers);
}

/// A side branch named under `refs/` is pushed to verbatim.
pub proof fn lemma_refs_branch_is_verbatim(side: SideChannelConfig, commit: Seq<char>)
    requires
        has_prefix(side.branch_name@, "refs/"@),
    ensures
        side_push_words(side, commit)[2] == commit + ":"@ + side.branch_name@,
{
}

/// When the side tip is not an ancestor of HEAD, the engine does not
/// overwrite it with the snapshot: it finds the merge base, wraps the
/// snapshot in a throwaway commit on HEAD, merges that with the tip three
/// ways, and commits the merged tree on top of the tip.
pub proof fn lemma_diverged_tip_is_merged(
    m: SyncView,
    o1: OutputView,
    o2: OutputView,
    o3: OutputView,
    o4: OutputView,
)
    requires
        m.stage matches StageView::CheckAncestor { .. },
        o1.code == Some(1i32),
        o2.succeeded(),
        o3.succeeded(),
        o4.succeeded(),
        trimmed(first_line(o4.stdout)).len() > 0,
    ensures
        ({
            let tip = m.stage->CheckAncestor_tip;
            let m1 = sync_next(m, o1).0;
            let m2 = sync_next(m1, o2).0;
            let m3 = sync_next(m2, o3).0;
            let m4 = sync_next(m3, o4).0;
            &&& awaited(m1) == plain(base_words(m.local_head, tip))
            &&& awaited(m2) == plain(
                commit_tree_words(m.local_tree, local_snapshot_message(), m.local_head),
            )
            &&& awaited(m3) == plain(
                merge_tree_words(trimmed(o2.stdout), trimmed(o3.stdout), tip),
            )
            &&& m4.stage == (StageView::CommitSnapshot {
                tree: trimmed(first_line(o4.stdout)),
                parent: tip,
            })
            &&& awaited(m4) == plain(commit_tree_words(trimmed(first_line(o4.stdout)), m.message, tip))
        }),
{
}

} // verus!
