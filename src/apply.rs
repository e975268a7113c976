//! `apply`: brings side-channel content into a working copy. The side branch
//! is fetched (its remote must exist), then fast-forwarded to, its tip
//! cherry-picked, or its diff squash-merged into the index.
use vstd::prelude::*;
use vstd::string::*;
use crate::cli::ApplyMethodArg;
use crate::config::SideChannelConfig;
use crate::git::{
    branch_fetch, branch_fetch_words, cherry_pick, cherry_pick_side_channel_tip, cherry_pick_words,
    ensure_remote_exists, failure_detail, failure_text, ff_merge_words, merge_side_channel_ff,
    plain, remote_check_words, remote_ref, resolve_words, squash_merge_side_channel,
    squash_merge_words, CallView, GitCall, GitOutput, OutputView,
};
use crate::text::trimmed;

verus! {

/// Where an apply stands.
#[derive(Debug)]
pub enum ApplyStage {
    CheckRemote,
    Fetch,
    Integrate,
    ResolveTip,
    CherryPick { commit: String },
    Done,
}

/// `ApplyStage` as a mathematical value.
pub enum ApplyStageView {
    CheckRemote,
    Fetch,
    Integrate,
    ResolveTip,
    CherryPick { commit: Seq<char> },
    Done,
}

impl View for ApplyStage {
    type V = ApplyStageView;

    open spec fn view(&self) -> ApplyStageView {
        match self {
            ApplyStage::CheckRemote => ApplyStageView::CheckRemote,
            ApplyStage::Fetch => ApplyStageView::Fetch,
            ApplyStage::Integrate => ApplyStageView::Integrate,
            ApplyStage::ResolveTip => ApplyStageView::ResolveTip,
            ApplyStage::CherryPick { commit } => ApplyStageView::CherryPick { commit: commit@ },
            ApplyStage::Done => ApplyStageView::Done,
        }
    }
}

/// An apply of the side branch `side` by `method`.
#[derive(Debug)]
pub struct ApplyRun {
    pub side: SideChannelConfig,
    pub method: ApplyMethodArg,
    pub stage: ApplyStage,
}

/// `ApplyRun` as a mathematical value.
pub struct ApplyView {
    pub side: SideChannelConfig,
    pub method: ApplyMethodArg,
    pub stage: ApplyStageView,
}

impl View for ApplyRun {
    type V = ApplyView;

    open spec fn view(&self) -> ApplyView {
        ApplyView { side: self.side, method: self.method, stage: self.stage@ }
    }
}

/// What a step of an apply hands back.
#[derive(Debug)]
pub enum ApplyStep {
    Run(GitCall),
    /// Done: `Ok`, or the report of the failure.
    Finished(Result<(), String>),
}

/// The call that the apply awaits the answer to.
pub open spec fn apply_awaited(a: ApplyView) -> CallView {
    match a.stage {
        ApplyStageView::CheckRemote => plain(remote_check_words(a.side.remote_name@)),
        ApplyStageView::Fetch => plain(branch_fetch_words(a.side)),
        ApplyStageView::Integrate => match a.method {
            ApplyMethodArg::Squash => plain(squash_merge_words(a.side)),
            _ => plain(ff_merge_words(a.side)),
        },
        ApplyStageView::ResolveTip => plain(resolve_words(remote_ref(a.side))),
        ApplyStageView::CherryPick { commit } => plain(cherry_pick_words(trimmed(commit))),
        ApplyStageView::Done => plain(Seq::empty()),
    }
}

/// The report of a failed fetch.
pub open spec fn fetch_failure(a: ApplyView, detail: Seq<char>) -> Seq<char> {
    "failed to fetch side-channel branch "@ + remote_ref(a.side) + ": "@ + detail
}

/// What the method reports when its step fails.
pub open spec fn method_failure(m: ApplyMethodArg) -> Seq<char> {
    match m {
        ApplyMethodArg::Merge => "failed to ff-merge: "@,
        ApplyMethodArg::CherryPick => "failed to cherry-pick: "@,
        ApplyMethodArg::Squash => "failed to squash-merge: "@,
    }
}

/// One decision of an apply.
pub open spec fn apply_next(a: ApplyView, o: OutputView) -> (ApplyView, Option<Result<(), Seq<char>>>) {
    let done = ApplyView { stage: ApplyStageView::Done, ..a };
    let failed = method_failure(a.method) + failure_detail(apply_awaited(a), o);
    match a.stage {
        ApplyStageView::CheckRemote => if o.succeeded() {
            (ApplyView { stage: ApplyStageView::Fetch, ..a }, None)
        } else {
            (
                done,
                Some(
                    Err(
                        fetch_failure(
                            a,
                            "missing side-channel remote '"@ + a.side.remote_name@ + "': "@
                                + failure_detail(apply_awaited(a), o),
                        ),
                    ),
                ),
            )
        },
        ApplyStageView::Fetch => if !o.succeeded() {
            (done, Some(Err(fetch_failure(a, failure_detail(apply_awaited(a), o)))))
        } else if a.method == ApplyMethodArg::CherryPick {
            (ApplyView { stage: ApplyStageView::ResolveTip, ..a }, None)
        } else {
            (ApplyView { stage: ApplyStageView::Integrate, ..a }, None)
        },
        ApplyStageView::ResolveTip => if o.succeeded() {
            (ApplyView { stage: ApplyStageView::CherryPick { commit: o.stdout }, ..a }, None)
        } else {
            (done, Some(Err(failed)))
        },
        ApplyStageView::Integrate | ApplyStageView::CherryPick { .. } => if o.succeeded() {
            (done, Some(Ok(())))
        } else {
            (done, Some(Err(failed)))
        },
        ApplyStageView::Done => (a, None),
    }
}

/// The calls of an apply while the answers are fed in.
pub open spec fn apply_calls(a: ApplyView, answers: Seq<OutputView>) -> Seq<CallView>
    decreases answers.len(),
{
    if answers.len() == 0 || a.stage is Done {
        Seq::empty()
    } else {
        let (next, res) = apply_next(a, answers[0]);
        if res is Some {
            seq![apply_awaited(a)]
        } else {
            seq![apply_awaited(a)] + apply_calls(next, answers.drop_first())
        }
    }
}

/// A call that a merge apply may make: checking the remote, fetching the
/// side branch, fast-forwarding to it.
pub open spec fn merge_apply_call(side: SideChannelConfig, c: CallView) -> bool {
    c == plain(remote_check_words(side.remote_name@)) || c == plain(branch_fetch_words(side)) || c
        == plain(ff_merge_words(side))
}

/// A merge apply only checks the remote, fetches the side branch and
/// fast-forwards HEAD to it: it never commits, so with no new side commits
/// a second one leaves HEAD where the first put it.
pub proof fn lemma_merge_apply_only_fast_forwards(a: ApplyView, answers: Seq<OutputView>)
    requires
        a.method == ApplyMethodArg::Merge,
        a.stage is CheckRemote || a.stage is Fetch || a.stage is Integrate,
    ensures
        forall|i: int|
            0 <= i < apply_calls(a, answers).len() ==> merge_apply_call(
                a.side,
                #[trigger] apply_calls(a, answers)[i],
            ),
    decreases answers.len(),
{
    if answers.len() > 0 {
        let (next, res) = apply_next(a, answers[0]);
        if res is None {
            lemma_merge_apply_only_fast_forwards(next, answers.drop_first());
            assert forall|i: int| 0 <= i < apply_calls(a, answers).len() implies merge_apply_call(
                a.side,
                #[trigger] apply_calls(a, answers)[i],
            ) by {
                if i > 0 {
                    assert(apply_calls(a, answers)[i] == apply_calls(next, answers.drop_first())[i - 1]);
                }
            }
        }
    }
}

impl ApplyRun {
    /// An apply of `side` by `method`: it starts by checking the remote.
    pub fn new(side: SideChannelConfig, method: ApplyMethodArg) -> (r: ApplyRun)
        ensures
            r@ == (ApplyView { side, method, stage: ApplyStageView::CheckRemote }),
    {
        ApplyRun { side, method, stage: ApplyStage::CheckRemote }
    }

    /// The call whose answer the apply awaits.
    pub fn awaited_call(&self) -> (c: GitCall)
        ensures
            c@ == apply_awaited(self@),
    {
        match &self.stage {
            ApplyStage::CheckRemote => ensure_remote_exists(self.side.remote_name.as_str()),
            ApplyStage::Fetch => branch_fetch(&self.side),
            ApplyStage::Integrate => match self.method {
                ApplyMethodArg::Squash => squash_merge_side_channel(&self.side),
                _ => merge_side_channel_ff(&self.side),
            },
            ApplyStage::ResolveTip => cherry_pick_side_channel_tip(&self.side),
            ApplyStage::CherryPick { commit } => cherry_pick(commit.as_str()),
            ApplyStage::Done => {
                let c = GitCall { args: Vec::new(), snapshot_index: false };
                assert(c@.words =~= Seq::<Seq<char>>::empty());
                c
            },
        }
    }

    fn method_prefix(&self) -> (r: &'static str)
        ensures
            r@ == method_failure(self.method),
    {
        match self.method {
            ApplyMethodArg::Merge => "failed to ff-merge: ",
            ApplyMethodArg::CherryPick => "failed to cherry-pick: ",
            ApplyMethodArg::Squash => "failed to squash-merge: ",
        }
    }

    fn fetch_failure(&self, detail: &str) -> (r: String)
        ensures
            r@ == fetch_failure(self@, detail@),
    {
        let mut r = String::from_str("failed to fetch side-channel branch ");
        r.append(crate::git::remote_tracking_ref(&self.side).as_str());
        r.append(": ");
        r.append(detail);
        r
    }

    /// Takes the answer to the awaited call and decides.
    pub fn step(&mut self, out: &GitOutput) -> (r: ApplyStep)
        requires
            !(old(self)@.stage is Done),
        ensures
            final(self)@ == apply_next(old(self)@, out@).0,
            r matches ApplyStep::Run(c) ==> apply_next(old(self)@, out@).1 is None && c@
                == apply_awaited(final(self)@),
            r matches ApplyStep::Finished(res) ==> apply_next(old(self)@, out@).1 == Some(
                match res {
                    Ok(()) => Ok::<(), Seq<char>>(()),
                    Err(e) => Err(e@),
                },
            ),
    {
        let ok = matches!(out.code, Some(0));
        let detail = failure_text(&self.awaited_call(), out);
        match &self.stage {
            ApplyStage::CheckRemote => {
                if ok {
                    self.stage = ApplyStage::Fetch;
                    ApplyStep::Run(self.awaited_call())
                } else {
                    let mut d = String::from_str("missing side-channel remote '");
                    d.append(self.side.remote_name.as_str());
                    d.append("': ");
                    d.append(detail.as_str());
                    let text = self.fetch_failure(d.as_str());
                    self.stage = ApplyStage::Done;
                    ApplyStep::Finished(Err(text))
                }
            },
            ApplyStage::Fetch => {
                if !ok {
                    let text = self.fetch_failure(detail.as_str());
                    self.stage = ApplyStage::Done;
                    ApplyStep::Finished(Err(text))
                } else {
                    self.stage = if self.method == ApplyMethodArg::CherryPick {
                        ApplyStage::ResolveTip
                    } else {
                        ApplyStage::Integrate
                    };
                    ApplyStep::Run(self.awaited_call())
                }
            },
            ApplyStage::ResolveTip => {
                if ok {
                    self.stage = ApplyStage::CherryPick { commit: out.stdout.clone() };
                    ApplyStep::Run(self.awaited_call())
                } else {
                    let text = crate::git::concat(self.method_prefix(), detail.as_str());
                    self.stage = ApplyStage::Done;
                    ApplyStep::Finished(Err(text))
                }
            },
            ApplyStage::Integrate | ApplyStage::CherryPick { .. } => {
                let text = crate::git::concat(self.method_prefix(), detail.as_str());
                self.stage = ApplyStage::Done;
                if ok {
                    ApplyStep::Finished(Ok(()))
                } else {
                    ApplyStep::Finished(Err(text))
                }
            },
            ApplyStage::Done => ApplyStep::Run(self.awaited_call()),
        }
    }
}

} // verus!
