//! The git commands that the library decides on, and the reading of what git
//! printed. Running a command is left to the caller: a `GitCall` says what to
//! run, a `GitOutput` is what came back.
use vstd::prelude::*;
use vstd::string::*;
use crate::config::SideChannelConfig;
pub use crate::engine::SideChannelSyncResult;
use crate::order::{insert_sorted, strictly_sorted};
use crate::text::{
    find_char, find_from, first_line, has_infix, join, joined, lemma_find_char, lines, trim,
    trimmed, views, without_cr,
};

verus! {

/// A git invocation: its arguments, and whether it runs against the
/// snapshot index (an alternate index file) instead of the primary one.
#[derive(Debug)]
pub struct GitCall {
    pub args: Vec<String>,
    pub snapshot_index: bool,
}

/// What a git invocation returned: its exit code (`None` when it could not be
/// run or was stopped by a signal) and both output streams.
#[derive(Debug)]
pub struct GitOutput {
    pub code: Option<i32>,
    pub stdout: String,
    pub stderr: String,
}

/// A git invocation as a mathematical value.
pub struct CallView {
    pub words: Seq<Seq<char>>,
    pub snapshot_index: bool,
}

/// A git result as a mathematical value.
pub struct OutputView {
    pub code: Option<i32>,
    pub stdout: Seq<char>,
    pub stderr: Seq<char>,
}

impl View for GitCall {
    type V = CallView;

    open spec fn view(&self) -> CallView {
        CallView { words: views(self.args@), snapshot_index: self.snapshot_index }
    }
}

impl View for GitOutput {
    type V = OutputView;

    open spec fn view(&self) -> OutputView {
        OutputView { code: self.code, stdout: self.stdout@, stderr: self.stderr@ }
    }
}

impl OutputView {
    /// The command exited with status zero.
    pub open spec fn succeeded(self) -> bool {
        self.code == Some(0i32)
    }
}

/// A call on the primary index.
pub open spec fn plain(words: Seq<Seq<char>>) -> CallView {
    CallView { words, snapshot_index: false }
}

/// A call on the snapshot index.
pub open spec fn on_snapshot(words: Seq<Seq<char>>) -> CallView {
    CallView { words, snapshot_index: true }
}

/// `<remote>/<branch>`: the remote-tracking name of the side branch.
pub open spec fn remote_ref(side: SideChannelConfig) -> Seq<char> {
    side.remote_name@ + "/"@ + side.branch_name@
}

/// The ref that a side-channel push updates: `branch_name` itself when it
/// begins with `refs/`, else `refs/heads/<branch_name>`.
pub open spec fn destination_ref(branch: Seq<char>) -> Seq<char> {
    if crate::text::has_prefix(branch, "refs/"@) {
        branch
    } else {
        "refs/heads/"@ + branch
    }
}

pub open spec fn pull_words() -> Seq<Seq<char>> {
    seq!["pull"@, "--ff-only"@]
}

pub open spec fn remote_check_words(remote: Seq<char>) -> Seq<Seq<char>> {
    seq!["remote"@, "get-url"@, remote]
}

pub open spec fn prune_fetch_words(remote: Seq<char>) -> Seq<Seq<char>> {
    seq!["fetch"@, remote, "--prune"@]
}

pub open spec fn branch_fetch_words(side: SideChannelConfig) -> Seq<Seq<char>> {
    seq!["fetch"@, side.remote_name@, side.branch_name@]
}

/// `add -A` stages untracked files too; `add -u` only tracked ones.
pub open spec fn stage_words(include_untracked: bool) -> Seq<Seq<char>> {
    if include_untracked {
        seq!["add"@, "-A"@]
    } else {
        seq!["add"@, "-u"@]
    }
}

pub open spec fn diff_words() -> Seq<Seq<char>> {
    seq!["diff"@, "--cached"@, "--quiet"@]
}

pub open spec fn commit_words(message: Seq<char>) -> Seq<Seq<char>> {
    seq!["commit"@, "-m"@, message]
}

pub open spec fn push_words() -> Seq<Seq<char>> {
    seq!["push"@]
}

pub open spec fn ff_merge_words(side: SideChannelConfig) -> Seq<Seq<char>> {
    seq!["merge"@, "--ff-only"@, remote_ref(side)]
}

pub open spec fn squash_merge_words(side: SideChannelConfig) -> Seq<Seq<char>> {
    seq!["merge"@, "--squash"@, remote_ref(side)]
}

pub open spec fn resolve_words(rev: Seq<char>) -> Seq<Seq<char>> {
    seq!["rev-parse"@, rev]
}

pub open spec fn cherry_pick_words(commit: Seq<char>) -> Seq<Seq<char>> {
    seq!["cherry-pick"@, commit]
}

/// What a failed call reports: the command and what it wrote on stderr.
pub open spec fn failure_detail(call: CallView, out: OutputView) -> Seq<char> {
    "git "@ + joined(call.words, " "@) + " failed: "@ + trimmed(out.stderr)
}

pub(crate) fn push_word(v: &mut Vec<String>, w: String)
    ensures
        views(final(v)@) == views(old(v)@).push(w@),
{
    v.push(w);
    assert(views(v@) =~= views(old(v)@).push(w@));
}

pub(crate) fn push_text(v: &mut Vec<String>, w: &str)
    ensures
        views(final(v)@) == views(old(v)@).push(w@),
{
    push_word(v, String::from_str(w));
}

/// `a` followed by `b`.
pub(crate) fn concat(a: &str, b: &str) -> (r: String)
    ensures
        r@ == a@ + b@,
{
    let mut r = String::from_str(a);
    r.append(b);
    r
}

pub(crate) fn words1(a: &str) -> (v: Vec<String>)
    ensures
        views(v@) == seq![a@],
{
    let mut v = Vec::new();
    push_text(&mut v, a);
    assert(views(v@) =~= seq![a@]);
    v
}

pub(crate) fn words2(a: &str, b: &str) -> (v: Vec<String>)
    ensures
        views(v@) == seq![a@, b@],
{
    let mut v = words1(a);
    push_text(&mut v, b);
    assert(views(v@) =~= seq![a@, b@]);
    v
}

pub(crate) fn words3(a: &str, b: &str, c: &str) -> (v: Vec<String>)
    ensures
        views(v@) == seq![a@, b@, c@],
{
    let mut v = words2(a, b);
    push_text(&mut v, c);
    assert(views(v@) =~= seq![a@, b@, c@]);
    v
}

/// The side branch's remote-tracking name.
pub fn remote_tracking_ref(side: &SideChannelConfig) -> (r: String)
    ensures
        r@ == remote_ref(*side),
{
    let mut r = concat(side.remote_name.as_str(), "/");
    r.append(side.branch_name.as_str());
    r
}

/// The ref that a side-channel push updates.
pub fn side_destination_ref(branch: &str) -> (r: String)
    ensures
        r@ == destination_ref(branch@),
{
    if crate::text::starts_with(branch, "refs/") {
        String::from_str(branch)
    } else {
        concat("refs/heads/", branch)
    }
}

/// Fast-forward-only pull of the current branch.
pub fn pull_ff_only() -> (c: GitCall)
    ensures
        c@ == plain(pull_words()),
{
    GitCall { args: words2("pull", "--ff-only"), snapshot_index: false }
}

/// Fails exactly when `remote_name` is not a configured remote.
pub fn ensure_remote_exists(remote_name: &str) -> (c: GitCall)
    ensures
        c@ == plain(remote_check_words(remote_name@)),
{
    GitCall { args: words3("remote", "get-url", remote_name), snapshot_index: false }
}

/// The preflight of a side-channel sync, run in order until one fails: the
/// remote must exist, then it is fetched with pruning.
pub fn side_channel_preflight(side: &SideChannelConfig) -> (r: Vec<GitCall>)
    ensures
        r@.len() == 2,
        r@[0]@ == plain(remote_check_words(side.remote_name@)),
        r@[1]@ == plain(prune_fetch_words(side.remote_name@)),
{
    let mut r = Vec::new();
    r.push(ensure_remote_exists(side.remote_name.as_str()));
    r.push(GitCall { args: words3("fetch", side.remote_name.as_str(), "--prune"), snapshot_index: false });
    r
}

/// Fetching the side branch, run in order until one fails: the remote must
/// exist, then `<remote> <branch>` is fetched.
pub fn fetch_side_channel(side: &SideChannelConfig) -> (r: Vec<GitCall>)
    ensures
        r@.len() == 2,
        r@[0]@ == plain(remote_check_words(side.remote_name@)),
        r@[1]@ == plain(branch_fetch_words(*side)),
{
    let mut r = Vec::new();
    r.push(ensure_remote_exists(side.remote_name.as_str()));
    r.push(branch_fetch(side));
    r
}

pub(crate) fn branch_fetch(side: &SideChannelConfig) -> (c: GitCall)
    ensures
        c@ == plain(branch_fetch_words(*side)),
{
    GitCall {
        args: words3("fetch", side.remote_name.as_str(), side.branch_name.as_str()),
        snapshot_index: false,
    }
}

/// Staging on the primary index: everything, or only tracked files.
pub fn stage_changes(include_untracked: bool) -> (c: GitCall)
    ensures
        c@ == plain(stage_words(include_untracked)),
{
    GitCall { args: stage_args(include_untracked), snapshot_index: false }
}

pub(crate) fn stage_args(include_untracked: bool) -> (v: Vec<String>)
    ensures
        views(v@) == stage_words(include_untracked),
{
    if include_untracked {
        words2("add", "-A")
    } else {
        words2("add", "-u")
    }
}

/// Asks whether the primary index differs from HEAD; read its answer with
/// `staged_changes_from`.
pub fn has_staged_changes() -> (c: GitCall)
    ensures
        c@ == plain(diff_words()),
{
    GitCall { args: words3("diff", "--cached", "--quiet"), snapshot_index: false }
}

/// Commits the primary index with `message`.
pub fn commit(message: &str) -> (c: GitCall)
    ensures
        c@ == plain(commit_words(message@)),
{
    GitCall { args: words3("commit", "-m", message), snapshot_index: false }
}

/// Pushes the current branch to its upstream.
pub fn push() -> (c: GitCall)
    ensures
        c@ == plain(push_words()),
{
    GitCall { args: words1("push"), snapshot_index: false }
}

/// Fast-forwards HEAD to the fetched side branch.
pub fn merge_side_channel_ff(side: &SideChannelConfig) -> (c: GitCall)
    ensures
        c@ == plain(ff_merge_words(*side)),
{
    let target = remote_tracking_ref(side);
    GitCall { args: words3("merge", "--ff-only", target.as_str()), snapshot_index: false }
}

/// Stages the combined diff of the fetched side branch without committing.
pub fn squash_merge_side_channel(side: &SideChannelConfig) -> (c: GitCall)
    ensures
        c@ == plain(squash_merge_words(*side)),
{
    let target = remote_tracking_ref(side);
    GitCall { args: words3("merge", "--squash", target.as_str()), snapshot_index: false }
}

/// The first half of a cherry-pick of the side tip: resolving the fetched
/// side branch to a commit. The second half is `cherry_pick`.
pub fn cherry_pick_side_channel_tip(side: &SideChannelConfig) -> (c: GitCall)
    ensures
        c@ == plain(resolve_words(remote_ref(*side))),
{
    let target = remote_tracking_ref(side);
    GitCall { args: words2("rev-parse", target.as_str()), snapshot_index: false }
}

/// Replays the commit that `rev-parse` printed (surrounding blanks dropped).
pub fn cherry_pick(resolved: &str) -> (c: GitCall)
    ensures
        c@ == plain(cherry_pick_words(trimmed(resolved@))),
{
    let commit = trim(resolved);
    GitCall { args: words2("cherry-pick", commit.as_str()), snapshot_index: false }
}

/// Reads the answer of `diff --cached --quiet`: 0 means no staged change,
/// 1 means some; any other outcome is a failure.
pub fn staged_changes_from(out: &GitOutput) -> (r: Option<bool>)
    ensures
        out.code == Some(0i32) ==> r == Some(false),
        out.code == Some(1i32) ==> r == Some(true),
        out.code != Some(0i32) && out.code != Some(1i32) ==> r is None,
{
    match out.code {
        Some(0) => Some(false),
        Some(1) => Some(true),
        _ => None,
    }
}

/// The message for a call that failed.
pub fn failure_text(call: &GitCall, out: &GitOutput) -> (r: String)
    ensures
        r@ == failure_detail(call@, out@),
{
    let mut r = String::from_str("git ");
    let line = join(&call.args, " ");
    r.append(line.as_str());
    r.append(" failed: ");
    let err = trim(out.stderr.as_str());
    r.append(err.as_str());
    r
}


/// The path that a line of `merge-tree` output names: what follows its first tab.
pub open spec fn tab_path(line: Seq<char>) -> Option<Seq<char>> {
    let t = find_char(line, '\t');
    if 0 <= t < line.len() {
        Some(line.subrange(t + 1, line.len() as int))
    } else {
        None
    }
}

/// The paths that the lines name.
pub open spec fn named_paths(ls: Seq<Seq<char>>) -> Set<Seq<char>>
    decreases ls.len(),
{
    if ls.len() == 0 {
        Set::empty()
    } else {
        let rest = named_paths(ls.drop_first());
        match tab_path(ls[0]) {
            Some(p) => rest.insert(p),
            None => rest,
        }
    }
}

/// The conflicting paths that `merge-tree` output lists.
pub open spec fn conflict_path_set(output: Seq<char>) -> Set<Seq<char>> {
    named_paths(lines(output))
}

/// A push that the remote refused because the branch moved under it.
pub open spec fn push_rejected(out: OutputView) -> bool {
    let both = out.stderr + "\n"@ + out.stdout;
    has_infix(both, "non-fast-forward"@) || has_infix(both, "[rejected]"@)
}

/// The conflicting paths in `merge-tree` output: each line with a tab names
/// the path after its first tab. Sorted, each once.
pub fn conflict_paths_from_merge_tree_output(output: &str) -> (r: Vec<String>)
    ensures
        strictly_sorted(views(r@), false),
        views(r@).to_set() == conflict_path_set(output@),
{
    let n = output.unicode_len();
    let mut r: Vec<String> = Vec::new();
    let mut i: usize = 0;
    assert(output@.subrange(0, n as int) =~= output@);
    assert(views(r@).to_set() =~= Set::<Seq<char>>::empty());
    while i < n
        invariant
            n == output@.len(),
            i <= n,
            strictly_sorted(views(r@), false),
            conflict_path_set(output@) == views(r@).to_set().union(
                named_paths(lines(output@.subrange(i as int, n as int))),
            ),
        decreases n - i,
    {
        let ghost rest = output@.subrange(i as int, n as int);
        let j = find_from(output, '\n', i);
        let mut end = j;
        if j < n && j > i && output.get_char(j - 1) == '\r' {
            end = j - 1;
        }
        let ghost line = if j < n {
            without_cr(rest.subrange(0, j - i))
        } else {
            rest
        };
        assert(line =~= output@.subrange(i as int, end as int));
        let t = find_from(output, '\t', i);
        let next = if j < n {
            j + 1
        } else {
            n
        };
        let ghost after = output@.subrange(next as int, n as int);
        assert(lines(rest) =~= seq![line] + lines(after)) by {
            if j < n {
                assert(rest.subrange(j - i + 1, rest.len() as int) =~= after);
            }
        }
        assert((seq![line] + lines(after)).drop_first() =~= lines(after));
        if t < end {
            proof {
                lemma_find_char(line, '\t', t - i);
            }
            let path = String::from_str(output.substring_char(t + 1, end));
            assert(path@ =~= line.subrange(t - i + 1, line.len() as int));
            insert_sorted(&mut r, path, false);
        } else {
            proof {
                lemma_find_char(line, '\t', line.len() as int);
            }
        }
        i = next;
    }
    assert(output@.subrange(n as int, n as int) =~= Seq::<char>::empty());
    assert(conflict_path_set(output@) =~= views(r@).to_set());
    r
}

/// The tree that `merge-tree --write-tree` printed: its first line, trimmed.
pub fn merged_tree_from(stdout: &str) -> (r: String)
    ensures
        r@ == trimmed(first_line(stdout@)),
{
    let k = find_from(stdout, '\n', 0);
    assert(stdout@.subrange(0, stdout@.len() as int) =~= stdout@);
    trim(stdout.substring_char(0, k))
}

/// Whether a failed push was refused as non-fast-forward.
pub fn is_push_rejected(out: &GitOutput) -> (r: bool)
    ensures
        r == push_rejected(out@),
{
    let mut both = concat(out.stderr.as_str(), "\n");
    both.append(out.stdout.as_str());
    crate::text::contains(both.as_str(), "non-fast-forward") || crate::text::contains(
        both.as_str(),
        "[rejected]",
    )
}

} // verus!
