use shephard::config::{FailurePolicy, ResolvedRunConfig, SideChannelConfig};
use shephard::engine::{SideChannelSync, SideChannelSyncResult, SyncError, SyncStep};
use shephard::git::{GitCall, GitOutput};
use shephard::workflow::{run, RepoRun, RepoStatus, RunStep};

fn out(code: i32, stdout: &str, stderr: &str) -> GitOutput {
    GitOutput {
        code: Some(code),
        stdout: stdout.to_string(),
        stderr: stderr.to_string(),
    }
}

fn ok(stdout: &str) -> GitOutput {
    out(0, stdout, "")
}

fn words(c: &GitCall) -> Vec<&str> {
    c.args.iter().map(|s| s.as_str()).collect()
}

fn side() -> SideChannelConfig {
    SideChannelConfig {
        enabled: true,
        remote_name: "shephard".to_string(),
        branch_name: "shephard/sync".to_string(),
    }
}

fn run_config(push_enabled: bool, include_untracked: bool, side_channel_enabled: bool) -> ResolvedRunConfig {
    let mut s = side();
    s.enabled = side_channel_enabled;
    ResolvedRunConfig {
        push_enabled,
        include_untracked,
        side_channel: s,
        commit_template: "shephard sync: {timestamp} {hostname} [{scope}]".to_string(),
        failure_policy: FailurePolicy::Continue,
    }
}

/// Feeds the answers to a repository's workflow; returns the calls made and
/// the result.
fn drive(r: &mut RepoRun, answers: Vec<GitOutput>) -> (Vec<GitCall>, Option<(RepoStatus, String)>) {
    let mut calls = vec![r.awaited_call()];
    for a in answers {
        match r.step(&a) {
            RunStep::Run(c) => calls.push(c),
            RunStep::Finished(res) => return (calls, Some((res.status, res.message))),
        }
    }
    (calls, None)
}

/// Feeds the answers to the engine alone.
fn drive_sync(s: &mut SideChannelSync, answers: Vec<GitOutput>) -> (Vec<GitCall>, Option<Result<SideChannelSyncResult, SyncError>>) {
    let mut calls = vec![s.awaited_call()];
    for a in answers {
        match s.step(&a) {
            SyncStep::Run(c) => calls.push(c),
            SyncStep::Finished(res) => return (calls, Some(res)),
        }
    }
    (calls, None)
}

fn moves_head_or_primary_index(c: &GitCall) -> bool {
    let w = words(c);
    match w[0] {
        "read-tree" | "add" | "diff" | "write-tree" => !c.snapshot_index,
        "commit" | "merge" | "cherry-pick" | "reset" | "checkout" | "pull" | "update-ref" => true,
        _ => false,
    }
}

/// The answers of the engine up to its push, the side tip being an ancestor of HEAD.
fn up_to_push_on_seeded_branch() -> Vec<GitOutput> {
    vec![
        ok("/srv/side.git\n"),
        ok(""),
        ok(""),
        out(1, "", ""),
        ok("tree1\n"),
        ok("head1\n"),
        ok("head1\n"),
        ok(""),
        ok("commit1\n"),
    ]
}

#[test]
fn workflow_pull_only_success() {
    let mut r = RepoRun::with_message("R".to_string(), run_config(false, false, false), "m".to_string());
    let (calls, res) = drive(&mut r, vec![ok("Already up to date.\n")]);
    assert_eq!(calls.len(), 1);
    assert_eq!(words(&calls[0]), vec!["pull", "--ff-only"]);
    assert_eq!(res, Some((RepoStatus::Success, "pull ok".to_string())));
}

#[test]
fn workflow_pull_ff_only_fails_when_local_tree_is_dirty() {
    let mut r = RepoRun::with_message("R".to_string(), run_config(false, false, false), "m".to_string());
    let (_, res) = drive(&mut r, vec![out(1, "", "fatal: Not possible to fast-forward\n")]);
    let (status, message) = res.unwrap();
    assert_eq!(status, RepoStatus::Failed);
    assert_eq!(
        message,
        "pull failed: git pull --ff-only failed: fatal: Not possible to fast-forward"
    );
}

#[test]
fn workflow_push_tracked_only_excludes_untracked_files() {
    let mut r = RepoRun::with_message("R".to_string(), run_config(true, false, false), "msg".to_string());
    let (calls, res) = drive(&mut r, vec![ok(""), ok(""), out(1, "", ""), ok(""), ok("")]);
    let got: Vec<Vec<&str>> = calls.iter().map(words).collect();
    assert_eq!(
        got,
        vec![
            vec!["pull", "--ff-only"],
            vec!["add", "-u"],
            vec!["diff", "--cached", "--quiet"],
            vec!["commit", "-m", "msg"],
            vec!["push"],
        ]
    );
    assert_eq!(res, Some((RepoStatus::Success, "pull ok, committed, pushed".to_string())));
}

#[test]
fn workflow_push_include_untracked_adds_new_files() {
    let mut r = RepoRun::with_message("R".to_string(), run_config(true, true, false), "msg".to_string());
    let (calls, res) = drive(&mut r, vec![ok(""), ok(""), out(1, "", ""), ok(""), ok("")]);
    assert_eq!(words(&calls[1]), vec!["add", "-A"]);
    assert!(matches!(res, Some((RepoStatus::Success, _))));
}

#[test]
fn workflow_push_with_no_local_changes_is_noop() {
    let mut r = RepoRun::with_message("R".to_string(), run_config(true, false, false), "msg".to_string());
    let (calls, res) = drive(&mut r, vec![ok(""), ok(""), ok(""), ok("")]);
    assert_eq!(words(&calls[3]), vec!["push"]);
    assert!(calls.iter().all(|c| words(c)[0] != "commit"));
    let (status, message) = res.unwrap();
    assert_eq!(status, RepoStatus::NoOp);
    assert!(message.contains("no local changes"));
}

#[test]
fn workflow_side_channel_pushes_without_local_branch_commit() {
    let mut r = RepoRun::with_message("R".to_string(), run_config(true, false, true), "snap".to_string());
    let mut answers = vec![ok(""), ok("/srv/side.git\n"), ok("")];
    answers.extend(up_to_push_on_seeded_branch());
    answers.push(ok(""));
    let (calls, res) = drive(&mut r, answers);
    assert_eq!(res, Some((RepoStatus::Success, "pull ok, side-channel commit pushed".to_string())));
    assert!(calls.iter().skip(1).all(|c| !moves_head_or_primary_index(c)));
    let got: Vec<Vec<&str>> = calls.iter().map(words).collect();
    assert_eq!(got[1], vec!["remote", "get-url", "shephard"]);
    assert_eq!(got[2], vec!["fetch", "shephard", "--prune"]);
    assert_eq!(got[4], vec!["read-tree", "HEAD"]);
    assert_eq!(got[5], vec!["add", "-u"]);
    assert_eq!(got[9], vec!["rev-parse", "--verify", "--quiet", "shephard/shephard/sync"]);
    assert_eq!(got[10], vec!["merge-base", "--is-ancestor", "head1", "head1"]);
    assert_eq!(got[11], vec!["commit-tree", "tree1", "-m", "snap", "-p", "head1"]);
    assert_eq!(got[12], vec!["push", "shephard", "commit1:refs/heads/shephard/sync"]);
}

#[test]
fn first_sync_on_a_new_side_branch_parents_on_head() {
    let mut s = SideChannelSync::new(side(), true, "first".to_string());
    let (calls, res) = drive_sync(
        &mut s,
        vec![ok(""), ok(""), ok(""), out(1, "", ""), ok("t\n"), ok("h\n"), out(1, "", ""), ok("c\n"), ok("")],
    );
    assert!(matches!(res, Some(Ok(SideChannelSyncResult::Pushed))));
    assert_eq!(words(&calls[2]), vec!["add", "-A"]);
    assert_eq!(words(&calls[7]), vec!["commit-tree", "t", "-m", "first", "-p", "h"]);
}

#[test]
fn clean_tree_gives_no_changes_and_no_push() {
    let mut s = SideChannelSync::new(side(), false, "m".to_string());
    let (calls, res) = drive_sync(&mut s, vec![ok(""), ok(""), ok(""), ok("")]);
    assert!(matches!(res, Some(Ok(SideChannelSyncResult::NoChanges))));
    assert!(calls.iter().all(|c| words(c)[0] != "push"));
    let mut r = RepoRun::with_message("R".to_string(), run_config(true, false, true), "m".to_string());
    let (_, res) = drive(&mut r, vec![ok(""), ok(""), ok(""), ok(""), ok(""), ok(""), ok("")]);
    assert_eq!(res, Some((RepoStatus::NoOp, "pull ok, no local changes to commit".to_string())));
}

#[test]
fn workflow_side_channel_merges_non_conflicting_file_edits_instead_of_overwriting() {
    let mut s = SideChannelSync::new(side(), false, "B".to_string());
    let answers = vec![
        ok(""),
        ok(""),
        ok(""),
        out(1, "", ""),
        ok("treeB\n"),
        ok("headB\n"),
        ok("tipA\n"),
        out(1, "", ""),
        ok("base\n"),
        ok("localB\n"),
        ok("merged\n"),
        ok("commitB\n"),
        ok(""),
    ];
    let (calls, res) = drive_sync(&mut s, answers);
    assert!(matches!(res, Some(Ok(SideChannelSyncResult::Pushed))));
    let got: Vec<Vec<&str>> = calls.iter().map(words).collect();
    assert_eq!(got[8], vec!["merge-base", "headB", "tipA"]);
    assert_eq!(
        got[9],
        vec!["commit-tree", "treeB", "-m", "shephard side-channel local snapshot", "-p", "headB"]
    );
    assert_eq!(
        got[10],
        vec!["merge-tree", "--write-tree", "--merge-base", "base", "localB", "tipA"]
    );
    assert_eq!(got[11], vec!["commit-tree", "merged", "-m", "B", "-p", "tipA"]);
    assert_eq!(got[12], vec!["push", "shephard", "commitB:refs/heads/shephard/sync"]);
}

#[test]
fn workflow_side_channel_conflicting_file_edits_fail_without_overwriting_existing_tip() {
    let mut r = RepoRun::with_message("B".to_string(), run_config(true, false, true), "m".to_string());
    let answers = vec![
        ok(""),
        ok(""),
        ok(""),
        ok(""),
        ok(""),
        ok(""),
        out(1, "", ""),
        ok("treeB\n"),
        ok("headB\n"),
        ok("tipA\n"),
        out(1, "", ""),
        ok("base\n"),
        ok("localB\n"),
        out(
            1,
            "0123abc\n100644 1111 1\tz.txt\n100644 2222 2\ttracked.txt\n100644 3333 3\ttracked.txt\n\nAuto-merging tracked.txt\nCONFLICT (content): Merge conflict in tracked.txt\n",
            "",
        ),
    ];
    let (calls, res) = drive(&mut r, answers);
    assert!(calls.iter().all(|c| words(c)[0] != "push"));
    let (status, message) = res.unwrap();
    assert_eq!(status, RepoStatus::Failed);
    assert!(message.contains("conflict"));
    assert_eq!(
        message,
        "side-channel sync failed: side-channel merge conflict while combining local changes with remote tip tipA: tracked.txt, z.txt"
    );
}

#[test]
fn side_channel_sync_retries_non_fast_forward_with_refetch_and_merges_latest_tip() {
    let mut s = SideChannelSync::new(side(), true, "race retry test".to_string());
    let mut answers = up_to_push_on_seeded_branch();
    answers.push(out(1, "", " ! [rejected]        commit1 -> shephard/sync (non-fast-forward)\n"));
    answers.extend(vec![
        ok("/srv/side.git\n"),
        ok(""),
        ok("tipA\n"),
        out(1, "", ""),
        ok("base\n"),
        ok("local\n"),
        ok("merged\n"),
        ok("commit2\n"),
        ok(""),
    ]);
    let (calls, res) = drive_sync(&mut s, answers);
    assert!(matches!(res, Some(Ok(SideChannelSyncResult::Pushed))));
    let got: Vec<Vec<&str>> = calls.iter().map(words).collect();
    assert_eq!(got[10], vec!["remote", "get-url", "shephard"]);
    assert_eq!(got[11], vec!["fetch", "shephard", "shephard/sync"]);
    assert_eq!(got[12], vec!["rev-parse", "--verify", "--quiet", "shephard/shephard/sync"]);
    assert_eq!(got[18], vec!["push", "shephard", "commit2:refs/heads/shephard/sync"]);
}

#[test]
fn second_rejection_reports_a_race() {
    let mut s = SideChannelSync::new(side(), true, "m".to_string());
    let rejected = || out(1, "", "! [rejected] (fetch first)\n");
    let mut answers = up_to_push_on_seeded_branch();
    answers.push(rejected());
    answers.extend(vec![ok(""), ok(""), ok("head1\n"), ok(""), ok("c2\n"), rejected()]);
    let (_, res) = drive_sync(&mut s, answers);
    match res {
        Some(Err(e)) => {
            assert!(matches!(e, SyncError::Raced));
            assert_eq!(
                e.to_string(),
                "side-channel push rejected after retry because branch advanced concurrently"
            );
        }
        _ => panic!("expected a race"),
    }
}

#[test]
fn other_push_failure_is_not_retried() {
    let mut s = SideChannelSync::new(side(), true, "m".to_string());
    let mut answers = up_to_push_on_seeded_branch();
    answers.push(out(128, "", "fatal: unable to access remote\n"));
    let (_, res) = drive_sync(&mut s, answers);
    match res {
        Some(Err(SyncError::PushFailed { detail })) => assert_eq!(
            detail,
            "git push shephard commit1:refs/heads/shephard/sync failed: fatal: unable to access remote"
        ),
        _ => panic!("expected a push failure"),
    }
}

#[test]
fn branch_under_refs_is_pushed_verbatim() {
    let mut sc = side();
    sc.branch_name = "refs/tags/snapshots".to_string();
    let mut s = SideChannelSync::new(sc, false, "m".to_string());
    let (calls, _) = drive_sync(&mut s, up_to_push_on_seeded_branch());
    assert_eq!(words(calls.last().unwrap()), vec!["push", "shephard", "commit1:refs/tags/snapshots"]);
}

#[test]
fn workflow_side_channel_missing_remote_fails_with_hint() {
    let mut r = RepoRun::with_message("R".to_string(), run_config(true, false, true), "m".to_string());
    let (_, res) = drive(&mut r, vec![ok(""), out(2, "", "error: No such remote 'shephard'\n")]);
    let (status, message) = res.unwrap();
    assert_eq!(status, RepoStatus::Failed);
    assert!(message.contains("missing side-channel remote"));
}

#[test]
fn workflow_continues_after_repo_failure() {
    let repos = vec!["/r/fail".to_string(), "/r/ok".to_string()];
    let mut w = run(&repos, &run_config(false, false, false));
    let mut seen = Vec::new();
    let mut answers = vec![out(1, "", "diverged\n"), ok("")].into_iter();
    while let Some((repo, call)) = w.pending() {
        seen.push((repo, words(&call).join(" ")));
        w.step(&answers.next().unwrap());
    }
    assert_eq!(
        seen,
        vec![
            ("/r/fail".to_string(), "pull --ff-only".to_string()),
            ("/r/ok".to_string(), "pull --ff-only".to_string()),
        ]
    );
    let results = w.into_results();
    assert_eq!(results.len(), 2);
    assert_eq!(results[0].repo, "/r/fail");
    assert_eq!(results[0].status, RepoStatus::Failed);
    assert_eq!(results[1].repo, "/r/ok");
    assert_eq!(results[1].status, RepoStatus::Success);
}
