use shephard::apply::{ApplyRun, ApplyStep};
use shephard::cli::ApplyMethodArg;
use shephard::config::{defaults, join_config_path, resolve_run_config, SideChannelConfig};
use shephard::cli::RunArgs;
use shephard::discovery::{collect_repositories, is_hidden, should_descend, Repo};
use shephard::git::{conflict_paths_from_merge_tree_output, is_push_rejected, merged_tree_from, GitCall, GitOutput};
use shephard::message::render_commit_message;
use shephard::report::{exit_code, result_line, summarize, summary_line};
use shephard::selector::{record_selection, App, AppTransition, Key, Screen};
use shephard::state::State;
use shephard::text::{contains, decimal_text, is_blank, replace, starts_with, trim};
use shephard::workflow::{RepoResult, RepoStatus};

fn words(c: &GitCall) -> Vec<&str> {
    c.args.iter().map(|s| s.as_str()).collect()
}

fn out(code: i32, stdout: &str, stderr: &str) -> GitOutput {
    GitOutput {
        code: Some(code),
        stdout: stdout.to_string(),
        stderr: stderr.to_string(),
    }
}

#[test]
fn commit_message_substitutes_placeholders_literally() {
    let m = render_commit_message(
        "shephard sync: {timestamp} {hostname} [{scope}] {unknown}",
        "2024-01-02 03:04:05 +0100",
        "box",
        false,
    );
    assert_eq!(m, "shephard sync: 2024-01-02 03:04:05 +0100 box [tracked] {unknown}");
    let all = render_commit_message("{scope}{scope}", "t", "", true);
    assert_eq!(all, "allall");
}

#[test]
fn text_helpers() {
    assert_eq!(replace("a{x}b{x}", "{x}", "--"), "a--b--");
    assert_eq!(replace("aaa", "aa", "b"), "ba");
    assert_eq!(trim("  \tabc \n"), "abc");
    assert_eq!(trim("\u{3000}x\u{a0}"), "x");
    assert!(is_blank(" \t\r\n"));
    assert!(is_blank(""));
    assert!(!is_blank(" a "));
    assert!(starts_with("refs/tags/x", "refs/"));
    assert!(!starts_with("ref", "refs/"));
    assert!(contains("xx non-fast-forward yy", "non-fast-forward"));
    assert!(!contains("rejected", "[rejected]"));
    assert_eq!(decimal_text(0), "0");
    assert_eq!(decimal_text(1907), "1907");
}

#[test]
fn conflict_paths_are_sorted_and_unique() {
    let output = "abc\n100644 1 1\tb/c.txt\r\n100644 2 2\ta.txt\n100644 3 3\tb/c.txt\nno tab here\n\ttabbed\tpath";
    let paths = conflict_paths_from_merge_tree_output(output);
    assert_eq!(paths, vec!["a.txt".to_string(), "b/c.txt".to_string(), "tabbed\tpath".to_string()]);
    assert!(conflict_paths_from_merge_tree_output("tree\n").is_empty());
}

#[test]
fn merged_tree_is_first_line_trimmed() {
    assert_eq!(merged_tree_from("  abc123 \nother\n"), "abc123");
    assert_eq!(merged_tree_from(""), "");
}

#[test]
fn push_rejection_is_recognised_in_either_stream() {
    assert!(is_push_rejected(&out(1, "", " ! [rejected] main -> main (fetch first)")));
    assert!(is_push_rejected(&out(1, "hint: non-fast-forward", "")));
    assert!(!is_push_rejected(&out(1, "", "fatal: could not read from remote")));
}

#[test]
fn discovery_descends_by_the_rules() {
    assert!(!should_descend(".git", 3, true));
    assert!(!should_descend(".hidden", 1, false));
    assert!(should_descend(".hidden", 1, true));
    assert!(should_descend(".root", 0, false));
    assert!(should_descend("visible", 2, false));
    assert!(is_hidden(".x"));
    assert!(!is_hidden("x."));
}

#[test]
fn discovered_paths_are_sorted_and_deduplicated() {
    let found = vec![
        "/w/visible".to_string(),
        "/w/.hidden/repo".to_string(),
        "/w/a-b".to_string(),
        "/w/a/b".to_string(),
        "/w/visible".to_string(),
    ];
    let repos: Vec<String> = collect_repositories(&found).into_iter().map(|r| r.path).collect();
    assert_eq!(
        repos,
        vec![
            "/w/.hidden/repo".to_string(),
            "/w/a/b".to_string(),
            "/w/a-b".to_string(),
            "/w/visible".to_string(),
        ]
    );
}

fn result(repo: &str, status: RepoStatus, message: &str) -> RepoResult {
    RepoResult {
        repo: repo.to_string(),
        status,
        message: message.to_string(),
    }
}

#[test]
fn report_counts_lines_and_exit_code() {
    let results = vec![
        result("/a", RepoStatus::Success, "pull ok"),
        result("/b", RepoStatus::NoOp, "pull ok, no local changes to commit"),
        result("/c", RepoStatus::Failed, "pull failed: x"),
        result("/d", RepoStatus::Success, "pull ok"),
    ];
    let s = summarize(&results);
    assert_eq!((s.success, s.no_op, s.failed), (2, 1, 1));
    assert_eq!(exit_code(&results), 1);
    assert_eq!(exit_code(&results[..2].iter().map(|r| result(&r.repo, r.status, &r.message)).collect()), 0);
    assert_eq!(result_line(&results[0]), "[OK] /a :: pull ok");
    assert_eq!(result_line(&results[2]), "[FAIL] /c :: pull failed: x");
    assert_eq!(summary_line(&results), "Processed 4 repos: 2 success, 1 no-op, 1 failed");
}

#[test]
fn state_remembers_the_latest_choice() {
    let mut st = State::default();
    assert_eq!(st.get("/a"), None);
    st.set("/a".to_string(), false);
    st.set("/b".to_string(), true);
    st.set("/a".to_string(), true);
    assert_eq!(st.get("/a"), Some(true));
    assert_eq!(st.get("/b"), Some(true));
}

fn repos() -> Vec<Repo> {
    vec![
        Repo { path: "/r/one".to_string() },
        Repo { path: "/r/two".to_string() },
    ]
}

#[test]
fn selector_runs_through_the_four_screens() {
    let mut st = State::default();
    st.set("/r/two".to_string(), false);
    let base = resolve_run_config(&defaults(), &RunArgs::default()).unwrap();
    let mut app = App::new(&repos(), &st, &base);
    assert!(app.repos[0].selected);
    assert!(!app.repos[1].selected);
    assert_eq!(app.help_text(), "\u{2191}/\u{2193} or j/k: move   space: toggle   a: toggle all   enter: continue   q/esc: cancel");
    let lines = app.help_lines(30);
    assert!(lines.len() > 1);
    assert!(lines.iter().all(|l| l.chars().count() <= 30));
    assert!(lines[0].starts_with("\u{2191}/\u{2193} or j/k"));
    assert_eq!(app.help_lines(0).len(), app.help_lines(1).len());
    assert!(matches!(app.handle_key(Key::Char('j')), AppTransition::Continue));
    assert!(matches!(app.handle_key(Key::Char(' ')), AppTransition::Continue));
    assert!(app.repos[1].selected);
    app.handle_key(Key::Enter);
    assert_eq!(app.screen, Screen::RunMode);
    app.handle_key(Key::Enter);
    assert_eq!(app.screen, Screen::IncludeUntracked);
    app.handle_key(Key::Up);
    app.handle_key(Key::Enter);
    assert_eq!(app.screen, Screen::SideChannel);
    app.handle_key(Key::Char('k'));
    match app.handle_key(Key::Enter) {
        AppTransition::Complete(sel) => {
            assert_eq!(sel.selected_repos, vec!["/r/one".to_string(), "/r/two".to_string()]);
            assert!(sel.run_config.push_enabled);
            assert!(sel.run_config.include_untracked);
            assert!(sel.run_config.side_channel.enabled);
            record_selection(&mut st, &repos(), &sel);
            assert_eq!(st.get("/r/two"), Some(true));
        }
        _ => panic!("expected a selection"),
    }
}

#[test]
fn selector_pull_only_skips_later_screens_and_cancel_works() {
    let base = resolve_run_config(&defaults(), &RunArgs::default()).unwrap();
    let mut app = App::new(&repos(), &State::default(), &base);
    app.handle_key(Key::Char('a'));
    assert!(!app.repos[0].selected && !app.repos[1].selected);
    app.handle_key(Key::Char('A'));
    assert!(app.repos[0].selected && app.repos[1].selected);
    app.handle_key(Key::Char(' '));
    app.handle_key(Key::Enter);
    app.handle_key(Key::Down);
    match app.handle_key(Key::Enter) {
        AppTransition::Complete(sel) => {
            assert_eq!(sel.selected_repos, vec!["/r/two".to_string()]);
            assert!(!sel.run_config.push_enabled);
            assert!(!sel.run_config.side_channel.enabled);
        }
        _ => panic!("expected a selection"),
    }
    let mut again = App::new(&repos(), &State::default(), &base);
    assert!(matches!(again.handle_key(Key::Char('q')), AppTransition::Cancel));
    assert!(matches!(again.handle_key(Key::Esc), AppTransition::Cancel));
}

fn side() -> SideChannelConfig {
    SideChannelConfig {
        enabled: true,
        remote_name: "shephard".to_string(),
        branch_name: "shephard/sync".to_string(),
    }
}

fn drive_apply(method: ApplyMethodArg, answers: Vec<GitOutput>) -> (Vec<Vec<String>>, Option<Result<(), String>>) {
    let mut a = ApplyRun::new(side(), method);
    let mut calls = vec![a.awaited_call().args];
    for o in answers {
        match a.step(&o) {
            ApplyStep::Run(c) => calls.push(c.args),
            ApplyStep::Finished(r) => return (calls, Some(r)),
        }
    }
    (calls, None)
}

#[test]
fn apply_merge_cherry_pick_and_squash_behaviors() {
    let ok = || out(0, "", "");
    let (calls, res) = drive_apply(ApplyMethodArg::Merge, vec![ok(), ok(), ok()]);
    assert_eq!(res, Some(Ok(())));
    assert_eq!(calls[1], vec!["fetch", "shephard", "shephard/sync"]);
    assert_eq!(calls[2], vec!["merge", "--ff-only", "shephard/shephard/sync"]);
    let (calls, _) = drive_apply(ApplyMethodArg::Squash, vec![ok(), ok(), ok()]);
    assert_eq!(calls[2], vec!["merge", "--squash", "shephard/shephard/sync"]);
    let (calls, res) = drive_apply(ApplyMethodArg::CherryPick, vec![ok(), ok(), out(0, "abc123\n", ""), ok()]);
    assert_eq!(res, Some(Ok(())));
    assert_eq!(calls[2], vec!["rev-parse", "shephard/shephard/sync"]);
    assert_eq!(calls[3], vec!["cherry-pick", "abc123"]);
    let (_, res) = drive_apply(ApplyMethodArg::Merge, vec![out(2, "", "error: No such remote 'shephard'")]);
    assert_eq!(
        res,
        Some(Err("failed to fetch side-channel branch shephard/shephard/sync: missing side-channel remote 'shephard': git remote get-url shephard failed: error: No such remote 'shephard'".to_string()))
    );
}

#[test]
fn relative_entry_paths_join_the_config_directory() {
    assert_eq!(join_config_path("/home/u/.config/shephard", "repo"), "/home/u/.config/shephard/repo");
    assert_eq!(join_config_path("/cfg/", "repo"), "/cfg/repo");
    assert_eq!(join_config_path("/cfg", "/abs/repo"), "/abs/repo");
}

#[test]
fn git_call_words_for_straight_path() {
    assert_eq!(words(&shephard::git::stage_changes(true)), vec!["add", "-A"]);
    assert_eq!(words(&shephard::git::commit("m")), vec!["commit", "-m", "m"]);
    let pre = shephard::git::side_channel_preflight(&side());
    assert_eq!(words(&pre[0]), vec!["remote", "get-url", "shephard"]);
    assert_eq!(words(&pre[1]), vec!["fetch", "shephard", "--prune"]);
}

/// The walk's decisions over a root holding `visible/.git` and
/// `.hidden/repo/.git`: the directories entered, then what is found.
fn walk(descend_hidden_dirs: bool) -> Vec<String> {
    let mut found = Vec::new();
    if should_descend("visible", 1, descend_hidden_dirs) {
        found.push("/w/visible".to_string());
    }
    if should_descend(".hidden", 1, descend_hidden_dirs) && should_descend("repo", 2, descend_hidden_dirs) {
        found.push("/w/.hidden/repo".to_string());
    }
    collect_repositories(&found).into_iter().map(|r| r.path).collect()
}

#[test]
fn hidden_directories_are_skipped_when_disabled() {
    assert_eq!(walk(false), vec!["/w/visible".to_string()]);
}

#[test]
fn hidden_directories_are_descended_when_enabled() {
    assert_eq!(
        walk(true),
        vec!["/w/.hidden/repo".to_string(), "/w/visible".to_string()]
    );
}

#[test]
fn discovers_nested_repositories() {
    assert!(should_descend("nested", 1, false));
    let found = vec!["/w/nested/b".to_string(), "/w/a".to_string()];
    let paths: Vec<String> = collect_repositories(&found).into_iter().map(|r| r.path).collect();
    assert!(paths.contains(&"/w/a".to_string()));
    assert!(paths.contains(&"/w/nested/b".to_string()));
}
