use shephard::cli::RunArgs;
use shephard::config::{
    defaults, enabled_repositories, load_from, resolve_apply_side_channel,
    resolve_configured_targets, resolve_repo_run_config, resolve_run_config, validate,
    ConfigError, ConfigSource, FailurePolicy, PartialConfig, PartialRepositoryConfig,
    PartialSideChannelConfig, ResolvedRepositoryConfig, ResolvedRepositorySideChannelConfig,
    ResolvedRunConfig, RunMode, SideChannelConfig, SkipReason,
};

fn repo_config(path: &str, enabled: bool) -> ResolvedRepositoryConfig {
    ResolvedRepositoryConfig {
        path: path.to_string(),
        enabled,
        include_untracked: None,
        side_channel: ResolvedRepositorySideChannelConfig::default(),
    }
}

#[test]
fn pull_only_override_disables_push() {
    let base = defaults();
    let args = RunArgs {
        pull_only: true,
        ..RunArgs::default()
    };

    let resolved = resolve_run_config(&base, &args).expect("resolve should succeed");
    assert_eq!(resolved.push_enabled, false);
}

#[test]
fn conflicting_untracked_flags_fail() {
    let base = defaults();
    let args = RunArgs {
        include_untracked: true,
        tracked_only: true,
        ..RunArgs::default()
    };

    let err = resolve_run_config(&base, &args).expect_err("resolve should fail");
    assert!(err
        .to_string()
        .contains("--include-untracked and --tracked-only"));
}

#[test]
fn per_repo_overrides_apply_when_cli_flags_are_absent() {
    let base = defaults();
    let args = RunArgs::default();
    let global = resolve_run_config(&base, &args).expect("resolve should succeed");
    let repo = ResolvedRepositoryConfig {
        path: "/tmp/repo".to_string(),
        enabled: true,
        include_untracked: Some(true),
        side_channel: ResolvedRepositorySideChannelConfig {
            enabled: Some(true),
            remote_name: Some("backup".to_string()),
            branch_name: Some("backup/sync".to_string()),
        },
    };

    let resolved = resolve_repo_run_config(&global, &args, &repo);

    assert_eq!(
        resolved,
        ResolvedRunConfig {
            push_enabled: true,
            include_untracked: true,
            side_channel: SideChannelConfig {
                enabled: true,
                remote_name: "backup".to_string(),
                branch_name: "backup/sync".to_string(),
            },
            commit_template: "shephard sync: {timestamp} {hostname} [{scope}]".to_string(),
            failure_policy: FailurePolicy::Continue,
        }
    );
}

#[test]
fn cli_flags_override_repo_overrides() {
    let base = defaults();
    let args = RunArgs {
        tracked_only: true,
        no_side_channel: true,
        ..RunArgs::default()
    };
    let global = resolve_run_config(&base, &args).expect("resolve should succeed");
    let repo = ResolvedRepositoryConfig {
        path: "/tmp/repo".to_string(),
        enabled: true,
        include_untracked: Some(true),
        side_channel: ResolvedRepositorySideChannelConfig {
            enabled: Some(true),
            ..ResolvedRepositorySideChannelConfig::default()
        },
    };

    let resolved = resolve_repo_run_config(&global, &args, &repo);

    assert_eq!(resolved.include_untracked, false);
    assert_eq!(resolved.side_channel.enabled, false);
}

#[test]
fn apply_side_channel_uses_repo_specific_override() {
    let mut cfg = defaults();
    cfg.repositories = vec![ResolvedRepositoryConfig {
        path: "/tmp/repo".to_string(),
        enabled: true,
        include_untracked: None,
        side_channel: ResolvedRepositorySideChannelConfig {
            enabled: Some(true),
            remote_name: Some("backup".to_string()),
            branch_name: Some("backup/sync".to_string()),
        },
    }];

    let side_channel = resolve_apply_side_channel(&cfg, "/tmp/repo");

    assert_eq!(
        side_channel,
        SideChannelConfig {
            enabled: true,
            remote_name: "backup".to_string(),
            branch_name: "backup/sync".to_string(),
        }
    );
}

#[test]
fn resolve_targets_defaults_to_enabled_repositories() {
    let all = vec![
        repo_config("/tmp/repo-a", true),
        repo_config("/tmp/repo-b", false),
        repo_config("/tmp/repo-c", true),
    ];
    let enabled = all
        .iter()
        .filter(|repo| repo.enabled)
        .cloned()
        .collect::<Vec<_>>();

    let args = RunArgs::default();
    let selected = resolve_configured_targets(&args.repos, &enabled, &all).selected;
    let selected_paths = selected
        .into_iter()
        .map(|repo| repo.path)
        .collect::<Vec<String>>();

    assert_eq!(
        selected_paths,
        vec!["/tmp/repo-a".to_string(), "/tmp/repo-c".to_string()]
    );
}

#[test]
fn requested_targets_are_deduplicated_and_skips_are_explained() {
    let all = vec![
        repo_config("/tmp/repo-a", true),
        repo_config("/tmp/repo-b", false),
    ];
    let enabled = enabled_repositories(&{
        let mut c = defaults();
        c.repositories = all.clone();
        c
    });
    assert_eq!(enabled.len(), 1);
    let requested = vec![
        "/tmp/repo-a".to_string(),
        "/tmp/repo-b".to_string(),
        "/tmp/repo-a".to_string(),
        "/tmp/elsewhere".to_string(),
    ];
    let selection = resolve_configured_targets(&requested, &enabled, &all);
    let paths: Vec<String> = selection.selected.into_iter().map(|r| r.path).collect();
    assert_eq!(paths, vec!["/tmp/repo-a".to_string()]);
    assert_eq!(selection.skipped.len(), 2);
    assert_eq!(selection.skipped[0].index, 1);
    assert_eq!(selection.skipped[0].reason, SkipReason::Disabled);
    assert_eq!(selection.skipped[1].index, 3);
    assert_eq!(selection.skipped[1].reason, SkipReason::NotConfigured);
}

#[test]
fn push_flag_wins_over_pull_only_default_mode() {
    let mut base = defaults();
    base.default_mode = RunMode::PullOnly;
    let resolved = resolve_run_config(&base, &RunArgs::default()).unwrap();
    assert!(!resolved.push_enabled);
    let args = RunArgs {
        push: true,
        side_channel: true,
        include_untracked: true,
        ..RunArgs::default()
    };
    let resolved = resolve_run_config(&base, &args).unwrap();
    assert!(resolved.push_enabled);
    assert!(resolved.side_channel.enabled);
    assert!(resolved.include_untracked);
}

#[test]
fn every_conflicting_flag_pair_is_refused() {
    let base = defaults();
    let a = RunArgs {
        pull_only: true,
        push: true,
        ..RunArgs::default()
    };
    assert_eq!(
        resolve_run_config(&base, &a).unwrap_err().to_string(),
        "--pull-only and --push cannot be used together"
    );
    let b = RunArgs {
        side_channel: true,
        no_side_channel: true,
        ..RunArgs::default()
    };
    assert_eq!(
        resolve_run_config(&base, &b).unwrap_err().to_string(),
        "--side-channel and --no-side-channel cannot be used together"
    );
}

#[test]
fn missing_config_file_gives_defaults() {
    let cfg = load_from(ConfigSource::Missing).expect("defaults");
    assert_eq!(cfg.default_mode, RunMode::SyncAll);
    assert!(cfg.push_enabled);
    assert!(!cfg.include_untracked);
    assert!(!cfg.side_channel.enabled);
    assert_eq!(cfg.side_channel.remote_name, "shephard");
    assert_eq!(cfg.side_channel.branch_name, "shephard/sync");
    assert_eq!(
        cfg.commit_template,
        "shephard sync: {timestamp} {hostname} [{scope}]"
    );
    assert!(cfg.repositories.is_empty());
}

#[test]
fn malformed_config_file_fails() {
    let err = load_from(ConfigSource::Malformed("expected `=`".to_string())).unwrap_err();
    assert_eq!(err.to_string(), "expected `=`");
}

#[test]
fn config_file_fields_override_defaults() {
    let parsed = PartialConfig {
        push_enabled: Some(false),
        side_channel: Some(PartialSideChannelConfig {
            enabled: Some(true),
            remote_name: Some("backup".to_string()),
            branch_name: None,
        }),
        repositories: Some(vec![PartialRepositoryConfig {
            path: "repo".to_string(),
            enabled: Some(false),
            include_untracked: Some(true),
            side_channel: None,
        }]),
        ..PartialConfig::default()
    };
    let cfg = load_from(ConfigSource::Parsed {
        config: parsed,
        canonical_paths: vec!["/home/u/.config/shephard/repo".to_string()],
    })
    .expect("valid file");
    assert!(!cfg.push_enabled);
    assert!(cfg.side_channel.enabled);
    assert_eq!(cfg.side_channel.remote_name, "backup");
    assert_eq!(cfg.side_channel.branch_name, "shephard/sync");
    assert_eq!(cfg.repositories.len(), 1);
    assert_eq!(cfg.repositories[0].path, "/home/u/.config/shephard/repo");
    assert!(!cfg.repositories[0].enabled);
    assert_eq!(cfg.repositories[0].include_untracked, Some(true));
}

#[test]
fn blank_remote_name_in_file_fails() {
    let parsed = PartialConfig {
        side_channel: Some(PartialSideChannelConfig {
            remote_name: Some("  ".to_string()),
            ..PartialSideChannelConfig::default()
        }),
        ..PartialConfig::default()
    };
    let err = load_from(ConfigSource::Parsed {
        config: parsed,
        canonical_paths: Vec::new(),
    })
    .unwrap_err();
    assert_eq!(err.to_string(), "side_channel.remote_name cannot be empty");
}

#[test]
fn duplicate_repository_after_canonicalization_fails() {
    let entry = |p: &str| PartialRepositoryConfig {
        path: p.to_string(),
        ..PartialRepositoryConfig::default()
    };
    let parsed = PartialConfig {
        repositories: Some(vec![entry("/a"), entry("/link-to-a")]),
        ..PartialConfig::default()
    };
    let err = load_from(ConfigSource::Parsed {
        config: parsed,
        canonical_paths: vec!["/a".to_string(), "/a".to_string()],
    })
    .unwrap_err();
    assert_eq!(
        err.to_string(),
        "repositories[1] duplicates repository path /link-to-a"
    );
}

#[test]
fn empty_repository_path_fails() {
    let mut cfg = defaults();
    cfg.repositories = vec![repo_config("/a", true), repo_config("", true)];
    let err = validate(&cfg).unwrap_err();
    assert_eq!(err.to_string(), "repositories[1].path cannot be empty");
    assert!(matches!(err, ConfigError::EmptyRepositoryPath { index: 1 }));
}

#[test]
fn blank_repository_branch_override_fails() {
    let mut cfg = defaults();
    let mut r = repo_config("/a", true);
    r.side_channel.branch_name = Some("\t".to_string());
    cfg.repositories = vec![r];
    assert_eq!(
        validate(&cfg).unwrap_err().to_string(),
        "repositories[0].side_channel.branch_name cannot be empty"
    );
    let mut ok = defaults();
    ok.repositories = vec![repo_config("/a", true), repo_config("/b", false)];
    assert!(validate(&ok).is_ok());
}

#[test]
fn blank_template_fails() {
    let mut cfg = defaults();
    cfg.commit_template = " \n".to_string();
    assert!(matches!(validate(&cfg), Err(ConfigError::EmptyTemplate)));
}
