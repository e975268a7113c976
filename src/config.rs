//! Effective configuration: built-in defaults, the configuration file,
//! per-repository overrides and command-line flags, layered in that order.
use vstd::prelude::*;
use vstd::string::*;
use crate::cli::RunArgs;
use crate::text::{decimal, decimal_text, has_prefix, is_blank, is_blank_seq, views};

verus! {

/// What a run does by default: the full sync, or only pulling.
#[derive(Debug, Clone, Copy, PartialEq, Eq, Structural)]
pub enum RunMode {
    SyncAll,
    PullOnly,
}

/// What the runner does after a repository fails: go on with the next.
#[derive(Debug, Clone, Copy, PartialEq, Eq, Structural)]
pub enum FailurePolicy {
    Continue,
}

/// The side-channel descriptor: whether it is used, the auxiliary remote and
/// the branch on it.
#[derive(Debug, Clone)]
pub struct SideChannelConfig {
    pub enabled: bool,
    pub remote_name: String,
    pub branch_name: String,
}

impl PartialEq for SideChannelConfig {
    fn eq(&self, o: &SideChannelConfig) -> (r: bool) {
        self.enabled == o.enabled && self.remote_name == o.remote_name && self.branch_name
            == o.branch_name
    }
}

impl vstd::std_specs::cmp::PartialEqSpecImpl for SideChannelConfig {
    open spec fn obeys_eq_spec() -> bool {
        true
    }

    open spec fn eq_spec(&self, o: &SideChannelConfig) -> bool {
        self.enabled == o.enabled && self.remote_name@ == o.remote_name@ && self.branch_name@
            == o.branch_name@
    }
}

/// Per-repository side-channel overrides; an absent field keeps the global one.
#[derive(Debug, Clone)]
pub struct ResolvedRepositorySideChannelConfig {
    pub enabled: Option<bool>,
    pub remote_name: Option<String>,
    pub branch_name: Option<String>,
}

impl Default for ResolvedRepositorySideChannelConfig {
    fn default() -> (r: Self)
        ensures
            r.enabled is None && r.remote_name is None && r.branch_name is None,
    {
        ResolvedRepositorySideChannelConfig { enabled: None, remote_name: None, branch_name: None }
    }
}

/// A configured repository, keyed by its canonical path.
#[derive(Debug, Clone)]
pub struct ResolvedRepositoryConfig {
    pub path: String,
    pub enabled: bool,
    pub include_untracked: Option<bool>,
    pub side_channel: ResolvedRepositorySideChannelConfig,
}

/// The configuration after the file has been applied over the defaults.
#[derive(Debug, Clone)]
pub struct ResolvedConfig {
    pub default_mode: RunMode,
    pub push_enabled: bool,
    pub include_untracked: bool,
    pub side_channel: SideChannelConfig,
    pub commit_template: String,
    pub failure_policy: FailurePolicy,
    pub repositories: Vec<ResolvedRepositoryConfig>,
}

/// The effective configuration of one run (or of one repository in it).
#[derive(Debug, Clone)]
pub struct ResolvedRunConfig {
    pub push_enabled: bool,
    pub include_untracked: bool,
    pub side_channel: SideChannelConfig,
    pub commit_template: String,
    pub failure_policy: FailurePolicy,
}

impl PartialEq for ResolvedRunConfig {
    fn eq(&self, o: &ResolvedRunConfig) -> (r: bool) {
        self.push_enabled == o.push_enabled && self.include_untracked == o.include_untracked
            && self.side_channel == o.side_channel && self.commit_template == o.commit_template
            && self.failure_policy == o.failure_policy
    }
}

impl vstd::std_specs::cmp::PartialEqSpecImpl for ResolvedRunConfig {
    open spec fn obeys_eq_spec() -> bool {
        true
    }

    open spec fn eq_spec(&self, o: &ResolvedRunConfig) -> bool {
        self.push_enabled == o.push_enabled && self.include_untracked == o.include_untracked
            && self.side_channel.enabled == o.side_channel.enabled
            && self.side_channel.remote_name@ == o.side_channel.remote_name@
            && self.side_channel.branch_name@ == o.side_channel.branch_name@ && self.commit_template@
            == o.commit_template@ && self.failure_policy == o.failure_policy
    }
}

/// `v`, unless an override is present.
pub open spec fn overridden<T>(v: T, o: Option<T>) -> T {
    match o {
        Some(x) => x,
        None => v,
    }
}

/// `include_untracked` after the flags: `--tracked-only` and
/// `--include-untracked` win over the value below them.
pub open spec fn untracked_after_flags(v: bool, args: RunArgs) -> bool {
    if args.tracked_only {
        false
    } else if args.include_untracked {
        true
    } else {
        v
    }
}

/// `side_channel.enabled` after the flags `--no-side-channel` and `--side-channel`.
pub open spec fn side_after_flags(v: bool, args: RunArgs) -> bool {
    if args.no_side_channel {
        false
    } else if args.side_channel {
        true
    } else {
        v
    }
}

/// The run mode after `--pull-only` and `--push` (which wins).
pub open spec fn mode_after_flags(m: RunMode, args: RunArgs) -> RunMode {
    if args.push {
        RunMode::SyncAll
    } else if args.pull_only {
        RunMode::PullOnly
    } else {
        m
    }
}

/// Two flags that were given together but exclude each other.
#[derive(Debug, Clone, Copy, PartialEq, Eq, Structural)]
pub enum FlagConflict {
    PullOnlyAndPush,
    IncludeUntrackedAndTrackedOnly,
    SideChannelAndNoSideChannel,
}

/// The first excluded pair of flags in `args`, if any.
pub open spec fn flag_conflict(args: RunArgs) -> Option<FlagConflict> {
    if args.pull_only && args.push {
        Some(FlagConflict::PullOnlyAndPush)
    } else if args.include_untracked && args.tracked_only {
        Some(FlagConflict::IncludeUntrackedAndTrackedOnly)
    } else if args.side_channel && args.no_side_channel {
        Some(FlagConflict::SideChannelAndNoSideChannel)
    } else {
        None
    }
}

impl SideChannelConfig {
    /// This descriptor with a repository's overrides applied.
    pub open spec fn with_overrides(self, o: ResolvedRepositorySideChannelConfig) -> SideChannelConfig {
        SideChannelConfig {
            enabled: overridden(self.enabled, o.enabled),
            remote_name: overridden(self.remote_name, o.remote_name),
            branch_name: overridden(self.branch_name, o.branch_name),
        }
    }

    pub(crate) fn copy_of(&self) -> (r: SideChannelConfig)
        ensures
            r == *self,
    {
        SideChannelConfig {
            enabled: self.enabled,
            remote_name: self.remote_name.clone(),
            branch_name: self.branch_name.clone(),
        }
    }
}

impl ResolvedRunConfig {
    /// This configuration with the command-line flags applied.
    pub open spec fn with_flags(self, args: RunArgs) -> ResolvedRunConfig {
        ResolvedRunConfig {
            include_untracked: untracked_after_flags(self.include_untracked, args),
            side_channel: SideChannelConfig {
                enabled: side_after_flags(self.side_channel.enabled, args),
                ..self.side_channel
            },
            ..self
        }
    }

    /// This configuration with a repository's overrides applied.
    pub open spec fn with_repo(self, repo: ResolvedRepositoryConfig) -> ResolvedRunConfig {
        ResolvedRunConfig {
            include_untracked: overridden(self.include_untracked, repo.include_untracked),
            side_channel: self.side_channel.with_overrides(repo.side_channel),
            ..self
        }
    }

    pub(crate) fn copy_of(&self) -> (r: ResolvedRunConfig)
        ensures
            r == *self,
    {
        ResolvedRunConfig {
            push_enabled: self.push_enabled,
            include_untracked: self.include_untracked,
            side_channel: self.side_channel.copy_of(),
            commit_template: self.commit_template.clone(),
            failure_policy: self.failure_policy,
        }
    }
}

impl ResolvedConfig {
    /// The run configuration that this configuration and the flags give.
    pub open spec fn run_config(self, args: RunArgs) -> ResolvedRunConfig {
        ResolvedRunConfig {
            push_enabled: mode_after_flags(self.default_mode, args) == RunMode::SyncAll
                && self.push_enabled,
            include_untracked: self.include_untracked,
            side_channel: self.side_channel,
            commit_template: self.commit_template,
            failure_policy: self.failure_policy,
        }.with_flags(args)
    }
}

/// Refuses excluded pairs of flags.
pub fn validate_run_args(args: &RunArgs) -> (r: Result<(), FlagConflict>)
    ensures
        r is Ok <==> flag_conflict(*args) is None,
        r matches Err(e) ==> flag_conflict(*args) == Some(e),
{
    if args.pull_only && args.push {
        return Err(FlagConflict::PullOnlyAndPush);
    }
    if args.include_untracked && args.tracked_only {
        return Err(FlagConflict::IncludeUntrackedAndTrackedOnly);
    }
    if args.side_channel && args.no_side_channel {
        return Err(FlagConflict::SideChannelAndNoSideChannel);
    }
    Ok(())
}

fn apply_repo_side_channel_overrides(
    side_channel: &mut SideChannelConfig,
    overrides: &ResolvedRepositorySideChannelConfig,
)
    ensures
        *final(side_channel) == old(side_channel).with_overrides(*overrides),
{
    if let Some(enabled) = overrides.enabled {
        side_channel.enabled = enabled;
    }
    if let Some(remote_name) = &overrides.remote_name {
        side_channel.remote_name = remote_name.clone();
    }
    if let Some(branch_name) = &overrides.branch_name {
        side_channel.branch_name = branch_name.clone();
    }
}

fn apply_repo_overrides(config: &mut ResolvedRunConfig, repo: &ResolvedRepositoryConfig)
    ensures
        *final(config) == old(config).with_repo(*repo),
{
    if let Some(include_untracked) = repo.include_untracked {
        config.include_untracked = include_untracked;
    }
    apply_repo_side_channel_overrides(&mut config.side_channel, &repo.side_channel);
}

fn apply_cli_overrides(config: &mut ResolvedRunConfig, args: &RunArgs)
    ensures
        *final(config) == old(config).with_flags(*args),
{
    if args.include_untracked {
        config.include_untracked = true;
    }
    if args.tracked_only {
        config.include_untracked = false;
    }
    if args.side_channel {
        config.side_channel.enabled = true;
    }
    if args.no_side_channel {
        config.side_channel.enabled = false;
    }
}

/// The run configuration of `base` under the flags; fails exactly when two
/// flags that exclude each other were both given.
pub fn resolve_run_config(base: &ResolvedConfig, args: &RunArgs) -> (r: Result<
    ResolvedRunConfig,
    ConfigError,
>)
    ensures
        r is Ok <==> flag_conflict(*args) is None,
        r matches Ok(c) ==> c == base.run_config(*args),
        r matches Err(e) ==> flag_conflict(*args) == Some(e->ConflictingFlags_0),
        r matches Err(e) ==> e is ConflictingFlags,
{
    if let Err(e) = validate_run_args(args) {
        return Err(ConfigError::ConflictingFlags(e));
    }
    let mut mode = base.default_mode;
    if args.pull_only {
        mode = RunMode::PullOnly;
    }
    if args.push {
        mode = RunMode::SyncAll;
    }
    let push_enabled = match mode {
        RunMode::PullOnly => false,
        RunMode::SyncAll => base.push_enabled,
    };
    let mut resolved = ResolvedRunConfig {
        push_enabled,
        include_untracked: base.include_untracked,
        side_channel: base.side_channel.copy_of(),
        commit_template: base.commit_template.clone(),
        failure_policy: base.failure_policy,
    };
    apply_cli_overrides(&mut resolved, args);
    Ok(resolved)
}

/// The configuration of one repository: the run's, then the repository's
/// overrides, then the flags again, so that flags win.
pub fn resolve_repo_run_config(
    base: &ResolvedRunConfig,
    args: &RunArgs,
    repo: &ResolvedRepositoryConfig,
) -> (r: ResolvedRunConfig)
    ensures
        r == base.with_repo(*repo).with_flags(*args),
{
    let mut resolved = base.copy_of();
    apply_repo_overrides(&mut resolved, repo);
    apply_cli_overrides(&mut resolved, args);
    resolved
}


/// Why a configuration was refused.
#[derive(Debug, Clone)]
pub enum ConfigError {
    ConflictingFlags(FlagConflict),
    EmptyRemoteName,
    EmptyBranchName,
    EmptyTemplate,
    EmptyRepositoryPath { index: usize },
    DuplicateRepository { index: usize, path: String },
    EmptyRepositoryRemoteName { index: usize },
    EmptyRepositoryBranchName { index: usize },
    /// The file could not be read or parsed.
    Malformed { detail: String },
}

/// The text that reports a configuration error.
pub open spec fn config_error_text(e: ConfigError) -> Seq<char> {
    match e {
        ConfigError::ConflictingFlags(FlagConflict::PullOnlyAndPush) =>
            "--pull-only and --push cannot be used together"@,
        ConfigError::ConflictingFlags(FlagConflict::IncludeUntrackedAndTrackedOnly) =>
            "--include-untracked and --tracked-only cannot be used together"@,
        ConfigError::ConflictingFlags(FlagConflict::SideChannelAndNoSideChannel) =>
            "--side-channel and --no-side-channel cannot be used together"@,
        ConfigError::EmptyRemoteName => "side_channel.remote_name cannot be empty"@,
        ConfigError::EmptyBranchName => "side_channel.branch_name cannot be empty"@,
        ConfigError::EmptyTemplate => "commit.message_template cannot be empty"@,
        ConfigError::EmptyRepositoryPath { index } => "repositories["@ + decimal(index as nat)
            + "].path cannot be empty"@,
        ConfigError::DuplicateRepository { index, path } => "repositories["@ + decimal(
            index as nat,
        ) + "] duplicates repository path "@ + path@,
        ConfigError::EmptyRepositoryRemoteName { index } => "repositories["@ + decimal(
            index as nat,
        ) + "].side_channel.remote_name cannot be empty"@,
        ConfigError::EmptyRepositoryBranchName { index } => "repositories["@ + decimal(
            index as nat,
        ) + "].side_channel.branch_name cannot be empty"@,
        ConfigError::Malformed { detail } => detail@,
    }
}

fn indexed(index: usize, rest: &str) -> (r: String)
    ensures
        r@ == "repositories["@ + decimal(index as nat) + rest@,
{
    let mut r = String::from_str("repositories[");
    let d = decimal_text(index);
    r.append(d.as_str());
    r.append(rest);
    r
}

impl ConfigError {
    /// The text that reports this error.
    pub fn to_string(&self) -> (r: String)
        ensures
            r@ == config_error_text(*self),
    {
        match self {
            ConfigError::ConflictingFlags(FlagConflict::PullOnlyAndPush) => String::from_str(
                "--pull-only and --push cannot be used together",
            ),
            ConfigError::ConflictingFlags(FlagConflict::IncludeUntrackedAndTrackedOnly) =>
                String::from_str("--include-untracked and --tracked-only cannot be used together"),
            ConfigError::ConflictingFlags(FlagConflict::SideChannelAndNoSideChannel) =>
                String::from_str("--side-channel and --no-side-channel cannot be used together"),
            ConfigError::EmptyRemoteName => String::from_str(
                "side_channel.remote_name cannot be empty",
            ),
            ConfigError::EmptyBranchName => String::from_str(
                "side_channel.branch_name cannot be empty",
            ),
            ConfigError::EmptyTemplate => String::from_str("commit.message_template cannot be empty"),
            ConfigError::EmptyRepositoryPath { index } => indexed(*index, "].path cannot be empty"),
            ConfigError::DuplicateRepository { index, path } => {
                let mut r = indexed(*index, "] duplicates repository path ");
                r.append(path.as_str());
                r
            },
            ConfigError::EmptyRepositoryRemoteName { index } => indexed(
                *index,
                "].side_channel.remote_name cannot be empty",
            ),
            ConfigError::EmptyRepositoryBranchName { index } => indexed(
                *index,
                "].side_channel.branch_name cannot be empty",
            ),
            ConfigError::Malformed { detail } => detail.clone(),
        }
    }
}

/// The built-in configuration.
pub open spec fn is_default(c: ResolvedConfig) -> bool {
    &&& c.default_mode == RunMode::SyncAll
    &&& c.push_enabled
    &&& !c.include_untracked
    &&& !c.side_channel.enabled
    &&& c.side_channel.remote_name@ == "shephard"@
    &&& c.side_channel.branch_name@ == "shephard/sync"@
    &&& c.commit_template@ == "shephard sync: {timestamp} {hostname} [{scope}]"@
    &&& c.failure_policy == FailurePolicy::Continue
    &&& c.repositories@.len() == 0
}

/// The built-in configuration: sync all, push on, tracked files only, side
/// channel off (remote `shephard`, branch `shephard/sync`).
pub fn defaults() -> (c: ResolvedConfig)
    ensures
        is_default(c),
{
    ResolvedConfig {
        default_mode: RunMode::SyncAll,
        push_enabled: true,
        include_untracked: false,
        side_channel: SideChannelConfig {
            enabled: false,
            remote_name: String::from_str("shephard"),
            branch_name: String::from_str("shephard/sync"),
        },
        commit_template: String::from_str("shephard sync: {timestamp} {hostname} [{scope}]"),
        failure_policy: FailurePolicy::Continue,
        repositories: Vec::new(),
    }
}

/// The problem of the `i`-th configured repository, given that those before
/// it have none.
pub open spec fn repo_problem(repos: Seq<ResolvedRepositoryConfig>, i: int) -> Option<ConfigError> {
    let r = repos[i];
    if r.path@.len() == 0 {
        Some(ConfigError::EmptyRepositoryPath { index: i as usize })
    } else if exists|j: int| 0 <= j < i && #[trigger] repos[j].path@ == r.path@ {
        Some(ConfigError::DuplicateRepository { index: i as usize, path: r.path })
    } else if r.side_channel.remote_name matches Some(n) && is_blank_seq(n@) {
        Some(ConfigError::EmptyRepositoryRemoteName { index: i as usize })
    } else if r.side_channel.branch_name matches Some(n) && is_blank_seq(n@) {
        Some(ConfigError::EmptyRepositoryBranchName { index: i as usize })
    } else {
        None
    }
}

/// The first problem of a configuration, in the order in which it is checked.
pub open spec fn config_problem(c: ResolvedConfig) -> Option<ConfigError> {
    let repos = c.repositories@;
    if is_blank_seq(c.side_channel.remote_name@) {
        Some(ConfigError::EmptyRemoteName)
    } else if is_blank_seq(c.side_channel.branch_name@) {
        Some(ConfigError::EmptyBranchName)
    } else if is_blank_seq(c.commit_template@) {
        Some(ConfigError::EmptyTemplate)
    } else if exists|i: int| 0 <= i < repos.len() && #[trigger] repo_problem(repos, i) is Some {
        let i = choose|i: int|
            0 <= i < repos.len() && #[trigger] repo_problem(repos, i) is Some && forall|j: int|
                0 <= j < i ==> repo_problem(repos, j) is None;
        repo_problem(repos, i)
    } else {
        None
    }
}

/// Checks names, the template and the repository list: blank names or
/// template, empty or repeated repository paths are refused.
pub fn validate(cfg: &ResolvedConfig) -> (r: Result<(), ConfigError>)
    ensures
        r is Ok <==> config_problem(*cfg) is None,
        r matches Err(e) ==> config_problem(*cfg) == Some(e),
{
    if is_blank(cfg.side_channel.remote_name.as_str()) {
        return Err(ConfigError::EmptyRemoteName);
    }
    if is_blank(cfg.side_channel.branch_name.as_str()) {
        return Err(ConfigError::EmptyBranchName);
    }
    if is_blank(cfg.commit_template.as_str()) {
        return Err(ConfigError::EmptyTemplate);
    }
    let ghost repos = cfg.repositories@;
    let mut i: usize = 0;
    while i < cfg.repositories.len()
        invariant
            repos == cfg.repositories@,
            i <= repos.len(),
            !is_blank_seq(cfg.side_channel.remote_name@),
            !is_blank_seq(cfg.side_channel.branch_name@),
            !is_blank_seq(cfg.commit_template@),
            forall|j: int| 0 <= j < i ==> #[trigger] repo_problem(repos, j) is None,
        decreases repos.len() - i,
    {
        let r = &cfg.repositories[i];
        let mut problem: Option<ConfigError> = None;
        if r.path.unicode_len() == 0 {
            problem = Some(ConfigError::EmptyRepositoryPath { index: i });
        } else {
            let mut j: usize = 0;
            let mut dup = false;
            while j < i && !dup
                invariant
                    repos == cfg.repositories@,
                    i < repos.len(),
                    j <= i,
                    *r == repos[i as int],
                    !dup ==> forall|k: int| 0 <= k < j ==> repos[k].path@ != r.path@,
                    dup ==> exists|k: int| 0 <= k < i && #[trigger] repos[k].path@ == r.path@,
                decreases i - j + (if dup { 0int } else { 1int }),
            {
                if cfg.repositories[j].path == r.path {
                    assert(repos[j as int].path@ == r.path@);
                    dup = true;
                } else {
                    j = j + 1;
                }
            }
            if dup {
                problem = Some(ConfigError::DuplicateRepository { index: i, path: r.path.clone() });
            }
            if problem.is_none() {
                assert(!exists|k: int| 0 <= k < i && #[trigger] repos[k].path@ == r.path@);
                if let Some(n) = &r.side_channel.remote_name {
                    if is_blank(n.as_str()) {
                        problem = Some(ConfigError::EmptyRepositoryRemoteName { index: i });
                    }
                }
                if problem.is_none() {
                    if let Some(n) = &r.side_channel.branch_name {
                        if is_blank(n.as_str()) {
                            problem = Some(ConfigError::EmptyRepositoryBranchName { index: i });
                        }
                    }
                }
            }
        }
        if let Some(e) = problem {
            assert(repo_problem(repos, i as int) == Some(e));
            proof {
                let ii = i as int;
                assert(0 <= ii < repos.len() && repo_problem(repos, ii) is Some && forall|j: int|
                    0 <= j < ii ==> repo_problem(repos, j) is None);
                let k = choose|k: int|
                    0 <= k < repos.len() && #[trigger] repo_problem(repos, k) is Some && forall|j: int|
                        0 <= j < k ==> repo_problem(repos, j) is None;
                if k < ii {
                    assert(repo_problem(repos, k) is None);
                }
                if k > ii {
                    assert(repo_problem(repos, ii) is None);
                }
                assert(k == ii);
            }
            return Err(e);
        }
        assert(repo_problem(repos, i as int) is None);
        i = i + 1;
    }
    assert(!exists|k: int| 0 <= k < repos.len() && #[trigger] repo_problem(repos, k) is Some);
    Ok(())
}

/// The configured repositories that are enabled, in order.
pub fn enabled_repositories(config: &ResolvedConfig) -> (r: Vec<ResolvedRepositoryConfig>)
    ensures
        r@ == config.repositories@.filter(|c: ResolvedRepositoryConfig| c.enabled),
{
    let ghost all = config.repositories@;
    let mut r: Vec<ResolvedRepositoryConfig> = Vec::new();
    let mut i: usize = 0;
    while i < config.repositories.len()
        invariant
            all == config.repositories@,
            i <= all.len(),
            r@ == all.take(i as int).filter(|c: ResolvedRepositoryConfig| c.enabled),
        decreases all.len() - i,
    {
        proof {
            reveal(Seq::filter);
            assert(all.take(i + 1).drop_last() =~= all.take(i as int));
        }
        let repo = &config.repositories[i];
        if repo.enabled {
            r.push(repo.copy_of());
        }
        i = i + 1;
    }
    assert(all.take(all.len() as int) =~= all);
    r
}

impl ResolvedRepositorySideChannelConfig {
    pub(crate) fn copy_of(&self) -> (r: Self)
        ensures
            r == *self,
    {
        ResolvedRepositorySideChannelConfig {
            enabled: self.enabled,
            remote_name: copy_text(&self.remote_name),
            branch_name: copy_text(&self.branch_name),
        }
    }
}

impl ResolvedRepositoryConfig {
    pub(crate) fn copy_of(&self) -> (r: Self)
        ensures
            r == *self,
    {
        ResolvedRepositoryConfig {
            path: self.path.clone(),
            enabled: self.enabled,
            include_untracked: self.include_untracked,
            side_channel: self.side_channel.copy_of(),
        }
    }
}

pub(crate) fn copy_text(o: &Option<String>) -> (r: Option<String>)
    ensures
        r == *o,
{
    match o {
        Some(s) => Some(s.clone()),
        None => None,
    }
}

/// The side channel that `apply` uses for the repository with canonical path
/// `repo`: the global one, with the overrides of the first configured
/// repository of that path, if any.
pub fn resolve_apply_side_channel(config: &ResolvedConfig, repo: &str) -> (r: SideChannelConfig)
    ensures
        (forall|i: int|
            0 <= i < config.repositories@.len() ==> #[trigger] config.repositories@[i].path@
                != repo@) ==> r == config.side_channel,
        forall|i: int|
            0 <= i < config.repositories@.len() && #[trigger] config.repositories@[i].path@ == repo@
                && (forall|j: int| 0 <= j < i ==> config.repositories@[j].path@ != repo@) ==> r
                == config.side_channel.with_overrides(config.repositories@[i].side_channel),
{
    let key = String::from_str(repo);
    let mut i: usize = 0;
    while i < config.repositories.len()
        invariant
            i <= config.repositories@.len(),
            key@ == repo@,
            forall|j: int| 0 <= j < i ==> config.repositories@[j].path@ != repo@,
        decreases config.repositories@.len() - i,
    {
        let configured = &config.repositories[i];
        if configured.path == key {
            let mut side_channel = config.side_channel.copy_of();
            apply_repo_side_channel_overrides(&mut side_channel, &configured.side_channel);
            return side_channel;
        }
        i = i + 1;
    }
    config.side_channel.copy_of()
}


/// The side-channel table of the configuration file, as written.
#[derive(Debug, Clone, Default)]
pub struct PartialSideChannelConfig {
    pub enabled: Option<bool>,
    pub remote_name: Option<String>,
    pub branch_name: Option<String>,
}

/// The commit table of the configuration file, as written.
#[derive(Debug, Clone, Default)]
pub struct PartialCommitConfig {
    pub message_template: Option<String>,
}

/// A `[[repositories]]` entry of the configuration file, as written.
#[derive(Debug, Clone, Default)]
pub struct PartialRepositoryConfig {
    pub path: String,
    pub enabled: Option<bool>,
    pub include_untracked: Option<bool>,
    pub side_channel: Option<PartialSideChannelConfig>,
}

/// The configuration file, as written: every field optional.
#[derive(Debug, Clone, Default)]
pub struct PartialConfig {
    pub default_mode: Option<RunMode>,
    pub push_enabled: Option<bool>,
    pub include_untracked: Option<bool>,
    pub side_channel: Option<PartialSideChannelConfig>,
    pub commit: Option<PartialCommitConfig>,
    pub failure_policy: Option<FailurePolicy>,
    pub repositories: Option<Vec<PartialRepositoryConfig>>,
}

/// What was found where the configuration file belongs.
#[derive(Debug)]
pub enum ConfigSource {
    /// No file.
    Missing,
    /// A file that could not be read or parsed, and why.
    Malformed(String),
    /// A parsed file, with the canonical path of each repository entry (in
    /// the order of the entries).
    Parsed { config: PartialConfig, canonical_paths: Vec<String> },
}

/// The configured repository that an entry with canonical path `canonical`
/// becomes: enabled unless it says otherwise.
pub open spec fn resolved_repo(p: PartialRepositoryConfig, canonical: String) -> ResolvedRepositoryConfig {
    ResolvedRepositoryConfig {
        path: canonical,
        enabled: overridden(true, p.enabled),
        include_untracked: p.include_untracked,
        side_channel: match p.side_channel {
            Some(s) => ResolvedRepositorySideChannelConfig {
                enabled: s.enabled,
                remote_name: s.remote_name,
                branch_name: s.branch_name,
            },
            None => ResolvedRepositorySideChannelConfig {
                enabled: None,
                remote_name: None,
                branch_name: None,
            },
        },
    }
}

/// The problem of the `i`-th entry, given that those before it have none:
/// an empty path, or a canonical path seen before.
pub open spec fn entry_problem(ps: Seq<PartialRepositoryConfig>, canon: Seq<String>, i: int) -> Option<
    ConfigError,
> {
    if ps[i].path@.len() == 0 {
        Some(ConfigError::EmptyRepositoryPath { index: i as usize })
    } else if exists|j: int| 0 <= j < i && #[trigger] canon[j]@ == canon[i]@ {
        Some(ConfigError::DuplicateRepository { index: i as usize, path: ps[i].path })
    } else {
        None
    }
}

/// The first problem among the entries.
pub open spec fn entries_problem(ps: Seq<PartialRepositoryConfig>, canon: Seq<String>) -> Option<
    ConfigError,
> {
    if exists|i: int| 0 <= i < ps.len() && #[trigger] entry_problem(ps, canon, i) is Some {
        let i = choose|i: int|
            0 <= i < ps.len() && #[trigger] entry_problem(ps, canon, i) is Some && forall|j: int|
                0 <= j < i ==> entry_problem(ps, canon, j) is None;
        entry_problem(ps, canon, i)
    } else {
        None
    }
}

/// The configured repositories of the file's entries, keyed by canonical
/// path; refused on an empty path or a repeated canonical path.
pub fn resolve_repositories(
    partials: &Vec<PartialRepositoryConfig>,
    canonical_paths: &Vec<String>,
) -> (r: Result<Vec<ResolvedRepositoryConfig>, ConfigError>)
    requires
        partials@.len() == canonical_paths@.len(),
    ensures
        r is Ok <==> entries_problem(partials@, canonical_paths@) is None,
        r matches Err(e) ==> entries_problem(partials@, canonical_paths@) == Some(e),
        r matches Ok(v) ==> v@.len() == partials@.len() && forall|i: int|
            0 <= i < v@.len() ==> #[trigger] v@[i] == resolved_repo(
                partials@[i],
                canonical_paths@[i],
            ),
{
    let ghost ps = partials@;
    let ghost canon = canonical_paths@;
    let mut resolved: Vec<ResolvedRepositoryConfig> = Vec::new();
    let mut i: usize = 0;
    while i < partials.len()
        invariant
            ps == partials@,
            canon == canonical_paths@,
            ps.len() == canon.len(),
            i <= ps.len(),
            resolved@.len() == i,
            forall|j: int| 0 <= j < i ==> #[trigger] entry_problem(ps, canon, j) is None,
            forall|j: int| 0 <= j < i ==> #[trigger] resolved@[j] == resolved_repo(ps[j], canon[j]),
        decreases ps.len() - i,
    {
        let partial = &partials[i];
        let mut problem: Option<ConfigError> = None;
        if partial.path.unicode_len() == 0 {
            problem = Some(ConfigError::EmptyRepositoryPath { index: i });
        } else {
            let mut j: usize = 0;
            let mut dup = false;
            while j < i && !dup
                invariant
                    ps == partials@,
                    canon == canonical_paths@,
                    ps.len() == canon.len(),
                    i < ps.len(),
                    j <= i,
                    !dup ==> forall|k: int| 0 <= k < j ==> canon[k]@ != canon[i as int]@,
                    dup ==> exists|k: int| 0 <= k < i && #[trigger] canon[k]@ == canon[i as int]@,
                decreases i - j + (if dup { 0int } else { 1int }),
            {
                if canonical_paths[j] == canonical_paths[i] {
                    assert(canon[j as int]@ == canon[i as int]@);
                    dup = true;
                } else {
                    j = j + 1;
                }
            }
            if dup {
                problem = Some(ConfigError::DuplicateRepository { index: i, path: partial.path.clone() });
            } else {
                assert(!exists|k: int| 0 <= k < i && #[trigger] canon[k]@ == canon[i as int]@);
            }
        }
        if let Some(e) = problem {
            proof {
                let ii = i as int;
                assert(entry_problem(ps, canon, ii) == Some(e));
                let k = choose|k: int|
                    0 <= k < ps.len() && #[trigger] entry_problem(ps, canon, k) is Some && forall|j: int|
                        0 <= j < k ==> entry_problem(ps, canon, j) is None;
                if k < ii {
                    assert(entry_problem(ps, canon, k) is None);
                }
                if k > ii {
                    assert(entry_problem(ps, canon, ii) is None);
                }
            }
            return Err(e);
        }
        let side_channel = match &partial.side_channel {
            Some(s) => ResolvedRepositorySideChannelConfig {
                enabled: s.enabled,
                remote_name: copy_text(&s.remote_name),
                branch_name: copy_text(&s.branch_name),
            },
            None => ResolvedRepositorySideChannelConfig::default(),
        };
        let enabled = match partial.enabled {
            Some(e) => e,
            None => true,
        };
        resolved.push(
            ResolvedRepositoryConfig {
                path: canonical_paths[i].clone(),
                enabled,
                include_untracked: partial.include_untracked,
                side_channel,
            },
        );
        i = i + 1;
    }
    assert(!exists|k: int| 0 <= k < ps.len() && #[trigger] entry_problem(ps, canon, k) is Some);
    Ok(resolved)
}

/// Where a relative entry path points: below the configuration's directory.
pub open spec fn joined_path(dir: Seq<char>, path: Seq<char>) -> Seq<char> {
    if has_prefix(path, "/"@) {
        path
    } else if dir.len() == 0 || dir.last() == '/' {
        dir + path
    } else {
        dir + "/"@ + path
    }
}

/// An entry path made absolute against the configuration's directory, as
/// `Path::join` does.
pub fn join_config_path(dir: &str, path: &str) -> (r: String)
    ensures
        r@ == joined_path(dir@, path@),
{
    if crate::text::starts_with(path, "/") {
        return String::from_str(path);
    }
    let n = dir.unicode_len();
    let mut r = String::from_str(dir);
    if n > 0 && dir.get_char(n - 1) != '/' {
        r.append("/");
    }
    r.append(path);
    r
}

/// `c` is what the file `p` makes of the defaults, its repository entries
/// having the canonical paths `canon`.
pub open spec fn from_file(c: ResolvedConfig, p: PartialConfig, canon: Seq<String>) -> bool {
    &&& c.default_mode == overridden(RunMode::SyncAll, p.default_mode)
    &&& c.push_enabled == overridden(true, p.push_enabled)
    &&& c.include_untracked == overridden(false, p.include_untracked)
    &&& c.side_channel.enabled == match p.side_channel {
        Some(s) => overridden(false, s.enabled),
        None => false,
    }
    &&& c.side_channel.remote_name@ == match p.side_channel {
        Some(s) => match s.remote_name {
            Some(n) => n@,
            None => "shephard"@,
        },
        None => "shephard"@,
    }
    &&& c.side_channel.branch_name@ == match p.side_channel {
        Some(s) => match s.branch_name {
            Some(n) => n@,
            None => "shephard/sync"@,
        },
        None => "shephard/sync"@,
    }
    &&& c.commit_template@ == match p.commit {
        Some(cm) => match cm.message_template {
            Some(t) => t@,
            None => "shephard sync: {timestamp} {hostname} [{scope}]"@,
        },
        None => "shephard sync: {timestamp} {hostname} [{scope}]"@,
    }
    &&& c.failure_policy == overridden(FailurePolicy::Continue, p.failure_policy)
    &&& match p.repositories {
        Some(v) => c.repositories@.len() == v@.len() && forall|i: int|
            0 <= i < v@.len() ==> #[trigger] c.repositories@[i] == resolved_repo(v@[i], canon[i]),
        None => c.repositories@.len() == 0,
    }
}

/// The problem of the file's repository entries, if it has any.
pub open spec fn file_entries_problem(p: PartialConfig, canon: Seq<String>) -> Option<ConfigError> {
    match p.repositories {
        Some(v) => entries_problem(v@, canon),
        None => None,
    }
}

/// The configuration from what was found: the defaults when there is no
/// file, a failure when it is malformed, else the file over the defaults,
/// refused when it does not validate.
pub fn load_from(source: ConfigSource) -> (r: Result<ResolvedConfig, ConfigError>)
    requires
        source matches ConfigSource::Parsed { config, canonical_paths } ==> (
        config.repositories matches Some(v) ==> v@.len() == canonical_paths@.len()),
    ensures
        source is Missing ==> (r matches Ok(c) && is_default(c)),
        source matches ConfigSource::Malformed(d) ==> r == Err::<ResolvedConfig, ConfigError>(
            ConfigError::Malformed { detail: d },
        ),
        source matches ConfigSource::Parsed { config, canonical_paths } ==> {
            let pr = file_entries_problem(config, canonical_paths@);
            &&& pr is Some ==> r == Err::<ResolvedConfig, ConfigError>(pr->Some_0)
            &&& r matches Ok(c) ==> pr is None && from_file(c, config, canonical_paths@)
                && config_problem(c) is None
            &&& r matches Err(e) ==> pr == Some(e) || (pr is None && exists|c: ResolvedConfig|
                from_file(c, config, canonical_paths@) && config_problem(c) == Some(e))
        },
{
    match source {
        ConfigSource::Missing => Ok(defaults()),
        ConfigSource::Malformed(detail) => Err(ConfigError::Malformed { detail }),
        ConfigSource::Parsed { config: p, canonical_paths } => {
            let ghost written = p;
            let mut cfg = defaults();
            if let Some(mode) = p.default_mode {
                cfg.default_mode = mode;
            }
            if let Some(enabled) = p.push_enabled {
                cfg.push_enabled = enabled;
            }
            if let Some(include_untracked) = p.include_untracked {
                cfg.include_untracked = include_untracked;
            }
            if let Some(side_channel) = p.side_channel {
                if let Some(enabled) = side_channel.enabled {
                    cfg.side_channel.enabled = enabled;
                }
                if let Some(remote_name) = side_channel.remote_name {
                    cfg.side_channel.remote_name = remote_name;
                }
                if let Some(branch_name) = side_channel.branch_name {
                    cfg.side_channel.branch_name = branch_name;
                }
            }
            if let Some(commit) = p.commit {
                if let Some(template) = commit.message_template {
                    cfg.commit_template = template;
                }
            }
            if let Some(policy) = p.failure_policy {
                cfg.failure_policy = policy;
            }
            if let Some(repositories) = &p.repositories {
                match resolve_repositories(repositories, &canonical_paths) {
                    Ok(v) => {
                        cfg.repositories = v;
                    },
                    Err(e) => {
                        return Err(e);
                    },
                }
            }
            assert(from_file(cfg, written, canonical_paths@));
            match validate(&cfg) {
                Ok(()) => Ok(cfg),
                Err(e) => Err(e),
            }
        },
    }
}


/// Why a requested repository was left out.
#[derive(Debug, Clone, Copy, PartialEq, Eq, Structural)]
pub enum SkipReason {
    /// It is configured but disabled.
    Disabled,
    /// It is not configured.
    NotConfigured,
}

/// A requested repository that was left out: its place in the request.
#[derive(Debug, Clone, Copy, PartialEq, Eq, Structural)]
pub struct Skipped {
    pub index: usize,
    pub reason: SkipReason,
}

/// The repositories a run targets, and the requested ones left out.
#[derive(Debug)]
pub struct TargetSelection {
    pub selected: Vec<ResolvedRepositoryConfig>,
    pub skipped: Vec<Skipped>,
}

/// The position of the last repository with path `key`.
pub open spec fn last_with_path(repos: Seq<ResolvedRepositoryConfig>, key: Seq<char>) -> Option<int>
    decreases repos.len(),
{
    if repos.len() == 0 {
        None
    } else if repos.last().path@ == key {
        Some(repos.len() - 1)
    } else {
        last_with_path(repos.drop_last(), key)
    }
}

/// The enabled repositories that the requested canonical paths name, in the
/// order of the request, each path taken once.
pub open spec fn selected_targets(req: Seq<Seq<char>>, enabled: Seq<ResolvedRepositoryConfig>) -> Seq<
    ResolvedRepositoryConfig,
>
    decreases req.len(),
{
    if req.len() == 0 {
        Seq::empty()
    } else {
        let prev = selected_targets(req.drop_last(), enabled);
        if req.drop_last().contains(req.last()) {
            prev
        } else {
            match last_with_path(enabled, req.last()) {
                Some(i) => prev.push(enabled[i]),
                None => prev,
            }
        }
    }
}

/// The requested paths left out, with the reason.
pub open spec fn skipped_targets(
    req: Seq<Seq<char>>,
    enabled: Seq<ResolvedRepositoryConfig>,
    all: Seq<ResolvedRepositoryConfig>,
) -> Seq<Skipped>
    decreases req.len(),
{
    if req.len() == 0 {
        Seq::empty()
    } else {
        let prev = skipped_targets(req.drop_last(), enabled, all);
        if req.drop_last().contains(req.last()) || last_with_path(enabled, req.last()) is Some {
            prev
        } else {
            let reason = if last_with_path(all, req.last()) is Some {
                SkipReason::Disabled
            } else {
                SkipReason::NotConfigured
            };
            prev.push(Skipped { index: (req.len() - 1) as usize, reason })
        }
    }
}

fn last_index_with_path(repos: &Vec<ResolvedRepositoryConfig>, key: &String) -> (r: Option<usize>)
    ensures
        r matches Some(i) ==> last_with_path(repos@, key@) == Some(i as int) && i < repos@.len(),
        r is None ==> last_with_path(repos@, key@) is None,
{
    let mut k = repos.len();
    assert(repos@.take(k as int) =~= repos@);
    while k > 0
        invariant
            k <= repos@.len(),
            last_with_path(repos@, key@) == last_with_path(repos@.take(k as int), key@),
        decreases k,
    {
        assert(repos@.take(k as int).drop_last() =~= repos@.take(k - 1));
        if repos[k - 1].path == *key {
            return Some(k - 1);
        }
        k = k - 1;
    }
    None
}

/// The targets of a run. Without requested paths, all enabled repositories.
/// Otherwise the enabled repositories that the requested canonical paths
/// name, in request order, each once; the others are reported as disabled or
/// not configured.
pub fn resolve_configured_targets(
    requested: &Vec<String>,
    enabled_repositories: &Vec<ResolvedRepositoryConfig>,
    all_repositories: &Vec<ResolvedRepositoryConfig>,
) -> (r: TargetSelection)
    ensures
        requested@.len() == 0 ==> r.selected@ == enabled_repositories@ && r.skipped@.len() == 0,
        requested@.len() > 0 ==> r.selected@ == selected_targets(views(requested@), enabled_repositories@)
            && r.skipped@ == skipped_targets(views(requested@), enabled_repositories@, all_repositories@),
{
    let mut selected: Vec<ResolvedRepositoryConfig> = Vec::new();
    let mut skipped: Vec<Skipped> = Vec::new();
    if requested.len() == 0 {
        let mut i: usize = 0;
        while i < enabled_repositories.len()
            invariant
                i <= enabled_repositories@.len(),
                selected@ == enabled_repositories@.take(i as int),
            decreases enabled_repositories@.len() - i,
        {
            selected.push(enabled_repositories[i].copy_of());
            assert(selected@ =~= enabled_repositories@.take(i + 1));
            i = i + 1;
        }
        assert(enabled_repositories@.take(i as int) =~= enabled_repositories@);
        return TargetSelection { selected, skipped };
    }
    let ghost req = views(requested@);
    let mut i: usize = 0;
    while i < requested.len()
        invariant
            req == views(requested@),
            i <= requested@.len(),
            selected@ == selected_targets(req.take(i as int), enabled_repositories@),
            skipped@ == skipped_targets(req.take(i as int), enabled_repositories@, all_repositories@),
        decreases requested@.len() - i,
    {
        let key = &requested[i];
        let ghost pre = req.take(i as int);
        assert(req.take(i + 1).drop_last() =~= pre);
        assert(req.take(i + 1).last() == key@);
        let mut seen = false;
        let mut j: usize = 0;
        while j < i && !seen
            invariant
                req == views(requested@),
                i < requested@.len(),
                j <= i,
                *key == requested@[i as int],
                pre == req.take(i as int),
                !seen ==> forall|m: int| 0 <= m < j ==> pre[m] != key@,
                seen ==> pre.contains(key@),
            decreases i - j + (if seen { 0int } else { 1int }),
        {
            if requested[j] == *key {
                assert(pre[j as int] == key@);
                seen = true;
            } else {
                j = j + 1;
            }
        }
        if !seen {
            match last_index_with_path(enabled_repositories, key) {
                Some(k) => {
                    selected.push(enabled_repositories[k].copy_of());
                },
                None => {
                    let reason = match last_index_with_path(all_repositories, key) {
                        Some(_) => SkipReason::Disabled,
                        None => SkipReason::NotConfigured,
                    };
                    skipped.push(Skipped { index: i, reason });
                },
            }
        }
        i = i + 1;
    }
    assert(req.take(requested@.len() as int) =~= req);
    TargetSelection { selected, skipped }
}

} // verus!
