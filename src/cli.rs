//! The command line as plain values: what `run` and `apply` were asked to do.
use vstd::prelude::*;

verus! {

/// The whole command line: an optional subcommand (`run` when absent).
#[derive(Debug)]
pub struct Cli {
    pub command: Option<Command>,
}

/// The two subcommands.
#[derive(Debug)]
pub enum Command {
    Run(RunArgs),
    Apply(ApplyArgs),
}

/// Flags of `run`. Paths are written as given.
#[derive(Debug, Clone)]
pub struct RunArgs {
    pub non_interactive: bool,
    pub repos: Vec<String>,
    pub pull_only: bool,
    pub push: bool,
    pub include_untracked: bool,
    pub tracked_only: bool,
    pub side_channel: bool,
    pub no_side_channel: bool,
    pub roots: Vec<String>,
}

impl Default for RunArgs {
    fn default() -> (r: Self)
        ensures
            !r.non_interactive && !r.pull_only && !r.push && !r.include_untracked
                && !r.tracked_only && !r.side_channel && !r.no_side_channel,
            r.repos@.len() == 0,
            r.roots@.len() == 0,
    {
        RunArgs {
            non_interactive: false,
            repos: Vec::new(),
            pull_only: false,
            push: false,
            include_untracked: false,
            tracked_only: false,
            side_channel: false,
            no_side_channel: false,
            roots: Vec::new(),
        }
    }
}

/// Flags of `apply`: the working copy (the current directory when absent)
/// and how side-channel content is brought in.
#[derive(Debug, Clone)]
pub struct ApplyArgs {
    pub repo: Option<String>,
    pub method: ApplyMethodArg,
}

/// The three ways of bringing side-channel content into a working copy.
#[derive(Copy, Clone, Debug, PartialEq, Eq, Structural)]
pub enum ApplyMethodArg {
    Merge,
    CherryPick,
    Squash,
}

} // verus!
