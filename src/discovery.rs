//! The decisions of repository discovery: which directories a walk enters,
//! and the sorted, de-duplicated list of what it found.
use vstd::prelude::*;
use vstd::string::*;
use crate::order::{insert_sorted, strictly_sorted};
use crate::text::{has_prefix, views};

verus! {

/// A working copy, by canonical path.
#[derive(Debug, Clone)]
pub struct Repo {
    pub path: String,
}

/// The paths of repositories.
pub open spec fn repo_paths(v: Seq<Repo>) -> Seq<Seq<char>> {
    v.map_values(|r: Repo| r.path@)
}

/// A directory name that hides the directory.
pub fn is_hidden(name: &str) -> (r: bool)
    ensures
        r == has_prefix(name@, "."@),
{
    crate::text::starts_with(name, ".")
}

/// A walk enters a directory unless it is `.git`, or it is hidden (and not a
/// root) while hidden directories are skipped.
pub open spec fn descends(name: Seq<char>, depth: nat, descend_hidden_dirs: bool) -> bool {
    name != ".git"@ && (descend_hidden_dirs || depth == 0 || !has_prefix(name, "."@))
}

/// Whether a walk enters the directory `name` at `depth` below its root.
pub fn should_descend(name: &str, depth: usize, descend_hidden_dirs: bool) -> (r: bool)
    ensures
        r == descends(name@, depth as nat, descend_hidden_dirs),
{
    let git = String::from_str(".git");
    if String::from_str(name) == git {
        return false;
    }
    if descend_hidden_dirs || depth == 0 {
        return true;
    }
    !is_hidden(name)
}

/// The repositories at the canonical paths found, each once, in path order.
pub fn collect_repositories(found: &Vec<String>) -> (r: Vec<Repo>)
    ensures
        strictly_sorted(repo_paths(r@), true),
        repo_paths(r@).to_set() == views(found@).to_set(),
{
    let mut sorted: Vec<String> = Vec::new();
    let mut i: usize = 0;
    while i < found.len()
        invariant
            i <= found@.len(),
            strictly_sorted(views(sorted@), true),
            views(sorted@).to_set() == views(found@.take(i as int)).to_set(),
        decreases found@.len() - i,
    {
        insert_sorted(&mut sorted, found[i].clone(), true);
        assert(views(found@.take(i + 1)) =~= views(found@.take(i as int)).push(found@[i as int]@));
        proof {
            views(found@.take(i as int)).lemma_push_to_set_commute(found@[i as int]@);
        }
        i = i + 1;
    }
    assert(found@.take(found@.len() as int) =~= found@);
    let mut r: Vec<Repo> = Vec::new();
    let mut k: usize = 0;
    while k < sorted.len()
        invariant
            k <= sorted@.len(),
            repo_paths(r@) == views(sorted@).take(k as int),
        decreases sorted@.len() - k,
    {
        let ghost before = r@;
        let path = sorted[k].clone();
        r.push(Repo { path });
        assert(repo_paths(r@) =~= repo_paths(before).push(sorted@[k as int]@));
        assert(views(sorted@).take(k + 1) =~= views(sorted@).take(k as int).push(sorted@[k as int]@));
        k = k + 1;
    }
    assert(views(sorted@).take(sorted@.len() as int) =~= views(sorted@));
    r
}

} // verus!
