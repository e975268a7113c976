//! The selection remembered across runs, keyed by canonical path.
use vstd::prelude::*;
use vstd::string::*;

verus! {

/// The remembered selection: entries of canonical path and whether it was
/// selected. A later entry for a path replaces an earlier one.
#[derive(Debug, Clone, Default)]
pub struct State {
    pub selected_repos: Vec<(String, bool)>,
}

/// The map that the entries stand for.
pub open spec fn selection_map(entries: Seq<(String, bool)>) -> Map<Seq<char>, bool>
    decreases entries.len(),
{
    if entries.len() == 0 {
        Map::empty()
    } else {
        selection_map(entries.drop_last()).insert(entries.last().0@, entries.last().1)
    }
}

impl View for State {
    type V = Map<Seq<char>, bool>;

    open spec fn view(&self) -> Map<Seq<char>, bool> {
        selection_map(self.selected_repos@)
    }
}

impl State {
    /// Whether `key` was selected, if it is known.
    pub fn get(&self, key: &str) -> (r: Option<bool>)
        ensures
            r == (if self@.contains_key(key@) {
                Some(self@[key@])
            } else {
                None
            }),
    {
        let target = String::from_str(key);
        let ghost all = self.selected_repos@;
        let mut k = self.selected_repos.len();
        assert(all.take(k as int) =~= all);
        while k > 0
            invariant
                all == self.selected_repos@,
                k <= all.len(),
                target@ == key@,
                selection_map(all).contains_key(key@) == selection_map(all.take(k as int)).contains_key(key@),
                selection_map(all).contains_key(key@) ==> selection_map(all)[key@] == selection_map(
                    all.take(k as int),
                )[key@],
            decreases k,
        {
            assert(all.take(k as int).drop_last() =~= all.take(k - 1));
            let entry = &self.selected_repos[k - 1];
            if entry.0 == target {
                return Some(entry.1);
            }
            k = k - 1;
        }
        None
    }

    /// Records whether `key` is selected.
    pub fn set(&mut self, key: String, selected: bool)
        ensures
            final(self)@ == old(self)@.insert(key@, selected),
    {
        self.selected_repos.push((key, selected));
        assert(self.selected_repos@.drop_last() =~= old(self).selected_repos@);
    }
}

} // verus!
