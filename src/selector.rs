//! The decisions of the interactive selector: four screens (repositories,
//! run mode, untracked files, side channel), driven by keys. Drawing the
//! screens and reading keys is the caller's part.
use vstd::prelude::*;
use vstd::string::*;
use crate::config::ResolvedRunConfig;
use crate::discovery::{repo_paths, Repo};
use crate::state::State;

verus! {

/// A key press, as far as the selector tells keys apart.
#[derive(Debug, Clone, Copy, PartialEq, Eq, Structural)]
pub enum Key {
    Up,
    Down,
    Left,
    Right,
    Enter,
    Esc,
    Char(char),
    Other,
}

/// The screen shown.
#[derive(Debug, Clone, Copy, PartialEq, Eq, Structural)]
pub enum Screen {
    RepoSelection,
    RunMode,
    IncludeUntracked,
    SideChannel,
}

/// A repository on the first screen.
#[derive(Debug)]
pub struct RepoOption {
    pub path: String,
    pub label: String,
    pub selected: bool,
}

/// What the user chose.
#[derive(Debug)]
pub struct InteractiveSelection {
    pub selected_repos: Vec<String>,
    pub run_config: ResolvedRunConfig,
}

/// What a key press leads to.
#[derive(Debug)]
pub enum AppTransition {
    Continue,
    Cancel,
    Complete(InteractiveSelection),
}

/// The selector.
#[derive(Debug)]
pub struct App {
    pub repos: Vec<RepoOption>,
    pub repo_cursor: usize,
    pub screen: Screen,
    pub run_mode_cursor: usize,
    pub include_untracked_cursor: usize,
    pub side_channel_cursor: usize,
    pub base_run_config: ResolvedRunConfig,
}

/// `App` as a mathematical value.
pub struct AppView {
    pub paths: Seq<Seq<char>>,
    pub selected: Seq<bool>,
    pub repo_cursor: nat,
    pub screen: Screen,
    pub run_mode_cursor: nat,
    pub include_untracked_cursor: nat,
    pub side_channel_cursor: nat,
    pub base: ResolvedRunConfig,
}

impl View for App {
    type V = AppView;

    open spec fn view(&self) -> AppView {
        AppView {
            paths: self.repos@.map_values(|o: RepoOption| o.path@),
            selected: self.repos@.map_values(|o: RepoOption| o.selected),
            repo_cursor: self.repo_cursor as nat,
            screen: self.screen,
            run_mode_cursor: self.run_mode_cursor as nat,
            include_untracked_cursor: self.include_untracked_cursor as nat,
            side_channel_cursor: self.side_channel_cursor as nat,
            base: self.base_run_config,
        }
    }
}

/// `InteractiveSelection` as a mathematical value.
pub struct SelectionView {
    pub selected_repos: Seq<Seq<char>>,
    pub run_config: ResolvedRunConfig,
}

/// `AppTransition` as a mathematical value.
pub enum TransitionView {
    Continue,
    Cancel,
    Complete(SelectionView),
}

impl View for AppTransition {
    type V = TransitionView;

    open spec fn view(&self) -> TransitionView {
        match self {
            AppTransition::Continue => TransitionView::Continue,
            AppTransition::Cancel => TransitionView::Cancel,
            AppTransition::Complete(s) => TransitionView::Complete(
                SelectionView {
                    selected_repos: crate::text::views(s.selected_repos@),
                    run_config: s.run_config,
                },
            ),
        }
    }
}

impl AppView {
    /// The cursor stays on a repository when there is one; choice cursors
    /// are 0 or 1.
    pub open spec fn wf(self) -> bool {
        &&& self.paths.len() == self.selected.len()
        &&& (self.paths.len() > 0 ==> self.repo_cursor < self.paths.len())
        &&& self.run_mode_cursor <= 1
        &&& self.include_untracked_cursor <= 1
        &&& self.side_channel_cursor <= 1
    }
}

/// The selected repositories' paths, in order.
pub open spec fn chosen_paths(paths: Seq<Seq<char>>, selected: Seq<bool>) -> Seq<Seq<char>>
    decreases paths.len(),
{
    if paths.len() == 0 || selected.len() == 0 {
        Seq::empty()
    } else {
        let prev = chosen_paths(paths.drop_last(), selected.drop_last());
        if selected.last() {
            prev.push(paths.last())
        } else {
            prev
        }
    }
}

/// What the selector completes with: the base configuration with the chosen
/// run mode, untracked setting and side channel (off when only pulling).
pub open spec fn selection_of(a: AppView, push_enabled: bool) -> SelectionView {
    SelectionView {
        selected_repos: chosen_paths(a.paths, a.selected),
        run_config: ResolvedRunConfig {
            push_enabled,
            include_untracked: a.include_untracked_cursor == 0,
            side_channel: crate::config::SideChannelConfig {
                enabled: push_enabled && a.side_channel_cursor == 0,
                ..a.base.side_channel
            },
            ..a.base
        },
    }
}

pub open spec fn is_up(k: Key) -> bool {
    k == Key::Up || k == Key::Char('k')
}

pub open spec fn is_down(k: Key) -> bool {
    k == Key::Down || k == Key::Char('j')
}

/// Up, or left, on a two-choice screen.
pub open spec fn is_back(k: Key) -> bool {
    is_up(k) || k == Key::Left || k == Key::Char('h')
}

/// Down, or right, on a two-choice screen.
pub open spec fn is_forward(k: Key) -> bool {
    is_down(k) || k == Key::Right || k == Key::Char('l')
}

/// The cursor of a two-choice screen after a key.
pub open spec fn choice_after(c: nat, k: Key) -> nat {
    if is_back(k) && c > 0 {
        (c - 1) as nat
    } else if is_forward(k) && c < 1 {
        c + 1
    } else {
        c
    }
}

/// The selection after `a` on the repository screen: all selected, unless
/// all already were, in which case none.
pub open spec fn toggled_all(sel: Seq<bool>) -> Seq<bool> {
    let all = exists|i: int| 0 <= i < sel.len() && !sel[i];
    Seq::new(sel.len(), |i: int| all)
}

/// The keys that a screen takes.
pub open spec fn help_of(screen: Screen) -> Seq<char> {
    if screen == Screen::RepoSelection {
        "\u{2191}/\u{2193} or j/k: move   space: toggle   a: toggle all   enter: continue   q/esc: cancel"@
    } else {
        "\u{2191}/\u{2193} or j/k: move   enter: confirm   q/esc: cancel"@
    }
}

/// The lines that `textwrap::wrap` breaks `text` into at `width` columns.
pub uninterp spec fn wrapped(text: Seq<char>, width: nat) -> Seq<Seq<char>>;

/// Relies on `textwrap::wrap`: the lines of `text` broken at `width` columns,
/// which depend on the text and the width alone.
#[verifier::external_body]
fn wrap_text(text: &str, width: usize) -> (r: Vec<String>)
    ensures
        crate::text::views(r@) == wrapped(text@, width as nat),
{
    textwrap::wrap(text, width).into_iter().map(|line| line.into_owned()).collect()
}

/// One key press on the selector.
pub open spec fn app_next(a: AppView, k: Key) -> (AppView, TransitionView) {
    if k == Key::Esc || k == Key::Char('q') || k == Key::Char('Q') {
        (a, TransitionView::Cancel)
    } else {
        match a.screen {
            Screen::RepoSelection => if a.paths.len() == 0 {
                (a, TransitionView::Continue)
            } else if is_up(k) {
                (
                    AppView {
                        repo_cursor: if a.repo_cursor > 0 {
                            (a.repo_cursor - 1) as nat
                        } else {
                            a.repo_cursor
                        },
                        ..a
                    },
                    TransitionView::Continue,
                )
            } else if is_down(k) {
                (
                    AppView {
                        repo_cursor: if a.repo_cursor + 1 < a.paths.len() {
                            a.repo_cursor + 1
                        } else {
                            a.repo_cursor
                        },
                        ..a
                    },
                    TransitionView::Continue,
                )
            } else if k == Key::Char(' ') {
                (
                    AppView {
                        selected: a.selected.update(
                            a.repo_cursor as int,
                            !a.selected[a.repo_cursor as int],
                        ),
                        ..a
                    },
                    TransitionView::Continue,
                )
            } else if k == Key::Char('a') || k == Key::Char('A') {
                (AppView { selected: toggled_all(a.selected), ..a }, TransitionView::Continue)
            } else if k == Key::Enter {
                (AppView { screen: Screen::RunMode, ..a }, TransitionView::Continue)
            } else {
                (a, TransitionView::Continue)
            },
            Screen::RunMode => if k == Key::Enter {
                if a.run_mode_cursor == 1 {
                    (a, TransitionView::Complete(selection_of(a, false)))
                } else {
                    (AppView { screen: Screen::IncludeUntracked, ..a }, TransitionView::Continue)
                }
            } else {
                (
                    AppView { run_mode_cursor: choice_after(a.run_mode_cursor, k), ..a },
                    TransitionView::Continue,
                )
            },
            Screen::IncludeUntracked => if k == Key::Enter {
                (AppView { screen: Screen::SideChannel, ..a }, TransitionView::Continue)
            } else {
                (
                    AppView {
                        include_untracked_cursor: choice_after(a.include_untracked_cursor, k),
                        ..a
                    },
                    TransitionView::Continue,
                )
            },
            Screen::SideChannel => if k == Key::Enter {
                (a, TransitionView::Complete(selection_of(a, true)))
            } else {
                (
                    AppView { side_channel_cursor: choice_after(a.side_channel_cursor, k), ..a },
                    TransitionView::Continue,
                )
            },
        }
    }
}

fn is_up_key(k: Key) -> (r: bool)
    ensures
        r == is_up(k),
{
    k == Key::Up || k == Key::Char('k')
}

fn is_down_key(k: Key) -> (r: bool)
    ensures
        r == is_down(k),
{
    k == Key::Down || k == Key::Char('j')
}

fn choice_cursor(c: usize, k: Key) -> (r: usize)
    requires
        c <= 1,
    ensures
        r as nat == choice_after(c as nat, k),
{
    if (is_up_key(k) || k == Key::Left || k == Key::Char('h')) && c > 0 {
        c - 1
    } else if (is_down_key(k) || k == Key::Right || k == Key::Char('l')) && c < 1 {
        c + 1
    } else {
        c
    }
}

impl App {
    /// The selector over `repos`: each preselected as remembered (unknown
    /// ones selected), choices preset from `base_run_config`.
    pub fn new(repos: &Vec<Repo>, state: &State, base_run_config: &ResolvedRunConfig) -> (a: App)
        ensures
            a@.wf(),
            a@.paths == repos@.map_values(|r: Repo| r.path@),
            forall|i: int|
                0 <= i < repos@.len() ==> #[trigger] a@.selected[i] == (if state@.contains_key(
                    repos@[i].path@,
                ) {
                    state@[repos@[i].path@]
                } else {
                    true
                }),
            a@.repo_cursor == 0,
            a@.screen == Screen::RepoSelection,
            a@.run_mode_cursor == (if base_run_config.push_enabled { 0nat } else { 1nat }),
            a@.include_untracked_cursor == (if base_run_config.include_untracked { 0nat } else { 1nat }),
            a@.side_channel_cursor == (if base_run_config.side_channel.enabled { 0nat } else { 1nat }),
            a@.base == *base_run_config,
    {
        let mut options: Vec<RepoOption> = Vec::new();
        let mut i: usize = 0;
        while i < repos.len()
            invariant
                i <= repos@.len(),
                options@.len() == i,
                forall|j: int| 0 <= j < i ==> #[trigger] options@[j].path@ == repos@[j].path@,
                forall|j: int|
                    0 <= j < i ==> #[trigger] options@[j].selected == (if state@.contains_key(
                        repos@[j].path@,
                    ) {
                        state@[repos@[j].path@]
                    } else {
                        true
                    }),
            decreases repos@.len() - i,
        {
            let path = &repos[i].path;
            let selected = match state.get(path.as_str()) {
                Some(s) => s,
                None => true,
            };
            options.push(RepoOption { path: path.clone(), label: path.clone(), selected });
            i = i + 1;
        }
        let a = App {
            repos: options,
            repo_cursor: 0,
            screen: Screen::RepoSelection,
            run_mode_cursor: if base_run_config.push_enabled { 0 } else { 1 },
            include_untracked_cursor: if base_run_config.include_untracked { 0 } else { 1 },
            side_channel_cursor: if base_run_config.side_channel.enabled { 0 } else { 1 },
            base_run_config: base_run_config.copy_of(),
        };
        assert(a@.paths =~= repos@.map_values(|r: Repo| r.path@));
        a
    }

    /// The selection with the given run mode.
    pub fn build_selection(&self, push_enabled: bool) -> (s: InteractiveSelection)
        ensures
            (SelectionView { selected_repos: crate::text::views(s.selected_repos@), run_config: s.run_config })
                == selection_of(self@, push_enabled),
    {
        let mut run_config = self.base_run_config.copy_of();
        run_config.push_enabled = push_enabled;
        run_config.include_untracked = self.include_untracked_cursor == 0;
        run_config.side_channel.enabled = push_enabled && self.side_channel_cursor == 0;
        let ghost paths = self@.paths;
        let ghost sel = self@.selected;
        let mut selected_repos: Vec<String> = Vec::new();
        let mut i: usize = 0;
        while i < self.repos.len()
            invariant
                paths == self@.paths,
                sel == self@.selected,
                i <= self.repos@.len(),
                crate::text::views(selected_repos@) == chosen_paths(
                    paths.take(i as int),
                    sel.take(i as int),
                ),
            decreases self.repos@.len() - i,
        {
            assert(paths.take(i + 1).drop_last() =~= paths.take(i as int));
            assert(sel.take(i + 1).drop_last() =~= sel.take(i as int));
            if self.repos[i].selected {
                let ghost before = selected_repos@;
                selected_repos.push(self.repos[i].path.clone());
                assert(crate::text::views(selected_repos@) =~= crate::text::views(before).push(
                    paths[i as int],
                ));
            }
            i = i + 1;
        }
        assert(paths.take(i as int) =~= paths);
        assert(sel.take(i as int) =~= sel);
        InteractiveSelection { selected_repos, run_config }
    }

    /// The keys that the current screen takes.
    pub fn help_text(&self) -> (r: &'static str)
        ensures
            r@ == help_of(self.screen),
    {
        match self.screen {
            Screen::RepoSelection =>
                "\u{2191}/\u{2193} or j/k: move   space: toggle   a: toggle all   enter: continue   q/esc: cancel",
            _ => "\u{2191}/\u{2193} or j/k: move   enter: confirm   q/esc: cancel",
        }
    }

    /// The help text broken into lines of `width` columns (at least one).
    pub fn help_lines(&self, width: usize) -> (r: Vec<String>)
        ensures
            crate::text::views(r@) == wrapped(help_of(self.screen), if width == 0 { 1nat } else { width as nat }),
    {
        let w = if width == 0 { 1 } else { width };
        wrap_text(self.help_text(), w)
    }

    /// Takes one key press.
    pub fn handle_key(&mut self, k: Key) -> (t: AppTransition)
        requires
            old(self)@.wf(),
        ensures
            final(self)@ == app_next(old(self)@, k).0,
            final(self)@.wf(),
            t@ == app_next(old(self)@, k).1,
    {
        if k == Key::Esc || k == Key::Char('q') || k == Key::Char('Q') {
            return AppTransition::Cancel;
        }
        match self.screen {
            Screen::RepoSelection => {
                let n = self.repos.len();
                if n == 0 {
                    return AppTransition::Continue;
                }
                if is_up_key(k) {
                    if self.repo_cursor > 0 {
                        self.repo_cursor = self.repo_cursor - 1;
                    }
                } else if is_down_key(k) {
                    if self.repo_cursor + 1 < n {
                        self.repo_cursor = self.repo_cursor + 1;
                    }
                } else if k == Key::Char(' ') {
                    let c = self.repo_cursor;
                    let ghost before = self.repos@;
                    let flipped = !self.repos[c].selected;
                    let old_opt = self.repos.remove(c);
                    self.repos.insert(
                        c,
                        RepoOption { path: old_opt.path, label: old_opt.label, selected: flipped },
                    );
                    assert(self@.paths =~= old(self)@.paths);
                    assert(self@.selected =~= old(self)@.selected.update(c as int, flipped));
                } else if k == Key::Char('a') || k == Key::Char('A') {
                    let mut any_unselected = false;
                    let mut j: usize = 0;
                    while j < n
                        invariant
                            n == self.repos@.len(),
                            self.repos@ == old(self).repos@,
                            j <= n,
                            self.repo_cursor == old(self).repo_cursor,
                            self.screen == old(self).screen,
                            self.run_mode_cursor == old(self).run_mode_cursor,
                            self.include_untracked_cursor == old(self).include_untracked_cursor,
                            self.side_channel_cursor == old(self).side_channel_cursor,
                            self.base_run_config == old(self).base_run_config,

                            any_unselected == exists|m: int| 0 <= m < j && !old(self)@.selected[m],
                        decreases n - j,
                    {
                        if !self.repos[j].selected {
                            assert(!old(self)@.selected[j as int]);
                            any_unselected = true;
                        }
                        j = j + 1;
                    }
                    assert(any_unselected == exists|m: int|
                        0 <= m < old(self)@.selected.len() && !old(self)@.selected[m]);
                    let mut j: usize = 0;
                    while j < n
                        invariant
                            n == self.repos@.len(),
                            j <= n,
                            any_unselected == exists|m: int|
                                0 <= m < old(self)@.selected.len() && !old(self)@.selected[m],
                            self.repo_cursor == old(self).repo_cursor,
                            self.screen == old(self).screen,
                            self.run_mode_cursor == old(self).run_mode_cursor,
                            self.include_untracked_cursor == old(self).include_untracked_cursor,
                            self.side_channel_cursor == old(self).side_channel_cursor,
                            self.base_run_config == old(self).base_run_config,
                            forall|m: int| 0 <= m < n ==> #[trigger] self.repos@[m].path == old(self).repos@[m].path,
                            forall|m: int| 0 <= m < j ==> #[trigger] self.repos@[m].selected == any_unselected,
                            forall|m: int| j <= m < n ==> #[trigger] self.repos@[m] == old(self).repos@[m],
                        decreases n - j,
                    {
                        let o = self.repos.remove(j);
                        self.repos.insert(
                            j,
                            RepoOption { path: o.path, label: o.label, selected: any_unselected },
                        );
                        j = j + 1;
                    }
                    assert(self@.paths =~= old(self)@.paths);
                    assert(self@.selected =~= toggled_all(old(self)@.selected));
                } else if k == Key::Enter {
                    self.screen = Screen::RunMode;
                }
                AppTransition::Continue
            },
            Screen::RunMode => {
                if k == Key::Enter {
                    if self.run_mode_cursor == 1 {
                        return AppTransition::Complete(self.build_selection(false));
                    }
                    self.screen = Screen::IncludeUntracked;
                } else {
                    self.run_mode_cursor = choice_cursor(self.run_mode_cursor, k);
                }
                AppTransition::Continue
            },
            Screen::IncludeUntracked => {
                if k == Key::Enter {
                    self.screen = Screen::SideChannel;
                } else {
                    self.include_untracked_cursor = choice_cursor(self.include_untracked_cursor, k);
                }
                AppTransition::Continue
            },
            Screen::SideChannel => {
                if k == Key::Enter {
                    return AppTransition::Complete(self.build_selection(true));
                }
                self.side_channel_cursor = choice_cursor(self.side_channel_cursor, k);
                AppTransition::Continue
            },
        }
    }
}

/// `a` and `b` agree on every key but those listed.
pub open spec fn agrees_except(a: Map<Seq<char>, bool>, b: Map<Seq<char>, bool>, keys: Seq<Seq<char>>) -> bool {
    forall|k: Seq<char>|
        !keys.contains(k) ==> (#[trigger] a.contains_key(k) == b.contains_key(k) && (b.contains_key(k)
            ==> a[k] == b[k]))
}

/// Remembers, for every repository shown, whether it was selected.
pub fn record_selection(state: &mut State, repos: &Vec<Repo>, selection: &InteractiveSelection)
    ensures
        forall|i: int|
            0 <= i < repos@.len() ==> #[trigger] final(state)@.contains_key(repos@[i].path@),
        forall|i: int|
            0 <= i < repos@.len() ==> final(state)@[#[trigger] repos@[i].path@]
                == crate::text::views(selection.selected_repos@).contains(repos@[i].path@),
        agrees_except(final(state)@, old(state)@, repo_paths(repos@)),
{
    let ghost chosen = crate::text::views(selection.selected_repos@);
    let mut i: usize = 0;
    while i < repos.len()
        invariant
            chosen == crate::text::views(selection.selected_repos@),
            i <= repos@.len(),
            forall|m: int| 0 <= m < i ==> #[trigger] state@.contains_key(repos@[m].path@),
            forall|m: int|
                0 <= m < i ==> state@[#[trigger] repos@[m].path@] == chosen.contains(repos@[m].path@),
            agrees_except(state@, old(state)@, repo_paths(repos@).take(i as int)),
        decreases repos@.len() - i,
    {
        let key = &repos[i].path;
        let mut found = false;
        let mut j: usize = 0;
        while j < selection.selected_repos.len() && !found
            invariant
                chosen == crate::text::views(selection.selected_repos@),
                j <= chosen.len(),
                !found ==> forall|m: int| 0 <= m < j ==> chosen[m] != key@,
                found ==> chosen.contains(key@),
            decreases chosen.len() - j + (if found { 0int } else { 1int }),
        {
            if selection.selected_repos[j] == *key {
                assert(chosen[j as int] == key@);
                found = true;
            } else {
                j = j + 1;
            }
        }
        let ghost before = state@;
        state.set(key.clone(), found);
        assert(repo_paths(repos@).take(i + 1) =~= repo_paths(repos@).take(i as int).push(key@));
        assert forall|k: Seq<char>| !repo_paths(repos@).take(i + 1).contains(k) implies (
        #[trigger] state@.contains_key(k) == old(state)@.contains_key(k) && (old(
            state,
        )@.contains_key(k) ==> state@[k] == old(state)@[k])) by {
            assert(k != key@) by {
                if k == key@ {
                    assert(repo_paths(repos@).take(i + 1)[i as int] == k);
                }
            }
            assert(!repo_paths(repos@).take(i as int).contains(k)) by {
                if repo_paths(repos@).take(i as int).contains(k) {
                    let w = choose|w: int| 0 <= w < i && repo_paths(repos@).take(i as int)[w] == k;
                    assert(repo_paths(repos@).take(i + 1)[w] == k);
                }
            }
        }
        i = i + 1;
    }
    assert(repo_paths(repos@).take(i as int) =~= repo_paths(repos@));
}

} // verus!
