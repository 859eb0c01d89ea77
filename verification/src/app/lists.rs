//! The lists the editor filters: commands of the palette and entries of the file picker.
use vstd::prelude::*;
use fuzzy_matcher::FuzzyMatcher;
use crate::text::{find_bytes, find_from, lemma_find_from_spec, lowercase, occurs_at, to_lowercase, utf8};

verus! {

/// The score the skim fuzzy matcher (default settings) gives `choice` for
/// `pattern`; `None` when it does not match.
pub uninterp spec fn skim_score(choice: Seq<char>, pattern: Seq<char>) -> Option<i64>;

/// Calls `SkimMatcherV2::default().fuzzy_match(choice, pattern)`. Its result is
/// named `skim_score`; the matcher's source returns `Some(0)` for an empty pattern.
#[verifier::external_body]
fn fuzzy_score(choice: &str, pattern: &str) -> (r: Option<i64>)
    ensures
        r == skim_score(choice@, pattern@),
        pattern@.len() == 0 ==> r == Some(0i64),
{
    fuzzy_matcher::skim::SkimMatcherV2::default().fuzzy_match(choice, pattern)
}

/// The palette's commands: names and descriptions, in order.
pub open spec fn palette_commands() -> Seq<(Seq<char>, Seq<char>)> {
    seq![
        ("\u{f06a9} AI: Toggle Sidebar"@, "Show/hide the AI assistant sidebar"@),
        ("\u{f06a9} AI: Select Model..."@, "Pick which local model to use"@),
        ("\u{f02a2} Git: Status"@, "View git changes"@),
        ("\u{f02a2} Git: Diff"@, "View git diff"@),
        ("\u{f02a2} Git: Commit"@, "Commit changes"@),
        ("\u{f02a2} Git: Publish (Push)"@, "Push changes to remote repository"@),
        ("\u{f011a} Mode: Select..."@, "Switch Vim, Nano, Emacs, or Aether mode"@),
        ("\u{f011a} Theme: Select..."@, "Pick a visual theme"@),
        ("\u{f011a} Line Numbers: Toggle"@, "Show/hide line numbers"@),
        ("\u{f011a} Word Wrap: Toggle"@, "Enable/disable word wrapping"@),
        ("\u{f021e} Search: Find & Replace"@, "Search and replace text"@),
        ("\u{f011a} Navigation: Go to Line"@, "Jump to a specific line number"@),
        ("\u{f0214} File: New"@, "Create a new empty file"@),
        ("\u{f021e} File: Open..."@, "Open a file from disk"@),
        ("\u{f0193} File: Save"@, "Save the current file"@),
        ("\u{f0193} File: Save As..."@, "Save current file with a new name"@),
        ("\u{f0214} File: Close Tab"@, "Close the current tab"@),
        ("\u{f0645} View: Toggle File Tree"@, "Show/hide the file tree sidebar"@),
        ("\u{f06a9} System: Check for Updates"@, "Check for latest Aether version"@),
        ("\u{f0206} Quit"@, "Exit Aether"@),
    ]
}

/// Names and descriptions of a list of commands.
pub open spec fn command_pairs(cs: Seq<(String, String)>) -> Seq<(Seq<char>, Seq<char>)> {
    Seq::new(cs.len(), |i: int| (cs[i].0@, cs[i].1@))
}

#[derive(Debug, Clone)]
pub struct CommandPaletteState {
    pub query: String,
    pub selected: usize,
    pub scroll: usize,
    pub commands: Vec<(String, String)>,
    pub filtered: Vec<usize>,
}

/// The indices `0..n`.
pub open spec fn all_indices(n: nat) -> Seq<usize> {
    Seq::new(n, |i: int| i as usize)
}

/// The number of leading entries of `l` scoring at least `score`.
pub open spec fn at_least(l: Seq<(usize, i64)>, score: i64, i: int) -> int
    decreases l.len() - i,
{
    if 0 <= i < l.len() && l[i].1 >= score {
        at_least(l, score, i + 1)
    } else {
        i
    }
}

/// `x` placed after the entries of `l` that score at least as much.
pub open spec fn insert_ranked(l: Seq<(usize, i64)>, x: (usize, i64)) -> Seq<(usize, i64)> {
    l.insert(at_least(l, x.1, 0), x)
}

/// The entries ordered by decreasing score, ties in their given order
/// (what the stable `sort_by` of descending scores yields).
pub open spec fn ranked(s: Seq<(usize, i64)>) -> Seq<(usize, i64)>
    decreases s.len(),
{
    if s.len() == 0 {
        Seq::empty()
    } else {
        insert_ranked(ranked(s.drop_last()), s.last())
    }
}

/// The entries of the commands `names[i..]` that the pattern matches, with their scores.
pub open spec fn scored_from(names: Seq<Seq<char>>, pattern: Seq<char>, i: int) -> Seq<(usize, i64)>
    decreases names.len() - i,
{
    if i < 0 || i >= names.len() {
        Seq::empty()
    } else {
        match skim_score(names[i], pattern) {
            Some(sc) => seq![(i as usize, sc)] + scored_from(names, pattern, i + 1),
            None => scored_from(names, pattern, i + 1),
        }
    }
}

/// The first components of a list of pairs.
pub open spec fn firsts(s: Seq<(usize, i64)>) -> Seq<usize> {
    Seq::new(s.len(), |i: int| s[i].0)
}

proof fn lemma_at_least_bound(l: Seq<(usize, i64)>, score: i64, i: int)
    requires
        0 <= i <= l.len(),
    ensures
        i <= at_least(l, score, i) <= l.len(),
    decreases l.len() - i,
{
    if i < l.len() && l[i].1 >= score {
        lemma_at_least_bound(l, score, i + 1);
    }
}

/// Orders scored entries by decreasing score, ties in their given order.
pub fn rank_by_score(scored: &Vec<(usize, i64)>) -> (r: Vec<(usize, i64)>)
    ensures
        r@ == ranked(scored@),
{
    let mut r: Vec<(usize, i64)> = Vec::new();
    let mut i: usize = 0;
    while i < scored.len()
        invariant
            i <= scored@.len(),
            r@ == ranked(scored@.take(i as int)),
        decreases scored@.len() - i,
    {
        let x = scored[i];
        let mut p: usize = 0;
        proof {
            lemma_at_least_bound(r@, x.1, 0);
        }
        while p < r.len() && r[p].1 >= x.1
            invariant
                p <= r@.len(),
                at_least(r@, x.1, p as int) == at_least(r@, x.1, 0),
            decreases r@.len() - p,
        {
            p = p + 1;
        }
        r.insert(p, x);
        assert(scored@.take(i + 1).drop_last() =~= scored@.take(i as int));
        assert(scored@.take(i + 1).last() == x);
        i = i + 1;
    }
    assert(scored@.take(scored@.len() as int) =~= scored@);
    r
}

impl CommandPaletteState {
    /// The palette with all its commands listed and nothing typed.
    pub fn new() -> (s: Self)
        ensures
            s.query@.len() == 0,
            s.selected == 0,
            s.scroll == 0,
            s.commands@.len() == 20,
            command_pairs(s.commands@) == palette_commands(),
            s.filtered@ == all_indices(20),
    {
        let mut commands: Vec<(String, String)> = Vec::new();
        commands.push(("\u{f06a9} AI: Toggle Sidebar".to_owned(), "Show/hide the AI assistant sidebar".to_owned()));
        commands.push(("\u{f06a9} AI: Select Model...".to_owned(), "Pick which local model to use".to_owned()));
        commands.push(("\u{f02a2} Git: Status".to_owned(), "View git changes".to_owned()));
        commands.push(("\u{f02a2} Git: Diff".to_owned(), "View git diff".to_owned()));
        commands.push(("\u{f02a2} Git: Commit".to_owned(), "Commit changes".to_owned()));
        commands.push(("\u{f02a2} Git: Publish (Push)".to_owned(), "Push changes to remote repository".to_owned()));
        commands.push(("\u{f011a} Mode: Select...".to_owned(), "Switch Vim, Nano, Emacs, or Aether mode".to_owned()));
        commands.push(("\u{f011a} Theme: Select...".to_owned(), "Pick a visual theme".to_owned()));
        commands.push(("\u{f011a} Line Numbers: Toggle".to_owned(), "Show/hide line numbers".to_owned()));
        commands.push(("\u{f011a} Word Wrap: Toggle".to_owned(), "Enable/disable word wrapping".to_owned()));
        commands.push(("\u{f021e} Search: Find & Replace".to_owned(), "Search and replace text".to_owned()));
        commands.push(("\u{f011a} Navigation: Go to Line".to_owned(), "Jump to a specific line number".to_owned()));
        commands.push(("\u{f0214} File: New".to_owned(), "Create a new empty file".to_owned()));
        commands.push(("\u{f021e} File: Open...".to_owned(), "Open a file from disk".to_owned()));
        commands.push(("\u{f0193} File: Save".to_owned(), "Save the current file".to_owned()));
        commands.push(("\u{f0193} File: Save As...".to_owned(), "Save current file with a new name".to_owned()));
        commands.push(("\u{f0214} File: Close Tab".to_owned(), "Close the current tab".to_owned()));
        commands.push(("\u{f0645} View: Toggle File Tree".to_owned(), "Show/hide the file tree sidebar".to_owned()));
        commands.push(("\u{f06a9} System: Check for Updates".to_owned(), "Check for latest Aether version".to_owned()));
        commands.push(("\u{f0206} Quit".to_owned(), "Exit Aether".to_owned()));
        assert(command_pairs(commands@) =~= palette_commands());
        let mut filtered: Vec<usize> = Vec::new();
        let mut i: usize = 0;
        while i < commands.len()
            invariant
                commands@.len() == 20,
                i <= 20,
                filtered@ == all_indices(i as nat),
            decreases 20 - i,
        {
            filtered.push(i);
            assert(filtered@ =~= all_indices((i + 1) as nat));
            i = i + 1;
        }
        CommandPaletteState { query: String::new(), selected: 0, scroll: 0, commands, filtered }
    }

    /// The command names.
    pub open spec fn names(&self) -> Seq<Seq<char>> {
        Seq::new(self.commands@.len(), |i: int| self.commands@[i].0@)
    }

    /// Lists the commands the query fuzzily matches, best score first (all
    /// of them in order for an empty query), and selects the first.
    pub fn update_filter(&mut self)
        ensures
            final(self).filtered@ == if old(self).query@.len() == 0 {
                all_indices(old(self).commands@.len())
            } else {
                firsts(ranked(scored_from(old(self).names(), old(self).query@, 0)))
            },
            final(self).selected == 0,
            final(self).scroll == 0,
            final(self).query == old(self).query,
            final(self).commands == old(self).commands,
    {
        let n = self.commands.len();
        if self.query.as_str().unicode_len() == 0 {
            let mut filtered: Vec<usize> = Vec::new();
            let mut i: usize = 0;
            while i < n
                invariant
                    i <= n,
                    filtered@ == all_indices(i as nat),
                decreases n - i,
            {
                filtered.push(i);
                assert(filtered@ =~= all_indices((i + 1) as nat));
                i = i + 1;
            }
            self.filtered = filtered;
        } else {
            let ghost names = self.names();
            let ghost q = self.query@;
            let mut scored: Vec<(usize, i64)> = Vec::new();
            let mut i: usize = 0;
            while i < n
                invariant
                    n == self.commands@.len(),
                    names == self.names(),
                    q == self.query@,
                    i <= n,
                    scored@ + scored_from(names, q, i as int) == scored_from(names, q, 0),
                decreases n - i,
            {
                let ghost before = scored@;
                match fuzzy_score(self.commands[i].0.as_str(), self.query.as_str()) {
                    Some(score) => {
                        scored.push((i, score));
                        assert(scored@ + scored_from(names, q, i + 1) =~= before + scored_from(names, q, i as int));
                    },
                    None => {},
                }
                i = i + 1;
            }
            assert(scored@ =~= scored@ + scored_from(names, q, n as int));
            let ranked_list = rank_by_score(&scored);
            let mut filtered: Vec<usize> = Vec::new();
            let mut j: usize = 0;
            while j < ranked_list.len()
                invariant
                    j <= ranked_list@.len(),
                    filtered@ == firsts(ranked_list@.take(j as int)),
                decreases ranked_list@.len() - j,
            {
                filtered.push(ranked_list[j].0);
                assert(filtered@ =~= firsts(ranked_list@.take(j + 1)));
                j = j + 1;
            }
            assert(ranked_list@.take(ranked_list@.len() as int) =~= ranked_list@);
            self.filtered = filtered;
        }
        self.selected = 0;
        self.scroll = 0;
    }
}

#[derive(Debug, Clone)]
pub struct FilePickerEntry {
    pub name: String,
    pub _path: String,
    pub is_dir: bool,
    pub size: u64,
}

#[derive(Debug, Clone)]
pub struct FilePickerState {
    pub current_dir: String,
    pub entries: Vec<FilePickerEntry>,
    pub filtered_entries: Vec<usize>,
    pub selected: usize,
    pub scroll: usize,
    pub filter_query: String,
}

/// The name `name` passes the filter `query`: the query is empty, or its
/// lowercase form occurs in the lowercase name.
pub open spec fn name_passes(name: Seq<char>, query: Seq<char>) -> bool {
    query.len() == 0 || find_from(utf8(lowercase(name)), utf8(lowercase(query)), 0) is Some
}

/// The indices from `i` on of the entries whose names pass the filter.
pub open spec fn passing_from(names: Seq<Seq<char>>, query: Seq<char>, i: int) -> Seq<usize>
    decreases names.len() - i,
{
    if i < 0 || i >= names.len() {
        Seq::empty()
    } else if name_passes(names[i], query) {
        seq![i as usize] + passing_from(names, query, i + 1)
    } else {
        passing_from(names, query, i + 1)
    }
}

/// The indices from `i` on that pass are those of the passing names at `i`
/// or later, in increasing order.
#[verifier::rlimit(30)]
proof fn lemma_passing_from(names: Seq<Seq<char>>, query: Seq<char>, i: int)
    requires
        0 <= i,
        names.len() <= usize::MAX,
    ensures
        forall|j: int| #![trigger passing_from(names, query, i).contains(j as usize)]
            0 <= j < names.len() ==> (passing_from(names, query, i).contains(j as usize) <==> (i <= j
                && name_passes(names[j], query))),
        forall|k: int| 0 <= k < passing_from(names, query, i).len() ==> i <= #[trigger] passing_from(names, query, i)[k] < names.len(),
        forall|k: int, l: int|
            0 <= k < l < passing_from(names, query, i).len() ==> #[trigger] passing_from(names, query, i)[k]
                < #[trigger] passing_from(names, query, i)[l],
    decreases names.len() - i,
{
    if i < names.len() {
        lemma_passing_from(names, query, i + 1);
        let rest = passing_from(names, query, i + 1);
        if name_passes(names[i], query) {
            let all = seq![i as usize] + rest;
            assert(passing_from(names, query, i) == all);
            assert(all[0] as int == i);
            assert forall|k: int| 0 <= k < rest.len() implies #[trigger] all[k + 1] == rest[k] by {}
            assert forall|j: int| 0 <= j < names.len() && all.contains(j as usize) implies i <= j
                && name_passes(names[j], query) by {
                let k = choose|k: int| 0 <= k < all.len() && all[k] == j as usize;
                if k > 0 {
                    assert(all[(k - 1) + 1] == rest[k - 1]);
                    assert(rest.contains(j as usize));
                }
            }
            assert forall|j: int| 0 <= j < names.len() && i <= j && name_passes(names[j], query) implies all.contains(
                j as usize,
            ) by {
                if j == i {
                    assert(all[0] == j as usize);
                } else {
                    assert(rest.contains(j as usize));
                    let k = choose|k: int| 0 <= k < rest.len() && rest[k] == j as usize;
                    assert(all[k + 1] == j as usize);
                }
            }
            assert forall|k: int| 0 <= k < all.len() implies i <= #[trigger] all[k] < names.len() by {
                if k > 0 {
                    assert(all[(k - 1) + 1] == rest[k - 1]);
                }
            }
            assert forall|k: int, l: int| 0 <= k < l < all.len() implies #[trigger] all[k] < #[trigger] all[l] by {
                assert(all[(l - 1) + 1] == rest[l - 1]);
                if k > 0 {
                    assert(all[(k - 1) + 1] == rest[k - 1]);
                }
            }
        } else {
            assert(passing_from(names, query, i) == rest);
        }
    } else {
        assert(passing_from(names, query, i).len() == 0);
    }
}

/// Filter law: the file picker lists, in their order, exactly the entries
/// whose lowercase name holds the lowercase query at some byte offset (any
/// offset, not only the start); with an empty query, every entry.
pub proof fn law_filter_lists_matching_names(names: Seq<Seq<char>>, query: Seq<char>)
    requires
        names.len() <= usize::MAX,
    ensures
        forall|j: int| #![trigger passing_from(names, query, 0).contains(j as usize)]
            0 <= j < names.len() ==> (passing_from(names, query, 0).contains(j as usize) <==> (
            query.len() == 0 || exists|p: int| occurs_at(utf8(lowercase(names[j])), utf8(lowercase(query)), p))),
        forall|k: int| 0 <= k < passing_from(names, query, 0).len() ==> #[trigger] passing_from(names, query, 0)[k] < names.len(),
        forall|k: int, l: int|
            0 <= k < l < passing_from(names, query, 0).len() ==> #[trigger] passing_from(names, query, 0)[k]
                < #[trigger] passing_from(names, query, 0)[l],
{
    lemma_passing_from(names, query, 0);
    assert forall|j: int| 0 <= j < names.len() implies (name_passes(names[j], query) <==> (query.len() == 0
        || exists|p: int| occurs_at(utf8(lowercase(names[j])), utf8(lowercase(query)), p))) by {
        let hay = utf8(lowercase(names[j]));
        let needle = utf8(lowercase(query));
        lemma_find_from_spec(hay, needle, 0);
        if exists|p: int| occurs_at(hay, needle, p) {
            let p = choose|p: int| occurs_at(hay, needle, p);
            assert(0 <= p);
        }
    }
}

/// The indices of the entries whose names pass the filter `query`.
fn passing_indices(entries: &Vec<FilePickerEntry>, query_text: &str) -> (r: Vec<usize>)
    ensures
        r@ == passing_from(Seq::new(entries@.len(), |i: int| entries@[i].name@), query_text@, 0),
{
    let ghost names = Seq::new(entries@.len(), |i: int| entries@[i].name@);
    let ghost q = query_text@;
    let empty = query_text.unicode_len() == 0;
    let query = to_lowercase(query_text);
    let mut filtered: Vec<usize> = Vec::new();
    let n = entries.len();
    let mut i: usize = 0;
    while i < n
        invariant
            n == entries@.len(),
            names == Seq::new(entries@.len(), |i: int| entries@[i].name@),
            q == query_text@,
            empty == (q.len() == 0),
            query@ == lowercase(q),
            i <= n,
            filtered@ + passing_from(names, q, i as int) == passing_from(names, q, 0),
        decreases n - i,
    {
        let ghost before = filtered@;
        let pass = if empty {
            true
        } else {
            let name = to_lowercase(entries[i].name.as_str());
            find_bytes(name.as_str().as_bytes(), query.as_str().as_bytes(), 0).is_some()
        };
        assert(pass == name_passes(names[i as int], q));
        if pass {
            filtered.push(i);
            assert(filtered@ + passing_from(names, q, i + 1) =~= before + passing_from(names, q, i as int));
        }
        i = i + 1;
    }
    assert(filtered@ =~= filtered@ + passing_from(names, q, n as int));
    filtered
}

impl FilePickerState {
    /// A picker for directory `current_dir` listing `entries`, filtered by
    /// the empty query.
    pub fn with_entries(current_dir: String, entries: Vec<FilePickerEntry>) -> (s: Self)
        ensures
            s.current_dir == current_dir,
            s.entries == entries,
            s.filter_query@.len() == 0,
            s.filtered_entries@ == passing_from(s.names(), Seq::empty(), 0),
            s.selected == 0,
            s.scroll == 0,
    {
        let mut s = FilePickerState {
            current_dir,
            entries,
            filtered_entries: Vec::new(),
            selected: 0,
            scroll: 0,
            filter_query: String::new(),
        };
        s.update_filter();
        s
    }

    /// The entry names.
    pub open spec fn names(&self) -> Seq<Seq<char>> {
        Seq::new(self.entries@.len(), |i: int| self.entries@[i].name@)
    }

    /// Lists the entries whose names contain the query, ignoring case, and
    /// selects the first.
    pub fn update_filter(&mut self)
        ensures
            final(self).filtered_entries@ == passing_from(old(self).names(), old(self).filter_query@, 0),
            final(self).selected == 0,
            final(self).scroll == 0,
            final(self).entries == old(self).entries,
            final(self).filter_query == old(self).filter_query,
            final(self).current_dir == old(self).current_dir,
    {
        let filtered = passing_indices(&self.entries, self.filter_query.as_str());
        self.filtered_entries = filtered;
        self.selected = 0;
        self.scroll = 0;
    }
}

} // verus!
