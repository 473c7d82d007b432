//! The command palette overlay: a query line edited at grapheme-cluster
//! boundaries, a candidate list filtered from the registered commands or the
//! available files, and a selection cycled over it.
//!
//! A query that starts with `>` searches commands; any other query searches
//! files.  Matching is case-insensitive substring search.  The file listing
//! itself is supplied by the caller; the palette only filters it.
//!
//! Candidates are listed in registration order; the stock commands are
//! registered in ascending name order, so the default palette shows them
//! sorted.
use crate::keys::{KeyCode, KeyEvent};
use crate::strutil::{
    concat_seqs, graphemes_of, lemma_concat_push, lemma_seq_lt_connected, lemma_seq_lt_trans,
    lower_of, seq_lt, sorted_unique, spec_contains, split_graphemes, str_contains, str_eq, str_lt,
    string_push, to_lowercase,
};
use vstd::math::min;
use vstd::prelude::*;
use vstd::string::{StrSliceExecFns, StringExecFns};

verus! {

/// What the query line searches.
#[derive(PartialEq, Eq, Clone, Copy, Debug, Structural)]
pub enum PaletteMode {
    Command,
    File,
}

/// One registered command: its canonical name and a short explanation.
pub struct CommandEntry {
    pub name: String,
    pub explain: String,
}

/// What a key press did to the palette, as seen by the dispatcher.
pub enum CommandPaletteEvent {
    Ignored,
    Exit,
    ExecuteCommand(String),
    OpenFile(String),
    OpenSettings,
}

/// The palette's state.
pub struct CommandPalette {
    pub input: String,
    pub cursor_grapheme: usize,
    pub mode: PaletteMode,
    pub commands: Vec<CommandEntry>,
    pub command_candidates: Vec<String>,
    pub file_candidates: Vec<String>,
    pub available_files: Vec<String>,
    pub selected: Option<usize>,
}

/// The names of the registered commands, in table order.
pub open spec fn command_names(cmds: Seq<CommandEntry>) -> Seq<Seq<char>> {
    cmds.map_values(|c: CommandEntry| c.name@)
}

/// Whether `n` occurs among `names`.
pub open spec fn has_name(names: Seq<Seq<char>>, n: Seq<char>) -> bool {
    exists|i: int| 0 <= i < names.len() && #[trigger] names[i] == n
}

/// Whether a candidate name matches a query already folded to lowercase: an
/// empty query matches everything, any other query must occur in the folded
/// name.
pub open spec fn cand_matches(name: Seq<char>, q: Seq<char>) -> bool {
    q.len() == 0 || spec_contains(lower_of(name), q)
}

/// The names that match a folded query, in order.
pub open spec fn matching_names(names: Seq<Seq<char>>, q: Seq<char>) -> Seq<Seq<char>>
    decreases names.len(),
{
    if names.len() == 0 {
        Seq::<Seq<char>>::empty()
    } else {
        let rest = matching_names(names.drop_last(), q);
        if cand_matches(names.last(), q) {
            rest.push(names.last())
        } else {
            rest
        }
    }
}

/// Every name the filter keeps is one of the names it was given.
proof fn lemma_matching_membership(names: Seq<Seq<char>>, q: Seq<char>)
    ensures
        forall|j: int|
            0 <= j < matching_names(names, q).len() ==> exists|i: int|
                0 <= i < names.len() && #[trigger] matching_names(names, q)[j] == names[i],
    decreases names.len(),
{
    if names.len() > 0 {
        lemma_matching_membership(names.drop_last(), q);
        let rest = matching_names(names.drop_last(), q);
        assert forall|j: int| 0 <= j < matching_names(names, q).len() implies exists|i: int|
            0 <= i < names.len() && #[trigger] matching_names(names, q)[j] == names[i] by {
            if j < rest.len() {
                let i = choose|i: int|
                    0 <= i < names.drop_last().len() && #[trigger] rest[j] == names.drop_last()[i];
                assert(0 <= i < names.len() && matching_names(names, q)[j] == names[i]);
            } else {
                let i = names.len() - 1;
                assert(0 <= i < names.len() && matching_names(names, q)[j] == names[i]);
            }
        }
    }
}

/// Filtering ascending, duplicate-free names keeps them ascending and
/// duplicate-free.
pub proof fn lemma_matching_sorted(names: Seq<Seq<char>>, q: Seq<char>)
    requires
        sorted_unique(names),
    ensures
        sorted_unique(matching_names(names, q)),
    decreases names.len(),
{
    if names.len() > 0 {
        lemma_matching_sorted(names.drop_last(), q);
        let rest = matching_names(names.drop_last(), q);
        let out = matching_names(names, q);
        if cand_matches(names.last(), q) {
            lemma_matching_membership(names.drop_last(), q);
            assert forall|j: int, k: int| 0 <= j < k < out.len() implies seq_lt(
                #[trigger] out[j],
                #[trigger] out[k],
            ) by {
                if k < rest.len() {
                    assert(seq_lt(rest[j], rest[k]));
                } else {
                    let i = choose|i: int|
                        0 <= i < names.drop_last().len() && #[trigger] rest[j]
                            == names.drop_last()[i];
                    assert(seq_lt(names[i], names[names.len() - 1]));
                }
            }
        }
    }
}

/// How many leading `>` characters the query has.
pub open spec fn count_leading_gt(s: Seq<char>) -> int
    decreases s.len(),
{
    if s.len() == 0 || s.first() != '>' {
        0
    } else {
        1 + count_leading_gt(s.drop_first())
    }
}

/// A prefix of all-`>` characters followed by a non-`>` boundary is exactly
/// what `count_leading_gt` counts.
proof fn lemma_count_gt(s: Seq<char>, i: int)
    requires
        0 <= i <= s.len(),
        forall|j: int| 0 <= j < i ==> s[j] == '>',
        i == s.len() || s[i] != '>',
    ensures
        count_leading_gt(s) == i,
    decreases s.len(),
{
    if s.len() == 0 || s.first() != '>' {
    } else {
        lemma_count_gt(s.drop_first(), i - 1);
    }
}

/// The query in command mode: the input without its leading `>` characters,
/// folded to lowercase.
pub open spec fn command_query(input: Seq<char>) -> Seq<char> {
    lower_of(input.skip(count_leading_gt(input)))
}

/// The candidate lists and mode agree with the query: a query starting with
/// `>` shows the matching command names, any other query shows the matching
/// file names.  The list of the other mode is left as it was.
pub open spec fn candidates_ok(p: CommandPalette) -> bool {
    if p.input@.len() > 0 && p.input@.first() == '>' {
        &&& p.mode == PaletteMode::Command
        &&& p.command_candidates.deep_view() == matching_names(
            command_names(p.commands@),
            command_query(p.input@),
        )
    } else {
        &&& p.mode == PaletteMode::File
        &&& p.file_candidates.deep_view() == matching_names(
            p.available_files.deep_view(),
            lower_of(p.input@),
        )
    }
}

/// The number of candidates in the current mode.
pub open spec fn spec_results_count(p: CommandPalette) -> int {
    match p.mode {
        PaletteMode::Command => p.command_candidates@.len() as int,
        PaletteMode::File => p.file_candidates@.len() as int,
    }
}

/// Filters names by a folded query.
fn filter_names(names: &Vec<String>, q: &str) -> (r: Vec<String>)
    ensures
        r.deep_view() == matching_names(names.deep_view(), q@),
{
    let mut r: Vec<String> = Vec::new();
    let n = names.len();
    let mut i: usize = 0;
    while i < n
        invariant
            i <= n,
            n == names@.len(),
            r.deep_view() == matching_names(names.deep_view().take(i as int), q@),
        decreases n - i,
    {
        let ghost pre = r.deep_view();
        let keep = if q.unicode_len() == 0 {
            true
        } else {
            let folded = to_lowercase(names[i].as_str());
            str_contains(folded.as_str(), q)
        };
        if keep {
            r.push(names[i].clone());
        }
        proof {
            assert(names.deep_view().take(i as int + 1).drop_last() =~= names.deep_view().take(
                i as int,
            ));
            assert(names.deep_view().take(i as int + 1).last() == names.deep_view()[i as int]);
            if keep {
                assert(r.deep_view() =~= pre.push(names@[i as int]@));
            }
        }
        i += 1;
    }
    proof {
        assert(names.deep_view().take(n as int) =~= names.deep_view());
    }
    r
}

/// Filters command names by a folded query.
fn filter_commands(cmds: &Vec<CommandEntry>, q: &str) -> (r: Vec<String>)
    ensures
        r.deep_view() == matching_names(command_names(cmds@), q@),
{
    let mut names: Vec<String> = Vec::new();
    let n = cmds.len();
    let mut i: usize = 0;
    while i < n
        invariant
            i <= n,
            n == cmds@.len(),
            names.deep_view() == command_names(cmds@.take(i as int)),
        decreases n - i,
    {
        let ghost pre = names.deep_view();
        names.push(cmds[i].name.clone());
        proof {
            assert(names.deep_view() =~= pre.push(cmds@[i as int].name@));
            assert(command_names(cmds@.take(i as int + 1)) =~= command_names(
                cmds@.take(i as int),
            ).push(cmds@[i as int].name@));
        }
        i += 1;
    }
    proof {
        assert(cmds@.take(n as int) =~= cmds@);
        assert(names.deep_view() =~= command_names(cmds@));
    }
    filter_names(&names, q)
}

/// The number of grapheme clusters of a string.
fn grapheme_count(s: &str) -> (r: usize)
    ensures
        r == graphemes_of(s@).len(),
{
    let gs = split_graphemes(s);
    proof {
        assert(gs.deep_view().len() == gs@.len());
    }
    gs.len()
}

/// The string with `c` inserted at the grapheme boundary `cur`.
fn rebuild_insert(s: &str, cur: usize, c: char) -> (r: String)
    requires
        cur <= graphemes_of(s@).len(),
    ensures
        r@ == concat_seqs(graphemes_of(s@).take(cur as int)) + seq![c] + concat_seqs(
            graphemes_of(s@).skip(cur as int),
        ),
{
    let gs = split_graphemes(s);
    let ghost gsv = graphemes_of(s@);
    let n = gs.len();
    proof {
        assert(gs.deep_view().len() == gs@.len());
    }
    let mut out = String::new();
    let mut i: usize = 0;
    while i < cur
        invariant
            cur <= n,
            n == gs@.len(),
            gs.deep_view() == gsv,
            i <= cur,
            out@ == concat_seqs(gsv.take(i as int)),
        decreases cur - i,
    {
        out.append(gs[i].as_str());
        proof {
            assert(gsv.take(i as int + 1) =~= gsv.take(i as int).push(gsv[i as int]));
            lemma_concat_push(gsv.take(i as int), gsv[i as int]);
            assert(gs@[i as int]@ == gsv[i as int]);
        }
        i += 1;
    }
    string_push(&mut out, c);
    proof {
        assert(out@ == concat_seqs(gsv.take(cur as int)) + seq![c]);
    }
    while i < n
        invariant
            cur <= i <= n,
            n == gs@.len(),
            gs.deep_view() == gsv,
            out@ == concat_seqs(gsv.take(cur as int)) + seq![c] + concat_seqs(
                gsv.subrange(cur as int, i as int),
            ),
        decreases n - i,
    {
        out.append(gs[i].as_str());
        proof {
            assert(gsv.subrange(cur as int, i as int + 1) =~= gsv.subrange(
                cur as int,
                i as int,
            ).push(gsv[i as int]));
            lemma_concat_push(gsv.subrange(cur as int, i as int), gsv[i as int]);
            assert(gs@[i as int]@ == gsv[i as int]);
        }
        i += 1;
    }
    proof {
        assert(gsv.subrange(cur as int, n as int) =~= gsv.skip(cur as int));
    }
    out
}

/// The string with the grapheme cluster at `idx` removed.
fn rebuild_remove(s: &str, idx: usize) -> (r: String)
    requires
        idx < graphemes_of(s@).len(),
    ensures
        r@ == concat_seqs(graphemes_of(s@).remove(idx as int)),
{
    let gs = split_graphemes(s);
    let ghost gsv = graphemes_of(s@);
    let n = gs.len();
    proof {
        assert(gs.deep_view().len() == gs@.len());
    }
    let mut out = String::new();
    let mut i: usize = 0;
    while i < n
        invariant
            idx < n,
            n == gs@.len(),
            gs.deep_view() == gsv,
            i <= n,
            out@ == concat_seqs(
                if i <= idx {
                    gsv.take(i as int)
                } else {
                    gsv.remove(idx as int).take(i as int - 1)
                },
            ),
        decreases n - i,
    {
        if i != idx {
            out.append(gs[i].as_str());
        }
        proof {
            let rem = gsv.remove(idx as int);
            if i < idx {
                assert(gsv.take(i as int + 1) =~= gsv.take(i as int).push(gsv[i as int]));
                lemma_concat_push(gsv.take(i as int), gsv[i as int]);
                assert(gs@[i as int]@ == gsv[i as int]);
            } else if i == idx {
                assert(rem.take(i as int) =~= gsv.take(i as int));
            } else {
                assert(rem.take(i as int) =~= rem.take(i as int - 1).push(gsv[i as int]));
                lemma_concat_push(rem.take(i as int - 1), gsv[i as int]);
                assert(gs@[i as int]@ == gsv[i as int]);
            }
        }
        i += 1;
    }
    proof {
        assert(gsv.remove(idx as int).take(n as int - 1) =~= gsv.remove(idx as int));
    }
    out
}

impl CommandPalette {
    /// The candidate lists agree with the query, and the selection starts at
    /// the first candidate when there is one.
    pub open spec fn fresh_selection(&self) -> bool {
        self.selected == if spec_results_count(*self) > 0 {
            Option::Some(0usize)
        } else {
            Option::<usize>::None
        }
    }

    /// Recomputes mode and candidate list from the query, and resets the
    /// selection to the first candidate.  Candidates keep the registration
    /// order of the commands, and the caller's order of the files.
    pub fn update_mode_and_candidates(&mut self)
        ensures
            final(self).input == old(self).input,
            final(self).cursor_grapheme == old(self).cursor_grapheme,
            final(self).commands == old(self).commands,
            final(self).available_files == old(self).available_files,
            candidates_ok(*final(self)),
            final(self).fresh_selection(),
            final(self).mode == PaletteMode::Command ==> final(self).file_candidates == old(
                self,
            ).file_candidates,
            final(self).mode == PaletteMode::File ==> final(self).command_candidates == old(
                self,
            ).command_candidates,
    {
        let len = self.input.as_str().unicode_len();
        let starts_gt = len > 0 && self.input.as_str().get_char(0) == '>';
        if starts_gt {
            self.mode = PaletteMode::Command;
            let mut k: usize = 0;
            while k < len && self.input.as_str().get_char(k) == '>'
                invariant
                    k <= len,
                    len == self.input@.len(),
                    forall|j: int| 0 <= j < k ==> self.input@[j] == '>',
                decreases len - k,
            {
                k += 1;
            }
            proof {
                lemma_count_gt(self.input@, k as int);
            }
            let stripped = self.input.as_str().substring_char(k, len);
            proof {
                assert(stripped@ =~= self.input@.skip(count_leading_gt(self.input@)));
            }
            let q = to_lowercase(stripped);
            let cands = filter_commands(&self.commands, q.as_str());
            self.command_candidates = cands;
            self.selected = if self.command_candidates.len() > 0 {
                Option::Some(0)
            } else {
                Option::None
            };
        } else {
            self.mode = PaletteMode::File;
            let q = to_lowercase(self.input.as_str());
            let cands = filter_names(&self.available_files, q.as_str());
            self.file_candidates = cands;
            self.selected = if self.file_candidates.len() > 0 {
                Option::Some(0)
            } else {
                Option::None
            };
        }
    }

    /// An empty palette with the stock commands registered, in ascending
    /// name order.
    /// The registered names are kept ascending and duplicate-free, so the
    /// candidate list — a filter of them — always shows sorted, distinct
    /// names, the way a sorted listing of a map's keys would.
    pub open spec fn commands_wf(&self) -> bool {
        sorted_unique(command_names(self.commands@))
    }

    /// An empty palette with the stock commands registered.
    pub fn new() -> (r: CommandPalette)
        ensures
            r.input@.len() == 0,
            r.cursor_grapheme == 0,
            r.available_files@.len() == 0,
            r.commands_wf(),
            has_name(command_names(r.commands@), ">workbench.action.closeActiveEditor"@),
            has_name(command_names(r.commands@), ">workbench.action.files.newUntitledFile"@),
            has_name(command_names(r.commands@), ">workbench.action.files.openFile"@),
            has_name(command_names(r.commands@), ">workbench.action.files.save"@),
            has_name(command_names(r.commands@), ">workbench.action.openSettings"@),
            has_name(command_names(r.commands@), ">workbench.action.quickOpen"@),
            forall|n: Seq<char>|
                #[trigger] has_name(command_names(r.commands@), n) ==> n
                    == ">workbench.action.closeActiveEditor"@ || n
                    == ">workbench.action.files.newUntitledFile"@ || n
                    == ">workbench.action.files.openFile"@ || n
                    == ">workbench.action.files.save"@ || n
                    == ">workbench.action.openSettings"@ || n
                    == ">workbench.action.quickOpen"@,
            candidates_ok(r),
            r.fresh_selection(),
    {
        let mut cp = CommandPalette {
            input: String::new(),
            cursor_grapheme: 0,
            mode: PaletteMode::Command,
            commands: Vec::new(),
            command_candidates: Vec::new(),
            file_candidates: Vec::new(),
            available_files: Vec::new(),
            selected: Option::None,
        };
        cp.add_command(
            String::from_str(">workbench.action.closeActiveEditor"),
            String::from_str("Close the editor"),
        );
        cp.add_command(
            String::from_str(">workbench.action.files.newUntitledFile"),
            String::from_str("Create a new file"),
        );
        cp.add_command(
            String::from_str(">workbench.action.files.openFile"),
            String::from_str("Open a file"),
        );
        cp.add_command(
            String::from_str(">workbench.action.files.save"),
            String::from_str("Save the file"),
        );
        cp.add_command(
            String::from_str(">workbench.action.openSettings"),
            String::from_str("Open the settings"),
        );
        cp.add_command(
            String::from_str(">workbench.action.quickOpen"),
            String::from_str("Quick open"),
        );
        cp.update_mode_and_candidates();
        cp
    }

    /// Registers a command and refreshes the candidates.  The table is kept
    /// ascending by name and duplicate-free: a re-registered name replaces
    /// its entry.
    pub fn add_command(&mut self, name: String, explain: String)
        requires
            old(self).commands_wf(),
        ensures
            final(self).commands_wf(),
            has_name(command_names(final(self).commands@), name@),
            forall|n: Seq<char>|
                #[trigger] has_name(command_names(old(self).commands@), n) ==> has_name(
                    command_names(final(self).commands@),
                    n,
                ),
            forall|n: Seq<char>|
                #[trigger] has_name(command_names(final(self).commands@), n) ==> has_name(
                    command_names(old(self).commands@),
                    n,
                ) || n == name@,
            final(self).input == old(self).input,
            final(self).cursor_grapheme == old(self).cursor_grapheme,
            final(self).available_files == old(self).available_files,
            candidates_ok(*final(self)),
            final(self).fresh_selection(),
    {
        let n = self.commands.len();
        let mut i: usize = 0;
        while i < n && str_lt(self.commands[i].name.as_str(), name.as_str())
            invariant
                i <= n,
                n == self.commands@.len(),
                *self == *old(self),
                forall|k: int|
                    0 <= k < i ==> seq_lt((#[trigger] self.commands@[k]).name@, name@),
            decreases n - i,
        {
            i += 1;
        }
        let ghost names0 = command_names(old(self).commands@);
        let is_dup = i < n && str_eq(self.commands[i].name.as_str(), name.as_str());
        if is_dup {
            self.commands.remove(i);
            self.commands.insert(i, CommandEntry { name, explain });
            proof {
                assert(command_names(self.commands@) =~= names0);
                assert(command_names(self.commands@)[i as int] == name@);
                assert(has_name(command_names(self.commands@), name@));
            }
        } else {
            proof {
                if i < n {
                    lemma_seq_lt_connected(old(self).commands@[i as int].name@, name@);
                }
            }
            self.commands.insert(i, CommandEntry { name, explain });
            proof {
                names0.insert_ensures(i as int, name@);
                assert(command_names(self.commands@) =~= names0.insert(i as int, name@));
                assert(command_names(self.commands@)[i as int] == name@);
                assert(has_name(command_names(self.commands@), name@));
                let new_names = command_names(self.commands@);
                assert forall|j: int, k: int| 0 <= j < k < new_names.len() implies seq_lt(
                    #[trigger] new_names[j],
                    #[trigger] new_names[k],
                ) by {
                    if k < i {
                        assert(seq_lt(names0[j], names0[k]));
                    } else if k == i {
                        assert(seq_lt((old(self).commands@[j]).name@, name@));
                    } else if j < i {
                        assert(seq_lt(names0[j], names0[k - 1]));
                    } else if j == i {
                        if k - 1 == i {
                            assert(seq_lt(name@, names0[i as int]));
                        } else {
                            assert(seq_lt(names0[i as int], names0[k - 1]));
                            lemma_seq_lt_trans(name@, names0[i as int], names0[k - 1]);
                        }
                    } else {
                        assert(seq_lt(names0[j - 1], names0[k - 1]));
                    }
                }
                let new_len = new_names.len();
                assert forall|nm: Seq<char>| #[trigger] has_name(names0, nm) implies has_name(
                    new_names,
                    nm,
                ) by {
                    let m = choose|m: int| 0 <= m < names0.len() && #[trigger] names0[m] == nm;
                    if m < i {
                        assert(new_names[m] == nm);
                    } else {
                        assert(new_names[m + 1] == nm);
                    }
                }
                assert forall|nm: Seq<char>| #[trigger] has_name(new_names, nm) implies has_name(
                    names0,
                    nm,
                ) || nm == name@ by {
                    let m = choose|m: int| 0 <= m < new_len && #[trigger] new_names[m] == nm;
                    if m < i {
                        assert(names0[m] == nm);
                    } else if m == i {
                    } else {
                        assert(names0[m - 1] == nm);
                    }
                }
            }
        }
        self.update_mode_and_candidates();
    }

    /// Clears the query and the selection, as when the palette closes.
    pub fn reset(&mut self)
        ensures
            final(self).input@.len() == 0,
            final(self).cursor_grapheme == 0,
            final(self).commands == old(self).commands,
            final(self).available_files == old(self).available_files,
            candidates_ok(*final(self)),
            final(self).fresh_selection(),
    {
        self.input = String::new();
        self.cursor_grapheme = 0;
        self.update_mode_and_candidates();
    }

    /// Installs the file listing the file mode filters, and refreshes the
    /// candidates.
    pub fn set_available_files(&mut self, files: Vec<String>)
        ensures
            final(self).available_files == files,
            final(self).input == old(self).input,
            final(self).commands == old(self).commands,
            candidates_ok(*final(self)),
            final(self).fresh_selection(),
    {
        self.available_files = files;
        self.update_mode_and_candidates();
    }

    /// The number of candidates in the current mode.
    pub fn get_results_count(&self) -> (r: usize)
        ensures
            r == spec_results_count(*self),
    {
        match self.mode {
            PaletteMode::Command => self.command_candidates.len(),
            PaletteMode::File => self.file_candidates.len(),
        }
    }

    /// The command candidate list of a consistent palette is ascending and
    /// duplicate-free: it filters a table that registration keeps that way.
    pub proof fn lemma_candidates_sorted(p: CommandPalette)
        requires
            p.commands_wf(),
            candidates_ok(p),
            p.input@.len() > 0,
            p.input@.first() == '>',
        ensures
            sorted_unique(p.command_candidates.deep_view()),
    {
        lemma_matching_sorted(command_names(p.commands@), command_query(p.input@));
    }

    /// Everything except the cursor and the selection is the same in `a` and
    /// `b`.
    pub open spec fn same_lists(a: CommandPalette, b: CommandPalette) -> bool {
        &&& a.input == b.input
        &&& a.mode == b.mode
        &&& a.commands == b.commands
        &&& a.command_candidates == b.command_candidates
        &&& a.file_candidates == b.file_candidates
        &&& a.available_files == b.available_files
    }

    /// Routes one key press to the palette.  Typing edits the query at the
    /// (clamped) grapheme cursor and refilters the candidates; arrows move
    /// the cursor or the selection; enter yields the selected candidate;
    /// backspace on an empty query asks to close the palette.
    pub fn handle_key(&mut self, key: KeyEvent) -> (r: CommandPaletteEvent)
        ensures
            final(self).commands == old(self).commands,
            final(self).available_files == old(self).available_files,
            match key.code {
                KeyCode::Char(c) => {
                    let gs = graphemes_of(old(self).input@);
                    let cur = min(old(self).cursor_grapheme as int, gs.len() as int);
                    &&& final(self).input@ == concat_seqs(gs.take(cur)) + seq![c] + concat_seqs(
                        gs.skip(cur),
                    )
                    &&& final(self).cursor_grapheme == min(
                        cur + 1,
                        graphemes_of(final(self).input@).len() as int,
                    )
                    &&& candidates_ok(*final(self))
                    &&& final(self).fresh_selection()
                    &&& r is Ignored
                },
                KeyCode::Backspace => if old(self).input@.len() == 0 {
                    &&& *final(self) == *old(self)
                    &&& r is Exit
                } else {
                    let gs = graphemes_of(old(self).input@);
                    let cur = min(old(self).cursor_grapheme as int, gs.len() as int);
                    if cur > 0 {
                        &&& final(self).input@ == concat_seqs(gs.remove(cur - 1))
                        &&& final(self).cursor_grapheme == cur - 1
                        &&& candidates_ok(*final(self))
                        &&& final(self).fresh_selection()
                        &&& r is Ignored
                    } else {
                        &&& *final(self) == *old(self)
                        &&& r is Ignored
                    }
                },
                KeyCode::Left => {
                    let cur = min(
                        old(self).cursor_grapheme as int,
                        graphemes_of(old(self).input@).len() as int,
                    );
                    &&& Self::same_lists(*final(self), *old(self))
                    &&& final(self).selected == old(self).selected
                    &&& final(self).cursor_grapheme == if cur > 0 {
                        cur - 1
                    } else {
                        0int
                    }
                    &&& r is Ignored
                },
                KeyCode::Right => {
                    let gs_len = graphemes_of(old(self).input@).len() as int;
                    let cur = min(old(self).cursor_grapheme as int, gs_len);
                    &&& Self::same_lists(*final(self), *old(self))
                    &&& final(self).selected == old(self).selected
                    &&& final(self).cursor_grapheme == min(cur + 1, gs_len)
                    &&& r is Ignored
                },
                KeyCode::Down => {
                    let len = spec_results_count(*old(self));
                    &&& Self::same_lists(*final(self), *old(self))
                    &&& final(self).cursor_grapheme == old(self).cursor_grapheme
                    &&& final(self).selected == if len > 0 {
                        match old(self).selected {
                            Option::Some(i) => Option::Some(
                                (if i + 1 >= len {
                                    0
                                } else {
                                    i + 1
                                }) as usize,
                            ),
                            Option::None => Option::Some(0usize),
                        }
                    } else {
                        old(self).selected
                    }
                    &&& r is Ignored
                },
                KeyCode::Up => {
                    let len = spec_results_count(*old(self));
                    &&& Self::same_lists(*final(self), *old(self))
                    &&& final(self).cursor_grapheme == old(self).cursor_grapheme
                    &&& final(self).selected == if len > 0 {
                        match old(self).selected {
                            Option::Some(i) => Option::Some(
                                (if i == 0 {
                                    len - 1
                                } else {
                                    i - 1
                                }) as usize,
                            ),
                            Option::None => Option::Some(0usize),
                        }
                    } else {
                        old(self).selected
                    }
                    &&& r is Ignored
                },
                KeyCode::PageUp => {
                    &&& Self::same_lists(*final(self), *old(self))
                    &&& final(self).cursor_grapheme == old(self).cursor_grapheme
                    &&& final(self).selected == match old(self).selected {
                        Option::Some(i) => Option::Some(
                            (if i >= 10 {
                                i - 10
                            } else {
                                0int
                            }) as usize,
                        ),
                        Option::None => Option::<usize>::None,
                    }
                    &&& r is Ignored
                },
                KeyCode::PageDown => {
                    let len = spec_results_count(*old(self));
                    let cap = if len == 0 {
                        0int
                    } else {
                        len - 1
                    };
                    &&& Self::same_lists(*final(self), *old(self))
                    &&& final(self).cursor_grapheme == old(self).cursor_grapheme
                    &&& final(self).selected == match old(self).selected {
                        Option::Some(i) => Option::Some(min(i + 10, cap) as usize),
                        Option::None => Option::<usize>::None,
                    }
                    &&& r is Ignored
                },
                KeyCode::Enter => {
                    let idx = match old(self).selected {
                        Option::Some(i) => i as int,
                        Option::None => 0int,
                    };
                    &&& *final(self) == *old(self)
                    &&& match old(self).mode {
                        PaletteMode::Command => if idx < old(self).command_candidates@.len() {
                            if old(self).command_candidates@[idx]@
                                == ">workbench.action.openSettings"@ {
                                r is OpenSettings
                            } else {
                                r matches CommandPaletteEvent::ExecuteCommand(s) && s@ == old(
                                    self,
                                ).command_candidates@[idx]@
                            }
                        } else {
                            r is Ignored
                        },
                        PaletteMode::File => if idx < old(self).file_candidates@.len() {
                            r matches CommandPaletteEvent::OpenFile(s) && s@ == old(
                                self,
                            ).file_candidates@[idx]@
                        } else {
                            r is Ignored
                        },
                    }
                },
                _ => *final(self) == *old(self) && r is Ignored,
            },
    {
        match key.code {
            KeyCode::Char(c) => {
                let cnt = grapheme_count(self.input.as_str());
                let cur = if self.cursor_grapheme < cnt {
                    self.cursor_grapheme
                } else {
                    cnt
                };
                let new_input = rebuild_insert(self.input.as_str(), cur, c);
                self.input = new_input;
                let cnt2 = grapheme_count(self.input.as_str());
                self.cursor_grapheme = if cur >= cnt2 {
                    cnt2
                } else {
                    cur + 1
                };
                self.update_mode_and_candidates();
                CommandPaletteEvent::Ignored
            },
            KeyCode::Backspace => {
                if self.input.as_str().unicode_len() == 0 {
                    return CommandPaletteEvent::Exit;
                }
                let cnt = grapheme_count(self.input.as_str());
                let cur = if self.cursor_grapheme < cnt {
                    self.cursor_grapheme
                } else {
                    cnt
                };
                if cur > 0 {
                    let new_input = rebuild_remove(self.input.as_str(), cur - 1);
                    self.input = new_input;
                    self.cursor_grapheme = cur - 1;
                    self.update_mode_and_candidates();
                }
                CommandPaletteEvent::Ignored
            },
            KeyCode::Left => {
                let cnt = grapheme_count(self.input.as_str());
                let cur = if self.cursor_grapheme < cnt {
                    self.cursor_grapheme
                } else {
                    cnt
                };
                self.cursor_grapheme = if cur > 0 {
                    cur - 1
                } else {
                    0
                };
                CommandPaletteEvent::Ignored
            },
            KeyCode::Right => {
                let cnt = grapheme_count(self.input.as_str());
                let cur = if self.cursor_grapheme < cnt {
                    self.cursor_grapheme
                } else {
                    cnt
                };
                self.cursor_grapheme = if cur >= cnt {
                    cnt
                } else {
                    cur + 1
                };
                CommandPaletteEvent::Ignored
            },
            KeyCode::Down => {
                let len = self.get_results_count();
                if len > 0 {
                    self.selected = match self.selected {
                        Option::Some(i) => Option::Some(
                            if i >= len - 1 {
                                0
                            } else {
                                i + 1
                            },
                        ),
                        Option::None => Option::Some(0),
                    };
                }
                CommandPaletteEvent::Ignored
            },
            KeyCode::Up => {
                let len = self.get_results_count();
                if len > 0 {
                    self.selected = match self.selected {
                        Option::Some(i) => Option::Some(
                            if i == 0 {
                                len - 1
                            } else {
                                i - 1
                            },
                        ),
                        Option::None => Option::Some(0),
                    };
                }
                CommandPaletteEvent::Ignored
            },
            KeyCode::PageUp => {
                self.selected = match self.selected {
                    Option::Some(i) => Option::Some(
                        if i >= 10 {
                            i - 10
                        } else {
                            0
                        },
                    ),
                    Option::None => Option::None,
                };
                CommandPaletteEvent::Ignored
            },
            KeyCode::PageDown => {
                let len = self.get_results_count();
                let cap = if len == 0 {
                    0
                } else {
                    len - 1
                };
                self.selected = match self.selected {
                    Option::Some(i) => Option::Some(
                        if i >= cap || cap - i <= 10 {
                            cap
                        } else {
                            i + 10
                        },
                    ),
                    Option::None => Option::None,
                };
                CommandPaletteEvent::Ignored
            },
            KeyCode::Enter => {
                let idx = match self.selected {
                    Option::Some(i) => i,
                    Option::None => 0,
                };
                match self.mode {
                    PaletteMode::Command => {
                        if idx < self.command_candidates.len() {
                            let name = &self.command_candidates[idx];
                            if str_eq(name.as_str(), ">workbench.action.openSettings") {
                                CommandPaletteEvent::OpenSettings
                            } else {
                                CommandPaletteEvent::ExecuteCommand(name.clone())
                            }
                        } else {
                            CommandPaletteEvent::Ignored
                        }
                    },
                    PaletteMode::File => {
                        if idx < self.file_candidates.len() {
                            CommandPaletteEvent::OpenFile(self.file_candidates[idx].clone())
                        } else {
                            CommandPaletteEvent::Ignored
                        }
                    },
                }
            },
            _ => CommandPaletteEvent::Ignored,
        }
    }
}

} // verus!
