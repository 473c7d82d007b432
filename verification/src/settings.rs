//! Configuration data: the global keybinding table, the theme's colour
//! names, and the editor command.  Loading and saving these from disk is the
//! caller's affair; here they are plain data with exact contracts.
use crate::strutil::str_eq;
use vstd::prelude::*;
use vstd::string::StringExecFns;

verus! {

/// One keybinding: a canonical chord string bound to an action name.
pub struct Binding {
    pub chord: String,
    pub action: String,
}

/// The global keybinding table, looked up by canonical chord string; the
/// first binding of a chord wins.
pub struct Keybindings {
    pub global: Vec<Binding>,
}

/// The table as chord/action pairs of character sequences.
pub open spec fn binding_pairs(bs: Seq<Binding>) -> Seq<(Seq<char>, Seq<char>)> {
    bs.map_values(|b: Binding| (b.chord@, b.action@))
}

/// The action bound to a chord: the first pair whose chord matches.
pub open spec fn spec_lookup(pairs: Seq<(Seq<char>, Seq<char>)>, chord: Seq<char>) -> Option<
    Seq<char>,
>
    decreases pairs.len(),
{
    if pairs.len() == 0 {
        Option::None
    } else if pairs.first().0 == chord {
        Option::Some(pairs.first().1)
    } else {
        spec_lookup(pairs.drop_first(), chord)
    }
}

impl Keybindings {
    /// The table's pairs.
    pub open spec fn pairs(&self) -> Seq<(Seq<char>, Seq<char>)> {
        binding_pairs(self.global@)
    }

    /// Looks up the action bound to a chord.
    pub fn lookup(&self, chord: &str) -> (r: Option<String>)
        ensures
            match r {
                Option::Some(action) => spec_lookup(self.pairs(), chord@) == Option::Some(
                    action@,
                ),
                Option::None => spec_lookup(self.pairs(), chord@) is None,
            },
    {
        let n = self.global.len();
        let mut i: usize = 0;
        proof {
            assert(self.pairs().skip(0) =~= self.pairs());
        }
        while i < n
            invariant
                i <= n,
                n == self.global@.len(),
                spec_lookup(self.pairs(), chord@) == spec_lookup(
                    self.pairs().skip(i as int),
                    chord@,
                ),
            decreases n - i,
        {
            let b = &self.global[i];
            if str_eq(b.chord.as_str(), chord) {
                proof {
                    assert(self.pairs().skip(i as int).first() == (
                        self.global@[i as int].chord@,
                        self.global@[i as int].action@,
                    ));
                }
                return Option::Some(b.action.clone());
            }
            proof {
                assert(self.pairs().skip(i as int).drop_first() =~= self.pairs().skip(
                    i as int + 1,
                ));
                assert(self.pairs().skip(i as int).first() == (
                    self.global@[i as int].chord@,
                    self.global@[i as int].action@,
                ));
            }
            i += 1;
        }
        proof {
            assert(self.pairs().skip(n as int) =~= Seq::<(Seq<char>, Seq<char>)>::empty());
        }
        Option::None
    }

    /// Adds one binding at the end of the table.
    pub fn insert(&mut self, chord: String, action: String)
        ensures
            final(self).global@ == old(self).global@.push((Binding { chord, action })),
    {
        self.global.push(Binding { chord, action });
    }

    /// How a table looks after rebinding a chord: either the first binding
    /// of the chord got `value` as its action, or no binding had the chord
    /// and the table is unchanged.
    pub open spec fn set_action_rel(
        olds: Seq<Binding>,
        news: Seq<Binding>,
        chord: Seq<char>,
        value: String,
    ) -> bool {
        ||| (exists|i: int|
            {
                &&& 0 <= i < olds.len()
                &&& (#[trigger] olds[i]).chord@ == chord
                &&& (forall|k: int| 0 <= k < i ==> olds[k].chord@ != chord)
                &&& news == olds.update(i, (Binding { chord: olds[i].chord, action: value }))
            })
        ||| (news == olds && (forall|k: int| 0 <= k < olds.len() ==> olds[k].chord@ != chord))
    }

    /// Rebinds a chord: the first binding of `chord` gets `value` as its
    /// action; a chord that is not bound leaves the table unchanged.  Returns
    /// whether a binding was changed.
    pub fn set_action(&mut self, chord: &str, value: String) -> (r: bool)
        ensures
            r ==> exists|i: int|
                {
                    &&& 0 <= i < old(self).global@.len()
                    &&& (#[trigger] old(self).global@[i]).chord@ == chord@
                    &&& (forall|k: int|
                        0 <= k < i ==> old(self).global@[k].chord@ != chord@)
                    &&& final(self).global@ == old(self).global@.update(
                        i,
                        (Binding { chord: old(self).global@[i].chord, action: value }),
                    )
                },
            !r ==> final(self).global@ == old(self).global@ && (forall|k: int|
                0 <= k < old(self).global@.len() ==> old(self).global@[k].chord@ != chord@),
    {
        let n = self.global.len();
        let mut i: usize = 0;
        while i < n
            invariant
                i <= n,
                n == self.global@.len(),
                self.global@ == old(self).global@,
                forall|k: int| 0 <= k < i ==> old(self).global@[k].chord@ != chord@,
            decreases n - i,
        {
            if str_eq(self.global[i].chord.as_str(), chord) {
                let b = self.global.remove(i);
                self.global.insert(i, Binding { chord: b.chord, action: value });
                proof {
                    assert(self.global@ =~= old(self).global@.update(
                        i as int,
                        Binding { chord: old(self).global@[i as int].chord, action: value },
                    ));
                }
                return true;
            }
            i += 1;
        }
        false
    }
}

impl Default for Keybindings {
    /// The stock bindings the shell ships with.
    fn default() -> (r: Keybindings)
        ensures
            r.pairs() == seq![
                ("Ctrl-Q"@, "quit"@),
                ("Ctrl-B"@, "toggle_primary_sidebar"@),
                ("Ctrl-J"@, "toggle_panel"@),
                ("Ctrl-K"@, "cycle_focus"@),
                ("Ctrl-P"@, "toggle_command_palette"@),
                ("Ctrl-N"@, "new_tab"@),
                ("Ctrl-W"@, "close_tab"@),
                ("Alt-H"@, "prev_tab"@),
                ("Alt-L"@, "next_tab"@),
            ],
    {
        let mut kb = Keybindings { global: Vec::new() };
        kb.insert(String::from_str("Ctrl-Q"), String::from_str("quit"));
        kb.insert(String::from_str("Ctrl-B"), String::from_str("toggle_primary_sidebar"));
        kb.insert(String::from_str("Ctrl-J"), String::from_str("toggle_panel"));
        kb.insert(String::from_str("Ctrl-K"), String::from_str("cycle_focus"));
        kb.insert(String::from_str("Ctrl-P"), String::from_str("toggle_command_palette"));
        kb.insert(String::from_str("Ctrl-N"), String::from_str("new_tab"));
        kb.insert(String::from_str("Ctrl-W"), String::from_str("close_tab"));
        kb.insert(String::from_str("Alt-H"), String::from_str("prev_tab"));
        kb.insert(String::from_str("Alt-L"), String::from_str("next_tab"));
        proof {
            assert(kb.pairs() =~= seq![
                ("Ctrl-Q"@, "quit"@),
                ("Ctrl-B"@, "toggle_primary_sidebar"@),
                ("Ctrl-J"@, "toggle_panel"@),
                ("Ctrl-K"@, "cycle_focus"@),
                ("Ctrl-P"@, "toggle_command_palette"@),
                ("Ctrl-N"@, "new_tab"@),
                ("Ctrl-W"@, "close_tab"@),
                ("Alt-H"@, "prev_tab"@),
                ("Alt-L"@, "next_tab"@),
            ]);
        }
        kb
    }
}

/// The theme's colour names, kept as the configuration file writes them;
/// parsing colour names into drawing colours happens outside this crate.
pub struct Theme {
    pub preset: String,
    pub primary_bg: String,
    pub secondary_bg: String,
    pub text_fg: String,
    pub highlight_fg: String,
    pub highlight_bg: String,
}

impl Default for Theme {
    fn default() -> (r: Theme)
        ensures
            r.preset@ == "default-dark"@,
            r.primary_bg@ == "Black"@,
            r.secondary_bg@ == "#222222"@,
            r.text_fg@ == "White"@,
            r.highlight_fg@ == "Yellow"@,
            r.highlight_bg@ == "Blue"@,
    {
        Theme {
            preset: String::from_str("default-dark"),
            primary_bg: String::from_str("Black"),
            secondary_bg: String::from_str("#222222"),
            text_fg: String::from_str("White"),
            highlight_fg: String::from_str("Yellow"),
            highlight_bg: String::from_str("Blue"),
        }
    }
}

/// The whole configuration.  The editor command's default is fixed here; a
/// caller that honours an environment override substitutes it before
/// constructing the application state.
pub struct Config {
    pub editor: String,
    pub terminal: Option<String>,
    pub keybindings: Keybindings,
    pub theme: Theme,
}

impl Default for Config {
    fn default() -> (r: Config)
        ensures
            r.editor@ == "vi"@,
            r.terminal is None,
            r.keybindings.pairs() == Keybindings::default_pairs(),
            r.theme.preset@ == "default-dark"@,
    {
        Config {
            editor: String::from_str("vi"),
            terminal: Option::None,
            keybindings: Keybindings::default(),
            theme: Theme::default(),
        }
    }
}

impl Keybindings {
    /// The pairs of the stock table, for speaking about defaults.
    pub open spec fn default_pairs() -> Seq<(Seq<char>, Seq<char>)> {
        seq![
            ("Ctrl-Q"@, "quit"@),
            ("Ctrl-B"@, "toggle_primary_sidebar"@),
            ("Ctrl-J"@, "toggle_panel"@),
            ("Ctrl-K"@, "cycle_focus"@),
            ("Ctrl-P"@, "toggle_command_palette"@),
            ("Ctrl-N"@, "new_tab"@),
            ("Ctrl-W"@, "close_tab"@),
            ("Alt-H"@, "prev_tab"@),
            ("Alt-L"@, "next_tab"@),
        ]
    }
}

} // verus!
