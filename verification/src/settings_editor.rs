//! The settings tab: a list of every keybinding and theme entry, a cursor
//! over it, and an editing line that commits a new value into the
//! configuration.
use crate::keys::{KeyCode, KeyEvent};
use crate::settings::{spec_lookup, Config, Keybindings};
use crate::strutil::{string_drop_last, string_push};
use vstd::prelude::*;
use vstd::string::StringExecFns;

verus! {

/// The entry of the settings list under edit.
pub enum EditableField {
    Keybinding(String),
    ThemePreset,
    ThemePrimaryBg,
    ThemeSecondaryBg,
    ThemeTextFg,
    ThemeHighlightFg,
    ThemeHighlightBg,
}

/// An editing line: the field it will commit to, and the text typed so far.
pub struct EditingState {
    pub field: EditableField,
    pub input_buffer: String,
}

/// The settings tab's state.
pub struct SettingsEditor {
    pub selected: usize,
    pub editing_state: Option<EditingState>,
}

/// How many entries the settings list shows: a keybindings header, the
/// bindings, a spacer, a theme header, and the six theme entries.
pub open spec fn spec_total_items(config: Config) -> int {
    3 + config.keybindings.global@.len() as int + 6
}

/// Which editable field an entry of the list denotes, if any; headers and
/// the spacer denote none.
pub open spec fn spec_index_to_field(config: Config, index: int) -> Option<EditableField> {
    let len = config.keybindings.global@.len() as int;
    if 1 <= index < 1 + len {
        Option::Some(EditableField::Keybinding(config.keybindings.global@[index - 1].chord))
    } else if index == len + 3 {
        Option::Some(EditableField::ThemePreset)
    } else if index == len + 4 {
        Option::Some(EditableField::ThemePrimaryBg)
    } else if index == len + 5 {
        Option::Some(EditableField::ThemeSecondaryBg)
    } else if index == len + 6 {
        Option::Some(EditableField::ThemeTextFg)
    } else if index == len + 7 {
        Option::Some(EditableField::ThemeHighlightFg)
    } else if index == len + 8 {
        Option::Some(EditableField::ThemeHighlightBg)
    } else {
        Option::None
    }
}

/// The value a field currently has in the configuration; an unbound chord
/// edits from an empty line.
pub open spec fn spec_current_value(config: Config, field: EditableField) -> Seq<char> {
    match field {
        EditableField::Keybinding(ch) => match spec_lookup(config.keybindings.pairs(), ch@) {
            Option::Some(a) => a,
            Option::None => Seq::<char>::empty(),
        },
        EditableField::ThemePreset => config.theme.preset@,
        EditableField::ThemePrimaryBg => config.theme.primary_bg@,
        EditableField::ThemeSecondaryBg => config.theme.secondary_bg@,
        EditableField::ThemeTextFg => config.theme.text_fg@,
        EditableField::ThemeHighlightFg => config.theme.highlight_fg@,
        EditableField::ThemeHighlightBg => config.theme.highlight_bg@,
    }
}

/// How a configuration looks after committing `value` into `field`: the
/// named field holds the value and everything else is unchanged.
pub open spec fn commit_rel(
    oldc: Config,
    newc: Config,
    field: EditableField,
    value: String,
) -> bool {
    &&& newc.editor == oldc.editor
    &&& newc.terminal == oldc.terminal
    &&& match field {
        EditableField::Keybinding(ch) => {
            &&& Keybindings::set_action_rel(
                oldc.keybindings.global@,
                newc.keybindings.global@,
                ch@,
                value,
            )
            &&& newc.theme == oldc.theme
        },
        EditableField::ThemePreset => newc.keybindings.global@ == oldc.keybindings.global@
            && newc.theme == (crate::settings::Theme { preset: value, ..oldc.theme }),
        EditableField::ThemePrimaryBg => newc.keybindings.global@ == oldc.keybindings.global@
            && newc.theme == (crate::settings::Theme { primary_bg: value, ..oldc.theme }),
        EditableField::ThemeSecondaryBg => newc.keybindings.global@ == oldc.keybindings.global@
            && newc.theme == (crate::settings::Theme { secondary_bg: value, ..oldc.theme }),
        EditableField::ThemeTextFg => newc.keybindings.global@ == oldc.keybindings.global@
            && newc.theme == (crate::settings::Theme { text_fg: value, ..oldc.theme }),
        EditableField::ThemeHighlightFg => newc.keybindings.global@ == oldc.keybindings.global@
            && newc.theme == (crate::settings::Theme { highlight_fg: value, ..oldc.theme }),
        EditableField::ThemeHighlightBg => newc.keybindings.global@ == oldc.keybindings.global@
            && newc.theme == (crate::settings::Theme { highlight_bg: value, ..oldc.theme }),
    }
}

impl SettingsEditor {
    pub fn new() -> (r: SettingsEditor)
        ensures
            r.selected == 0,
            r.editing_state is None,
    {
        SettingsEditor { selected: 0, editing_state: Option::None }
    }

    /// The number of entries the settings list shows.
    pub fn get_total_items(&self, config: &Config) -> (r: usize)
        requires
            config.keybindings.global@.len() + 9 <= usize::MAX,
        ensures
            r == spec_total_items(*config),
            r >= 9,
    {
        3 + config.keybindings.global.len() + 6
    }

    /// The editable field an entry denotes, if any.
    pub fn index_to_field(&self, index: usize, config: &Config) -> (r: Option<EditableField>)
        requires
            config.keybindings.global@.len() + 9 <= usize::MAX,
        ensures
            r == spec_index_to_field(*config, index as int),
    {
        let len = config.keybindings.global.len();
        if 1 <= index && index < 1 + len {
            Option::Some(
                EditableField::Keybinding(config.keybindings.global[index - 1].chord.clone()),
            )
        } else if index == len + 3 {
            Option::Some(EditableField::ThemePreset)
        } else if index == len + 4 {
            Option::Some(EditableField::ThemePrimaryBg)
        } else if index == len + 5 {
            Option::Some(EditableField::ThemeSecondaryBg)
        } else if index == len + 6 {
            Option::Some(EditableField::ThemeTextFg)
        } else if index == len + 7 {
            Option::Some(EditableField::ThemeHighlightFg)
        } else if index == len + 8 {
            Option::Some(EditableField::ThemeHighlightBg)
        } else {
            Option::None
        }
    }

    /// Moves the cursor up one entry, wrapping at the top.
    pub fn previous(&mut self, total_items: usize)
        requires
            total_items > 0,
        ensures
            final(self).editing_state == old(self).editing_state,
            final(self).selected == if old(self).selected == 0 {
                total_items - 1
            } else {
                old(self).selected - 1
            },
    {
        if self.selected == 0 {
            self.selected = total_items - 1;
        } else {
            self.selected = self.selected - 1;
        }
    }

    /// Moves the cursor down one entry, wrapping at the bottom.
    pub fn next(&mut self, total_items: usize)
        requires
            total_items > 0,
        ensures
            final(self).editing_state == old(self).editing_state,
            final(self).selected == if old(self).selected as int + 1 >= total_items as int {
                0int
            } else {
                old(self).selected + 1
            },
    {
        if self.selected >= total_items - 1 {
            self.selected = 0;
        } else {
            self.selected = self.selected + 1;
        }
    }

    /// Commits a value into a field of the configuration.
    fn commit(config: &mut Config, field: &EditableField, value: String)
        ensures
            commit_rel(*old(config), *final(config), *field, value),
    {
        match field {
            EditableField::Keybinding(ch) => {
                config.keybindings.set_action(ch.as_str(), value);
            },
            EditableField::ThemePreset => {
                config.theme.preset = value;
            },
            EditableField::ThemePrimaryBg => {
                config.theme.primary_bg = value;
            },
            EditableField::ThemeSecondaryBg => {
                config.theme.secondary_bg = value;
            },
            EditableField::ThemeTextFg => {
                config.theme.text_fg = value;
            },
            EditableField::ThemeHighlightFg => {
                config.theme.highlight_fg = value;
            },
            EditableField::ThemeHighlightBg => {
                config.theme.highlight_bg = value;
            },
        }
    }

    /// Routes one key press.  In navigation mode the cursor moves and enter
    /// opens the editing line on an editable entry; in editing mode typing
    /// grows the line, backspace shrinks it, escape abandons it, and enter
    /// commits it into the configuration.  Returns whether the configuration
    /// changed and should be persisted.
    pub fn handle_key(&mut self, key: KeyEvent, config: &mut Config) -> (save: bool)
        requires
            old(config).keybindings.global@.len() + 9 <= usize::MAX,
        ensures
            match old(self).editing_state {
                Option::Some(es) => match key.code {
                    KeyCode::Char(c) => {
                        &&& !save
                        &&& *final(config) == *old(config)
                        &&& final(self).selected == old(self).selected
                        &&& final(self).editing_state matches Option::Some(es2) && es2.field
                            == es.field && es2.input_buffer@ == es.input_buffer@.push(c)
                    },
                    KeyCode::Backspace => {
                        &&& !save
                        &&& *final(config) == *old(config)
                        &&& final(self).selected == old(self).selected
                        &&& final(self).editing_state matches Option::Some(es2) && es2.field
                            == es.field && es2.input_buffer@ == if es.input_buffer@.len() == 0 {
                            es.input_buffer@
                        } else {
                            es.input_buffer@.drop_last()
                        }
                    },
                    KeyCode::Esc => {
                        &&& !save
                        &&& *final(config) == *old(config)
                        &&& final(self).selected == old(self).selected
                        &&& final(self).editing_state is None
                    },
                    KeyCode::Enter => {
                        &&& save
                        &&& commit_rel(*old(config), *final(config), es.field, es.input_buffer)
                        &&& final(self).selected == old(self).selected
                        &&& final(self).editing_state is None
                    },
                    _ => {
                        &&& !save
                        &&& *final(config) == *old(config)
                        &&& *final(self) == *old(self)
                    },
                },
                Option::None => match key.code {
                    KeyCode::Up => {
                        &&& !save
                        &&& *final(config) == *old(config)
                        &&& final(self).editing_state is None
                        &&& final(self).selected == if old(self).selected == 0 {
                            spec_total_items(*old(config)) - 1
                        } else {
                            old(self).selected - 1
                        }
                    },
                    KeyCode::Down => {
                        &&& !save
                        &&& *final(config) == *old(config)
                        &&& final(self).editing_state is None
                        &&& final(self).selected == if old(self).selected + 1 >= spec_total_items(
                            *old(config),
                        ) {
                            0int
                        } else {
                            old(self).selected + 1
                        }
                    },
                    KeyCode::Enter => {
                        &&& !save
                        &&& *final(config) == *old(config)
                        &&& final(self).selected == old(self).selected
                        &&& match spec_index_to_field(*old(config), old(self).selected as int) {
                            Option::Some(field) => final(self).editing_state matches Option::Some(
                                es,
                            ) && es.field == field && es.input_buffer@ == spec_current_value(
                                *old(config),
                                field,
                            ),
                            Option::None => final(self).editing_state is None,
                        }
                    },
                    _ => {
                        &&& !save
                        &&& *final(config) == *old(config)
                        &&& *final(self) == *old(self)
                    },
                },
            },
    {
        let editing = self.editing_state.take();
        match editing {
            Option::Some(mut es) => {
                match key.code {
                    KeyCode::Char(c) => {
                        string_push(&mut es.input_buffer, c);
                        self.editing_state = Option::Some(es);
                        false
                    },
                    KeyCode::Backspace => {
                        es.input_buffer = string_drop_last(&es.input_buffer);
                        self.editing_state = Option::Some(es);
                        false
                    },
                    KeyCode::Esc => {
                        self.editing_state = Option::None;
                        false
                    },
                    KeyCode::Enter => {
                        Self::commit(config, &es.field, es.input_buffer);
                        self.editing_state = Option::None;
                        true
                    },
                    _ => {
                        self.editing_state = Option::Some(es);
                        false
                    },
                }
            },
            Option::None => {
                let total_items = self.get_total_items(config);
                match key.code {
                    KeyCode::Up => {
                        self.previous(total_items);
                        false
                    },
                    KeyCode::Down => {
                        self.next(total_items);
                        false
                    },
                    KeyCode::Enter => {
                        match self.index_to_field(self.selected, config) {
                            Option::Some(field) => {
                                let current_value: String = match &field {
                                    EditableField::Keybinding(ch) => {
                                        match config.keybindings.lookup(ch.as_str()) {
                                            Option::Some(a) => a,
                                            Option::None => String::new(),
                                        }
                                    },
                                    EditableField::ThemePreset => config.theme.preset.clone(),
                                    EditableField::ThemePrimaryBg => config
                                        .theme
                                        .primary_bg
                                        .clone(),
                                    EditableField::ThemeSecondaryBg => config
                                        .theme
                                        .secondary_bg
                                        .clone(),
                                    EditableField::ThemeTextFg => config.theme.text_fg.clone(),
                                    EditableField::ThemeHighlightFg => config
                                        .theme
                                        .highlight_fg
                                        .clone(),
                                    EditableField::ThemeHighlightBg => config
                                        .theme
                                        .highlight_bg
                                        .clone(),
                                };
                                self.editing_state = Option::Some(
                                    EditingState { field, input_buffer: current_value },
                                );
                            },
                            Option::None => {},
                        }
                        false
                    },
                    _ => {
                        false
                    },
                }
            },
        }
    }
}

} // verus!
