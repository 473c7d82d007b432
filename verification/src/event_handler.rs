//! The event dispatcher: one input event per call, routed through a fixed
//! priority chain — modal popup, command palette, focused terminal, global
//! keybindings, then the focused component.
//!
//! Everything the dispatcher cannot do itself (spawn a session, open a file,
//! persist the configuration, drive a sidebar widget) comes back to the
//! caller as a [`Directive`]; the state transition itself is performed here.
use crate::app::App;
use crate::command_palette::CommandPaletteEvent;
use crate::keys::{chord_spec, encode, key_event_to_string, KeyCode, KeyEvent};
use crate::popup::PopupResult;
use crate::settings::spec_lookup;
use crate::settings_editor::commit_rel;
use crate::tabs::{spec_cycle_next_ix, spec_cycle_prev_ix, Tab};
use crate::{ActiveTarget, MainWidgetContent};
use vstd::prelude::*;
use vstd::string::StringExecFns;

verus! {

/// What the caller's loop does with the event that was just handled.
#[derive(PartialEq, Eq, Clone, Copy, Debug, Structural)]
pub enum AppEvent {
    Quit,
    Continue,
}

/// A sink for the raw bytes a pseudo-terminal-backed session consumes.  The
/// caller's session types implement it; writing is fire-and-forget, a failed
/// write is detected later by the session's own reader.
pub trait PtyInput {
    fn send_input(&self, bytes: &[u8]);
}

/// An outside effect the dispatcher asks its caller to perform.
pub enum Directive {
    /// Nothing to do.
    Nothing,
    /// Spawn a terminal session and hand it to `add_terminal_tab`.
    SpawnTerminal,
    /// Spawn an editor session and hand it to `add_editor_tab`.
    SpawnEditor,
    /// Open the named file in a new editor tab.
    OpenFile(String),
    /// Run the bound action of the named palette command against the whole
    /// application.
    RunCommand(String),
    /// Forward the key to the active primary-sidebar widget.
    ForwardToSidebar,
    /// Persist the configuration.
    SaveConfig,
}

/// The closed set of actions a chord can be bound to; names outside it are
/// ignored.
#[derive(PartialEq, Eq, Clone, Copy, Debug, Structural)]
pub enum GlobalAction {
    Quit,
    TogglePrimarySidebar,
    ToggleSecondarySidebar,
    TogglePanel,
    CycleFocus,
    ToggleCommandPalette,
    NewTab,
    CloseTab,
    PrevTab,
    NextTab,
    Unknown,
}

/// Which action an action name denotes.
pub open spec fn spec_parse_action(s: Seq<char>) -> GlobalAction {
    if s == "quit"@ {
        GlobalAction::Quit
    } else if s == "toggle_primary_sidebar"@ {
        GlobalAction::TogglePrimarySidebar
    } else if s == "toggle_secondary_sidebar"@ {
        GlobalAction::ToggleSecondarySidebar
    } else if s == "toggle_panel"@ {
        GlobalAction::TogglePanel
    } else if s == "cycle_focus"@ {
        GlobalAction::CycleFocus
    } else if s == "toggle_command_palette"@ {
        GlobalAction::ToggleCommandPalette
    } else if s == "new_tab"@ {
        GlobalAction::NewTab
    } else if s == "close_tab"@ {
        GlobalAction::CloseTab
    } else if s == "prev_tab"@ {
        GlobalAction::PrevTab
    } else if s == "next_tab"@ {
        GlobalAction::NextTab
    } else {
        GlobalAction::Unknown
    }
}

/// Parses an action name; unknown names are kept as a forward-compatible
/// no-op.
pub fn parse_action(s: &String) -> (r: GlobalAction)
    ensures
        r == spec_parse_action(s@),
{
    if *s == String::from_str("quit") {
        GlobalAction::Quit
    } else if *s == String::from_str("toggle_primary_sidebar") {
        GlobalAction::TogglePrimarySidebar
    } else if *s == String::from_str("toggle_secondary_sidebar") {
        GlobalAction::ToggleSecondarySidebar
    } else if *s == String::from_str("toggle_panel") {
        GlobalAction::TogglePanel
    } else if *s == String::from_str("cycle_focus") {
        GlobalAction::CycleFocus
    } else if *s == String::from_str("toggle_command_palette") {
        GlobalAction::ToggleCommandPalette
    } else if *s == String::from_str("new_tab") {
        GlobalAction::NewTab
    } else if *s == String::from_str("close_tab") {
        GlobalAction::CloseTab
    } else if *s == String::from_str("prev_tab") {
        GlobalAction::PrevTab
    } else if *s == String::from_str("next_tab") {
        GlobalAction::NextTab
    } else {
        GlobalAction::Unknown
    }
}

/// Encodes a key event and writes it to a session's input; a key that
/// encodes to nothing is not written at all.
pub fn send_key_to_terminal<P: PtyInput + ?Sized>(target: &P, key: KeyEvent) {
    let bytes = encode(key);
    if bytes.len() > 0 {
        target.send_input(bytes.as_slice());
    }
}

/// How one global action transforms the state: `b` is the state after the
/// action ran on `a`, `ev` tells the loop whether to exit, and `d` is the
/// outside effect the caller still owes.
pub open spec fn global_action_rel<E, T, S>(
    action: GlobalAction,
    a: App<E, T, S>,
    b: App<E, T, S>,
    ev: AppEvent,
    d: Directive,
) -> bool {
    match action {
        GlobalAction::Quit => {
            // exit is requested through the returned event, not performed:
            // the state is untouched
            &&& ev is Quit
            &&& d is Nothing
            &&& b == a
        },
        GlobalAction::TogglePrimarySidebar => {
            &&& ev is Continue
            &&& d is Nothing
            &&& App::same_collections(b, a)
            &&& App::same_overlays(b, a)
            &&& b.show_secondary_sidebar == a.show_secondary_sidebar
            &&& b.show_panel == a.show_panel
            &&& b.show_command_palette == a.show_command_palette
            &&& if !a.show_primary_sidebar {
                b.show_primary_sidebar && b.active_target == ActiveTarget::PrimarySideBar
            } else if a.active_target == ActiveTarget::PrimarySideBar {
                !b.show_primary_sidebar && b.active_target == ActiveTarget::Editor
            } else {
                b.show_primary_sidebar && b.active_target == ActiveTarget::PrimarySideBar
            }
        },
        GlobalAction::ToggleSecondarySidebar => {
            &&& ev is Continue
            &&& d is Nothing
            &&& App::same_collections(b, a)
            &&& App::same_overlays(b, a)
            &&& b.show_primary_sidebar == a.show_primary_sidebar
            &&& b.show_panel == a.show_panel
            &&& b.show_command_palette == a.show_command_palette
            &&& if !a.show_secondary_sidebar {
                b.show_secondary_sidebar && b.active_target == ActiveTarget::SecondarySideBar
            } else if a.active_target == ActiveTarget::SecondarySideBar {
                !b.show_secondary_sidebar && b.active_target == ActiveTarget::Editor
            } else {
                b.show_secondary_sidebar && b.active_target == ActiveTarget::SecondarySideBar
            }
        },
        GlobalAction::TogglePanel => {
            &&& ev is Continue
            &&& App::same_collections(b, a)
            &&& App::same_overlays(b, a)
            &&& b.show_primary_sidebar == a.show_primary_sidebar
            &&& b.show_secondary_sidebar == a.show_secondary_sidebar
            &&& b.show_command_palette == a.show_command_palette
            &&& if !a.show_panel {
                if a.terminals.entries().len() == 0 {
                    d is SpawnTerminal && b == a
                } else {
                    d is Nothing && b.show_panel && b.active_target == ActiveTarget::Panel
                }
            } else if a.active_target == ActiveTarget::Panel {
                d is Nothing && !b.show_panel && b.active_target == ActiveTarget::Editor
            } else {
                d is Nothing && b.show_panel == a.show_panel && b.active_target
                    == ActiveTarget::Panel
            }
        },
        GlobalAction::CycleFocus => {
            &&& ev is Continue
            &&& d is Nothing
            &&& App::same_collections(b, a)
            &&& App::same_overlays(b, a)
            &&& App::same_panes(b, a)
            &&& b.active_target == App::spec_next_focus(a)
        },
        GlobalAction::ToggleCommandPalette => {
            &&& ev is Continue
            &&& d is Nothing
            &&& App::same_collections(b, a)
            &&& b.config == a.config
            &&& b.popup == a.popup
            &&& b.notifications == a.notifications
            &&& b.should_quit == a.should_quit
            &&& b.active_target == a.active_target
            &&& b.show_primary_sidebar == a.show_primary_sidebar
            &&& b.show_secondary_sidebar == a.show_secondary_sidebar
            &&& b.show_panel == a.show_panel
            &&& b.show_command_palette == !a.show_command_palette
            &&& if a.show_command_palette {
                b.command_palette.input@.len() == 0 && b.command_palette.commands
                    == a.command_palette.commands && b.command_palette.available_files
                    == a.command_palette.available_files
            } else {
                b.command_palette == a.command_palette
            }
        },
        GlobalAction::NewTab => {
            &&& ev is Continue
            &&& b == a
            &&& if a.active_target == ActiveTarget::Panel {
                d is SpawnTerminal
            } else {
                d is SpawnEditor
            }
        },
        GlobalAction::CloseTab => {
            &&& ev is Continue
            &&& d is Nothing
            &&& match a.active_target {
                ActiveTarget::Editor => {
                    &&& b.terminals == a.terminals
                    &&& b.primary_sidebar_components == a.primary_sidebar_components
                    &&& b.active_target == a.active_target
                    &&& App::same_panes(b, a)
                    &&& App::same_overlays(b, a)
                    &&& (a.main_tabs.entries()[a.main_tabs.active_ix()].content is Welcome ==> b
                        == a)
                    &&& (!(a.main_tabs.entries()[a.main_tabs.active_ix()].content is Welcome)
                        ==> {
                        let removed = a.main_tabs.entries().remove(a.main_tabs.active_ix());
                        if removed.len() == 0 {
                            &&& b.main_tabs.entries().len() == 1
                            &&& b.main_tabs.entries()[0].title@ == "Welcome"@
                            &&& b.main_tabs.entries()[0].content is Welcome
                            &&& b.main_tabs.active_ix() == 0
                        } else {
                            &&& b.main_tabs.entries() == removed
                            &&& b.main_tabs.active_ix() == if a.main_tabs.active_ix()
                                < removed.len() {
                                a.main_tabs.active_ix()
                            } else {
                                removed.len() - 1
                            }
                        }
                    })
                },
                ActiveTarget::Panel => {
                    &&& b.main_tabs == a.main_tabs
                    &&& b.primary_sidebar_components == a.primary_sidebar_components
                    &&& App::same_overlays(b, a)
                    &&& b.show_primary_sidebar == a.show_primary_sidebar
                    &&& b.show_secondary_sidebar == a.show_secondary_sidebar
                    &&& b.show_command_palette == a.show_command_palette
                    &&& (a.terminals.entries().len() == 0 ==> b == a)
                    &&& (a.terminals.entries().len() > 0 ==> {
                        let removed = a.terminals.entries().remove(a.terminals.active_ix());
                        &&& b.terminals.entries() == removed
                        &&& if removed.len() == 0 {
                            &&& !b.show_panel
                            &&& b.active_target == ActiveTarget::Editor
                        } else {
                            &&& b.show_panel == a.show_panel
                            &&& b.active_target == a.active_target
                            &&& b.terminals.active_ix() == if a.terminals.active_ix()
                                < removed.len() {
                                a.terminals.active_ix()
                            } else {
                                removed.len() - 1
                            }
                        }
                    })
                },
                _ => b == a,
            }
        },
        GlobalAction::PrevTab => {
            &&& ev is Continue
            &&& d is Nothing
            &&& App::same_panes(b, a)
            &&& App::same_overlays(b, a)
            &&& b.active_target == a.active_target
            &&& match a.active_target {
                ActiveTarget::Editor => {
                    &&& b.terminals == a.terminals
                    &&& b.primary_sidebar_components == a.primary_sidebar_components
                    &&& b.main_tabs.entries() == a.main_tabs.entries()
                    &&& b.main_tabs.active_ix() == spec_cycle_prev_ix(
                        a.main_tabs.entries().len() as int,
                        a.main_tabs.active_ix(),
                    )
                },
                ActiveTarget::Panel => {
                    &&& b.main_tabs == a.main_tabs
                    &&& b.primary_sidebar_components == a.primary_sidebar_components
                    &&& b.terminals.entries() == a.terminals.entries()
                    &&& b.terminals.active_ix() == spec_cycle_prev_ix(
                        a.terminals.entries().len() as int,
                        a.terminals.active_ix(),
                    )
                },
                ActiveTarget::PrimarySideBar => {
                    &&& b.main_tabs == a.main_tabs
                    &&& b.terminals == a.terminals
                    &&& b.primary_sidebar_components.entries()
                        == a.primary_sidebar_components.entries()
                    &&& b.primary_sidebar_components.active_ix() == spec_cycle_prev_ix(
                        a.primary_sidebar_components.entries().len() as int,
                        a.primary_sidebar_components.active_ix(),
                    )
                },
                ActiveTarget::SecondarySideBar => b == a,
            }
        },
        GlobalAction::NextTab => {
            &&& ev is Continue
            &&& d is Nothing
            &&& App::same_panes(b, a)
            &&& App::same_overlays(b, a)
            &&& b.active_target == a.active_target
            &&& match a.active_target {
                ActiveTarget::Editor => {
                    &&& b.terminals == a.terminals
                    &&& b.primary_sidebar_components == a.primary_sidebar_components
                    &&& b.main_tabs.entries() == a.main_tabs.entries()
                    &&& b.main_tabs.active_ix() == spec_cycle_next_ix(
                        a.main_tabs.entries().len() as int,
                        a.main_tabs.active_ix(),
                    )
                },
                ActiveTarget::Panel => {
                    &&& b.main_tabs == a.main_tabs
                    &&& b.primary_sidebar_components == a.primary_sidebar_components
                    &&& b.terminals.entries() == a.terminals.entries()
                    &&& b.terminals.active_ix() == spec_cycle_next_ix(
                        a.terminals.entries().len() as int,
                        a.terminals.active_ix(),
                    )
                },
                ActiveTarget::PrimarySideBar => {
                    &&& b.main_tabs == a.main_tabs
                    &&& b.terminals == a.terminals
                    &&& b.primary_sidebar_components.entries()
                        == a.primary_sidebar_components.entries()
                    &&& b.primary_sidebar_components.active_ix() == spec_cycle_next_ix(
                        a.primary_sidebar_components.entries().len() as int,
                        a.primary_sidebar_components.active_ix(),
                    )
                },
                ActiveTarget::SecondarySideBar => b == a,
            }
        },
        GlobalAction::Unknown => ev is Continue && d is Nothing && b == a,
    }
}

/// Executes one global action against the state.
pub fn apply_global_action<E, T, S>(app: &mut App<E, T, S>, action: GlobalAction) -> (r: (
    AppEvent,
    Directive,
))
    requires
        old(app).wf(),
    ensures
        final(app).wf(),
        global_action_rel(action, *old(app), *final(app), r.0, r.1),
{
    match action {
        GlobalAction::Quit => (AppEvent::Quit, Directive::Nothing),
        GlobalAction::TogglePrimarySidebar => {
            app.toggle_primary_sidebar();
            (AppEvent::Continue, Directive::Nothing)
        },
        GlobalAction::ToggleSecondarySidebar => {
            app.toggle_secondary_sidebar();
            (AppEvent::Continue, Directive::Nothing)
        },
        GlobalAction::TogglePanel => {
            let needs_terminal = app.toggle_panel();
            if needs_terminal {
                (AppEvent::Continue, Directive::SpawnTerminal)
            } else {
                (AppEvent::Continue, Directive::Nothing)
            }
        },
        GlobalAction::CycleFocus => {
            app.cycle_focus();
            (AppEvent::Continue, Directive::Nothing)
        },
        GlobalAction::ToggleCommandPalette => {
            if app.show_command_palette {
                app.show_command_palette = false;
                app.command_palette.reset();
            } else {
                app.show_command_palette = true;
            }
            (AppEvent::Continue, Directive::Nothing)
        },
        GlobalAction::NewTab => {
            if matches!(app.active_target, ActiveTarget::Panel) {
                (AppEvent::Continue, Directive::SpawnTerminal)
            } else {
                (AppEvent::Continue, Directive::SpawnEditor)
            }
        },
        GlobalAction::CloseTab => {
            match app.active_target {
                ActiveTarget::Editor => {
                    app.close_active_main_tab();
                },
                ActiveTarget::Panel => {
                    app.close_active_terminal_tab();
                },
                _ => {},
            }
            (AppEvent::Continue, Directive::Nothing)
        },
        GlobalAction::PrevTab => {
            match app.active_target {
                ActiveTarget::Editor => {
                    app.main_tabs.cycle_prev();
                },
                ActiveTarget::Panel => {
                    app.terminals.cycle_prev();
                },
                ActiveTarget::PrimarySideBar => {
                    app.primary_sidebar_components.cycle_prev();
                },
                ActiveTarget::SecondarySideBar => {},
            }
            (AppEvent::Continue, Directive::Nothing)
        },
        GlobalAction::NextTab => {
            match app.active_target {
                ActiveTarget::Editor => {
                    app.main_tabs.cycle_next();
                },
                ActiveTarget::Panel => {
                    app.terminals.cycle_next();
                },
                ActiveTarget::PrimarySideBar => {
                    app.primary_sidebar_components.cycle_next();
                },
                ActiveTarget::SecondarySideBar => {},
            }
            (AppEvent::Continue, Directive::Nothing)
        },
        GlobalAction::Unknown => (AppEvent::Continue, Directive::Nothing),
    }
}

/// How the focused component handles a key that nothing above it consumed:
/// the settings tab edits the configuration, an editor or terminal session
/// receives the encoded bytes, the primary sidebar is driven by its caller.
pub open spec fn component_keys_rel<E, T, S>(
    key: KeyEvent,
    a: App<E, T, S>,
    b: App<E, T, S>,
    d: Directive,
) -> bool {
    match a.active_target {
        ActiveTarget::Editor => {
            let ix = a.main_tabs.active_ix();
            let t = a.main_tabs.entries()[ix];
            match t.content {
                MainWidgetContent::SettingsEditor(se) => {
                    &&& b.terminals == a.terminals
                    &&& b.primary_sidebar_components == a.primary_sidebar_components
                    &&& App::same_panes(b, a)
                    &&& b.active_target == a.active_target
                    &&& b.command_palette == a.command_palette
                    &&& b.popup == a.popup
                    &&& b.notifications == a.notifications
                    &&& b.should_quit == a.should_quit
                    &&& b.main_tabs.entries().len() == a.main_tabs.entries().len()
                    &&& b.main_tabs.active_ix() == a.main_tabs.active_ix()
                    &&& (forall|j: int|
                        0 <= j < a.main_tabs.entries().len() && j != ix
                            ==> #[trigger] b.main_tabs.entries()[j] == a.main_tabs.entries()[j])
                    &&& b.main_tabs.entries()[ix].title == t.title
                    &&& b.main_tabs.entries()[ix].content is SettingsEditor
                    &&& match se.editing_state {
                        Option::Some(es) => if key.code is Enter {
                            d is SaveConfig && commit_rel(a.config, b.config, es.field,
                            es.input_buffer)
                        } else {
                            d is Nothing && b.config == a.config
                        },
                        Option::None => d is Nothing && b.config == a.config,
                    }
                },
                MainWidgetContent::Editor(_) => b == a && d is Nothing,
                MainWidgetContent::Welcome(_) => b == a && d is Nothing,
            }
        },
        ActiveTarget::Panel => b == a && d is Nothing,
        ActiveTarget::PrimarySideBar => b == a && d is ForwardToSidebar,
        ActiveTarget::SecondarySideBar => b == a && d is Nothing,
    }
}

/// Routes a key to the component that owns focus.  Keys for an editor or
/// terminal session are encoded and written to it; keys for the settings
/// tab drive the settings editor; keys for the primary sidebar come back as
/// a directive, since the sidebar widgets are the caller's.
pub fn handle_component_keys<E: PtyInput, T: PtyInput, S>(
    app: &mut App<E, T, S>,
    key: KeyEvent,
) -> (d: Directive)
    requires
        old(app).wf(),
    ensures
        final(app).wf(),
        component_keys_rel(key, *old(app), *final(app), d),
{
    match app.active_target {
        ActiveTarget::Editor => {
            let ix = app.main_tabs.active_index();
            let is_settings = matches!(
                &app.main_tabs.get(ix).content,
                MainWidgetContent::SettingsEditor(_)
            );
            if is_settings {
                let tab = app.main_tabs.tabs.remove(ix);
                match tab.content {
                    MainWidgetContent::SettingsEditor(mut se) => {
                        let save = se.handle_key(key, &mut app.config);
                        app.main_tabs.tabs.insert(
                            ix,
                            Tab {
                                title: tab.title,
                                content: MainWidgetContent::SettingsEditor(se),
                            },
                        );
                        if save {
                            Directive::SaveConfig
                        } else {
                            Directive::Nothing
                        }
                    },
                    // not reachable: the tab was just checked to hold the
                    // settings editor
                    _ => Directive::Nothing,
                }
            } else {
                match &app.main_tabs.get(ix).content {
                    MainWidgetContent::Editor(e) => {
                        send_key_to_terminal(e, key);
                    },
                    _ => {},
                }
                Directive::Nothing
            }
        },
        ActiveTarget::Panel => {
            if !self_terminals_empty(app) {
                let t = app.terminals.active_tab();
                send_key_to_terminal(&t.content, key);
            }
            Directive::Nothing
        },
        ActiveTarget::PrimarySideBar => Directive::ForwardToSidebar,
        ActiveTarget::SecondarySideBar => Directive::Nothing,
    }
}

/// Whether the terminal collection is empty.
fn self_terminals_empty<E, T, S>(app: &App<E, T, S>) -> (r: bool)
    ensures
        r == (app.terminals.entries().len() == 0),
{
    app.terminals.is_empty()
}

/// The chord that exits the application even while the palette is open.
pub open spec fn quit_chord(key: KeyEvent) -> bool {
    key.ctrl && !key.alt && !key.shift && (key.code == KeyCode::Char('q') || key.code
        == KeyCode::Char('c'))
}

/// The keys that close the palette without selecting anything.
pub open spec fn palette_close_key(key: KeyEvent) -> bool {
    key.code is Esc || (key.ctrl && !key.alt && !key.shift && key.code == KeyCode::Char('p'))
}

/// The palette is hidden and its query cleared in `b`, its registrations
/// kept from `a`.
pub open spec fn palette_closed<E, T, S>(a: App<E, T, S>, b: App<E, T, S>) -> bool {
    &&& !b.show_command_palette
    &&& b.command_palette.input@.len() == 0
    &&& b.command_palette.commands == a.command_palette.commands
    &&& b.command_palette.available_files == a.command_palette.available_files
}

/// The parts of the state the palette never touches are the same in `a`
/// and `b`.
pub open spec fn palette_frame<E, T, S>(a: App<E, T, S>, b: App<E, T, S>) -> bool {
    &&& b.terminals == a.terminals
    &&& b.primary_sidebar_components == a.primary_sidebar_components
    &&& b.config == a.config
    &&& b.popup == a.popup
    &&& b.notifications == a.notifications
    &&& b.secondary_sidebar_component == a.secondary_sidebar_component
    &&& b.show_primary_sidebar == a.show_primary_sidebar
    &&& b.show_secondary_sidebar == a.show_secondary_sidebar
    &&& b.show_panel == a.show_panel
}

/// How a key is handled while the palette is open.
pub open spec fn palette_events_rel<E, T, S>(
    key: KeyEvent,
    a: App<E, T, S>,
    b: App<E, T, S>,
    ev: AppEvent,
    d: Directive,
) -> bool {
    if quit_chord(key) {
        // exit is requested, not performed: nothing changes
        &&& ev is Quit
        &&& d is Nothing
        &&& b == a
    } else if palette_close_key(key) {
        &&& ev is Continue
        &&& d is Nothing
        &&& palette_frame(a, b)
        &&& palette_closed(a, b)
        &&& b.main_tabs == a.main_tabs
        &&& b.active_target == a.active_target
        &&& b.should_quit == a.should_quit
    } else {
        &&& ev is Continue
        &&& palette_frame(a, b)
        &&& b.should_quit == a.should_quit
        &&& if key.code is Enter {
            let idx = match a.command_palette.selected {
                Option::Some(i) => i as int,
                Option::None => 0int,
            };
            match a.command_palette.mode {
                crate::command_palette::PaletteMode::Command => if idx
                    < a.command_palette.command_candidates@.len() {
                    if a.command_palette.command_candidates@[idx]@
                        == ">workbench.action.openSettings"@ {
                        &&& d is Nothing
                        &&& palette_closed(a, b)
                        &&& ((exists|i: int|
                            0 <= i < a.main_tabs.entries().len() && (#[trigger] a
                                .main_tabs
                                .entries()[i]).content is SettingsEditor) ==> b.main_tabs
                            == a.main_tabs && b.active_target == a.active_target)
                        &&& ((forall|i: int|
                            0 <= i < a.main_tabs.entries().len() ==> !((#[trigger] a
                                .main_tabs
                                .entries()[i]).content is SettingsEditor)) ==> {
                            &&& b.main_tabs.entries() == (if a.main_tabs.entries().len() == 1
                                && a.main_tabs.entries()[0].content is Welcome {
                                Seq::<Tab<MainWidgetContent<E>>>::empty()
                            } else {
                                a.main_tabs.entries()
                            }).push(
                                (Tab {
                                    title: b.main_tabs.entries().last().title,
                                    content: b.main_tabs.entries().last().content,
                                }),
                            )
                            &&& b.main_tabs.entries().last().title@ == "Settings"@
                            &&& b.main_tabs.entries().last().content is SettingsEditor
                            &&& b.main_tabs.active_ix() == b.main_tabs.entries().len() - 1
                            &&& b.active_target == ActiveTarget::Editor
                        })
                    } else {
                        &&& (d matches Directive::RunCommand(s) && s@
                            == a.command_palette.command_candidates@[idx]@)
                        &&& palette_closed(a, b)
                        &&& b.main_tabs == a.main_tabs
                        &&& b.active_target == a.active_target
                    }
                } else {
                    &&& d is Nothing
                    &&& b.main_tabs == a.main_tabs
                    &&& b.show_command_palette == a.show_command_palette
                },
                crate::command_palette::PaletteMode::File => if idx
                    < a.command_palette.file_candidates@.len() {
                    &&& (d matches Directive::OpenFile(s) && s@
                        == a.command_palette.file_candidates@[idx]@)
                    &&& palette_closed(a, b)
                    &&& b.main_tabs == a.main_tabs
                    &&& b.active_target == a.active_target
                } else {
                    &&& d is Nothing
                    &&& b.main_tabs == a.main_tabs
                    &&& b.show_command_palette == a.show_command_palette
                },
            }
        } else if key.code is Backspace && a.command_palette.input@.len() == 0 {
            &&& d is Nothing
            &&& palette_frame(a, b)
            &&& palette_closed(a, b)
            &&& b.main_tabs == a.main_tabs
            &&& b.active_target == a.active_target
        } else {
            &&& d is Nothing
            &&& b.main_tabs == a.main_tabs
            &&& b.active_target == a.active_target
            &&& b.show_command_palette == a.show_command_palette
            &&& b.command_palette.commands == a.command_palette.commands
            &&& b.command_palette.available_files == a.command_palette.available_files
        }
    }
}

/// Handles a key while the palette is open: a quit chord exits, escape and
/// the palette chord close it, and everything else drives the palette —
/// executing, opening or closing as the palette answers.
pub fn handle_command_palette_events<E, T, S>(app: &mut App<E, T, S>, key: KeyEvent) -> (r: (
    AppEvent,
    Directive,
))
    requires
        old(app).wf(),
    ensures
        final(app).wf(),
        palette_events_rel(key, *old(app), *final(app), r.0, r.1),
{
    let ctrl_only = key.ctrl && !key.alt && !key.shift;
    if ctrl_only && (key.code == KeyCode::Char('q') || key.code == KeyCode::Char('c')) {
        return (AppEvent::Quit, Directive::Nothing);
    }
    if matches!(key.code, KeyCode::Esc) || (ctrl_only && key.code == KeyCode::Char('p')) {
        app.show_command_palette = false;
        app.command_palette.reset();
        return (AppEvent::Continue, Directive::Nothing);
    }
    let event = app.command_palette.handle_key(key);
    match event {
        CommandPaletteEvent::Exit => {
            app.show_command_palette = false;
            app.command_palette.reset();
            (AppEvent::Continue, Directive::Nothing)
        },
        CommandPaletteEvent::OpenSettings => {
            app.add_settings_tab();
            app.show_command_palette = false;
            app.command_palette.reset();
            (AppEvent::Continue, Directive::Nothing)
        },
        CommandPaletteEvent::ExecuteCommand(name) => {
            app.show_command_palette = false;
            app.command_palette.reset();
            (AppEvent::Continue, Directive::RunCommand(name))
        },
        CommandPaletteEvent::OpenFile(path) => {
            app.show_command_palette = false;
            app.command_palette.reset();
            (AppEvent::Continue, Directive::OpenFile(path))
        },
        CommandPaletteEvent::Ignored => (AppEvent::Continue, Directive::Nothing),
    }
}

/// The chord that switches the primary sidebar's tabs from anywhere.
pub open spec fn sidebar_switch_key(key: KeyEvent) -> bool {
    key.ctrl && !key.alt && !key.shift && (key.code is Tab || key.code is BackTab)
}

/// The action a key's canonical chord is bound to, if any.
pub open spec fn bound_action<E, T, S>(a: App<E, T, S>, key: KeyEvent) -> Option<GlobalAction> {
    match chord_spec(key) {
        Option::Some(ch) => match spec_lookup(a.config.keybindings.pairs(), ch) {
            Option::Some(name) => Option::Some(spec_parse_action(name)),
            Option::None => Option::None,
        },
        Option::None => Option::None,
    }
}

/// The whole priority chain for one key: modal popup first, then the open
/// palette, then the focused terminal (which sees every key but the panel
/// chord), then the global keybinding table, then the sidebar-switch chord,
/// then the focused component.
pub open spec fn dispatch_rel<E, T, S>(
    key: KeyEvent,
    a: App<E, T, S>,
    b: App<E, T, S>,
    ev: AppEvent,
    d: Directive,
) -> bool {
    if a.popup is Some {
        let p = a.popup->0;
        &&& App::same_collections(b, a)
        &&& App::same_panes(b, a)
        &&& b.config == a.config
        &&& b.command_palette == a.command_palette
        &&& b.notifications == a.notifications
        &&& b.active_target == a.active_target
        &&& d is Nothing
        &&& b.should_quit == a.should_quit
        &&& match key.code {
            KeyCode::Enter => if p.confirm_selected && p.quit_confirm {
                ev is Quit && b.popup is None
            } else {
                ev is Continue && b.popup is None
            },
            KeyCode::Esc => ev is Continue && b.should_quit == a.should_quit && b.popup is None,
            KeyCode::Left | KeyCode::Right | KeyCode::Tab => {
                &&& ev is Continue
                &&& b.should_quit == a.should_quit
                &&& b.popup matches Option::Some(p2) && p2.confirm_selected
                    == !p.confirm_selected && p2.quit_confirm == p.quit_confirm
            },
            _ => ev is Continue && b.should_quit == a.should_quit && b.popup == a.popup,
        }
    } else if a.show_command_palette {
        palette_events_rel(key, a, b, ev, d)
    } else if a.active_target == ActiveTarget::Panel {
        if bound_action(a, key) == Option::Some(GlobalAction::TogglePanel) {
            global_action_rel(GlobalAction::TogglePanel, a, b, ev, d)
        } else {
            b == a && ev is Continue && d is Nothing
        }
    } else if bound_action(a, key) is Some {
        global_action_rel(bound_action(a, key)->0, a, b, ev, d)
    } else if sidebar_switch_key(key) && a.show_primary_sidebar
        && a.primary_sidebar_components.entries().len() > 0 {
        &&& ev is Continue
        &&& d is Nothing
        &&& App::same_panes(b, a)
        &&& App::same_overlays(b, a)
        &&& b.main_tabs == a.main_tabs
        &&& b.terminals == a.terminals
        &&& b.primary_sidebar_components.entries() == a.primary_sidebar_components.entries()
        &&& b.primary_sidebar_components.active_ix() == if key.code is Tab {
            spec_cycle_next_ix(
                a.primary_sidebar_components.entries().len() as int,
                a.primary_sidebar_components.active_ix(),
            )
        } else {
            spec_cycle_prev_ix(
                a.primary_sidebar_components.entries().len() as int,
                a.primary_sidebar_components.active_ix(),
            )
        }
        &&& b.active_target == ActiveTarget::PrimarySideBar
    } else {
        component_keys_rel(key, a, b, d) && ev is Continue
    }
}

/// Dispatches one key event through the priority chain and returns what the
/// caller's loop should do next, together with any outside effect it owes.
pub fn handle_key_event<E: PtyInput, T: PtyInput, S>(app: &mut App<E, T, S>, key: KeyEvent) -> (r:
    (AppEvent, Directive))
    requires
        old(app).wf(),
    ensures
        final(app).wf(),
        dispatch_rel(key, *old(app), *final(app), r.0, r.1),
{
    // 1. A modal popup owns every key.
    let popup_taken = app.popup.take();
    match popup_taken {
        Option::Some(mut p) => {
            let res = p.handle_key(key);
            match res {
                PopupResult::Confirm => {
                    if p.quit_confirm {
                        return (AppEvent::Quit, Directive::Nothing);
                    }
                },
                PopupResult::Cancel => {},
                PopupResult::Ignored => {
                    app.popup = Option::Some(p);
                },
            }
            return (AppEvent::Continue, Directive::Nothing);
        },
        Option::None => {},
    }
    // 2. The open palette sees everything next.
    if app.show_command_palette {
        return handle_command_palette_events(app, key);
    }
    // 3. A focused terminal gets every key verbatim, bar the panel chord.
    if matches!(app.active_target, ActiveTarget::Panel) {
        let is_panel_toggle = match key_event_to_string(key) {
            Option::Some(chord) => match app.config.keybindings.lookup(chord.as_str()) {
                Option::Some(name) => matches!(
                    parse_action(&name),
                    GlobalAction::TogglePanel
                ),
                Option::None => false,
            },
            Option::None => false,
        };
        if is_panel_toggle {
            return apply_global_action(app, GlobalAction::TogglePanel);
        }
        if !app.terminals.is_empty() {
            let t = app.terminals.active_tab();
            send_key_to_terminal(&t.content, key);
        }
        return (AppEvent::Continue, Directive::Nothing);
    }
    // 4. The global keybinding table.
    let bound = match key_event_to_string(key) {
        Option::Some(chord) => app.config.keybindings.lookup(chord.as_str()),
        Option::None => Option::None,
    };
    match bound {
        Option::Some(name) => {
            let action = parse_action(&name);
            return apply_global_action(app, action);
        },
        Option::None => {},
    }
    // 5. The sidebar-switch chord.
    let ctrl_only = key.ctrl && !key.alt && !key.shift;
    if ctrl_only && (matches!(key.code, KeyCode::Tab) || matches!(key.code, KeyCode::BackTab)) {
        if app.show_primary_sidebar && !app.primary_sidebar_components.is_empty() {
            if matches!(key.code, KeyCode::Tab) {
                app.primary_sidebar_components.cycle_next();
            } else {
                app.primary_sidebar_components.cycle_prev();
            }
            app.active_target = ActiveTarget::PrimarySideBar;
            return (AppEvent::Continue, Directive::Nothing);
        }
    }
    // 6. The focused component.
    let d = handle_component_keys(app, key);
    (AppEvent::Continue, d)
}

} // verus!
