use inf_edit::app::App;
use inf_edit::event_handler::{
    apply_global_action, handle_key_event, AppEvent, Directive, GlobalAction, PtyInput,
};
use inf_edit::keys::{KeyCode, KeyEvent};
use inf_edit::settings::Config;
use inf_edit::popup::Popup;
use inf_edit::ActiveTarget;

struct FakeSession;

impl PtyInput for FakeSession {
    fn send_input(&self, _bytes: &[u8]) {}
}

type TestApp = App<FakeSession, FakeSession, u8>;

fn fresh_app() -> TestApp {
    App::new(Config::default())
}

fn ctrl_key(c: char) -> KeyEvent {
    KeyEvent { code: KeyCode::Char(c), ctrl: true, alt: false, shift: false }
}

fn alt_key(c: char) -> KeyEvent {
    KeyEvent { code: KeyCode::Char(c), ctrl: false, alt: true, shift: false }
}

#[test]
fn new_app_starts_on_welcome_tab() {
    let app = fresh_app();
    assert_eq!(app.active_target, ActiveTarget::Editor);
    assert!(app.show_primary_sidebar);
    assert!(!app.show_panel);
    assert_eq!(app.main_tabs.len(), 1);
    assert_eq!(app.main_tabs.get(0).title, "Welcome");
}

#[test]
fn cycle_focus_visits_main_panel_sidebar_in_order() {
    // Scenario: one editor tab, one terminal tab, primary sidebar visible.
    let mut app = fresh_app();
    app.add_editor_tab(FakeSession, "Editor 1".to_string());
    app.add_terminal_tab(FakeSession, "Term 1".to_string());
    app.active_target = ActiveTarget::Editor;

    app.cycle_focus();
    assert_eq!(app.active_target, ActiveTarget::Panel);
    app.cycle_focus();
    assert_eq!(app.active_target, ActiveTarget::PrimarySideBar);
    app.cycle_focus();
    assert_eq!(app.active_target, ActiveTarget::Editor);
}

#[test]
fn cycle_focus_chord_moves_focus() {
    let mut app = fresh_app();
    app.add_editor_tab(FakeSession, "Editor 1".to_string());
    app.active_target = ActiveTarget::Editor;
    // Ctrl-K is bound to cycle_focus; with no panel the next region is the
    // primary sidebar.
    let (ev, _) = handle_key_event(&mut app, ctrl_key('k'));
    assert!(matches!(ev, AppEvent::Continue));
    assert_eq!(app.active_target, ActiveTarget::PrimarySideBar);
}

#[test]
fn cycling_with_a_single_visible_pane_is_a_noop() {
    let mut app = fresh_app();
    app.show_primary_sidebar = false;
    app.active_target = ActiveTarget::Editor;
    app.cycle_focus();
    assert_eq!(app.active_target, ActiveTarget::Editor);
}

#[test]
fn dead_terminal_is_reaped_panel_hidden_focus_falls_back() {
    // Scenario: the last terminal's reader saw end-of-stream; the next
    // sweep removes its tab, hides the panel and focuses the main content.
    let mut app = fresh_app();
    app.add_terminal_tab(FakeSession, "Term 1".to_string());
    assert!(app.show_panel);
    assert_eq!(app.active_target, ActiveTarget::Panel);

    let main_dead = vec![false; app.main_tabs.len()];
    let term_dead = vec![true];
    app.tick(&main_dead, &term_dead);

    assert!(app.terminals.is_empty());
    assert!(!app.show_panel);
    assert_eq!(app.active_target, ActiveTarget::Editor);
}

#[test]
fn sweep_keeps_live_terminals_and_reclamps_active() {
    let mut app = fresh_app();
    app.add_terminal_tab(FakeSession, "Term 1".to_string());
    app.add_terminal_tab(FakeSession, "Term 2".to_string());
    app.add_terminal_tab(FakeSession, "Term 3".to_string());
    assert_eq!(app.terminals.active_index(), 2);

    let main_dead = vec![false; app.main_tabs.len()];
    app.tick(&main_dead, &vec![false, true, true]);

    assert_eq!(app.terminals.len(), 1);
    assert_eq!(app.terminals.get(0).title, "Term 1");
    assert_eq!(app.terminals.active_index(), 0);
    assert!(app.show_panel);
    assert_eq!(app.active_target, ActiveTarget::Panel);
}

#[test]
fn sweep_with_no_deaths_changes_nothing() {
    let mut app = fresh_app();
    app.add_terminal_tab(FakeSession, "Term 1".to_string());
    let main_dead = vec![false; app.main_tabs.len()];
    app.tick(&main_dead, &vec![false]);
    assert_eq!(app.terminals.len(), 1);
    assert!(app.show_panel);
    assert_eq!(app.active_target, ActiveTarget::Panel);
    assert_eq!(app.main_tabs.get(0).title, "Welcome");
}

#[test]
fn sweep_of_emptied_main_content_installs_welcome() {
    let mut app = fresh_app();
    app.add_editor_tab(FakeSession, "Editor 1".to_string());
    assert_eq!(app.main_tabs.len(), 1);
    app.tick(&vec![true], &Vec::new());
    assert_eq!(app.main_tabs.len(), 1);
    assert_eq!(app.main_tabs.get(0).title, "Welcome");
}

#[test]
fn new_tab_action_asks_for_the_right_session_kind() {
    // Scenario: the new_tab action opens a terminal when the panel has
    // focus, an editor when the main content has.
    let mut app = fresh_app();
    app.add_terminal_tab(FakeSession, "Term 1".to_string());
    assert_eq!(app.active_target, ActiveTarget::Panel);
    let (ev, d) = apply_global_action(&mut app, GlobalAction::NewTab);
    assert!(matches!(ev, AppEvent::Continue));
    assert!(matches!(d, Directive::SpawnTerminal));
    // The caller spawns and hands the session back; the tab is appended and
    // becomes active.
    app.add_terminal_tab(FakeSession, "Term 2".to_string());
    assert_eq!(app.terminals.len(), 2);
    assert_eq!(app.terminals.active_index(), 1);
    assert_eq!(app.terminals.get(1).title, "Term 2");

    app.active_target = ActiveTarget::Editor;
    let (_, d) = apply_global_action(&mut app, GlobalAction::NewTab);
    assert!(matches!(d, Directive::SpawnEditor));
    app.add_editor_tab(FakeSession, "Editor 1".to_string());
    assert_eq!(app.active_target, ActiveTarget::Editor);
    assert_eq!(app.main_tabs.active_index(), app.main_tabs.len() - 1);
}

#[test]
fn new_tab_chord_from_main_content_asks_for_an_editor() {
    let mut app = fresh_app();
    app.add_editor_tab(FakeSession, "Editor 1".to_string());
    let (ev, d) = handle_key_event(&mut app, ctrl_key('n'));
    assert!(matches!(ev, AppEvent::Continue));
    assert!(matches!(d, Directive::SpawnEditor));
}

#[test]
fn focused_terminal_swallows_global_chords_except_panel_toggle() {
    let mut app = fresh_app();
    app.add_terminal_tab(FakeSession, "Term 1".to_string());
    assert_eq!(app.active_target, ActiveTarget::Panel);
    // Ctrl-N is bound to new_tab, but a focused terminal receives it
    // verbatim instead.
    let (ev, d) = handle_key_event(&mut app, ctrl_key('n'));
    assert!(matches!(ev, AppEvent::Continue));
    assert!(matches!(d, Directive::Nothing));
    assert_eq!(app.terminals.len(), 1);
    // The panel-toggle chord still works from inside the terminal.
    let (_, _) = handle_key_event(&mut app, ctrl_key('j'));
    assert!(!app.show_panel);
    assert_eq!(app.active_target, ActiveTarget::Editor);
}

#[test]
fn quit_chord_requests_exit_without_touching_state() {
    let mut app = fresh_app();
    let (ev, _) = handle_key_event(&mut app, ctrl_key('q'));
    assert!(matches!(ev, AppEvent::Quit));
    // exit is requested through the event alone; nothing is modified
    assert!(!app.should_quit);
    assert_eq!(app.main_tabs.len(), 1);
}

#[test]
fn toggle_panel_chord_with_no_terminal_asks_for_a_spawn() {
    let mut app = fresh_app();
    let (ev, d) = handle_key_event(&mut app, ctrl_key('j'));
    assert!(matches!(ev, AppEvent::Continue));
    assert!(matches!(d, Directive::SpawnTerminal));
    assert!(!app.show_panel);
    // The caller spawns the terminal; the tab shows and focuses the panel.
    app.add_terminal_tab(FakeSession, "Term 1".to_string());
    assert!(app.show_panel);
    assert_eq!(app.active_target, ActiveTarget::Panel);
}

#[test]
fn sidebar_toggle_chord_moves_focus_then_hides() {
    let mut app = fresh_app();
    assert!(app.show_primary_sidebar);
    // Visible but unfocused: the chord focuses it.
    handle_key_event(&mut app, ctrl_key('b'));
    assert!(app.show_primary_sidebar);
    assert_eq!(app.active_target, ActiveTarget::PrimarySideBar);
    // Focused: the chord hides it and focus falls back to the main content.
    handle_key_event(&mut app, ctrl_key('b'));
    assert!(!app.show_primary_sidebar);
    assert_eq!(app.active_target, ActiveTarget::Editor);
    // Hidden: the chord shows and focuses it.
    handle_key_event(&mut app, ctrl_key('b'));
    assert!(app.show_primary_sidebar);
    assert_eq!(app.active_target, ActiveTarget::PrimarySideBar);
}

#[test]
fn tab_cycling_chords_follow_the_focused_collection() {
    let mut app = fresh_app();
    app.add_editor_tab(FakeSession, "Editor 1".to_string());
    app.add_editor_tab(FakeSession, "Editor 2".to_string());
    app.active_target = ActiveTarget::Editor;
    assert_eq!(app.main_tabs.active_index(), 1);
    handle_key_event(&mut app, alt_key('h'));
    assert_eq!(app.main_tabs.active_index(), 0);
    handle_key_event(&mut app, alt_key('l'));
    assert_eq!(app.main_tabs.active_index(), 1);
    handle_key_event(&mut app, alt_key('l'));
    assert_eq!(app.main_tabs.active_index(), 0);
}

#[test]
fn close_tab_on_last_terminal_hides_panel() {
    let mut app = fresh_app();
    app.add_terminal_tab(FakeSession, "Term 1".to_string());
    handle_key_event(&mut app, ctrl_key('j'));
    // Hiding moved focus back to the editor; refocus the panel to close its
    // tab from the keyboard.
    handle_key_event(&mut app, ctrl_key('j'));
    assert_eq!(app.active_target, ActiveTarget::Panel);
    app.active_target = ActiveTarget::Panel;
    let (_, _) = apply_global_action(&mut app, GlobalAction::CloseTab);
    assert!(app.terminals.is_empty());
    assert!(!app.show_panel);
    assert_eq!(app.active_target, ActiveTarget::Editor);
}

#[test]
fn close_tab_never_closes_the_welcome_tab() {
    let mut app = fresh_app();
    let (_, _) = apply_global_action(&mut app, GlobalAction::CloseTab);
    assert_eq!(app.main_tabs.len(), 1);
    assert_eq!(app.main_tabs.get(0).title, "Welcome");
}

#[test]
fn unknown_action_names_are_ignored() {
    let mut app = fresh_app();
    app.config.keybindings.insert("Ctrl-Y".to_string(), "warp_drive".to_string());
    let (ev, d) = handle_key_event(&mut app, ctrl_key('y'));
    assert!(matches!(ev, AppEvent::Continue));
    assert!(matches!(d, Directive::Nothing));
    assert!(!app.should_quit);
}

#[test]
fn quit_confirmation_popup_owns_the_keys() {
    let mut app = fresh_app();
    app.popup = Some(Popup::new_quit_confirm(
        "Quit".to_string(),
        "Really quit?".to_string(),
    ));
    // Every key goes to the popup: the quit chord is not seen globally.
    let (ev, _) = handle_key_event(&mut app, ctrl_key('q'));
    assert!(matches!(ev, AppEvent::Continue));
    assert!(app.popup.is_some());
    // Enter on the selected confirm button requests exit.
    let enter = KeyEvent { code: KeyCode::Enter, ctrl: false, alt: false, shift: false };
    let (ev, _) = handle_key_event(&mut app, enter);
    assert!(matches!(ev, AppEvent::Quit));
    assert!(app.popup.is_none());
    assert!(!app.should_quit);
}

#[test]
fn popup_cancel_closes_without_exit() {
    let mut app = fresh_app();
    app.popup = Some(Popup::new_quit_confirm("Quit".to_string(), "Sure?".to_string()));
    let esc = KeyEvent { code: KeyCode::Esc, ctrl: false, alt: false, shift: false };
    let (ev, _) = handle_key_event(&mut app, esc);
    assert!(matches!(ev, AppEvent::Continue));
    assert!(app.popup.is_none());
    assert!(!app.should_quit);
}

#[test]
fn palette_chord_opens_palette_and_escape_closes_it() {
    let mut app = fresh_app();
    handle_key_event(&mut app, ctrl_key('p'));
    assert!(app.show_command_palette);
    let esc = KeyEvent { code: KeyCode::Esc, ctrl: false, alt: false, shift: false };
    handle_key_event(&mut app, esc);
    assert!(!app.show_command_palette);
    assert_eq!(app.command_palette.input, "");
}

#[test]
fn palette_open_settings_adds_the_settings_tab() {
    let mut app = fresh_app();
    handle_key_event(&mut app, ctrl_key('p'));
    for c in ">opensettings".chars() {
        let k = KeyEvent { code: KeyCode::Char(c), ctrl: false, alt: false, shift: false };
        handle_key_event(&mut app, k);
    }
    let enter = KeyEvent { code: KeyCode::Enter, ctrl: false, alt: false, shift: false };
    handle_key_event(&mut app, enter);
    assert!(!app.show_command_palette);
    assert_eq!(app.main_tabs.get(app.main_tabs.active_index()).title, "Settings");
}

#[test]
fn palette_quit_chord_exits_from_the_palette() {
    let mut app = fresh_app();
    handle_key_event(&mut app, ctrl_key('p'));
    let (ev, _) = handle_key_event(&mut app, ctrl_key('q'));
    assert!(matches!(ev, AppEvent::Quit));
    // quit is requested, not performed: the palette is still open
    assert!(app.show_command_palette);
    assert!(!app.should_quit);
}

#[test]
fn close_tab_removes_the_active_editor_tab() {
    let mut app = fresh_app();
    app.add_editor_tab(FakeSession, "Editor 1".to_string());
    app.add_editor_tab(FakeSession, "Editor 2".to_string());
    app.add_editor_tab(FakeSession, "Editor 3".to_string());
    assert_eq!(app.main_tabs.active_index(), 2);
    // closing the last tab re-clamps the active index to the new end
    apply_global_action(&mut app, GlobalAction::CloseTab);
    assert_eq!(app.main_tabs.len(), 2);
    assert_eq!(app.main_tabs.get(0).title, "Editor 1");
    assert_eq!(app.main_tabs.get(1).title, "Editor 2");
    assert_eq!(app.main_tabs.active_index(), 1);
    // closing the first tab keeps the index on the tab that slid into place
    app.main_tabs.active = 0;
    apply_global_action(&mut app, GlobalAction::CloseTab);
    assert_eq!(app.main_tabs.len(), 1);
    assert_eq!(app.main_tabs.get(0).title, "Editor 2");
    assert_eq!(app.main_tabs.active_index(), 0);
    // closing the last remaining tab installs the welcome placeholder
    apply_global_action(&mut app, GlobalAction::CloseTab);
    assert_eq!(app.main_tabs.len(), 1);
    assert_eq!(app.main_tabs.get(0).title, "Welcome");
}

#[test]
fn close_tab_reclamps_the_terminal_index() {
    let mut app = fresh_app();
    app.add_terminal_tab(FakeSession, "Term 1".to_string());
    app.add_terminal_tab(FakeSession, "Term 2".to_string());
    app.add_terminal_tab(FakeSession, "Term 3".to_string());
    assert_eq!(app.active_target, ActiveTarget::Panel);
    assert_eq!(app.terminals.active_index(), 2);
    apply_global_action(&mut app, GlobalAction::CloseTab);
    assert_eq!(app.terminals.len(), 2);
    assert_eq!(app.terminals.active_index(), 1);
    assert!(app.show_panel);
    assert_eq!(app.active_target, ActiveTarget::Panel);
}

#[test]
fn executing_a_palette_command_comes_back_as_a_directive() {
    let mut app = fresh_app();
    handle_key_event(&mut app, ctrl_key('p'));
    for c in ">quickopen".chars() {
        let k = KeyEvent { code: KeyCode::Char(c), ctrl: false, alt: false, shift: false };
        handle_key_event(&mut app, k);
    }
    let enter = KeyEvent { code: KeyCode::Enter, ctrl: false, alt: false, shift: false };
    let (ev, d) = handle_key_event(&mut app, enter);
    assert!(matches!(ev, AppEvent::Continue));
    match d {
        Directive::RunCommand(name) => assert_eq!(name, ">workbench.action.quickOpen"),
        _ => panic!("expected a run-command directive"),
    }
    assert!(!app.show_command_palette);
}

#[test]
fn sidebar_keys_come_back_as_a_directive() {
    let mut app = fresh_app();
    app.primary_sidebar_components.push("Files".to_string(), 0u8);
    app.active_target = ActiveTarget::PrimarySideBar;
    let down = KeyEvent { code: KeyCode::Down, ctrl: false, alt: false, shift: false };
    let (ev, d) = handle_key_event(&mut app, down);
    assert!(matches!(ev, AppEvent::Continue));
    assert!(matches!(d, Directive::ForwardToSidebar));
}

#[test]
fn ctrl_tab_switches_sidebar_tabs() {
    let mut app = fresh_app();
    app.primary_sidebar_components.push("Files".to_string(), 0u8);
    app.primary_sidebar_components.push("Search".to_string(), 1u8);
    app.primary_sidebar_components.push("Git".to_string(), 2u8);
    app.active_target = ActiveTarget::Editor;
    let tab = KeyEvent { code: KeyCode::Tab, ctrl: true, alt: false, shift: false };
    handle_key_event(&mut app, tab);
    assert_eq!(app.active_target, ActiveTarget::PrimarySideBar);
    assert_eq!(app.primary_sidebar_components.active_index(), 0);
    let backtab = KeyEvent { code: KeyCode::BackTab, ctrl: true, alt: false, shift: false };
    handle_key_event(&mut app, backtab);
    assert_eq!(app.primary_sidebar_components.active_index(), 2);
}
