use inf_edit::command_palette::{CommandPalette, CommandPaletteEvent, PaletteMode};
use inf_edit::keys::{KeyCode, KeyEvent};

fn key(code: KeyCode) -> KeyEvent {
    KeyEvent::plain(code)
}

fn type_str(cp: &mut CommandPalette, s: &str) {
    for c in s.chars() {
        cp.handle_key(key(KeyCode::Char(c)));
    }
}

#[test]
fn empty_query_is_file_mode() {
    let cp = CommandPalette::new();
    assert_eq!(cp.mode, PaletteMode::File);
    assert!(cp.file_candidates.is_empty());
    assert_eq!(cp.selected, None);
}

#[test]
fn leading_angle_switches_to_command_mode_with_all_commands() {
    let mut cp = CommandPalette::new();
    type_str(&mut cp, ">");
    assert_eq!(cp.mode, PaletteMode::Command);
    assert_eq!(cp.command_candidates.len(), 6);
    assert_eq!(cp.selected, Some(0));
}

#[test]
fn command_query_filters_by_substring() {
    let mut cp = CommandPalette::new();
    type_str(&mut cp, ">settings");
    assert_eq!(cp.command_candidates, vec![">workbench.action.openSettings".to_string()]);
}

#[test]
fn command_matching_is_case_insensitive() {
    let mut cp = CommandPalette::new();
    type_str(&mut cp, ">OPENSETTINGS");
    assert_eq!(cp.command_candidates, vec![">workbench.action.openSettings".to_string()]);
}

#[test]
fn enter_on_open_settings_yields_open_settings_event() {
    let mut cp = CommandPalette::new();
    type_str(&mut cp, ">opensettings");
    let ev = cp.handle_key(key(KeyCode::Enter));
    assert!(matches!(ev, CommandPaletteEvent::OpenSettings));
}

#[test]
fn enter_on_other_command_yields_execute_event() {
    let mut cp = CommandPalette::new();
    type_str(&mut cp, ">quickopen");
    let ev = cp.handle_key(key(KeyCode::Enter));
    match ev {
        CommandPaletteEvent::ExecuteCommand(name) => {
            assert_eq!(name, ">workbench.action.quickOpen");
        },
        _ => panic!("expected an execute event"),
    }
}

#[test]
fn file_mode_filters_available_files() {
    let mut cp = CommandPalette::new();
    cp.set_available_files(vec![
        "Cargo.toml".to_string(),
        "main.rs".to_string(),
        "README.md".to_string(),
    ]);
    type_str(&mut cp, "rs");
    assert_eq!(cp.mode, PaletteMode::File);
    assert_eq!(cp.file_candidates, vec!["main.rs".to_string()]);
    let ev = cp.handle_key(key(KeyCode::Enter));
    match ev {
        CommandPaletteEvent::OpenFile(name) => assert_eq!(name, "main.rs"),
        _ => panic!("expected an open-file event"),
    }
}

#[test]
fn file_matching_is_case_insensitive() {
    let mut cp = CommandPalette::new();
    cp.set_available_files(vec!["README.md".to_string(), "notes.txt".to_string()]);
    type_str(&mut cp, "readme");
    assert_eq!(cp.file_candidates, vec!["README.md".to_string()]);
}

#[test]
fn backspace_on_empty_query_asks_to_exit() {
    let mut cp = CommandPalette::new();
    let ev = cp.handle_key(key(KeyCode::Backspace));
    assert!(matches!(ev, CommandPaletteEvent::Exit));
}

#[test]
fn cursor_insertion_respects_grapheme_position() {
    let mut cp = CommandPalette::new();
    type_str(&mut cp, "ab");
    cp.handle_key(key(KeyCode::Left));
    cp.handle_key(key(KeyCode::Char('c')));
    assert_eq!(cp.input, "acb");
    assert_eq!(cp.cursor_grapheme, 2);
}

#[test]
fn backspace_removes_the_grapheme_before_the_cursor() {
    let mut cp = CommandPalette::new();
    type_str(&mut cp, "abc");
    cp.handle_key(key(KeyCode::Left));
    cp.handle_key(key(KeyCode::Backspace));
    assert_eq!(cp.input, "ac");
    assert_eq!(cp.cursor_grapheme, 1);
}

#[test]
fn combined_grapheme_counts_as_one_cursor_step() {
    let mut cp = CommandPalette::new();
    // 'e' followed by a combining acute accent is one grapheme cluster
    cp.handle_key(key(KeyCode::Char('e')));
    cp.handle_key(key(KeyCode::Char('\u{301}')));
    assert_eq!(cp.cursor_grapheme, 1);
    cp.handle_key(key(KeyCode::Char('x')));
    assert_eq!(cp.input, "e\u{301}x");
    cp.handle_key(key(KeyCode::Backspace));
    cp.handle_key(key(KeyCode::Backspace));
    assert_eq!(cp.input, "");
}

#[test]
fn selection_cycles_over_candidates() {
    let mut cp = CommandPalette::new();
    type_str(&mut cp, ">");
    assert_eq!(cp.selected, Some(0));
    cp.handle_key(key(KeyCode::Down));
    assert_eq!(cp.selected, Some(1));
    cp.handle_key(key(KeyCode::Up));
    cp.handle_key(key(KeyCode::Up));
    assert_eq!(cp.selected, Some(5));
    cp.handle_key(key(KeyCode::Down));
    assert_eq!(cp.selected, Some(0));
}

#[test]
fn page_keys_jump_by_ten_with_clamping() {
    let mut cp = CommandPalette::new();
    for i in 0..15 {
        cp.add_command(format!(">extra.command{:02}", i), "an extra command".to_string());
    }
    type_str(&mut cp, ">");
    assert_eq!(cp.command_candidates.len(), 21);
    cp.handle_key(key(KeyCode::PageDown));
    assert_eq!(cp.selected, Some(10));
    cp.handle_key(key(KeyCode::PageDown));
    assert_eq!(cp.selected, Some(20));
    cp.handle_key(key(KeyCode::PageDown));
    assert_eq!(cp.selected, Some(20));
    cp.handle_key(key(KeyCode::PageUp));
    assert_eq!(cp.selected, Some(10));
    cp.handle_key(key(KeyCode::PageUp));
    cp.handle_key(key(KeyCode::PageUp));
    assert_eq!(cp.selected, Some(0));
}

#[test]
fn stock_commands_are_listed_sorted() {
    let mut cp = CommandPalette::new();
    type_str(&mut cp, ">");
    assert_eq!(
        cp.command_candidates,
        vec![
            ">workbench.action.closeActiveEditor".to_string(),
            ">workbench.action.files.newUntitledFile".to_string(),
            ">workbench.action.files.openFile".to_string(),
            ">workbench.action.files.save".to_string(),
            ">workbench.action.openSettings".to_string(),
            ">workbench.action.quickOpen".to_string(),
        ]
    );
}

#[test]
fn registration_keeps_names_sorted_and_unique() {
    let mut cp = CommandPalette::new();
    // registered out of order and once twice: the list stays sorted and
    // duplicate-free, like the sorted keys of a map
    cp.add_command(">zeta.last".to_string(), "comes last".to_string());
    cp.add_command(">alpha.first".to_string(), "comes first".to_string());
    cp.add_command(">alpha.first".to_string(), "replaced".to_string());
    type_str(&mut cp, ">");
    assert_eq!(cp.command_candidates.len(), 8);
    assert_eq!(cp.command_candidates[0], ">alpha.first");
    assert_eq!(cp.command_candidates[7], ">zeta.last");
    let mut sorted = cp.command_candidates.clone();
    sorted.sort();
    sorted.dedup();
    assert_eq!(cp.command_candidates, sorted);
}

#[test]
fn reset_clears_query_and_selection() {
    let mut cp = CommandPalette::new();
    type_str(&mut cp, ">files");
    assert!(!cp.command_candidates.is_empty());
    cp.reset();
    assert_eq!(cp.input, "");
    assert_eq!(cp.cursor_grapheme, 0);
    assert_eq!(cp.mode, PaletteMode::File);
}
