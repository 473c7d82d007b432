use inf_edit::background::BackgroundTask;
use inf_edit::help_widget::HelpWidget;
use inf_edit::keys::{KeyCode, KeyEvent};
use inf_edit::notification::{NotificationManager, NotificationType};
use inf_edit::status::StatusBar;
use inf_edit::{Popup, PopupResult};

fn tap(code: KeyCode) -> KeyEvent {
    KeyEvent::plain(code)
}

#[test]
fn popup_starts_on_confirm_and_toggles() {
    let mut p = Popup::new("Close".to_string(), "Close this tab?".to_string());
    assert!(p.confirm_selected);
    assert!(matches!(p.handle_key(tap(KeyCode::Left)), PopupResult::Ignored));
    assert!(!p.confirm_selected);
    assert!(matches!(p.handle_key(tap(KeyCode::Tab)), PopupResult::Ignored));
    assert!(p.confirm_selected);
}

#[test]
fn popup_enter_yields_the_selected_button() {
    let mut p = Popup::new("Close".to_string(), "Close this tab?".to_string());
    assert!(matches!(p.handle_key(tap(KeyCode::Enter)), PopupResult::Confirm));
    p.handle_key(tap(KeyCode::Right));
    assert!(matches!(p.handle_key(tap(KeyCode::Enter)), PopupResult::Cancel));
}

#[test]
fn popup_escape_cancels_and_other_keys_are_swallowed() {
    let mut p = Popup::new("Close".to_string(), "Close this tab?".to_string());
    assert!(matches!(p.handle_key(tap(KeyCode::Esc)), PopupResult::Cancel));
    assert!(matches!(p.handle_key(tap(KeyCode::Char('x'))), PopupResult::Ignored));
    assert!(p.confirm_selected);
}

#[test]
fn help_widget_visibility_toggles() {
    let mut h = HelpWidget::new();
    assert!(!h.is_visible);
    h.toggle_visibility();
    assert!(h.is_visible);
    h.toggle_visibility();
    assert!(!h.is_visible);
}

#[test]
fn status_bar_message_and_placeholder() {
    let mut s = StatusBar::new("ready".to_string());
    assert_eq!(s.message, "ready");
    s.set_message("saved".to_string());
    assert_eq!(s.message, "saved");
    assert_eq!(s.get_resource_usage(), "CPU: 25% Mem: 60%");
}

#[test]
fn notifications_are_capped_at_five() {
    let mut m = NotificationManager::new();
    for i in 0..7u64 {
        m.add(format!("note {}", i), NotificationType::Info, i);
    }
    assert_eq!(m.notifications.len(), 5);
    assert_eq!(m.notifications[0].message, "note 2");
    assert_eq!(m.notifications[4].message, "note 6");
}

#[test]
fn purge_drops_only_expired_notifications() {
    let mut m = NotificationManager::new();
    m.add("old".to_string(), NotificationType::Warning, 0);
    m.add("fresh".to_string(), NotificationType::Error, 4000);
    m.purge_old(5500);
    assert_eq!(m.notifications.len(), 1);
    assert_eq!(m.notifications[0].message, "fresh");
    assert_eq!(m.notifications[0].ntype, NotificationType::Error);
}

#[test]
fn purge_keeps_everything_young() {
    let mut m = NotificationManager::new();
    m.add("a".to_string(), NotificationType::Info, 100);
    m.add("b".to_string(), NotificationType::Info, 200);
    m.purge_old(300);
    assert_eq!(m.notifications.len(), 2);
}

#[test]
fn background_task_runs_drains_and_rescans() {
    let mut task: BackgroundTask<String> = BackgroundTask::new();
    assert!(task.should_start());
    task.start();
    assert!(!task.should_start());
    task.drain(vec!["a".to_string()], false);
    task.drain(vec!["b".to_string(), "c".to_string()], true);
    assert_eq!(task.results, vec!["a", "b", "c"]);
    assert!(!task.running);
    assert!(!task.should_start());
    // the data changed underneath: the next poll starts a fresh run
    task.mark_dirty();
    assert!(task.should_start());
    task.start();
    assert!(task.results.is_empty());
}

#[test]
fn numbered_titles() {
    assert_eq!(inf_edit::strutil::numbered_title("Term ", 1), "Term 1");
    assert_eq!(inf_edit::strutil::numbered_title("Editor ", 12), "Editor 12");
    assert_eq!(inf_edit::strutil::numbered_title("T", 305), "T305");
}

#[test]
fn string_search_helpers() {
    assert!(inf_edit::strutil::str_eq("abc", "abc"));
    assert!(!inf_edit::strutil::str_eq("abc", "abd"));
    assert!(!inf_edit::strutil::str_eq("abc", "ab"));
    assert!(inf_edit::strutil::str_contains("workbench.action", "bench"));
    assert!(inf_edit::strutil::str_contains("anything", ""));
    assert!(!inf_edit::strutil::str_contains("short", "longer than hay"));
    assert!(!inf_edit::strutil::str_contains("abcabc", "cb"));
}
