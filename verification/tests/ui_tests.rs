use nano_snipper::config::NsConfig;
use nano_snipper::history::{HistoryEntry, HistoryMessage};
use nano_snipper::geometry::{CaptureMode, Rect};
use nano_snipper::hotkey::{HotkeyCombination, Modifier};
use nano_snipper::ui::{
    page_from_arg, page_from_args, AboutMessage, AppMessage, AppTask, HotkeyAction, HotkeyInput,
    HotkeyInputMessage, NsApp, Page, SettingsMessage, SettingsState,
};

fn combo(mods: Vec<Modifier>, key: u32) -> HotkeyCombination {
    HotkeyCombination { modifiers: mods, key }
}

#[test]
fn page_arguments() {
    assert_eq!(page_from_arg("history"), Page::History);
    assert_eq!(page_from_arg("about"), Page::About);
    assert_eq!(page_from_arg("settings"), Page::Settings);
    assert_eq!(page_from_arg("History"), Page::Settings);
    let args = vec!["snipui.exe".to_string(), "--page=about".to_string(), "--page=history".to_string()];
    assert_eq!(page_from_args(&args), Page::About);
    assert_eq!(page_from_args(&vec!["snipui.exe".to_string()]), Page::Settings);
    assert_eq!(page_from_args(&vec!["--page=".to_string()]), Page::Settings);
}

#[test]
fn hotkey_input_records() {
    let mut h = HotkeyInput::new("Region capture".to_string(), combo(vec![Modifier::Ctrl], 0x31));
    assert!(!h.listening);
    h.update(HotkeyInputMessage::StartListening);
    assert!(h.listening);
    h.update(HotkeyInputMessage::KeyCaptured(combo(vec![Modifier::Alt], 0x50)));
    assert!(!h.listening);
    assert_eq!(h.current.key, 0x50);
    assert_eq!(h.current.modifiers, vec![Modifier::Alt]);
    assert_eq!(h.label, "Region capture");
}

#[test]
fn settings_changes_are_saved() {
    let mut config = NsConfig::default();
    let mut s = SettingsState::new(config.duplicate());
    assert_eq!(s.hk_region.label, "Region capture");
    assert_eq!(s.hk_fullscreen.label, "Fullscreen capture");
    assert!(s.update(SettingsMessage::MaxAgeDaysChanged(7), &mut config));
    assert_eq!(config.retention.max_age_days, 7);
    assert!(s.update(SettingsMessage::MaxSizeMbChanged(2048), &mut config));
    assert_eq!(config.retention.max_size_mb, 2048);
    assert!(s.update(SettingsMessage::StartOnLoginToggled(false), &mut config));
    assert!(!config.behavior.start_on_login);
    assert!(s.update(SettingsMessage::AutoCopyTimeoutChanged(9), &mut config));
    assert_eq!(config.behavior.auto_copy_timeout_secs, 9);
    assert!(!s.update(SettingsMessage::HotkeyMsg(HotkeyAction::Fullscreen, HotkeyInputMessage::StartListening), &mut config));
    assert_eq!(s.listening_action(), Some(HotkeyAction::Fullscreen));
    assert!(s.update(SettingsMessage::HotkeyMsg(HotkeyAction::Fullscreen, HotkeyInputMessage::KeyCaptured(combo(vec![Modifier::Win], 0x46))), &mut config));
    assert_eq!(config.hotkeys.fullscreen.key, 0x46);
    assert_eq!(config.hotkeys.fullscreen.modifiers, vec![Modifier::Win]);
    assert_eq!(config.hotkeys.region.key, 0x31);
    assert_eq!(s.listening_action(), None);
}

#[test]
fn app_starts_on_requested_page() {
    let (app, task) = NsApp::new(NsConfig::default(), Page::History);
    assert_eq!(app.title(), "Nano Snipper - History");
    assert!(matches!(task, AppTask::LoadHistory { offset: 0, limit: 20, search: None }));
    assert!(app.wants_history_refresh());
    let (app2, task2) = NsApp::new(NsConfig::default(), Page::Settings);
    assert_eq!(app2.title(), "Nano Snipper - Settings");
    assert!(matches!(task2, AppTask::Nothing));
    assert!(!app2.wants_key_capture());
}

#[test]
fn navigation_and_history_requests() {
    let (mut app, _) = NsApp::new(NsConfig::default(), Page::Settings);
    assert!(matches!(app.update(AppMessage::NavigateTo(Page::About)), AppTask::Nothing));
    assert_eq!(app.title(), "Nano Snipper - About");
    assert!(matches!(app.update(AppMessage::NavigateTo(Page::History)), AppTask::LoadHistory { offset: 0, limit: 20, search: None }));
    let t = app.update(AppMessage::History(HistoryMessage::LoadPage(2)));
    assert!(matches!(t, AppTask::LoadHistory { offset: 40, limit: 20, search: None }));
    let t = app.update(AppMessage::History(HistoryMessage::SearchChanged("foo".to_string())));
    match t {
        AppTask::LoadHistory { offset, limit, search } => {
            assert_eq!((offset, limit), (0, 20));
            assert_eq!(search, Some("foo".to_string()));
        }
        other => panic!("unexpected {:?}", other),
    }
    assert!(matches!(app.update(AppMessage::History(HistoryMessage::DeleteEntry(9))), AppTask::DeleteEntry(9)));
    assert!(matches!(app.update(AppMessage::EntryDeleted(9)), AppTask::LoadHistory { .. }));
    assert!(matches!(app.update(AppMessage::RefreshHistory), AppTask::LoadHistory { .. }));
}

#[test]
fn opening_entries_and_links() {
    let (mut app, _) = NsApp::new(NsConfig::default(), Page::History);
    let e = HistoryEntry::new(3, 0, CaptureMode::Region, Rect::new(0, 0, 1, 1), "2024/02/x.png".to_string(), 1, 1, 1);
    assert!(matches!(app.update(AppMessage::HistoryLoaded(vec![e], 1, vec![None])), AppTask::Nothing));
    assert_eq!(app.history_state.total, 1);
    match app.update(AppMessage::History(HistoryMessage::OpenEntry(3))) {
        AppTask::OpenCapture(p) => assert_eq!(p, "2024/02/x.png"),
        other => panic!("unexpected {:?}", other),
    }
    assert!(matches!(app.update(AppMessage::History(HistoryMessage::OpenEntry(4))), AppTask::Nothing));
    assert!(matches!(app.update(AppMessage::About(AboutMessage::OpenBitcoinCom)), AppTask::OpenSponsor));
    assert!(matches!(app.update(AppMessage::OpenSponsorLink), AppTask::OpenSponsor));
    assert!(matches!(app.update(AppMessage::ConfigSaved), AppTask::LogConfigSaved));
    match app.update(AppMessage::IpcError("boom".to_string())) {
        AppTask::LogError(m) => assert_eq!(m, "boom"),
        other => panic!("unexpected {:?}", other),
    }
}

#[test]
fn captured_hotkey_goes_to_the_listening_binding() {
    let (mut app, _) = NsApp::new(NsConfig::default(), Page::Settings);
    assert!(matches!(app.update(AppMessage::HotkeyCaptured(combo(vec![], 0x41))), AppTask::Nothing));
    app.update(AppMessage::Settings(SettingsMessage::HotkeyMsg(HotkeyAction::Region, HotkeyInputMessage::StartListening)));
    assert!(app.wants_key_capture());
    match app.update(AppMessage::HotkeyCaptured(combo(vec![Modifier::Ctrl, Modifier::Alt], 0x52))) {
        AppTask::SaveConfig(c) => {
            assert_eq!(c.hotkeys.region.key, 0x52);
            assert_eq!(c.hotkeys.region.modifiers, vec![Modifier::Ctrl, Modifier::Alt]);
        }
        other => panic!("unexpected {:?}", other),
    }
    assert_eq!(app.config.hotkeys.region.key, 0x52);
    assert!(!app.wants_key_capture());
}

#[test]
fn loaded_config_replaces_settings() {
    let (mut app, _) = NsApp::new(NsConfig::default(), Page::Settings);
    let mut c = NsConfig::default();
    c.behavior.auto_copy_timeout_secs = 11;
    c.hotkeys.region.key = 0x39;
    assert!(matches!(app.update(AppMessage::ConfigLoaded(c)), AppTask::Nothing));
    assert_eq!(app.settings_state.auto_copy_timeout, 11);
    assert_eq!(app.settings_state.hk_region.current.key, 0x39);
    assert_eq!(app.config.hotkeys.region.key, 0x39);
}

#[test]
fn settings_value_change_keeps_everything_else() {
    let (mut app, _) = NsApp::new(NsConfig::default(), Page::Settings);
    match app.update(AppMessage::Settings(SettingsMessage::AutoCopyTimeoutChanged(12))) {
        AppTask::SaveConfig(c) => assert_eq!(c.behavior.auto_copy_timeout_secs, 12),
        other => panic!("unexpected {:?}", other),
    }
    assert_eq!(app.page, Page::Settings);
    assert_eq!(app.config.behavior.auto_copy_timeout_secs, 12);
    assert_eq!(app.settings_state.auto_copy_timeout, 12);
    assert_eq!(app.config.hotkeys.region.key, 0x31);
    assert_eq!(app.config.hotkeys.fullscreen.key, 0x32);
    assert_eq!(app.config.retention.max_age_days, 7);
    assert_eq!(app.settings_state.max_size_mb, 2048);
    assert!(matches!(
        app.update(AppMessage::Settings(SettingsMessage::HotkeyMsg(HotkeyAction::Fullscreen, HotkeyInputMessage::StopListening))),
        AppTask::Nothing
    ));
    assert_eq!(app.config.behavior.auto_copy_timeout_secs, 12);
}

#[test]
fn messages_without_state_change_leave_the_app_alone() {
    let (mut app, _) = NsApp::new(NsConfig::default(), Page::History);
    app.update(AppMessage::History(HistoryMessage::LoadPage(1)));
    match app.update(AppMessage::IpcError("x".to_string())) {
        AppTask::LogError(m) => assert_eq!(m, "x"),
        other => panic!("unexpected {:?}", other),
    }
    assert_eq!(app.page, Page::History);
    assert!(app.config.behavior.start_on_login);
    assert_eq!(app.history_state.current_page, 1);
    assert!(matches!(app.update(AppMessage::History(HistoryMessage::DeleteAll)), AppTask::Nothing));
    assert_eq!(app.history_state.current_page, 1);
    app.update(AppMessage::NavigateTo(Page::About));
    assert_eq!(app.history_state.current_page, 1);
    assert_eq!(app.config.retention.max_size_mb, 2048);
}
