use nano_snipper::config::NsConfig;
use nano_snipper::daemon::{
    after_render, ClipboardFlags,
    ack_from_reply, capture_mode_for_hotkey, config_from_reply, config_saved, deleted_from_reply,
    handle_ipc_message, history_from_reply, history_reply, pause_item_text, render_format_source,
    tray_action, ui_page_argument, ClipboardSource, DaemonState, IpcAction, IpcMessage, ReplyError,
    TrayAction, TrayItem, CF_DIBV5, PIPE_NAME,
};
use nano_snipper::geometry::{CaptureMode, Rect};
use nano_snipper::history::HistoryEntry;
use nano_snipper::hotkey::HotkeyId;
use nano_snipper::ui::{page_from_args, Page};

fn state(has_history: bool) -> DaemonState {
    DaemonState { config: NsConfig::default(), paused: false, has_history }
}

#[test]
fn pipe_name() {
    assert_eq!(PIPE_NAME, r"\\.\pipe\NanoSnipper");
}

#[test]
fn get_config_replies_with_config() {
    let mut s = state(true);
    s.config.retention.max_age_days = 3;
    match handle_ipc_message(&mut s, IpcMessage::GetConfig) {
        IpcAction::Reply(IpcMessage::ConfigData(c)) => assert_eq!(c.retention.max_age_days, 3),
        other => panic!("unexpected {:?}", other),
    }
}

#[test]
fn set_config_is_saved_before_it_applies() {
    let mut s = state(true);
    let mut c = NsConfig::default();
    c.behavior.start_on_login = false;
    let action = handle_ipc_message(&mut s, IpcMessage::SetConfig(c));
    let to_save = match action {
        IpcAction::SaveConfig(c) => c,
        other => panic!("unexpected {:?}", other),
    };
    assert!(s.config.behavior.start_on_login);
    let step = config_saved(&mut s, to_save, Ok(()));
    assert!(step.applied);
    assert!(matches!(step.reply, IpcMessage::Ack));
    assert!(!s.config.behavior.start_on_login);
    let read = match handle_ipc_message(&mut s, IpcMessage::GetConfig) {
        IpcAction::Reply(reply) => config_from_reply(reply).expect("config data"),
        other => panic!("unexpected {:?}", other),
    };
    assert!(!read.behavior.start_on_login);
    assert_eq!(read.hotkeys.region.key, 0x31);
}

#[test]
fn failed_save_keeps_old_config() {
    let mut s = state(true);
    let mut c = NsConfig::default();
    c.retention.max_size_mb = 1;
    let step = config_saved(&mut s, c, Err("disk full".to_string()));
    assert!(!step.applied);
    match step.reply {
        IpcMessage::Error(m) => assert_eq!(m, "Failed to save: disk full"),
        other => panic!("unexpected {:?}", other),
    }
    assert_eq!(s.config.retention.max_size_mb, 2048);
}

#[test]
fn history_requests() {
    let mut with = state(true);
    match handle_ipc_message(&mut with, IpcMessage::GetHistory { offset: 20, limit: 20, search: Some("x".to_string()) }) {
        IpcAction::QueryHistory { offset, limit, search } => {
            assert_eq!((offset, limit), (20, 20));
            assert_eq!(search, Some("x".to_string()));
        }
        other => panic!("unexpected {:?}", other),
    }
    let mut without = state(false);
    match handle_ipc_message(&mut without, IpcMessage::GetHistory { offset: 0, limit: 20, search: None }) {
        IpcAction::Reply(IpcMessage::HistoryData { entries, total, thumbnails }) => {
            assert!(entries.is_empty());
            assert_eq!(total, 0);
            assert!(thumbnails.is_empty());
        }
        other => panic!("unexpected {:?}", other),
    }
}

#[test]
fn history_reply_passes_page_or_error() {
    let e = HistoryEntry::new(1, 0, CaptureMode::Fullscreen, Rect::new(0, 0, 2, 2), "a.png".to_string(), 10, 2, 2);
    match history_reply(Ok((vec![e], 7)), vec![Some(vec![0xFF, 0xD8])]) {
        IpcMessage::HistoryData { entries, total, thumbnails } => {
            assert_eq!(entries.len(), 1);
            assert_eq!(entries[0].file_path, "a.png");
            assert_eq!(total, 7);
            assert_eq!(thumbnails, vec![Some(vec![0xFF, 0xD8])]);
        }
        other => panic!("unexpected {:?}", other),
    }
    assert!(matches!(history_reply(Err("locked".to_string()), vec![]), IpcMessage::Error(m) if m == "locked"));
}

#[test]
fn delete_pause_trigger_and_others() {
    let mut s = state(true);
    assert!(matches!(handle_ipc_message(&mut s, IpcMessage::DeleteEntry(5)),
        IpcAction::DeleteEntry { id: 5, reply: IpcMessage::EntryDeleted(5) }));
    let mut n = state(false);
    assert!(matches!(handle_ipc_message(&mut n, IpcMessage::DeleteEntry(5)), IpcAction::Reply(IpcMessage::EntryDeleted(5))));
    assert!(matches!(handle_ipc_message(&mut s, IpcMessage::SetPaused(true)), IpcAction::Reply(IpcMessage::Ack)));
    assert!(s.paused);
    assert!(matches!(handle_ipc_message(&mut s, IpcMessage::TriggerCapture(CaptureMode::Region)), IpcAction::Reply(IpcMessage::Ack)));
    assert!(matches!(handle_ipc_message(&mut s, IpcMessage::Ack), IpcAction::NoReply));
    assert!(matches!(handle_ipc_message(&mut s, IpcMessage::DeleteAllEntries), IpcAction::NoReply));
    assert!(s.paused);
}

#[test]
fn paused_hotkeys_are_ignored() {
    assert_eq!(capture_mode_for_hotkey(true, HotkeyId::Region), None);
    assert_eq!(capture_mode_for_hotkey(false, HotkeyId::Region), Some(CaptureMode::Region));
    assert_eq!(capture_mode_for_hotkey(false, HotkeyId::Fullscreen), Some(CaptureMode::Fullscreen));
    let mut s = state(true);
    handle_ipc_message(&mut s, IpcMessage::SetPaused(true));
    assert_eq!(capture_mode_for_hotkey(s.paused, HotkeyId::Fullscreen), None);
}

#[test]
fn client_reply_checks() {
    assert!(matches!(config_from_reply(IpcMessage::ConfigData(NsConfig::default())), Ok(_)));
    assert!(matches!(config_from_reply(IpcMessage::Ack), Err(ReplyError::Unexpected)));
    assert!(matches!(ack_from_reply(IpcMessage::Ack), Ok(())));
    assert!(matches!(ack_from_reply(IpcMessage::Error("no".to_string())), Err(ReplyError::Server(ref m)) if m == "no"));
    assert!(matches!(deleted_from_reply(IpcMessage::EntryDeleted(1)), Ok(())));
    assert!(matches!(deleted_from_reply(IpcMessage::AllEntriesDeleted), Err(ReplyError::Unexpected)));
    match history_from_reply(IpcMessage::HistoryData { entries: vec![], total: 4, thumbnails: vec![] }) {
        Ok((e, t, th)) => {
            assert!(e.is_empty());
            assert_eq!(t, 4);
            assert!(th.is_empty());
        }
        Err(e) => panic!("unexpected {:?}", e),
    }
    assert_eq!(ReplyError::Server("x".to_string()).message(), "Server error: x");
    assert_eq!(ReplyError::Unexpected.message(), "Unexpected response");
}

#[test]
fn tray_menu() {
    assert_eq!(tray_action(TrayItem::Pause, false), TrayAction::SetPaused(true));
    assert_eq!(tray_action(TrayItem::Pause, true), TrayAction::SetPaused(false));
    assert_eq!(tray_action(TrayItem::Exit, true), TrayAction::Close);
    assert_eq!(tray_action(TrayItem::History, false), TrayAction::OpenUi(Page::History));
    assert_eq!(tray_action(TrayItem::About, false), TrayAction::OpenUi(Page::About));
    assert_eq!(tray_action(TrayItem::Settings, false), TrayAction::OpenUi(Page::Settings));
    assert_eq!(pause_item_text(true), "Resume");
    assert_eq!(pause_item_text(false), "Pause");
}

#[test]
fn tray_page_argument_opens_that_page() {
    for page in [Page::Settings, Page::History, Page::About] {
        let arg = ui_page_argument(page);
        assert_eq!(page_from_args(&vec!["snipui.exe".to_string(), arg]), page);
    }
    assert_eq!(ui_page_argument(Page::History), "--page=history");
}

#[test]
fn clipboard_render_source() {
    assert_eq!(render_format_source(1, true, true, true), None);
    assert_eq!(render_format_source(CF_DIBV5, true, true, false), Some(ClipboardSource::PreRendered));
    assert_eq!(render_format_source(CF_DIBV5, false, true, false), Some(ClipboardSource::CompletePending));
    assert_eq!(render_format_source(CF_DIBV5, false, true, true), Some(ClipboardSource::LastCapture));
    assert_eq!(render_format_source(CF_DIBV5, false, false, true), Some(ClipboardSource::LastCapture));
    assert_eq!(render_format_source(CF_DIBV5, false, false, false), Some(ClipboardSource::Unavailable));
}

#[test]
fn clipboard_sources_after_a_paste() {
    let all = ClipboardFlags { has_pre_rendered: true, has_pending: true, has_last: false };
    assert_eq!(after_render(all, ClipboardSource::PreRendered, false),
        ClipboardFlags { has_pre_rendered: false, has_pending: true, has_last: false });
    let pending = ClipboardFlags { has_pre_rendered: false, has_pending: true, has_last: false };
    assert_eq!(after_render(pending, ClipboardSource::CompletePending, true),
        ClipboardFlags { has_pre_rendered: false, has_pending: false, has_last: true });
    assert_eq!(after_render(pending, ClipboardSource::CompletePending, false),
        ClipboardFlags { has_pre_rendered: false, has_pending: false, has_last: false });
    let last = ClipboardFlags { has_pre_rendered: false, has_pending: false, has_last: true };
    assert_eq!(after_render(last, ClipboardSource::LastCapture, false), last);
    let none = ClipboardFlags { has_pre_rendered: false, has_pending: false, has_last: false };
    assert_eq!(after_render(none, ClipboardSource::Unavailable, true), none);
}
