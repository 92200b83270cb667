//! The daemon's side of the conversation with the settings UI, and what
//! its hotkeys start. Each received message becomes a decision here: the
//! reply, or the one piece of outside work (saving the configuration,
//! querying the history store) whose outcome then decides the reply.

use vstd::prelude::*;
use crate::config::{NsConfig, same_config};
use crate::geometry::CaptureMode;
use crate::history::HistoryEntry;
use crate::hotkey::HotkeyId;
use crate::ui::{Page, first_page_arg, spec_page_from_args};

verus! {

/// Messages exchanged between the daemon and the settings UI.
#[derive(Debug)]
pub enum IpcMessage {
    // --- UI to daemon ---
    /// Request the current config.
    GetConfig,
    /// Update config (the daemon stores it and re-registers its hotkeys).
    SetConfig(NsConfig),
    /// Request a history page.
    GetHistory { offset: u32, limit: u32, search: Option<String> },
    /// Delete a history entry.
    DeleteEntry(u128),
    /// Delete all history entries.
    DeleteAllEntries,
    /// Ask the daemon to start a capture.
    TriggerCapture(CaptureMode),
    /// Pause or resume the hotkeys.
    SetPaused(bool),
    // --- daemon to UI ---
    /// Config data response.
    ConfigData(NsConfig),
    /// History page response.
    HistoryData { entries: Vec<HistoryEntry>, total: u32, thumbnails: Vec<Option<Vec<u8>>> },
    /// A new capture was completed.
    CaptureCompleted(HistoryEntry),
    /// An entry was deleted.
    EntryDeleted(u128),
    /// All entries were deleted.
    AllEntriesDeleted,
    /// Error response.
    Error(String),
    /// Acknowledge with no payload.
    Ack,
}

/// The named pipe that the daemon listens on.
pub const PIPE_NAME: &'static str = "\\\\.\\pipe\\NanoSnipper";

/// The daemon state that the message handler reads and writes.
#[derive(Debug)]
pub struct DaemonState {
    /// The configuration in force.
    pub config: NsConfig,
    /// Whether hotkeys are paused.
    pub paused: bool,
    /// Whether the history store could be opened.
    pub has_history: bool,
}

/// What the daemon does with a received message.
#[derive(Debug)]
pub enum IpcAction {
    /// Send this reply.
    Reply(IpcMessage),
    /// Send nothing back.
    NoReply,
    /// Write this configuration to disk and hand the outcome to
    /// [`config_saved`], which decides the reply.
    SaveConfig(NsConfig),
    /// Query this page of the history store, read the thumbnail of each
    /// entry found, and hand both to [`history_reply`].
    QueryHistory { offset: u32, limit: u32, search: Option<String> },
    /// Queue the deletion of an entry in the history store, then send the
    /// reply.
    DeleteEntry { id: u128, reply: IpcMessage },
}

/// Decide what a received message calls for.
pub fn handle_ipc_message(state: &mut DaemonState, msg: IpcMessage) -> (r: IpcAction)
    ensures
        match msg {
            IpcMessage::SetPaused(p) => final(state).paused == p
                && final(state).config == old(state).config
                && final(state).has_history == old(state).has_history,
            _ => *final(state) == *old(state),
        },
        match msg {
            IpcMessage::GetConfig => (r matches IpcAction::Reply(IpcMessage::ConfigData(c))
                && same_config(c, old(state).config)),
            IpcMessage::SetConfig(c) => (r matches IpcAction::SaveConfig(s) && same_config(s, c)),
            IpcMessage::GetHistory { offset, limit, search } => if old(state).has_history {
                r matches IpcAction::QueryHistory { offset: o, limit: l, search: s }
                    && o == offset && l == limit && s == search
            } else {
                r matches IpcAction::Reply(IpcMessage::HistoryData { entries, total, thumbnails })
                    && entries@.len() == 0 && total == 0 && thumbnails@.len() == 0
            },
            IpcMessage::DeleteEntry(id) => if old(state).has_history {
                r matches IpcAction::DeleteEntry { id: d, reply: IpcMessage::EntryDeleted(e) } && d == id && e == id
            } else {
                r matches IpcAction::Reply(IpcMessage::EntryDeleted(e)) && e == id
            },
            IpcMessage::SetPaused(_) => r matches IpcAction::Reply(IpcMessage::Ack),
            IpcMessage::TriggerCapture(_) => r matches IpcAction::Reply(IpcMessage::Ack),
            _ => r is NoReply,
        },
{
    match msg {
        IpcMessage::GetConfig => IpcAction::Reply(IpcMessage::ConfigData(state.config.duplicate())),
        IpcMessage::SetConfig(new_config) => IpcAction::SaveConfig(new_config),
        IpcMessage::GetHistory { offset, limit, search } => {
            if state.has_history {
                IpcAction::QueryHistory { offset, limit, search }
            } else {
                IpcAction::Reply(IpcMessage::HistoryData { entries: Vec::new(), total: 0, thumbnails: Vec::new() })
            }
        },
        IpcMessage::DeleteEntry(id) => {
            if state.has_history {
                IpcAction::DeleteEntry { id, reply: IpcMessage::EntryDeleted(id) }
            } else {
                IpcAction::Reply(IpcMessage::EntryDeleted(id))
            }
        },
        IpcMessage::SetPaused(paused) => {
            state.paused = paused;
            IpcAction::Reply(IpcMessage::Ack)
        },
        IpcMessage::TriggerCapture(_) => IpcAction::Reply(IpcMessage::Ack),
        _ => IpcAction::NoReply,
    }
}

/// A configuration that the UI sends is the one it reads back once the
/// daemon has stored it: `SetConfig` hands the same settings on to be
/// saved ([`handle_ipc_message`]), a successful save puts the saved
/// settings in force ([`config_saved`]), `GetConfig` answers with the
/// settings in force, and the UI takes that answer as it is
/// ([`config_from_reply`]).
pub proof fn lemma_set_then_get_config(sent: NsConfig, to_save: NsConfig, in_force: NsConfig, answered: NsConfig)
    requires
        same_config(to_save, sent),
        same_config(in_force, to_save),
        same_config(answered, in_force),
    ensures
        same_config(answered, sent),
{
}

/// What follows an attempt to store a new configuration.
#[derive(Debug)]
pub struct ConfigSaveStep {
    /// The reply to the UI.
    pub reply: IpcMessage,
    /// Whether the new configuration is now in force; the daemon then sets
    /// its start-on-login entry to the new setting and re-registers its
    /// hotkeys.
    pub applied: bool,
}

/// Take the outcome of writing `config` to disk: on success it replaces the
/// configuration in force; on failure the old one stays and the UI is told
/// why (`saved` holds the failure's text).
pub fn config_saved(state: &mut DaemonState, config: NsConfig, saved: Result<(), String>) -> (r: ConfigSaveStep)
    ensures
        final(state).paused == old(state).paused,
        final(state).has_history == old(state).has_history,
        match saved {
            Ok(_) => r.applied && same_config(final(state).config, config) && r.reply is Ack,
            Err(e) => !r.applied && final(state).config == old(state).config
                && (r.reply matches IpcMessage::Error(m) && m@ == "Failed to save: "@ + e@),
        },
{
    match saved {
        Ok(()) => {
            state.config = config;
            ConfigSaveStep { reply: IpcMessage::Ack, applied: true }
        },
        Err(e) => {
            let mut m = String::from_str("Failed to save: ");
            proof {
                reveal_strlit("Failed to save: ");
            }
            m.append(e.as_str());
            ConfigSaveStep { reply: IpcMessage::Error(m), applied: false }
        },
    }
}

/// The reply to a history request, from what the history store answered:
/// the page and the total count of matches, or the failure's text. The
/// thumbnails are those of the page's entries, in order.
pub fn history_reply(query: Result<(Vec<HistoryEntry>, u32), String>, thumbnails: Vec<Option<Vec<u8>>>) -> (r: IpcMessage)
    ensures
        match query {
            Ok(page) => r matches IpcMessage::HistoryData { entries, total, thumbnails: t }
                && entries@ == page.0@ && total == page.1 && t@ == thumbnails@,
            Err(e) => r matches IpcMessage::Error(m) && m@ == e@,
        },
{
    match query {
        Ok((entries, total)) => IpcMessage::HistoryData { entries, total, thumbnails },
        Err(e) => IpcMessage::Error(e),
    }
}

/// The capture that a pressed hotkey starts: none while hotkeys are
/// paused, else a region selection or a full-screen capture.
pub fn capture_mode_for_hotkey(paused: bool, hotkey_id: HotkeyId) -> (r: Option<CaptureMode>)
    ensures
        paused ==> r is None,
        !paused && hotkey_id == HotkeyId::Region ==> r == Some(CaptureMode::Region),
        !paused && hotkey_id == HotkeyId::Fullscreen ==> r == Some(CaptureMode::Fullscreen),
{
    if paused {
        return None;
    }
    match hotkey_id {
        HotkeyId::Region => Some(CaptureMode::Region),
        HotkeyId::Fullscreen => Some(CaptureMode::Fullscreen),
    }
}

/// Why a reply from the daemon was not the one asked for.
#[derive(Debug)]
pub enum ReplyError {
    /// The daemon answered with an error.
    Server(String),
    /// The daemon answered with another kind of message.
    Unexpected,
}

impl ReplyError {
    /// The error's text: `Server error: ...` or `Unexpected response`.
    pub fn message(&self) -> (r: String)
        ensures
            match self {
                ReplyError::Server(e) => r@ == "Server error: "@ + e@,
                ReplyError::Unexpected => r@ == "Unexpected response"@,
            },
    {
        match self {
            ReplyError::Server(e) => {
                let mut m = String::from_str("Server error: ");
                proof {
                    reveal_strlit("Server error: ");
                }
                m.append(e.as_str());
                m
            },
            ReplyError::Unexpected => {
                proof {
                    reveal_strlit("Unexpected response");
                }
                String::from_str("Unexpected response")
            },
        }
    }
}

/// The configuration in the daemon's reply to `GetConfig`.
pub fn config_from_reply(reply: IpcMessage) -> (r: Result<NsConfig, ReplyError>)
    ensures
        match reply {
            IpcMessage::ConfigData(c) => r matches Ok(k) && k == c,
            IpcMessage::Error(e) => r matches Err(ReplyError::Server(m)) && m == e,
            _ => r matches Err(ReplyError::Unexpected),
        },
{
    match reply {
        IpcMessage::ConfigData(config) => Ok(config),
        IpcMessage::Error(e) => Err(ReplyError::Server(e)),
        _ => Err(ReplyError::Unexpected),
    }
}

/// Whether the daemon acknowledged a `SetConfig`.
pub fn ack_from_reply(reply: IpcMessage) -> (r: Result<(), ReplyError>)
    ensures
        match reply {
            IpcMessage::Ack => r is Ok,
            IpcMessage::Error(e) => r matches Err(ReplyError::Server(m)) && m == e,
            _ => r matches Err(ReplyError::Unexpected),
        },
{
    match reply {
        IpcMessage::Ack => Ok(()),
        IpcMessage::Error(e) => Err(ReplyError::Server(e)),
        _ => Err(ReplyError::Unexpected),
    }
}

/// The page in the daemon's reply to `GetHistory`: entries, total count
/// and thumbnails.
pub fn history_from_reply(reply: IpcMessage) -> (r: Result<(Vec<HistoryEntry>, u32, Vec<Option<Vec<u8>>>), ReplyError>)
    ensures
        match reply {
            IpcMessage::HistoryData { entries, total, thumbnails } => r matches Ok(page)
                && page.0@ == entries@ && page.1 == total && page.2@ == thumbnails@,
            IpcMessage::Error(e) => r matches Err(ReplyError::Server(m)) && m == e,
            _ => r matches Err(ReplyError::Unexpected),
        },
{
    match reply {
        IpcMessage::HistoryData { entries, total, thumbnails } => Ok((entries, total, thumbnails)),
        IpcMessage::Error(e) => Err(ReplyError::Server(e)),
        _ => Err(ReplyError::Unexpected),
    }
}

/// Whether the daemon confirmed a `DeleteEntry`.
pub fn deleted_from_reply(reply: IpcMessage) -> (r: Result<(), ReplyError>)
    ensures
        match reply {
            IpcMessage::EntryDeleted(_) => r is Ok,
            IpcMessage::Error(e) => r matches Err(ReplyError::Server(m)) && m == e,
            _ => r matches Err(ReplyError::Unexpected),
        },
{
    match reply {
        IpcMessage::EntryDeleted(_) => Ok(()),
        IpcMessage::Error(e) => Err(ReplyError::Server(e)),
        _ => Err(ReplyError::Unexpected),
    }
}

/// The entries of the tray icon's menu.
#[derive(Debug, Clone, Copy, PartialEq, Eq, Structural)]
pub enum TrayItem {
    Settings,
    History,
    Pause,
    Exit,
    About,
}

/// What choosing a tray menu entry does.
#[derive(Debug, Clone, Copy, PartialEq, Eq, Structural)]
pub enum TrayAction {
    /// Close the daemon's window, which ends the daemon.
    Close,
    /// Pause (true) or resume (false) the hotkeys.
    SetPaused(bool),
    /// Start the settings UI on a page.
    OpenUi(Page),
}

/// What choosing `item` does while hotkeys are `paused` or not: the pause
/// entry toggles the pause.
pub fn tray_action(item: TrayItem, paused: bool) -> (r: TrayAction)
    ensures
        r == match item {
            TrayItem::Exit => TrayAction::Close,
            TrayItem::Pause => TrayAction::SetPaused(!paused),
            TrayItem::History => TrayAction::OpenUi(Page::History),
            TrayItem::About => TrayAction::OpenUi(Page::About),
            TrayItem::Settings => TrayAction::OpenUi(Page::Settings),
        },
{
    match item {
        TrayItem::Exit => TrayAction::Close,
        TrayItem::Pause => TrayAction::SetPaused(!paused),
        TrayItem::History => TrayAction::OpenUi(Page::History),
        TrayItem::About => TrayAction::OpenUi(Page::About),
        TrayItem::Settings => TrayAction::OpenUi(Page::Settings),
    }
}

/// The label of the pause entry: what choosing it would do.
pub fn pause_item_text(paused: bool) -> (r: &'static str)
    ensures
        r@ == if paused { "Resume"@ } else { "Pause"@ },
{
    if paused { "Resume" } else { "Pause" }
}

/// The name of a page on the UI's command line.
pub open spec fn page_name(page: Page) -> Seq<char> {
    match page {
        Page::Settings => "settings"@,
        Page::History => "history"@,
        Page::About => "about"@,
    }
}

/// The argument that starts the settings UI on `page`.
pub fn ui_page_argument(page: Page) -> (r: String)
    ensures
        r@ == "--page="@ + page_name(page),
{
    let mut s = String::from_str("--page=");
    match page {
        Page::Settings => s.append("settings"),
        Page::History => s.append("history"),
        Page::About => s.append("about"),
    }
    s
}

/// The UI started with the argument that the tray passes opens the page
/// that was asked for (whatever the program's own name, unless it looks
/// like a page argument itself).
pub proof fn lemma_page_argument_roundtrip(page: Page, program: Seq<char>)
    requires
        !(7 <= program.len() && program.subrange(0, 7) == "--page="@),
    ensures
        spec_page_from_args(seq![program, "--page="@ + page_name(page)]) == page,
{
    reveal_strlit("--page=");
    reveal_strlit("settings");
    reveal_strlit("history");
    reveal_strlit("about");
    let args = seq![program, "--page="@ + page_name(page)];
    let a = args[1];
    assert(a.subrange(0, 7) =~= "--page="@);
    assert(a.subrange(7, a.len() as int) =~= page_name(page));
    assert(first_page_arg(args, 2) is None);
    assert(first_page_arg(args, 0) == first_page_arg(args, 1));
    if page == Page::Settings {
        assert(page_name(page) != "history"@) by {
            assert(page_name(page).len() != "history"@.len());
        }
        assert(page_name(page) != "about"@) by {
            assert(page_name(page).len() != "about"@.len());
        }
    }
}

/// The clipboard format of a top-down 32-bit image (`CF_DIBV5`).
pub const CF_DIBV5: u32 = 17;

/// Where the image comes from when the clipboard asks for the data of a
/// delayed-rendered format.
#[derive(Debug, Clone, Copy, PartialEq, Eq, Structural)]
pub enum ClipboardSource {
    /// The image rendered in advance for this paste.
    PreRendered,
    /// A capture whose readback has not run yet: complete it now, render it
    /// and keep it as the last capture.
    CompletePending,
    /// The last completed capture, rendered now.
    LastCapture,
    /// There is nothing to give.
    Unavailable,
}

/// How the daemon answers the clipboard's request for `format`: nothing for
/// a format other than `CF_DIBV5`, else the first source that exists of
/// the pre-rendered image, a pending capture (when no capture is complete)
/// and the last capture.
pub fn render_format_source(format: u32, has_pre_rendered: bool, has_pending: bool, has_last: bool)
    -> (r: Option<ClipboardSource>)
    ensures
        format != CF_DIBV5 ==> r is None,
        format == CF_DIBV5 ==> r == Some(
            if has_pre_rendered { ClipboardSource::PreRendered }
            else if has_pending && !has_last { ClipboardSource::CompletePending }
            else if has_last { ClipboardSource::LastCapture }
            else { ClipboardSource::Unavailable }),
{
    if format != CF_DIBV5 {
        return None;
    }
    if has_pre_rendered {
        Some(ClipboardSource::PreRendered)
    } else if has_pending && !has_last {
        Some(ClipboardSource::CompletePending)
    } else if has_last {
        Some(ClipboardSource::LastCapture)
    } else {
        Some(ClipboardSource::Unavailable)
    }
}

/// Which of the clipboard's image sources the daemon holds.
#[derive(Debug, Clone, Copy, PartialEq, Eq, Structural)]
pub struct ClipboardFlags {
    /// An image rendered in advance for the next paste.
    pub has_pre_rendered: bool,
    /// A capture whose readback has not run yet.
    pub has_pending: bool,
    /// The last completed capture.
    pub has_last: bool,
}

/// What the daemon holds after answering a clipboard request from
/// `source`: the pre-rendered image is used up; a pending capture is taken
/// and, when its readback succeeds (`readback_ok`), kept as the last
/// capture; rendering the last capture, or having nothing, changes nothing.
pub fn after_render(flags: ClipboardFlags, source: ClipboardSource, readback_ok: bool) -> (r: ClipboardFlags)
    ensures
        match source {
            ClipboardSource::PreRendered => r == (ClipboardFlags { has_pre_rendered: false, ..flags }),
            ClipboardSource::CompletePending => r == (ClipboardFlags { has_pending: false, has_last: readback_ok, ..flags }),
            ClipboardSource::LastCapture => r == flags,
            ClipboardSource::Unavailable => r == flags,
        },
{
    match source {
        ClipboardSource::PreRendered => ClipboardFlags { has_pre_rendered: false, ..flags },
        ClipboardSource::CompletePending => ClipboardFlags { has_pending: false, has_last: readback_ok, ..flags },
        ClipboardSource::LastCapture => flags,
        ClipboardSource::Unavailable => flags,
    }
}

} // verus!
