//! State and message handling of the settings and history UI: page
//! routing, the settings page and its hotkey recorder. Rendering stays with
//! the caller; every message is turned here into a new state and the one
//! piece of outside work (an IPC request, opening a file) it calls for.

use vstd::prelude::*;
use crate::config::{NsConfig, BehaviorConfig, RetentionConfig, same_combo, same_but_hotkeys, same_config};
use crate::hotkey::HotkeyCombination;
use crate::history::{HistoryEntry, HistoryMessage, HistoryPage};
use crate::text::{str_eq, starts_with};

verus! {

/// The pages of the settings UI.
#[derive(Debug, Clone, Copy, PartialEq, Eq, Structural)]
pub enum Page {
    Settings,
    History,
    About,
}

/// The page that a `--page=` argument names; anything else is Settings.
pub open spec fn spec_page_from_arg(arg: Seq<char>) -> Page {
    if arg == "history"@ { Page::History } else if arg == "about"@ { Page::About } else { Page::Settings }
}

/// The page that a `--page=` value names.
pub fn page_from_arg(arg: &str) -> (r: Page)
    ensures
        r == spec_page_from_arg(arg@),
{
    if str_eq(arg, "history") {
        Page::History
    } else if str_eq(arg, "about") {
        Page::About
    } else {
        Page::Settings
    }
}


/// The value of the first argument that starts with `--page=`, looking from
/// argument `i` on.
pub open spec fn first_page_arg(args: Seq<Seq<char>>, i: int) -> Option<Seq<char>>
    decreases args.len() - i,
{
    if i < 0 || i >= args.len() {
        None
    } else if "--page="@.len() <= args[i].len() && args[i].subrange(0, 7) == "--page="@ {
        Some(args[i].subrange(7, args[i].len() as int))
    } else {
        first_page_arg(args, i + 1)
    }
}

/// The page that the command line asks for: named by its first `--page=`
/// argument, Settings when there is none.
pub open spec fn spec_page_from_args(args: Seq<Seq<char>>) -> Page {
    match first_page_arg(args, 0) {
        Some(v) => spec_page_from_arg(v),
        None => Page::Settings,
    }
}

/// The page that the command line asks for.
pub fn page_from_args(args: &Vec<String>) -> (r: Page)
    ensures
        r == spec_page_from_args(args@.map_values(|s: String| s@)),
{
    let ghost av = args@.map_values(|s: String| s@);
    proof {
        reveal_strlit("--page=");
    }
    let mut i: usize = 0;
    while i < args.len()
        invariant
            av == args@.map_values(|s: String| s@),
            av.len() == args@.len(),
            i <= args@.len(),
            first_page_arg(av, 0) == first_page_arg(av, i as int),
        decreases args.len() - i,
    {
        let a = args[i].as_str();
        assert(a@ == av[i as int]);
        proof {
            reveal_strlit("--page=");
        }
        if starts_with(a, "--page=") {
            let n = a.unicode_len();
            let value = a.substring_char(7, n);
            return page_from_arg(value);
        }
        i = i + 1;
    }
    Page::Settings
}

/// Which hotkey the settings page is recording.
#[derive(Debug, Clone, Copy, PartialEq, Eq, Structural)]
pub enum HotkeyAction {
    Region,
    Fullscreen,
}

/// Messages of the hotkey recorder widget.
#[derive(Debug)]
pub enum HotkeyInputMessage {
    StartListening,
    StopListening,
    KeyCaptured(HotkeyCombination),
}

/// A button that shows a binding and records a new one when clicked.
#[derive(Debug)]
pub struct HotkeyInput {
    pub label: String,
    pub current: HotkeyCombination,
    pub listening: bool,
}

impl HotkeyInput {
    /// A recorder showing `current`, not listening.
    pub fn new(label: String, current: HotkeyCombination) -> (r: Self)
        ensures
            r.label@ == label@,
            r.current.modifiers@ == current.modifiers@,
            r.current.key == current.key,
            !r.listening,
    {
        HotkeyInput { label, current, listening: false }
    }

    /// Start or stop listening, or take the captured combination.
    pub fn update(&mut self, msg: HotkeyInputMessage)
        ensures
            final(self).label@ == old(self).label@,
            match msg {
                HotkeyInputMessage::StartListening => final(self).listening
                    && final(self).current.modifiers@ == old(self).current.modifiers@ && final(self).current.key == old(self).current.key,
                HotkeyInputMessage::StopListening => !final(self).listening
                    && final(self).current.modifiers@ == old(self).current.modifiers@ && final(self).current.key == old(self).current.key,
                HotkeyInputMessage::KeyCaptured(c) => !final(self).listening
                    && final(self).current.modifiers@ == c.modifiers@ && final(self).current.key == c.key,
            },
    {
        match msg {
            HotkeyInputMessage::StartListening => self.listening = true,
            HotkeyInputMessage::StopListening => self.listening = false,
            HotkeyInputMessage::KeyCaptured(combo) => {
                self.current = combo;
                self.listening = false;
            },
        }
    }
}

/// Messages of the settings page.
#[derive(Debug)]
pub enum SettingsMessage {
    AutoCopyTimeoutChanged(u32),
    MaxAgeDaysChanged(u32),
    MaxSizeMbChanged(u32),
    StartOnLoginToggled(bool),
    HotkeyMsg(HotkeyAction, HotkeyInputMessage),
}

/// Two recorders show the same label and binding, in the same mode.
pub open spec fn same_input(a: HotkeyInput, b: HotkeyInput) -> bool {
    a.label@ == b.label@ && same_combo(a.current, b.current) && a.listening == b.listening
}

/// The recorder `after` is `before` once `msg` has reached it.
pub open spec fn input_updated(before: HotkeyInput, msg: HotkeyInputMessage, after: HotkeyInput) -> bool {
    &&& after.label@ == before.label@
    &&& match msg {
        HotkeyInputMessage::StartListening => after.listening && same_combo(after.current, before.current),
        HotkeyInputMessage::StopListening => !after.listening && same_combo(after.current, before.current),
        HotkeyInputMessage::KeyCaptured(c) => !after.listening && same_combo(after.current, c),
    }
}

/// The page shows these four values, and both recorders as in `before`.
pub open spec fn page_values(after: SettingsState, before: SettingsState, auto_copy: u32, age: u32, size: u64, login: bool) -> bool {
    &&& after.auto_copy_timeout == auto_copy
    &&& after.max_age_days == age
    &&& after.max_size_mb == size
    &&& after.start_on_login == login
    &&& same_input(after.hk_region, before.hk_region)
    &&& same_input(after.hk_fullscreen, before.hk_fullscreen)
}

/// The configuration holds these four values, and the hotkeys of `before`.
pub open spec fn config_values(after: NsConfig, before: NsConfig, auto_copy: u32, login: bool, age: u32, size: u64) -> bool {
    &&& after.behavior == (BehaviorConfig { auto_copy_timeout_secs: auto_copy, start_on_login: login })
    &&& after.retention == (RetentionConfig { max_age_days: age, max_size_mb: size })
    &&& same_combo(after.hotkeys.region, before.hotkeys.region)
    &&& same_combo(after.hotkeys.fullscreen, before.hotkeys.fullscreen)
}

/// What a settings message does to the page (`s0` to `s1`) and to the
/// configuration (`c0` to `c1`), and whether the configuration is to be
/// saved: a value message sets that one value on both, a recorder message
/// reaches that recorder alone, and a captured binding becomes that hotkey
/// of the configuration. Nothing else changes.
pub open spec fn settings_updated(s0: SettingsState, c0: NsConfig, msg: SettingsMessage, s1: SettingsState, c1: NsConfig, changed: bool) -> bool {
    let b = c0.behavior;
    let t = c0.retention;
    match msg {
        SettingsMessage::AutoCopyTimeoutChanged(v) => changed
            && page_values(s1, s0, v, s0.max_age_days, s0.max_size_mb, s0.start_on_login)
            && config_values(c1, c0, v, b.start_on_login, t.max_age_days, t.max_size_mb),
        SettingsMessage::MaxAgeDaysChanged(v) => changed
            && page_values(s1, s0, s0.auto_copy_timeout, v, s0.max_size_mb, s0.start_on_login)
            && config_values(c1, c0, b.auto_copy_timeout_secs, b.start_on_login, v, t.max_size_mb),
        SettingsMessage::MaxSizeMbChanged(v) => changed
            && page_values(s1, s0, s0.auto_copy_timeout, s0.max_age_days, v as u64, s0.start_on_login)
            && config_values(c1, c0, b.auto_copy_timeout_secs, b.start_on_login, t.max_age_days, v as u64),
        SettingsMessage::StartOnLoginToggled(v) => changed
            && page_values(s1, s0, s0.auto_copy_timeout, s0.max_age_days, s0.max_size_mb, v)
            && config_values(c1, c0, b.auto_copy_timeout_secs, v, t.max_age_days, t.max_size_mb),
        SettingsMessage::HotkeyMsg(action, inner) => {
            &&& changed == (inner is KeyCaptured)
            &&& s1.auto_copy_timeout == s0.auto_copy_timeout
            &&& s1.max_age_days == s0.max_age_days
            &&& s1.max_size_mb == s0.max_size_mb
            &&& s1.start_on_login == s0.start_on_login
            &&& same_but_hotkeys(c1, c0)
            &&& match action {
                HotkeyAction::Region => {
                    &&& input_updated(s0.hk_region, inner, s1.hk_region)
                    &&& same_input(s1.hk_fullscreen, s0.hk_fullscreen)
                    &&& same_combo(c1.hotkeys.fullscreen, c0.hotkeys.fullscreen)
                    &&& match inner {
                        HotkeyInputMessage::KeyCaptured(c) => same_combo(c1.hotkeys.region, c),
                        _ => same_combo(c1.hotkeys.region, c0.hotkeys.region),
                    }
                },
                HotkeyAction::Fullscreen => {
                    &&& input_updated(s0.hk_fullscreen, inner, s1.hk_fullscreen)
                    &&& same_input(s1.hk_region, s0.hk_region)
                    &&& same_combo(c1.hotkeys.region, c0.hotkeys.region)
                    &&& match inner {
                        HotkeyInputMessage::KeyCaptured(c) => same_combo(c1.hotkeys.fullscreen, c),
                        _ => same_combo(c1.hotkeys.fullscreen, c0.hotkeys.fullscreen),
                    }
                },
            }
        },
    }
}

/// State of the settings page.
#[derive(Debug)]
pub struct SettingsState {
    pub auto_copy_timeout: u32,
    pub max_age_days: u32,
    pub max_size_mb: u64,
    pub start_on_login: bool,
    pub hk_region: HotkeyInput,
    pub hk_fullscreen: HotkeyInput,
}

impl SettingsState {
    /// The page showing `config`.
    pub fn new(config: NsConfig) -> (r: Self)
        ensures
            r.auto_copy_timeout == config.behavior.auto_copy_timeout_secs,
            r.max_age_days == config.retention.max_age_days,
            r.max_size_mb == config.retention.max_size_mb,
            r.start_on_login == config.behavior.start_on_login,
            r.hk_region.label@ == "Region capture"@,
            same_combo(r.hk_region.current, config.hotkeys.region),
            !r.hk_region.listening,
            r.hk_fullscreen.label@ == "Fullscreen capture"@,
            same_combo(r.hk_fullscreen.current, config.hotkeys.fullscreen),
            !r.hk_fullscreen.listening,
    {
        SettingsState {
            auto_copy_timeout: config.behavior.auto_copy_timeout_secs,
            max_age_days: config.retention.max_age_days,
            max_size_mb: config.retention.max_size_mb,
            start_on_login: config.behavior.start_on_login,
            hk_region: HotkeyInput::new(String::from_str("Region capture"), config.hotkeys.region.duplicate()),
            hk_fullscreen: HotkeyInput::new(String::from_str("Fullscreen capture"), config.hotkeys.fullscreen.duplicate()),
        }
    }

    /// Update state from a message. Returns `true` if the config was modified
    /// and should be persisted to the daemon.
    pub fn update(&mut self, msg: SettingsMessage, config: &mut NsConfig) -> (changed: bool)
        ensures
            settings_updated(*old(self), *old(config), msg, *final(self), *final(config), changed),
    {
        match msg {
            SettingsMessage::AutoCopyTimeoutChanged(v) => {
                self.auto_copy_timeout = v;
                config.behavior.auto_copy_timeout_secs = v;
                true
            },
            SettingsMessage::MaxAgeDaysChanged(v) => {
                self.max_age_days = v;
                config.retention.max_age_days = v;
                true
            },
            SettingsMessage::MaxSizeMbChanged(v) => {
                self.max_size_mb = v as u64;
                config.retention.max_size_mb = v as u64;
                true
            },
            SettingsMessage::StartOnLoginToggled(v) => {
                self.start_on_login = v;
                config.behavior.start_on_login = v;
                true
            },
            SettingsMessage::HotkeyMsg(action, inner) => {
                let was_capture = match &inner {
                    HotkeyInputMessage::KeyCaptured(_) => true,
                    _ => false,
                };
                match action {
                    HotkeyAction::Region => {
                        self.hk_region.update(inner);
                        if was_capture {
                            config.hotkeys.region = self.hk_region.current.duplicate();
                        }
                    },
                    HotkeyAction::Fullscreen => {
                        self.hk_fullscreen.update(inner);
                        if was_capture {
                            config.hotkeys.fullscreen = self.hk_fullscreen.current.duplicate();
                        }
                    },
                }
                was_capture
            },
        }
    }

    /// Which hotkey action is listening, the region one first.
    pub open spec fn spec_listening(&self) -> Option<HotkeyAction> {
        if self.hk_region.listening {
            Some(HotkeyAction::Region)
        } else if self.hk_fullscreen.listening {
            Some(HotkeyAction::Fullscreen)
        } else {
            None
        }
    }

    /// Returns which hotkey action is currently listening, if any.
    pub fn listening_action(&self) -> (r: Option<HotkeyAction>)
        ensures
            r == self.spec_listening(),
    {
        if self.hk_region.listening {
            Some(HotkeyAction::Region)
        } else if self.hk_fullscreen.listening {
            Some(HotkeyAction::Fullscreen)
        } else {
            None
        }
    }
}

/// Messages of the about page.
#[derive(Debug, Clone, Copy, PartialEq, Eq, Structural)]
pub enum AboutMessage {
    OpenBitcoinCom,
}

/// The sponsor's site, opened from the about page and the sidebar logo.
pub const SPONSOR_URL: &'static str = "https://www.bitcoin.com";

/// Messages of the UI application.
#[derive(Debug)]
pub enum AppMessage {
    NavigateTo(Page),
    Settings(SettingsMessage),
    History(HistoryMessage),
    About(AboutMessage),
    ConfigLoaded(NsConfig),
    ConfigSaved,
    HistoryLoaded(Vec<HistoryEntry>, u32, Vec<Option<Vec<u8>>>),
    EntryDeleted(u128),
    IpcError(String),
    HotkeyCaptured(HotkeyCombination),
    OpenSponsorLink,
    RefreshHistory,
}

/// The outside work that a message calls for.
#[derive(Debug)]
pub enum AppTask {
    Nothing,
    /// Send the configuration to the daemon.
    SaveConfig(NsConfig),
    /// Ask the daemon for a page of history.
    LoadHistory { offset: u32, limit: u32, search: Option<String> },
    /// Ask the daemon to delete an entry.
    DeleteEntry(u128),
    /// Open a capture (path relative to the captures directory) in the
    /// default viewer, if the file exists.
    OpenCapture(String),
    /// Open the sponsor's site in the browser.
    OpenSponsor,
    /// Record that the daemon stored the configuration.
    LogConfigSaved,
    /// Record an IPC failure.
    LogError(String),
}

/// The UI application.
#[derive(Debug)]
pub struct NsApp {
    pub page: Page,
    pub config: NsConfig,
    pub settings_state: SettingsState,
    pub history_state: HistoryPage,
}

/// Two settings pages show the same values and recorders.
pub open spec fn same_settings(a: SettingsState, b: SettingsState) -> bool {
    &&& a.auto_copy_timeout == b.auto_copy_timeout
    &&& a.max_age_days == b.max_age_days
    &&& a.max_size_mb == b.max_size_mb
    &&& a.start_on_login == b.start_on_login
    &&& same_input(a.hk_region, b.hk_region)
    &&& same_input(a.hk_fullscreen, b.hk_fullscreen)
}

/// Two history pages show the same page of the same query.
pub open spec fn same_history_page(a: HistoryPage, b: HistoryPage) -> bool {
    &&& a.entries@ == b.entries@
    &&& a.thumbnails@ == b.thumbnails@
    &&& a.total == b.total
    &&& a.current_page == b.current_page
    &&& a.search_query@ == b.search_query@
    &&& a.page_size == b.page_size
}

/// The application is as it was: same page, configuration, settings page
/// and history page.
pub open spec fn app_unchanged(a: NsApp, b: NsApp) -> bool {
    &&& a.page == b.page
    &&& same_config(a.config, b.config)
    &&& same_settings(a.settings_state, b.settings_state)
    &&& same_history_page(a.history_state, b.history_state)
}

/// Whether a task is the history request for the page's current query.
pub open spec fn is_history_request(t: AppTask, h: HistoryPage) -> bool {
    t matches AppTask::LoadHistory { offset, limit, search }
        && offset == h.current_page * h.page_size
        && limit == h.page_size
        && (match search {
            Some(q) => h.search_query@.len() > 0 && q@ == h.search_query@,
            None => h.search_query@.len() == 0,
        })
}

/// The title of the window on a page.
pub open spec fn spec_title(page: Page) -> Seq<char> {
    match page {
        Page::Settings => "Nano Snipper - Settings"@,
        Page::History => "Nano Snipper - History"@,
        Page::About => "Nano Snipper - About"@,
    }
}

/// The requests of the offset and page size of a history page fit `u32`.
pub open spec fn paging_fits(h: HistoryPage) -> bool {
    h.current_page * h.page_size <= u32::MAX
}

impl NsApp {
    /// The application on its first page, with the configuration read from
    /// disk. The caller then asks the daemon for its configuration, shows
    /// the window, and runs the returned task.
    pub fn new(config: NsConfig, initial_page: Page) -> (r: (Self, AppTask))
        ensures
            r.0.page == initial_page,
            same_config(r.0.config, config),
            r.0.history_state.current_page == 0,
            r.0.history_state.page_size == crate::history::PAGE_SIZE,
            r.0.history_state.search_query@.len() == 0,
            r.0.history_state.entries@.len() == 0,
            initial_page == Page::History ==> (r.1 matches AppTask::LoadHistory { offset, limit, search }
                && offset == 0 && limit == 20 && search is None),
            initial_page != Page::History ==> r.1 is Nothing,
    {
        let settings_state = SettingsState::new(config.duplicate());
        let app = NsApp {
            page: initial_page,
            config,
            settings_state,
            history_state: HistoryPage::new(),
        };
        let task = if initial_page == Page::History {
            AppTask::LoadHistory { offset: 0, limit: 20, search: None }
        } else {
            AppTask::Nothing
        };
        (app, task)
    }

    /// The window title, which names the page.
    pub fn title(&self) -> (r: String)
        ensures
            r@ == spec_title(self.page),
    {
        match self.page {
            Page::Settings => String::from_str("Nano Snipper - Settings"),
            Page::History => String::from_str("Nano Snipper - History"),
            Page::About => String::from_str("Nano Snipper - About"),
        }
    }

    /// Whether the UI should listen for a key combination (a hotkey is
    /// being recorded).
    pub fn wants_key_capture(&self) -> (r: bool)
        ensures
            r == (self.settings_state.hk_region.listening || self.settings_state.hk_fullscreen.listening),
    {
        self.settings_state.listening_action().is_some()
    }

    /// Whether the history page should refresh itself periodically.
    pub fn wants_history_refresh(&self) -> (r: bool)
        ensures
            r == (self.page == Page::History),
    {
        self.page == Page::History
    }

    fn load_history(&self) -> (r: AppTask)
        requires
            paging_fits(self.history_state),
        ensures
            is_history_request(r, self.history_state),
    {
        let offset = self.history_state.offset();
        let limit = self.history_state.page_size();
        let search = self.history_state.search_query();
        AppTask::LoadHistory { offset, limit, search }
    }

    /// Handle one message.
    pub fn update(&mut self, message: AppMessage) -> (r: AppTask)
        requires
            paging_fits(old(self).history_state),
            message matches AppMessage::History(HistoryMessage::LoadPage(p)) ==> p * old(self).history_state.page_size <= u32::MAX,
        ensures
            paging_fits(final(self).history_state),
            match message {
                AppMessage::NavigateTo(p) => final(self).page == p
                    && same_config(final(self).config, old(self).config)
                    && same_settings(final(self).settings_state, old(self).settings_state)
                    && same_history_page(final(self).history_state, old(self).history_state)
                    && (p == Page::History ==> is_history_request(r, final(self).history_state))
                    && (p != Page::History ==> r is Nothing),
                AppMessage::Settings(m) => final(self).page == old(self).page
                    && final(self).history_state == old(self).history_state
                    && settings_updated(old(self).settings_state, old(self).config, m,
                        final(self).settings_state, final(self).config, r is SaveConfig)
                    && (r matches AppTask::SaveConfig(c) ==> same_config(c, final(self).config))
                    && (r is SaveConfig || r is Nothing),
                AppMessage::History(HistoryMessage::SearchChanged(q)) => final(self).page == old(self).page
                    && same_config(final(self).config, old(self).config)
                    && same_settings(final(self).settings_state, old(self).settings_state)
                    && final(self).history_state.entries@ == old(self).history_state.entries@
                    && final(self).history_state.thumbnails@ == old(self).history_state.thumbnails@
                    && final(self).history_state.total == old(self).history_state.total
                    && final(self).history_state.page_size == old(self).history_state.page_size
                    && final(self).history_state.search_query@ == q@
                    && final(self).history_state.current_page == 0
                    && is_history_request(r, final(self).history_state),
                AppMessage::History(HistoryMessage::LoadPage(p)) => final(self).page == old(self).page
                    && same_config(final(self).config, old(self).config)
                    && same_settings(final(self).settings_state, old(self).settings_state)
                    && final(self).history_state.entries@ == old(self).history_state.entries@
                    && final(self).history_state.thumbnails@ == old(self).history_state.thumbnails@
                    && final(self).history_state.total == old(self).history_state.total
                    && final(self).history_state.page_size == old(self).history_state.page_size
                    && final(self).history_state.search_query@ == old(self).history_state.search_query@
                    && final(self).history_state.current_page == p
                    && is_history_request(r, final(self).history_state),
                AppMessage::History(HistoryMessage::DeleteEntry(id)) => app_unchanged(*final(self), *old(self))
                    && (r matches AppTask::DeleteEntry(d) && d == id),
                AppMessage::History(HistoryMessage::OpenEntry(id)) => app_unchanged(*final(self), *old(self))
                    && match old(self).history_state.find_spec(id) {
                        Some(path) => r matches AppTask::OpenCapture(p) && p@ == path,
                        None => r is Nothing,
                    },
                AppMessage::History(_) => app_unchanged(*final(self), *old(self)) && r is Nothing,
                AppMessage::About(_) => app_unchanged(*final(self), *old(self)) && r is OpenSponsor,
                AppMessage::OpenSponsorLink => app_unchanged(*final(self), *old(self)) && r is OpenSponsor,
                AppMessage::ConfigLoaded(c) => final(self).page == old(self).page
                    && same_history_page(final(self).history_state, old(self).history_state)
                    && same_config(final(self).config, c)
                    && final(self).settings_state.max_age_days == c.retention.max_age_days
                    && final(self).settings_state.max_size_mb == c.retention.max_size_mb
                    && final(self).settings_state.start_on_login == c.behavior.start_on_login
                    && !final(self).settings_state.hk_region.listening
                    && !final(self).settings_state.hk_fullscreen.listening
                    && same_combo(final(self).settings_state.hk_region.current, c.hotkeys.region)
                    && same_combo(final(self).settings_state.hk_fullscreen.current, c.hotkeys.fullscreen)
                    && final(self).settings_state.auto_copy_timeout == c.behavior.auto_copy_timeout_secs
                    && r is Nothing,
                AppMessage::ConfigSaved => app_unchanged(*final(self), *old(self)) && r is LogConfigSaved,
                AppMessage::HistoryLoaded(entries, total, thumbs) => final(self).page == old(self).page
                    && same_config(final(self).config, old(self).config)
                    && same_settings(final(self).settings_state, old(self).settings_state)
                    && final(self).history_state.current_page == old(self).history_state.current_page
                    && final(self).history_state.search_query@ == old(self).history_state.search_query@
                    && final(self).history_state.page_size == old(self).history_state.page_size
                    && final(self).history_state.entries@ == entries@
                    && final(self).history_state.total == total
                    && final(self).history_state.thumbnails@ == thumbs@
                    && r is Nothing,
                AppMessage::EntryDeleted(_) => app_unchanged(*final(self), *old(self)) && is_history_request(r, final(self).history_state),
                AppMessage::RefreshHistory => app_unchanged(*final(self), *old(self)) && is_history_request(r, final(self).history_state),
                AppMessage::IpcError(e) => app_unchanged(*final(self), *old(self)) && (r matches AppTask::LogError(m) && m@ == e@),
                AppMessage::HotkeyCaptured(c) => final(self).page == old(self).page
                    && same_history_page(final(self).history_state, old(self).history_state)
                    && match old(self).settings_state.spec_listening() {
                    Some(HotkeyAction::Region) => same_combo(final(self).config.hotkeys.region, c)
                        && (r matches AppTask::SaveConfig(s) && same_config(s, final(self).config)),
                    Some(HotkeyAction::Fullscreen) => same_combo(final(self).config.hotkeys.fullscreen, c)
                        && (r matches AppTask::SaveConfig(s) && same_config(s, final(self).config)),
                    None => r is Nothing && same_config(final(self).config, old(self).config),
                },
            },
    {
        match message {
            AppMessage::NavigateTo(page) => {
                self.page = page;
                if page == Page::History {
                    self.load_history()
                } else {
                    AppTask::Nothing
                }
            },
            AppMessage::Settings(msg) => {
                let changed = self.settings_state.update(msg, &mut self.config);
                if changed {
                    AppTask::SaveConfig(self.config.duplicate())
                } else {
                    AppTask::Nothing
                }
            },
            AppMessage::History(msg) => {
                match msg {
                    HistoryMessage::SearchChanged(q) => {
                        self.history_state.update(HistoryMessage::SearchChanged(q));
                        assert(self.history_state.current_page * self.history_state.page_size == 0);
                        self.load_history()
                    },
                    HistoryMessage::LoadPage(p) => {
                        self.history_state.update(HistoryMessage::LoadPage(p));
                        self.load_history()
                    },
                    HistoryMessage::DeleteEntry(id) => {
                        self.history_state.update(HistoryMessage::DeleteEntry(id));
                        AppTask::DeleteEntry(id)
                    },
                    HistoryMessage::OpenEntry(id) => {
                        match self.history_state.find_entry(id) {
                            Some(entry) => AppTask::OpenCapture(entry.file_path.clone()),
                            None => AppTask::Nothing,
                        }
                    },
                    HistoryMessage::DeleteAll => AppTask::Nothing,
                    HistoryMessage::OpenFolder => AppTask::Nothing,
                }
            },
            AppMessage::ConfigLoaded(config) => {
                self.settings_state = SettingsState::new(config.duplicate());
                self.config = config;
                AppTask::Nothing
            },
            AppMessage::ConfigSaved => AppTask::LogConfigSaved,
            AppMessage::HistoryLoaded(entries, total, thumbnails) => {
                self.history_state.set_entries(entries, total, thumbnails);
                AppTask::Nothing
            },
            AppMessage::EntryDeleted(_) => self.load_history(),
            AppMessage::HotkeyCaptured(combo) => {
                match self.settings_state.listening_action() {
                    Some(action) => {
                        let changed = self.settings_state.update(
                            SettingsMessage::HotkeyMsg(action, HotkeyInputMessage::KeyCaptured(combo)),
                            &mut self.config,
                        );
                        if changed {
                            AppTask::SaveConfig(self.config.duplicate())
                        } else {
                            AppTask::Nothing
                        }
                    },
                    None => AppTask::Nothing,
                }
            },
            AppMessage::RefreshHistory => self.load_history(),
            AppMessage::About(_) => AppTask::OpenSponsor,
            AppMessage::OpenSponsorLink => AppTask::OpenSponsor,
            AppMessage::IpcError(err) => AppTask::LogError(err),
        }
    }
}

} // verus!
