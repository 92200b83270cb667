//! Capture history: the entry recorded for each capture, and the paging,
//! search and labels of the history page.

use vstd::prelude::*;
use crate::geometry::{CaptureMode, Rect};
use crate::text::{push_decimal, decimal};

verus! {

/// A single history entry representing a completed capture.
#[derive(Debug)]
pub struct HistoryEntry {
    /// Time-sortable UUIDv7, as its 128-bit value.
    pub id: u128,
    /// When the capture was taken (Unix timestamp millis).
    pub timestamp_ms: i64,
    /// Capture mode used.
    pub mode: CaptureMode,
    /// Screen region captured (physical pixels).
    pub region: Rect,
    /// Relative path to the PNG file (from captures dir).
    pub file_path: String,
    /// File size in bytes.
    pub file_size: u64,
    /// Image dimensions.
    pub width: u32,
    pub height: u32,
    /// OCR text, if extracted.
    pub ocr_text: Option<String>,
    /// Whether the entry has annotation.
    pub annotated: bool,
}

impl HistoryEntry {
    /// A new entry for a capture taken at `timestamp_ms`, identified by `id`
    /// (the caller draws a fresh time-ordered id and reads the clock).
    pub fn new(id: u128, timestamp_ms: i64, mode: CaptureMode, region: Rect, file_path: String, file_size: u64, width: u32, height: u32) -> (r: Self)
        ensures
            r.id == id,
            r.timestamp_ms == timestamp_ms,
            r.mode == mode,
            r.region == region,
            r.file_path@ == file_path@,
            r.file_size == file_size,
            r.width == width,
            r.height == height,
            r.ocr_text.is_none(),
            !r.annotated,
    {
        HistoryEntry { id, timestamp_ms, mode, region, file_path, file_size, width, height, ocr_text: None, annotated: false }
    }
}

/// Name of a capture mode as the history shows and stores it.
pub open spec fn mode_name(m: CaptureMode) -> Seq<char> {
    match m {
        CaptureMode::Region => "Region"@,
        CaptureMode::Window => "Window"@,
        CaptureMode::Fullscreen => "Fullscreen"@,
    }
}

/// The name of a capture mode.
pub fn mode_str(m: CaptureMode) -> (r: &'static str)
    ensures
        r@ == mode_name(m),
{
    match m {
        CaptureMode::Region => "Region",
        CaptureMode::Window => "Window",
        CaptureMode::Fullscreen => "Fullscreen",
    }
}

/// The details line of an entry: `WIDTHxHEIGHT  MODE`.
pub fn entry_details(entry: &HistoryEntry) -> (r: String)
    ensures
        r@ == decimal(entry.width as nat) + "x"@ + decimal(entry.height as nat) + "  "@ + mode_name(entry.mode),
{
    let mut s = String::new();
    push_decimal(&mut s, entry.width as u64);
    s.append("x");
    push_decimal(&mut s, entry.height as u64);
    s.append("  ");
    s.append(mode_str(entry.mode));
    assert(s@ =~= decimal(entry.width as nat) + "x"@ + decimal(entry.height as nat) + "  "@ + mode_name(entry.mode));
    s
}

/// Messages of the history page.
#[derive(Debug)]
pub enum HistoryMessage {
    SearchChanged(String),
    LoadPage(u32),
    DeleteEntry(u128),
    OpenEntry(u128),
    DeleteAll,
    OpenFolder,
}

/// State of the history page: the page of entries on show and the query
/// that produced it.
#[derive(Debug)]
pub struct HistoryPage {
    pub entries: Vec<HistoryEntry>,
    pub thumbnails: Vec<Option<Vec<u8>>>,
    pub total: u32,
    pub current_page: u32,
    pub search_query: String,
    pub page_size: u32,
}

/// Entries shown per page.
pub const PAGE_SIZE: u32 = 20;

/// Number of pages that `total` entries fill, `page_size` to a page.
pub open spec fn spec_total_pages(total: int, page_size: int) -> int {
    (total + page_size - 1) / page_size
}

impl HistoryPage {
    /// The first page, empty, before any query.
    pub fn new() -> (r: Self)
        ensures
            r.entries@.len() == 0,
            r.thumbnails@.len() == 0,
            r.total == 0,
            r.current_page == 0,
            r.search_query@ == Seq::<char>::empty(),
            r.page_size == PAGE_SIZE,
    {
        HistoryPage {
            entries: Vec::new(),
            thumbnails: Vec::new(),
            total: 0,
            current_page: 0,
            search_query: String::new(),
            page_size: PAGE_SIZE,
        }
    }

    /// Show a page of entries that a query returned.
    pub fn set_entries(&mut self, entries: Vec<HistoryEntry>, total: u32, thumbnails: Vec<Option<Vec<u8>>>)
        ensures
            final(self).entries@ == entries@,
            final(self).thumbnails@ == thumbnails@,
            final(self).total == total,
            final(self).current_page == old(self).current_page,
            final(self).search_query@ == old(self).search_query@,
            final(self).page_size == old(self).page_size,
    {
        self.entries = entries;
        self.thumbnails = thumbnails;
        self.total = total;
    }

    /// The file of the first shown entry with this id.
    pub open spec fn find_spec(self, id: u128) -> Option<Seq<char>> {
        if exists|i: int| 0 <= i < self.entries@.len() && self.entries@[i].id == id {
            let i = choose|i: int| 0 <= i < self.entries@.len() && self.entries@[i].id == id
                && forall|j: int| 0 <= j < i ==> self.entries@[j].id != id;
            Some(self.entries@[i].file_path@)
        } else {
            None
        }
    }

    /// The shown entry with this id, if any (the first one).
    pub fn find_entry(&self, id: u128) -> (r: Option<&HistoryEntry>)
        ensures
            r matches Some(e) ==> exists|i: int| 0 <= i < self.entries@.len() && self.entries@[i] == *e && e.id == id
                && forall|j: int| 0 <= j < i ==> self.entries@[j].id != id,
            r is None ==> forall|j: int| 0 <= j < self.entries@.len() ==> self.entries@[j].id != id,
    {
        let mut i: usize = 0;
        while i < self.entries.len()
            invariant
                i <= self.entries@.len(),
                forall|j: int| 0 <= j < i ==> self.entries@[j].id != id,
            decreases self.entries@.len() - i,
        {
            if self.entries[i].id == id {
                return Some(&self.entries[i]);
            }
            i = i + 1;
        }
        None
    }

    /// Index of the first entry to fetch.
    pub fn offset(&self) -> (r: u32)
        requires
            self.current_page * self.page_size <= u32::MAX,
        ensures
            r == self.current_page * self.page_size,
    {
        self.current_page * self.page_size
    }

    /// Entries per page.
    pub fn page_size(&self) -> (r: u32)
        ensures
            r == self.page_size,
    {
        self.page_size
    }

    /// Whether there is nothing to show at all.
    pub fn is_empty(&self) -> (r: bool)
        ensures
            r == (self.entries@.len() == 0 && self.total == 0),
    {
        self.entries.len() == 0 && self.total == 0
    }

    /// The search to send with a query: none when the search box is empty.
    pub fn search_query(&self) -> (r: Option<String>)
        ensures
            self.search_query@.len() == 0 ==> r is None,
            self.search_query@.len() > 0 ==> (r matches Some(q) && q@ == self.search_query@),
    {
        if self.search_query.as_str().is_empty() {
            None
        } else {
            Some(self.search_query.clone())
        }
    }

    /// Apply a page message. A new search starts again from the first page.
    pub fn update(&mut self, msg: HistoryMessage)
        ensures
            final(self).entries@ == old(self).entries@,
            final(self).thumbnails@ == old(self).thumbnails@,
            final(self).total == old(self).total,
            final(self).page_size == old(self).page_size,
            match msg {
                HistoryMessage::SearchChanged(q) => final(self).search_query@ == q@ && final(self).current_page == 0,
                HistoryMessage::LoadPage(p) => final(self).current_page == p && final(self).search_query@ == old(self).search_query@,
                _ => final(self).current_page == old(self).current_page && final(self).search_query@ == old(self).search_query@,
            },
    {
        match msg {
            HistoryMessage::SearchChanged(query) => {
                self.search_query = query;
                self.current_page = 0;
            },
            HistoryMessage::LoadPage(page) => {
                self.current_page = page;
            },
            HistoryMessage::DeleteEntry(_) => {},
            HistoryMessage::OpenEntry(_) => {},
            HistoryMessage::DeleteAll => {},
            HistoryMessage::OpenFolder => {},
        }
    }

    /// Number of pages of results.
    pub fn total_pages(&self) -> (r: u32)
        requires
            self.page_size > 0,
            self.total + self.page_size <= u32::MAX,
        ensures
            r == spec_total_pages(self.total as int, self.page_size as int),
    {
        (self.total + self.page_size - 1) / self.page_size
    }

    /// Whether the page has a "previous" button.
    pub fn has_prev(&self) -> (r: bool)
        ensures
            r == (self.current_page > 0),
    {
        self.current_page > 0
    }

    /// Whether the page has a "next" button.
    pub fn has_next(&self) -> (r: bool)
        requires
            self.page_size > 0,
            self.total + self.page_size <= u32::MAX,
            self.current_page + 1 <= u32::MAX,
        ensures
            r == (self.current_page + 1 < spec_total_pages(self.total as int, self.page_size as int)),
    {
        self.current_page + 1 < self.total_pages()
    }

    /// The page that the "Prev" button asks for, when it is shown.
    pub fn prev_page(&self) -> (r: Option<u32>)
        ensures
            r == if self.current_page > 0 { Some((self.current_page - 1) as u32) } else { None::<u32> },
    {
        if self.current_page > 0 { Some(self.current_page - 1) } else { None }
    }

    /// The page that the "Next" button asks for, when it is shown.
    pub fn next_page(&self) -> (r: Option<u32>)
        requires
            self.page_size > 0,
            self.total + self.page_size <= u32::MAX,
            self.current_page + 1 <= u32::MAX,
        ensures
            r == if self.current_page + 1 < spec_total_pages(self.total as int, self.page_size as int) {
                Some((self.current_page + 1) as u32)
            } else {
                None::<u32>
            },
    {
        if self.has_next() { Some(self.current_page + 1) } else { None }
    }

    /// `Page N of M`, with at least one page.
    pub fn page_label(&self) -> (r: String)
        requires
            self.page_size > 0,
            self.total + self.page_size <= u32::MAX,
            self.current_page + 1 <= u32::MAX,
        ensures
            r@ == "Page "@ + decimal((self.current_page + 1) as nat) + " of "@
                + decimal(if spec_total_pages(self.total as int, self.page_size as int) >= 1 { spec_total_pages(self.total as int, self.page_size as int) as nat } else { 1 }),
    {
        let pages = self.total_pages();
        let shown = if pages >= 1 { pages } else { 1 };
        let mut s = String::new();
        s.append("Page ");
        push_decimal(&mut s, (self.current_page + 1) as u64);
        s.append(" of ");
        push_decimal(&mut s, shown as u64);
        s
    }

    /// Whether the toolbar offers "Delete All": only when there are captures.
    pub fn shows_delete_all(&self) -> (r: bool)
        ensures
            r == (self.total > 0),
    {
        self.total > 0
    }

    /// Whether the "No captures yet" placeholder stands in place of the
    /// list: exactly when the page holds no entries.
    pub fn shows_placeholder(&self) -> (r: bool)
        ensures
            r == (self.entries@.len() == 0),
    {
        self.entries.len() == 0
    }

    /// `Showing N of M captures`.
    pub fn status_label(&self) -> (r: String)
        ensures
            r@ == "Showing "@ + decimal(self.entries@.len()) + " of "@ + decimal(self.total as nat) + " captures"@,
    {
        let mut s = String::new();
        s.append("Showing ");
        push_decimal(&mut s, self.entries.len() as u64);
        s.append(" of ");
        push_decimal(&mut s, self.total as u64);
        s.append(" captures");
        s
    }
}

/// Moving to the next page and back returns to the same offset.
pub proof fn lemma_next_prev_page(page: int, page_size: int)
    requires
        page >= 0,
        page_size > 0,
    ensures
        ((page + 1) - 1) * page_size == page * page_size,
        (page + 1) * page_size == page * page_size + page_size,
{
    assert((page + 1) * page_size == page * page_size + page_size) by (nonlinear_arith);
}

} // verus!
