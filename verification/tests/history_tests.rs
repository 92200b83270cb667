use nano_snipper::geometry::{CaptureMode, Rect};
use nano_snipper::history::{entry_details, mode_str, HistoryEntry, HistoryMessage, HistoryPage, PAGE_SIZE};
use nano_snipper::retention::{plan_retention, select_over_budget, RetentionPlan, StoredCapture, BYTES_PER_MB, MS_PER_DAY};
use nano_snipper::config::RetentionConfig;
use nano_snipper::store::{build_history_query, like_pattern};
use nano_snipper::timefmt::{capture_subdirectories, format_time, format_timestamp, screenshot_file_name, timestamp_label};

fn entry(id: u128, path: &str) -> HistoryEntry {
    HistoryEntry::new(id, 1_700_000_000_000, CaptureMode::Region, Rect::new(0, 0, 640, 480), path.to_string(), 1234, 640, 480)
}

#[test]
fn new_entry_fields() {
    let e = entry(42, "2024/01/a.png");
    assert_eq!(e.id, 42);
    assert_eq!(e.timestamp_ms, 1_700_000_000_000);
    assert_eq!(e.file_path, "2024/01/a.png");
    assert_eq!(e.ocr_text, None);
    assert!(!e.annotated);
    assert_eq!(entry_details(&e), "640x480  Region");
    assert_eq!(mode_str(CaptureMode::Fullscreen), "Fullscreen");
    assert_eq!(mode_str(CaptureMode::Window), "Window");
}

#[test]
fn paging_and_search() {
    let mut p = HistoryPage::new();
    assert_eq!(p.page_size(), PAGE_SIZE);
    assert!(p.is_empty());
    assert_eq!(p.search_query(), None);
    p.update(HistoryMessage::LoadPage(3));
    assert_eq!(p.offset(), 60);
    assert!(p.has_prev());
    p.update(HistoryMessage::SearchChanged("cat".to_string()));
    assert_eq!(p.current_page, 0);
    assert_eq!(p.offset(), 0);
    assert_eq!(p.search_query(), Some("cat".to_string()));
    assert!(!p.has_prev());
}

#[test]
fn page_counts_and_labels() {
    let mut p = HistoryPage::new();
    p.set_entries(vec![entry(1, "a"), entry(2, "b")], 41, vec![None, Some(vec![1, 2])]);
    assert_eq!(p.total_pages(), 3);
    assert!(p.has_next());
    assert_eq!(p.page_label(), "Page 1 of 3");
    assert_eq!(p.status_label(), "Showing 2 of 41 captures");
    p.update(HistoryMessage::LoadPage(2));
    assert!(!p.has_next());
    let empty = HistoryPage::new();
    assert_eq!(empty.total_pages(), 0);
    assert_eq!(empty.page_label(), "Page 1 of 1");
}

#[test]
fn delete_all_and_placeholder_shown() {
    let mut p = HistoryPage::new();
    assert!(!p.shows_delete_all());
    assert!(p.shows_placeholder());
    p.set_entries(vec![entry(1, "a")], 1, vec![None]);
    assert!(p.shows_delete_all());
    assert!(!p.shows_placeholder());
    p.set_entries(vec![], 30, vec![]);
    assert!(p.shows_delete_all());
    assert!(p.shows_placeholder());
}

#[test]
fn find_entry_returns_first_match() {
    let mut p = HistoryPage::new();
    p.set_entries(vec![entry(5, "first"), entry(5, "second"), entry(6, "other")], 3, vec![None, None, None]);
    assert_eq!(p.find_entry(5).map(|e| e.file_path.clone()), Some("first".to_string()));
    assert!(p.find_entry(7).is_none());
}

#[test]
fn retention_plan() {
    let plan = plan_retention(&RetentionConfig { max_age_days: 7, max_size_mb: 2048 }, 1_000_000_000_000);
    assert_eq!(plan, RetentionPlan { age_cutoff_ms: Some(1_000_000_000_000 - 7 * MS_PER_DAY), max_bytes: Some(2048 * BYTES_PER_MB) });
    let off = plan_retention(&RetentionConfig { max_age_days: 0, max_size_mb: 0 }, 5);
    assert_eq!(off, RetentionPlan { age_cutoff_ms: None, max_bytes: None });
}

fn cap(id: &str, size: i64) -> StoredCapture {
    StoredCapture { id: id.to_string(), file_path: format!("{id}.png"), file_size: size }
}

#[test]
fn size_cleanup_removes_the_oldest_beyond_budget() {
    let rows = vec![cap("newest", 40), cap("mid", 50), cap("old", 20), cap("oldest", 1)];
    let out = select_over_budget(&rows, 100);
    assert_eq!(out, vec![("old".to_string(), "old.png".to_string()), ("oldest".to_string(), "oldest.png".to_string())]);
    assert!(select_over_budget(&rows, 111).is_empty());
    assert_eq!(select_over_budget(&rows, 110).len(), 1);
}

#[test]
fn history_query_statements() {
    let q = build_history_query(None);
    assert_eq!(q.count_sql, "SELECT COUNT(*) FROM captures ");
    assert!(q.select_sql.ends_with("ORDER BY timestamp_ms DESC LIMIT ?1 OFFSET ?2"));
    assert!(q.pattern.is_none());
    let s = build_history_query(Some("shot"));
    assert_eq!(s.count_sql, "SELECT COUNT(*) FROM captures WHERE ocr_text LIKE ?1");
    assert!(s.select_sql.contains("FROM captures WHERE ocr_text LIKE ?1 ORDER"));
    assert!(s.select_sql.ends_with("LIMIT ?2 OFFSET ?3"));
    assert_eq!(s.pattern, Some("%shot%".to_string()));
    assert_eq!(like_pattern(""), "%%");
}

#[test]
fn timestamps() {
    assert_eq!(format_timestamp(0), "1970-01-01 00:00:00");
    assert_eq!(format_timestamp(1_700_000_000_999), "2023-11-14 22:13:20");
    assert_eq!(format_time(1_700_000_000_000), "22:13:20");
    assert_eq!(format_time(-1_500), "23:59:59");
    assert_eq!(format_timestamp(i64::MAX), "Unknown");
    assert_eq!(format_time(i64::MIN), "??:??:??");
    assert_eq!(timestamp_label(None, "Unknown"), "Unknown");
    assert_eq!(timestamp_label(Some("x".to_string()), "Unknown"), "x");
}

#[test]
fn screenshot_names() {
    assert_eq!(screenshot_file_name(1_739_312_400), "screenshot_1739312400.png");
    assert_eq!(screenshot_file_name(0), "screenshot_0.png");
}

#[test]
fn capture_folders_by_year_and_month() {
    assert_eq!(capture_subdirectories(1_700_000_000), Some(("2023".to_string(), "11".to_string())));
    assert_eq!(capture_subdirectories(0), Some(("1970".to_string(), "01".to_string())));
    assert_eq!(capture_subdirectories(i64::MAX), None);
}

#[test]
fn prev_and_next_targets() {
    let mut p = HistoryPage::new();
    p.set_entries(vec![entry(1, "a")], 41, vec![None]);
    assert_eq!(p.prev_page(), None);
    assert_eq!(p.next_page(), Some(1));
    p.update(HistoryMessage::LoadPage(1));
    assert_eq!(p.prev_page(), Some(0));
    assert_eq!(p.next_page(), Some(2));
    p.update(HistoryMessage::LoadPage(2));
    assert_eq!(p.prev_page(), Some(1));
    assert_eq!(p.next_page(), None);
    p.update(HistoryMessage::DeleteEntry(1));
    assert_eq!(p.thumbnails.len(), 1);
}
