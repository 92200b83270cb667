//! The statements that the history store runs to page through captures,
//! optionally filtered by a search text.

use vstd::prelude::*;

verus! {

/// The filter of a search: the pattern, bound to `?1`, must match the
/// recognised text.
pub open spec fn where_clause(searching: bool) -> Seq<char> {
    if searching { "WHERE ocr_text LIKE ?1"@ } else { ""@ }
}

/// The statement that counts the matching captures.
pub open spec fn count_sql(searching: bool) -> Seq<char> {
    "SELECT COUNT(*) FROM captures "@ + where_clause(searching)
}

/// The statement that reads one page of matching captures, newest first.
/// The page size and offset are the last two parameters: `?1` and `?2`
/// without a search, `?2` and `?3` with one.
pub open spec fn select_sql(searching: bool) -> Seq<char> {
    "SELECT id, timestamp_ms, mode, region_x, region_y, region_w, region_h, file_path, file_size, width, height, ocr_text, annotated FROM captures "@
        + where_clause(searching)
        + " ORDER BY timestamp_ms DESC LIMIT ?"@
        + (if searching { "2 OFFSET ?3"@ } else { "1 OFFSET ?2"@ })
}

/// A page query of the history store.
#[derive(Debug)]
pub struct HistoryQuery {
    /// Counts the captures that match.
    pub count_sql: String,
    /// Reads the page.
    pub select_sql: String,
    /// The `LIKE` pattern bound to `?1`, when searching.
    pub pattern: Option<String>,
}

/// The `LIKE` pattern that finds `q` anywhere in a column.
pub fn like_pattern(q: &str) -> (r: String)
    ensures
        r@ == seq!['%'] + q@ + seq!['%'],
{
    let mut s = String::from_str("%");
    proof {
        reveal_strlit("%");
    }
    s.append(q);
    s.append("%");
    s
}

/// The statements and pattern for a page of history, filtered by `search`
/// when one is given.
pub fn build_history_query(search: Option<&str>) -> (r: HistoryQuery)
    ensures
        r.count_sql@ == count_sql(search is Some),
        r.select_sql@ == select_sql(search is Some),
        match search {
            Some(q) => r.pattern matches Some(p) && p@ == seq!['%'] + q@ + seq!['%'],
            None => r.pattern is None,
        },
{
    let searching = search.is_some();
    let clause = if searching { "WHERE ocr_text LIKE ?1" } else { "" };
    proof {
        reveal_strlit("WHERE ocr_text LIKE ?1");
        reveal_strlit("");
    }
    let mut count = String::from_str("SELECT COUNT(*) FROM captures ");
    count.append(clause);
    let mut select = String::from_str(
        "SELECT id, timestamp_ms, mode, region_x, region_y, region_w, region_h, file_path, file_size, width, height, ocr_text, annotated FROM captures ");
    select.append(clause);
    select.append(" ORDER BY timestamp_ms DESC LIMIT ?");
    if searching {
        select.append("2 OFFSET ?3");
    } else {
        select.append("1 OFFSET ?2");
    }
    let pattern = match search {
        Some(q) => Some(like_pattern(q)),
        None => None,
    };
    HistoryQuery { count_sql: count, select_sql: select, pattern }
}

} // verus!
