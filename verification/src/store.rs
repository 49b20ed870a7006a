//! The SQLite store of installed models and past generations: its schema,
//! its statements and the mapping between records and table rows.
use vstd::prelude::*;

use crate::domain::{HistoryItemDetail, HistoryItemSummary, InstalledModel};
use crate::text::{copy_string, preview_view, truncate_preview};

verus! {

/// The tables, created when missing.
pub const SCHEMA_SQL: &'static str = "PRAGMA journal_mode = WAL;
CREATE TABLE IF NOT EXISTS models (
    model_key TEXT PRIMARY KEY,
    repo_id TEXT NOT NULL,
    filename TEXT NOT NULL,
    local_path TEXT NOT NULL,
    size_bytes INTEGER NOT NULL,
    verified INTEGER NOT NULL,
    installed_at INTEGER NOT NULL
);
CREATE TABLE IF NOT EXISTS history (
    id TEXT PRIMARY KEY,
    created_at INTEGER NOT NULL,
    model_key TEXT NOT NULL,
    repo_id TEXT NOT NULL,
    filename TEXT NOT NULL,
    prompt TEXT NOT NULL,
    output TEXT NOT NULL,
    params_json TEXT NOT NULL,
    prompt_tokens INTEGER,
    completion_tokens INTEGER,
    total_tokens INTEGER
);";

/// All installed models, the latest first.
pub const SELECT_MODELS_SQL: &'static str = "SELECT model_key, repo_id, filename, local_path, size_bytes, verified, installed_at FROM models ORDER BY installed_at DESC";

/// The installed model with a key (`?1`).
pub const SELECT_MODEL_SQL: &'static str = "SELECT model_key, repo_id, filename, local_path, size_bytes, verified, installed_at FROM models WHERE model_key = ?1";

/// Inserts a model, or replaces the one with the same key.
pub const UPSERT_MODEL_SQL: &'static str = "INSERT INTO models (model_key, repo_id, filename, local_path, size_bytes, verified, installed_at) VALUES (?1, ?2, ?3, ?4, ?5, ?6, ?7) ON CONFLICT(model_key) DO UPDATE SET repo_id=excluded.repo_id, filename=excluded.filename, local_path=excluded.local_path, size_bytes=excluded.size_bytes, verified=excluded.verified, installed_at=excluded.installed_at";

/// Deletes the model with a key (`?1`).
pub const DELETE_MODEL_SQL: &'static str = "DELETE FROM models WHERE model_key = ?1";

/// The latest generations, at most `?1` of them.
pub const SELECT_HISTORY_SQL: &'static str = "SELECT id, created_at, model_key, repo_id, filename, prompt, output, total_tokens FROM history ORDER BY created_at DESC LIMIT ?1";

/// The generation with an identifier (`?1`).
pub const SELECT_HISTORY_ITEM_SQL: &'static str = "SELECT id, created_at, model_key, repo_id, filename, prompt, output, params_json, prompt_tokens, completion_tokens, total_tokens FROM history WHERE id = ?1";

/// Records a generation.
pub const INSERT_HISTORY_SQL: &'static str = "INSERT INTO history (id, created_at, model_key, repo_id, filename, prompt, output, params_json, prompt_tokens, completion_tokens, total_tokens) VALUES (?1, ?2, ?3, ?4, ?5, ?6, ?7, ?8, ?9, ?10, ?11)";

/// Forgets all generations.
pub const CLEAR_HISTORY_SQL: &'static str = "DELETE FROM history";

/// The prompt preview in the history list holds this many characters.
pub const PROMPT_PREVIEW_CHARS: usize = 120;

/// The output preview in the history list holds this many characters.
pub const OUTPUT_PREVIEW_CHARS: usize = 140;

/// The store's database file.
#[derive(Debug)]
pub struct SqliteStore {
    pub db_path: String,
}

impl SqliteStore {
    /// A store kept in the database at `db_path`.
    pub fn new(db_path: String) -> (r: SqliteStore)
        ensures
            r.db_path == db_path,
    {
        SqliteStore { db_path }
    }
}

// ---------------------------------------------------------------------------
// Installed models
// ---------------------------------------------------------------------------

/// A row of the `models` table, as SQLite holds it.
#[derive(Debug)]
pub struct ModelRow {
    pub model_key: String,
    pub repo_id: String,
    pub filename: String,
    pub local_path: String,
    pub size_bytes: i64,
    pub verified: i64,
    pub installed_at: i64,
}

/// The installed model a row stands for.
pub open spec fn installed_of_row(row: ModelRow) -> InstalledModel {
    InstalledModel {
        model_key: row.model_key,
        repo_id: row.repo_id,
        filename: row.filename,
        local_path: row.local_path,
        size_bytes: row.size_bytes as u64,
        verified: row.verified != 0,
        installed_at: row.installed_at,
    }
}

/// The row that stores an installed model.
pub open spec fn row_of_installed(m: InstalledModel) -> ModelRow {
    ModelRow {
        model_key: m.model_key,
        repo_id: m.repo_id,
        filename: m.filename,
        local_path: m.local_path,
        size_bytes: m.size_bytes as i64,
        verified: if m.verified {
            1
        } else {
            0
        },
        installed_at: m.installed_at,
    }
}

/// The installed model a row stands for: the size read back as unsigned,
/// any non-zero flag as verified.
pub fn installed_from_row(row: ModelRow) -> (m: InstalledModel)
    ensures
        m == installed_of_row(row),
        m.model_key@ == row.model_key@,
        m.repo_id@ == row.repo_id@,
        m.filename@ == row.filename@,
        m.local_path@ == row.local_path@,
        m.size_bytes == row.size_bytes as u64,
        m.verified == (row.verified != 0),
        m.installed_at == row.installed_at,
{
    InstalledModel {
        model_key: row.model_key,
        repo_id: row.repo_id,
        filename: row.filename,
        local_path: row.local_path,
        size_bytes: row.size_bytes as u64,
        verified: row.verified != 0,
        installed_at: row.installed_at,
    }
}

/// The row that stores an installed model: the size as a signed integer and
/// the flag as 1 or 0.
pub fn row_from_installed(m: &InstalledModel) -> (row: ModelRow)
    ensures
        row == row_of_installed(*m),
        row.model_key@ == m.model_key@,
        row.repo_id@ == m.repo_id@,
        row.filename@ == m.filename@,
        row.local_path@ == m.local_path@,
        row.size_bytes as u64 == m.size_bytes,
        row.verified == (if m.verified { 1i64 } else { 0i64 }),
        row.installed_at == m.installed_at,
{
    proof {
        let s = m.size_bytes;
        assert((s as i64) as u64 == s) by (bit_vector);
    }
    ModelRow {
        model_key: copy_string(&m.model_key),
        repo_id: copy_string(&m.repo_id),
        filename: copy_string(&m.filename),
        local_path: copy_string(&m.local_path),
        size_bytes: m.size_bytes as i64,
        verified: if m.verified {
            1
        } else {
            0
        },
        installed_at: m.installed_at,
    }
}

/// Each column of a model's row holds the field of the same name, and
/// reading a row takes each field from the column of the same name: the key
/// is in the `model_key` column (where lookups by key search) and the path
/// in the `local_path` column, the size and the install time as written,
/// and the flag as 1 for verified and 0 otherwise.
pub proof fn lemma_model_row_columns(m: InstalledModel, row: ModelRow)
    ensures
        row_of_installed(m).model_key@ == m.model_key@,
        row_of_installed(m).repo_id@ == m.repo_id@,
        row_of_installed(m).filename@ == m.filename@,
        row_of_installed(m).local_path@ == m.local_path@,
        row_of_installed(m).size_bytes as u64 == m.size_bytes,
        row_of_installed(m).verified == (if m.verified { 1i64 } else { 0i64 }),
        row_of_installed(m).installed_at == m.installed_at,
        installed_of_row(row).model_key@ == row.model_key@,
        installed_of_row(row).repo_id@ == row.repo_id@,
        installed_of_row(row).filename@ == row.filename@,
        installed_of_row(row).local_path@ == row.local_path@,
        installed_of_row(row).size_bytes == row.size_bytes as u64,
        installed_of_row(row).verified == (row.verified != 0),
        installed_of_row(row).installed_at == row.installed_at,
{
    let s = m.size_bytes;
    assert((s as i64) as u64 == s) by (bit_vector);
}

/// An installed model reads back from its row exactly as it was written,
/// whatever its size.
pub proof fn lemma_installed_round_trip(m: InstalledModel)
    ensures
        installed_of_row(row_of_installed(m)) == m,
{
    let s = m.size_bytes;
    assert((s as i64) as u64 == s) by (bit_vector);
}

// ---------------------------------------------------------------------------
// History
// ---------------------------------------------------------------------------

/// A row of the `history` table, as SQLite holds it.
#[derive(Debug)]
pub struct HistoryRow {
    pub id: String,
    pub created_at: i64,
    pub model_key: String,
    pub repo_id: String,
    pub filename: String,
    pub prompt: String,
    pub output: String,
    pub params_json: String,
    pub prompt_tokens: Option<i64>,
    pub completion_tokens: Option<i64>,
    pub total_tokens: Option<i64>,
}

/// The columns of the `history` table that the history list reads.
#[derive(Debug)]
pub struct HistorySummaryRow {
    pub id: String,
    pub created_at: i64,
    pub model_key: String,
    pub repo_id: String,
    pub filename: String,
    pub prompt: String,
    pub output: String,
    pub total_tokens: Option<i64>,
}

/// A stored count read back as `u32`, keeping the low bits as `as` does.
pub open spec fn count_of_column(v: Option<i64>) -> Option<u32> {
    match v {
        Some(x) => Some(x as u32),
        None => None,
    }
}

/// A count as stored.
pub open spec fn column_of_count(v: Option<u32>) -> Option<i64> {
    match v {
        Some(x) => Some(x as i64),
        None => None,
    }
}

fn count_from_column(v: Option<i64>) -> (r: Option<u32>)
    ensures
        r == count_of_column(v),
{
    match v {
        Some(x) => Some(x as u32),
        None => None,
    }
}

fn column_from_count(v: Option<u32>) -> (r: Option<i64>)
    ensures
        r == column_of_count(v),
{
    match v {
        Some(x) => Some(x as i64),
        None => None,
    }
}

/// The generation a row stands for.
pub open spec fn history_of_row(row: HistoryRow) -> HistoryItemDetail {
    HistoryItemDetail {
        id: row.id,
        created_at: row.created_at,
        model_key: row.model_key,
        repo_id: row.repo_id,
        filename: row.filename,
        prompt: row.prompt,
        output: row.output,
        params_json: row.params_json,
        prompt_tokens: count_of_column(row.prompt_tokens),
        completion_tokens: count_of_column(row.completion_tokens),
        total_tokens: count_of_column(row.total_tokens),
    }
}

/// The row that stores a generation.
pub open spec fn row_of_history(h: HistoryItemDetail) -> HistoryRow {
    HistoryRow {
        id: h.id,
        created_at: h.created_at,
        model_key: h.model_key,
        repo_id: h.repo_id,
        filename: h.filename,
        prompt: h.prompt,
        output: h.output,
        params_json: h.params_json,
        prompt_tokens: column_of_count(h.prompt_tokens),
        completion_tokens: column_of_count(h.completion_tokens),
        total_tokens: column_of_count(h.total_tokens),
    }
}

/// The generation a row stands for.
pub fn history_from_row(row: HistoryRow) -> (h: HistoryItemDetail)
    ensures
        h == history_of_row(row),
        h.id@ == row.id@,
        h.created_at == row.created_at,
        h.model_key@ == row.model_key@,
        h.repo_id@ == row.repo_id@,
        h.filename@ == row.filename@,
        h.prompt@ == row.prompt@,
        h.output@ == row.output@,
        h.params_json@ == row.params_json@,
{
    HistoryItemDetail {
        id: row.id,
        created_at: row.created_at,
        model_key: row.model_key,
        repo_id: row.repo_id,
        filename: row.filename,
        prompt: row.prompt,
        output: row.output,
        params_json: row.params_json,
        prompt_tokens: count_from_column(row.prompt_tokens),
        completion_tokens: count_from_column(row.completion_tokens),
        total_tokens: count_from_column(row.total_tokens),
    }
}

/// The row that stores a generation.
pub fn row_from_history(h: &HistoryItemDetail) -> (row: HistoryRow)
    ensures
        row == row_of_history(*h),
        row.id@ == h.id@,
        row.created_at == h.created_at,
        row.model_key@ == h.model_key@,
        row.repo_id@ == h.repo_id@,
        row.filename@ == h.filename@,
        row.prompt@ == h.prompt@,
        row.output@ == h.output@,
        row.params_json@ == h.params_json@,
{
    HistoryRow {
        id: copy_string(&h.id),
        created_at: h.created_at,
        model_key: copy_string(&h.model_key),
        repo_id: copy_string(&h.repo_id),
        filename: copy_string(&h.filename),
        prompt: copy_string(&h.prompt),
        output: copy_string(&h.output),
        params_json: copy_string(&h.params_json),
        prompt_tokens: column_from_count(h.prompt_tokens),
        completion_tokens: column_from_count(h.completion_tokens),
        total_tokens: column_from_count(h.total_tokens),
    }
}

proof fn lemma_count_round_trip(v: Option<u32>)
    ensures
        count_of_column(column_of_count(v)) == v,
{
    if let Some(x) = v {
        assert((x as i64) as u32 == x) by (bit_vector);
    }
}

/// Each column of a generation's row holds the field of the same name, and
/// reading a row takes each field from the column of the same name: the
/// prompt is in the `prompt` column (which the history list previews as the
/// prompt) and the response in the `output` column; the counts are stored
/// as written and read back as `u32`.
pub proof fn lemma_history_row_columns(h: HistoryItemDetail, row: HistoryRow)
    ensures
        row_of_history(h).id@ == h.id@,
        row_of_history(h).created_at == h.created_at,
        row_of_history(h).model_key@ == h.model_key@,
        row_of_history(h).repo_id@ == h.repo_id@,
        row_of_history(h).filename@ == h.filename@,
        row_of_history(h).prompt@ == h.prompt@,
        row_of_history(h).output@ == h.output@,
        row_of_history(h).params_json@ == h.params_json@,
        h.prompt_tokens matches Some(x) ==> row_of_history(h).prompt_tokens == Some(x as i64),
        h.completion_tokens matches Some(x) ==> row_of_history(h).completion_tokens == Some(
            x as i64,
        ),
        h.total_tokens matches Some(x) ==> row_of_history(h).total_tokens == Some(x as i64),
        h.prompt_tokens is None ==> row_of_history(h).prompt_tokens is None,
        h.completion_tokens is None ==> row_of_history(h).completion_tokens is None,
        h.total_tokens is None ==> row_of_history(h).total_tokens is None,
        history_of_row(row).id@ == row.id@,
        history_of_row(row).created_at == row.created_at,
        history_of_row(row).model_key@ == row.model_key@,
        history_of_row(row).repo_id@ == row.repo_id@,
        history_of_row(row).filename@ == row.filename@,
        history_of_row(row).prompt@ == row.prompt@,
        history_of_row(row).output@ == row.output@,
        history_of_row(row).params_json@ == row.params_json@,
{
}

/// A generation reads back from its row exactly as it was written.
pub proof fn lemma_history_round_trip(h: HistoryItemDetail)
    ensures
        history_of_row(row_of_history(h)) == h,
{
    lemma_count_round_trip(h.prompt_tokens);
    lemma_count_round_trip(h.completion_tokens);
    lemma_count_round_trip(h.total_tokens);
}

/// `s` is the history-list entry for the row `row`.
pub open spec fn summarizes_row(s: HistoryItemSummary, row: HistorySummaryRow) -> bool {
    &&& s.id == row.id
    &&& s.created_at == row.created_at
    &&& s.model_key == row.model_key
    &&& s.repo_id == row.repo_id
    &&& s.filename == row.filename
    &&& s.prompt_preview@ == preview_view(row.prompt@, PROMPT_PREVIEW_CHARS as nat)
    &&& s.output_preview@ == preview_view(row.output@, OUTPUT_PREVIEW_CHARS as nat)
    &&& s.total_tokens == count_of_column(row.total_tokens)
}

/// The history-list entry for a row: short previews of prompt and output.
pub fn summary_from_row(row: HistorySummaryRow) -> (s: HistoryItemSummary)
    ensures
        summarizes_row(s, row),
{
    let prompt_preview = truncate_preview(row.prompt.as_str(), PROMPT_PREVIEW_CHARS);
    let output_preview = truncate_preview(row.output.as_str(), OUTPUT_PREVIEW_CHARS);
    HistoryItemSummary {
        id: row.id,
        created_at: row.created_at,
        model_key: row.model_key,
        repo_id: row.repo_id,
        filename: row.filename,
        prompt_preview,
        output_preview,
        total_tokens: count_from_column(row.total_tokens),
    }
}

} // verus!
