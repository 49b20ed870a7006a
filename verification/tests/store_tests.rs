use landry::domain::{HistoryItemDetail, InstalledModel};
use landry::jobs::JobManager;
use landry::store::{
    history_from_row, installed_from_row, row_from_history, row_from_installed, summary_from_row,
    HistorySummaryRow, SqliteStore,
};

#[test]
fn installed_models_round_trip_through_rows() {
    let m = InstalledModel {
        model_key: "a::b".to_string(),
        repo_id: "a".to_string(),
        filename: "b".to_string(),
        local_path: "/m/a/b".to_string(),
        size_bytes: u64::MAX - 1,
        verified: true,
        installed_at: 1_700_000_000,
    };
    let row = row_from_installed(&m);
    assert_eq!(row.size_bytes, -2);
    assert_eq!(row.verified, 1);
    let back = installed_from_row(row);
    assert_eq!(back.size_bytes, u64::MAX - 1);
    assert!(back.verified);
    assert_eq!(back.model_key, "a::b");
    assert_eq!(back.installed_at, 1_700_000_000);
}

#[test]
fn history_round_trips_through_rows() {
    let h = HistoryItemDetail {
        id: "id".to_string(),
        created_at: 5,
        model_key: "k".to_string(),
        repo_id: "r".to_string(),
        filename: "f".to_string(),
        prompt: "p".to_string(),
        output: "o".to_string(),
        params_json: "{}".to_string(),
        prompt_tokens: Some(u32::MAX),
        completion_tokens: None,
        total_tokens: Some(9),
    };
    let row = row_from_history(&h);
    assert_eq!(row.prompt_tokens, Some(u32::MAX as i64));
    let back = history_from_row(row);
    assert_eq!(back.prompt_tokens, Some(u32::MAX));
    assert_eq!(back.completion_tokens, None);
    assert_eq!(back.total_tokens, Some(9));
    assert_eq!(back.params_json, "{}");
}

#[test]
fn history_list_shows_previews() {
    let row = HistorySummaryRow {
        id: "id".to_string(),
        created_at: 1,
        model_key: "k".to_string(),
        repo_id: "r".to_string(),
        filename: "f".to_string(),
        prompt: "p".repeat(130),
        output: "short".to_string(),
        total_tokens: Some(12),
    };
    let s = summary_from_row(row);
    assert_eq!(s.prompt_preview, format!("{}…", "p".repeat(120)));
    assert_eq!(s.output_preview, "short");
    assert_eq!(s.total_tokens, Some(12));
    assert_eq!(s.repo_id, "r");
}

#[test]
fn store_keeps_its_path() {
    assert_eq!(SqliteStore::new("/db".to_string()).db_path, "/db");
}

#[test]
fn job_table_lifecycle() {
    let mut jobs = JobManager::new();
    let (id, token) = jobs.create_job();
    assert_eq!(id.len(), 36);
    assert!(jobs.get(&id).is_some());
    assert!(!token.is_cancelled());
    assert!(jobs.cancel(&id));
    assert!(token.is_cancelled());
    assert!(jobs.get(&id).unwrap().is_cancelled());
    jobs.remove(&id);
    assert!(!jobs.cancel(&id));
    assert!(jobs.get(&id).is_none());
    assert!(!jobs.cancel("unknown"));
    let (a, _) = jobs.create_job();
    let (b, _) = jobs.create_job();
    assert_ne!(a, b);
    jobs.remove(&a);
    assert!(jobs.get(&b).is_some());
}

#[test]
fn job_tokens_stay_with_their_jobs() {
    let mut jobs = JobManager::new();
    let (a, ta) = jobs.create_job();
    let (b, tb) = jobs.create_job();
    assert!(jobs.cancel(&a));
    assert!(ta.is_cancelled());
    assert!(!tb.is_cancelled());
    assert!(!jobs.get(&b).unwrap().is_cancelled());
    jobs.remove(&a);
    assert!(jobs.cancel(&b));
    assert!(tb.is_cancelled());
}
