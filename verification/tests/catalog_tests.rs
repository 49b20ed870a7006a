use landry::catalog::{curated_defaults, plan_search, SearchPlan, SEARCH_LIMIT};
use landry::domain::Settings;
use landry::exports::{export_file_name, history_list_limit, with_txt_extension};
use landry::settings::{settings_from_file, settings_or_default, JsonSettingsStore, SettingsFile};
use landry::error::AppError;

#[test]
fn curated_list_has_phi3_and_mistral() {
    let v = curated_defaults();
    assert_eq!(v.len(), 2);
    assert_eq!(v[0].repo_id, "bartowski/Phi-3-mini-4k-instruct-v0.3-GGUF");
    assert_eq!(
        v[0].description.as_deref(),
        Some("Phi-3 Mini 4k Instruct (v0.3) - GGUF quantizations (Bartowski)")
    );
    assert_eq!(v[1].repo_id, "TheBloke/Mistral-7B-Instruct-v0.2-GGUF");
    assert!(v[1].likes.is_none() && v[1].downloads.is_none());
}

#[test]
fn blank_search_gets_curated_list() {
    for q in [None, Some(String::new()), Some("   ".to_string())] {
        match plan_search(q) {
            SearchPlan::Curated(v) => assert_eq!(v.len(), 2),
            other => panic!("{:?}", other),
        }
    }
}

#[test]
fn search_query_is_trimmed() {
    match plan_search(Some("  phi-3 gguf ".to_string())) {
        SearchPlan::Remote { query, limit } => {
            assert_eq!(query, "phi-3 gguf");
            assert_eq!(limit, SEARCH_LIMIT);
            assert_eq!(limit, 25);
        }
        other => panic!("{:?}", other),
    }
}

#[test]
fn default_settings() {
    let s = Settings::default();
    assert!(s.hf_token.is_none());
    assert_eq!(s.default_repo_id, "bartowski/Phi-3-mini-4k-instruct-v0.3-GGUF");
    assert_eq!(s.default_quant_hint, "Q5");
}

#[test]
fn reading_settings() {
    let saved = Settings { hf_token: Some("hf_x".to_string()), default_repo_id: "r".to_string(), default_quant_hint: "Q4".to_string() };
    let s = settings_from_file(SettingsFile::Parsed(saved)).unwrap();
    assert_eq!(s.hf_token.as_deref(), Some("hf_x"));
    assert_eq!(s.default_quant_hint, "Q4");
    let s = settings_from_file(SettingsFile::Missing).unwrap();
    assert_eq!(s.default_quant_hint, "Q5");
    match settings_from_file(SettingsFile::Malformed("expected value at line 1".to_string())) {
        Err(AppError::Fs(m)) => assert_eq!(m, "Invalid settings.json: expected value at line 1"),
        other => panic!("{:?}", other),
    }
    match settings_from_file(SettingsFile::Unreadable("permission denied".to_string())) {
        Err(AppError::Fs(m)) => assert_eq!(m, "permission denied"),
        other => panic!("{:?}", other),
    }
    let s = settings_or_default(Err(AppError::Fs("x".to_string())));
    assert_eq!(s.default_repo_id, "bartowski/Phi-3-mini-4k-instruct-v0.3-GGUF");
    let store = JsonSettingsStore::new("/tmp/settings.json".to_string());
    assert_eq!(store.path, "/tmp/settings.json");
}

#[test]
fn export_names_get_txt() {
    assert_eq!(export_file_name("notes"), "notes.txt");
    assert_eq!(export_file_name("Report.TXT"), "Report.TXT");
    assert_eq!(export_file_name("a/b:c"), "abc.txt");
    assert_eq!(export_file_name("x\u{7}y"), "xy.txt");
    assert_eq!(with_txt_extension("Résumé"), "Résumé.txt");
    assert_eq!(with_txt_extension("LOG.Txt"), "LOG.Txt");
}

#[test]
fn export_name_keeps_a_safe_name_and_only_drops_characters() {
    assert_eq!(export_file_name("Weekly notes (v2)"), "Weekly notes (v2).txt");
    assert_eq!(export_file_name("déjà vu"), "déjà vu.txt");
    assert_eq!(export_file_name("q?<a>|b*\"c\\d"), "qabcd.txt");
    assert_eq!(export_file_name("...."), ".txt");
    assert_eq!(export_file_name("a/b"), "ab.txt");
    assert_eq!(export_file_name("Out.TXT"), "Out.TXT");
}

#[test]
fn export_name_is_at_most_255_bytes_before_extension() {
    let long = "x".repeat(300);
    let name = export_file_name(&long);
    assert_eq!(name.len(), 255 + 4);
}

#[test]
fn history_limit_defaults_to_hundred() {
    assert_eq!(history_list_limit(None), 100);
    assert_eq!(history_list_limit(Some(7)), 7);
}
