use landry::domain::InstalledModel;
use landry::error::AppError;
use landry::inference::{
    plan_from_parts, tok_model_id_for, tok_model_id_hint, token_source, ModelSlot,
    StreamChunker, TokenSourceChoice,
};

#[test]
fn phi3_uses_microsoft_tokenizer() {
    assert_eq!(
        tok_model_id_hint("bartowski/Phi-3-mini-4k-instruct-v0.3-GGUF"),
        "microsoft/Phi-3-mini-4k-instruct"
    );
    assert_eq!(
        tok_model_id_hint("TheBloke/Mistral-7B-Instruct-v0.2-GGUF"),
        "TheBloke/Mistral-7B-Instruct-v0.2-GGUF"
    );
    assert_eq!(tok_model_id_for("X", "phi-3-mini-4k-instruct"), "microsoft/Phi-3-mini-4k-instruct");
    assert_eq!(tok_model_id_for("X", "Phi-3-mini-4k-instruct"), "X");
}

#[test]
fn token_sources() {
    assert!(matches!(token_source(Some(" hf_abc ")), TokenSourceChoice::Literal(t) if t == " hf_abc "));
    assert!(matches!(token_source(Some("  ")), TokenSourceChoice::CacheToken));
    assert!(matches!(token_source(None), TokenSourceChoice::CacheToken));
}

fn model(key: &str, path: &str) -> InstalledModel {
    InstalledModel {
        model_key: key.to_string(),
        repo_id: "bartowski/Phi-3-mini-4k-instruct-v0.3-GGUF".to_string(),
        filename: "m.gguf".to_string(),
        local_path: path.to_string(),
        size_bytes: 1,
        verified: true,
        installed_at: 0,
    }
}

#[test]
fn load_plan_from_path_parts() {
    let m = model("k", "/x/m.gguf");
    match plan_from_parts(&m, None, Some("m.gguf".to_string()), None) {
        Err(AppError::Inference(e)) => assert_eq!(e, "Invalid model path"),
        other => panic!("{:?}", other),
    }
    match plan_from_parts(&m, Some("/x".to_string()), None, None) {
        Err(AppError::Inference(e)) => assert_eq!(e, "Invalid model filename"),
        other => panic!("{:?}", other),
    }
    let p = plan_from_parts(&m, Some("/x".to_string()), Some("m.gguf".to_string()), Some("tok")).unwrap();
    assert_eq!(p.local_dir, "/x");
    assert_eq!(p.file_name, "m.gguf");
    assert_eq!(p.tok_model_id, "microsoft/Phi-3-mini-4k-instruct");
    assert!(matches!(p.token, TokenSourceChoice::Literal(ref t) if t == "tok"));
}

#[test]
fn model_slot_caches_the_loaded_model() {
    let mut slot = ModelSlot::new();
    let m = model("a::m.gguf", "/models/a/m.gguf");
    let plan = slot.prepare(&m, None).unwrap().unwrap();
    assert_eq!(plan.local_dir, "/models/a");
    assert_eq!(plan.file_name, "m.gguf");
    assert!(matches!(plan.token, TokenSourceChoice::CacheToken));
    assert!(!slot.is_current("a::m.gguf"));
    slot.finish_load("a::m.gguf");
    assert!(slot.is_current("a::m.gguf"));
    assert!(slot.prepare(&m, None).unwrap().is_none());
    let other = model("b::m.gguf", "/models/b/m.gguf");
    assert!(slot.prepare(&other, None).unwrap().is_some());
    assert!(!slot.is_current("a::m.gguf"));
    assert!(slot.key.is_none() && !slot.loaded);
}

#[test]
fn model_slot_rejects_a_path_without_file_name() {
    let mut slot = ModelSlot::new();
    let m = model("r::x", "/");
    assert!(matches!(slot.prepare(&m, None), Err(AppError::Inference(_))));
}

#[test]
fn chunker_flushes_by_size_and_time() {
    let mut c = StreamChunker::new(0);
    assert_eq!(c.on_content("Hello", 10), None);
    assert_eq!(c.on_content(" world", 39), None);
    assert_eq!(c.on_content("!", 40).as_deref(), Some("Hello world!"));
    assert_eq!(c.last_emit_ms, 40);
    let big = "x".repeat(96);
    assert_eq!(c.on_content(&big, 41).as_deref(), Some(big.as_str()));
    assert_eq!(c.on_content("é", 42), None);
    assert_eq!(c.on_cancel().as_deref(), Some("é"));
    assert_eq!(c.on_cancel(), None);
}

#[test]
fn chunker_flushes_on_done_and_narrows_counts() {
    let mut c = StreamChunker::new(100);
    c.on_content("tail", 101);
    let (out, usage) = c.on_done(Some(5), None, Some((1usize << 32) + 7));
    assert_eq!(out.as_deref(), Some("tail"));
    assert_eq!(usage.prompt_tokens, Some(5));
    assert_eq!(usage.completion_tokens, None);
    assert_eq!(usage.total_tokens, Some(7));
}

#[test]
fn model_slot_names_which_part_of_the_path_is_missing() {
    let mut slot = ModelSlot::new();
    match slot.prepare(&model("r::x", "/"), None) {
        Err(AppError::Inference(m)) => assert_eq!(m, "Invalid model path"),
        other => panic!("{:?}", other),
    }
    match slot.prepare(&model("r::y", "/models/.."), None) {
        Err(AppError::Inference(m)) => assert_eq!(m, "Invalid model filename"),
        other => panic!("{:?}", other),
    }
    assert!(slot.key.is_none() && !slot.loaded);
}

#[test]
fn model_slot_splits_a_nested_path() {
    let mut slot = ModelSlot::new();
    let plan = slot
        .prepare(&model("r::z", "/home/u/models/r--z/q4.gguf"), Some("hf_abc"))
        .unwrap()
        .unwrap();
    assert_eq!(plan.local_dir, "/home/u/models/r--z");
    assert_eq!(plan.file_name, "q4.gguf");
    assert!(matches!(plan.token, TokenSourceChoice::Literal(ref t) if t == "hf_abc"));
}

#[test]
fn failed_load_leaves_nothing_to_stream_from() {
    let mut slot = ModelSlot::new();
    slot.finish_load("a::m.gguf");
    assert!(slot.require_loaded().is_ok());
    let broken = model("b::x", "/");
    assert!(slot.prepare(&broken, None).is_err());
    assert!(!slot.is_current("a::m.gguf"));
    match slot.require_loaded() {
        Err(AppError::Inference(m)) => assert_eq!(m, "Model not loaded"),
        other => panic!("{:?}", other),
    }
}

#[test]
fn chunker_hands_on_the_tail_when_the_stream_just_ends() {
    let mut c = StreamChunker::new(0);
    assert_eq!(c.on_content("par", 5), None);
    assert_eq!(c.on_content("tial", 6), None);
    assert_eq!(c.on_end().as_deref(), Some("partial"));
    assert_eq!(c.on_end(), None);
    assert_eq!(c.buffer, "");
}
