use landry::domain::{GenState, GenUsage, InstalledModel};
use landry::error::AppError;
use landry::events::{UiEvent, EVENT_GEN_DONE, EVENT_GEN_TOKEN, EVENT_TOAST_INFO};
use landry::generation::{check_prompt, require_installed, GenAction, GenPhase, GenerationSession};

fn model() -> InstalledModel {
    InstalledModel {
        model_key: "r/x::m.gguf".to_string(),
        repo_id: "r/x".to_string(),
        filename: "m.gguf".to_string(),
        local_path: "/m/r--x/m.gguf".to_string(),
        size_bytes: 9,
        verified: true,
        installed_at: 1,
    }
}

fn session() -> GenerationSession {
    let (s, acts) = GenerationSession::start(
        "job-7".to_string(),
        model(),
        "Hi".to_string(),
        "r/x::m.gguf".to_string(),
        "{\"temperature\":0.7}".to_string(),
    );
    assert_eq!(acts.len(), 2);
    match &acts[1] {
        GenAction::LoadModel(m) => {
            assert_eq!(m.model_key, "r/x::m.gguf");
            assert_eq!(m.local_path, "/m/r--x/m.gguf");
        }
        other => panic!("{:?}", other),
    }
    match &acts[0] {
        GenAction::Emit(toast @ UiEvent::ToastInfo(t)) => {
            assert_eq!(toast.channel(), EVENT_TOAST_INFO);
            assert_eq!(t.title, "Generating");
            assert_eq!(t.message, "Preparing model and starting generation…");
            assert_eq!(t.kind, "info");
        }
        other => panic!("{:?}", other),
    }
    s
}

#[test]
fn blank_prompt_is_refused() {
    match check_prompt("  \n") {
        Err(AppError::InvalidInput(m)) => assert_eq!(m, "Please enter a prompt."),
        other => panic!("{:?}", other),
    }
    assert!(check_prompt(" hi ").is_ok());
}

#[test]
fn missing_model_is_refused() {
    match require_installed(None) {
        Err(AppError::InvalidInput(m)) => assert_eq!(m, "Selected model is not installed."),
        other => panic!("{:?}", other),
    }
    assert_eq!(require_installed(Some(model())).unwrap().filename, "m.gguf");
}

#[test]
fn streamed_text_is_recorded() {
    let mut s = session();
    let acts = s.on_model_loaded(Ok(()));
    assert_eq!(acts.len(), 1);
    match &acts[0] {
        GenAction::Stream { model: m, prompt } => {
            assert_eq!(m.model_key, "r/x::m.gguf");
            assert_eq!(m.filename, "m.gguf");
            assert_eq!(prompt, "Hi");
        }
        other => panic!("{:?}", other),
    }
    assert_eq!(s.phase, GenPhase::Streaming);
    let ev = s.on_text("Héllo".to_string(), 12).unwrap();
    assert_eq!(ev.channel(), EVENT_GEN_TOKEN);
    match ev {
        UiEvent::GenToken(t) => {
            assert_eq!(t.job_id, "job-7");
            assert_eq!(t.chunk, "Héllo");
            assert_eq!(t.total_chars, 5);
            assert_eq!(t.elapsed_ms, 12);
            assert_eq!(t.state, GenState::Generating);
        }
        other => panic!("{:?}", other),
    }
    s.on_text(", world".to_string(), 30);
    assert_eq!(s.output, "Héllo, world");
    assert_eq!(s.total_chars, 12);

    let usage = GenUsage { prompt_tokens: Some(3), completion_tokens: Some(4), total_tokens: Some(7) };
    let acts = s.on_stream_end(Ok(usage));
    assert_eq!(acts.len(), 3);
    let id = match &acts[0] {
        GenAction::InsertHistory(h) => {
            assert_eq!(h.output, "Héllo, world");
            assert_eq!(h.prompt, "Hi");
            assert_eq!(h.model_key, "r/x::m.gguf");
            assert_eq!(h.repo_id, "r/x");
            assert_eq!(h.params_json, "{\"temperature\":0.7}");
            assert_eq!(h.total_tokens, Some(7));
            assert_eq!(h.id.len(), 36);
            h.id.clone()
        }
        other => panic!("{:?}", other),
    };
    match &acts[1] {
        GenAction::Emit(e @ UiEvent::GenDone(d)) => {
            assert_eq!(e.channel(), EVENT_GEN_DONE);
            assert_eq!(d.session_id.as_deref(), Some(id.as_str()));
            assert_eq!(d.total_chars, 12);
            assert_eq!(d.state, GenState::Done);
            assert_eq!(d.completion_tokens, Some(4));
        }
        other => panic!("{:?}", other),
    }
    assert!(matches!(&acts[2], GenAction::RemoveJob(j) if j == "job-7"));
    assert_eq!(s.phase, GenPhase::Finished);
    assert!(s.on_text("late".to_string(), 99).is_none());
}

#[test]
fn load_failure_ends_the_run() {
    let mut s = session();
    let acts = s.on_model_loaded(Err(AppError::Inference("bad gguf".to_string())));
    assert_eq!(acts.len(), 2);
    match &acts[0] {
        GenAction::Emit(UiEvent::ToastError(t)) => {
            assert_eq!(t.title, "Model load failed");
            assert_eq!(t.message, "Inference error: bad gguf");
            assert_eq!(t.detail.as_deref(), Some("r/x / m.gguf"));
            assert_eq!(t.kind, "error");
        }
        other => panic!("{:?}", other),
    }
    assert!(matches!(&acts[1], GenAction::RemoveJob(j) if j == "job-7"));
    assert_eq!(s.phase, GenPhase::Finished);
}

#[test]
fn cancelled_run_reports_cancellation() {
    let mut s = session();
    s.on_model_loaded(Ok(()));
    s.on_text("abc".to_string(), 1);
    let acts = s.on_stream_end(Err(AppError::Cancelled));
    assert_eq!(acts.len(), 2);
    match &acts[0] {
        GenAction::Emit(UiEvent::GenDone(d)) => {
            assert_eq!(d.state, GenState::Cancelled);
            assert!(d.session_id.is_none());
            assert_eq!(d.total_chars, 3);
            assert!(d.total_tokens.is_none());
        }
        other => panic!("{:?}", other),
    }
}

#[test]
fn failed_run_reports_failure() {
    let mut s = session();
    s.on_model_loaded(Ok(()));
    let acts = s.on_stream_end(Err(AppError::Inference("oom".to_string())));
    assert_eq!(acts.len(), 3);
    match &acts[0] {
        GenAction::Emit(UiEvent::ToastError(t)) => {
            assert_eq!(t.title, "Generation failed");
            assert_eq!(t.message, "Inference error: oom");
            assert!(t.detail.is_none());
        }
        other => panic!("{:?}", other),
    }
    assert!(matches!(&acts[1], GenAction::Emit(UiEvent::GenDone(d)) if d.state == GenState::Failed));
    assert!(matches!(&acts[2], GenAction::RemoveJob(_)));
}

#[test]
fn history_record_carries_the_given_time_and_id() {
    let mut s = session();
    s.on_model_loaded(Ok(()));
    s.on_text("abc".to_string(), 1);
    let usage = GenUsage { prompt_tokens: None, completion_tokens: Some(2), total_tokens: None };
    let acts = s.on_stream_end_at(Ok(usage), 1_700_000_456, "sess-1".to_string());
    assert_eq!(acts.len(), 3);
    match &acts[0] {
        GenAction::InsertHistory(h) => {
            assert_eq!(h.created_at, 1_700_000_456);
            assert_eq!(h.id, "sess-1");
            assert_eq!(h.output, "abc");
        }
        other => panic!("{:?}", other),
    }
    match &acts[1] {
        GenAction::Emit(UiEvent::GenDone(d)) => {
            assert_eq!(d.session_id.as_deref(), Some("sess-1"));
            assert_eq!(d.total_chars, 3);
        }
        other => panic!("{:?}", other),
    }
    assert!(matches!(&acts[2], GenAction::RemoveJob(j) if j == "job-7"));
}
