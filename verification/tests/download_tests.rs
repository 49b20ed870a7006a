use landry::domain::ModelState;
use landry::download::{
    download_failure_toast, model_key, sanitize_repo_dir, temp_file_name, DownloadAction,
    DownloadFlow, DownloadPhase, ProgressThrottle,
};
use landry::error::AppError;
use landry::events::{UiEvent, EVENT_TOAST_ERROR};

fn flow() -> DownloadFlow {
    let (f, acts) = DownloadFlow::begin("job-1".to_string(), "bartowski/Phi-3".to_string(), "phi3.Q5.gguf".to_string());
    assert_eq!(acts.len(), 1);
    match &acts[0] {
        DownloadAction::CreateDir { dir_name } => assert_eq!(dir_name, "bartowski--Phi-3"),
        other => panic!("{:?}", other),
    }
    f
}

fn assert_fails(acts: &[DownloadAction], title: &str, removes_reporter: bool) {
    let mut k = 0;
    if removes_reporter {
        assert!(matches!(acts[0], DownloadAction::StopReporter));
        k = 1;
    }
    assert_eq!(acts.len(), k + 2);
    match &acts[k] {
        DownloadAction::Emit(e @ UiEvent::ToastError(t)) => {
            assert_eq!(t.title, title);
            assert_eq!(e.channel(), EVENT_TOAST_ERROR);
        }
        other => panic!("{:?}", other),
    }
    match &acts[k + 1] {
        DownloadAction::RemoveJob(j) => assert_eq!(j, "job-1"),
        other => panic!("{:?}", other),
    }
}

#[test]
fn names_of_a_download() {
    assert_eq!(sanitize_repo_dir("TheBloke/Mistral-7B"), "TheBloke--Mistral-7B");
    assert_eq!(model_key("a/b", "c.gguf"), "a/b::c.gguf");
    assert_eq!(temp_file_name("c.gguf"), ".c.gguf.part");
}

#[test]
fn failure_toasts() {
    let t = download_failure_toast(&AppError::Cancelled, "a/b", "c.gguf");
    assert_eq!(t.title, "Download cancelled");
    assert_eq!(t.message, "The download was cancelled.");
    assert_eq!(t.detail.as_deref(), Some("a/b / c.gguf"));
    assert_eq!(t.remediation.as_deref(), Some("You can restart the download any time."));
    assert_eq!(t.kind, "info");
    let t = download_failure_toast(&AppError::Network("HTTP 404".to_string()), "a/b", "c.gguf");
    assert_eq!(t.title, "Download failed");
    assert_eq!(t.message, "Unable to download the model.");
    assert_eq!(t.detail.as_deref(), Some("Network error: HTTP 404"));
    assert_eq!(t.kind, "error");
}

#[test]
fn successful_download_registers_the_model() {
    let mut f = flow();
    let acts = f.on_dir_ready(Ok(()));
    assert_eq!(acts.len(), 3);
    assert!(matches!(&acts[0], DownloadAction::RemoveStaleTemp { file_name } if file_name == ".phi3.Q5.gguf.part"));
    assert!(matches!(acts[1], DownloadAction::StartReporter));
    assert!(matches!(&acts[2], DownloadAction::Fetch { file_name } if file_name == ".phi3.Q5.gguf.part"));
    assert_eq!(f.phase, DownloadPhase::Fetching);

    let acts = f.on_fetched(Ok(1234), false);
    assert_eq!(acts.len(), 2);
    match &acts[0] {
        DownloadAction::Emit(UiEvent::DownloadProgress(p)) => {
            assert_eq!(p.bytes_downloaded, 1234);
            assert_eq!(p.total_bytes, Some(1234));
            assert_eq!(p.state, ModelState::Verifying);
        }
        other => panic!("{:?}", other),
    }
    assert!(matches!(&acts[1], DownloadAction::ReplaceFinal { temp_name, final_name }
        if temp_name == ".phi3.Q5.gguf.part" && final_name == "phi3.Q5.gguf"));

    let acts = f.on_finalized(Ok("/data/models/bartowski--Phi-3/phi3.Q5.gguf".to_string()));
    assert_eq!(acts.len(), 1);
    match &acts[0] {
        DownloadAction::Register(m) => {
            assert_eq!(m.model_key, "bartowski/Phi-3::phi3.Q5.gguf");
            assert_eq!(m.repo_id, "bartowski/Phi-3");
            assert_eq!(m.local_path, "/data/models/bartowski--Phi-3/phi3.Q5.gguf");
            assert_eq!(m.size_bytes, 1234);
            assert!(m.verified);
            assert!(m.installed_at > 1_600_000_000);
        }
        other => panic!("{:?}", other),
    }

    let acts = f.on_registered(Ok(()));
    assert_eq!(acts.len(), 2);
    assert!(matches!(acts[0], DownloadAction::StopReporter));
    match &acts[1] {
        DownloadAction::Announce(d) => {
            assert_eq!(d.job_id, "job-1");
            assert_eq!(d.model_key, "bartowski/Phi-3::phi3.Q5.gguf");
            assert_eq!(d.size_bytes, 1234);
            assert!(d.verified);
        }
        other => panic!("{:?}", other),
    }

    let acts = f.on_announced(Ok(()));
    assert_eq!(acts.len(), 2);
    match &acts[0] {
        DownloadAction::Emit(UiEvent::ToastInfo(t)) => {
            assert_eq!(t.title, "Model installed");
            assert_eq!(t.detail.as_deref(), Some("bartowski/Phi-3 (phi3.Q5.gguf)"));
        }
        other => panic!("{:?}", other),
    }
    assert!(matches!(&acts[1], DownloadAction::RemoveJob(j) if j == "job-1"));
    assert_eq!(f.phase, DownloadPhase::Finished);
    assert!(f.on_announced(Ok(())).is_empty());
}

#[test]
fn cancelled_download_removes_partial_file() {
    let mut f = flow();
    f.on_dir_ready(Ok(()));
    let acts = f.on_fetched(Ok(10), true);
    assert!(matches!(&acts[0], DownloadAction::RemoveTemp { file_name } if file_name == ".phi3.Q5.gguf.part"));
    assert_fails(&acts[1..], "Download cancelled", true);
    assert_eq!(f.phase, DownloadPhase::Finished);
}

#[test]
fn empty_download_is_refused() {
    let mut f = flow();
    f.on_dir_ready(Ok(()));
    let acts = f.on_fetched(Ok(0), false);
    assert!(matches!(acts[0], DownloadAction::Emit(UiEvent::DownloadProgress(_))));
    assert!(matches!(acts[1], DownloadAction::RemoveTemp { .. }));
    assert_fails(&acts[2..], "Download failed", true);
    match &acts[3] {
        DownloadAction::Emit(UiEvent::ToastError(t)) => {
            assert_eq!(t.detail.as_deref(), Some("Filesystem error: Downloaded file is empty"))
        }
        other => panic!("{:?}", other),
    }
}

#[test]
fn failures_at_each_step() {
    let mut f = flow();
    let acts = f.on_dir_ready(Err(AppError::Fs("read-only".to_string())));
    assert_fails(&acts, "Download failed", false);

    let mut f = flow();
    f.on_dir_ready(Ok(()));
    let acts = f.on_fetched(Err(AppError::Network("reset".to_string())), false);
    assert_fails(&acts, "Download failed", true);

    let mut f = flow();
    f.on_dir_ready(Ok(()));
    f.on_fetched(Ok(5), false);
    let acts = f.on_finalized(Err(AppError::Fs("rename".to_string())));
    assert_fails(&acts, "Download failed", true);

    let mut f = flow();
    f.on_dir_ready(Ok(()));
    f.on_fetched(Ok(5), false);
    f.on_finalized(Ok("/p".to_string()));
    let acts = f.on_registered(Err(AppError::Db("locked".to_string())));
    assert_fails(&acts, "Download failed", true);

    let mut f = flow();
    f.on_dir_ready(Ok(()));
    f.on_fetched(Ok(5), false);
    f.on_finalized(Ok("/p".to_string()));
    f.on_registered(Ok(()));
    let acts = f.on_announced(Err(AppError::Internal("emit".to_string())));
    assert_fails(&acts, "Download failed", false);
}

#[test]
fn events_out_of_order_are_ignored() {
    let mut f = flow();
    assert!(f.on_fetched(Ok(5), false).is_empty());
    assert!(f.on_registered(Ok(())).is_empty());
    assert_eq!(f.phase, DownloadPhase::PreparingDir);
}

#[test]
fn progress_is_throttled() {
    let mut t = ProgressThrottle::new(1000);
    assert_eq!(t.on_progress(10, Some(100), 1050), None);
    assert_eq!(t.on_progress(20, Some(100), 1100), None);
    assert_eq!(t.on_progress(30, Some(100), 1150), Some((30, Some(100))));
    assert_eq!(t.on_progress(40, None, 1200), None);
    assert_eq!(t.on_closed(), Some((40, None)));
    assert_eq!(t.on_closed(), None);
}

#[test]
fn finalized_model_carries_the_given_install_time() {
    let mut f = flow();
    f.on_dir_ready(Ok(()));
    f.on_fetched(Ok(10), false);
    let acts = f.on_finalized_at(Ok("/m/x.gguf".to_string()), 1_700_000_123);
    match &acts[0] {
        DownloadAction::Register(m) => {
            assert_eq!(m.installed_at, 1_700_000_123);
            assert_eq!(m.size_bytes, 10);
            assert!(m.verified);
        }
        other => panic!("{:?}", other),
    }
    assert_eq!(f.phase, DownloadPhase::Registering);
}

#[test]
fn every_ending_of_a_download_drops_its_job_once() {
    let removes = |acts: &[DownloadAction]| {
        acts.iter().filter(|a| matches!(a, DownloadAction::RemoveJob(j) if j == "job-1")).count()
    };
    let mut f = flow();
    let mut total = 0;
    total += removes(&f.on_dir_ready(Ok(())));
    total += removes(&f.on_fetched(Ok(5), false));
    total += removes(&f.on_finalized(Ok("/p".to_string())));
    total += removes(&f.on_registered(Ok(())));
    assert_eq!(total, 0);
    total += removes(&f.on_announced(Ok(())));
    assert_eq!(total, 1);
    assert_eq!(f.phase, DownloadPhase::Finished);
    assert_eq!(removes(&f.on_announced(Ok(()))), 0);

    let mut g = flow();
    assert_eq!(removes(&g.on_dir_ready(Ok(()))), 0);
    assert_eq!(removes(&g.on_fetched(Ok(0), false)), 1);
    assert_eq!(g.phase, DownloadPhase::Finished);
}
