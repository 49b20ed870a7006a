use landry::domain::{GenState, ModelState};
use landry::events::{
    make_toast, DownloadProgressReport, GenDoneEvent, UiEvent, EVENT_DOWNLOAD_PROGRESS,
    EVENT_GEN_DONE, EVENT_TOAST_ERROR, EVENT_TOAST_INFO,
};
use landry::error::{to_err, AppError, ErrorEnvelope};
use landry::text::{
    concat3, contains, decimal_string, ends_with, is_blank, replace_slash_with_dashes, same_text,
    trim, truncate_preview, white_space,
};

#[test]
fn trim_strips_unicode_whitespace_on_both_sides() {
    assert_eq!(trim("  hello world \t\n"), "hello world");
    assert_eq!(trim("\u{3000}\u{a0}x\u{2028}"), "x");
    assert_eq!(trim("   "), "");
    assert_eq!(trim(""), "");
    assert_eq!(trim("a b"), "a b");
}

#[test]
fn trim_agrees_with_std() {
    for s in ["", " ", " a ", "\u{85}b\u{85}", "\u{200b}c", "\u{1680}\u{205f}d e\u{202f}", "\u{feff}x"] {
        assert_eq!(trim(s), s.trim(), "{:?}", s);
    }
}

#[test]
fn whitespace_table_agrees_with_std() {
    for u in 0u32..0x3100 {
        if let Some(c) = char::from_u32(u) {
            assert_eq!(white_space(c), c.is_whitespace(), "U+{:04X}", u);
        }
    }
}

#[test]
fn blank_strings() {
    assert!(is_blank(""));
    assert!(is_blank(" \t\r\n"));
    assert!(!is_blank(" a "));
}

#[test]
fn preview_cuts_with_ellipsis() {
    assert_eq!(truncate_preview("hello", 3), "hel…");
    assert_eq!(truncate_preview("hello", 5), "hello");
    assert_eq!(truncate_preview("hello", 10), "hello");
    assert_eq!(truncate_preview("héllo wörld", 4), "héll…");
    assert_eq!(truncate_preview("", 0), "");
    assert_eq!(truncate_preview("ab", 0), "…");
}

#[test]
fn substring_tests() {
    assert!(contains("x/phi-3-mini-4k-instruct-gguf", "phi-3-mini-4k-instruct"));
    assert!(!contains("phi-3-mini", "phi-3-mini-4k"));
    assert!(contains("abc", ""));
    assert!(ends_with("model.q5.gguf", ".gguf"));
    assert!(!ends_with("gguf", ".gguf"));
    assert!(ends_with("", ""));
}

#[test]
fn decimal_rendering() {
    assert_eq!(decimal_string(0), "0");
    assert_eq!(decimal_string(25), "25");
    assert_eq!(decimal_string(100), "100");
    assert_eq!(decimal_string(u64::MAX), u64::MAX.to_string());
}

#[test]
fn slashes_become_double_dashes() {
    assert_eq!(replace_slash_with_dashes("bartowski/Phi-3"), "bartowski--Phi-3");
    assert_eq!(replace_slash_with_dashes("a//b/"), "a----b--");
    assert_eq!(replace_slash_with_dashes("plain"), "plain");
}

#[test]
fn text_equality_and_concatenation() {
    assert!(same_text("abc", "abc"));
    assert!(!same_text("abc", "abd"));
    assert!(!same_text("abc", "ab"));
    assert_eq!(concat3("a", "::", "b"), "a::b");
}

#[test]
fn error_messages_follow_their_kind() {
    assert_eq!(AppError::InvalidInput("x".to_string()).message(), "Invalid input: x");
    assert_eq!(AppError::Cancelled.message(), "Cancelled");
    assert_eq!(AppError::Network("down".to_string()).message(), "Network error: down");
    assert_eq!(AppError::Fs("gone".to_string()).message(), "Filesystem error: gone");
    assert_eq!(AppError::Db("locked".to_string()).message(), "Database error: locked");
    assert_eq!(AppError::Inference("oom".to_string()).message(), "Inference error: oom");
    assert_eq!(AppError::Internal("bug".to_string()).message(), "Internal error: bug");
    assert_eq!(to_err(&AppError::Cancelled), "Cancelled");
}

#[test]
fn error_envelopes() {
    let e = ErrorEnvelope::simple("Oops".to_string());
    assert_eq!(e.message, "Oops");
    assert!(e.detail.is_none() && e.remediation.is_none());
    let e = ErrorEnvelope::with_detail("Oops".to_string(), "why".to_string(), Some("fix".to_string()));
    assert_eq!(e.detail.as_deref(), Some("why"));
    assert_eq!(e.remediation.as_deref(), Some("fix"));
}

#[test]
fn event_channels() {
    assert_eq!(EVENT_DOWNLOAD_PROGRESS, "landry://download/progress");
    let p = UiEvent::DownloadProgress(DownloadProgressReport {
        job_id: String::new(),
        repo_id: String::new(),
        filename: String::new(),
        bytes_downloaded: 0,
        total_bytes: None,
        state: ModelState::Downloading,
    });
    assert_eq!(p.channel(), "landry://download/progress");
    let d = UiEvent::GenDone(GenDoneEvent {
        job_id: String::new(),
        session_id: None,
        total_chars: 0,
        prompt_tokens: None,
        completion_tokens: None,
        total_tokens: None,
        state: GenState::Done,
    });
    assert_eq!(d.channel(), EVENT_GEN_DONE);
    assert_eq!(d.channel(), "landry://gen/done");
    let t = make_toast("T", "m".to_string(), None, Some("r"), "info");
    assert_eq!(t.remediation.as_deref(), Some("r"));
    assert_eq!(UiEvent::ToastInfo(t).channel(), EVENT_TOAST_INFO);
    assert_eq!(EVENT_TOAST_ERROR, "landry://toast/error");
}
