//! What the backend tells the user interface, and on which channel.
use vstd::prelude::*;

use vstd::string::StringExecFns;

use crate::domain::{GenState, ModelState};
use crate::text::opt_view;

verus! {

pub const EVENT_DOWNLOAD_PROGRESS: &'static str = "landry://download/progress";

pub const EVENT_DOWNLOAD_DONE: &'static str = "landry://download/done";

pub const EVENT_GEN_TOKEN: &'static str = "landry://gen/token";

pub const EVENT_GEN_DONE: &'static str = "landry://gen/done";

pub const EVENT_TOAST_ERROR: &'static str = "landry://toast/error";

pub const EVENT_TOAST_INFO: &'static str = "landry://toast/info";

/// How far a download has come; the user interface adds the percentage.
#[derive(Debug)]
pub struct DownloadProgressReport {
    pub job_id: String,
    pub repo_id: String,
    pub filename: String,
    pub bytes_downloaded: u64,
    pub total_bytes: Option<u64>,
    pub state: ModelState,
}

/// A download finished and the model is registered.
#[derive(Debug)]
pub struct DownloadDoneEvent {
    pub job_id: String,
    pub model_key: String,
    pub repo_id: String,
    pub filename: String,
    pub local_path: String,
    pub size_bytes: u64,
    pub verified: bool,
}

/// A chunk of generated text.
#[derive(Debug)]
pub struct GenTokenEvent {
    pub job_id: String,
    pub chunk: String,
    pub total_chars: u64,
    pub elapsed_ms: u64,
    pub state: GenState,
}

/// A generation ended: done, cancelled or failed.
#[derive(Debug)]
pub struct GenDoneEvent {
    pub job_id: String,
    pub session_id: Option<String>,
    pub total_chars: u64,
    pub prompt_tokens: Option<u32>,
    pub completion_tokens: Option<u32>,
    pub total_tokens: Option<u32>,
    pub state: GenState,
}

/// A short notice for the user.
#[derive(Debug)]
pub struct ToastEvent {
    pub title: String,
    pub message: String,
    pub detail: Option<String>,
    pub remediation: Option<String>,
    pub kind: String,
}

/// One message to the user interface.
#[derive(Debug)]
pub enum UiEvent {
    DownloadProgress(DownloadProgressReport),
    DownloadDone(DownloadDoneEvent),
    GenToken(GenTokenEvent),
    GenDone(GenDoneEvent),
    ToastError(ToastEvent),
    ToastInfo(ToastEvent),
}

impl UiEvent {
    /// The channel name an event goes out on.
    pub open spec fn channel_view(&self) -> Seq<char> {
        match self {
            UiEvent::DownloadProgress(_) => EVENT_DOWNLOAD_PROGRESS@,
            UiEvent::DownloadDone(_) => EVENT_DOWNLOAD_DONE@,
            UiEvent::GenToken(_) => EVENT_GEN_TOKEN@,
            UiEvent::GenDone(_) => EVENT_GEN_DONE@,
            UiEvent::ToastError(_) => EVENT_TOAST_ERROR@,
            UiEvent::ToastInfo(_) => EVENT_TOAST_INFO@,
        }
    }

    /// The channel name this event goes out on.
    pub fn channel(&self) -> (r: &'static str)
        ensures
            r@ == self.channel_view(),
    {
        match self {
            UiEvent::DownloadProgress(_) => EVENT_DOWNLOAD_PROGRESS,
            UiEvent::DownloadDone(_) => EVENT_DOWNLOAD_DONE,
            UiEvent::GenToken(_) => EVENT_GEN_TOKEN,
            UiEvent::GenDone(_) => EVENT_GEN_DONE,
            UiEvent::ToastError(_) => EVENT_TOAST_ERROR,
            UiEvent::ToastInfo(_) => EVENT_TOAST_INFO,
        }
    }
}

/// `t` is the toast with these texts.
pub open spec fn toast_is(
    t: ToastEvent,
    title: Seq<char>,
    message: Seq<char>,
    detail: Option<Seq<char>>,
    remediation: Option<Seq<char>>,
    kind: Seq<char>,
) -> bool {
    &&& t.title@ == title
    &&& t.message@ == message
    &&& opt_view(t.detail) == detail
    &&& opt_view(t.remediation) == remediation
    &&& t.kind@ == kind
}

/// Builds a toast from its texts.
pub fn make_toast(
    title: &str,
    message: String,
    detail: Option<String>,
    remediation: Option<&str>,
    kind: &str,
) -> (t: ToastEvent)
    ensures
        t.title@ == title@,
        t.message == message,
        t.detail == detail,
        opt_view(t.remediation) == match remediation {
            Some(r) => Some(r@),
            None => None,
        },
        t.kind@ == kind@,
{
    let remediation = match remediation {
        Some(r) => Some(String::from_str(r)),
        None => None,
    };
    ToastEvent { title: String::from_str(title), message, detail, remediation, kind: String::from_str(kind) }
}

} // verus!
