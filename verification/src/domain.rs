//! The records the application passes around: catalog entries, installed
//! models, history items, settings and requests.
use vstd::prelude::*;
use vstd::string::StringExecFns;

use crate::text::copy_string;

verus! {

/// A model is known by `"{repo_id}::{filename}"`.
pub type ModelKey = String;

/// One model repository as the catalog lists it.
#[derive(Debug)]
pub struct HfModelSummary {
    pub repo_id: String,
    pub description: Option<String>,
    pub likes: Option<u64>,
    pub downloads: Option<u64>,
}

/// One downloadable file of a repository.
#[derive(Debug)]
pub struct HfFile {
    pub rfilename: String,
    pub size: Option<u64>,
    pub sha256: Option<String>,
}

/// Where a model stands on this machine.
#[derive(Debug, Clone, Copy, PartialEq, Eq, Structural)]
pub enum ModelState {
    NotInstalled,
    Downloading,
    Verifying,
    Installed,
    Corrupt,
}

/// A model file that was downloaded, checked and registered.
#[derive(Debug)]
pub struct InstalledModel {
    pub model_key: ModelKey,
    pub repo_id: String,
    pub filename: String,
    pub local_path: String,
    pub size_bytes: u64,
    pub verified: bool,
    pub installed_at: i64,
}

impl InstalledModel {
    /// A copy of this record.
    pub fn duplicate(&self) -> (r: InstalledModel)
        ensures
            r == *self,
    {
        InstalledModel {
            model_key: copy_string(&self.model_key),
            repo_id: copy_string(&self.repo_id),
            filename: copy_string(&self.filename),
            local_path: copy_string(&self.local_path),
            size_bytes: self.size_bytes,
            verified: self.verified,
            installed_at: self.installed_at,
        }
    }
}

/// The phases of one generation run.
#[derive(Debug, Clone, Copy, PartialEq, Eq, Structural)]
pub enum GenState {
    Idle,
    Preparing,
    Generating,
    Done,
    Failed,
    Cancelled,
}

/// A request to download one file of one repository.
#[derive(Debug)]
pub struct DownloadRequest {
    pub repo_id: String,
    pub filename: String,
}

/// The answer to a request that started a background job.
#[derive(Debug)]
pub struct JobStarted {
    pub job_id: String,
}

/// The user's settings.
#[derive(Debug)]
pub struct Settings {
    pub hf_token: Option<String>,
    pub default_repo_id: String,
    pub default_quant_hint: String,
}

impl Default for Settings {
    /// No token, the Phi-3 mini GGUF repository and the Q5 quantization.
    fn default() -> (r: Settings)
        ensures
            r.hf_token is None,
            r.default_repo_id@ == "bartowski/Phi-3-mini-4k-instruct-v0.3-GGUF"@,
            r.default_quant_hint@ == "Q5"@,
    {
        Settings {
            hf_token: None,
            default_repo_id: String::from_str("bartowski/Phi-3-mini-4k-instruct-v0.3-GGUF"),
            default_quant_hint: String::from_str("Q5"),
        }
    }
}

/// One past generation as the history list shows it.
#[derive(Debug)]
pub struct HistoryItemSummary {
    pub id: String,
    pub created_at: i64,
    pub model_key: ModelKey,
    pub repo_id: String,
    pub filename: String,
    pub prompt_preview: String,
    pub output_preview: String,
    pub total_tokens: Option<u32>,
}

/// One past generation in full; the sampling parameters are kept as JSON.
#[derive(Debug)]
pub struct HistoryItemDetail {
    pub id: String,
    pub created_at: i64,
    pub model_key: ModelKey,
    pub repo_id: String,
    pub filename: String,
    pub prompt: String,
    pub output: String,
    pub params_json: String,
    pub prompt_tokens: Option<u32>,
    pub completion_tokens: Option<u32>,
    pub total_tokens: Option<u32>,
}

/// A request to write text to a file in the exports folder.
#[derive(Debug)]
pub struct ExportRequest {
    pub filename_hint: String,
    pub content: String,
}

/// Where an export was written.
#[derive(Debug)]
pub struct ExportResult {
    pub path: String,
}

/// Token counts that the model reported for one generation.
#[derive(Debug, Clone, Copy, PartialEq, Eq, Structural)]
pub struct GenUsage {
    pub prompt_tokens: Option<u32>,
    pub completion_tokens: Option<u32>,
    pub total_tokens: Option<u32>,
}

} // verus!
