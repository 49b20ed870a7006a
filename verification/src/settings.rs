//! The settings file: where it lives and how reading it turns out.
use vstd::prelude::*;

use crate::domain::Settings;
use crate::error::AppError;
use crate::text::concat2;

verus! {

/// The settings as JSON in one file.
#[derive(Debug)]
pub struct JsonSettingsStore {
    pub path: String,
}

impl JsonSettingsStore {
    /// A store for the settings file at `path`.
    pub fn new(path: String) -> (r: JsonSettingsStore)
        ensures
            r.path == path,
    {
        JsonSettingsStore { path }
    }
}

/// How reading the settings file went.
#[derive(Debug)]
pub enum SettingsFile {
    /// The file was read and holds these settings.
    Parsed(Settings),
    /// The file was read but is not valid settings JSON; the parser said this.
    Malformed(String),
    /// There is no settings file.
    Missing,
    /// The file could not be read; the system said this.
    Unreadable(String),
}

/// `s` holds the default settings.
pub open spec fn is_default_settings(s: Settings) -> bool {
    &&& s.hf_token is None
    &&& s.default_repo_id@ == "bartowski/Phi-3-mini-4k-instruct-v0.3-GGUF"@
    &&& s.default_quant_hint@ == "Q5"@
}

/// The settings a read gives: what the file holds, the defaults when there
/// is no file, and a filesystem error otherwise.
pub fn settings_from_file(f: SettingsFile) -> (r: Result<Settings, AppError>)
    ensures
        match f {
            SettingsFile::Parsed(s) => r == Ok::<Settings, AppError>(s),
            SettingsFile::Missing => r matches Ok(s) && is_default_settings(s),
            SettingsFile::Malformed(e) => r matches Err(AppError::Fs(m)) && m@
                == "Invalid settings.json: "@ + e@,
            SettingsFile::Unreadable(e) => r == Err::<Settings, AppError>(AppError::Fs(e)),
        },
{
    match f {
        SettingsFile::Parsed(s) => Ok(s),
        SettingsFile::Missing => Ok(Settings::default()),
        SettingsFile::Malformed(e) => Err(AppError::Fs(concat2("Invalid settings.json: ", e.as_str()))),
        SettingsFile::Unreadable(e) => Err(AppError::Fs(e)),
    }
}

/// The settings loaded at start-up: the defaults when loading failed.
pub fn settings_or_default(loaded: Result<Settings, AppError>) -> (r: Settings)
    ensures
        match loaded {
            Ok(s) => r == s,
            Err(_) => is_default_settings(r),
        },
{
    match loaded {
        Ok(s) => s,
        Err(_) => Settings::default(),
    }
}

} // verus!
