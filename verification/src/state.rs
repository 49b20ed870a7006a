//! Where the application keeps its files.
use vstd::prelude::*;

verus! {

/// The folder for downloaded models, inside the application's data folder.
pub const MODELS_DIR_NAME: &'static str = "models";

/// The folder for exported text, inside the application's data folder.
pub const EXPORTS_DIR_NAME: &'static str = "exports";

/// The database file, inside the application's data folder.
pub const DB_FILE_NAME: &'static str = "landry.sqlite";

/// The settings file, inside the application's data folder.
pub const SETTINGS_FILE_NAME: &'static str = "settings.json";

/// The application's folders and files.
#[derive(Debug)]
pub struct AppPaths {
    pub app_data_dir: String,
    pub models_dir: String,
    pub exports_dir: String,
    pub db_path: String,
    pub settings_path: String,
}

} // verus!
