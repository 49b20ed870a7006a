//! The verified core of a desktop prompt playground for local GGUF models:
//! catalog and download planning, the model registry and history records,
//! the job table, the generation session and the streaming chunker.
pub mod catalog;
pub mod clock;
pub mod domain;
pub mod download;
pub mod error;
pub mod events;
pub mod exports;
pub mod generation;
pub mod hf;
pub mod inference;
pub mod jobs;
pub mod settings;
pub mod state;
pub mod store;
pub mod text;
