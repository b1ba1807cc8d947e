//! Core library of the Xiaodao voice input method: hotkey state machine,
//! dictation / rewrite pipelines, text rules, settings model and history.

pub mod text;
pub mod keys;
pub mod types;
pub mod strmap;
pub mod hotkey;
pub mod hotkey_laws;
pub mod context;
pub mod settings;
pub mod polisher;
pub mod hud;
pub mod pipeline;
pub mod paster;
pub mod history;
pub mod paths;
pub mod model_download;
pub mod menu;
pub mod json_tree;
pub mod commands;
pub mod laws;
pub mod permissions;
pub mod platform;
