//! Data directory layout and global constants.
//!
//! ```text
//! <base>/settings.json
//! <base>/models/SenseVoiceSmall-Q8_0.gguf
//! <base>/logs/xiaodao-ime.log
//! <base>/data/history.jsonl
//! ```
//!
//! Paths are texts joined with the platform's separator; the environment
//! overrides (`XIAODAO_HOME`, `XIAODAO_MODEL`, `XIAODAO_BACKEND`,
//! `XIAODAO_LANGUAGE`) are read by the caller and handed in as values.

use vstd::prelude::*;
use crate::text::{blank, is_blank, push_text};

verus! {

/// Model download repository.
pub const MODEL_REPO: &'static str = "handy-computer/SenseVoiceSmall-gguf";
/// Default transcription model (SenseVoice Small, Q8_0).
pub const DEFAULT_MODEL_FILENAME: &'static str = "SenseVoiceSmall-Q8_0.gguf";
/// Recording format: 16 kHz mono.
pub const SAMPLE_RATE: u32 = 16_000;
pub const CHANNELS: u16 = 1;
/// Recordings held for less than this are dropped (ms).
pub const MIN_HOLD_MS: u64 = 400;
/// Two short taps within this window lock a hold recording (ms).
pub const DOUBLE_TAP_WINDOW_MS: u64 = 350;
/// Delay before the clipboard is given back after a paste (ms).
pub const CLIPBOARD_RESTORE_DELAY_MS: u64 = 400;
/// Name of the application data directory.
pub const APP_DIR_NAME: &'static str = "xiaodao-ime";

/// An environment value that counts as set: present and not blank.
pub open spec fn env_choice(value: Option<Seq<char>>) -> Option<Seq<char>> {
    match value {
        Some(v) => if is_blank(v) {
            None
        } else {
            Some(v)
        },
        None => None,
    }
}

pub open spec fn opt_str(o: Option<&str>) -> Option<Seq<char>> {
    match o {
        Some(s) => Some(s@),
        None => None,
    }
}

/// An environment value, unless it is missing or blank.
pub fn non_empty_env(value: Option<&str>) -> (r: Option<String>)
    ensures
        crate::context::opt_text(r) == env_choice(opt_str(value)),
{
    match value {
        Some(v) => if blank(v) {
            None
        } else {
            Some(v.to_owned())
        },
        None => None,
    }
}

/// Model file name: `XIAODAO_MODEL` (`env_value`) when set, else the
/// default model.
pub fn model_filename(env_value: Option<&str>) -> (r: String)
    ensures
        r@ == (match env_choice(opt_str(env_value)) {
            Some(v) => v,
            None => DEFAULT_MODEL_FILENAME@,
        }),
{
    match non_empty_env(env_value) {
        Some(v) => v,
        None => DEFAULT_MODEL_FILENAME.to_owned(),
    }
}

/// Transcription backend: `XIAODAO_BACKEND` when set, else `auto` (best
/// device, Metal on Apple Silicon).
pub fn transcribe_backend(env_value: Option<&str>) -> (r: String)
    ensures
        r@ == (match env_choice(opt_str(env_value)) {
            Some(v) => v,
            None => "auto"@,
        }),
{
    match non_empty_env(env_value) {
        Some(v) => v,
        None => "auto".to_owned(),
    }
}

/// Transcription language: `XIAODAO_LANGUAGE` when set (e.g. `zh` forces
/// Chinese), else automatic detection (`None`).
pub fn transcribe_language(env_value: Option<&str>) -> (r: Option<String>)
    ensures
        crate::context::opt_text(r) == env_choice(opt_str(env_value)),
{
    non_empty_env(env_value)
}

/// `base` joined with the relative name `part`: a separator goes between
/// them unless `base` is empty or already ends with one.
pub open spec fn join_spec(base: Seq<char>, part: Seq<char>, sep: char) -> Seq<char> {
    if base.len() == 0 {
        part
    } else if base.last() == sep {
        base + part
    } else {
        base.push(sep) + part
    }
}

/// Joins a relative name to a directory path.
pub fn join(base: &str, part: &str, sep: char) -> (r: String)
    ensures
        r@ == join_spec(base@, part@, sep),
{
    let v = crate::text::chars_of(base);
    let mut out = base.to_owned();
    if v.len() > 0 && v[v.len() - 1] != sep {
        let one = crate::text::string_of_range(&vec![sep], 0, 1);
        push_text(&mut out, one.as_str());
        assert(out@ =~= base@.push(sep));
    }
    push_text(&mut out, part);
    out
}

/// Every data path.
pub struct Paths {
    /// Data root.
    pub base_dir: String,
    pub models_dir: String,
    pub logs_dir: String,
    /// `logs/xiaodao-ime.log`
    pub log_file: String,
    pub data_dir: String,
    /// `data/history.jsonl`
    pub history_file: String,
    /// `settings.json`
    pub settings_file: String,
    /// `models/<model file>`
    pub model_path: String,
}

/// The layout under `base` for model file `model`.
pub open spec fn layout_spec(p: Paths, base: Seq<char>, model: Seq<char>, sep: char) -> bool {
    let models = join_spec(base, "models"@, sep);
    let logs = join_spec(base, "logs"@, sep);
    let data = join_spec(base, "data"@, sep);
    &&& p.base_dir@ == base
    &&& p.models_dir@ == models
    &&& p.logs_dir@ == logs
    &&& p.data_dir@ == data
    &&& p.log_file@ == join_spec(logs, "xiaodao-ime.log"@, sep)
    &&& p.history_file@ == join_spec(data, "history.jsonl"@, sep)
    &&& p.settings_file@ == join_spec(base, "settings.json"@, sep)
    &&& p.model_path@ == join_spec(models, model, sep)
}

/// Where the data root is: `XIAODAO_HOME` when set; else the system data
/// directory (`~/Library/Application Support`, `%APPDATA%`) joined with
/// [`APP_DIR_NAME`]; else the fallback root joined with it; else unknown.
pub open spec fn base_dir_spec(
    home: Option<Seq<char>>,
    system_data_dir: Option<Seq<char>>,
    fallback_root: Option<Seq<char>>,
    sep: char,
) -> Option<Seq<char>> {
    match env_choice(home) {
        Some(h) => Some(h),
        None => match system_data_dir {
            Some(d) => Some(join_spec(d, APP_DIR_NAME@, sep)),
            None => match fallback_root {
                Some(f) => Some(join_spec(f, APP_DIR_NAME@, sep)),
                None => None,
            },
        },
    }
}

/// Chooses the data root.
pub fn default_base_dir(
    home: Option<&str>,
    system_data_dir: Option<&str>,
    fallback_root: Option<&str>,
    sep: char,
) -> (r: Option<String>)
    ensures
        crate::context::opt_text(r) == base_dir_spec(
            opt_str(home),
            opt_str(system_data_dir),
            opt_str(fallback_root),
            sep,
        ),
{
    match non_empty_env(home) {
        Some(h) => Some(h),
        None => match system_data_dir {
            Some(d) => Some(join(d, APP_DIR_NAME, sep)),
            None => match fallback_root {
                Some(f) => Some(join(f, APP_DIR_NAME, sep)),
                None => None,
            },
        },
    }
}

impl Paths {
    /// The paths under `base_dir`, without touching the disk.
    pub fn layout(base_dir: &str, model_file: &str, sep: char) -> (r: Paths)
        ensures
            layout_spec(r, base_dir@, model_file@, sep),
    {
        let models_dir = join(base_dir, "models", sep);
        let logs_dir = join(base_dir, "logs", sep);
        let data_dir = join(base_dir, "data", sep);
        Paths {
            log_file: join(logs_dir.as_str(), "xiaodao-ime.log", sep),
            history_file: join(data_dir.as_str(), "history.jsonl", sep),
            settings_file: join(base_dir, "settings.json", sep),
            model_path: join(models_dir.as_str(), model_file, sep),
            models_dir,
            logs_dir,
            data_dir,
            base_dir: base_dir.to_owned(),
        }
    }

    /// The layout under the chosen data root (see [`default_base_dir`]);
    /// `None` when no root can be determined.
    pub fn resolve(
        home: Option<&str>,
        system_data_dir: Option<&str>,
        fallback_root: Option<&str>,
        model_file: &str,
        sep: char,
    ) -> (r: Option<Paths>)
        ensures
            match r {
                Some(p) => base_dir_spec(
                    opt_str(home),
                    opt_str(system_data_dir),
                    opt_str(fallback_root),
                    sep,
                ) == Some(p.base_dir@) && layout_spec(p, p.base_dir@, model_file@, sep),
                None => base_dir_spec(
                    opt_str(home),
                    opt_str(system_data_dir),
                    opt_str(fallback_root),
                    sep,
                ) is None,
            },
    {
        match default_base_dir(home, system_data_dir, fallback_root, sep) {
            Some(base) => Some(Paths::layout(base.as_str(), model_file, sep)),
            None => None,
        }
    }

    pub fn base_dir(&self) -> (r: &str)
        ensures
            r@ == self.base_dir@,
    {
        self.base_dir.as_str()
    }
}

} // verus!
