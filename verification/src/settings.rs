//! The settings model: the typed content of settings.json with its defaults.
//!
//! Every key may be missing from the file; a missing key takes its default.
//! Hotkey and recording-mode values are read from their raw spelling: an
//! unknown spelling, or a hotkey that the current platform does not offer,
//! falls back to the default.

use vstd::prelude::*;
use crate::keys::{
    HotkeyId, RecordMode, TargetOs, default_dictate_key, default_rewrite_key, hotkey_choices,
    hotkey_from_name, mode_from_name,
};
use crate::polisher::DEFAULT_STYLE;
use crate::strmap::StrMap;

verus! {

pub fn default_true() -> (r: bool)
    ensures
        r,
{
    true
}

pub fn default_provider() -> (r: String)
    ensures
        r@ == "openai"@,
{
    "openai".to_owned()
}

pub fn default_model() -> (r: String)
    ensures
        r@ == "deepseek-chat"@,
{
    "deepseek-chat".to_owned()
}

pub fn default_base_url() -> (r: String)
    ensures
        r@ == "https://api.deepseek.com"@,
{
    "https://api.deepseek.com".to_owned()
}

/// Request timeout in seconds.
pub fn default_timeout() -> (r: u64)
    ensures
        r == 30,
{
    30
}

/// The default polishing style, the one named by `DEFAULT_STYLE`.
pub fn default_style() -> (r: String)
    ensures
        r@ == DEFAULT_STYLE@,
{
    DEFAULT_STYLE.to_owned()
}

/// History entries kept in memory.
pub fn default_max_items() -> (r: usize)
    ensures
        r == 50,
{
    50
}

/// LLM polishing configuration (the `polish` object).
pub struct PolishConfig {
    /// Dictation polishing switch (voice rewrite ignores it).
    pub enabled: bool,
    /// `openai` (any OpenAI-compatible endpoint) or `anthropic`.
    pub provider: String,
    pub model: String,
    pub api_key: String,
    pub base_url: String,
    /// Per-request timeout in seconds.
    pub timeout: u64,
    /// Global default style name.
    pub style: String,
    /// User styles, style name to system prompt; a name shared with a
    /// built-in style overrides it.
    pub styles: StrMap,
}

/// The polishing configuration of a settings.json without a `polish` key.
pub open spec fn polish_config_is_default(c: PolishConfig) -> bool {
    &&& !c.enabled
    &&& c.provider@ == "openai"@
    &&& c.model@ == "deepseek-chat"@
    &&& c.api_key@.len() == 0
    &&& c.base_url@ == "https://api.deepseek.com"@
    &&& c.timeout == 30
    &&& c.style@ == DEFAULT_STYLE@
    &&& c.styles@.len() == 0
}

impl Default for PolishConfig {
    fn default() -> (r: PolishConfig)
        ensures
            polish_config_is_default(r),
    {
        PolishConfig {
            enabled: false,
            provider: default_provider(),
            model: default_model(),
            api_key: String::new(),
            base_url: default_base_url(),
            timeout: default_timeout(),
            style: default_style(),
            styles: StrMap::new(),
        }
    }
}

/// Input history configuration (the `history` object).
pub struct HistoryConfig {
    pub enabled: bool,
    /// Entries kept in memory (the jsonl file keeps everything).
    pub max_items: usize,
}

impl Default for HistoryConfig {
    fn default() -> (r: HistoryConfig)
        ensures
            r.enabled,
            r.max_items == 50,
    {
        HistoryConfig { enabled: default_true(), max_items: default_max_items() }
    }
}

/// In-memory image of settings.json.
pub struct Settings {
    /// Dictation hotkey.
    pub hotkey: HotkeyId,
    /// Voice rewrite hotkey.
    pub rewrite_hotkey: HotkeyId,
    pub record_mode: RecordMode,
    /// Live transcription preview in the HUD while recording.
    pub live_preview: bool,
    pub polish: PolishConfig,
    /// Frontmost application (identifier or name) to style name.
    pub app_styles: StrMap,
    /// Start / stop sounds.
    pub sounds: bool,
    pub history: HistoryConfig,
    /// Proper nouns fed to the polishing prompt.
    pub hotwords: Vec<String>,
    /// Offline replacement table applied to every transcript.
    pub replacements: StrMap,
}

/// The settings of an empty settings.json on `os`.
pub open spec fn settings_are_default(s: Settings, os: TargetOs) -> bool {
    &&& s.hotkey == default_dictate_key(os)
    &&& s.rewrite_hotkey == default_rewrite_key(os)
    &&& s.record_mode == RecordMode::Toggle
    &&& s.live_preview
    &&& polish_config_is_default(s.polish)
    &&& s.app_styles@.len() == 0
    &&& s.sounds
    &&& s.history.enabled
    &&& s.history.max_items == 50
    &&& s.hotwords@.len() == 0
    &&& s.replacements@.len() == 0
}

impl Settings {
    /// Defaults for every key, with the hotkeys of `os`.
    pub fn defaults(os: TargetOs) -> (r: Settings)
        ensures
            settings_are_default(r, os),
    {
        Settings {
            hotkey: HotkeyId::default_dictate(os),
            rewrite_hotkey: HotkeyId::default_rewrite(os),
            record_mode: RecordMode::default(),
            live_preview: default_true(),
            polish: PolishConfig::default(),
            app_styles: StrMap::new(),
            sounds: default_true(),
            history: HistoryConfig::default(),
            hotwords: Vec::new(),
            replacements: StrMap::new(),
        }
    }

    /// Both channels bound to the same key.
    pub fn hotkeys_conflict(&self) -> (r: bool)
        ensures
            r == (self.hotkey == self.rewrite_hotkey),
    {
        self.hotkey == self.rewrite_hotkey
    }
}

/// The hotkey read from a raw settings.json value: a known spelling offered
/// on `os`, otherwise the default key of the channel.
pub open spec fn hotkey_from_raw(raw: Seq<char>, dictate: bool, os: TargetOs) -> HotkeyId {
    let fallback = if dictate {
        default_dictate_key(os)
    } else {
        default_rewrite_key(os)
    };
    match hotkey_from_name(raw) {
        Some(id) => if hotkey_choices(os).contains(id) {
            id
        } else {
            fallback
        },
        None => fallback,
    }
}

/// Reads the `hotkey` (`dictate`) or `rewrite_hotkey` value. A value that is
/// not a string reaches here as the empty text.
pub fn de_hotkey(raw: &str, dictate: bool, os: TargetOs) -> (r: HotkeyId)
    ensures
        r == hotkey_from_raw(raw@, dictate, os),
{
    let id = match HotkeyId::parse(raw) {
        Some(id) => id,
        None => if dictate {
            HotkeyId::default_dictate(os)
        } else {
            HotkeyId::default_rewrite(os)
        },
    };
    proof {
        crate::keys::law_defaults_are_valid_choices(os);
    }
    if dictate {
        id.valid_or_default_dictate(os)
    } else {
        id.valid_or_default_rewrite(os)
    }
}

/// Reads the `record_mode` value; an unknown spelling gives `toggle`.
pub fn de_record_mode(raw: &str) -> (r: RecordMode)
    ensures
        r == (match mode_from_name(raw@) {
            Some(m) => m,
            None => RecordMode::Toggle,
        }),
{
    match RecordMode::parse(raw) {
        Some(m) => m,
        None => RecordMode::default(),
    }
}

} // verus!
