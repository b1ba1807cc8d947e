//! Helpers behind the settings page: where the settings file and the log
//! live, the document the page edits (the stored settings.json deep-merged
//! over the defaults), and the hotkeys offered on the current platform.

use vstd::prelude::*;
use crate::keys::{HotkeyId, TargetOs, hotkey_choices, hotkey_label, hotkey_name};
use crate::paths::{APP_DIR_NAME, env_choice, join, join_spec, non_empty_env, opt_str};
use crate::text::push_text;
use crate::json_tree::{
    JsonModel, JsonTree, empty_object, lemma_object_model, leaf, members_model, merge,
    merge_model, push_member, quoted, string_leaf,
};
use crate::keys::{default_dictate_key, default_rewrite_key, RecordMode};
use crate::polisher::DEFAULT_STYLE;

verus! {

/// The data directory: `XIAODAO_HOME` when set; on macOS
/// `$HOME/Library/Application Support/xiaodao-ime`; elsewhere
/// `%APPDATA%` (else `$HOME`, else nothing) joined with `xiaodao-ime`.
pub open spec fn data_dir_spec(
    xiaodao_home: Option<Seq<char>>,
    home: Option<Seq<char>>,
    appdata: Option<Seq<char>>,
    os: TargetOs,
    sep: char,
) -> Seq<char> {
    match env_choice(xiaodao_home) {
        Some(h) => h,
        None => if os == TargetOs::MacOs {
            let h = match home {
                Some(h) => h,
                None => Seq::empty(),
            };
            join_spec(join_spec(h, "Library/Application Support"@, sep), APP_DIR_NAME@, sep)
        } else {
            let base = match appdata {
                Some(a) => a,
                None => match home {
                    Some(h) => h,
                    None => Seq::empty(),
                },
            };
            join_spec(base, APP_DIR_NAME@, sep)
        },
    }
}

/// Chooses the data directory from the environment values.
pub fn data_dir(
    xiaodao_home: Option<&str>,
    home: Option<&str>,
    appdata: Option<&str>,
    os: TargetOs,
    sep: char,
) -> (r: String)
    ensures
        r@ == data_dir_spec(opt_str(xiaodao_home), opt_str(home), opt_str(appdata), os, sep),
{
    proof {
        reveal_strlit("");
    }
    match non_empty_env(xiaodao_home) {
        Some(h) => h,
        None => if os == TargetOs::MacOs {
            let h = match home {
                Some(h) => h,
                None => "",
            };
            let support = join(h, "Library/Application Support", sep);
            join(support.as_str(), APP_DIR_NAME, sep)
        } else {
            let base = match appdata {
                Some(a) => a,
                None => match home {
                    Some(h) => h,
                    None => "",
                },
            };
            join(base, APP_DIR_NAME, sep)
        },
    }
}

/// `<data>/settings.json`
pub fn settings_path(data_dir: &str, sep: char) -> (r: String)
    ensures
        r@ == join_spec(data_dir@, "settings.json"@, sep),
{
    join(data_dir, "settings.json", sep)
}

/// `<data>/logs/xiaodao-ime.log`
pub fn log_file(data_dir: &str, sep: char) -> (r: String)
    ensures
        r@ == join_spec(join_spec(data_dir@, "logs"@, sep), "xiaodao-ime.log"@, sep),
{
    let logs = join(data_dir, "logs", sep);
    join(logs.as_str(), "xiaodao-ime.log", sep)
}

/// The `polish` object of the defaults.
pub open spec fn polish_defaults_model() -> JsonModel {
    JsonModel::Object(
        seq![
            ("enabled"@, JsonModel::Leaf("false"@)),
            ("provider"@, JsonModel::Leaf(quoted("openai"@))),
            ("model"@, JsonModel::Leaf(quoted("deepseek-chat"@))),
            ("api_key"@, JsonModel::Leaf(quoted(""@))),
            ("base_url"@, JsonModel::Leaf(quoted("https://api.deepseek.com"@))),
            ("timeout"@, JsonModel::Leaf("30"@)),
            ("style"@, JsonModel::Leaf(quoted(DEFAULT_STYLE@))),
            ("styles"@, JsonModel::Object(Seq::empty())),
        ],
    )
}

/// The `history` object of the defaults.
pub open spec fn history_defaults_model() -> JsonModel {
    JsonModel::Object(
        seq![("enabled"@, JsonModel::Leaf("true"@)), ("max_items"@, JsonModel::Leaf("50"@))],
    )
}

/// The document of a settings.json without any key: every setting at its
/// default, with the page's empty `styles`, `app_styles`, `hotwords` and
/// `replacements`.
pub open spec fn defaults_model(os: TargetOs) -> JsonModel {
    JsonModel::Object(
        seq![
            ("hotkey"@, JsonModel::Leaf(quoted(hotkey_name(default_dictate_key(os))))),
            ("rewrite_hotkey"@, JsonModel::Leaf(quoted(hotkey_name(default_rewrite_key(os))))),
            ("record_mode"@, JsonModel::Leaf(quoted("toggle"@))),
            ("live_preview"@, JsonModel::Leaf("true"@)),
            ("polish"@, polish_defaults_model()),
            ("app_styles"@, JsonModel::Object(Seq::empty())),
            ("sounds"@, JsonModel::Leaf("true"@)),
            ("history"@, history_defaults_model()),
            ("hotwords"@, JsonModel::Leaf("[]"@)),
            ("replacements"@, JsonModel::Object(Seq::empty())),
        ],
    )
}

/// The `polish` object of the defaults.
fn polish_defaults() -> (r: JsonTree)
    ensures
        r.model() == polish_defaults_model(),
{
    let mut m: Vec<(String, JsonTree)> = Vec::new();
    push_member(&mut m, "enabled", leaf("false"));
    push_member(&mut m, "provider", string_leaf("openai"));
    push_member(&mut m, "model", string_leaf("deepseek-chat"));
    push_member(&mut m, "api_key", string_leaf(""));
    push_member(&mut m, "base_url", string_leaf("https://api.deepseek.com"));
    push_member(&mut m, "timeout", leaf("30"));
    push_member(&mut m, "style", string_leaf(DEFAULT_STYLE));
    push_member(&mut m, "styles", empty_object());
    proof {
        lemma_object_model(m);
        assert(members_model(m@) =~= polish_defaults_model()->Object_0);
    }
    JsonTree::Object(m)
}

/// The `history` object of the defaults.
fn history_defaults() -> (r: JsonTree)
    ensures
        r.model() == history_defaults_model(),
{
    let mut m: Vec<(String, JsonTree)> = Vec::new();
    push_member(&mut m, "enabled", leaf("true"));
    push_member(&mut m, "max_items", leaf("50"));
    proof {
        lemma_object_model(m);
        assert(members_model(m@) =~= history_defaults_model()->Object_0);
    }
    JsonTree::Object(m)
}

/// The settings document with every value at its default.
pub fn defaults(os: TargetOs) -> (r: JsonTree)
    ensures
        r.model() == defaults_model(os),
{
    let mut m: Vec<(String, JsonTree)> = Vec::new();
    push_member(&mut m, "hotkey", string_leaf(HotkeyId::default_dictate(os).as_str()));
    push_member(&mut m, "rewrite_hotkey", string_leaf(HotkeyId::default_rewrite(os).as_str()));
    push_member(&mut m, "record_mode", string_leaf(RecordMode::Toggle.as_str()));
    push_member(&mut m, "live_preview", leaf("true"));
    push_member(&mut m, "polish", polish_defaults());
    push_member(&mut m, "app_styles", empty_object());
    push_member(&mut m, "sounds", leaf("true"));
    push_member(&mut m, "history", history_defaults());
    push_member(&mut m, "hotwords", leaf("[]"));
    push_member(&mut m, "replacements", empty_object());
    proof {
        lemma_object_model(m);
        assert(members_model(m@) =~= defaults_model(os)->Object_0);
    }
    JsonTree::Object(m)
}

/// The document the settings page edits: the stored settings.json merged
/// over the defaults; the defaults alone when there is no file or it does
/// not parse (`stored` is then `None`).
pub fn get_settings(stored: Option<JsonTree>, os: TargetOs) -> (r: JsonTree)
    ensures
        r.model() == match stored {
            Some(v) => merge_model(defaults_model(os), v.model()),
            None => defaults_model(os),
        },
{
    match stored {
        Some(v) => merge(&defaults(os), &v),
        None => defaults(os),
    }
}

/// The log line of a privacy pane request.
pub fn log_privacy_section(section: &str) -> (r: String)
    ensures
        r@ == "请求打开系统隐私设置："@ + section@ + "（应用壳阶段仅打日志）"@,
{
    let mut line = "请求打开系统隐私设置：".to_owned();
    push_text(&mut line, section);
    push_text(&mut line, "（应用壳阶段仅打日志）");
    line
}

/// A hotkey offered by the settings page: its settings.json value and its
/// label.
pub struct HotkeyChoice {
    pub id: &'static str,
    pub label: &'static str,
}

/// The hotkeys of the current platform, in drop-down order.
pub fn get_hotkey_choices(os: TargetOs) -> (r: Vec<HotkeyChoice>)
    ensures
        r@.len() == hotkey_choices(os).len(),
        forall|i: int|
            0 <= i < r@.len() ==> (#[trigger] r@[i]).id@ == hotkey_name(hotkey_choices(os)[i])
                && r@[i].label@ == hotkey_label(hotkey_choices(os)[i], os),
{
    let keys = HotkeyId::choices(os);
    let mut out: Vec<HotkeyChoice> = Vec::new();
    let mut i: usize = 0;
    while i < keys.len()
        invariant
            keys@ == hotkey_choices(os),
            i <= keys@.len(),
            out@.len() == i,
            forall|j: int|
                0 <= j < i ==> (#[trigger] out@[j]).id@ == hotkey_name(hotkey_choices(os)[j])
                    && out@[j].label@ == hotkey_label(hotkey_choices(os)[j], os),
        decreases keys@.len() - i,
    {
        let k = keys[i];
        out.push(HotkeyChoice { id: k.as_str(), label: k.display(os) });
        i = i + 1;
    }
    out
}

} // verus!
