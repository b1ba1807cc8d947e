use xiaodao_core::commands::{data_dir, get_hotkey_choices, log_file, log_privacy_section, settings_path};
use xiaodao_core::context::{is_style_off, pick_style};
use xiaodao_core::hud::{head, hint_text, placeholder, tail};
use xiaodao_core::keys::{map_key, HotkeyId, KeyKind, RawKey, RecordMode, TargetOs, MAC_F19_KEYCODE};
use xiaodao_core::model_download::{
    after_attempt, check_transfer, endpoints, existing_model_usable, first_source, model_url,
    model_urls, needs_final_report, part_path, should_report, FallbackStep, TransferError,
    HF_MIRROR, HF_OFFICIAL, MIN_MODEL_BYTES, PROGRESS_MIN_BYTES,
};
use xiaodao_core::paths::{
    model_filename, transcribe_backend, transcribe_language, Paths, CHANNELS,
    CLIPBOARD_RESTORE_DELAY_MS, DOUBLE_TAP_WINDOW_MS, MIN_HOLD_MS, MODEL_REPO, SAMPLE_RATE,
};
use xiaodao_core::strmap::StrMap;
use xiaodao_core::types::Channel;

fn map_of(pairs: &[(&str, &str)]) -> StrMap {
    let mut m = StrMap::new();
    for (k, v) in pairs {
        m.insert(k.to_string(), v.to_string());
    }
    m
}

fn app_styles() -> StrMap {
    map_of(&[
        ("com.tencent.xinWeChat", "轻度纠错"),
        ("Mail", "书面化"),
        ("Terminal", "关闭"),
    ])
}

#[test]
fn pick_style_ported() {
    let m = app_styles();
    assert_eq!(
        pick_style("微信", "com.tencent.xinWeChat", &m).as_deref(),
        Some("轻度纠错")
    );
    assert_eq!(pick_style("mail", "com.apple.mail", &m).as_deref(), Some("书面化"));
    assert_eq!(pick_style("Terminal", "", &m).as_deref(), Some("关闭"));
    assert_eq!(pick_style("Safari", "com.apple.Safari", &m), None);
    assert_eq!(pick_style("Mail", "x", &StrMap::new()), None);
}

#[test]
fn style_off() {
    assert!(is_style_off("关闭"));
    assert!(is_style_off("off"));
    assert!(!is_style_off("润色"));
    assert!(!is_style_off(""));
}

#[test]
fn pick_style_folds_non_ascii_case() {
    let m = map_of(&[("ÉDITEUR", "书面化")]);
    assert_eq!(pick_style("éditeur", "", &m).as_deref(), Some("书面化"));
    // An empty key never matches by name.
    let m = map_of(&[("", "关闭")]);
    assert_eq!(pick_style("anything", "", &m), None);
}

#[test]
fn tail_keeps_short_text() {
    assert_eq!(tail("", 5), "");
    assert_eq!(tail("小岛", 5), "小岛");
    assert_eq!(tail("12345", 5), "12345");
}

#[test]
fn tail_truncates_by_chars_not_bytes() {
    assert_eq!(tail("一二三四五六", 3), "…四五六");
    assert_eq!(tail("abcdef", 3), "…def");
}

#[test]
fn head_takes_prefix_by_chars() {
    assert_eq!(head("改成英文再润色一下", 4), "改成英文");
    assert_eq!(head("短", 24), "短");
    assert_eq!(head("", 3), "");
}

#[test]
fn hint_follows_mode_and_lock() {
    assert_eq!(hint_text(RecordMode::Toggle, false), "再按热键出字 · 按 Esc 取消");
    assert_eq!(hint_text(RecordMode::Toggle, true), "再按热键出字 · 按 Esc 取消");
    assert_eq!(hint_text(RecordMode::Hold, true), "再按热键出字 · 按 Esc 取消");
    assert_eq!(
        hint_text(RecordMode::Hold, false),
        "松开出字 · 快速双击可锁定 · 按 Esc 取消"
    );
}

#[test]
fn placeholder_differs_per_channel() {
    assert_eq!(placeholder(Channel::Dictate), "聆听中…");
    assert_eq!(placeholder(Channel::Rewrite), "说出改写指令…");
}

#[test]
fn roundtrip_str() {
    for id in [
        HotkeyId::AltL,
        HotkeyId::AltR,
        HotkeyId::CmdR,
        HotkeyId::F19,
        HotkeyId::CtrlR,
        HotkeyId::F8,
        HotkeyId::F9,
    ] {
        assert_eq!(HotkeyId::parse(id.as_str()), Some(id));
    }
    assert_eq!(HotkeyId::parse("nope"), None);
}

#[test]
fn defaults_are_valid_choices() {
    for os in [TargetOs::MacOs, TargetOs::Windows] {
        assert!(HotkeyId::choices(os).contains(&HotkeyId::default_dictate(os)));
        assert!(HotkeyId::choices(os).contains(&HotkeyId::default_rewrite(os)));
        assert_ne!(HotkeyId::default_dictate(os), HotkeyId::default_rewrite(os));
    }
}

#[test]
fn record_mode_names_read_back() {
    for m in [RecordMode::Toggle, RecordMode::Hold] {
        assert_eq!(RecordMode::parse(m.as_str()), Some(m));
    }
    assert_eq!(RecordMode::parse("weird"), None);
    assert_eq!(RecordMode::default(), RecordMode::Toggle);
    assert_eq!(RecordMode::Hold.display(), "按住说话（双击锁定）");
}

#[test]
fn foreign_hotkey_falls_back_to_default() {
    assert_eq!(
        HotkeyId::F19.valid_or_default_dictate(TargetOs::Windows),
        HotkeyId::CtrlR
    );
    assert_eq!(
        HotkeyId::F19.valid_or_default_dictate(TargetOs::MacOs),
        HotkeyId::F19
    );
    assert_eq!(
        HotkeyId::CtrlR.valid_or_default_rewrite(TargetOs::MacOs),
        HotkeyId::AltR
    );
    assert_eq!(HotkeyId::AltR.display(TargetOs::Windows), "右 Alt（AltGr 键盘慎用）");
    assert_eq!(HotkeyId::AltR.display(TargetOs::MacOs), "右 Option");
}

#[test]
fn map_key_macos() {
    let os = TargetOs::MacOs;
    assert_eq!(map_key(RawKey::Alt, os), KeyKind::Hotkey(HotkeyId::AltL));
    assert_ne!(map_key(RawKey::AltGr, os), KeyKind::Hotkey(HotkeyId::AltL));
    assert_eq!(map_key(RawKey::AltGr, os), KeyKind::Hotkey(HotkeyId::AltR));
    assert_eq!(map_key(RawKey::MetaRight, os), KeyKind::Hotkey(HotkeyId::CmdR));
    assert_eq!(
        map_key(RawKey::Unknown(MAC_F19_KEYCODE), os),
        KeyKind::Hotkey(HotkeyId::F19)
    );
    assert_eq!(map_key(RawKey::Other, os), KeyKind::Other);
    assert_eq!(map_key(RawKey::ControlRight, os), KeyKind::Other);
    assert_eq!(map_key(RawKey::Unknown(81), os), KeyKind::Other);
}

#[test]
fn map_key_windows() {
    let os = TargetOs::Windows;
    assert_eq!(map_key(RawKey::ControlRight, os), KeyKind::Hotkey(HotkeyId::CtrlR));
    assert_eq!(map_key(RawKey::F8, os), KeyKind::Hotkey(HotkeyId::F8));
    assert_eq!(map_key(RawKey::F9, os), KeyKind::Hotkey(HotkeyId::F9));
    assert_eq!(map_key(RawKey::AltGr, os), KeyKind::Hotkey(HotkeyId::AltR));
    assert_eq!(map_key(RawKey::Alt, os), KeyKind::Other);
    assert_eq!(map_key(RawKey::Other, os), KeyKind::Other);
}

#[test]
fn endpoints_order() {
    assert_eq!(endpoints(None), vec![HF_OFFICIAL, HF_MIRROR]);
    assert_eq!(endpoints(Some("  ")), vec![HF_OFFICIAL, HF_MIRROR]);
    assert_eq!(
        endpoints(Some("https://hf.internal")),
        vec!["https://hf.internal", HF_OFFICIAL, HF_MIRROR]
    );
    assert_eq!(
        endpoints(Some("https://hf-mirror.com/")),
        vec!["https://hf-mirror.com/", HF_OFFICIAL]
    );
}

#[test]
fn report_throttle() {
    assert!(!should_report(100, 0, Some(1_000_000_000)));
    assert!(should_report(PROGRESS_MIN_BYTES, 0, None));
    assert!(should_report(10, 0, Some(1_000)), "满 1% 也要回调");
}

#[test]
fn all_sources_fail() {
    // One source that answers with an error status: nothing left to try.
    assert_eq!(first_source(1), FallbackStep::Try(0));
    assert_eq!(after_attempt(0, false, 1), FallbackStep::GiveUp);
    assert_eq!(first_source(0), FallbackStep::GiveUp);
}

#[test]
fn rejects_tiny_body() {
    let body = "<html>404</html>".len() as u64;
    assert_eq!(check_transfer(body, Some(body)), Err(TransferError::TooSmall));
}

#[test]
fn fallback_moves_to_next_source() {
    assert_eq!(after_attempt(0, false, 2), FallbackStep::Try(1));
    assert_eq!(after_attempt(1, true, 2), FallbackStep::Done);
    assert_eq!(check_transfer(2 * 1024 * 1024, Some(2 * 1024 * 1024)), Ok(()));
    assert_eq!(check_transfer(2 * 1024 * 1024, None), Ok(()));
    assert_eq!(
        check_transfer(2 * 1024 * 1024, Some(3 * 1024 * 1024)),
        Err(TransferError::Incomplete)
    );
    assert!(needs_final_report(2 * 1024 * 1024, 1024 * 1024));
    assert!(!needs_final_report(5, 5));
    assert!(existing_model_usable(true, 2 * 1024 * 1024));
    assert!(!existing_model_usable(true, MIN_MODEL_BYTES));
    assert!(!existing_model_usable(false, 2 * 1024 * 1024));
    assert_eq!(part_path("/m/model.gguf"), "/m/model.gguf.part");
}

#[test]
fn model_urls_follow_sources() {
    assert_eq!(
        model_url("https://hf-mirror.com/", "repo/name", "model.gguf"),
        "https://hf-mirror.com/repo/name/resolve/main/model.gguf"
    );
    let urls = model_urls(None, MODEL_REPO, "SenseVoiceSmall-Q8_0.gguf");
    assert_eq!(
        urls,
        vec![
            "https://huggingface.co/handy-computer/SenseVoiceSmall-gguf/resolve/main/SenseVoiceSmall-Q8_0.gguf",
            "https://hf-mirror.com/handy-computer/SenseVoiceSmall-gguf/resolve/main/SenseVoiceSmall-Q8_0.gguf",
        ]
    );
}

#[test]
fn layout_matches_python_config() {
    let p = Paths::layout("/tmp/xd-base", &model_filename(None), '/');
    assert_eq!(p.models_dir, "/tmp/xd-base/models");
    assert_eq!(p.logs_dir, "/tmp/xd-base/logs");
    assert_eq!(p.data_dir, "/tmp/xd-base/data");
    assert_eq!(p.log_file, "/tmp/xd-base/logs/xiaodao-ime.log");
    assert_eq!(p.history_file, "/tmp/xd-base/data/history.jsonl");
    assert_eq!(p.settings_file, "/tmp/xd-base/settings.json");
    assert!(p.model_path.starts_with("/tmp/xd-base/models"));
    assert_eq!(p.base_dir(), "/tmp/xd-base");
}

#[test]
fn constants_match_python() {
    assert_eq!(SAMPLE_RATE, 16_000);
    assert_eq!(CHANNELS, 1);
    assert!((MIN_HOLD_MS as f64 / 1000.0 - 0.4).abs() < f64::EPSILON);
    assert_eq!(DOUBLE_TAP_WINDOW_MS, 350);
    assert_eq!(CLIPBOARD_RESTORE_DELAY_MS, 400);
    assert_eq!(MODEL_REPO, "handy-computer/SenseVoiceSmall-gguf");
}

#[test]
fn environment_overrides() {
    assert_eq!(model_filename(None), "SenseVoiceSmall-Q8_0.gguf");
    assert_eq!(model_filename(Some("  ")), "SenseVoiceSmall-Q8_0.gguf");
    assert_eq!(model_filename(Some("other.gguf")), "other.gguf");
    assert_eq!(transcribe_backend(None), "auto");
    assert_eq!(transcribe_backend(Some("cpu")), "cpu");
    assert_eq!(transcribe_language(Some("")), None);
    assert_eq!(transcribe_language(Some("zh")).as_deref(), Some("zh"));
}

#[test]
fn data_root_choice() {
    let p = Paths::resolve(Some("/home/x/xd"), Some("/sys"), None, "m.gguf", '/').unwrap();
    assert_eq!(p.base_dir, "/home/x/xd");
    let p = Paths::resolve(Some(" "), Some("/Users/a/Library/Application Support"), None, "m.gguf", '/')
        .unwrap();
    assert_eq!(p.base_dir, "/Users/a/Library/Application Support/xiaodao-ime");
    assert_eq!(p.model_path, "/Users/a/Library/Application Support/xiaodao-ime/models/m.gguf");
    let p = Paths::resolve(None, None, Some("C:\\Users\\a\\AppData\\Roaming"), "m.gguf", '\\').unwrap();
    assert_eq!(p.base_dir, "C:\\Users\\a\\AppData\\Roaming\\xiaodao-ime");
    assert!(Paths::resolve(None, None, None, "m.gguf", '/').is_none());
}

#[test]
fn settings_page_paths() {
    assert_eq!(
        data_dir(None, Some("/Users/a"), None, TargetOs::MacOs, '/'),
        "/Users/a/Library/Application Support/xiaodao-ime"
    );
    assert_eq!(
        data_dir(None, Some("/home/a"), Some("C:\\Roaming"), TargetOs::Windows, '\\'),
        "C:\\Roaming\\xiaodao-ime"
    );
    assert_eq!(data_dir(Some("/x"), None, None, TargetOs::Windows, '/'), "/x");
    assert_eq!(settings_path("/d", '/'), "/d/settings.json");
    assert_eq!(log_file("/d", '/'), "/d/logs/xiaodao-ime.log");
    assert_eq!(
        log_privacy_section("microphone"),
        "请求打开系统隐私设置：microphone（应用壳阶段仅打日志）"
    );
    let choices = get_hotkey_choices(TargetOs::MacOs);
    let ids: Vec<&str> = choices.iter().map(|c| c.id).collect();
    assert_eq!(ids, vec!["alt_l", "alt_r", "cmd_r", "f19"]);
    assert_eq!(choices[0].label, "左 Option");
}
