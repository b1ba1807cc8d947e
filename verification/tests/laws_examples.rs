use xiaodao_core::context::pick_style;
use xiaodao_core::keys::{HotkeyId, TargetOs};
use xiaodao_core::model_download::{endpoints, HF_MIRROR, HF_OFFICIAL};
use xiaodao_core::polisher::{apply_replacements, finish_reply, get_styles, replace_text};
use xiaodao_core::settings::{de_hotkey, Settings};
use xiaodao_core::strmap::StrMap;

#[test]
fn replacing_an_absent_text_changes_nothing() {
    assert_eq!(replace_text("小岛AI输入法", "欧朵", "Ordo"), "小岛AI输入法");
    assert_eq!(apply_replacements("原文", &StrMap::new()), "原文");
}

#[test]
fn builtin_styles_survive_any_user_table() {
    let mut s = Settings::defaults(TargetOs::MacOs);
    for name in ["润色", "书面化", "轻度纠错", "翻译成英文", "会议纪要"] {
        s.polish.styles.insert(name.to_string(), String::new());
    }
    let styles = get_styles(&s);
    for name in ["润色", "书面化", "轻度纠错", "翻译成英文", "会议纪要"] {
        assert!(!styles.get(name).unwrap().is_empty());
    }
}

#[test]
fn replies_are_trimmed_or_dropped() {
    assert_eq!(finish_reply(Some("\n 结果 \t")).as_deref(), Some("结果"));
    assert_eq!(finish_reply(Some(" \u{3000} ")), None);
}

#[test]
fn identifier_match_beats_name_match() {
    let mut m = StrMap::new();
    m.insert("com.apple.mail".into(), "轻度纠错".into());
    m.insert("Mail".into(), "书面化".into());
    assert_eq!(pick_style("Mail", "com.apple.mail", &m).as_deref(), Some("轻度纠错"));
}

#[test]
fn read_hotkeys_are_always_offered() {
    for os in [TargetOs::MacOs, TargetOs::Windows] {
        for raw in ["", "f19", "cmd_r", "ctrl_r", "f8", "garbage", "ALT_L"] {
            for dictate in [true, false] {
                assert!(HotkeyId::choices(os).contains(&de_hotkey(raw, dictate, os)));
            }
        }
    }
}

#[test]
fn default_sources_are_always_candidates() {
    let list = endpoints(Some(" https://mirror.example/ "));
    assert_eq!(list[0], "https://mirror.example/");
    assert!(list.iter().any(|u| u == HF_OFFICIAL));
    assert!(list.iter().any(|u| u == HF_MIRROR));
    let list = endpoints(Some("https://huggingface.co///"));
    assert_eq!(list, vec!["https://huggingface.co///", HF_MIRROR]);
}

#[test]
fn text_map_reads_back_writes() {
    let mut m = StrMap::new();
    m.insert("b".into(), "1".into());
    m.insert("a".into(), "2".into());
    m.insert("b".into(), "3".into());
    assert_eq!(m.get("b").map(String::as_str), Some("3"));
    assert_eq!(m.get("a").map(String::as_str), Some("2"));
    assert_eq!(m.get("c"), None);
    assert_eq!(m.len(), 2);
    assert_eq!(m.key_at(0), "a");
    assert_eq!(m.key_at(1), "b");
}
