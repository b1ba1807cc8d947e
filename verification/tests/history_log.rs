use xiaodao_core::history::{HistoryEntry, HistoryLog};
use xiaodao_core::menu::{
    history_label, hotkey_change_refusal, parse_history_index, parse_menu_id, pause_toggle,
    polish_refusal, polish_toggle, saved_minutes, status_label, MenuCommand,
};
use xiaodao_core::keys::{HotkeyId, RecordMode, TargetOs};
use xiaodao_core::menu::{
    checked_ids, decimal_text, hotkey_entries, menu_item_id, mode_entries, polish_item_text,
    recording_title, select_exclusive, stats_text, style_entries,
};
use xiaodao_core::settings::Settings;
use xiaodao_core::types::Status;

fn entry(ts: &str, raw: &str, fin: &str) -> HistoryEntry {
    HistoryEntry { ts: ts.into(), raw: raw.into(), final_text: fin.into() }
}

#[test]
fn history_ported() {
    let mut h = HistoryLog::new();
    let v0 = h.version();
    let written = h.append(true, "原始 文本", "润色后的文本", 50).expect("recorded");
    assert_eq!(h.version(), v0 + 1);
    assert_eq!(h.recent(5)[0].final_text, "润色后的文本");
    assert_eq!(h.recent(5)[0].raw, "原始 文本");
    assert_eq!(written.ts.chars().count(), 19);

    // A fresh log loading what was written reads it back.
    let mut h2 = HistoryLog::new();
    h2.load(&vec![written.duplicate()], 50);
    assert_eq!(h2.recent(5)[0].final_text, "润色后的文本");

    // Blank final text is not recorded.
    assert!(h.append(true, "x", "   ", 50).is_none());
    assert_eq!(h.recent(10).len(), 1);

    assert_eq!(h.total_count(), 1);
    assert_eq!(h.total_chars(), "润色后的文本".chars().count() as u64);
    let mut h3 = HistoryLog::new();
    h3.load(&vec![written], 50);
    assert_eq!(h3.total_count(), 1);
    assert_eq!(h3.total_chars(), "润色后的文本".chars().count() as u64);
}

#[test]
fn disabled_skips_write() {
    let mut h = HistoryLog::new();
    assert!(h.append(false, "raw", "final", 50).is_none());
    assert!(h.recent(5).is_empty());
    assert_eq!(h.version(), 0);
}

#[test]
fn rolls_at_max_items_but_keeps_totals() {
    let mut h = HistoryLog::new();
    let mut written = Vec::new();
    for i in 0..5 {
        written.push(h.append(true, "raw", &format!("第{i}条"), 3).unwrap());
    }
    let recent = h.recent(10);
    assert_eq!(recent.len(), 3);
    assert_eq!(recent[0].final_text, "第4条");
    assert_eq!(recent[2].final_text, "第2条");
    assert_eq!(h.total_count(), 5);
    let mut h2 = HistoryLog::new();
    h2.load(&written, 3);
    assert_eq!(h2.total_count(), 5);
    assert_eq!(h2.recent(10).len(), 3);
}

#[test]
fn bad_lines_are_skipped() {
    // Only the line that parsed reaches the log.
    let mut h = HistoryLog::new();
    h.load(&vec![entry("2026-01-01 00:00:00", "a", "好")], 50);
    assert_eq!(h.total_count(), 1);
    assert_eq!(h.total_chars(), 1);
    assert_eq!(h.recent(5)[0].final_text, "好");
    assert_eq!(h.version(), 1);
}

#[test]
fn history_is_send_sync() {
    fn assert_send_sync<T: Send + Sync>() {}
    assert_send_sync::<HistoryLog>();
}

#[test]
fn append_at_uses_given_stamp() {
    let mut h = HistoryLog::new();
    let e = h.append_at(true, "2026-02-03 04:05:06".into(), "r", "f", 0).unwrap();
    assert_eq!(e.ts, "2026-02-03 04:05:06");
    // Nothing is kept in memory with a zero limit, but the totals count it.
    assert!(h.recent(3).is_empty());
    assert_eq!(h.total_count(), 1);
}

#[test]
fn menu_ids_are_routed() {
    assert!(matches!(parse_menu_id("quit"), MenuCommand::Quit));
    assert!(matches!(parse_menu_id("status"), MenuCommand::OpenMissingPrivacy));
    assert!(matches!(parse_menu_id("pause"), MenuCommand::TogglePause));
    match parse_menu_id("hotkey:alt_r") {
        MenuCommand::SetHotkey(v, true) => assert_eq!(v, "alt_r"),
        _ => panic!("hotkey item"),
    }
    match parse_menu_id("rewrite:f8") {
        MenuCommand::SetHotkey(v, false) => assert_eq!(v, "f8"),
        _ => panic!("rewrite item"),
    }
    match parse_menu_id("style:会议纪要:x") {
        MenuCommand::SetStyle(v) => assert_eq!(v, "会议纪要:x"),
        _ => panic!("style item"),
    }
    match parse_menu_id("history:3") {
        MenuCommand::CopyHistory(v) => assert_eq!(v, "3"),
        _ => panic!("history item"),
    }
    assert!(matches!(parse_menu_id("nothing"), MenuCommand::Unknown));
    assert!(matches!(parse_menu_id("what:ever"), MenuCommand::Unknown));
}

#[test]
fn menu_hotkey_conflicts_are_refused() {
    let n = hotkey_change_refusal(HotkeyId::AltL, HotkeyId::AltR, HotkeyId::AltR, true).unwrap();
    assert_eq!(n.title, "听写热键不能和改写热键相同");
    let n = hotkey_change_refusal(HotkeyId::AltL, HotkeyId::AltR, HotkeyId::AltL, false).unwrap();
    assert_eq!(n.title, "改写热键不能和听写热键相同");
    assert!(hotkey_change_refusal(HotkeyId::AltL, HotkeyId::AltR, HotkeyId::CmdR, true).is_none());
}

#[test]
fn menu_texts_and_switches() {
    assert_eq!(polish_toggle(false, false), None);
    assert_eq!(polish_toggle(false, true), Some(true));
    assert_eq!(polish_toggle(true, false), Some(false));
    assert_eq!(polish_refusal().title, "无法开启 AI 润色");
    assert_eq!(status_label(Status::Recording), "状态：录音中");
    assert_eq!(pause_toggle(false), (true, "恢复热键", Status::Paused));
    assert_eq!(pause_toggle(true), (false, "暂停热键", Status::Idle));
    assert_eq!(saved_minutes(180), 2);
    assert_eq!(history_label("短"), "短");
    assert_eq!(history_label(&"字".repeat(30)), format!("{}…", "字".repeat(24)));
    assert_eq!(parse_history_index("3"), Some(3));
    assert_eq!(parse_history_index("+12"), Some(12));
    assert_eq!(parse_history_index("none"), None);
    assert_eq!(parse_history_index(""), None);
    assert_eq!(parse_history_index("+"), None);
    assert_eq!(parse_history_index("99999999999999999999999"), None);
}

#[test]
fn tray_texts_and_items() {
    assert_eq!(decimal_text(0), "0");
    assert_eq!(decimal_text(1234567890), "1234567890");
    assert_eq!(decimal_text(u64::MAX), u64::MAX.to_string());
    assert_eq!(stats_text(3, 181), "统计：3 段 · 181 字 · 约省 2 分钟");
    assert_eq!(recording_title(12), "12s");
    assert_eq!(polish_item_text("openai", "deepseek-chat"), "AI 润色（openai / deepseek-chat）");
    assert_eq!(polish_item_text("openai", "  "), "AI 润色（openai / ?）");
    assert_eq!(menu_item_id("style", "润色"), "style:润色");
    let e = hotkey_entries("rewrite", TargetOs::Windows);
    assert_eq!(e[1].id, "rewrite:f8");
    assert_eq!(e[1].label, "F8");
    let m = mode_entries();
    assert_eq!(m[1].id, "mode:hold");
    let mut s = Settings::defaults(TargetOs::MacOs);
    s.record_mode = RecordMode::Hold;
    assert_eq!(checked_ids(&s), vec!["hotkey:alt_l", "rewrite:alt_r", "mode:hold"]);
    s.polish.style = "书面化".into();
    let styles = style_entries(&s);
    assert_eq!(styles.len(), 5);
    assert_eq!(styles[1].id, "style:书面化");
    assert!(styles[1].checked && !styles[0].checked);
    let ids = vec!["hotkey:alt_l".to_string(), "hotkey:alt_r".to_string(), "mode:toggle".to_string()];
    assert_eq!(select_exclusive(&ids, "hotkey:alt_r"), vec![Some(false), Some(true), None]);
}
