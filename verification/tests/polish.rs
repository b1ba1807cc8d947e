use xiaodao_core::keys::TargetOs;
use xiaodao_core::polisher::{
    anthropic_base, anthropic_reply_text, apply_replacements, build_request, build_system_prompt,
    builtin_style, configured, finish_reply, get_styles, plan_polish, plan_rewrite,
    polish_system_prompt, replace_text, style_names, truncate, ApiKind, LlmRequest, ReplyBlock,
    ModelCatalog, RequestError, ANTHROPIC_BASE, ANTHROPIC_VERSION, DEFAULT_STYLE,
};
use xiaodao_core::settings::{
    de_hotkey, de_record_mode, default_base_url, default_max_items, default_model,
    default_provider, default_style, default_timeout, default_true, PolishConfig, Settings,
};
use xiaodao_core::keys::{HotkeyId, RecordMode};
use xiaodao_core::strmap::StrMap;

const OS: TargetOs = TargetOs::MacOs;

fn models() -> ModelCatalog {
    ModelCatalog {
        default_model: "small-fast-1".into(),
        low_effort_prefixes: vec!["big-a-".into(), "big-b".into()],
    }
}

fn settings(f: impl FnOnce(&mut Settings)) -> Settings {
    let mut s = Settings::defaults(OS);
    f(&mut s);
    s
}

fn enabled_openai(base_url: &str) -> Settings {
    let base_url = base_url.to_string();
    settings(move |s| {
        s.polish.enabled = true;
        s.polish.provider = "openai".into();
        s.polish.api_key = "sk-test".into();
        s.polish.base_url = base_url;
        s.polish.timeout = 5;
    })
}

fn map_of(pairs: &[(&str, &str)]) -> StrMap {
    let mut m = StrMap::new();
    for (k, v) in pairs {
        m.insert(k.to_string(), v.to_string());
    }
    m
}

/// The text an OpenAI-compatible reply carries, as the HTTP client reads it.
fn openai_content(body: &str) -> Option<String> {
    let data: serde_json::Value = serde_json::from_str(body).ok()?;
    data["choices"][0]["message"]["content"].as_str().map(str::to_string)
}

/// The text an Anthropic reply carries, as the HTTP client reads it.
fn anthropic_content(body: &str) -> Option<String> {
    let data: serde_json::Value = serde_json::from_str(body).ok()?;
    let blocks: Option<Vec<ReplyBlock>> = data["content"].as_array().map(|a| {
        a.iter()
            .map(|b| ReplyBlock {
                kind: b["type"].as_str().map(str::to_string),
                text: b["text"].as_str().map(str::to_string),
            })
            .collect()
    });
    Some(anthropic_reply_text(data["stop_reason"].as_str(), blocks.as_ref()))
}

fn request(plan: Option<Result<LlmRequest, RequestError>>) -> LlmRequest {
    match plan {
        Some(Ok(req)) => req,
        _ => panic!("a request was expected"),
    }
}

#[test]
fn apply_replacements_ported() {
    let map = map_of(&[("欧朵", "Ordo")]);
    assert_eq!(apply_replacements("欧朵的达人匹配", &map), "Ordo的达人匹配");
    assert_eq!(apply_replacements("无替换", &StrMap::new()), "无替换");
}

#[test]
fn replacement_scans_left_to_right() {
    assert_eq!(replace_text("aaa", "aa", "b"), "ba");
    assert_eq!(replace_text("abcabc", "bc", ""), "aa");
    let map = map_of(&[("a", "b"), ("b", "c"), ("", "x")]);
    // Entries apply in key order, each on the result of the previous one.
    assert_eq!(apply_replacements("ab", &map), "cc");
}

#[test]
fn build_system_prompt_ported() {
    let hotwords = vec!["小岛AI".to_string(), "Ordo".to_string()];
    assert!(build_system_prompt(&hotwords, None).contains("小岛AI"));
    assert!(build_system_prompt(&hotwords, None).contains("小岛AI、Ordo"));
    assert!(!build_system_prompt(&[], None).contains("专有名词"));
    assert!(build_system_prompt(&[], None).starts_with("你是语音输入法的后处理引擎"));
    assert!(build_system_prompt(&[], None).ends_with("不要任何解释或前后缀。"));
}

#[test]
fn system_prompt_skips_empty_hotwords_and_style() {
    let hotwords = vec!["".to_string(), "A".to_string(), "".to_string(), "B".to_string()];
    let p = build_system_prompt(&hotwords, Some(""));
    assert!(p.ends_with("：A、B"));
    assert!(p.contains(builtin_style(DEFAULT_STYLE).unwrap()));
}

#[test]
fn styles_ported() {
    let s = Settings::defaults(OS);
    let styles = get_styles(&s);
    for name in ["润色", "书面化", "轻度纠错", "翻译成英文", "会议纪要"] {
        assert!(styles.get(name).is_some(), "缺风格 {name}");
    }
    let mut s2 = Settings::defaults(OS);
    s2.polish.styles = map_of(&[("文言文", "翻译成文言文"), ("润色", "自定义润色规则")]);
    let styles = get_styles(&s2);
    assert_eq!(styles.get("文言文").unwrap(), "翻译成文言文");
    assert_eq!(styles.get("润色").unwrap(), "自定义润色规则");
    assert!(build_system_prompt(&[], builtin_style("翻译成英文")).contains("英文"));
    assert_eq!(style_names(&s2)[0], "润色");
    assert_eq!(style_names(&s2).last().unwrap(), "文言文");
}

#[test]
fn style_names_order_and_filter() {
    let mut s = Settings::defaults(OS);
    s.polish.styles = map_of(&[("b", "x"), ("a", "y"), ("empty", ""), ("润色", "z")]);
    assert_eq!(
        style_names(&s),
        vec!["润色", "书面化", "轻度纠错", "翻译成英文", "会议纪要", "a", "b"]
    );
}

#[test]
fn polish_prompt_resolves_style() {
    let mut s = Settings::defaults(OS);
    s.polish.styles = map_of(&[("文言文", "翻译成文言文")]);
    // Known application style wins; unknown falls back to polish.style.
    assert!(polish_system_prompt(&s, Some("文言文")).contains("翻译成文言文"));
    s.polish.style = "书面化".into();
    assert!(polish_system_prompt(&s, Some("不存在")).contains(builtin_style("书面化").unwrap()));
    s.polish.style = String::new();
    assert!(polish_system_prompt(&s, None).contains(builtin_style("润色").unwrap()));
    s.polish.style = "也不存在".into();
    assert!(polish_system_prompt(&s, None).contains(builtin_style("润色").unwrap()));
}

#[test]
fn fail_open_ported() {
    let base = anthropic_base(None);
    // Not enabled: nothing to do.
    assert!(plan_polish(&settings(|_| {}), "测试文本", None, &base, "", &models()).is_none());
    // Enabled, unknown provider.
    let s = settings(|s| {
        s.polish.enabled = true;
        s.polish.provider = "nope".into();
    });
    assert!(matches!(
        plan_polish(&s, "测试文本", None, &base, "", &models()),
        Some(Err(RequestError::UnknownProvider))
    ));
    // openai without base_url: not configured, no request.
    let s = settings(|s| {
        s.polish.enabled = true;
        s.polish.base_url = String::new();
    });
    assert!(!configured(&s.polish));
    assert!(matches!(
        plan_polish(&s, "测试文本", None, &base, "", &models()),
        Some(Err(RequestError::MissingBaseUrl))
    ));
    // Blank text or instruction.
    let s = enabled_openai("https://example.invalid");
    assert!(plan_polish(&s, "   ", None, &base, "", &models()).is_none());
    assert!(plan_rewrite(&s, "  ", "改成英文", &base, "", &models()).is_none());
    assert!(plan_rewrite(&s, "原文", "  ", &base, "", &models()).is_none());
    assert!(s.polish.enabled);
    assert!(configured(&s.polish));
}

#[test]
fn openai_success() {
    let s = enabled_openai("http://127.0.0.1:1234/");
    let req = request(plan_polish(&s, "测试 文本", None, &anthropic_base(None), "", &models()));
    assert_eq!(req.api, ApiKind::OpenAi);
    assert_eq!(req.url, "http://127.0.0.1:1234/chat/completions");
    assert_eq!(req.api_key.as_deref(), Some("sk-test"));
    assert_eq!(req.model, "deepseek-chat");
    assert_eq!(req.timeout_secs, 5);
    assert_eq!(req.user, "测试 文本");
    let body = r#"{"choices":[{"message":{"content":" 润色后的文本 "}}]}"#;
    assert_eq!(
        finish_reply(openai_content(body).as_deref()).as_deref(),
        Some("润色后的文本")
    );
}

#[test]
fn openai_rewrite_ignores_enabled_switch() {
    let s = settings(|s| {
        s.polish.enabled = false;
        s.polish.base_url = "http://127.0.0.1:1234".into();
        s.polish.timeout = 5;
    });
    let req = request(plan_rewrite(&s, "你好", "改成英文", &anthropic_base(None), "", &models()));
    assert!(req.user.contains("指令：改成英文"));
    assert!(req.user.contains("待改写文本"));
    assert!(req.system.contains("你是文本改写引擎"));
    assert_eq!(req.api_key, None);
    let body = r#"{"choices":[{"message":{"content":"Hello"}}]}"#;
    assert_eq!(finish_reply(openai_content(body).as_deref()).as_deref(), Some("Hello"));
}

#[test]
fn anthropic_success() {
    let s = settings(|s| {
        s.polish.enabled = true;
        s.polish.provider = "anthropic".into();
        s.polish.api_key = "sk-ant".into();
        s.polish.timeout = 5;
    });
    let base = anthropic_base(Some("http://127.0.0.1:9/"));
    let req = request(plan_polish(&s, "测试", None, &base, "", &models()));
    assert_eq!(req.api, ApiKind::Anthropic);
    assert_eq!(req.url, "http://127.0.0.1:9/v1/messages");
    assert_eq!(req.api_key.as_deref(), Some("sk-ant"));
    assert_eq!(req.max_tokens, Some(2048));
    assert_eq!(ANTHROPIC_VERSION, "2023-06-01");
    let body = r#"{"stop_reason":"end_turn","content":[{"type":"thinking","thinking":"x"},{"type":"text","text":"Anthropic 结果"}]}"#;
    assert_eq!(
        finish_reply(anthropic_content(body).as_deref()).as_deref(),
        Some("Anthropic 结果")
    );
}

#[test]
fn anthropic_refusal_fails_open() {
    let body = r#"{"stop_reason":"refusal","content":[{"type":"text","text":"不行"}]}"#;
    assert_eq!(anthropic_content(body).as_deref(), Some(""));
    assert!(finish_reply(anthropic_content(body).as_deref()).is_none());
}

#[test]
fn http_error_and_empty_content_fail_open() {
    // A failed call hands on nothing.
    assert!(finish_reply(None).is_none());
    let empty = r#"{"choices":[{"message":{"content":"   "}}]}"#;
    assert!(finish_reply(openai_content(empty).as_deref()).is_none());
    let weird = r#"{"error":"nope"}"#;
    assert!(openai_content(weird).is_none());
    assert!(finish_reply(openai_content(weird).as_deref()).is_none());
}

#[test]
fn anthropic_key_model_and_effort() {
    let conf = {
        let mut c = PolishConfig::default();
        c.provider = "anthropic".into();
        c.model = String::new();
        c.timeout = 0;
        c
    };
    // No key anywhere.
    assert!(matches!(
        build_request("anthropic", "u", &conf, "s", ANTHROPIC_BASE, "  ", &models()),
        Err(RequestError::MissingApiKey)
    ));
    let req = build_request("anthropic", "u", &conf, "s", ANTHROPIC_BASE, "env-key", &models()).unwrap();
    assert_eq!(req.api_key.as_deref(), Some("env-key"));
    assert_eq!(req.model, "small-fast-1");
    assert!(!req.low_effort);
    assert_eq!(req.timeout_secs, 1);
    assert_eq!(req.url, "https://api.anthropic.com/v1/messages");
    let mut conf2 = PolishConfig::default();
    conf2.provider = "anthropic".into();
    conf2.api_key = "k".into();
    conf2.model = "big-a-2".into();
    assert!(build_request("anthropic", "u", &conf2, "s", ANTHROPIC_BASE, "", &models()).unwrap().low_effort);
    conf2.model = "big-c".into();
    assert!(!build_request("anthropic", "u", &conf2, "s", ANTHROPIC_BASE, "", &models()).unwrap().low_effort);
    assert_eq!(anthropic_base(Some("   ")), "https://api.anthropic.com");
    assert_eq!(anthropic_base(Some("http://gw///")), "http://gw");
}

#[test]
fn reply_blocks_first_text_wins() {
    let blocks = vec![
        ReplyBlock { kind: Some("text".into()), text: None },
        ReplyBlock { kind: Some("text".into()), text: Some("second".into()) },
    ];
    assert_eq!(anthropic_reply_text(None, Some(&blocks)), "");
    assert_eq!(anthropic_reply_text(Some("end_turn"), None), "");
}

#[test]
fn truncate_appends_ellipsis() {
    assert_eq!(truncate("boom", 200), "boom");
    assert_eq!(truncate("一二三四", 2), "一二…");
}

#[test]
fn missing_file_uses_defaults() {
    let s = Settings::defaults(OS);
    assert_eq!(s.polish.provider, "openai");
    assert_eq!(s.polish.timeout, 30);
    assert!(s.history.enabled);
    assert_eq!(s.history.max_items, 50);
    assert!(s.live_preview);
    assert!(s.sounds);
    assert_eq!(s.polish.model, "deepseek-chat");
    assert_eq!(s.polish.base_url, "https://api.deepseek.com");
    assert_eq!(s.polish.style, "润色");
    assert_eq!(s.record_mode, RecordMode::Toggle);
    assert_eq!(s.hotkey, HotkeyId::default_dictate(OS));
    assert!(!s.hotkeys_conflict());
    assert!(default_true());
    assert_eq!(default_provider(), "openai");
    assert_eq!(default_model(), "deepseek-chat");
    assert_eq!(default_base_url(), "https://api.deepseek.com");
    assert_eq!(default_timeout(), 30);
    assert_eq!(default_style(), "润色");
    assert_eq!(default_max_items(), 50);
}

#[test]
fn partial_json_merges_defaults_and_saves() {
    // {"hotkey": "f19", "polish": {"enabled": true}}: f19 is offered on macOS only.
    for os in [TargetOs::MacOs, TargetOs::Windows] {
        assert_eq!(de_hotkey("f19", true, os), HotkeyId::F19.valid_or_default_dictate(os));
    }
    let mut p = PolishConfig::default();
    p.enabled = true;
    assert_eq!(p.provider, PolishConfig::default().provider);
    assert_eq!(p.model, PolishConfig::default().model);
}

#[test]
fn unknown_hotkey_and_mode_fall_back() {
    assert_eq!(de_hotkey("nope", true, OS), HotkeyId::default_dictate(OS));
    assert_eq!(de_hotkey("nah", false, OS), HotkeyId::default_rewrite(OS));
    assert_eq!(de_record_mode("weird"), RecordMode::Toggle);
    assert_eq!(de_record_mode("hold"), RecordMode::Hold);
    assert_eq!(de_hotkey("", true, TargetOs::Windows), HotkeyId::CtrlR);
    assert_eq!(de_hotkey("alt_l", true, OS), HotkeyId::AltL);
}
