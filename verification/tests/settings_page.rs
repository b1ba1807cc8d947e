use xiaodao_core::commands::{defaults, get_settings};
use xiaodao_core::json_tree::{merge, JsonTree};
use xiaodao_core::keys::TargetOs;

fn leaf(t: &str) -> JsonTree {
    JsonTree::Leaf(t.to_string())
}

fn obj(members: Vec<(&str, JsonTree)>) -> JsonTree {
    JsonTree::Object(members.into_iter().map(|(k, v)| (k.to_string(), v)).collect())
}

fn get<'a>(t: &'a JsonTree, key: &str) -> Option<&'a JsonTree> {
    match t {
        JsonTree::Object(m) => m.iter().find(|(k, _)| k == key).map(|(_, v)| v),
        JsonTree::Leaf(_) => None,
    }
}

fn keys(t: &JsonTree) -> Vec<String> {
    match t {
        JsonTree::Object(m) => m.iter().map(|(k, _)| k.clone()).collect(),
        JsonTree::Leaf(_) => vec![],
    }
}

#[test]
fn merge_is_deep_and_member_wise() {
    let base = obj(vec![
        ("a", leaf("1")),
        ("p", obj(vec![("x", leaf("1")), ("y", leaf("2"))])),
        ("s", leaf("\"keep\"")),
    ]);
    let over = obj(vec![("p", obj(vec![("y", leaf("3"))])), ("b", leaf("2"))]);
    let merged = merge(&base, &over);
    let expected = obj(vec![
        ("a", leaf("1")),
        ("p", obj(vec![("x", leaf("1")), ("y", leaf("3"))])),
        ("s", leaf("\"keep\"")),
        ("b", leaf("2")),
    ]);
    assert_eq!(merged, expected);
}

#[test]
fn merge_replaces_where_not_both_objects() {
    let base = obj(vec![("p", obj(vec![("x", leaf("1"))])), ("q", leaf("5"))]);
    let over = obj(vec![("p", leaf("null")), ("q", obj(vec![("z", leaf("true"))]))]);
    let merged = merge(&base, &over);
    assert_eq!(merged, obj(vec![("p", leaf("null")), ("q", obj(vec![("z", leaf("true"))]))]));
    // A non-object document replaces the base whole.
    assert_eq!(merge(&base, &leaf("[1,2]")), leaf("[1,2]"));
    assert_eq!(merge(&leaf("7"), &over), over);
    // An empty object changes nothing.
    assert_eq!(merge(&base, &obj(vec![])), base);
}

#[test]
fn settings_page_defaults() {
    let d = defaults(TargetOs::MacOs);
    assert_eq!(
        keys(&d),
        vec![
            "hotkey", "rewrite_hotkey", "record_mode", "live_preview", "polish", "app_styles",
            "sounds", "history", "hotwords", "replacements"
        ]
    );
    assert_eq!(get(&d, "hotkey"), Some(&leaf("\"alt_l\"")));
    assert_eq!(get(&d, "rewrite_hotkey"), Some(&leaf("\"alt_r\"")));
    assert_eq!(get(&d, "record_mode"), Some(&leaf("\"toggle\"")));
    let polish = get(&d, "polish").unwrap();
    assert_eq!(get(polish, "enabled"), Some(&leaf("false")));
    assert_eq!(get(polish, "model"), Some(&leaf("\"deepseek-chat\"")));
    assert_eq!(get(polish, "api_key"), Some(&leaf("\"\"")));
    assert_eq!(get(polish, "timeout"), Some(&leaf("30")));
    assert_eq!(get(polish, "style"), Some(&leaf("\"润色\"")));
    assert_eq!(get(polish, "styles"), Some(&obj(vec![])));
    let history = get(&d, "history").unwrap();
    assert_eq!(get(history, "max_items"), Some(&leaf("50")));
    assert_eq!(get(&d, "hotwords"), Some(&leaf("[]")));
    let w = defaults(TargetOs::Windows);
    assert_eq!(get(&w, "hotkey"), Some(&leaf("\"ctrl_r\"")));
    assert_eq!(get(&w, "rewrite_hotkey"), Some(&leaf("\"f8\"")));
}

#[test]
fn settings_page_merges_stored_over_defaults() {
    assert_eq!(get_settings(None, TargetOs::MacOs), defaults(TargetOs::MacOs));
    let stored = obj(vec![
        ("hotkey", leaf("\"f19\"")),
        ("polish", obj(vec![("enabled", leaf("true"))])),
        ("extra", leaf("1")),
    ]);
    let page = get_settings(Some(stored), TargetOs::MacOs);
    assert_eq!(get(&page, "hotkey"), Some(&leaf("\"f19\"")));
    assert_eq!(get(&page, "rewrite_hotkey"), Some(&leaf("\"alt_r\"")));
    let polish = get(&page, "polish").unwrap();
    assert_eq!(get(polish, "enabled"), Some(&leaf("true")));
    assert_eq!(get(polish, "provider"), Some(&leaf("\"openai\"")));
    assert_eq!(get(polish, "base_url"), Some(&leaf("\"https://api.deepseek.com\"")));
    assert_eq!(get(&page, "extra"), Some(&leaf("1")));
    assert_eq!(keys(&page).len(), 11);
}
