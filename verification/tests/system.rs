use xiaodao_core::permissions::{after_first_key, env_flag, panes_to_open, permission_report, FirstKeyOutcome};
use xiaodao_core::platform::{app_from_image_path, privacy_uri, sound_alias};
use xiaodao_core::types::{parse_section, Permissions, PrivacySection, SoundEvent};

#[test]
fn permission_report_lists_missing() {
    let all = Permissions { input_monitoring: true, accessibility: true };
    assert!(all.all_granted());
    assert!(permission_report(all).is_none());
    let none = Permissions { input_monitoring: false, accessibility: false };
    let r = permission_report(none).unwrap();
    assert_eq!(r.missing, vec![PrivacySection::InputMonitoring, PrivacySection::Accessibility]);
    assert_eq!(r.status_text, "状态：缺权限（输入监听、辅助功能）→ 点我去授权");
    assert_eq!(r.title, "缺少权限：输入监听、辅助功能");
    let r = permission_report(Permissions { input_monitoring: true, accessibility: false }).unwrap();
    assert_eq!(r.missing, vec![PrivacySection::Accessibility]);
    assert_eq!(r.title, "缺少权限：辅助功能");
}

#[test]
fn first_key_clears_input_monitoring() {
    let (left, outcome) = after_first_key(&vec![PrivacySection::InputMonitoring]);
    assert!(left.is_empty());
    assert!(matches!(outcome, FirstKeyOutcome::AllClear));
    let (left, outcome) =
        after_first_key(&vec![PrivacySection::InputMonitoring, PrivacySection::Accessibility]);
    assert_eq!(left, vec![PrivacySection::Accessibility]);
    assert!(matches!(outcome, FirstKeyOutcome::StillMissing));
    let (left, outcome) = after_first_key(&vec![]);
    assert!(left.is_empty());
    assert!(matches!(outcome, FirstKeyOutcome::Unchanged));
    assert_eq!(panes_to_open(&vec![]), vec![PrivacySection::InputMonitoring]);
    assert_eq!(panes_to_open(&vec![PrivacySection::Accessibility]), vec![PrivacySection::Accessibility]);
}

#[test]
fn environment_switches() {
    assert!(env_flag(Some("1")));
    assert!(env_flag(Some("true")));
    assert!(env_flag(Some("yes")));
    assert!(!env_flag(Some("TRUE")));
    assert!(!env_flag(None));
}

#[test]
fn privacy_panes_by_name() {
    assert_eq!(parse_section("microphone"), Some(PrivacySection::Microphone));
    assert_eq!(parse_section("input_monitoring"), Some(PrivacySection::InputMonitoring));
    assert_eq!(parse_section("nope"), None);
    assert_eq!(privacy_uri(PrivacySection::Microphone), "ms-settings:privacy-microphone");
    assert_eq!(privacy_uri(PrivacySection::Accessibility), "ms-settings:privacy");
    assert_eq!(sound_alias(SoundEvent::Cancel), "SystemHand");
}

#[test]
fn windows_app_name_from_image_path() {
    let app = app_from_image_path("C:\\Program Files\\Tencent\\WeChat.exe");
    assert_eq!(app.name, "WeChat");
    assert_eq!(app.id, "WeChat");
    assert_eq!(app_from_image_path("C:/tools/code.app.exe").name, "code.app");
    assert_eq!(app_from_image_path("C:\\bin\\.hidden").name, ".hidden");
    assert_eq!(app_from_image_path("C:\\bin\\noext").name, "noext");
    assert_eq!(app_from_image_path("").name, "");
    assert_eq!(app_from_image_path("C:\\dir\\").name, "");
}
