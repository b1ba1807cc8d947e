//! The hotkey state machine and the workers, driven the way the runtime
//! drives them, against in-memory stand-ins for the recorder, transcriber,
//! LLM client, clipboard and UI.

use xiaodao_core::hotkey::{
    next_preview_interval_ns, preview_has_audio, Effect, HotkeyMachine, KeyContext,
    DOUBLE_TAP_WINDOW_NS, MIN_HOLD_NS, PREVIEW_MIN_INTERVAL_NS,
};
use xiaodao_core::keys::{HotkeyId, KeyEvent, KeyKind, RecordMode, TargetOs};
use xiaodao_core::paster::{ClipOp, FlowStep, OpResult, SelectionCapture, CaptureStep, capture_selection, paste_text};
use xiaodao_core::pipeline::{Action, WorkerEvent, WorkerFlow};
use xiaodao_core::settings::Settings;
use xiaodao_core::types::{Channel, FrontmostApp, SoundEvent, Status};

const OS: TargetOs = TargetOs::MacOs;

struct FakePolisher {
    enabled: bool,
    polished: Option<String>,
    rewritten: Option<String>,
    polish_calls: Vec<(String, Option<String>)>,
    rewrite_calls: Vec<(String, String)>,
}

fn polisher(enabled: bool, polished: Option<&str>, rewritten: Option<&str>) -> FakePolisher {
    FakePolisher {
        enabled,
        polished: polished.map(str::to_string),
        rewritten: rewritten.map(str::to_string),
        polish_calls: Vec::new(),
        rewrite_calls: Vec::new(),
    }
}

struct Harness {
    m: HotkeyMachine,
    settings: Settings,
    polisher: Option<FakePolisher>,
    // recorder
    recording: bool,
    duration_ns: u64,
    samples: usize,
    // clock
    now_ns: u64,
    // platform
    clipboard: Option<String>,
    selection: Option<String>,
    app: FrontmostApp,
    pasted: Vec<String>,
    sounds: Vec<SoundEvent>,
    // transcriber
    text: String,
    // observers
    statuses: Vec<Status>,
    notifications: Vec<(String, String)>,
    history: Vec<(String, String)>,
    hud_statuses: Vec<(String, String)>,
    hud_begins: usize,
    first_key: usize,
}

fn harness(mode: RecordMode) -> Harness {
    let mut settings = Settings::defaults(OS);
    settings.live_preview = false;
    settings.sounds = true;
    Harness {
        m: HotkeyMachine::new(HotkeyId::default_dictate(OS), HotkeyId::default_rewrite(OS), mode, MIN_HOLD_NS),
        settings,
        polisher: None,
        recording: false,
        duration_ns: 1_000_000_000,
        samples: 160,
        now_ns: 1_000_000_000_000,
        clipboard: None,
        selection: None,
        app: FrontmostApp { name: String::new(), id: String::new() },
        pasted: Vec::new(),
        sounds: Vec::new(),
        text: String::new(),
        statuses: Vec::new(),
        notifications: Vec::new(),
        history: Vec::new(),
        hud_statuses: Vec::new(),
        hud_begins: 0,
        first_key: 0,
    }
}

fn dictate() -> HotkeyId {
    HotkeyId::default_dictate(OS)
}

fn rewrite() -> HotkeyId {
    HotkeyId::default_rewrite(OS)
}

impl Harness {
    fn cx(&self) -> KeyContext {
        KeyContext {
            now_ns: self.now_ns,
            recorded_ns: self.duration_ns,
            live_preview: self.settings.live_preview,
            sounds: self.settings.sounds,
        }
    }

    fn key(&mut self, key: KeyKind, pressed: bool) {
        let cx = self.cx();
        let effects = self.m.on_key(KeyEvent { key, pressed }, cx);
        self.run(effects);
    }

    fn press(&mut self, id: HotkeyId) {
        self.key(KeyKind::Hotkey(id), true);
    }

    fn release(&mut self, id: HotkeyId) {
        self.key(KeyKind::Hotkey(id), false);
    }

    fn press_other(&mut self) {
        self.key(KeyKind::Other, true);
    }

    fn run(&mut self, effects: Vec<Effect>) {
        for e in effects {
            match e {
                Effect::FirstKeyEvent => self.first_key += 1,
                Effect::StartRecorder => self.recording = true,
                Effect::AbortRecorder => self.recording = false,
                Effect::StopRecorder { check_min_hold } => {
                    self.recording = false;
                    let more = self.m.finish(check_min_hold, self.samples, self.duration_ns, self.settings.sounds);
                    self.run(more);
                }
                Effect::StartPreview { .. } => self.hud_begins += 1,
                Effect::StopPreview => {}
                Effect::Play(s) => self.sounds.push(s),
                Effect::Status(s) => self.statuses.push(s),
                Effect::HideHud => {}
                Effect::ShowTranscribing => self.hud_statuses.push(("转写中…".into(), String::new())),
                Effect::SpawnWorker(ch) => self.work(ch),
            }
        }
    }

    fn clip(&mut self, op: ClipOp) -> OpResult {
        match op {
            ClipOp::Read => OpResult { ok: true, text: self.clipboard.clone() },
            ClipOp::Write(t) => {
                self.clipboard = Some(t);
                OpResult { ok: true, text: None }
            }
            ClipOp::Clear => {
                self.clipboard = None;
                OpResult { ok: true, text: None }
            }
            ClipOp::SendCopy => {
                if let Some(sel) = self.selection.clone() {
                    self.clipboard = Some(sel);
                }
                OpResult { ok: true, text: None }
            }
            ClipOp::SendPaste => {
                self.pasted.push(self.clipboard.clone().unwrap_or_default());
                OpResult { ok: true, text: None }
            }
            ClipOp::Wait(_) => OpResult { ok: true, text: None },
            ClipOp::RestoreLater(_, original) => {
                self.clipboard = original;
                OpResult { ok: true, text: None }
            }
        }
    }

    fn paste_flow(&mut self, mut flow: xiaodao_core::paster::PasteFlow, mut step: FlowStep) -> bool {
        loop {
            match step {
                FlowStep::Finished(ok) => return ok,
                FlowStep::Run(op) => {
                    let r = self.clip(op);
                    step = flow.step(r);
                }
            }
        }
    }

    fn capture(&mut self) -> SelectionCapture {
        let (mut flow, first) = capture_selection();
        let mut op = first;
        loop {
            let r = self.clip(op);
            match flow.step(r) {
                CaptureStep::Run(next) => op = next,
                CaptureStep::Captured(c) => return c,
            }
        }
    }

    fn work(&mut self, channel: Channel) {
        let mut flow = WorkerFlow::new(channel);
        let mut capture: Option<SelectionCapture> = None;
        let mut event = WorkerEvent::Begin;
        loop {
            let has_polisher = self.polisher.is_some();
            if let Some(p) = &self.polisher {
                self.settings.polish.enabled = p.enabled;
            }
            let actions = flow.step(&self.settings, has_polisher, event);
            let mut next: Option<WorkerEvent> = None;
            for a in actions {
                match a {
                    Action::Transcribe => next = Some(WorkerEvent::Transcript(Some(self.text.clone()))),
                    Action::QueryFrontmostApp => next = Some(WorkerEvent::App(self.app.clone())),
                    Action::SetStatus(s) => self.statuses.push(s),
                    Action::HudStatus(a, b) => self.hud_statuses.push((a, b)),
                    Action::Polish(text, style) => {
                        let p = self.polisher.as_mut().unwrap();
                        p.polish_calls.push((text, style));
                        next = Some(WorkerEvent::Polished(p.polished.clone()));
                    }
                    Action::Paste(text) => {
                        let (f, s) = paste_text(&text);
                        self.paste_flow(f, s);
                    }
                    Action::AppendHistory(raw, fin) => self.history.push((raw, fin)),
                    Action::Play(s) => self.sounds.push(s),
                    Action::Notify(t, m) => self.notifications.push((t, m)),
                    Action::CaptureSelection => {
                        let c = self.capture();
                        next = Some(WorkerEvent::Captured(c.text.clone()));
                        capture = Some(c);
                    }
                    Action::Rewrite(sel, ins) => {
                        let p = self.polisher.as_mut().unwrap();
                        p.rewrite_calls.push((sel, ins));
                        next = Some(WorkerEvent::Rewritten(p.rewritten.clone()));
                    }
                    Action::ReplaceSelection(text) => {
                        let mut c = capture.take().unwrap();
                        let (f, s) = c.replace(&text);
                        let ok = self.paste_flow(f, s);
                        capture = Some(c);
                        next = Some(WorkerEvent::Replaced(ok));
                    }
                    Action::RestoreSelection => {
                        if let Some(c) = capture.as_mut() {
                            if let Some(op) = c.restore() {
                                self.clip(op);
                            }
                        }
                    }
                    Action::HideHud => {}
                }
            }
            match next {
                Some(e) if !flow.is_done() => event = e,
                _ => break,
            }
        }
    }

    fn idles(&self) -> usize {
        self.statuses.iter().filter(|s| **s == Status::Idle).count()
    }
}

#[test]
fn toggle_basic() {
    let mut h = harness(RecordMode::Toggle);
    h.press(dictate());
    h.release(dictate());
    assert!(h.recording && h.m.is_recording());
    h.press(dictate());
    assert!(!h.recording && !h.m.is_recording());
    h.release(dictate());
    assert!(!h.m.is_recording());
    assert_eq!(h.idles(), 1);
    assert_eq!(h.statuses, vec![Status::Recording, Status::Transcribing, Status::Idle]);
    assert_eq!(h.sounds, vec![SoundEvent::Start, SoundEvent::Stop]);
    assert!(h.pasted.is_empty());
    assert!(h.history.is_empty());
}

#[test]
fn toggle_combo_no_false_start() {
    let mut h = harness(RecordMode::Toggle);
    h.press(dictate());
    h.press_other();
    h.release(dictate());
    assert!(!h.recording && !h.m.is_recording());
    assert!(h.statuses.is_empty());
    assert!(h.sounds.is_empty());
}

#[test]
fn toggle_other_key_cancels() {
    let mut h = harness(RecordMode::Toggle);
    h.press(dictate());
    h.release(dictate());
    assert!(h.recording);
    h.press_other();
    assert!(!h.recording && !h.m.is_recording());
    h.press(dictate());
    h.release(dictate());
    assert!(h.recording);
    assert_eq!(h.sounds, vec![SoundEvent::Start, SoundEvent::Cancel, SoundEvent::Start]);
    let effects = h.m.stop();
    h.run(effects);
}

#[test]
fn hold_basic_and_lock() {
    let mut h = harness(RecordMode::Hold);
    h.press(dictate());
    assert!(h.recording);
    h.duration_ns = 1_000_000_000;
    h.release(dictate());
    assert!(!h.recording && !h.m.is_recording());
    assert_eq!(h.idles(), 1);

    h.duration_ns = 100_000_000;
    h.press(dictate());
    h.release(dictate());
    assert!(!h.recording);
    assert!(!h.m.locked());
    h.press(dictate());
    h.release(dictate());
    assert!(h.recording && h.m.locked());

    h.duration_ns = 2_000_000_000;
    h.press(dictate());
    assert!(!h.recording && !h.m.locked());
    h.release(dictate());
    assert_eq!(h.idles(), 3);
}

#[test]
fn hold_combo_cancels() {
    let mut h = harness(RecordMode::Hold);
    h.press(dictate());
    assert!(h.recording);
    h.press_other();
    assert!(!h.recording);
    h.release(dictate());
    assert!(!h.m.is_recording() && !h.m.cancelled());
    assert_eq!(h.sounds, vec![SoundEvent::Start]);
}

#[test]
fn rewrite_channel() {
    let mut h = harness(RecordMode::Toggle);
    h.press(rewrite());
    h.release(rewrite());
    assert!(h.recording);
    assert_eq!(h.m.channel(), Channel::Rewrite);
    h.press(rewrite());
    assert!(!h.recording);
    h.release(rewrite());
    assert_eq!(h.idles(), 1);
    assert_eq!(
        h.notifications.first().map(|(t, _)| t.clone()),
        Some("语音改写不可用".to_string())
    );
    assert!(h.pasted.is_empty());
}

#[test]
fn cross_hotkey_cancels() {
    let mut h = harness(RecordMode::Toggle);
    h.press(dictate());
    h.release(dictate());
    assert!(h.recording);
    assert_eq!(h.m.channel(), Channel::Dictate);
    h.press(rewrite());
    assert!(!h.recording && !h.m.is_recording());
    h.release(rewrite());
    h.press(rewrite());
    h.release(rewrite());
    assert!(h.recording);
    assert_eq!(h.m.channel(), Channel::Rewrite);
    let effects = h.m.stop();
    h.run(effects);
}

#[test]
fn pause_resume() {
    let mut h = harness(RecordMode::Toggle);
    let e = h.m.set_paused(true, h.settings.sounds);
    h.run(e);
    assert!(h.m.paused());
    h.press(dictate());
    h.release(dictate());
    assert!(!h.recording && !h.m.is_recording());

    let e = h.m.set_paused(false, h.settings.sounds);
    h.run(e);
    assert!(!h.m.paused());
    h.press(dictate());
    h.release(dictate());
    assert!(h.recording);

    let e = h.m.set_paused(true, h.settings.sounds);
    h.run(e);
    assert!(!h.recording && !h.m.is_recording());
}

#[test]
fn hold_short_taps_outside_window_do_not_lock() {
    let mut h = harness(RecordMode::Hold);
    h.duration_ns = 100_000_000;
    h.press(dictate());
    h.release(dictate());
    assert!(!h.m.locked());
    h.now_ns += DOUBLE_TAP_WINDOW_NS + 10_000_000;
    h.press(dictate());
    h.release(dictate());
    assert!(!h.m.locked() && !h.recording);
    assert!(h.pasted.is_empty());
}

#[test]
fn toggle_short_recording_discarded() {
    let mut h = harness(RecordMode::Toggle);
    h.text = "不该出现".into();
    h.duration_ns = 100_000_000;
    h.press(dictate());
    h.release(dictate());
    h.press(dictate());
    h.release(dictate());
    assert_eq!(h.statuses, vec![Status::Recording, Status::Idle]);
    assert!(h.pasted.is_empty());
    assert_eq!(h.sounds, vec![SoundEvent::Start]);
}

#[test]
fn dictate_worker_applies_replacements_polish_and_history() {
    let mut h = harness(RecordMode::Toggle);
    h.text = "原始 转写 结果".into();
    h.polisher = Some(polisher(true, Some("润色后的文本"), None));
    h.settings.replacements.insert("转写".to_string(), "識別".to_string());
    h.settings.app_styles.insert("com.apple.Notes".to_string(), "书面化".to_string());
    h.app = FrontmostApp { name: "备忘录".to_string(), id: "com.apple.Notes".to_string() };

    h.press(dictate());
    h.release(dictate());
    h.press(dictate());
    h.release(dictate());
    assert_eq!(h.idles(), 1);

    assert_eq!(
        h.polisher.as_ref().unwrap().polish_calls,
        vec![("原始 識別 结果".to_string(), Some("书面化".to_string()))]
    );
    assert_eq!(h.pasted, vec!["润色后的文本".to_string()]);
    assert_eq!(
        h.history,
        vec![("原始 转写 结果".to_string(), "润色后的文本".to_string())]
    );
    assert_eq!(
        h.statuses,
        vec![Status::Recording, Status::Transcribing, Status::Polishing, Status::Idle]
    );
    assert!(h.hud_statuses.iter().any(|(t, _)| t == "润色中…"));
}

#[test]
fn dictate_worker_respects_style_off() {
    let mut h = harness(RecordMode::Toggle);
    h.text = "直出文本".into();
    h.polisher = Some(polisher(true, Some("不该用到"), None));
    h.settings.app_styles.insert("Terminal".to_string(), "关闭".to_string());
    h.app = FrontmostApp { name: "Terminal".to_string(), id: "com.apple.Terminal".to_string() };

    h.press(dictate());
    h.release(dictate());
    h.press(dictate());
    h.release(dictate());
    assert_eq!(h.idles(), 1);

    assert!(h.polisher.as_ref().unwrap().polish_calls.is_empty());
    assert_eq!(h.pasted, vec!["直出文本".to_string()]);
    assert!(!h.statuses.contains(&Status::Polishing));
}

#[test]
fn dictate_worker_fail_open_on_polish_failure() {
    let mut h = harness(RecordMode::Toggle);
    h.text = "兜底文本".into();
    h.polisher = Some(polisher(true, None, None));
    h.press(dictate());
    h.release(dictate());
    h.press(dictate());
    h.release(dictate());
    assert_eq!(h.idles(), 1);
    assert_eq!(h.pasted, vec!["兜底文本".to_string()]);
}

#[test]
fn rewrite_worker_replaces_selection() {
    let mut h = harness(RecordMode::Toggle);
    h.text = "  改成英文  ".into();
    h.polisher = Some(polisher(false, None, Some("Rewritten text")));
    h.selection = Some("选中的文字".into());
    h.clipboard = Some("旧内容".into());

    h.press(rewrite());
    h.release(rewrite());
    h.press(rewrite());
    h.release(rewrite());
    assert_eq!(h.idles(), 1);

    assert_eq!(
        h.polisher.as_ref().unwrap().rewrite_calls,
        vec![("选中的文字".to_string(), "改成英文".to_string())]
    );
    assert_eq!(h.pasted, vec!["Rewritten text".to_string()]);
    assert_eq!(
        h.history,
        vec![("〔改写〕改成英文".to_string(), "Rewritten text".to_string())]
    );
    assert!(h.hud_statuses.iter().any(|(t, _)| t == "识别指令中…"));
    // The clipboard the user had is back once the paste is over.
    assert_eq!(h.clipboard.as_deref(), Some("旧内容"));
}

#[test]
fn rewrite_worker_without_selection_notifies() {
    let mut h = harness(RecordMode::Toggle);
    h.text = "改成英文".into();
    h.polisher = Some(polisher(false, None, Some("不该用到")));
    h.clipboard = Some("用户原有内容".into());

    h.press(rewrite());
    h.release(rewrite());
    h.press(rewrite());
    h.release(rewrite());
    assert_eq!(h.idles(), 1);

    assert!(h.polisher.as_ref().unwrap().rewrite_calls.is_empty());
    assert!(h.pasted.is_empty());
    assert_eq!(
        h.notifications.first().map(|(t, _)| t.clone()),
        Some("未检测到选中文字".to_string())
    );
    assert!(h.sounds.contains(&SoundEvent::Cancel));
    assert_eq!(h.clipboard.as_deref(), Some("用户原有内容"));
}

#[test]
fn rewrite_worker_without_instruction_notifies() {
    let mut h = harness(RecordMode::Toggle);
    h.text = "   ".into();
    h.polisher = Some(polisher(false, None, Some("不该用到")));
    h.selection = Some("选中的文字".into());

    h.press(rewrite());
    h.release(rewrite());
    h.press(rewrite());
    h.release(rewrite());
    assert_eq!(h.idles(), 1);

    assert!(h.polisher.as_ref().unwrap().rewrite_calls.is_empty());
    assert_eq!(
        h.notifications.first().map(|(t, _)| t.clone()),
        Some("没听清指令".to_string())
    );
}

#[test]
fn rewrite_failure_leaves_text_alone() {
    let mut h = harness(RecordMode::Toggle);
    h.text = "改成英文".into();
    h.polisher = Some(polisher(false, None, None));
    h.selection = Some("选中的文字".into());
    h.clipboard = Some("旧内容".into());
    h.press(rewrite());
    h.release(rewrite());
    h.press(rewrite());
    h.release(rewrite());
    assert_eq!(h.notifications.first().map(|(t, _)| t.clone()), Some("改写失败".to_string()));
    assert!(h.pasted.is_empty());
    assert!(h.history.is_empty());
    assert_eq!(h.clipboard.as_deref(), Some("旧内容"));
}

#[test]
fn first_key_event_probe_fires_once() {
    let mut h = harness(RecordMode::Toggle);
    let e = h.m.set_paused(true, h.settings.sounds);
    h.run(e);
    h.press_other();
    h.press_other();
    assert_eq!(h.first_key, 1);
}

#[test]
fn switching_config_aborts_recording() {
    let mut h = harness(RecordMode::Toggle);
    h.press(dictate());
    h.release(dictate());
    assert!(h.recording);
    let e = h.m.set_mode(RecordMode::Hold, h.settings.sounds);
    h.run(e);
    assert!(!h.recording && !h.m.is_recording());
    assert_eq!(h.m.mode(), RecordMode::Hold);

    h.press(dictate());
    assert!(h.recording);
    let e = h.m.set_trigger(HotkeyId::F19, h.settings.sounds);
    h.run(e);
    assert!(!h.recording);
    let e = h.m.set_rewrite_trigger(HotkeyId::F19, h.settings.sounds);
    h.run(e);
}

#[test]
fn sounds_can_be_muted() {
    let mut h = harness(RecordMode::Toggle);
    h.settings.sounds = false;
    h.press(dictate());
    h.release(dictate());
    h.press(dictate());
    h.release(dictate());
    assert_eq!(h.idles(), 1);
    assert!(h.sounds.is_empty());
}

#[test]
fn preview_starts_only_when_enabled() {
    let mut h = harness(RecordMode::Toggle);
    h.settings.live_preview = true;
    h.press(dictate());
    h.release(dictate());
    assert_eq!(h.hud_begins, 1);
    let effects = h.m.stop();
    assert_eq!(effects, vec![Effect::StopPreview]);
}

#[test]
fn preview_pacing() {
    assert!(!preview_has_audio(160));
    assert!(preview_has_audio(16_000));
    assert_eq!(next_preview_interval_ns(100_000_000), PREVIEW_MIN_INTERVAL_NS);
    assert_eq!(next_preview_interval_ns(1_000_000_000), 2_500_000_000);
}
