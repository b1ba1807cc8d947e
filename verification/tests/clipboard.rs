//! Clipboard transactions run against an in-memory clipboard.

use xiaodao_core::paster::{
    capture_selection_with, copy_to_clipboard, paste_text, paste_text_restoring, paste_text_with,
    restore_clipboard, CaptureStep, ClipOp, FlowStep, OpResult, PasteFlow, PasterTimings,
    SelectionCapture, SENTINEL, CLIPBOARD_RESTORE_DELAY_MS,
};

#[derive(Default)]
struct FakeClipboard {
    clipboard: Option<String>,
    copy_effect: Option<String>,
    writes: Vec<Option<String>>,
    copies: usize,
    pastes: usize,
    fail_paste: bool,
    /// Restores handed to the background, with their delay.
    deferred: Vec<(u64, Option<String>)>,
    waits: Vec<u64>,
}

fn fake(initial: Option<&str>, copy_effect: Option<&str>) -> FakeClipboard {
    FakeClipboard {
        clipboard: initial.map(str::to_owned),
        copy_effect: copy_effect.map(str::to_owned),
        ..Default::default()
    }
}

impl FakeClipboard {
    fn perform(&mut self, op: ClipOp) -> OpResult {
        let done = OpResult { ok: true, text: None };
        match op {
            ClipOp::Read => OpResult { ok: true, text: self.clipboard.clone() },
            ClipOp::Write(t) => {
                self.clipboard = Some(t.clone());
                self.writes.push(Some(t));
                done
            }
            ClipOp::Clear => {
                self.clipboard = None;
                self.writes.push(None);
                done
            }
            ClipOp::SendCopy => {
                self.copies += 1;
                if let Some(e) = self.copy_effect.clone() {
                    self.clipboard = Some(e);
                }
                done
            }
            ClipOp::SendPaste => {
                if self.fail_paste {
                    return OpResult { ok: false, text: None };
                }
                self.pastes += 1;
                done
            }
            ClipOp::Wait(ms) => {
                self.waits.push(ms);
                done
            }
            ClipOp::RestoreLater(ms, original) => {
                self.deferred.push((ms, original));
                done
            }
        }
    }

    /// The background restores run (the delay has passed).
    fn run_deferred(&mut self) {
        for (_, original) in std::mem::take(&mut self.deferred) {
            let op = restore_clipboard(original.as_deref());
            self.perform(op);
        }
    }

    fn paste(&mut self, flow_and_step: (PasteFlow, FlowStep)) -> bool {
        let (mut flow, mut step) = flow_and_step;
        loop {
            match step {
                FlowStep::Finished(ok) => return ok,
                FlowStep::Run(op) => {
                    let r = self.perform(op);
                    step = flow.step(r);
                }
            }
        }
    }

    fn capture(&mut self, timings: PasterTimings) -> SelectionCapture {
        let (mut flow, mut op) = capture_selection_with(timings);
        loop {
            let r = self.perform(op);
            match flow.step(r) {
                CaptureStep::Run(next) => op = next,
                CaptureStep::Captured(c) => return c,
            }
        }
    }
}

fn fast() -> PasterTimings {
    PasterTimings { before_paste_ms: 0, restore_delay_ms: 0, sentinel_settle_ms: 0, copy_settle_ms: 0 }
}

#[test]
fn paste_restores_clipboard_after_delay() {
    let mut f = fake(Some("老板的转账账号"), None);
    let timings = PasterTimings { restore_delay_ms: 80, ..fast() };
    assert!(f.paste(paste_text_with("转写结果", None, timings)));
    assert_eq!(f.pastes, 1);
    assert_eq!(f.clipboard.as_deref(), Some("转写结果"));
    assert_eq!(f.deferred, vec![(80, Some("老板的转账账号".to_owned()))]);
    f.run_deferred();
    assert_eq!(f.clipboard.as_deref(), Some("老板的转账账号"));

    assert!(!f.paste(paste_text_with("   ", None, timings)));
    assert!(!f.paste(paste_text_with("", None, timings)));
    assert_eq!(f.pastes, 1);
}

#[test]
fn restore_clears_when_original_empty() {
    let mut f = fake(None, None);
    assert!(f.paste(paste_text_with("转写结果", None, fast())));
    f.run_deferred();
    assert!(f.clipboard.is_none());
    assert_eq!(f.writes, vec![Some("转写结果".to_owned()), None]);
}

#[test]
fn capture_without_selection_restores_clipboard() {
    let mut f = fake(Some("用户原有内容"), None);
    let mut capture = f.capture(fast());
    assert_eq!(f.copies, 1);
    assert!(capture.text.is_none());
    let op = capture.restore().unwrap();
    f.perform(op);
    assert_eq!(f.clipboard.as_deref(), Some("用户原有内容"));
}

#[test]
fn empty_copy_result_means_no_selection() {
    let mut f = fake(Some("用户原有内容"), Some(""));
    let mut capture = f.capture(fast());
    assert!(capture.text.is_none());
    let op = capture.restore().unwrap();
    f.perform(op);
    assert_eq!(f.clipboard.as_deref(), Some("用户原有内容"));
}

#[test]
fn capture_replace_then_restores_clipboard() {
    let mut f = fake(Some("旧内容"), Some("选中的文字"));
    let timings = PasterTimings { restore_delay_ms: 120, ..fast() };
    let mut capture = f.capture(timings);
    assert_eq!(capture.text.as_deref(), Some("选中的文字"));
    let flow = capture.replace("改写结果");
    assert!(f.paste(flow));
    assert_eq!(f.pastes, 1);
    assert_eq!(f.clipboard.as_deref(), Some("改写结果"));
    // The replace took over the delayed restore: cleaning up does nothing now.
    assert!(capture.restore().is_none());
    assert_eq!(f.clipboard.as_deref(), Some("改写结果"));
    assert_eq!(f.deferred, vec![(120, Some("旧内容".to_owned()))]);
    f.run_deferred();
    assert_eq!(f.clipboard.as_deref(), Some("旧内容"));
}

#[test]
fn repeated_replace_is_rejected() {
    let mut f = fake(Some("旧内容"), Some("选中的文字"));
    let mut capture = f.capture(fast());
    let first = capture.replace("改写结果");
    assert!(f.paste(first));
    let second = capture.replace("又一次改写");
    assert!(!f.paste(second));
    assert_eq!(f.pastes, 1);
}

#[test]
fn failed_replace_restores_immediately() {
    let mut f = fake(Some("旧内容"), Some("选中的文字"));
    let mut capture = f.capture(fast());
    assert_eq!(capture.text.as_deref(), Some("选中的文字"));
    f.fail_paste = true;
    let flow = capture.replace("改写结果");
    assert!(!f.paste(flow));
    assert_eq!(f.pastes, 0);
    assert_eq!(f.clipboard.as_deref(), Some("旧内容"));
    assert!(f.deferred.is_empty());
}

#[test]
fn restore_is_idempotent() {
    let mut f = fake(Some("旧内容"), None);
    let mut capture = f.capture(fast());
    let op = capture.restore().unwrap();
    f.perform(op);
    let after_first = f.writes.len();
    assert!(capture.restore().is_none());
    assert!(capture.restore().is_none());
    assert_eq!(f.writes.len(), after_first);
    assert_eq!(f.clipboard.as_deref(), Some("旧内容"));
}

#[test]
fn copy_to_clipboard_writes_only() {
    let mut f = fake(Some("旧内容"), None);
    let op = copy_to_clipboard("历史记录一条");
    assert!(f.perform(op).ok);
    assert_eq!(f.clipboard.as_deref(), Some("历史记录一条"));
    assert_eq!(f.pastes, 0);
    assert!(f.deferred.is_empty());
}

#[test]
fn capture_ignores_sentinel_and_failed_copy() {
    let mut f = fake(Some("x"), Some(SENTINEL));
    assert!(f.capture(fast()).text.is_none());
    assert_eq!(f.clipboard.as_deref(), Some(SENTINEL));
}

#[test]
fn default_waits() {
    let t = PasterTimings::default();
    assert_eq!(t.before_paste_ms, 30);
    assert_eq!(t.restore_delay_ms, CLIPBOARD_RESTORE_DELAY_MS);
    assert_eq!(t.sentinel_settle_ms, 50);
    assert_eq!(t.copy_settle_ms, 250);
    let mut f = fake(Some("a"), None);
    assert!(f.paste(paste_text("b")));
    assert_eq!(f.waits, vec![30]);
    assert_eq!(f.deferred, vec![(400, Some("a".to_owned()))]);
    // An explicit clipboard to give back is used as is, without reading.
    let mut g = fake(Some("now"), None);
    assert!(g.paste(paste_text_restoring("c", Some(None))));
    assert_eq!(g.deferred, vec![(400, None)]);
}
