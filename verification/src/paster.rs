//! Pasting and selection capture, as clipboard transactions.
//!
//! - Paste: keep the clipboard → write the text → paste shortcut → give the
//!   kept clipboard back after a delay, in the background.
//! - Capture: write a sentinel → copy shortcut → read back; still the
//!   sentinel means nothing was selected.
//!
//! The platform performs each [`ClipOp`] and reports an [`OpResult`]; the
//! flows here decide the next operation and the outcome.

use vstd::prelude::*;
use crate::context::opt_text;
use crate::text::{blank, is_blank, str_eq};

verus! {

/// Delay before the kept clipboard is given back after a paste (ms).
pub const CLIPBOARD_RESTORE_DELAY_MS: u64 = 400;

/// Capture sentinel: a zero-width space on each side, which no normal text
/// is expected to match.
pub const SENTINEL: &'static str = "\u{200b}__xiaodao_sentinel__\u{200b}";

/// The waits of the flows, in milliseconds.
#[derive(Debug, Clone, Copy, PartialEq, Eq, Structural)]
pub struct PasterTimings {
    /// Between writing the clipboard and the paste shortcut.
    pub before_paste_ms: u64,
    /// Between the paste and giving the clipboard back.
    pub restore_delay_ms: u64,
    /// Between writing the sentinel and the copy shortcut.
    pub sentinel_settle_ms: u64,
    /// Between the copy shortcut and reading the clipboard back.
    pub copy_settle_ms: u64,
}

impl Default for PasterTimings {
    fn default() -> (r: PasterTimings)
        ensures
            r == (PasterTimings {
                before_paste_ms: 30,
                restore_delay_ms: CLIPBOARD_RESTORE_DELAY_MS,
                sentinel_settle_ms: 50,
                copy_settle_ms: 250,
            }),
    {
        PasterTimings {
            before_paste_ms: 30,
            restore_delay_ms: CLIPBOARD_RESTORE_DELAY_MS,
            sentinel_settle_ms: 50,
            copy_settle_ms: 250,
        }
    }
}

/// A clipboard or keyboard operation.
pub enum ClipOp {
    /// Read the text clipboard.
    Read,
    /// Write a text to the clipboard.
    Write(String),
    /// Empty the clipboard.
    Clear,
    /// Copy shortcut (Cmd+C / Ctrl+C).
    SendCopy,
    /// Paste shortcut (Cmd+V / Ctrl+V).
    SendPaste,
    /// Wait this many milliseconds.
    Wait(u64),
    /// In the background, after this many milliseconds, give the clipboard
    /// back: write the text, or empty the clipboard for `None`.
    RestoreLater(u64, Option<String>),
}

/// [`ClipOp`] with texts as character sequences.
pub enum ClipOpModel {
    Read,
    Write(Seq<char>),
    Clear,
    SendCopy,
    SendPaste,
    Wait(u64),
    RestoreLater(u64, Option<Seq<char>>),
}

impl View for ClipOp {
    type V = ClipOpModel;

    open spec fn view(&self) -> ClipOpModel {
        match self {
            ClipOp::Read => ClipOpModel::Read,
            ClipOp::Write(t) => ClipOpModel::Write(t@),
            ClipOp::Clear => ClipOpModel::Clear,
            ClipOp::SendCopy => ClipOpModel::SendCopy,
            ClipOp::SendPaste => ClipOpModel::SendPaste,
            ClipOp::Wait(ms) => ClipOpModel::Wait(*ms),
            ClipOp::RestoreLater(ms, t) => ClipOpModel::RestoreLater(*ms, opt_text(*t)),
        }
    }
}

/// Outcome of an operation: success, and for [`ClipOp::Read`] the text
/// read (`None` when the clipboard holds no text).
pub struct OpResult {
    pub ok: bool,
    pub text: Option<String>,
}

/// What a flow asks for next.
pub enum FlowStep {
    Run(ClipOp),
    /// The flow is over, with this outcome.
    Finished(bool),
}

pub enum FlowStepModel {
    Run(ClipOpModel),
    Finished(bool),
}

impl View for FlowStep {
    type V = FlowStepModel;

    open spec fn view(&self) -> FlowStepModel {
        match self {
            FlowStep::Run(op) => FlowStepModel::Run(op@),
            FlowStep::Finished(b) => FlowStepModel::Finished(*b),
        }
    }
}

/// Giving the clipboard back at once: write the kept text, or empty the
/// clipboard when it held none (never write an empty text instead).
pub open spec fn restore_op(original: Option<Seq<char>>) -> ClipOpModel {
    match original {
        Some(t) => ClipOpModel::Write(t),
        None => ClipOpModel::Clear,
    }
}

/// The operation that gives the clipboard back at once.
pub fn restore_clipboard(original: Option<&str>) -> (r: ClipOp)
    ensures
        r@ == restore_op(
            match original {
                Some(t) => Some(t@),
                None => None,
            },
        ),
{
    match original {
        Some(text) => ClipOp::Write(text.to_owned()),
        None => ClipOp::Clear,
    }
}

/// Copy only (history menu): write the text, no paste, nothing restored.
pub fn copy_to_clipboard(text: &str) -> (r: ClipOp)
    ensures
        r@ == ClipOpModel::Write(text@),
{
    ClipOp::Write(text.to_owned())
}

#[derive(Debug, Clone, Copy, PartialEq, Eq, Structural)]
pub enum PasteStage {
    ReadOriginal,
    Write,
    Settle,
    Paste,
    HandOff,
    RestoreNow,
    Done,
}

pub struct PasteModel {
    pub text: Seq<char>,
    pub original: Option<Seq<char>>,
    pub stage: PasteStage,
    pub timings: PasterTimings,
    pub restore_on_failure: bool,
    pub outcome: bool,
}

/// A failed paste: give the clipboard back at once when the flow owns it
/// (selection replace), otherwise stop.
pub open spec fn paste_fail(m: PasteModel) -> (PasteModel, FlowStepModel) {
    if m.restore_on_failure {
        (
            PasteModel { stage: PasteStage::RestoreNow, outcome: false, ..m },
            FlowStepModel::Run(restore_op(m.original)),
        )
    } else {
        (PasteModel { stage: PasteStage::Done, outcome: false, ..m }, FlowStepModel::Finished(false))
    }
}

/// First step of a paste. `restore_to` is `None` to keep the current
/// clipboard, `Some(o)` to give back `o` instead.
pub open spec fn paste_start(
    text: Seq<char>,
    restore_to: Option<Option<Seq<char>>>,
    timings: PasterTimings,
    restore_on_failure: bool,
) -> (PasteModel, FlowStepModel) {
    let m = PasteModel {
        text,
        original: match restore_to {
            Some(o) => o,
            None => None,
        },
        stage: PasteStage::ReadOriginal,
        timings,
        restore_on_failure,
        outcome: false,
    };
    if is_blank(text) {
        paste_fail(m)
    } else {
        match restore_to {
            None => (m, FlowStepModel::Run(ClipOpModel::Read)),
            Some(o) => (
                PasteModel { stage: PasteStage::Write, ..m },
                FlowStepModel::Run(ClipOpModel::Write(text)),
            ),
        }
    }
}

/// A paste step: the result of the last operation leads to the next one.
pub open spec fn paste_next(m: PasteModel, ok: bool, read: Option<Seq<char>>) -> (
    PasteModel,
    FlowStepModel,
) {
    match m.stage {
        PasteStage::ReadOriginal => (
            PasteModel { original: read, stage: PasteStage::Write, ..m },
            FlowStepModel::Run(ClipOpModel::Write(m.text)),
        ),
        PasteStage::Write => if ok {
            (
                PasteModel { stage: PasteStage::Settle, ..m },
                FlowStepModel::Run(ClipOpModel::Wait(m.timings.before_paste_ms)),
            )
        } else {
            paste_fail(m)
        },
        PasteStage::Settle => (
            PasteModel { stage: PasteStage::Paste, ..m },
            FlowStepModel::Run(ClipOpModel::SendPaste),
        ),
        PasteStage::Paste => if ok {
            (
                PasteModel { stage: PasteStage::HandOff, ..m },
                FlowStepModel::Run(
                    ClipOpModel::RestoreLater(m.timings.restore_delay_ms, m.original),
                ),
            )
        } else {
            paste_fail(m)
        },
        PasteStage::HandOff => (
            PasteModel { stage: PasteStage::Done, outcome: true, ..m },
            FlowStepModel::Finished(true),
        ),
        PasteStage::RestoreNow => (
            PasteModel { stage: PasteStage::Done, outcome: false, ..m },
            FlowStepModel::Finished(false),
        ),
        PasteStage::Done => (m, FlowStepModel::Finished(m.outcome)),
    }
}

/// A paste transaction.
pub struct PasteFlow {
    text: String,
    original: Option<String>,
    stage: PasteStage,
    timings: PasterTimings,
    restore_on_failure: bool,
    outcome: bool,
}

impl View for PasteFlow {
    type V = PasteModel;

    closed spec fn view(&self) -> PasteModel {
        PasteModel {
            text: self.text@,
            original: opt_text(self.original),
            stage: self.stage,
            timings: self.timings,
            restore_on_failure: self.restore_on_failure,
            outcome: self.outcome,
        }
    }
}

pub open spec fn opt_opt_text(o: Option<Option<String>>) -> Option<Option<Seq<char>>> {
    match o {
        Some(inner) => Some(opt_text(inner)),
        None => None,
    }
}

fn restore_of(original: &Option<String>) -> (r: ClipOp)
    ensures
        r@ == restore_op(opt_text(*original)),
{
    match original {
        Some(t) => ClipOp::Write(t.clone()),
        None => ClipOp::Clear,
    }
}

impl PasteFlow {
    fn fail(&mut self) -> (r: FlowStep)
        ensures
            final(self)@ == paste_fail(old(self)@).0,
            r@ == paste_fail(old(self)@).1,
    {
        self.outcome = false;
        if self.restore_on_failure {
            self.stage = PasteStage::RestoreNow;
            FlowStep::Run(restore_of(&self.original))
        } else {
            self.stage = PasteStage::Done;
            FlowStep::Finished(false)
        }
    }

    fn start(
        text: &str,
        restore_to: Option<Option<String>>,
        timings: PasterTimings,
        restore_on_failure: bool,
    ) -> (r: (PasteFlow, FlowStep))
        ensures
            r.0@ == paste_start(text@, opt_opt_text(restore_to), timings, restore_on_failure).0,
            r.1@ == paste_start(text@, opt_opt_text(restore_to), timings, restore_on_failure).1,
    {
        let explicit = restore_to.is_some();
        let original = match restore_to {
            Some(o) => o,
            None => None,
        };
        let mut flow = PasteFlow {
            text: text.to_owned(),
            original,
            stage: PasteStage::ReadOriginal,
            timings,
            restore_on_failure,
            outcome: false,
        };
        if blank(text) {
            let step = flow.fail();
            return (flow, step);
        }
        if explicit {
            flow.stage = PasteStage::Write;
            let step = FlowStep::Run(ClipOp::Write(text.to_owned()));
            (flow, step)
        } else {
            (flow, FlowStep::Run(ClipOp::Read))
        }
    }

    /// Feeds the result of the last operation; gives the next step.
    pub fn step(&mut self, result: OpResult) -> (r: FlowStep)
        ensures
            final(self)@ == paste_next(old(self)@, result.ok, opt_text(result.text)).0,
            r@ == paste_next(old(self)@, result.ok, opt_text(result.text)).1,
    {
        match self.stage {
            PasteStage::ReadOriginal => {
                self.original = result.text;
                self.stage = PasteStage::Write;
                FlowStep::Run(ClipOp::Write(self.text.clone()))
            },
            PasteStage::Write => {
                if result.ok {
                    self.stage = PasteStage::Settle;
                    FlowStep::Run(ClipOp::Wait(self.timings.before_paste_ms))
                } else {
                    self.fail()
                }
            },
            PasteStage::Settle => {
                self.stage = PasteStage::Paste;
                FlowStep::Run(ClipOp::SendPaste)
            },
            PasteStage::Paste => {
                if result.ok {
                    self.stage = PasteStage::HandOff;
                    FlowStep::Run(
                        ClipOp::RestoreLater(self.timings.restore_delay_ms, self.original.clone()),
                    )
                } else {
                    self.fail()
                }
            },
            PasteStage::HandOff => {
                self.stage = PasteStage::Done;
                self.outcome = true;
                FlowStep::Finished(true)
            },
            PasteStage::RestoreNow => {
                self.stage = PasteStage::Done;
                self.outcome = false;
                FlowStep::Finished(false)
            },
            PasteStage::Done => FlowStep::Finished(self.outcome),
        }
    }
}

/// Pastes `text` at the focus and gives the current clipboard back after
/// the delay; with `timings` for the waits. `restore_to`: `None` keeps the
/// current clipboard, `Some(o)` gives back `o` (`Some(None)`: empty it).
/// Blank text is not pasted.
pub fn paste_text_with(text: &str, restore_to: Option<Option<String>>, timings: PasterTimings) -> (r:
    (PasteFlow, FlowStep))
    ensures
        r.0@ == paste_start(text@, opt_opt_text(restore_to), timings, false).0,
        r.1@ == paste_start(text@, opt_opt_text(restore_to), timings, false).1,
{
    PasteFlow::start(text, restore_to, timings, false)
}

/// [`paste_text_with`] with an explicit clipboard to give back and the
/// default waits.
pub fn paste_text_restoring(text: &str, restore_to: Option<Option<String>>) -> (r: (
    PasteFlow,
    FlowStep,
))
    ensures
        r.0@ == paste_start(
            text@,
            opt_opt_text(restore_to),
            PasterTimings {
                before_paste_ms: 30,
                restore_delay_ms: CLIPBOARD_RESTORE_DELAY_MS,
                sentinel_settle_ms: 50,
                copy_settle_ms: 250,
            },
            false,
        ).0,
        r.1@ == paste_start(
            text@,
            opt_opt_text(restore_to),
            PasterTimings {
                before_paste_ms: 30,
                restore_delay_ms: CLIPBOARD_RESTORE_DELAY_MS,
                sentinel_settle_ms: 50,
                copy_settle_ms: 250,
            },
            false,
        ).1,
{
    paste_text_with(text, restore_to, PasterTimings::default())
}

/// Pastes `text` at the focus, keeping the current clipboard, with the
/// default waits.
pub fn paste_text(text: &str) -> (r: (PasteFlow, FlowStep))
    ensures
        r.0@ == paste_start(
            text@,
            None,
            PasterTimings {
                before_paste_ms: 30,
                restore_delay_ms: CLIPBOARD_RESTORE_DELAY_MS,
                sentinel_settle_ms: 50,
                copy_settle_ms: 250,
            },
            false,
        ).0,
        r.1@ == paste_start(
            text@,
            None,
            PasterTimings {
                before_paste_ms: 30,
                restore_delay_ms: CLIPBOARD_RESTORE_DELAY_MS,
                sentinel_settle_ms: 50,
                copy_settle_ms: 250,
            },
            false,
        ).1,
{
    paste_text_restoring(text, None)
}

/// A selection replacement transaction. The caller only sees whether text
/// was captured ([`SelectionCapture::text`]) and what to replace it with;
/// the sentinel and the kept clipboard stay here.
pub struct SelectionCapture {
    /// The captured selection; `None` when nothing was selected or the copy
    /// failed.
    pub text: Option<String>,
    original: Option<String>,
    settled: bool,
    timings: PasterTimings,
}

impl SelectionCapture {
    /// The captured selection.
    pub closed spec fn selection(&self) -> Option<Seq<char>> {
        opt_text(self.text)
    }

    /// The clipboard content before the capture.
    pub closed spec fn original(&self) -> Option<Seq<char>> {
        opt_text(self.original)
    }

    /// Whether the clipboard was handed back or handed to a paste.
    pub closed spec fn settled(&self) -> bool {
        self.settled
    }

    pub closed spec fn timings(&self) -> PasterTimings {
        self.timings
    }

    /// Replaces the selection by pasting `text`; the paste then gives the
    /// kept clipboard back (at once if the paste fails). A settled
    /// transaction refuses a second replacement.
    pub fn replace(&mut self, text: &str) -> (r: (PasteFlow, FlowStep))
        ensures
            final(self).selection() == old(self).selection(),
            final(self).original() == old(self).original(),
            final(self).timings() == old(self).timings(),
            final(self).settled(),
            old(self).settled() ==> r.1@ == FlowStepModel::Finished(false),
            !old(self).settled() ==> r.0@ == paste_start(
                text@,
                Some(old(self).original()),
                old(self).timings(),
                true,
            ).0 && r.1@ == paste_start(text@, Some(old(self).original()), old(self).timings(), true).1,
    {
        if self.settled {
            let (flow, _) = PasteFlow::start("", Some(None), self.timings, false);
            return (flow, FlowStep::Finished(false));
        }
        self.settled = true;
        PasteFlow::start(text, Some(self.original.clone()), self.timings, true)
    }

    /// Gives the clipboard back at once unless the transaction is settled;
    /// safe to call again (it then does nothing).
    pub fn restore(&mut self) -> (r: Option<ClipOp>)
        ensures
            final(self).selection() == old(self).selection(),
            final(self).original() == old(self).original(),
            final(self).timings() == old(self).timings(),
            final(self).settled(),
            match r {
                Some(op) => !old(self).settled() && op@ == restore_op(old(self).original()),
                None => old(self).settled(),
            },
    {
        if self.settled {
            return None;
        }
        self.settled = true;
        Some(restore_of(&self.original))
    }
}

#[derive(Debug, Clone, Copy, PartialEq, Eq, Structural)]
pub enum CaptureStage {
    ReadOriginal,
    WriteSentinel,
    SentinelSettle,
    Copy,
    CopySettle,
    ReadBack,
    Done,
}

/// What a capture flow asks for next.
pub enum CaptureStep {
    Run(ClipOp),
    /// The capture is over.
    Captured(SelectionCapture),
}

/// The selection read back after the copy: a text that is neither empty
/// nor the sentinel.
pub open spec fn selection_of(read: Option<Seq<char>>) -> Option<Seq<char>> {
    match read {
        Some(s) => if s.len() > 0 && s != SENTINEL@ {
            Some(s)
        } else {
            None
        },
        None => None,
    }
}

pub struct CaptureModel {
    pub original: Option<Seq<char>>,
    pub stage: CaptureStage,
    pub timings: PasterTimings,
}

/// A capture step: the result of the last operation leads to the next one,
/// or to the selection (`Err`), which is `None` when a write or the copy
/// failed.
pub open spec fn capture_next(m: CaptureModel, ok: bool, read: Option<Seq<char>>) -> (
    CaptureModel,
    Result<ClipOpModel, Option<Seq<char>>>,
) {
    match m.stage {
        CaptureStage::ReadOriginal => (
            CaptureModel { original: read, stage: CaptureStage::WriteSentinel, ..m },
            Ok(ClipOpModel::Write(SENTINEL@)),
        ),
        CaptureStage::WriteSentinel => if ok {
            (
                CaptureModel { stage: CaptureStage::SentinelSettle, ..m },
                Ok(ClipOpModel::Wait(m.timings.sentinel_settle_ms)),
            )
        } else {
            (CaptureModel { stage: CaptureStage::Done, ..m }, Err(None))
        },
        CaptureStage::SentinelSettle => (
            CaptureModel { stage: CaptureStage::Copy, ..m },
            Ok(ClipOpModel::SendCopy),
        ),
        CaptureStage::Copy => if ok {
            (
                CaptureModel { stage: CaptureStage::CopySettle, ..m },
                Ok(ClipOpModel::Wait(m.timings.copy_settle_ms)),
            )
        } else {
            (CaptureModel { stage: CaptureStage::Done, ..m }, Err(None))
        },
        CaptureStage::CopySettle => (
            CaptureModel { stage: CaptureStage::ReadBack, ..m },
            Ok(ClipOpModel::Read),
        ),
        CaptureStage::ReadBack => (
            CaptureModel { stage: CaptureStage::Done, ..m },
            Err(selection_of(read)),
        ),
        CaptureStage::Done => (m, Err(None)),
    }
}

/// A selection capture in progress.
pub struct CaptureFlow {
    original: Option<String>,
    stage: CaptureStage,
    timings: PasterTimings,
}

impl View for CaptureFlow {
    type V = CaptureModel;

    closed spec fn view(&self) -> CaptureModel {
        CaptureModel { original: opt_text(self.original), stage: self.stage, timings: self.timings }
    }
}

impl CaptureFlow {
    fn captured(&self, text: Option<String>) -> (r: CaptureStep)
        ensures
            match r {
                CaptureStep::Captured(c) => c.selection() == opt_text(text) && c.original() == self@.original
                    && !c.settled() && c.timings() == self@.timings,
                CaptureStep::Run(_) => false,
            },
    {
        CaptureStep::Captured(
            SelectionCapture {
                text,
                original: self.original.clone(),
                settled: false,
                timings: self.timings,
            },
        )
    }

    /// Feeds the result of the last operation; gives the next operation or
    /// the finished capture, whose kept clipboard is the one read first.
    pub fn step(&mut self, result: OpResult) -> (r: CaptureStep)
        ensures
            final(self)@ == capture_next(old(self)@, result.ok, opt_text(result.text)).0,
            match (r, capture_next(old(self)@, result.ok, opt_text(result.text)).1) {
                (CaptureStep::Run(op), Ok(m)) => op@ == m,
                (CaptureStep::Captured(c), Err(sel)) => c.selection() == sel && c.original()
                    == final(self)@.original && !c.settled() && c.timings() == old(self)@.timings,
                _ => false,
            },
    {
        match self.stage {
            CaptureStage::ReadOriginal => {
                self.original = result.text;
                self.stage = CaptureStage::WriteSentinel;
                CaptureStep::Run(ClipOp::Write(SENTINEL.to_owned()))
            },
            CaptureStage::WriteSentinel => {
                if result.ok {
                    self.stage = CaptureStage::SentinelSettle;
                    CaptureStep::Run(ClipOp::Wait(self.timings.sentinel_settle_ms))
                } else {
                    self.stage = CaptureStage::Done;
                    self.captured(None)
                }
            },
            CaptureStage::SentinelSettle => {
                self.stage = CaptureStage::Copy;
                CaptureStep::Run(ClipOp::SendCopy)
            },
            CaptureStage::Copy => {
                if result.ok {
                    self.stage = CaptureStage::CopySettle;
                    CaptureStep::Run(ClipOp::Wait(self.timings.copy_settle_ms))
                } else {
                    self.stage = CaptureStage::Done;
                    self.captured(None)
                }
            },
            CaptureStage::CopySettle => {
                self.stage = CaptureStage::ReadBack;
                CaptureStep::Run(ClipOp::Read)
            },
            CaptureStage::ReadBack => {
                self.stage = CaptureStage::Done;
                let text = match result.text {
                    Some(s) => if !s.as_str().is_empty() && !str_eq(s.as_str(), SENTINEL) {
                        Some(s)
                    } else {
                        None
                    },
                    None => None,
                };
                self.captured(text)
            },
            CaptureStage::Done => self.captured(None),
        }
    }
}

/// Starts capturing the selection of the focused application with the
/// given waits: the first operation reads the clipboard to keep.
pub fn capture_selection_with(timings: PasterTimings) -> (r: (CaptureFlow, ClipOp))
    ensures
        r.0@ == (CaptureModel { original: None, stage: CaptureStage::ReadOriginal, timings }),
        r.1@ == ClipOpModel::Read,
{
    (CaptureFlow { original: None, stage: CaptureStage::ReadOriginal, timings }, ClipOp::Read)
}

/// [`capture_selection_with`] with the default waits. Whatever the outcome,
/// the caller only has to call [`SelectionCapture::restore`] at the end.
pub fn capture_selection() -> (r: (CaptureFlow, ClipOp))
    ensures
        r.0@ == (CaptureModel {
            original: None,
            stage: CaptureStage::ReadOriginal,
            timings: PasterTimings {
                before_paste_ms: 30,
                restore_delay_ms: CLIPBOARD_RESTORE_DELAY_MS,
                sentinel_settle_ms: 50,
                copy_settle_ms: 250,
            },
        }),
        r.1@ == ClipOpModel::Read,
{
    capture_selection_with(PasterTimings::default())
}

} // verus!
