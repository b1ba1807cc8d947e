//! The work done after a recording stops, as a state machine driven by the
//! worker thread.
//!
//! Dictation: transcribe → replacement table → style of the frontmost
//! application → polish → paste → history. Voice rewrite: capture the
//! selection → transcribe the instruction → LLM rewrite → replace the
//! selection in place. Both are fail-open, and both end by hiding the HUD
//! and going back to idle (the rewrite also gives the clipboard back when
//! the selection was not replaced).
//!
//! The worker performs each [`Action`] and feeds the outcome back as a
//! [`WorkerEvent`]; the machine decides everything else.

use vstd::prelude::*;
use crate::context::{is_style_off, opt_text, pick_style, pick_style_spec, style_off_spec};
use crate::hud::{head, head_spec};
use crate::polisher::{apply_replacements, replace_from};
use crate::settings::Settings;
use crate::text::{blank, is_blank, push_text, trim, trim_str};
use crate::types::{Channel, FrontmostApp, SoundEvent, Status};

verus! {

/// Something the worker must do.
pub enum Action {
    /// Run the transcriber on the recording; answer with
    /// [`WorkerEvent::Transcript`].
    Transcribe,
    /// Ask the platform for the frontmost application; answer with
    /// [`WorkerEvent::App`].
    QueryFrontmostApp,
    SetStatus(Status),
    /// HUD status line and detail line.
    HudStatus(String, String),
    /// Polish the text with the style override; answer with
    /// [`WorkerEvent::Polished`].
    Polish(String, Option<String>),
    /// Paste the text at the cursor.
    Paste(String),
    /// Record a history entry: what was said, what was typed.
    AppendHistory(String, String),
    Play(SoundEvent),
    /// User notification: title and message.
    Notify(String, String),
    /// Capture the current selection; answer with [`WorkerEvent::Captured`].
    CaptureSelection,
    /// Rewrite the selection by the instruction; answer with
    /// [`WorkerEvent::Rewritten`].
    Rewrite(String, String),
    /// Replace the captured selection; answer with [`WorkerEvent::Replaced`].
    ReplaceSelection(String),
    /// Give the clipboard back if the capture is still open.
    RestoreSelection,
    HideHud,
}

/// What the worker reports back.
pub enum WorkerEvent {
    /// The worker starts.
    Begin,
    /// Transcriber result; `None` when it failed.
    Transcript(Option<String>),
    /// The frontmost application.
    App(FrontmostApp),
    /// Polish result; `None` on failure or when there was nothing to do.
    Polished(Option<String>),
    /// The captured selection; `None` when nothing was selected.
    Captured(Option<String>),
    /// Rewrite result; `None` on failure.
    Rewritten(Option<String>),
    /// Whether the selection was replaced.
    Replaced(bool),
}

/// [`Action`] with texts as character sequences.
pub enum ActionModel {
    Transcribe,
    QueryFrontmostApp,
    SetStatus(Status),
    HudStatus(Seq<char>, Seq<char>),
    Polish(Seq<char>, Option<Seq<char>>),
    Paste(Seq<char>),
    AppendHistory(Seq<char>, Seq<char>),
    Play(SoundEvent),
    Notify(Seq<char>, Seq<char>),
    CaptureSelection,
    Rewrite(Seq<char>, Seq<char>),
    ReplaceSelection(Seq<char>),
    RestoreSelection,
    HideHud,
}

impl View for Action {
    type V = ActionModel;

    open spec fn view(&self) -> ActionModel {
        match self {
            Action::Transcribe => ActionModel::Transcribe,
            Action::QueryFrontmostApp => ActionModel::QueryFrontmostApp,
            Action::SetStatus(s) => ActionModel::SetStatus(*s),
            Action::HudStatus(a, b) => ActionModel::HudStatus(a@, b@),
            Action::Polish(t, s) => ActionModel::Polish(t@, opt_text(*s)),
            Action::Paste(t) => ActionModel::Paste(t@),
            Action::AppendHistory(a, b) => ActionModel::AppendHistory(a@, b@),
            Action::Play(s) => ActionModel::Play(*s),
            Action::Notify(a, b) => ActionModel::Notify(a@, b@),
            Action::CaptureSelection => ActionModel::CaptureSelection,
            Action::Rewrite(a, b) => ActionModel::Rewrite(a@, b@),
            Action::ReplaceSelection(t) => ActionModel::ReplaceSelection(t@),
            Action::RestoreSelection => ActionModel::RestoreSelection,
            Action::HideHud => ActionModel::HideHud,
        }
    }
}

/// [`WorkerEvent`] with texts as character sequences.
pub enum EventModel {
    Begin,
    Transcript(Option<Seq<char>>),
    App(Seq<char>, Seq<char>),
    Polished(Option<Seq<char>>),
    Captured(Option<Seq<char>>),
    Rewritten(Option<Seq<char>>),
    Replaced(bool),
}

impl View for WorkerEvent {
    type V = EventModel;

    open spec fn view(&self) -> EventModel {
        match self {
            WorkerEvent::Begin => EventModel::Begin,
            WorkerEvent::Transcript(t) => EventModel::Transcript(opt_text(*t)),
            WorkerEvent::App(a) => EventModel::App(a.name@, a.id@),
            WorkerEvent::Polished(t) => EventModel::Polished(opt_text(*t)),
            WorkerEvent::Captured(t) => EventModel::Captured(opt_text(*t)),
            WorkerEvent::Rewritten(t) => EventModel::Rewritten(opt_text(*t)),
            WorkerEvent::Replaced(b) => EventModel::Replaced(*b),
        }
    }
}

/// Where a worker stands.
#[derive(Debug, Clone, Copy, PartialEq, Eq, Structural)]
pub enum Stage {
    Start,
    AwaitTranscript,
    AwaitApp,
    AwaitPolish,
    AwaitCapture,
    AwaitInstruction,
    AwaitRewrite,
    AwaitReplace,
    Done,
}

/// The worker's state: the stage, the transcript and the text derived from
/// it (dictation), the selection, the instruction and the rewrite result.
pub struct FlowModel {
    pub channel: Channel,
    pub stage: Stage,
    pub raw: Seq<char>,
    pub text: Seq<char>,
    pub selection: Seq<char>,
    pub instruction: Seq<char>,
    pub result: Seq<char>,
}

pub open spec fn finish_actions() -> Seq<ActionModel> {
    seq![ActionModel::HideHud, ActionModel::SetStatus(Status::Idle)]
}

pub open spec fn cancel_sound(sounds: bool) -> Seq<ActionModel> {
    if sounds {
        seq![ActionModel::Play(SoundEvent::Cancel)]
    } else {
        seq![]
    }
}

/// Paste, record, finish.
pub open spec fn deliver(raw: Seq<char>, text: Seq<char>) -> Seq<ActionModel> {
    seq![ActionModel::Paste(text), ActionModel::AppendHistory(raw, text)] + finish_actions()
}

/// A rewrite that stops: cancel sound, notification, clipboard back, finish.
pub open spec fn abandon(sounds: bool, title: Seq<char>, message: Seq<char>) -> Seq<ActionModel> {
    cancel_sound(sounds) + seq![ActionModel::Notify(title, message), ActionModel::RestoreSelection]
        + finish_actions()
}

pub open spec fn goto(m: FlowModel, stage: Stage) -> FlowModel {
    FlowModel { stage, ..m }
}

/// The dictation steps.
pub open spec fn dictate_step(m: FlowModel, s: Settings, has_polisher: bool, e: EventModel) -> (
    FlowModel,
    Seq<ActionModel>,
) {
    match (m.stage, e) {
        (Stage::Start, EventModel::Begin) => (
            goto(m, Stage::AwaitTranscript),
            seq![ActionModel::Transcribe],
        ),
        (Stage::AwaitTranscript, EventModel::Transcript(t)) => match t {
            None => (goto(m, Stage::Done), finish_actions()),
            Some(raw) => if is_blank(raw) {
                (goto(m, Stage::Done), finish_actions())
            } else {
                let text = replace_from(raw, s.replacements@, 0);
                if has_polisher && s.polish.enabled {
                    (
                        FlowModel { stage: Stage::AwaitApp, raw, text, ..m },
                        seq![ActionModel::QueryFrontmostApp],
                    )
                } else {
                    (FlowModel { stage: Stage::Done, raw, text, ..m }, deliver(raw, text))
                }
            },
        },
        (Stage::AwaitApp, EventModel::App(name, id)) => {
            let style = pick_style_spec(name, id, s.app_styles@);
            if style is Some && style_off_spec(style->0) {
                (goto(m, Stage::Done), deliver(m.raw, m.text))
            } else {
                (
                    goto(m, Stage::AwaitPolish),
                    seq![
                        ActionModel::SetStatus(Status::Polishing),
                        ActionModel::HudStatus("润色中…"@, m.text),
                        ActionModel::Polish(m.text, style),
                    ],
                )
            }
        },
        (Stage::AwaitPolish, EventModel::Polished(p)) => {
            let text = match p {
                Some(t) => t,
                None => m.text,
            };
            (FlowModel { stage: Stage::Done, text, ..m }, deliver(m.raw, text))
        },
        _ => (m, seq![]),
    }
}

pub open spec fn rewrite_history_entry(instruction: Seq<char>) -> Seq<char> {
    "〔改写〕"@ + instruction
}

/// The voice rewrite steps.
pub open spec fn rewrite_step(m: FlowModel, s: Settings, has_polisher: bool, e: EventModel) -> (
    FlowModel,
    Seq<ActionModel>,
) {
    match (m.stage, e) {
        (Stage::Start, EventModel::Begin) => if has_polisher && (s.polish.provider@ == "openai"@
            ==> !is_blank(s.polish.base_url@)) {
            (goto(m, Stage::AwaitCapture), seq![ActionModel::CaptureSelection])
        } else {
            (
                goto(m, Stage::Done),
                cancel_sound(s.sounds) + seq![
                    ActionModel::Notify(
                        "语音改写不可用"@,
                        "请先在「设置 → 打开配置文件」配置 polish 的 base_url / api_key"@,
                    ),
                ] + finish_actions(),
            )
        },
        (Stage::AwaitCapture, EventModel::Captured(c)) => {
            let selection = match c {
                Some(t) => t,
                None => Seq::empty(),
            };
            if is_blank(selection) {
                (
                    FlowModel { stage: Stage::Done, selection, ..m },
                    abandon(s.sounds, "未检测到选中文字"@, "先选中要改写的文本，再按改写热键说指令"@),
                )
            } else {
                (
                    FlowModel { stage: Stage::AwaitInstruction, selection, ..m },
                    seq![ActionModel::HudStatus("识别指令中…"@, selection), ActionModel::Transcribe],
                )
            }
        },
        (Stage::AwaitInstruction, EventModel::Transcript(t)) => match t {
            None => (
                goto(m, Stage::Done),
                seq![ActionModel::RestoreSelection] + finish_actions(),
            ),
            Some(raw) => {
                let instruction = trim(raw);
                if instruction.len() == 0 {
                    (
                        FlowModel { stage: Stage::Done, instruction, ..m },
                        abandon(s.sounds, "没听清指令"@, "再按改写热键说一次？"@),
                    )
                } else {
                    (
                        FlowModel { stage: Stage::AwaitRewrite, instruction, ..m },
                        seq![
                            ActionModel::HudStatus(
                                "改写中："@ + head_spec(instruction, 24),
                                m.selection,
                            ),
                            ActionModel::SetStatus(Status::Polishing),
                            ActionModel::Rewrite(m.selection, instruction),
                        ],
                    )
                }
            },
        },
        (Stage::AwaitRewrite, EventModel::Rewritten(r)) => match r {
            None => (
                goto(m, Stage::Done),
                abandon(s.sounds, "改写失败"@, "模型没有返回结果，原文未改动"@),
            ),
            Some(result) => (
                FlowModel { stage: Stage::AwaitReplace, result, ..m },
                seq![ActionModel::ReplaceSelection(result)],
            ),
        },
        (Stage::AwaitReplace, EventModel::Replaced(ok)) => (
            goto(m, Stage::Done),
            (if ok {
                seq![ActionModel::AppendHistory(rewrite_history_entry(m.instruction), m.result)]
            } else {
                seq![]
            }) + seq![ActionModel::RestoreSelection] + finish_actions(),
        ),
        _ => (m, seq![]),
    }
}

/// One step of the worker of either channel.
pub open spec fn worker_step(m: FlowModel, s: Settings, has_polisher: bool, e: EventModel) -> (
    FlowModel,
    Seq<ActionModel>,
) {
    match m.channel {
        Channel::Dictate => dictate_step(m, s, has_polisher, e),
        Channel::Rewrite => rewrite_step(m, s, has_polisher, e),
    }
}

/// What every reachable worker state satisfies: past the capture the
/// selection is not blank, past the instruction the instruction is not
/// empty.
pub open spec fn flow_wf(m: FlowModel) -> bool {
    &&& (m.channel == Channel::Rewrite && (m.stage == Stage::AwaitInstruction || m.stage
        == Stage::AwaitRewrite || m.stage == Stage::AwaitReplace)) ==> !is_blank(m.selection)
    &&& (m.channel == Channel::Rewrite && (m.stage == Stage::AwaitRewrite || m.stage
        == Stage::AwaitReplace)) ==> m.instruction.len() > 0
}

pub open spec fn actions_view(v: Seq<Action>) -> Seq<ActionModel> {
    v.map_values(|a: Action| a@)
}

/// The worker of one stopped recording.
pub struct WorkerFlow {
    channel: Channel,
    stage: Stage,
    raw: String,
    text: String,
    selection: String,
    instruction: String,
    result: String,
}

impl View for WorkerFlow {
    type V = FlowModel;

    closed spec fn view(&self) -> FlowModel {
        FlowModel {
            channel: self.channel,
            stage: self.stage,
            raw: self.raw@,
            text: self.text@,
            selection: self.selection@,
            instruction: self.instruction@,
            result: self.result@,
        }
    }
}

fn finish_into(v: &mut Vec<Action>)
    ensures
        actions_view(final(v)@) == actions_view(old(v)@) + finish_actions(),
{
    let ghost before = actions_view(v@);
    v.push(Action::HideHud);
    v.push(Action::SetStatus(Status::Idle));
    assert(actions_view(v@) =~= before + finish_actions());
}

fn deliver_into(v: &mut Vec<Action>, raw: &String, text: &String)
    requires
        old(v)@.len() == 0,
    ensures
        actions_view(final(v)@) == deliver(raw@, text@),
{
    v.push(Action::Paste(text.clone()));
    v.push(Action::AppendHistory(raw.clone(), text.clone()));
    assert(actions_view(v@) =~= seq![ActionModel::Paste(text@), ActionModel::AppendHistory(raw@, text@)]);
    finish_into(v);
}

fn abandon_into(v: &mut Vec<Action>, sounds: bool, title: &str, message: &str)
    requires
        old(v)@.len() == 0,
    ensures
        actions_view(final(v)@) == abandon(sounds, title@, message@),
{
    if sounds {
        v.push(Action::Play(SoundEvent::Cancel));
    }
    assert(actions_view(v@) =~= cancel_sound(sounds));
    let ghost before = actions_view(v@);
    v.push(Action::Notify(title.to_owned(), message.to_owned()));
    v.push(Action::RestoreSelection);
    assert(actions_view(v@) =~= before + seq![
        ActionModel::Notify(title@, message@),
        ActionModel::RestoreSelection,
    ]);
    finish_into(v);
}

impl WorkerFlow {
    /// A worker for a recording of `channel`; start it with
    /// [`WorkerEvent::Begin`].
    pub fn new(channel: Channel) -> (r: WorkerFlow)
        ensures
            r@ == (FlowModel {
                channel,
                stage: Stage::Start,
                raw: Seq::empty(),
                text: Seq::empty(),
                selection: Seq::empty(),
                instruction: Seq::empty(),
                result: Seq::empty(),
            }),
            flow_wf(r@),
    {
        WorkerFlow {
            channel,
            stage: Stage::Start,
            raw: String::new(),
            text: String::new(),
            selection: String::new(),
            instruction: String::new(),
            result: String::new(),
        }
    }

    /// Whether the worker is finished.
    pub fn is_done(&self) -> (r: bool)
        ensures
            r == (self@.stage == Stage::Done),
    {
        self.stage == Stage::Done
    }

    /// Takes the outcome of the last action and gives the next actions, in
    /// order. `settings` is the current settings, `has_polisher` whether an
    /// LLM client is available. An event the current stage does not expect
    /// changes nothing.
    pub fn step(&mut self, settings: &Settings, has_polisher: bool, event: WorkerEvent) -> (r: Vec<
        Action,
    >)
        ensures
            final(self)@ == worker_step(old(self)@, *settings, has_polisher, event@).0,
            actions_view(r@) == worker_step(old(self)@, *settings, has_polisher, event@).1,
    {
        match self.channel {
            Channel::Dictate => self.dictate(settings, has_polisher, event),
            Channel::Rewrite => self.rewrite(settings, has_polisher, event),
        }
    }

    fn dictate(&mut self, settings: &Settings, has_polisher: bool, event: WorkerEvent) -> (r: Vec<
        Action,
    >)
        requires
            old(self)@.channel == Channel::Dictate,
        ensures
            final(self)@ == dictate_step(old(self)@, *settings, has_polisher, event@).0,
            actions_view(r@) == dictate_step(old(self)@, *settings, has_polisher, event@).1,
    {
        let mut out: Vec<Action> = Vec::new();
        match (self.stage, event) {
            (Stage::Start, WorkerEvent::Begin) => {
                self.stage = Stage::AwaitTranscript;
                out.push(Action::Transcribe);
            },
            (Stage::AwaitTranscript, WorkerEvent::Transcript(t)) => {
                match t {
                    None => {
                        self.stage = Stage::Done;
                        finish_into(&mut out);
                    },
                    Some(raw) => {
                        if blank(raw.as_str()) {
                            self.stage = Stage::Done;
                            finish_into(&mut out);
                        } else {
                            let text = apply_replacements(raw.as_str(), &settings.replacements);
                            if has_polisher && settings.polish.enabled {
                                self.stage = Stage::AwaitApp;
                                out.push(Action::QueryFrontmostApp);
                            } else {
                                self.stage = Stage::Done;
                                deliver_into(&mut out, &raw, &text);
                            }
                            self.raw = raw;
                            self.text = text;
                        }
                    },
                }
            },
            (Stage::AwaitApp, WorkerEvent::App(app)) => {
                let style = pick_style(app.name.as_str(), app.id.as_str(), &settings.app_styles);
                let off = match &style {
                    Some(st) => is_style_off(st.as_str()),
                    None => false,
                };
                if off {
                    self.stage = Stage::Done;
                    deliver_into(&mut out, &self.raw, &self.text);
                } else {
                    self.stage = Stage::AwaitPolish;
                    out.push(Action::SetStatus(Status::Polishing));
                    out.push(Action::HudStatus("润色中…".to_owned(), self.text.clone()));
                    out.push(Action::Polish(self.text.clone(), style));
                    assert(actions_view(out@) =~= dictate_step(
                        old(self)@,
                        *settings,
                        has_polisher,
                        event@,
                    ).1);
                }
            },
            (Stage::AwaitPolish, WorkerEvent::Polished(p)) => {
                match p {
                    Some(t) => {
                        self.text = t;
                    },
                    None => {},
                }
                self.stage = Stage::Done;
                deliver_into(&mut out, &self.raw, &self.text);
            },
            _ => {},
        }
        assert(actions_view(out@) =~= dictate_step(old(self)@, *settings, has_polisher, event@).1);
        out
    }

    fn rewrite(&mut self, settings: &Settings, has_polisher: bool, event: WorkerEvent) -> (r: Vec<
        Action,
    >)
        requires
            old(self)@.channel == Channel::Rewrite,
        ensures
            final(self)@ == rewrite_step(old(self)@, *settings, has_polisher, event@).0,
            actions_view(r@) == rewrite_step(old(self)@, *settings, has_polisher, event@).1,
    {
        let mut out: Vec<Action> = Vec::new();
        match (self.stage, event) {
            (Stage::Start, WorkerEvent::Begin) => {
                if has_polisher && crate::polisher::configured(&settings.polish) {
                    self.stage = Stage::AwaitCapture;
                    out.push(Action::CaptureSelection);
                } else {
                    self.stage = Stage::Done;
                    if settings.sounds {
                        out.push(Action::Play(SoundEvent::Cancel));
                    }
                    out.push(
                        Action::Notify(
                            "语音改写不可用".to_owned(),
                            "请先在「设置 → 打开配置文件」配置 polish 的 base_url / api_key".to_owned(),
                        ),
                    );
                    assert(actions_view(out@) =~= cancel_sound(settings.sounds) + seq![
                        ActionModel::Notify(
                            "语音改写不可用"@,
                            "请先在「设置 → 打开配置文件」配置 polish 的 base_url / api_key"@,
                        ),
                    ]);
                    finish_into(&mut out);
                }
            },
            (Stage::AwaitCapture, WorkerEvent::Captured(c)) => {
                let selection = match c {
                    Some(t) => t,
                    None => String::new(),
                };
                if blank(selection.as_str()) {
                    self.stage = Stage::Done;
                    abandon_into(
                        &mut out,
                        settings.sounds,
                        "未检测到选中文字",
                        "先选中要改写的文本，再按改写热键说指令",
                    );
                } else {
                    self.stage = Stage::AwaitInstruction;
                    out.push(Action::HudStatus("识别指令中…".to_owned(), selection.clone()));
                    out.push(Action::Transcribe);
                }
                self.selection = selection;
            },
            (Stage::AwaitInstruction, WorkerEvent::Transcript(t)) => {
                match t {
                    None => {
                        self.stage = Stage::Done;
                        out.push(Action::RestoreSelection);
                        finish_into(&mut out);
                    },
                    Some(raw) => {
                        let instruction = trim_str(raw.as_str());
                        if instruction.as_str().is_empty() {
                            self.stage = Stage::Done;
                            abandon_into(
                                &mut out,
                                settings.sounds,
                                "没听清指令",
                                "再按改写热键说一次？",
                            );
                        } else {
                            self.stage = Stage::AwaitRewrite;
                            let mut line = "改写中：".to_owned();
                            let shown = head(instruction.as_str(), 24);
                            push_text(&mut line, shown.as_str());
                            out.push(Action::HudStatus(line, self.selection.clone()));
                            out.push(Action::SetStatus(Status::Polishing));
                            out.push(Action::Rewrite(self.selection.clone(), instruction.clone()));
                        }
                        self.instruction = instruction;
                    },
                }
            },
            (Stage::AwaitRewrite, WorkerEvent::Rewritten(r)) => {
                match r {
                    None => {
                        self.stage = Stage::Done;
                        abandon_into(
                            &mut out,
                            settings.sounds,
                            "改写失败",
                            "模型没有返回结果，原文未改动",
                        );
                    },
                    Some(result) => {
                        self.stage = Stage::AwaitReplace;
                        out.push(Action::ReplaceSelection(result.clone()));
                        self.result = result;
                    },
                }
            },
            (Stage::AwaitReplace, WorkerEvent::Replaced(ok)) => {
                self.stage = Stage::Done;
                if ok {
                    let mut entry = "〔改写〕".to_owned();
                    push_text(&mut entry, self.instruction.as_str());
                    out.push(Action::AppendHistory(entry, self.result.clone()));
                }
                let ghost before = actions_view(out@);
                out.push(Action::RestoreSelection);
                assert(actions_view(out@) =~= before + seq![ActionModel::RestoreSelection]);
                finish_into(&mut out);
            },
            _ => {},
        }
        assert(actions_view(out@) =~= rewrite_step(old(self)@, *settings, has_polisher, event@).1);
        out
    }
}

} // verus!
