//! Global hotkey and recording state machine.
//!
//! Two hotkey channels: dictation (record, transcribe, optionally polish,
//! paste at the cursor) and voice rewrite (select text, hold the rewrite key
//! and speak an instruction; the selection is rewritten in place).
//!
//! Two recording modes: `toggle` (tap to start, tap again to finish) and
//! `hold` (hold to talk, release to finish; a double tap within the window
//! locks the recording until the next press).
//!
//! Anti-misfire rules:
//!   1. any other key (the other hotkey included) pressed while recording
//!      cancels the recording;
//!   2. in toggle mode a "hotkey + other key" shortcut never starts a
//!      recording;
//!   3. recordings shorter than the minimum hold are discarded.
//!
//! The machine only decides. Each step returns the effects to carry out, in
//! order (start/abort/stop the recorder, sounds, tray status, HUD, worker);
//! the runtime performs them and feeds the outcome of a recorder stop back
//! through [`HotkeyMachine::finish`].

use vstd::prelude::*;
use crate::keys::{HotkeyId, KeyEvent, KeyKind, RecordMode};
use crate::types::{Channel, SoundEvent, Status};

verus! {

/// Recordings held for less than this are discarded (nanoseconds, 0.4s).
pub const MIN_HOLD_NS: u64 = 400_000_000;

/// Two short taps closer than this lock a hold-mode recording (0.35s).
pub const DOUBLE_TAP_WINDOW_NS: u64 = 350_000_000;

/// Below this many samples (0.5s at 16kHz) the live preview only updates the
/// timer and does not transcribe.
pub const PREVIEW_MIN_SAMPLES: usize = 8000;

/// Shortest live preview refresh interval (0.7s).
pub const PREVIEW_MIN_INTERVAL_NS: u64 = 700_000_000;

/// Preview interval = max(minimum, last transcription cost x 2.5), the
/// factor kept in tenths.
pub const PREVIEW_COST_FACTOR: u64 = 25;

/// HUD level refresh interval (~12Hz).
pub const LEVEL_INTERVAL_NS: u64 = 80_000_000;

/// Whether the recording is long enough for a preview transcription.
pub fn preview_has_audio(samples: usize) -> (r: bool)
    ensures
        r == (samples >= PREVIEW_MIN_SAMPLES),
{
    samples >= PREVIEW_MIN_SAMPLES
}

/// The next preview interval: slower as transcriptions get slower, never
/// below the minimum. `cost_ns` is how long the last transcription took.
pub fn next_preview_interval_ns(cost_ns: u64) -> (r: u64)
    requires
        cost_ns <= u64::MAX / PREVIEW_COST_FACTOR,
    ensures
        r == (if cost_ns * PREVIEW_COST_FACTOR / 10 > PREVIEW_MIN_INTERVAL_NS {
            cost_ns * PREVIEW_COST_FACTOR / 10
        } else {
            PREVIEW_MIN_INTERVAL_NS as int
        }),
{
    let scaled = cost_ns * PREVIEW_COST_FACTOR / 10;
    if scaled > PREVIEW_MIN_INTERVAL_NS {
        scaled
    } else {
        PREVIEW_MIN_INTERVAL_NS
    }
}

/// The mutable state of the hotkey controller.
#[derive(Debug, Clone, Copy, PartialEq, Eq)]
pub struct HotkeyState {
    /// Hotkeys paused from the menu: every key is ignored.
    pub paused: bool,
    /// Channel of the current recording.
    pub channel: Channel,
    /// The hotkey is held down.
    pub held: bool,
    /// Toggle mode: another key went down while the hotkey was held, so this
    /// tap does not count.
    pub suppressed: bool,
    pub recording: bool,
    /// Hold mode: recording locked by a double tap.
    pub locked: bool,
    pub cancelled: bool,
    pub ignore_next_release: bool,
    /// Hold mode: time of the last short tap (double tap detection).
    pub last_short_tap: Option<u64>,
    /// A keyboard event has been seen (input monitoring probe).
    pub saw_event: bool,
    /// Toggle mode: channel noted on press, recording starts on release.
    pub pending_channel: Channel,
    pub trigger: HotkeyId,
    pub rewrite_trigger: HotkeyId,
    pub mode: RecordMode,
    /// The live preview / level loops are running.
    pub previewing: bool,
}

/// What the runtime reads around a key event.
#[derive(Debug, Clone, Copy, PartialEq, Eq)]
pub struct KeyContext {
    /// Monotonic clock, nanoseconds.
    pub now_ns: u64,
    /// Audio recorded so far, nanoseconds.
    pub recorded_ns: u64,
    /// `live_preview` setting.
    pub live_preview: bool,
    /// `sounds` setting.
    pub sounds: bool,
}

/// An effect to carry out, in order.
#[derive(Debug, Clone, Copy, PartialEq, Eq)]
pub enum Effect {
    /// Tell the UI the first keyboard event arrived.
    FirstKeyEvent,
    /// Start the recorder (a failure is only logged).
    StartRecorder,
    /// Abort the recorder, dropping the audio.
    AbortRecorder,
    /// Stop the recorder and report samples and duration to
    /// [`HotkeyMachine::finish`].
    StopRecorder { check_min_hold: bool },
    /// Show the HUD for `channel` and start the preview and level loops.
    StartPreview { channel: Channel, mode: RecordMode, locked: bool },
    /// Stop the preview and level loops.
    StopPreview,
    Play(SoundEvent),
    Status(Status),
    HideHud,
    /// HUD status line "转写中…".
    ShowTranscribing,
    /// Hand the stopped recording to the worker of `channel`.
    SpawnWorker(Channel),
}

pub open spec fn initial_state(
    trigger: HotkeyId,
    rewrite_trigger: HotkeyId,
    mode: RecordMode,
) -> HotkeyState {
    HotkeyState {
        paused: false,
        channel: Channel::Dictate,
        held: false,
        suppressed: false,
        recording: false,
        locked: false,
        cancelled: false,
        ignore_next_release: false,
        last_short_tap: None,
        saw_event: false,
        pending_channel: Channel::Dictate,
        trigger,
        rewrite_trigger,
        mode,
        previewing: false,
    }
}

pub open spec fn play(sound: SoundEvent, sounds: bool) -> Seq<Effect> {
    if sounds {
        seq![Effect::Play(sound)]
    } else {
        seq![]
    }
}

pub open spec fn stop_preview_step(s: HotkeyState) -> (HotkeyState, Seq<Effect>) {
    if s.previewing {
        (HotkeyState { previewing: false, ..s }, seq![Effect::StopPreview])
    } else {
        (s, seq![])
    }
}

pub open spec fn start_preview_step(s: HotkeyState, live_preview: bool) -> (HotkeyState, Seq<
    Effect,
>) {
    if live_preview {
        (
            HotkeyState { previewing: true, ..s },
            seq![Effect::StartPreview { channel: s.channel, mode: s.mode, locked: s.locked }],
        )
    } else {
        (s, seq![])
    }
}

/// Cancel the recording: recorder aborted, HUD hidden, back to idle.
pub open spec fn abort_step(s: HotkeyState, sounds: bool) -> (HotkeyState, Seq<Effect>) {
    let (s1, e1) = stop_preview_step(s);
    (
        HotkeyState {
            recording: false,
            locked: false,
            cancelled: false,
            held: false,
            suppressed: false,
            ..s1
        },
        e1 + seq![Effect::AbortRecorder] + play(SoundEvent::Cancel, sounds) + seq![
            Effect::HideHud,
            Effect::Status(Status::Idle),
        ],
    )
}

pub open spec fn start_recording_step(s: HotkeyState, channel: Channel, cx: KeyContext) -> (
    HotkeyState,
    Seq<Effect>,
) {
    let s1 = HotkeyState { channel, cancelled: false, recording: true, ..s };
    let (s2, e2) = start_preview_step(s1, cx.live_preview);
    (
        s2,
        seq![Effect::StartRecorder] + play(SoundEvent::Start, cx.sounds) + seq![
            Effect::Status(Status::Recording),
        ] + e2,
    )
}

/// Stop recording and ask for the recorder's audio.
pub open spec fn finish_begin_step(s: HotkeyState, check_min_hold: bool) -> (HotkeyState, Seq<
    Effect,
>) {
    let (s1, e1) = stop_preview_step(HotkeyState { recording: false, ..s });
    (s1, e1 + seq![Effect::StopRecorder { check_min_hold }])
}

/// The channel a key belongs to; keys that are not one of the two
/// configured hotkeys belong to none.
pub open spec fn channel_of(s: HotkeyState, key: KeyKind) -> Option<Channel> {
    match key {
        KeyKind::Hotkey(id) => if id == s.trigger {
            Some(Channel::Dictate)
        } else if id == s.rewrite_trigger {
            Some(Channel::Rewrite)
        } else {
            None
        },
        KeyKind::Other => None,
    }
}

/// Another key while recording cancels; in toggle mode, another key while the
/// hotkey is held marks the tap as a shortcut.
pub open spec fn press_other_step(s: HotkeyState, cx: KeyContext) -> (HotkeyState, Seq<Effect>) {
    if s.recording && !s.cancelled {
        if s.mode == RecordMode::Toggle || s.locked {
            abort_step(s, cx.sounds)
        } else if s.held {
            let (s1, e1) = stop_preview_step(HotkeyState { cancelled: true, recording: false, ..s });
            (s1, e1 + seq![Effect::AbortRecorder, Effect::HideHud, Effect::Status(Status::Idle)])
        } else {
            (s, seq![])
        }
    } else if s.held {
        (HotkeyState { suppressed: true, ..s }, seq![])
    } else {
        (s, seq![])
    }
}

pub open spec fn press_toggle_step(s: HotkeyState, channel: Channel, cx: KeyContext) -> (
    HotkeyState,
    Seq<Effect>,
) {
    if s.recording {
        if channel == s.channel {
            finish_begin_step(HotkeyState { ignore_next_release: true, ..s }, true)
        } else {
            abort_step(s, cx.sounds)
        }
    } else if s.held {
        (s, seq![])
    } else {
        (HotkeyState { held: true, suppressed: false, pending_channel: channel, ..s }, seq![])
    }
}

pub open spec fn release_toggle_step(s: HotkeyState, cx: KeyContext) -> (HotkeyState, Seq<Effect>) {
    if !s.held {
        (s, seq![])
    } else if s.suppressed {
        (HotkeyState { held: false, suppressed: false, ..s }, seq![])
    } else {
        start_recording_step(HotkeyState { held: false, ..s }, s.pending_channel, cx)
    }
}

pub open spec fn press_hold_step(s: HotkeyState, channel: Channel, cx: KeyContext) -> (
    HotkeyState,
    Seq<Effect>,
) {
    if s.locked {
        if channel == s.channel {
            finish_begin_step(HotkeyState { locked: false, ignore_next_release: true, ..s }, false)
        } else {
            abort_step(s, cx.sounds)
        }
    } else if s.recording && channel != s.channel {
        abort_step(s, cx.sounds)
    } else if s.held {
        (s, seq![])
    } else {
        start_recording_step(HotkeyState { held: true, ..s }, channel, cx)
    }
}

/// A short tap at `now` follows the previous one within the double tap window.
pub open spec fn is_double_tap(last_short_tap: Option<u64>, now_ns: u64) -> bool {
    match last_short_tap {
        Some(last) => (if now_ns >= last {
            now_ns - last
        } else {
            0
        }) < DOUBLE_TAP_WINDOW_NS,
        None => false,
    }
}

/// Hold mode, second short tap in the window: drop both short recordings and
/// start a locked one.
pub open spec fn lock_step(s: HotkeyState, cx: KeyContext) -> (HotkeyState, Seq<Effect>) {
    let (s3, e3) = stop_preview_step(HotkeyState { last_short_tap: None, ..s });
    let (s5, e5) = start_preview_step(HotkeyState { locked: true, ..s3 }, cx.live_preview);
    (
        s5,
        e3 + seq![Effect::AbortRecorder, Effect::StartRecorder] + play(SoundEvent::Start, cx.sounds)
            + seq![Effect::Status(Status::Recording)] + e5,
    )
}

/// Hold mode, a short tap: note its time and discard the recording.
pub open spec fn short_tap_step(s: HotkeyState, cx: KeyContext) -> (HotkeyState, Seq<Effect>) {
    let (s3, e3) = stop_preview_step(
        HotkeyState { last_short_tap: Some(cx.now_ns), recording: false, ..s },
    );
    (s3, e3 + seq![Effect::AbortRecorder, Effect::HideHud, Effect::Status(Status::Idle)])
}

pub open spec fn release_hold_step(s: HotkeyState, cx: KeyContext, min_hold_ns: u64) -> (
    HotkeyState,
    Seq<Effect>,
) {
    if !s.held {
        (s, seq![])
    } else {
        let s1 = HotkeyState { held: false, ..s };
        if s1.cancelled {
            (HotkeyState { cancelled: false, recording: false, ..s1 }, seq![])
        } else if !s1.recording {
            (s1, seq![])
        } else if cx.recorded_ns >= min_hold_ns {
            finish_begin_step(s1, true)
        } else if is_double_tap(s1.last_short_tap, cx.now_ns) {
            lock_step(s1, cx)
        } else {
            short_tap_step(s1, cx)
        }
    }
}

/// A key going down.
pub open spec fn press_step(s: HotkeyState, key: KeyKind, cx: KeyContext) -> (HotkeyState, Seq<
    Effect,
>) {
    let s0 = HotkeyState { saw_event: true, ..s };
    let e0 = if s.saw_event {
        seq![]
    } else {
        seq![Effect::FirstKeyEvent]
    };
    if s0.paused {
        (s0, e0)
    } else {
        let (s1, e1) = match channel_of(s0, key) {
            Some(channel) => if s0.mode == RecordMode::Toggle {
                press_toggle_step(s0, channel, cx)
            } else {
                press_hold_step(s0, channel, cx)
            },
            None => press_other_step(s0, cx),
        };
        (s1, e0 + e1)
    }
}

/// A key going up.
pub open spec fn release_step(s: HotkeyState, key: KeyKind, cx: KeyContext, min_hold_ns: u64) -> (
    HotkeyState,
    Seq<Effect>,
) {
    if s.paused {
        (s, seq![])
    } else {
        match channel_of(s, key) {
            None => (s, seq![]),
            Some(_) => if s.ignore_next_release {
                (HotkeyState { ignore_next_release: false, ..s }, seq![])
            } else if s.mode == RecordMode::Toggle {
                release_toggle_step(s, cx)
            } else {
                release_hold_step(s, cx, min_hold_ns)
            },
        }
    }
}

/// One keyboard event.
pub open spec fn key_step(s: HotkeyState, ev: KeyEvent, cx: KeyContext, min_hold_ns: u64) -> (
    HotkeyState,
    Seq<Effect>,
) {
    if ev.pressed {
        press_step(s, ev.key, cx)
    } else {
        release_step(s, ev.key, cx, min_hold_ns)
    }
}

/// What follows a recorder stop: discard too short or empty recordings,
/// otherwise hand the audio to the worker of `channel`.
pub open spec fn finish_effects(
    channel: Channel,
    check_min_hold: bool,
    samples: nat,
    recorded_ns: u64,
    min_hold_ns: u64,
    sounds: bool,
) -> Seq<Effect> {
    if (check_min_hold && recorded_ns < min_hold_ns) || samples == 0 {
        seq![Effect::HideHud, Effect::Status(Status::Idle)]
    } else {
        play(SoundEvent::Stop, sounds) + seq![
            Effect::Status(Status::Transcribing),
            Effect::ShowTranscribing,
            Effect::SpawnWorker(channel),
        ]
    }
}

/// Cancel first when a configuration change arrives in the middle of a
/// recording.
pub open spec fn abort_if_recording(s: HotkeyState, sounds: bool) -> (HotkeyState, Seq<Effect>) {
    if s.recording {
        abort_step(s, sounds)
    } else {
        (s, seq![])
    }
}

pub open spec fn set_trigger_step(s: HotkeyState, hotkey: HotkeyId, sounds: bool) -> (HotkeyState, Seq<
    Effect,
>) {
    let (s1, e1) = abort_if_recording(s, sounds);
    (HotkeyState { trigger: hotkey, ..s1 }, e1)
}

pub open spec fn set_rewrite_trigger_step(s: HotkeyState, hotkey: HotkeyId, sounds: bool) -> (
    HotkeyState,
    Seq<Effect>,
) {
    let (s1, e1) = abort_if_recording(s, sounds);
    (HotkeyState { rewrite_trigger: hotkey, ..s1 }, e1)
}

pub open spec fn set_mode_step(s: HotkeyState, mode: RecordMode, sounds: bool) -> (HotkeyState, Seq<
    Effect,
>) {
    let (s1, e1) = abort_if_recording(s, sounds);
    (HotkeyState { mode, ..s1 }, e1)
}

pub open spec fn set_paused_step(s: HotkeyState, paused: bool, sounds: bool) -> (HotkeyState, Seq<
    Effect,
>) {
    let (s1, e1) = if paused {
        abort_if_recording(s, sounds)
    } else {
        (s, seq![])
    };
    (HotkeyState { paused, held: false, suppressed: false, ..s1 }, e1)
}

/// Invariant of every reachable state.
pub open spec fn state_wf(s: HotkeyState) -> bool {
    &&& s.locked ==> s.recording
    &&& s.locked ==> s.mode == RecordMode::Hold
    &&& s.locked ==> !s.held
    &&& s.previewing ==> s.recording
    &&& s.cancelled ==> !s.recording
    &&& s.paused ==> !s.recording
}

/// The hotkey controller's decisions.
pub struct HotkeyMachine {
    state: HotkeyState,
    min_hold_ns: u64,
}

impl View for HotkeyMachine {
    type V = HotkeyState;

    closed spec fn view(&self) -> HotkeyState {
        self.state
    }
}

impl HotkeyMachine {
    /// The minimum hold the machine was built with.
    pub closed spec fn min_hold(&self) -> u64 {
        self.min_hold_ns
    }

    pub fn new(hotkey: HotkeyId, rewrite_hotkey: HotkeyId, mode: RecordMode, min_hold_ns: u64) -> (r:
        HotkeyMachine)
        ensures
            r@ == initial_state(hotkey, rewrite_hotkey, mode),
            r.min_hold() == min_hold_ns,
            state_wf(r@),
    {
        HotkeyMachine {
            state: HotkeyState {
                paused: false,
                channel: Channel::Dictate,
                held: false,
                suppressed: false,
                recording: false,
                locked: false,
                cancelled: false,
                ignore_next_release: false,
                last_short_tap: None,
                saw_event: false,
                pending_channel: Channel::Dictate,
                trigger: hotkey,
                rewrite_trigger: rewrite_hotkey,
                mode,
                previewing: false,
            },
            min_hold_ns,
        }
    }

    fn push_play(sound: SoundEvent, sounds: bool, out: &mut Vec<Effect>)
        ensures
            final(out)@ == old(out)@ + play(sound, sounds),
    {
        if sounds {
            out.push(Effect::Play(sound));
        } else {
            assert(old(out)@ + seq![] =~= old(out)@);
        }
    }

    fn stop_preview(&mut self, out: &mut Vec<Effect>)
        ensures
            final(self)@ == stop_preview_step(old(self)@).0,
            final(out)@ == old(out)@ + stop_preview_step(old(self)@).1,
            final(self).min_hold() == old(self).min_hold(),
    {
        if self.state.previewing {
            self.state.previewing = false;
            out.push(Effect::StopPreview);
        } else {
            assert(old(out)@ + seq![] =~= old(out)@);
        }
    }

    fn start_preview(&mut self, live_preview: bool, out: &mut Vec<Effect>)
        ensures
            final(self)@ == start_preview_step(old(self)@, live_preview).0,
            final(out)@ == old(out)@ + start_preview_step(old(self)@, live_preview).1,
            final(self).min_hold() == old(self).min_hold(),
    {
        if live_preview {
            self.state.previewing = true;
            out.push(
                Effect::StartPreview {
                    channel: self.state.channel,
                    mode: self.state.mode,
                    locked: self.state.locked,
                },
            );
        } else {
            assert(old(out)@ + seq![] =~= old(out)@);
        }
    }

    fn abort(&mut self, sounds: bool, out: &mut Vec<Effect>)
        ensures
            final(self)@ == abort_step(old(self)@, sounds).0,
            final(out)@ == old(out)@ + abort_step(old(self)@, sounds).1,
            final(self).min_hold() == old(self).min_hold(),
    {
        let ghost out0 = out@;
        self.stop_preview(out);
        out.push(Effect::AbortRecorder);
        self.state.recording = false;
        self.state.locked = false;
        self.state.cancelled = false;
        self.state.held = false;
        self.state.suppressed = false;
        Self::push_play(SoundEvent::Cancel, sounds, out);
        out.push(Effect::HideHud);
        out.push(Effect::Status(Status::Idle));
        proof {
            let e1 = stop_preview_step(old(self)@).1;
            assert(out@ =~= out0 + (e1 + seq![Effect::AbortRecorder] + play(SoundEvent::Cancel, sounds)
                + seq![Effect::HideHud, Effect::Status(Status::Idle)]));
        }
    }

    fn start_recording(&mut self, channel: Channel, cx: KeyContext, out: &mut Vec<Effect>)
        ensures
            final(self)@ == start_recording_step(old(self)@, channel, cx).0,
            final(out)@ == old(out)@ + start_recording_step(old(self)@, channel, cx).1,
            final(self).min_hold() == old(self).min_hold(),
    {
        let ghost out0 = out@;
        self.state.channel = channel;
        self.state.cancelled = false;
        self.state.recording = true;
        let ghost s1 = self@;
        out.push(Effect::StartRecorder);
        Self::push_play(SoundEvent::Start, cx.sounds, out);
        out.push(Effect::Status(Status::Recording));
        self.start_preview(cx.live_preview, out);
        proof {
            let e2 = start_preview_step(s1, cx.live_preview).1;
            assert(out@ =~= out0 + (seq![Effect::StartRecorder] + play(SoundEvent::Start, cx.sounds)
                + seq![Effect::Status(Status::Recording)] + e2));
        }
    }

    fn finish_begin(&mut self, check_min_hold: bool, out: &mut Vec<Effect>)
        ensures
            final(self)@ == finish_begin_step(old(self)@, check_min_hold).0,
            final(out)@ == old(out)@ + finish_begin_step(old(self)@, check_min_hold).1,
            final(self).min_hold() == old(self).min_hold(),
    {
        let ghost out0 = out@;
        self.state.recording = false;
        let ghost s0 = self@;
        self.stop_preview(out);
        out.push(Effect::StopRecorder { check_min_hold });
        proof {
            let e1 = stop_preview_step(s0).1;
            assert(out@ =~= out0 + (e1 + seq![Effect::StopRecorder { check_min_hold }]));
        }
    }

    fn channel_of(&self, key: KeyKind) -> (r: Option<Channel>)
        ensures
            r == channel_of(self@, key),
    {
        match key {
            KeyKind::Hotkey(id) => {
                if id == self.state.trigger {
                    Some(Channel::Dictate)
                } else if id == self.state.rewrite_trigger {
                    Some(Channel::Rewrite)
                } else {
                    None
                }
            },
            KeyKind::Other => None,
        }
    }

    fn press_other(&mut self, cx: KeyContext, out: &mut Vec<Effect>)
        ensures
            final(self)@ == press_other_step(old(self)@, cx).0,
            final(out)@ == old(out)@ + press_other_step(old(self)@, cx).1,
            final(self).min_hold() == old(self).min_hold(),
    {
        if self.state.recording && !self.state.cancelled {
            if self.state.mode == RecordMode::Toggle || self.state.locked {
                self.abort(cx.sounds, out);
            } else if self.state.held {
                let ghost out0 = out@;
                self.state.cancelled = true;
                self.state.recording = false;
                let ghost s0 = self@;
                self.stop_preview(out);
                out.push(Effect::AbortRecorder);
                out.push(Effect::HideHud);
                out.push(Effect::Status(Status::Idle));
                proof {
                    let e1 = stop_preview_step(s0).1;
                    assert(out@ =~= out0 + (e1 + seq![
                        Effect::AbortRecorder,
                        Effect::HideHud,
                        Effect::Status(Status::Idle),
                    ]));
                }
            } else {
                assert(old(out)@ + seq![] =~= old(out)@);
            }
        } else if self.state.held {
            self.state.suppressed = true;
            assert(old(out)@ + seq![] =~= old(out)@);
        } else {
            assert(old(out)@ + seq![] =~= old(out)@);
        }
    }

    fn press_toggle(&mut self, channel: Channel, cx: KeyContext, out: &mut Vec<Effect>)
        ensures
            final(self)@ == press_toggle_step(old(self)@, channel, cx).0,
            final(out)@ == old(out)@ + press_toggle_step(old(self)@, channel, cx).1,
            final(self).min_hold() == old(self).min_hold(),
    {
        if self.state.recording {
            if channel == self.state.channel {
                self.state.ignore_next_release = true;
                self.finish_begin(true, out);
            } else {
                self.abort(cx.sounds, out);
            }
        } else if self.state.held {
            assert(old(out)@ + seq![] =~= old(out)@);
        } else {
            self.state.held = true;
            self.state.suppressed = false;
            self.state.pending_channel = channel;
            assert(old(out)@ + seq![] =~= old(out)@);
        }
    }

    fn release_toggle(&mut self, cx: KeyContext, out: &mut Vec<Effect>)
        ensures
            final(self)@ == release_toggle_step(old(self)@, cx).0,
            final(out)@ == old(out)@ + release_toggle_step(old(self)@, cx).1,
            final(self).min_hold() == old(self).min_hold(),
    {
        if !self.state.held {
            assert(old(out)@ + seq![] =~= old(out)@);
        } else if self.state.suppressed {
            self.state.held = false;
            self.state.suppressed = false;
            assert(old(out)@ + seq![] =~= old(out)@);
        } else {
            self.state.held = false;
            let channel = self.state.pending_channel;
            self.start_recording(channel, cx, out);
        }
    }

    fn press_hold(&mut self, channel: Channel, cx: KeyContext, out: &mut Vec<Effect>)
        ensures
            final(self)@ == press_hold_step(old(self)@, channel, cx).0,
            final(out)@ == old(out)@ + press_hold_step(old(self)@, channel, cx).1,
            final(self).min_hold() == old(self).min_hold(),
    {
        if self.state.locked {
            if channel == self.state.channel {
                self.state.locked = false;
                self.state.ignore_next_release = true;
                self.finish_begin(false, out);
            } else {
                self.abort(cx.sounds, out);
            }
        } else if self.state.recording && channel != self.state.channel {
            self.abort(cx.sounds, out);
        } else if self.state.held {
            assert(old(out)@ + seq![] =~= old(out)@);
        } else {
            self.state.held = true;
            self.start_recording(channel, cx, out);
        }
    }

    fn double_tap(last_short_tap: Option<u64>, now_ns: u64) -> (r: bool)
        ensures
            r == is_double_tap(last_short_tap, now_ns),
    {
        match last_short_tap {
            Some(last) => {
                let since = if now_ns >= last {
                    now_ns - last
                } else {
                    0
                };
                since < DOUBLE_TAP_WINDOW_NS
            },
            None => false,
        }
    }

    fn lock(&mut self, cx: KeyContext, out: &mut Vec<Effect>)
        ensures
            final(self)@ == lock_step(old(self)@, cx).0,
            final(out)@ == old(out)@ + lock_step(old(self)@, cx).1,
            final(self).min_hold() == old(self).min_hold(),
    {
        let ghost out0 = out@;
        self.state.last_short_tap = None;
        let ghost s2 = self@;
        self.stop_preview(out);
        out.push(Effect::AbortRecorder);
        out.push(Effect::StartRecorder);
        self.state.locked = true;
        Self::push_play(SoundEvent::Start, cx.sounds, out);
        out.push(Effect::Status(Status::Recording));
        let ghost s4 = self@;
        self.start_preview(cx.live_preview, out);
        proof {
            let e3 = stop_preview_step(s2).1;
            let e5 = start_preview_step(s4, cx.live_preview).1;
            assert(out@ =~= out0 + (e3 + seq![Effect::AbortRecorder, Effect::StartRecorder] + play(
                SoundEvent::Start,
                cx.sounds,
            ) + seq![Effect::Status(Status::Recording)] + e5));
        }
    }

    fn short_tap(&mut self, cx: KeyContext, out: &mut Vec<Effect>)
        ensures
            final(self)@ == short_tap_step(old(self)@, cx).0,
            final(out)@ == old(out)@ + short_tap_step(old(self)@, cx).1,
            final(self).min_hold() == old(self).min_hold(),
    {
        let ghost out0 = out@;
        self.state.last_short_tap = Some(cx.now_ns);
        self.state.recording = false;
        let ghost s2 = self@;
        self.stop_preview(out);
        out.push(Effect::AbortRecorder);
        out.push(Effect::HideHud);
        out.push(Effect::Status(Status::Idle));
        proof {
            let e3 = stop_preview_step(s2).1;
            assert(out@ =~= out0 + (e3 + seq![
                Effect::AbortRecorder,
                Effect::HideHud,
                Effect::Status(Status::Idle),
            ]));
        }
    }

    fn release_hold(&mut self, cx: KeyContext, out: &mut Vec<Effect>)
        ensures
            final(self)@ == release_hold_step(old(self)@, cx, old(self).min_hold()).0,
            final(out)@ == old(out)@ + release_hold_step(old(self)@, cx, old(self).min_hold()).1,
            final(self).min_hold() == old(self).min_hold(),
    {
        if !self.state.held {
            assert(old(out)@ + seq![] =~= old(out)@);
            return ;
        }
        self.state.held = false;
        if self.state.cancelled {
            self.state.cancelled = false;
            self.state.recording = false;
            assert(old(out)@ + seq![] =~= old(out)@);
            return ;
        }
        if !self.state.recording {
            assert(old(out)@ + seq![] =~= old(out)@);
            return ;
        }
        if cx.recorded_ns >= self.min_hold_ns {
            self.finish_begin(true, out);
            return ;
        }
        if Self::double_tap(self.state.last_short_tap, cx.now_ns) {
            self.lock(cx, out);
        } else {
            self.short_tap(cx, out);
        }
    }

    /// Handles one keyboard event and returns the effects to carry out.
    pub fn on_key(&mut self, ev: KeyEvent, cx: KeyContext) -> (effects: Vec<Effect>)
        ensures
            final(self)@ == key_step(old(self)@, ev, cx, old(self).min_hold()).0,
            effects@ == key_step(old(self)@, ev, cx, old(self).min_hold()).1,
            final(self).min_hold() == old(self).min_hold(),
    {
        let mut out: Vec<Effect> = Vec::new();
        if ev.pressed {
            let first = !self.state.saw_event;
            self.state.saw_event = true;
            if first {
                out.push(Effect::FirstKeyEvent);
            }
            let ghost e0 = out@;
            if self.state.paused {
                return out;
            }
            match self.channel_of(ev.key) {
                Some(channel) => {
                    if self.state.mode == RecordMode::Toggle {
                        self.press_toggle(channel, cx, &mut out);
                    } else {
                        self.press_hold(channel, cx, &mut out);
                    }
                },
                None => self.press_other(cx, &mut out),
            }
            out
        } else {
            if self.state.paused {
                return out;
            }
            match self.channel_of(ev.key) {
                None => {
                    return out;
                },
                Some(_) => {},
            }
            if self.state.ignore_next_release {
                self.state.ignore_next_release = false;
                return out;
            }
            if self.state.mode == RecordMode::Toggle {
                self.release_toggle(cx, &mut out);
            } else {
                self.release_hold(cx, &mut out);
            }
            proof {
                assert(seq![] + out@ =~= out@);
            }
            out
        }
    }

    /// After a [`Effect::StopRecorder`]: given the stopped recording's sample
    /// count and duration, the effects that follow.
    pub fn finish(&self, check_min_hold: bool, samples: usize, recorded_ns: u64, sounds: bool) -> (r:
        Vec<Effect>)
        ensures
            r@ == finish_effects(
                self@.channel,
                check_min_hold,
                samples as nat,
                recorded_ns,
                self.min_hold(),
                sounds,
            ),
    {
        let mut out: Vec<Effect> = Vec::new();
        if (check_min_hold && recorded_ns < self.min_hold_ns) || samples == 0 {
            out.push(Effect::HideHud);
            out.push(Effect::Status(Status::Idle));
            assert(out@ =~= seq![Effect::HideHud, Effect::Status(Status::Idle)]);
        } else {
            Self::push_play(SoundEvent::Stop, sounds, &mut out);
            out.push(Effect::Status(Status::Transcribing));
            out.push(Effect::ShowTranscribing);
            out.push(Effect::SpawnWorker(self.state.channel));
            assert(out@ =~= play(SoundEvent::Stop, sounds) + seq![
                Effect::Status(Status::Transcribing),
                Effect::ShowTranscribing,
                Effect::SpawnWorker(self@.channel),
            ]);
        }
        out
    }

    /// Switches the dictation hotkey; a recording in progress is cancelled.
    pub fn set_trigger(&mut self, hotkey: HotkeyId, sounds: bool) -> (effects: Vec<Effect>)
        ensures
            final(self)@ == set_trigger_step(old(self)@, hotkey, sounds).0,
            effects@ == set_trigger_step(old(self)@, hotkey, sounds).1,
            final(self).min_hold() == old(self).min_hold(),
    {
        let mut out: Vec<Effect> = Vec::new();
        if self.state.recording {
            self.abort(sounds, &mut out);
            assert(seq![] + out@ =~= out@);
        }
        self.state.trigger = hotkey;
        out
    }

    /// Switches the rewrite hotkey; a recording in progress is cancelled.
    pub fn set_rewrite_trigger(&mut self, hotkey: HotkeyId, sounds: bool) -> (effects: Vec<Effect>)
        ensures
            final(self)@ == set_rewrite_trigger_step(old(self)@, hotkey, sounds).0,
            effects@ == set_rewrite_trigger_step(old(self)@, hotkey, sounds).1,
            final(self).min_hold() == old(self).min_hold(),
    {
        let mut out: Vec<Effect> = Vec::new();
        if self.state.recording {
            self.abort(sounds, &mut out);
            assert(seq![] + out@ =~= out@);
        }
        self.state.rewrite_trigger = hotkey;
        out
    }

    /// Switches the recording mode; a recording in progress is cancelled.
    pub fn set_mode(&mut self, mode: RecordMode, sounds: bool) -> (effects: Vec<Effect>)
        ensures
            final(self)@ == set_mode_step(old(self)@, mode, sounds).0,
            effects@ == set_mode_step(old(self)@, mode, sounds).1,
            final(self).min_hold() == old(self).min_hold(),
    {
        let mut out: Vec<Effect> = Vec::new();
        if self.state.recording {
            self.abort(sounds, &mut out);
            assert(seq![] + out@ =~= out@);
        }
        self.state.mode = mode;
        out
    }

    /// Pauses or resumes the hotkeys; pausing cancels a recording in progress.
    pub fn set_paused(&mut self, paused: bool, sounds: bool) -> (effects: Vec<Effect>)
        ensures
            final(self)@ == set_paused_step(old(self)@, paused, sounds).0,
            effects@ == set_paused_step(old(self)@, paused, sounds).1,
            final(self).min_hold() == old(self).min_hold(),
    {
        let mut out: Vec<Effect> = Vec::new();
        if paused && self.state.recording {
            self.abort(sounds, &mut out);
            assert(seq![] + out@ =~= out@);
        }
        self.state.paused = paused;
        self.state.held = false;
        self.state.suppressed = false;
        out
    }

    /// Stops the preview loops (on quit).
    pub fn stop(&mut self) -> (effects: Vec<Effect>)
        ensures
            final(self)@ == stop_preview_step(old(self)@).0,
            effects@ == stop_preview_step(old(self)@).1,
            final(self).min_hold() == old(self).min_hold(),
    {
        let mut out: Vec<Effect> = Vec::new();
        self.stop_preview(&mut out);
        assert(seq![] + stop_preview_step(old(self)@).1 =~= stop_preview_step(old(self)@).1);
        out
    }

    pub fn mode(&self) -> (r: RecordMode)
        ensures
            r == self@.mode,
    {
        self.state.mode
    }

    pub fn paused(&self) -> (r: bool)
        ensures
            r == self@.paused,
    {
        self.state.paused
    }

    pub fn is_recording(&self) -> (r: bool)
        ensures
            r == self@.recording,
    {
        self.state.recording
    }

    /// Channel of the current (or last) recording.
    pub fn channel(&self) -> (r: Channel)
        ensures
            r == self@.channel,
    {
        self.state.channel
    }

    pub fn locked(&self) -> (r: bool)
        ensures
            r == self@.locked,
    {
        self.state.locked
    }

    pub fn cancelled(&self) -> (r: bool)
        ensures
            r == self@.cancelled,
    {
        self.state.cancelled
    }
}

} // verus!
