//! Properties of the hotkey state machine that hold for every state and
//! event: the invariant, the pause switch, the anti-misfire rules and the
//! tap / double tap protocol.

use vstd::prelude::*;
use crate::hotkey::{
    abort_if_recording, abort_step, channel_of, finish_begin_step, finish_effects, initial_state,
    is_double_tap, key_step, lock_step, play, press_hold_step, press_other_step, press_step,
    press_toggle_step, release_hold_step, release_step, release_toggle_step, set_mode_step,
    set_paused_step, set_rewrite_trigger_step, set_trigger_step, short_tap_step,
    start_preview_step, start_recording_step, state_wf, stop_preview_step, Effect, HotkeyState,
    KeyContext,
};
use crate::keys::{HotkeyId, KeyEvent, KeyKind, RecordMode};
use crate::types::{Channel, SoundEvent, Status};

verus! {

/// The initial state satisfies the invariant.
pub proof fn law_initial_wf(trigger: HotkeyId, rewrite_trigger: HotkeyId, mode: RecordMode)
    ensures
        state_wf(initial_state(trigger, rewrite_trigger, mode)),
{
}

proof fn lemma_stop_preview(s: HotkeyState)
    ensures
        stop_preview_step(s).0 == (HotkeyState { previewing: false, ..s }),
{
}

proof fn lemma_abort_wf(s: HotkeyState, sounds: bool)
    requires
        state_wf(s),
    ensures
        state_wf(abort_step(s, sounds).0),
        !abort_step(s, sounds).0.recording,
        abort_step(s, sounds).0.paused == s.paused,
{
    lemma_stop_preview(s);
}

proof fn lemma_start_recording_wf(s: HotkeyState, channel: Channel, cx: KeyContext)
    requires
        state_wf(s),
        !s.paused,
        !s.locked,
    ensures
        state_wf(start_recording_step(s, channel, cx).0),
        start_recording_step(s, channel, cx).0.recording,
{
}

proof fn lemma_finish_begin_wf(s: HotkeyState, check: bool)
    requires
        state_wf(s),
        !s.locked,
    ensures
        state_wf(finish_begin_step(s, check).0),
        !finish_begin_step(s, check).0.recording,
{
    lemma_stop_preview(HotkeyState { recording: false, ..s });
}

proof fn lemma_press_wf(s: HotkeyState, key: KeyKind, cx: KeyContext)
    requires
        state_wf(s),
    ensures
        state_wf(press_step(s, key, cx).0),
{
    let s0 = HotkeyState { saw_event: true, ..s };
    if !s0.paused {
        match channel_of(s0, key) {
            Some(channel) => {
                if s0.mode == RecordMode::Toggle {
                    if s0.recording {
                        if channel == s0.channel {
                            lemma_finish_begin_wf(
                                HotkeyState { ignore_next_release: true, ..s0 },
                                true,
                            );
                        } else {
                            lemma_abort_wf(s0, cx.sounds);
                        }
                    }
                } else {
                    if s0.locked {
                        if channel == s0.channel {
                            lemma_finish_begin_wf(
                                HotkeyState { locked: false, ignore_next_release: true, ..s0 },
                                false,
                            );
                        } else {
                            lemma_abort_wf(s0, cx.sounds);
                        }
                    } else if s0.recording && channel != s0.channel {
                        lemma_abort_wf(s0, cx.sounds);
                    } else if !s0.held {
                        lemma_start_recording_wf(HotkeyState { held: true, ..s0 }, channel, cx);
                    }
                }
            },
            None => {
                if s0.recording && !s0.cancelled {
                    if s0.mode == RecordMode::Toggle || s0.locked {
                        lemma_abort_wf(s0, cx.sounds);
                    } else if s0.held {
                        lemma_stop_preview(HotkeyState { cancelled: true, recording: false, ..s0 });
                    }
                }
            },
        }
    }
}

proof fn lemma_release_wf(s: HotkeyState, key: KeyKind, cx: KeyContext, min_hold_ns: u64)
    requires
        state_wf(s),
    ensures
        state_wf(release_step(s, key, cx, min_hold_ns).0),
{
    if !s.paused && channel_of(s, key) is Some && !s.ignore_next_release {
        if s.mode == RecordMode::Toggle {
            if s.held && !s.suppressed {
                lemma_start_recording_wf(HotkeyState { held: false, ..s }, s.pending_channel, cx);
            }
        } else if s.held {
            let s1 = HotkeyState { held: false, ..s };
            if !s1.cancelled && s1.recording {
                if cx.recorded_ns >= min_hold_ns {
                    lemma_finish_begin_wf(s1, true);
                } else if is_double_tap(s1.last_short_tap, cx.now_ns) {
                    lemma_stop_preview(HotkeyState { last_short_tap: None, ..s1 });
                } else {
                    lemma_stop_preview(
                        HotkeyState { last_short_tap: Some(cx.now_ns), recording: false, ..s1 },
                    );
                }
            }
        }
    }
}

/// Every key event keeps the invariant.
pub proof fn law_key_step_keeps_wf(s: HotkeyState, ev: KeyEvent, cx: KeyContext, min_hold_ns: u64)
    requires
        state_wf(s),
    ensures
        state_wf(key_step(s, ev, cx, min_hold_ns).0),
{
    if ev.pressed {
        lemma_press_wf(s, ev.key, cx);
    } else {
        lemma_release_wf(s, ev.key, cx, min_hold_ns);
    }
}

/// Every configuration change keeps the invariant.
pub proof fn law_config_steps_keep_wf(
    s: HotkeyState,
    hotkey: HotkeyId,
    mode: RecordMode,
    paused: bool,
    sounds: bool,
)
    requires
        state_wf(s),
    ensures
        state_wf(set_trigger_step(s, hotkey, sounds).0),
        state_wf(set_rewrite_trigger_step(s, hotkey, sounds).0),
        state_wf(set_mode_step(s, mode, sounds).0),
        state_wf(set_paused_step(s, paused, sounds).0),
        state_wf(stop_preview_step(s).0),
{
}

/// While paused, keys change nothing but the first-event probe, and the only
/// effect is that probe.
pub proof fn law_paused_ignores_keys(s: HotkeyState, ev: KeyEvent, cx: KeyContext, min_hold_ns: u64)
    requires
        s.paused,
    ensures
        key_step(s, ev, cx, min_hold_ns).0 == (if ev.pressed {
            (HotkeyState { saw_event: true, ..s })
        } else {
            s
        }),
        key_step(s, ev, cx, min_hold_ns).1 == (if ev.pressed && !s.saw_event {
            seq![Effect::FirstKeyEvent]
        } else {
            seq![]
        }),
{
}


/// The first key press ever announces itself, as the first effect; once a
/// key has been seen, no event announces it again.
pub proof fn law_first_key_probe_once(s: HotkeyState, ev: KeyEvent, cx: KeyContext, min_hold_ns: u64)
    ensures
        ev.pressed ==> key_step(s, ev, cx, min_hold_ns).0.saw_event,
        (ev.pressed && !s.saw_event) ==> key_step(s, ev, cx, min_hold_ns).1[0]
            == Effect::FirstKeyEvent,
{
}

/// No effect of `e` announces a first keyboard event.
pub open spec fn no_probe(e: Seq<Effect>) -> bool {
    forall|i: int| 0 <= i < e.len() ==> #[trigger] e[i] != Effect::FirstKeyEvent
}

proof fn lemma_no_probe_cat(a: Seq<Effect>, b: Seq<Effect>)
    requires
        no_probe(a),
        no_probe(b),
    ensures
        no_probe(a + b),
{
    assert forall|i: int| 0 <= i < (a + b).len() implies #[trigger] (a + b)[i]
        != Effect::FirstKeyEvent by {
        if i < a.len() {
            assert((a + b)[i] == a[i]);
        } else {
            assert((a + b)[i] == b[i - a.len()]);
        }
    }
}

proof fn lemma_no_probe_literals(x: Effect, y: Effect, z: Effect)
    requires
        x != Effect::FirstKeyEvent,
        y != Effect::FirstKeyEvent,
        z != Effect::FirstKeyEvent,
    ensures
        no_probe(seq![]),
        no_probe(seq![x]),
        no_probe(seq![x, y]),
        no_probe(seq![x, y, z]),
{
    let a = seq![x, y];
    let b = seq![x, y, z];
    assert forall|i: int| 0 <= i < a.len() implies #[trigger] a[i] != Effect::FirstKeyEvent by {
        if i == 0 {
        } else {
        }
    }
    assert forall|i: int| 0 <= i < b.len() implies #[trigger] b[i] != Effect::FirstKeyEvent by {
        if i == 0 {
        } else if i == 1 {
        } else {
        }
    }
}

proof fn lemma_small_steps(s: HotkeyState, cx: KeyContext, sound: SoundEvent, live: bool)
    ensures
        no_probe(play(sound, cx.sounds)),
        no_probe(stop_preview_step(s).1),
        stop_preview_step(s).0.saw_event == s.saw_event,
        no_probe(start_preview_step(s, live).1),
        start_preview_step(s, live).0.saw_event == s.saw_event,
{
    lemma_no_probe_literals(Effect::Play(sound), Effect::StopPreview, Effect::HideHud);
    lemma_no_probe_literals(
        Effect::StartPreview { channel: s.channel, mode: s.mode, locked: s.locked },
        Effect::StopPreview,
        Effect::HideHud,
    );
}

proof fn lemma_abort_and_start(s: HotkeyState, channel: Channel, cx: KeyContext, check: bool)
    ensures
        no_probe(abort_step(s, cx.sounds).1),
        abort_step(s, cx.sounds).0.saw_event == s.saw_event,
        no_probe(start_recording_step(s, channel, cx).1),
        start_recording_step(s, channel, cx).0.saw_event == s.saw_event,
        no_probe(finish_begin_step(s, check).1),
        finish_begin_step(s, check).0.saw_event == s.saw_event,
{
    lemma_small_steps(s, cx, SoundEvent::Cancel, cx.live_preview);
    lemma_small_steps(HotkeyState { recording: false, ..s }, cx, SoundEvent::Cancel, cx.live_preview);
    let s1 = HotkeyState { channel, cancelled: false, recording: true, ..s };
    lemma_small_steps(s1, cx, SoundEvent::Start, cx.live_preview);
    lemma_no_probe_literals(Effect::AbortRecorder, Effect::HideHud, Effect::Status(Status::Idle));
    lemma_no_probe_literals(Effect::StartRecorder, Effect::Status(Status::Recording), Effect::HideHud);
    lemma_no_probe_literals(Effect::StopRecorder { check_min_hold: check }, Effect::HideHud, Effect::HideHud);
    let (_, e1) = stop_preview_step(s);
    lemma_no_probe_cat(e1, seq![Effect::AbortRecorder]);
    lemma_no_probe_cat(e1 + seq![Effect::AbortRecorder], play(SoundEvent::Cancel, cx.sounds));
    lemma_no_probe_cat(
        e1 + seq![Effect::AbortRecorder] + play(SoundEvent::Cancel, cx.sounds),
        seq![Effect::HideHud, Effect::Status(Status::Idle)],
    );
    let (_, e2) = start_preview_step(s1, cx.live_preview);
    lemma_no_probe_cat(seq![Effect::StartRecorder], play(SoundEvent::Start, cx.sounds));
    lemma_no_probe_cat(
        seq![Effect::StartRecorder] + play(SoundEvent::Start, cx.sounds),
        seq![Effect::Status(Status::Recording)],
    );
    lemma_no_probe_cat(
        seq![Effect::StartRecorder] + play(SoundEvent::Start, cx.sounds) + seq![
            Effect::Status(Status::Recording),
        ],
        e2,
    );
    let (_, e3) = stop_preview_step(HotkeyState { recording: false, ..s });
    lemma_no_probe_cat(e3, seq![Effect::StopRecorder { check_min_hold: check }]);
}

proof fn lemma_hold_tail(s: HotkeyState, cx: KeyContext)
    ensures
        no_probe(lock_step(s, cx).1),
        lock_step(s, cx).0.saw_event == s.saw_event,
        no_probe(short_tap_step(s, cx).1),
        short_tap_step(s, cx).0.saw_event == s.saw_event,
{
    let a = HotkeyState { last_short_tap: None, ..s };
    lemma_small_steps(a, cx, SoundEvent::Start, cx.live_preview);
    let (s3, e3) = stop_preview_step(a);
    lemma_small_steps(HotkeyState { locked: true, ..s3 }, cx, SoundEvent::Start, cx.live_preview);
    let (_, e5) = start_preview_step(HotkeyState { locked: true, ..s3 }, cx.live_preview);
    lemma_no_probe_literals(Effect::AbortRecorder, Effect::StartRecorder, Effect::HideHud);
    lemma_no_probe_literals(Effect::Status(Status::Recording), Effect::HideHud, Effect::HideHud);
    lemma_no_probe_cat(e3, seq![Effect::AbortRecorder, Effect::StartRecorder]);
    lemma_no_probe_cat(e3 + seq![Effect::AbortRecorder, Effect::StartRecorder], play(SoundEvent::Start, cx.sounds));
    lemma_no_probe_cat(
        e3 + seq![Effect::AbortRecorder, Effect::StartRecorder] + play(SoundEvent::Start, cx.sounds),
        seq![Effect::Status(Status::Recording)],
    );
    lemma_no_probe_cat(
        e3 + seq![Effect::AbortRecorder, Effect::StartRecorder] + play(SoundEvent::Start, cx.sounds)
            + seq![Effect::Status(Status::Recording)],
        e5,
    );
    let b = HotkeyState { last_short_tap: Some(cx.now_ns), recording: false, ..s };
    lemma_small_steps(b, cx, SoundEvent::Start, cx.live_preview);
    let (_, e6) = stop_preview_step(b);
    lemma_no_probe_literals(Effect::AbortRecorder, Effect::HideHud, Effect::Status(Status::Idle));
    lemma_no_probe_cat(e6, seq![Effect::AbortRecorder, Effect::HideHud, Effect::Status(Status::Idle)]);
}

proof fn lemma_press_steps(s: HotkeyState, channel: Channel, cx: KeyContext)
    ensures
        no_probe(press_other_step(s, cx).1),
        press_other_step(s, cx).0.saw_event == s.saw_event,
        no_probe(press_toggle_step(s, channel, cx).1),
        press_toggle_step(s, channel, cx).0.saw_event == s.saw_event,
        no_probe(press_hold_step(s, channel, cx).1),
        press_hold_step(s, channel, cx).0.saw_event == s.saw_event,
{
    lemma_abort_and_start(s, channel, cx, true);
    lemma_abort_and_start(HotkeyState { ignore_next_release: true, ..s }, channel, cx, true);
    lemma_abort_and_start(HotkeyState { locked: false, ignore_next_release: true, ..s }, channel, cx, false);
    lemma_abort_and_start(HotkeyState { held: true, ..s }, channel, cx, true);
    let c = HotkeyState { cancelled: true, recording: false, ..s };
    lemma_small_steps(c, cx, SoundEvent::Cancel, cx.live_preview);
    let (_, e1) = stop_preview_step(c);
    lemma_no_probe_literals(Effect::AbortRecorder, Effect::HideHud, Effect::Status(Status::Idle));
    lemma_no_probe_cat(e1, seq![Effect::AbortRecorder, Effect::HideHud, Effect::Status(Status::Idle)]);
}

proof fn lemma_release_steps(s: HotkeyState, cx: KeyContext, min_hold_ns: u64)
    ensures
        no_probe(release_toggle_step(s, cx).1),
        release_toggle_step(s, cx).0.saw_event == s.saw_event,
        no_probe(release_hold_step(s, cx, min_hold_ns).1),
        release_hold_step(s, cx, min_hold_ns).0.saw_event == s.saw_event,
{
    lemma_abort_and_start(HotkeyState { held: false, ..s }, s.pending_channel, cx, true);
    let s1 = HotkeyState { held: false, ..s };
    lemma_abort_and_start(s1, s.channel, cx, true);
    lemma_hold_tail(s1, cx);
    lemma_no_probe_literals(Effect::HideHud, Effect::HideHud, Effect::HideHud);
}

/// Once a keyboard event was seen, no later event announces a first one
/// again, and the machine keeps remembering it.
pub proof fn law_first_key_probe_never_repeats(
    s: HotkeyState,
    ev: KeyEvent,
    cx: KeyContext,
    min_hold_ns: u64,
)
    requires
        s.saw_event,
    ensures
        key_step(s, ev, cx, min_hold_ns).0.saw_event,
        !key_step(s, ev, cx, min_hold_ns).1.contains(Effect::FirstKeyEvent),
{
    lemma_no_probe_literals(Effect::HideHud, Effect::HideHud, Effect::HideHud);
    lemma_release_steps(s, cx, min_hold_ns);
    let s0 = HotkeyState { saw_event: true, ..s };
    assert(s0 == s);
    match channel_of(s0, ev.key) {
        Some(channel) => lemma_press_steps(s0, channel, cx),
        None => lemma_press_steps(s0, Channel::Dictate, cx),
    }
    let e = key_step(s, ev, cx, min_hold_ns).1;
    if ev.pressed && !s0.paused {
        let e1 = match channel_of(s0, ev.key) {
            Some(channel) => if s0.mode == RecordMode::Toggle {
                press_toggle_step(s0, channel, cx).1
            } else {
                press_hold_step(s0, channel, cx).1
            },
            None => press_other_step(s0, cx).1,
        };
        lemma_no_probe_cat(seq![], e1);
        assert(e == seq![] + e1);
    }
    assert(no_probe(e));
    if e.contains(Effect::FirstKeyEvent) {
        let i = choose|i: int| 0 <= i < e.len() && e[i] == Effect::FirstKeyEvent;
        assert(e[i] != Effect::FirstKeyEvent);
    }
}

/// Toggle mode: a tap (press and release) of a hotkey while idle starts a
/// recording on that hotkey's channel.
pub proof fn law_toggle_tap_starts_recording(
    s: HotkeyState,
    key: KeyKind,
    channel: Channel,
    cx1: KeyContext,
    cx2: KeyContext,
    min_hold_ns: u64,
)
    requires
        state_wf(s),
        !s.paused,
        s.mode == RecordMode::Toggle,
        !s.recording,
        !s.held,
        !s.ignore_next_release,
        channel_of(s, key) == Some(channel),
    ensures
        ({
            let (s1, e1) = key_step(s, KeyEvent { key, pressed: true }, cx1, min_hold_ns);
            let (s2, e2) = key_step(s1, KeyEvent { key, pressed: false }, cx2, min_hold_ns);
            &&& !s1.recording
            &&& s2.recording
            &&& s2.channel == channel
            &&& e2[0] == Effect::StartRecorder
            &&& e2.contains(Effect::Status(Status::Recording))
        }),
{
    let (s1, e1) = key_step(s, KeyEvent { key, pressed: true }, cx1, min_hold_ns);
    let (s2, e2) = key_step(s1, KeyEvent { key, pressed: false }, cx2, min_hold_ns);
    assert(channel_of(s1, key) == Some(channel));
    let sounds = play(SoundEvent::Start, cx2.sounds);
    assert(e2[(sounds.len() + 1) as int] == Effect::Status(Status::Recording));
}

/// Toggle mode: a shortcut (hotkey held while another key goes down) never
/// starts a recording and has no effect beyond the first-event probe.
pub proof fn law_toggle_combo_never_starts(
    s: HotkeyState,
    key: KeyKind,
    channel: Channel,
    cx1: KeyContext,
    cx2: KeyContext,
    cx3: KeyContext,
    min_hold_ns: u64,
)
    requires
        state_wf(s),
        !s.paused,
        s.mode == RecordMode::Toggle,
        !s.recording,
        !s.held,
        !s.ignore_next_release,
        channel_of(s, key) == Some(channel),
    ensures
        ({
            let (s1, e1) = key_step(s, KeyEvent { key, pressed: true }, cx1, min_hold_ns);
            let (s2, e2) = key_step(
                s1,
                KeyEvent { key: KeyKind::Other, pressed: true },
                cx2,
                min_hold_ns,
            );
            let (s3, e3) = key_step(s2, KeyEvent { key, pressed: false }, cx3, min_hold_ns);
            &&& e1 == (if s.saw_event {
                seq![]
            } else {
                seq![Effect::FirstKeyEvent]
            })
            &&& e2 == Seq::<Effect>::empty()
            &&& e3 == Seq::<Effect>::empty()
            &&& !s3.recording
            &&& !s3.held
            &&& !s3.suppressed
        }),
{
    let (s1, e1) = key_step(s, KeyEvent { key, pressed: true }, cx1, min_hold_ns);
    assert(channel_of(s1, key) == Some(channel));
    assert(e1 =~= (if s.saw_event {
        seq![]
    } else {
        seq![Effect::FirstKeyEvent]
    }));
}

/// Toggle mode: pressing the recording channel's hotkey again finishes the
/// recording (with the minimum-hold check), and its release is swallowed.
pub proof fn law_toggle_second_tap_finishes(
    s: HotkeyState,
    key: KeyKind,
    cx1: KeyContext,
    cx2: KeyContext,
    min_hold_ns: u64,
)
    requires
        state_wf(s),
        !s.paused,
        s.saw_event,
        s.mode == RecordMode::Toggle,
        s.recording,
        channel_of(s, key) == Some(s.channel),
    ensures
        ({
            let (s1, e1) = key_step(s, KeyEvent { key, pressed: true }, cx1, min_hold_ns);
            let (s2, e2) = key_step(s1, KeyEvent { key, pressed: false }, cx2, min_hold_ns);
            &&& !s1.recording
            &&& e1.last() == (Effect::StopRecorder { check_min_hold: true })
            &&& s2 == (HotkeyState { ignore_next_release: false, ..s1 })
            &&& e2 == Seq::<Effect>::empty()
        }),
{
    let (s1, e1) = key_step(s, KeyEvent { key, pressed: true }, cx1, min_hold_ns);
    assert(channel_of(s1, key) == Some(s.channel));
}

/// Any other key pressed while recording (toggle mode, locked recording, or a
/// held hotkey) ends the recording without handing it to a worker.
pub proof fn law_other_key_cancels(s: HotkeyState, cx: KeyContext, min_hold_ns: u64)
    requires
        state_wf(s),
        !s.paused,
        s.recording,
        s.mode == RecordMode::Toggle || s.locked || s.held,
    ensures
        ({
            let (s1, e1) = key_step(
                s,
                KeyEvent { key: KeyKind::Other, pressed: true },
                cx,
                min_hold_ns,
            );
            &&& !s1.recording
            &&& !s1.locked
            &&& e1.contains(Effect::AbortRecorder)
            &&& e1.last() == Effect::Status(Status::Idle)
        }),
{
    let s0 = HotkeyState { saw_event: true, ..s };
    let e0 = if s.saw_event {
        seq![]
    } else {
        seq![Effect::FirstKeyEvent]
    };
    let (s1, e1) = press_other_step(s0, cx);
    let stop = stop_preview_step(s0).1;
    if s0.mode == RecordMode::Toggle || s0.locked {
        assert((e0 + e1)[(e0.len() + stop.len()) as int] == Effect::AbortRecorder);
    } else {
        let stop2 = stop_preview_step(HotkeyState { cancelled: true, recording: false, ..s0 }).1;
        assert((e0 + e1)[(e0.len() + stop2.len()) as int] == Effect::AbortRecorder);
    }
}

/// The other channel's hotkey pressed while recording cancels the recording,
/// in either mode.
pub proof fn law_other_hotkey_cancels(
    s: HotkeyState,
    key: KeyKind,
    channel: Channel,
    cx: KeyContext,
    min_hold_ns: u64,
)
    requires
        state_wf(s),
        !s.paused,
        s.recording,
        channel_of(s, key) == Some(channel),
        channel != s.channel,
    ensures
        ({
            let (s1, e1) = key_step(s, KeyEvent { key, pressed: true }, cx, min_hold_ns);
            &&& !s1.recording
            &&& e1.contains(Effect::AbortRecorder)
            &&& e1.last() == Effect::Status(Status::Idle)
        }),
{
    let s0 = HotkeyState { saw_event: true, ..s };
    let e0 = if s.saw_event {
        seq![]
    } else {
        seq![Effect::FirstKeyEvent]
    };
    assert(channel_of(s0, key) == Some(channel));
    let (s1, e1) = abort_step(s0, cx.sounds);
    let stop = stop_preview_step(s0).1;
    assert((e0 + e1)[(e0.len() + stop.len()) as int] == Effect::AbortRecorder);
}


/// Hold mode: releasing the hotkey after at least the minimum hold finishes
/// the recording (with the minimum-hold check).
pub proof fn law_hold_release_finishes(s: HotkeyState, key: KeyKind, cx: KeyContext, min_hold_ns: u64)
    requires
        state_wf(s),
        !s.paused,
        s.mode == RecordMode::Hold,
        s.held,
        s.recording,
        !s.ignore_next_release,
        channel_of(s, key) is Some,
        cx.recorded_ns >= min_hold_ns,
    ensures
        ({
            let (s1, e1) = key_step(s, KeyEvent { key, pressed: false }, cx, min_hold_ns);
            &&& !s1.recording
            &&& !s1.held
            &&& e1.last() == (Effect::StopRecorder { check_min_hold: true })
        }),
{
}

/// Hold mode: a short tap discards its recording and remembers when it
/// happened; a second short tap within the window locks a fresh recording.
pub proof fn law_hold_short_taps(s: HotkeyState, key: KeyKind, cx: KeyContext, min_hold_ns: u64)
    requires
        state_wf(s),
        !s.paused,
        s.mode == RecordMode::Hold,
        s.held,
        s.recording,
        !s.ignore_next_release,
        channel_of(s, key) is Some,
        cx.recorded_ns < min_hold_ns,
    ensures
        ({
            let (s1, e1) = key_step(s, KeyEvent { key, pressed: false }, cx, min_hold_ns);
            &&& !s1.held
            &&& s1.ignore_next_release == s.ignore_next_release
            &&& s1.mode == s.mode
            &&& s1.trigger == s.trigger
            &&& s1.rewrite_trigger == s.rewrite_trigger
            &&& s1.paused == s.paused
            &&& s1.channel == s.channel
            &&& if is_double_tap(s.last_short_tap, cx.now_ns) {
                &&& s1.recording
                &&& s1.locked
                &&& s1.last_short_tap is None
                &&& e1.contains(Effect::StartRecorder)
                &&& !e1.contains(Effect::Status(Status::Idle))
            } else {
                &&& !s1.recording
                &&& !s1.locked
                &&& s1.last_short_tap == Some(cx.now_ns)
                &&& e1.last() == Effect::Status(Status::Idle)
            }
        }),
{
    let s1 = HotkeyState { held: false, ..s };
    if is_double_tap(s.last_short_tap, cx.now_ns) {
        let e3 = stop_preview_step(HotkeyState { last_short_tap: None, ..s1 }).1;
        let (s5, e1) = lock_step(s1, cx);
        assert(e1[(e3.len() + 1) as int] == Effect::StartRecorder);
        let snd = play(SoundEvent::Start, cx.sounds);
        let e5 = start_preview_step(
            HotkeyState { locked: true, ..stop_preview_step(HotkeyState { last_short_tap: None, ..s1 }).0 },
            cx.live_preview,
        ).1;
        assert forall|k: int| 0 <= k < e1.len() implies e1[k] != Effect::Status(Status::Idle) by {
            assert(e1 == e3 + seq![Effect::AbortRecorder, Effect::StartRecorder] + snd + seq![
                Effect::Status(Status::Recording),
            ] + e5);
        }
    }
}

/// Hold mode: two short taps within the window, starting from idle (no short
/// tap just before), end in a locked recording.
pub proof fn law_hold_double_tap_locks(
    s: HotkeyState,
    key: KeyKind,
    channel: Channel,
    t1: KeyContext,
    t2: KeyContext,
    t3: KeyContext,
    t4: KeyContext,
    min_hold_ns: u64,
)
    requires
        state_wf(s),
        !s.paused,
        s.mode == RecordMode::Hold,
        !s.recording,
        !s.held,
        !s.ignore_next_release,
        channel_of(s, key) == Some(channel),
        t2.recorded_ns < min_hold_ns,
        t4.recorded_ns < min_hold_ns,
        !is_double_tap(s.last_short_tap, t2.now_ns),
        is_double_tap(Some(t2.now_ns), t4.now_ns),
    ensures
        ({
            let (s1, e1) = key_step(s, KeyEvent { key, pressed: true }, t1, min_hold_ns);
            let (s2, e2) = key_step(s1, KeyEvent { key, pressed: false }, t2, min_hold_ns);
            let (s3, e3) = key_step(s2, KeyEvent { key, pressed: true }, t3, min_hold_ns);
            let (s4, e4) = key_step(s3, KeyEvent { key, pressed: false }, t4, min_hold_ns);
            &&& s1.recording
            &&& !s2.recording
            &&& s3.recording
            &&& s4.recording
            &&& s4.locked
            &&& s4.channel == channel
        }),
{
    let (s1, e1) = key_step(s, KeyEvent { key, pressed: true }, t1, min_hold_ns);
    assert(channel_of(s1, key) == Some(channel));
    law_key_step_keeps_wf(s, KeyEvent { key, pressed: true }, t1, min_hold_ns);
    let (s2, e2) = key_step(s1, KeyEvent { key, pressed: false }, t2, min_hold_ns);
    assert(channel_of(s2, key) == Some(channel));
    law_hold_short_taps(s1, key, t2, min_hold_ns);
    law_key_step_keeps_wf(s1, KeyEvent { key, pressed: false }, t2, min_hold_ns);
    let (s3, e3) = key_step(s2, KeyEvent { key, pressed: true }, t3, min_hold_ns);
    assert(!s2.held && !s2.recording && !s2.locked);
    assert(s3.held && s3.recording);
    assert(channel_of(s3, key) == Some(channel));
    law_key_step_keeps_wf(s2, KeyEvent { key, pressed: true }, t3, min_hold_ns);
    law_hold_short_taps(s3, key, t4, min_hold_ns);
}

/// A stopped recording goes to the worker only when it is long enough (where
/// checked) and holds audio; otherwise the HUD hides and the state is idle.
pub proof fn law_finish_discards_short_or_empty(
    channel: Channel,
    check_min_hold: bool,
    samples: nat,
    recorded_ns: u64,
    min_hold_ns: u64,
    sounds: bool,
)
    ensures
        ((check_min_hold && recorded_ns < min_hold_ns) || samples == 0) ==> finish_effects(
            channel,
            check_min_hold,
            samples,
            recorded_ns,
            min_hold_ns,
            sounds,
        ) == seq![Effect::HideHud, Effect::Status(Status::Idle)],
        !((check_min_hold && recorded_ns < min_hold_ns) || samples == 0) ==> finish_effects(
            channel,
            check_min_hold,
            samples,
            recorded_ns,
            min_hold_ns,
            sounds,
        ).last() == Effect::SpawnWorker(channel),
{
}

/// Changing a hotkey or the mode always leaves the machine not recording,
/// with the new setting in place; pausing stops a recording too.
pub proof fn law_config_change_cancels(
    s: HotkeyState,
    hotkey: HotkeyId,
    mode: RecordMode,
    paused: bool,
    sounds: bool,
)
    requires
        state_wf(s),
    ensures
        !set_trigger_step(s, hotkey, sounds).0.recording,
        set_trigger_step(s, hotkey, sounds).0.trigger == hotkey,
        !set_rewrite_trigger_step(s, hotkey, sounds).0.recording,
        set_rewrite_trigger_step(s, hotkey, sounds).0.rewrite_trigger == hotkey,
        !set_mode_step(s, mode, sounds).0.recording,
        set_mode_step(s, mode, sounds).0.mode == mode,
        set_paused_step(s, paused, sounds).0.paused == paused,
        paused ==> !set_paused_step(s, paused, sounds).0.recording,
        s.recording ==> set_trigger_step(s, hotkey, sounds).1.last() == Effect::Status(Status::Idle),
        s.recording ==> set_mode_step(s, mode, sounds).1.last() == Effect::Status(Status::Idle),
{
}

} // verus!
