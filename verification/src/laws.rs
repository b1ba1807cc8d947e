//! Properties of the library as a whole: what the dictation and rewrite
//! workers always do, what the clipboard transactions guarantee, and how
//! styles, replacements, history and settings behave across calls.

use vstd::prelude::*;
use crate::context::pick_style_spec;
use crate::history::{
    LogModel, EntryModel, keep_last, log_after_append, log_after_load, log_after_load_items,
    recent_spec, total_len,
};
use crate::keys::{TargetOs, hotkey_choices};
use crate::paster::{
    ClipOpModel, FlowStepModel, PasteModel, PasteStage, SENTINEL, paste_next, paste_start,
    restore_op, selection_of,
};
use crate::pipeline::{
    ActionModel, EventModel, FlowModel, Stage, finish_actions, rewrite_step, dictate_step,
    worker_step, deliver, rewrite_history_entry, flow_wf,
};
use crate::polisher::{
    builtin_names, builtin_prompt, lemma_builtin_names_distinct, replace_all, replace_from,
    style_prompt, reply_outcome, nonempty_words, join, system_prompt_spec, rewrite_prompt_spec,
    HOTWORDS_HEADER, REWRITE_HOTWORDS_HEADER, WORD_SEPARATOR,
};
use crate::menu::{command_spec, prefixed_command, MenuCommandModel};
use crate::settings::{Settings, hotkey_from_raw};
use crate::strmap::lookup;
use crate::model_download::{add_default, endpoints_spec, custom_endpoints, same_site, HF_MIRROR, HF_OFFICIAL};
use crate::text::{is_blank, trim};
use crate::types::{Channel, Status};

verus! {

/// Whether `pat` occurs in `s`.
pub open spec fn occurs_in(s: Seq<char>, pat: Seq<char>) -> bool {
    exists|i: int| 0 <= i && i + pat.len() <= s.len() && #[trigger] s.subrange(i, i + pat.len()) == pat
}

/// Replacing a text that does not occur leaves the string as it is.
pub proof fn law_replace_absent_is_identity(s: Seq<char>, from: Seq<char>, to: Seq<char>)
    requires
        !occurs_in(s, from),
    ensures
        replace_all(s, from, to) == s,
    decreases s.len(),
{
    if from.len() == 0 || s.len() < from.len() {
    } else {
        if s.subrange(0, from.len() as int) == from {
            assert(s.subrange(0, 0 + from.len() as int) == from);
            assert(false);
        }
        let t = s.skip(1);
        assert forall|i: int| 0 <= i && i + from.len() <= t.len() implies #[trigger] t.subrange(
            i,
            i + from.len(),
        ) != from by {
            assert(t.subrange(i, i + from.len()) =~= s.subrange(i + 1, i + 1 + from.len()));
        }
        law_replace_absent_is_identity(t, from, to);
        assert(seq![s[0]] + t =~= s);
    }
}

/// An empty replacement table changes nothing.
pub proof fn law_empty_table_changes_nothing(s: Seq<char>)
    ensures
        replace_from(s, Seq::empty(), 0) == s,
{
}

/// Every built-in style stays available whatever the user table holds
/// (possibly with the user's prompt).
pub proof fn law_builtin_styles_available(user: Seq<(Seq<char>, Seq<char>)>, i: int)
    requires
        0 <= i < 5,
    ensures
        style_prompt(user, builtin_names()[i]) is Some,
{
    lemma_builtin_names_distinct();
}

/// Fail-open: a failed call yields nothing, and a reply is never handed on
/// blank or with surrounding whitespace.
pub proof fn law_reply_is_trimmed_or_nothing(reply: Option<Seq<char>>)
    ensures
        reply is None ==> reply_outcome(reply) is None,
        reply_outcome(reply) matches Some(t) ==> (t.len() > 0 && reply is Some && t == trim(
            reply->0,
        )),
{
}

/// A known identifier beats any name match.
pub proof fn law_identifier_beats_name(
    name: Seq<char>,
    id: Seq<char>,
    m: Seq<(Seq<char>, Seq<char>)>,
    style: Seq<char>,
)
    requires
        m.len() > 0,
        id.len() > 0,
        lookup(m, id) == Some(style),
    ensures
        pick_style_spec(name, id, m) == Some(style),
{
}

/// Dictation: a blank or failed transcript finishes the worker without
/// pasting or recording anything.
pub proof fn law_blank_transcript_is_dropped(
    m: FlowModel,
    s: Settings,
    has_polisher: bool,
    t: Option<Seq<char>>,
)
    requires
        m.channel == Channel::Dictate,
        m.stage == Stage::AwaitTranscript,
        t is None || is_blank(t->0),
    ensures
        worker_step(m, s, has_polisher, EventModel::Transcript(t)).0.stage == Stage::Done,
        worker_step(m, s, has_polisher, EventModel::Transcript(t)).1 == finish_actions(),
{
}

/// Dictation without polishing pastes the transcript after the replacement
/// table, and records the transcript with it.
pub proof fn law_unpolished_dictation_pastes_replaced_text(
    m: FlowModel,
    s: Settings,
    has_polisher: bool,
    raw: Seq<char>,
)
    requires
        m.channel == Channel::Dictate,
        m.stage == Stage::AwaitTranscript,
        !is_blank(raw),
        !(has_polisher && s.polish.enabled),
    ensures
        worker_step(m, s, has_polisher, EventModel::Transcript(Some(raw))).1 == deliver(
            raw,
            replace_from(raw, s.replacements@, 0),
        ),
{
}

/// Fail-open polishing: when the polish gives nothing, the text from the
/// replacement table is pasted as is.
pub proof fn law_failed_polish_pastes_original(m: FlowModel, s: Settings, has_polisher: bool)
    requires
        m.channel == Channel::Dictate,
        m.stage == Stage::AwaitPolish,
    ensures
        worker_step(m, s, has_polisher, EventModel::Polished(None)).1 == deliver(m.raw, m.text),
{
}

/// An application whose style is "off" gets the unpolished text.
pub proof fn law_style_off_skips_polish(
    m: FlowModel,
    s: Settings,
    has_polisher: bool,
    name: Seq<char>,
    id: Seq<char>,
)
    requires
        m.channel == Channel::Dictate,
        m.stage == Stage::AwaitApp,
        pick_style_spec(name, id, s.app_styles@) == Some("关闭"@) || pick_style_spec(
            name,
            id,
            s.app_styles@,
        ) == Some("off"@),
    ensures
        worker_step(m, s, has_polisher, EventModel::App(name, id)).1 == deliver(m.raw, m.text),
{
}

/// Whatever happens, a worker that finishes hides the HUD and goes back to
/// idle as its last two actions.
pub proof fn law_worker_ends_idle(m: FlowModel, s: Settings, has_polisher: bool, e: EventModel)
    requires
        m.stage != Stage::Done,
        worker_step(m, s, has_polisher, e).0.stage == Stage::Done,
    ensures
        ({
            let a = worker_step(m, s, has_polisher, e).1;
            a.len() >= 2 && a.subrange(a.len() - 2, a.len() as int) == finish_actions()
        }),
{
    let a = worker_step(m, s, has_polisher, e).1;
    assert(a.subrange(a.len() - 2, a.len() as int) =~= finish_actions());
}

/// Every step keeps the worker state well formed (a fresh worker is).
pub proof fn law_worker_keeps_wf(m: FlowModel, s: Settings, has_polisher: bool, e: EventModel)
    requires
        flow_wf(m),
    ensures
        flow_wf(worker_step(m, s, has_polisher, e).0),
{
}

/// The rewrite worker never asks for a rewrite before a non-blank
/// selection was captured and a non-empty instruction heard.
pub proof fn law_rewrite_needs_selection_and_instruction(
    m: FlowModel,
    s: Settings,
    has_polisher: bool,
    e: EventModel,
)
    requires
        m.channel == Channel::Rewrite,
        flow_wf(m),
    ensures
        forall|i: int|
            0 <= i < worker_step(m, s, has_polisher, e).1.len() ==> (#[trigger] worker_step(
                m,
                s,
                has_polisher,
                e,
            ).1[i] matches ActionModel::Rewrite(sel, ins) ==> !is_blank(sel) && ins.len() > 0),
{
    let a = worker_step(m, s, has_polisher, e).1;
    assert forall|i: int| 0 <= i < a.len() implies (#[trigger] a[i] matches ActionModel::Rewrite(
        sel,
        ins,
    ) ==> !is_blank(sel) && ins.len() > 0) by {
        if m.stage == Stage::AwaitInstruction {
            if let EventModel::Transcript(Some(raw)) = e {
                if trim(raw).len() > 0 {
                    assert(a[i] matches ActionModel::Rewrite(sel, ins) ==> sel == m.selection);
                }
            }
        }
    }
}

/// A rewrite that stops before replacing gives the clipboard back: every
/// transition into the end from a stage after the capture carries
/// `RestoreSelection`.
pub proof fn law_rewrite_gives_clipboard_back(
    m: FlowModel,
    s: Settings,
    has_polisher: bool,
    e: EventModel,
)
    requires
        m.channel == Channel::Rewrite,
        m.stage == Stage::AwaitCapture || m.stage == Stage::AwaitInstruction || m.stage
            == Stage::AwaitRewrite || m.stage == Stage::AwaitReplace,
        worker_step(m, s, has_polisher, e).0.stage == Stage::Done,
    ensures
        worker_step(m, s, has_polisher, e).1.contains(ActionModel::RestoreSelection),
{
    let a = worker_step(m, s, has_polisher, e).1;
    assert(a[a.len() - 3] == ActionModel::RestoreSelection);
}

/// A successful rewrite is recorded as "〔改写〕" followed by the
/// instruction, with the rewritten text.
pub proof fn law_rewrite_history_entry(m: FlowModel, s: Settings, has_polisher: bool)
    requires
        m.channel == Channel::Rewrite,
        m.stage == Stage::AwaitReplace,
    ensures
        worker_step(m, s, has_polisher, EventModel::Replaced(true)).1[0] == ActionModel::AppendHistory(
            rewrite_history_entry(m.instruction),
            m.result,
        ),
        !worker_step(m, s, has_polisher, EventModel::Replaced(false)).1.contains(
            ActionModel::AppendHistory(rewrite_history_entry(m.instruction), m.result),
        ),
{
    let a = worker_step(m, s, has_polisher, EventModel::Replaced(false)).1;
    assert(a =~= seq![
        ActionModel::RestoreSelection,
        ActionModel::HideHud,
        ActionModel::SetStatus(Status::Idle),
    ]);
    if a.contains(ActionModel::AppendHistory(rewrite_history_entry(m.instruction), m.result)) {
        let i = choose|i: int|
            0 <= i < a.len() && a[i] == ActionModel::AppendHistory(
                rewrite_history_entry(m.instruction),
                m.result,
            );
        assert(false);
    }
}

/// A blank text is never pasted: the paste finishes at once with failure
/// (a selection replacement first gives the clipboard back).
pub proof fn law_blank_text_is_not_pasted(
    text: Seq<char>,
    restore_to: Option<Option<Seq<char>>>,
    timings: crate::paster::PasterTimings,
    restore_on_failure: bool,
)
    requires
        is_blank(text),
    ensures
        !restore_on_failure ==> paste_start(text, restore_to, timings, restore_on_failure).1
            == FlowStepModel::Finished(false),
        restore_on_failure ==> paste_start(text, restore_to, timings, restore_on_failure).1
            == FlowStepModel::Run(
            restore_op(
                match restore_to {
                    Some(o) => o,
                    None => None,
                },
            ),
        ),
{
}

/// After a successful paste the clipboard kept before it is handed to the
/// delayed restore, exactly as it was.
pub proof fn law_paste_hands_back_original(m: PasteModel)
    requires
        m.stage == PasteStage::Paste,
    ensures
        paste_next(m, true, None).1 == FlowStepModel::Run(
            ClipOpModel::RestoreLater(m.timings.restore_delay_ms, m.original),
        ),
        paste_next(paste_next(m, true, None).0, true, None).1 == FlowStepModel::Finished(true),
{
}

/// A capture never reports the sentinel or an empty text as the selection.
pub proof fn law_capture_never_reports_sentinel(read: Option<Seq<char>>)
    ensures
        selection_of(read) matches Some(t) ==> t.len() > 0 && t != SENTINEL@,
{
}

/// History keeps at most `max_items` entries, the newest last, and counts
/// every recorded entry in its totals.
pub proof fn law_history_rolls_but_counts(l: LogModel, e: EntryModel, max_items: nat)
    requires
        !is_blank(e.final_text),
        l.total_count < u64::MAX,
        l.version < u64::MAX,
        l.total_chars + e.final_text.len() <= u64::MAX,
    ensures
        log_after_append(l, true, e, max_items).items.len() <= max_items,
        max_items > 0 ==> log_after_append(l, true, e, max_items).items.last() == e,
        log_after_append(l, true, e, max_items).total_count == l.total_count + 1,
        log_after_append(l, true, e, max_items).total_chars == l.total_chars + e.final_text.len(),
        log_after_append(l, true, e, max_items).version == l.version + 1,
{
}

/// With history off, or a blank final text, nothing changes.
pub proof fn law_history_ignores_disabled_or_blank(
    l: LogModel,
    enabled: bool,
    e: EntryModel,
    max_items: nat,
)
    requires
        !enabled || is_blank(e.final_text),
    ensures
        log_after_append(l, enabled, e, max_items) == l,
{
}

/// A hotkey read from settings.json is always one the platform offers.
pub proof fn law_read_hotkey_is_offered(raw: Seq<char>, dictate: bool, os: TargetOs)
    ensures
        hotkey_choices(os).contains(hotkey_from_raw(raw, dictate, os)),
{
    crate::keys::law_defaults_are_valid_choices(os);
}

/// A default source is always among the candidates once added, and what
/// was listed before stays in front.
pub proof fn law_add_default_keeps_and_covers(list: Seq<Seq<char>>, d: Seq<char>)
    ensures
        exists|i: int| 0 <= i < add_default(list, d).len() && same_site(#[trigger] add_default(list, d)[i], d),
        add_default(list, d).subrange(0, list.len() as int) == list,
{
    if exists|i: int| 0 <= i < list.len() && same_site(#[trigger] list[i], d) {
        let i = choose|i: int| 0 <= i < list.len() && same_site(#[trigger] list[i], d);
        assert(add_default(list, d)[i] == list[i]);
        assert(same_site(add_default(list, d)[i], d));
        assert(list.subrange(0, list.len() as int) =~= list);
    } else {
        let l2 = list.push(d);
        assert(l2[list.len() as int] == d);
        assert(same_site(l2[list.len() as int], d));
        assert(add_default(list, d) == l2);
        assert(same_site(add_default(list, d)[list.len() as int], d));
        assert(l2.subrange(0, list.len() as int) =~= list);
    }
}

/// Model sources: the official site and the mirror are always candidates,
/// and a set `HF_ENDPOINT` is tried first.
pub proof fn law_sources_cover_defaults(hf_endpoint: Option<Seq<char>>)
    ensures
        exists|i: int| 0 <= i < endpoints_spec(hf_endpoint).len() && same_site(#[trigger] endpoints_spec(hf_endpoint)[i], HF_MIRROR@),
        exists|i: int| 0 <= i < endpoints_spec(hf_endpoint).len() && same_site(#[trigger] endpoints_spec(hf_endpoint)[i], HF_OFFICIAL@),
        custom_endpoints(hf_endpoint).len() > 0 ==> endpoints_spec(hf_endpoint)[0] == custom_endpoints(hf_endpoint)[0],
{
    let c = custom_endpoints(hf_endpoint);
    let w = add_default(c, HF_OFFICIAL@);
    law_add_default_keeps_and_covers(c, HF_OFFICIAL@);
    law_add_default_keeps_and_covers(w, HF_MIRROR@);
    let e = endpoints_spec(hf_endpoint);
    let i = choose|i: int| 0 <= i < w.len() && same_site(#[trigger] w[i], HF_OFFICIAL@);
    assert(e.subrange(0, w.len() as int)[i] == w[i]);
    assert(e[i] == w[i]);
    if c.len() > 0 {
        assert(w.subrange(0, c.len() as int)[0] == c[0]);
        assert(e.subrange(0, w.len() as int)[0] == w[0]);
    }
}

/// Reading a key of the text map after storing a value under it gives that
/// value back; other keys are untouched.
pub proof fn law_read_after_write(
    before: Seq<(Seq<char>, Seq<char>)>,
    after: Seq<(Seq<char>, Seq<char>)>,
    key: Seq<char>,
    value: Seq<char>,
    other: Seq<char>,
)
    requires
        forall|k: Seq<char>| #[trigger] lookup(after, k) == (if k == key {
            Some(value)
        } else {
            lookup(before, k)
        }),
        other != key,
    ensures
        lookup(after, key) == Some(value),
        lookup(after, other) == lookup(before, other),
{
}

// ---- Hotwords in system prompts ----

/// The non-empty words keep every non-empty word, and there are some
/// exactly when some word is non-empty.
proof fn lemma_nonempty_words_keep(ws: Seq<Seq<char>>)
    ensures
        forall|i: int|
            0 <= i < ws.len() && ws[i].len() > 0 ==> nonempty_words(ws).contains(#[trigger] ws[i]),
        (nonempty_words(ws).len() > 0) == (exists|i: int| 0 <= i < ws.len() && ws[i].len() > 0),
    decreases ws.len(),
{
    if ws.len() > 0 {
        let d = ws.drop_last();
        lemma_nonempty_words_keep(d);
        let r = nonempty_words(d);
        assert forall|i: int| 0 <= i < ws.len() && ws[i].len() > 0 implies nonempty_words(
            ws,
        ).contains(#[trigger] ws[i]) by {
            if i < ws.len() - 1 {
                assert(d[i] == ws[i]);
                let j = choose|j: int| 0 <= j < r.len() && r[j] == d[i];
                if ws.last().len() > 0 {
                    assert(r.push(ws.last())[j] == ws[i]);
                }
            } else {
                assert(r.push(ws.last())[r.len() as int] == ws[i]);
            }
        }
        if exists|i: int| 0 <= i < d.len() && d[i].len() > 0 {
            let i = choose|i: int| 0 <= i < d.len() && d[i].len() > 0;
            assert(ws[i] == d[i]);
        }
        if exists|i: int| 0 <= i < ws.len() && ws[i].len() > 0 {
            let i = choose|i: int| 0 <= i < ws.len() && ws[i].len() > 0;
            if i < ws.len() - 1 {
                assert(d[i] == ws[i]);
            }
        }
    }
}

/// With a single non-empty word `w`, the non-empty words are just `w`.
proof fn lemma_nonempty_words_single(ws: Seq<Seq<char>>, k: int)
    requires
        0 <= k < ws.len(),
        ws[k].len() > 0,
        forall|i: int| 0 <= i < ws.len() && i != k ==> ws[i].len() == 0,
    ensures
        nonempty_words(ws) == seq![ws[k]],
    decreases ws.len(),
{
    let d = ws.drop_last();
    if k == ws.len() - 1 {
        assert forall|i: int| 0 <= i < d.len() implies !(d[i].len() > 0) by {
            assert(d[i] == ws[i]);
        }
        lemma_nonempty_words_keep(d);
        assert(nonempty_words(d).len() == 0);
        assert(nonempty_words(ws) =~= seq![ws[k]]);
    } else {
        lemma_nonempty_words_single(d, k);
    }
}

/// A segment of the first part of a concatenation is a segment of the whole.
proof fn lemma_occurs_in_prefix(a: Seq<char>, b: Seq<char>, w: Seq<char>)
    requires
        occurs_in(a, w),
    ensures
        occurs_in(a + b, w),
{
    let i = choose|i: int| 0 <= i && i + w.len() <= a.len() && #[trigger] a.subrange(i, i + w.len()) == w;
    assert((a + b).subrange(i, i + w.len()) =~= a.subrange(i, i + w.len()));
}

/// Every word occurs in the words joined by a separator.
proof fn lemma_join_contains(ws: Seq<Seq<char>>, sep: Seq<char>)
    ensures
        forall|j: int| 0 <= j < ws.len() ==> occurs_in(join(ws, sep), #[trigger] ws[j]),
    decreases ws.len(),
{
    if ws.len() == 1 {
        let i: int = 0;
        assert(join(ws, sep).subrange(i, i + ws[0].len()) =~= ws[0]);
    } else if ws.len() > 1 {
        let d = ws.drop_last();
        lemma_join_contains(d, sep);
        let a = join(d, sep) + sep;
        let t = join(ws, sep);
        assert(t == a + ws.last());
        assert forall|j: int| 0 <= j < ws.len() implies occurs_in(t, #[trigger] ws[j]) by {
            if j < ws.len() - 1 {
                assert(d[j] == ws[j]);
                lemma_occurs_in_prefix(join(d, sep), sep, ws[j]);
                lemma_occurs_in_prefix(a, ws.last(), ws[j]);
            } else {
                let i: int = a.len() as int;
                assert(t.subrange(i, i + ws[j].len()) =~= ws[j]);
            }
        }
    }
}

/// Every non-empty word occurs in the joined non-empty words.
proof fn lemma_hotwords_listed(hotwords: Seq<Seq<char>>)
    ensures
        forall|i: int|
            0 <= i < hotwords.len() && hotwords[i].len() > 0 ==> occurs_in(
                join(nonempty_words(hotwords), WORD_SEPARATOR@),
                #[trigger] hotwords[i],
            ),
{
    lemma_nonempty_words_keep(hotwords);
    lemma_join_contains(nonempty_words(hotwords), WORD_SEPARATOR@);
    assert forall|i: int| 0 <= i < hotwords.len() && hotwords[i].len() > 0 implies occurs_in(
        join(nonempty_words(hotwords), WORD_SEPARATOR@),
        #[trigger] hotwords[i],
    ) by {
        let ws = nonempty_words(hotwords);
        assert(ws.contains(hotwords[i]));
        let j = choose|j: int| 0 <= j < ws.len() && ws[j] == hotwords[i];
        assert(occurs_in(join(ws, WORD_SEPARATOR@), ws[j]));
    }
}

/// `s` ends with `t`.
pub open spec fn ends_with(s: Seq<char>, t: Seq<char>) -> bool {
    t.len() <= s.len() && s.subrange(s.len() - t.len(), s.len() as int) == t
}

/// What a prompt that names the hotwords after `header` satisfies: when
/// some hotword is non-empty it ends with `header` and a list in which every
/// non-empty hotword occurs; a single non-empty hotword `w` makes it end
/// with `header` and `w`.
pub open spec fn names_hotwords(p: Seq<char>, header: Seq<char>, hotwords: Seq<Seq<char>>) -> bool {
    &&& (exists|i: int| 0 <= i < hotwords.len() && hotwords[i].len() > 0) ==> exists|list: Seq<char>|
        #[trigger] ends_with(p, header + list) && forall|i: int|
            0 <= i < hotwords.len() && hotwords[i].len() > 0 ==> occurs_in(list, #[trigger] hotwords[i])
    &&& forall|k: int|
        0 <= k < hotwords.len() && hotwords[k].len() > 0 && (forall|i: int|
            0 <= i < hotwords.len() && i != k ==> hotwords[i].len() == 0) ==> ends_with(
            p,
            header + #[trigger] hotwords[k],
        )
}

/// A prompt made of `base`, then `header` and the joined non-empty hotwords
/// when there are any, names the hotwords; with none it is `base`.
proof fn lemma_base_header_list(base: Seq<char>, header: Seq<char>, hotwords: Seq<Seq<char>>)
    ensures
        names_hotwords(
            if nonempty_words(hotwords).len() > 0 {
                base + header + join(nonempty_words(hotwords), WORD_SEPARATOR@)
            } else {
                base
            },
            header,
            hotwords,
        ),
        (forall|i: int| 0 <= i < hotwords.len() ==> hotwords[i].len() == 0) ==> nonempty_words(
            hotwords,
        ).len() == 0,
{
    let ws = nonempty_words(hotwords);
    let list = join(ws, WORD_SEPARATOR@);
    let p = if ws.len() > 0 {
        base + header + list
    } else {
        base
    };
    lemma_nonempty_words_keep(hotwords);
    lemma_hotwords_listed(hotwords);
    if ws.len() > 0 {
        assert(p.subrange(p.len() - (header + list).len(), p.len() as int) =~= header + list);
        assert(ends_with(p, header + list));
    }
    assert forall|k: int|
        0 <= k < hotwords.len() && hotwords[k].len() > 0 && (forall|i: int|
            0 <= i < hotwords.len() && i != k ==> hotwords[i].len() == 0) implies ends_with(
        p,
        header + #[trigger] hotwords[k],
    ) by {
        lemma_nonempty_words_single(hotwords, k);
        assert(list == hotwords[k]);
        assert(p.subrange(p.len() - (header + list).len(), p.len() as int) =~= header + list);
    }
    if forall|i: int| 0 <= i < hotwords.len() ==> hotwords[i].len() == 0 {
        assert(!exists|i: int| 0 <= i < hotwords.len() && hotwords[i].len() > 0);
    }
}

/// The polishing system prompt names the hotwords: when some hotword is
/// non-empty, the prompt ends with the hotword header followed by a list in
/// which every non-empty hotword occurs; a single non-empty hotword `w`
/// makes the prompt end with the header and `w`. When every hotword is
/// empty the prompt is the one without hotwords.
pub proof fn law_polish_prompt_lists_hotwords(hotwords: Seq<Seq<char>>, style: Option<Seq<char>>)
    ensures
        names_hotwords(system_prompt_spec(hotwords, style), HOTWORDS_HEADER@, hotwords),
        (forall|i: int| 0 <= i < hotwords.len() ==> hotwords[i].len() == 0) ==> system_prompt_spec(
            hotwords,
            style,
        ) == system_prompt_spec(Seq::empty(), style),
{
    let base = system_prompt_spec(Seq::empty(), style);
    assert(nonempty_words(Seq::<Seq<char>>::empty()) =~= Seq::<Seq<char>>::empty());
    lemma_base_header_list(base, HOTWORDS_HEADER@, hotwords);
}

/// The rewrite system prompt names the hotwords: when some hotword is
/// non-empty, the prompt ends with the rewrite hotword header followed by a
/// list in which every non-empty hotword occurs; a single non-empty hotword
/// `w` makes the prompt end with the header and `w`. When every hotword is
/// empty the prompt is the one without hotwords.
pub proof fn law_rewrite_prompt_lists_hotwords(hotwords: Seq<Seq<char>>)
    ensures
        names_hotwords(rewrite_prompt_spec(hotwords), REWRITE_HOTWORDS_HEADER@, hotwords),
        (forall|i: int| 0 <= i < hotwords.len() ==> hotwords[i].len() == 0) ==> rewrite_prompt_spec(
            hotwords,
        ) == rewrite_prompt_spec(Seq::empty()),
{
    let base = rewrite_prompt_spec(Seq::empty());
    assert(nonempty_words(Seq::<Seq<char>>::empty()) =~= Seq::<Seq<char>>::empty());
    lemma_base_header_list(base, REWRITE_HOTWORDS_HEADER@, hotwords);
}

// ---- History: recent entries and loading ----

/// `recent(n)` lists the newest entries, newest first: as many as asked for
/// and there are, the i-th being the i-th newest.
pub proof fn law_recent_lists_newest_first(items: Seq<EntryModel>, n: nat)
    ensures
        recent_spec(items, n).len() == (if n < items.len() {
            n
        } else {
            items.len()
        }),
        forall|i: int|
            0 <= i < recent_spec(items, n).len() ==> #[trigger] recent_spec(items, n)[i]
                == items[items.len() - 1 - i],
{
}

/// Right after an entry is recorded (with room for at least one entry), it
/// is the newest: the first of `recent(n)` for any `n > 0`.
pub proof fn law_recorded_entry_is_newest(l: LogModel, e: EntryModel, max_items: nat, n: nat)
    requires
        !is_blank(e.final_text),
        max_items > 0,
        n > 0,
    ensures
        recent_spec(log_after_append(l, true, e, max_items).items, n).len() > 0,
        recent_spec(log_after_append(l, true, e, max_items).items, n)[0] == e,
{
    let items = log_after_append(l, true, e, max_items).items;
    assert(items.len() > 0);
    assert(items[items.len() - 1] == e);
}

/// The newest `m` of `s` with `e` added after the newest `m` of `s` are the
/// newest `m` of `s` with `e` added.
proof fn lemma_keep_last_push<T>(s: Seq<T>, e: T, m: nat)
    ensures
        keep_last(keep_last(s, m).push(e), m) == keep_last(s.push(e), m),
{
    assert(keep_last(keep_last(s, m).push(e), m) =~= keep_last(s.push(e), m));
}

/// Loading without the final version bump keeps the newest `max_items` of
/// the old items followed by the loaded ones, and counts every loaded entry.
proof fn lemma_load_items(l: LogModel, entries: Seq<EntryModel>, max_items: nat)
    ensures
        entries.len() > 0 ==> log_after_load_items(l, entries, max_items).items == keep_last(
            l.items + entries,
            max_items,
        ),
        entries.len() == 0 ==> log_after_load_items(l, entries, max_items) == l,
        log_after_load_items(l, entries, max_items).version == l.version,
    decreases entries.len(),
{
    if entries.len() > 0 {
        let d = entries.drop_last();
        let e = entries.last();
        lemma_load_items(l, d, max_items);
        assert((l.items + d).push(e) =~= l.items + entries);
        if d.len() == 0 {
            assert(l.items.push(e) =~= l.items + entries);
        } else {
            lemma_keep_last_push(l.items + d, e, max_items);
        }
    }
}

/// Loading keeps the newest entries: when some entries are loaded, the log
/// holds the last `min(max_items, old + loaded)` of its old items followed
/// by the loaded entries, oldest first; every loaded entry is counted in the
/// totals; and the version grows by one.
pub proof fn law_load_keeps_newest(l: LogModel, entries: Seq<EntryModel>, max_items: nat)
    requires
        l.version < u64::MAX,
        l.total_count + entries.len() <= u64::MAX,
        l.total_chars + total_len(entries) <= u64::MAX,
    ensures
        ({
            let all = l.items + entries;
            let k = if max_items < all.len() {
                max_items as int
            } else {
                all.len() as int
            };
            let after = log_after_load(l, entries, max_items);
            &&& entries.len() > 0 ==> after.items == all.subrange(all.len() - k, all.len() as int)
            &&& entries.len() == 0 ==> after.items == l.items
            &&& after.version == l.version + 1
        }),
    decreases entries.len(),
{
    lemma_load_items(l, entries, max_items);
    if entries.len() > 0 {
        let d = entries.drop_last();
        let e = entries.last();
        lemma_load_items(l, d, max_items);
        assert((l.items + d).push(e) =~= l.items + entries);
        if d.len() == 0 {
            assert(l.items.push(e) =~= l.items + entries);
        } else {
            lemma_keep_last_push(l.items + d, e, max_items);
        }
        let all = l.items + entries;
        assert(keep_last(all, max_items) =~= all.subrange(
            all.len() - (if max_items < all.len() {
                max_items as int
            } else {
                all.len() as int
            }),
            all.len() as int,
        ));
    }
}

// ---- Tray menu ids ----

/// An id made of one of the prefixes `hotkey`, `rewrite`, `mode`, `style`,
/// `history` or `perm`, a ':' and any value `v` asks for that prefix's
/// command with `v` (everything after the first ':'): `hotkey:v` and
/// `rewrite:v` set the dictation or rewrite hotkey, `mode:v` the recording
/// mode, `style:v` the style, `history:v` copies an entry and `perm:v`
/// opens a privacy pane.
pub proof fn law_prefixed_ids_parse(v: Seq<char>)
    ensures
        command_spec("hotkey:"@ + v) == MenuCommandModel::SetHotkey(v, true),
        command_spec("rewrite:"@ + v) == MenuCommandModel::SetHotkey(v, false),
        command_spec("mode:"@ + v) == MenuCommandModel::SetMode(v),
        command_spec("style:"@ + v) == MenuCommandModel::SetStyle(v),
        command_spec("history:"@ + v) == MenuCommandModel::CopyHistory(v),
        command_spec("perm:"@ + v) == MenuCommandModel::OpenPrivacy(v),
{
    lemma_hotkey_id(v);
    lemma_rewrite_id(v);
    lemma_mode_id(v);
    lemma_style_id(v);
    lemma_history_id(v);
    lemma_perm_id(v);
}

/// The command of `p:v` for a prefix `p` without ':' is that of the prefix.
proof fn lemma_command_of_prefixed(p: Seq<char>, v: Seq<char>)
    requires
        p.len() > 0,
        forall|i: int| 0 <= i < p.len() ==> p[i] != ':',
    ensures
        command_spec(p + seq![':'] + v) == prefixed_command(p, v),
{
    let id = p + seq![':'] + v;
    lemma_prefixed_id(p, v);
    let c = p.len() as int;
    assert(crate::menu::first_colon(id) == Some(c));
    assert(command_spec(id) == prefixed_command(id.subrange(0, c), id.subrange(c + 1, id.len() as int)));
}

proof fn lemma_hotkey_id(v: Seq<char>)
    ensures
        command_spec("hotkey:"@ + v) == MenuCommandModel::SetHotkey(v, true),
{
    reveal_strlit("hotkey");
    reveal_strlit("hotkey:");
    lemma_command_of_prefixed("hotkey"@, v);
    assert("hotkey:"@ + v =~= "hotkey"@ + seq![':'] + v);
}

proof fn lemma_rewrite_id(v: Seq<char>)
    ensures
        command_spec("rewrite:"@ + v) == MenuCommandModel::SetHotkey(v, false),
{
    reveal_strlit("rewrite");
    reveal_strlit("rewrite:");
    reveal_strlit("hotkey");
    lemma_command_of_prefixed("rewrite"@, v);
    assert("rewrite:"@ + v =~= "rewrite"@ + seq![':'] + v);
}

proof fn lemma_mode_id(v: Seq<char>)
    ensures
        command_spec("mode:"@ + v) == MenuCommandModel::SetMode(v),
{
    reveal_strlit("mode");
    reveal_strlit("mode:");
    reveal_strlit("hotkey");
    reveal_strlit("rewrite");
    lemma_command_of_prefixed("mode"@, v);
    assert("mode:"@ + v =~= "mode"@ + seq![':'] + v);
}

proof fn lemma_style_id(v: Seq<char>)
    ensures
        command_spec("style:"@ + v) == MenuCommandModel::SetStyle(v),
{
    reveal_strlit("style");
    reveal_strlit("style:");
    reveal_strlit("hotkey");
    reveal_strlit("rewrite");
    reveal_strlit("mode");
    lemma_command_of_prefixed("style"@, v);
    assert("style:"@ + v =~= "style"@ + seq![':'] + v);
}

proof fn lemma_history_id(v: Seq<char>)
    ensures
        command_spec("history:"@ + v) == MenuCommandModel::CopyHistory(v),
{
    reveal_strlit("history");
    reveal_strlit("history:");
    reveal_strlit("hotkey");
    reveal_strlit("rewrite");
    reveal_strlit("mode");
    reveal_strlit("style");
    assert("history"@ != "rewrite"@) by {
        assert("history"@[0] != "rewrite"@[0]);
    }
    assert("history"@ != "hotkey"@) by {
        assert("history"@.len() != "hotkey"@.len());
    }
    lemma_command_of_prefixed("history"@, v);
    assert("history:"@ + v =~= "history"@ + seq![':'] + v);
}

proof fn lemma_perm_id(v: Seq<char>)
    ensures
        command_spec("perm:"@ + v) == MenuCommandModel::OpenPrivacy(v),
{
    reveal_strlit("perm");
    reveal_strlit("perm:");
    reveal_strlit("hotkey");
    reveal_strlit("rewrite");
    reveal_strlit("mode");
    reveal_strlit("style");
    reveal_strlit("history");
    assert("perm"@ != "mode"@) by {
        assert("perm"@[0] != "mode"@[0]);
    }
    lemma_command_of_prefixed("perm"@, v);
    assert("perm:"@ + v =~= "perm"@ + seq![':'] + v);
}

/// `p:v`, for a prefix `p` without ':', splits at the ':' after `p` and is
/// none of the fixed ids (none of which holds a ':').
proof fn lemma_prefixed_id(p: Seq<char>, v: Seq<char>)
    requires
        p.len() > 0,
        forall|i: int| 0 <= i < p.len() ==> p[i] != ':',
    ensures
        ({
            let id = p + seq![':'] + v;
            &&& crate::menu::first_colon(id) == Some(p.len() as int)
            &&& id.subrange(0, p.len() as int) == p
            &&& id.subrange(p.len() as int + 1, id.len() as int) == v
            &&& id != "quit"@ && id != "status"@ && id != "settings"@ && id != "edit_json"@
            &&& id != "reload"@ && id != "log"@ && id != "pause"@ && id != "preview"@
            &&& id != "polish"@ && id != "sounds"@
        }),
{
    let id = p + seq![':'] + v;
    let c = p.len() as int;
    reveal(crate::menu::first_colon);
    assert(id[c] == ':');
    assert(exists|i: int| 0 <= i < id.len() && id[i] == ':');
    let f = choose|i: int| 0 <= i < id.len() && id[i] == ':' && forall|j: int| 0 <= j < i ==> id[j] != ':';
    assert forall|j: int| 0 <= j < c implies id[j] != ':' by {
        assert(id[j] == p[j]);
    }
    assert(0 <= c < id.len() && id[c] == ':' && forall|j: int| 0 <= j < c ==> id[j] != ':');
    if f < c {
        assert(id[f] == p[f]);
    }
    assert(f == c);
    assert(id.subrange(0, c) =~= p);
    assert(id.subrange(c + 1, id.len() as int) =~= v);
    reveal_strlit("quit");
    reveal_strlit("status");
    reveal_strlit("settings");
    reveal_strlit("edit_json");
    reveal_strlit("reload");
    reveal_strlit("log");
    reveal_strlit("pause");
    reveal_strlit("preview");
    reveal_strlit("polish");
    reveal_strlit("sounds");
    let fixed = seq![
        "quit"@, "status"@, "settings"@, "edit_json"@, "reload"@, "log"@, "pause"@,
        "preview"@, "polish"@, "sounds"@,
    ];
    assert forall|k: int| 0 <= k < fixed.len() implies id != #[trigger] fixed[k] by {
        let t = fixed[k];
        assert(forall|i: int| 0 <= i < t.len() ==> t[i] != ':');
        if id == t {
            assert(t[c] == ':');
        }
    }
    assert(id != fixed[0] && id != fixed[1] && id != fixed[2] && id != fixed[3] && id != fixed[4]);
    assert(id != fixed[5] && id != fixed[6] && id != fixed[7] && id != fixed[8] && id != fixed[9]);
}

/// Every recording-mode item of the tray (`mode:<name>`, as the mode
/// entries are built) asks for that mode, and its value reads back as the
/// mode it names.
pub proof fn law_mode_items_select_their_mode(m: crate::keys::RecordMode)
    ensures
        command_spec("mode:"@ + crate::keys::mode_name(m)) == MenuCommandModel::SetMode(
            crate::keys::mode_name(m),
        ),
        crate::keys::mode_from_name(crate::keys::mode_name(m)) == Some(m),
{
    law_prefixed_ids_parse(crate::keys::mode_name(m));
    crate::keys::law_mode_name_roundtrip(m);
}

} // verus!
