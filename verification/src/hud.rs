//! Text rules of the recording HUD, the same for every UI that draws it:
//! the tail of the live transcript, the head of an instruction, the hint
//! line and the placeholder shown before any text is recognised.

use vstd::prelude::*;
use crate::keys::RecordMode;
use crate::text::{chars_of, push_text, string_of_range};
use crate::types::Channel;

verus! {

/// Tail length (characters) of the live transcript line.
pub const MAX_TAIL: usize = 24;
/// Tail length (characters) of the status detail line.
pub const MAX_DETAIL: usize = 40;

/// The last `limit` characters, behind "…" when the text was longer.
pub open spec fn tail_spec(s: Seq<char>, limit: nat) -> Seq<char> {
    if s.len() <= limit {
        s
    } else {
        "…"@ + s.subrange(s.len() - limit, s.len() as int)
    }
}

/// The first `limit` characters.
pub open spec fn head_spec(s: Seq<char>, limit: nat) -> Seq<char> {
    if s.len() <= limit {
        s
    } else {
        s.subrange(0, limit as int)
    }
}

/// Tail of a text, counted in characters (not bytes).
pub fn tail(text: &str, limit: usize) -> (r: String)
    ensures
        r@ == tail_spec(text@, limit as nat),
{
    let v = chars_of(text);
    let total = v.len();
    if total <= limit {
        return text.to_owned();
    }
    let mut out = "…".to_owned();
    let rest = string_of_range(&v, total - limit, total);
    push_text(&mut out, rest.as_str());
    out
}

/// Head of a text, counted in characters (instruction echo).
pub fn head(text: &str, limit: usize) -> (r: String)
    ensures
        r@ == head_spec(text@, limit as nat),
{
    let v = chars_of(text);
    if v.len() <= limit {
        return text.to_owned();
    }
    string_of_range(&v, 0, limit)
}

pub open spec fn hint_spec(mode: RecordMode, locked: bool) -> Seq<char> {
    if mode == RecordMode::Toggle || locked {
        "再按热键出字 · 按 Esc 取消"@
    } else {
        "松开出字 · 快速双击可锁定 · 按 Esc 取消"@
    }
}

/// Hint line: how to finish and how to cancel. Toggle mode and a locked
/// hold recording finish with another press; a plain hold finishes on
/// release.
pub fn hint_text(mode: RecordMode, locked: bool) -> (r: &'static str)
    ensures
        r@ == hint_spec(mode, locked),
{
    if mode == RecordMode::Toggle || locked {
        "再按热键出字 · 按 Esc 取消"
    } else {
        "松开出字 · 快速双击可锁定 · 按 Esc 取消"
    }
}

pub open spec fn placeholder_spec(channel: Channel) -> Seq<char> {
    match channel {
        Channel::Rewrite => "说出改写指令…"@,
        Channel::Dictate => "聆听中…"@,
    }
}

/// Main line shown when a recording starts, before any text.
pub fn placeholder(channel: Channel) -> (r: &'static str)
    ensures
        r@ == placeholder_spec(channel),
{
    match channel {
        Channel::Rewrite => "说出改写指令…",
        Channel::Dictate => "聆听中…",
    }
}

} // verus!
