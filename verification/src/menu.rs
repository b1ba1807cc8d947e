//! Tray menu decisions: what a menu item id asks for, when a hotkey change
//! or the polishing switch is refused, and the texts the tray shows.

use vstd::prelude::*;
use crate::keys::{HotkeyId, RecordMode, TargetOs, hotkey_choices, hotkey_label, hotkey_name, mode_name};
use crate::polisher::{builtin_names, extra_style_names, style_names, texts};
use crate::settings::Settings;
use crate::text::{push_text, trim, trim_str};
use crate::polisher::{truncate, truncated};
use crate::text::{chars_of, str_eq, string_of_range};
use crate::types::Status;

verus! {

/// What a tray menu item asks for.
pub enum MenuCommand {
    Quit,
    /// Status line clicked: open the missing privacy pane.
    OpenMissingPrivacy,
    OpenSettings,
    EditSettingsJson,
    Reload,
    OpenLog,
    TogglePause,
    TogglePreview,
    TogglePolish,
    ToggleSounds,
    /// `hotkey:<id>` (dictation) or `rewrite:<id>`.
    SetHotkey(String, bool),
    /// `mode:<mode>`
    SetMode(String),
    /// `style:<name>`
    SetStyle(String),
    /// `history:<index>`
    CopyHistory(String),
    /// `perm:<section>`
    OpenPrivacy(String),
    /// Anything else (only logged).
    Unknown,
}

/// Index of the first ':' of `s`, if any.
#[verifier::opaque]
pub open spec fn first_colon(s: Seq<char>) -> Option<int> {
    if exists|i: int| 0 <= i < s.len() && s[i] == ':' {
        Some(choose|i: int| 0 <= i < s.len() && s[i] == ':' && forall|j: int| 0 <= j < i ==> s[j] != ':')
    } else {
        None
    }
}

/// The command of a menu item id: a fixed id, or `prefix:value` split at
/// the first ':'.
pub open spec fn command_spec(id: Seq<char>) -> MenuCommandModel {
    if id == "quit"@ {
        MenuCommandModel::Quit
    } else if id == "status"@ {
        MenuCommandModel::OpenMissingPrivacy
    } else if id == "settings"@ {
        MenuCommandModel::OpenSettings
    } else if id == "edit_json"@ {
        MenuCommandModel::EditSettingsJson
    } else if id == "reload"@ {
        MenuCommandModel::Reload
    } else if id == "log"@ {
        MenuCommandModel::OpenLog
    } else if id == "pause"@ {
        MenuCommandModel::TogglePause
    } else if id == "preview"@ {
        MenuCommandModel::TogglePreview
    } else if id == "polish"@ {
        MenuCommandModel::TogglePolish
    } else if id == "sounds"@ {
        MenuCommandModel::ToggleSounds
    } else {
        match first_colon(id) {
            None => MenuCommandModel::Unknown,
            Some(c) => prefixed_command(id.subrange(0, c), id.subrange(c + 1, id.len() as int)),
        }
    }
}

/// The command of a `prefix:value` id.
pub open spec fn prefixed_command(prefix: Seq<char>, value: Seq<char>) -> MenuCommandModel {
    if prefix == "hotkey"@ {
        MenuCommandModel::SetHotkey(value, true)
    } else if prefix == "rewrite"@ {
        MenuCommandModel::SetHotkey(value, false)
    } else if prefix == "mode"@ {
        MenuCommandModel::SetMode(value)
    } else if prefix == "style"@ {
        MenuCommandModel::SetStyle(value)
    } else if prefix == "history"@ {
        MenuCommandModel::CopyHistory(value)
    } else if prefix == "perm"@ {
        MenuCommandModel::OpenPrivacy(value)
    } else {
        MenuCommandModel::Unknown
    }
}

/// [`MenuCommand`] with texts as character sequences.
pub enum MenuCommandModel {
    Quit,
    OpenMissingPrivacy,
    OpenSettings,
    EditSettingsJson,
    Reload,
    OpenLog,
    TogglePause,
    TogglePreview,
    TogglePolish,
    ToggleSounds,
    SetHotkey(Seq<char>, bool),
    SetMode(Seq<char>),
    SetStyle(Seq<char>),
    CopyHistory(Seq<char>),
    OpenPrivacy(Seq<char>),
    Unknown,
}

impl View for MenuCommand {
    type V = MenuCommandModel;

    open spec fn view(&self) -> MenuCommandModel {
        match self {
            MenuCommand::Quit => MenuCommandModel::Quit,
            MenuCommand::OpenMissingPrivacy => MenuCommandModel::OpenMissingPrivacy,
            MenuCommand::OpenSettings => MenuCommandModel::OpenSettings,
            MenuCommand::EditSettingsJson => MenuCommandModel::EditSettingsJson,
            MenuCommand::Reload => MenuCommandModel::Reload,
            MenuCommand::OpenLog => MenuCommandModel::OpenLog,
            MenuCommand::TogglePause => MenuCommandModel::TogglePause,
            MenuCommand::TogglePreview => MenuCommandModel::TogglePreview,
            MenuCommand::TogglePolish => MenuCommandModel::TogglePolish,
            MenuCommand::ToggleSounds => MenuCommandModel::ToggleSounds,
            MenuCommand::SetHotkey(v, d) => MenuCommandModel::SetHotkey(v@, *d),
            MenuCommand::SetMode(v) => MenuCommandModel::SetMode(v@),
            MenuCommand::SetStyle(v) => MenuCommandModel::SetStyle(v@),
            MenuCommand::CopyHistory(v) => MenuCommandModel::CopyHistory(v@),
            MenuCommand::OpenPrivacy(v) => MenuCommandModel::OpenPrivacy(v@),
            MenuCommand::Unknown => MenuCommandModel::Unknown,
        }
    }
}

/// Reads a tray menu item id.
pub fn parse_menu_id(id: &str) -> (r: MenuCommand)
    ensures
        r@ == command_spec(id@),
{
    if str_eq(id, "quit") {
        return MenuCommand::Quit;
    } else if str_eq(id, "status") {
        return MenuCommand::OpenMissingPrivacy;
    } else if str_eq(id, "settings") {
        return MenuCommand::OpenSettings;
    } else if str_eq(id, "edit_json") {
        return MenuCommand::EditSettingsJson;
    } else if str_eq(id, "reload") {
        return MenuCommand::Reload;
    } else if str_eq(id, "log") {
        return MenuCommand::OpenLog;
    } else if str_eq(id, "pause") {
        return MenuCommand::TogglePause;
    } else if str_eq(id, "preview") {
        return MenuCommand::TogglePreview;
    } else if str_eq(id, "polish") {
        return MenuCommand::TogglePolish;
    } else if str_eq(id, "sounds") {
        return MenuCommand::ToggleSounds;
    }
    let v = chars_of(id);
    let mut i: usize = 0;
    while i < v.len() && v[i] != ':'
        invariant
            v@ == id@,
            i <= v@.len(),
            forall|j: int| 0 <= j < i ==> id@[j] != ':',
        decreases v@.len() - i,
    {
        i = i + 1;
    }
    if i == v.len() {
        assert(!(exists|k: int| 0 <= k < id@.len() && id@[k] == ':'));
        proof {
            reveal(first_colon);
        }
        return MenuCommand::Unknown;
    }
    proof {
        reveal(first_colon);
        let c = choose|k: int|
            0 <= k < id@.len() && id@[k] == ':' && forall|j: int| 0 <= j < k ==> id@[j] != ':';
        assert(0 <= i < id@.len() && id@[i as int] == ':' && forall|j: int|
            0 <= j < i ==> id@[j] != ':');
        if c < i {
            assert(id@[c] != ':');
        } else if c > i {
            assert(id@[i as int] != ':');
        }
        assert(first_colon(id@) == Some(i as int));
    }
    let prefix = string_of_range(&v, 0, i);
    let value = string_of_range(&v, i + 1, v.len());
    let p = prefix.as_str();
    if str_eq(p, "hotkey") {
        MenuCommand::SetHotkey(value, true)
    } else if str_eq(p, "rewrite") {
        MenuCommand::SetHotkey(value, false)
    } else if str_eq(p, "mode") {
        MenuCommand::SetMode(value)
    } else if str_eq(p, "style") {
        MenuCommand::SetStyle(value)
    } else if str_eq(p, "history") {
        MenuCommand::CopyHistory(value)
    } else if str_eq(p, "perm") {
        MenuCommand::OpenPrivacy(value)
    } else {
        MenuCommand::Unknown
    }
}

/// A user notification: title and message.
pub struct Notice {
    pub title: &'static str,
    pub message: &'static str,
}

pub open spec fn hotkey_conflict_spec(
    hotkey: HotkeyId,
    rewrite_hotkey: HotkeyId,
    id: HotkeyId,
    dictate: bool,
) -> Option<(Seq<char>, Seq<char>)> {
    if dictate && id == rewrite_hotkey {
        Some(("听写热键不能和改写热键相同"@, "请先把改写热键换成别的键。"@))
    } else if !dictate && id == hotkey {
        Some(("改写热键不能和听写热键相同"@, "请先把听写热键换成别的键。"@))
    } else {
        None
    }
}

/// Why a hotkey change from the menu is refused: the two channels may not
/// share a key. `None` lets the change through.
pub fn hotkey_change_refusal(
    hotkey: HotkeyId,
    rewrite_hotkey: HotkeyId,
    id: HotkeyId,
    dictate: bool,
) -> (r: Option<Notice>)
    ensures
        match (r, hotkey_conflict_spec(hotkey, rewrite_hotkey, id, dictate)) {
            (Some(n), Some(t)) => n.title@ == t.0 && n.message@ == t.1,
            (None, None) => true,
            _ => false,
        },
{
    if dictate && id == rewrite_hotkey {
        Some(Notice { title: "听写热键不能和改写热键相同", message: "请先把改写热键换成别的键。" })
    } else if !dictate && id == hotkey {
        Some(Notice { title: "改写热键不能和听写热键相同", message: "请先把听写热键换成别的键。" })
    } else {
        None
    }
}

/// Turning polishing on needs a usable provider configuration; turning it
/// off is always allowed. `None` refuses (the user is sent to the
/// settings), `Some(b)` is the new switch.
pub fn polish_toggle(enabled: bool, configured: bool) -> (r: Option<bool>)
    ensures
        r == (if !enabled && !configured {
            None
        } else {
            Some(!enabled)
        }),
{
    if !enabled && !configured {
        None
    } else {
        Some(!enabled)
    }
}

/// The refusal shown when polishing cannot be turned on.
pub fn polish_refusal() -> (r: Notice)
    ensures
        r.title@ == "无法开启 AI 润色"@,
        r.message@ == "请先点「设置 → 打开配置文件」，填写 polish 的 base_url / api_key / model。"@,
{
    Notice {
        title: "无法开启 AI 润色",
        message: "请先点「设置 → 打开配置文件」，填写 polish 的 base_url / api_key / model。",
    }
}

pub open spec fn status_label_spec(status: Status) -> Seq<char> {
    match status {
        Status::Idle => "状态：待机"@,
        Status::Recording => "状态：录音中"@,
        Status::Transcribing => "状态：转写中"@,
        Status::Polishing => "状态：润色中"@,
        Status::Paused => "状态：已暂停"@,
    }
}

/// Status line of the tray menu.
pub fn status_label(status: Status) -> (r: &'static str)
    ensures
        r@ == status_label_spec(status),
{
    match status {
        Status::Idle => "状态：待机",
        Status::Recording => "状态：录音中",
        Status::Transcribing => "状态：转写中",
        Status::Polishing => "状态：润色中",
        Status::Paused => "状态：已暂停",
    }
}

/// Pausing toggles; the item then offers the opposite and the status
/// follows.
pub fn pause_toggle(paused: bool) -> (r: (bool, &'static str, Status))
    ensures
        r.0 == !paused,
        r.1@ == (if !paused {
            "恢复热键"@
        } else {
            "暂停热键"@
        }),
        r.2 == (if !paused {
            Status::Paused
        } else {
            Status::Idle
        }),
{
    let now = !paused;
    if now {
        (now, "恢复热键", Status::Paused)
    } else {
        (now, "暂停热键", Status::Idle)
    }
}

/// Typing speed the "time saved" figure assumes (characters per minute).
pub const SAVED_CHARS_PER_MINUTE: u64 = 90;
/// Entries in the "recent" submenu.
pub const HISTORY_ITEMS: usize = 10;
/// Characters of an entry shown in the submenu.
pub const HISTORY_LABEL_CHARS: usize = 24;

/// Minutes of typing saved by `total_chars` dictated characters.
pub fn saved_minutes(total_chars: u64) -> (r: u64)
    ensures
        r == total_chars / SAVED_CHARS_PER_MINUTE,
{
    total_chars / SAVED_CHARS_PER_MINUTE
}

/// Label of a history entry in the submenu.
pub fn history_label(text: &str) -> (r: String)
    ensures
        r@ == truncated(text@, HISTORY_LABEL_CHARS as nat),
{
    truncate(text, HISTORY_LABEL_CHARS)
}

/// Value of a decimal numeral (ASCII digits).
pub open spec fn decimal_value(s: Seq<char>) -> nat
    decreases s.len(),
{
    if s.len() == 0 {
        0
    } else {
        decimal_value(s.drop_last()) * 10 + ((s.last() as u32) - ('0' as u32)) as nat
    }
}

pub open spec fn all_digits(s: Seq<char>) -> bool {
    forall|i: int| 0 <= i < s.len() ==> '0' <= #[trigger] s[i] && s[i] <= '9'
}

/// `str::parse::<usize>`: an optional '+' then one or more ASCII digits,
/// whose value fits in `usize`.
pub open spec fn parse_index_spec(s: Seq<char>) -> Option<nat> {
    let digits = if s.len() > 0 && s[0] == '+' {
        s.drop_first()
    } else {
        s
    };
    if digits.len() > 0 && all_digits(digits) && decimal_value(digits) <= usize::MAX {
        Some(decimal_value(digits))
    } else {
        None
    }
}

proof fn lemma_decimal_monotone(s: Seq<char>, i: int)
    requires
        all_digits(s),
        0 <= i <= s.len(),
    ensures
        decimal_value(s.subrange(0, i)) <= decimal_value(s),
    decreases s.len() - i,
{
    if i < s.len() {
        lemma_decimal_monotone(s, i + 1);
        assert(s.subrange(0, i + 1).drop_last() =~= s.subrange(0, i));
        assert(decimal_value(s.subrange(0, i)) * 10 <= decimal_value(s.subrange(0, i + 1))) by (
        nonlinear_arith)
            requires
                decimal_value(s.subrange(0, i + 1)) == decimal_value(s.subrange(0, i)) * 10 + ((s[i]
                    as u32) - ('0' as u32)) as nat,
        ;
    } else {
        assert(s.subrange(0, i) =~= s);
    }
}

proof fn lemma_decimal_push(s: Seq<char>, c: char)
    ensures
        decimal_value(s.push(c)) == decimal_value(s) * 10 + ((c as u32) - ('0' as u32)) as nat,
{
    assert(s.push(c).drop_last() =~= s);
}

proof fn lemma_overflow(acc: nat, d: nat, v: nat)
    requires
        acc > (usize::MAX - d) / 10,
        d <= 9,
        v == acc * 10 + d,
    ensures
        v > usize::MAX,
{
    assert(v > usize::MAX) by (nonlinear_arith)
        requires
            acc > (usize::MAX - d) / 10,
            d <= 9,
            v == acc * 10 + d,
    ;
}

proof fn lemma_no_overflow(acc: nat, d: nat)
    requires
        acc <= (usize::MAX - d) / 10,
        d <= 9,
    ensures
        acc * 10 + d <= usize::MAX,
{
    assert(acc * 10 + d <= usize::MAX) by (nonlinear_arith)
        requires
            acc <= (usize::MAX - d) / 10,
            d <= 9,
    ;
}

/// Reads the index of a `history:<index>` item ("none" is the placeholder
/// of an empty history and reads as nothing).
pub fn parse_history_index(value: &str) -> (r: Option<usize>)
    ensures
        match r {
            Some(n) => parse_index_spec(value@) == Some(n as nat),
            None => parse_index_spec(value@) is None,
        },
{
    let v = chars_of(value);
    let n = v.len();
    let start: usize = if n > 0 && v[0] == '+' {
        1
    } else {
        0
    };
    let ghost digits = if value@.len() > 0 && value@[0] == '+' {
        value@.drop_first()
    } else {
        value@
    };
    assert(digits =~= value@.subrange(start as int, value@.len() as int));
    if start == n {
        assert(digits.len() == 0);
        return None;
    }
    let mut acc: usize = 0;
    let mut i: usize = start;
    let ghost mut pre: Seq<char> = Seq::empty();
    while i < n
        invariant
            v@ == value@,
            n == v@.len(),
            start <= i <= n,
            digits == value@.subrange(start as int, value@.len() as int),
            digits == (if value@.len() > 0 && value@[0] == '+' {
                value@.drop_first()
            } else {
                value@
            }),
            pre == digits.subrange(0, i - start),
            all_digits(pre),
            acc == decimal_value(pre),
        decreases n - i,
    {
        let c = v[i];
        assert(digits[i - start] == c);
        if c < '0' || c > '9' {
            assert(!all_digits(digits));
            return None;
        }
        let d = (c as u32) - ('0' as u32);
        proof {
            lemma_decimal_push(pre, c);
            assert(digits.subrange(0, i + 1 - start) =~= pre.push(c));
        }
        if acc > (usize::MAX - d as usize) / 10 {
            proof {
                lemma_overflow(acc as nat, d as nat, decimal_value(pre.push(c)));
                if all_digits(digits) {
                    lemma_decimal_monotone(digits, i + 1 - start);
                }
            }
            return None;
        }
        proof {
            lemma_no_overflow(acc as nat, d as nat);
        }
        acc = acc * 10 + d as usize;
        proof {
            pre = pre.push(c);
        }
        i = i + 1;
    }
    assert(pre =~= digits);
    Some(acc)
}

/// The decimal digit of `d` (0 to 9).
pub open spec fn digit_char(d: nat) -> char {
    if d == 0 {
        '0'
    } else if d == 1 {
        '1'
    } else if d == 2 {
        '2'
    } else if d == 3 {
        '3'
    } else if d == 4 {
        '4'
    } else if d == 5 {
        '5'
    } else if d == 6 {
        '6'
    } else if d == 7 {
        '7'
    } else if d == 8 {
        '8'
    } else {
        '9'
    }
}

/// Decimal numeral of `n`, without leading zeros.
pub open spec fn decimal_text_spec(n: nat) -> Seq<char>
    decreases n,
{
    if n < 10 {
        seq![digit_char(n)]
    } else {
        decimal_text_spec(n / 10).push(digit_char(n % 10))
    }
}

fn digit(d: u64) -> (c: char)
    requires
        d < 10,
    ensures
        c == digit_char(d as nat),
{
    if d == 0 {
        '0'
    } else if d == 1 {
        '1'
    } else if d == 2 {
        '2'
    } else if d == 3 {
        '3'
    } else if d == 4 {
        '4'
    } else if d == 5 {
        '5'
    } else if d == 6 {
        '6'
    } else if d == 7 {
        '7'
    } else if d == 8 {
        '8'
    } else {
        '9'
    }
}

/// Decimal text of a counter (what `{}` prints for a `u64`).
pub fn decimal_text(n: u64) -> (r: String)
    ensures
        r@ == decimal_text_spec(n as nat),
{
    let first = digit(n % 10);
    let mut rev: Vec<char> = vec![first];
    let mut m: u64 = n / 10;
    let ghost mut suffix: Seq<char> = seq![first];
    assert(rev@ =~= seq![first]);
    while m > 0
        invariant
            m <= n,
            rev@.len() == suffix.len(),
            suffix.len() > 0,
            forall|j: int| 0 <= j < rev@.len() ==> rev@[j] == suffix[suffix.len() - 1 - j],
            m > 0 ==> decimal_text_spec(n as nat) == decimal_text_spec(m as nat) + suffix,
            m == 0 ==> decimal_text_spec(n as nat) == suffix,
        decreases m,
    {
        let c = digit(m % 10);
        proof {
            if m >= 10 {
                assert(decimal_text_spec(m as nat) == decimal_text_spec((m / 10) as nat).push(c));
                assert(decimal_text_spec((m / 10) as nat).push(c) + suffix =~= decimal_text_spec(
                    (m / 10) as nat,
                ) + (seq![c] + suffix));
            } else {
                assert(decimal_text_spec(m as nat) =~= seq![c]);
            }
        }
        let ghost old_suffix = suffix;
        rev.push(c);
        proof {
            suffix = seq![c] + old_suffix;
            assert forall|j: int| 0 <= j < rev@.len() implies rev@[j] == suffix[suffix.len() - 1
                - j] by {
                if j < rev@.len() - 1 {
                    assert(rev@[j] == old_suffix[old_suffix.len() - 1 - j]);
                }
            }
        }
        m = m / 10;
    }
    let ghost full = suffix;
    let mut out = String::new();
    let mut i: usize = rev.len();
    while i > 0
        invariant
            i <= rev@.len(),
            rev@.len() == full.len(),
            forall|j: int| 0 <= j < rev@.len() ==> rev@[j] == full[full.len() - 1 - j],
            out@ == full.subrange(0, full.len() - i),
        decreases i,
    {
        i = i - 1;
        let one = crate::text::string_of_range(&rev, i, i + 1);
        push_text(&mut out, one.as_str());
        assert(out@ =~= full.subrange(0, full.len() - i));
    }
    assert(full.subrange(0, full.len() as int) =~= full);
    out
}

/// The statistics line of the tray menu.
pub open spec fn stats_text_spec(count: u64, chars: u64) -> Seq<char> {
    "统计："@ + decimal_text_spec(count as nat) + " 段 · "@ + decimal_text_spec(chars as nat)
        + " 字 · 约省 "@ + decimal_text_spec((chars / SAVED_CHARS_PER_MINUTE) as nat) + " 分钟"@
}

/// "统计：N 段 · N 字 · 约省 N 分钟" from the history totals.
pub fn stats_text(count: u64, chars: u64) -> (r: String)
    ensures
        r@ == stats_text_spec(count, chars),
{
    let mut out = "统计：".to_owned();
    push_text(&mut out, decimal_text(count).as_str());
    push_text(&mut out, " 段 · ");
    push_text(&mut out, decimal_text(chars).as_str());
    push_text(&mut out, " 字 · 约省 ");
    push_text(&mut out, decimal_text(saved_minutes(chars)).as_str());
    push_text(&mut out, " 分钟");
    out
}

/// Title next to the tray icon while recording: the elapsed seconds.
pub fn recording_title(elapsed_secs: u64) -> (r: String)
    ensures
        r@ == decimal_text_spec(elapsed_secs as nat) + "s"@,
{
    let mut out = decimal_text(elapsed_secs);
    push_text(&mut out, "s");
    out
}

/// Label of the polishing switch: provider and model ("?" for a blank model).
pub open spec fn polish_item_spec(provider: Seq<char>, model: Seq<char>) -> Seq<char> {
    "AI 润色（"@ + provider + " / "@ + (if trim(model).len() == 0 {
        "?"@
    } else {
        model
    }) + "）"@
}

pub fn polish_item_text(provider: &str, model: &str) -> (r: String)
    ensures
        r@ == polish_item_spec(provider@, model@),
{
    let mut out = "AI 润色（".to_owned();
    push_text(&mut out, provider);
    push_text(&mut out, " / ");
    let trimmed = trim_str(model);
    if trimmed.as_str().is_empty() {
        push_text(&mut out, "?");
    } else {
        push_text(&mut out, model);
    }
    push_text(&mut out, "）");
    out
}

/// Id of a menu item: `prefix:value`.
pub fn menu_item_id(prefix: &str, value: &str) -> (r: String)
    ensures
        r@ == prefix@ + ":"@ + value@,
{
    let mut out = prefix.to_owned();
    push_text(&mut out, ":");
    push_text(&mut out, value);
    out
}

/// A radio item: its id and label.
pub struct MenuEntry {
    pub id: String,
    pub label: String,
}

/// The hotkey radio items under `prefix` ("hotkey" or "rewrite").
pub fn hotkey_entries(prefix: &str, os: TargetOs) -> (r: Vec<MenuEntry>)
    ensures
        r@.len() == hotkey_choices(os).len(),
        forall|i: int|
            0 <= i < r@.len() ==> (#[trigger] r@[i]).id@ == prefix@ + ":"@ + hotkey_name(
                hotkey_choices(os)[i],
            ) && r@[i].label@ == hotkey_label(hotkey_choices(os)[i], os),
{
    let keys = HotkeyId::choices(os);
    let mut out: Vec<MenuEntry> = Vec::new();
    let mut i: usize = 0;
    while i < keys.len()
        invariant
            keys@ == hotkey_choices(os),
            i <= keys@.len(),
            out@.len() == i,
            forall|j: int|
                0 <= j < i ==> (#[trigger] out@[j]).id@ == prefix@ + ":"@ + hotkey_name(
                    hotkey_choices(os)[j],
                ) && out@[j].label@ == hotkey_label(hotkey_choices(os)[j], os),
        decreases keys@.len() - i,
    {
        let k = keys[i];
        out.push(MenuEntry { id: menu_item_id(prefix, k.as_str()), label: k.display(os).to_owned() });
        i = i + 1;
    }
    out
}

/// The recording mode radio items.
pub fn mode_entries() -> (r: Vec<MenuEntry>)
    ensures
        r@.len() == 2,
        r@[0].id@ == "mode:"@ + mode_name(RecordMode::Toggle),
        r@[1].id@ == "mode:"@ + mode_name(RecordMode::Hold),
        r@[0].label@ == "单击开始 / 再击结束"@,
        r@[1].label@ == "按住说话（双击锁定）"@,
{
    let mut out: Vec<MenuEntry> = Vec::new();
    out.push(
        MenuEntry {
            id: menu_item_id("mode", RecordMode::Toggle.as_str()),
            label: RecordMode::Toggle.display().to_owned(),
        },
    );
    out.push(
        MenuEntry {
            id: menu_item_id("mode", RecordMode::Hold.as_str()),
            label: RecordMode::Hold.display().to_owned(),
        },
    );
    proof {
        reveal_strlit("mode");
        reveal_strlit("mode:");
        reveal_strlit(":");
        assert("mode"@ + ":"@ =~= "mode:"@);
    }
    out
}

/// The radio items that are checked for these settings.
pub fn checked_ids(settings: &Settings) -> (r: Vec<String>)
    ensures
        texts(r@) == seq![
            "hotkey:"@ + hotkey_name(settings.hotkey),
            "rewrite:"@ + hotkey_name(settings.rewrite_hotkey),
            "mode:"@ + mode_name(settings.record_mode),
        ],
{
    let mut out: Vec<String> = Vec::new();
    out.push(menu_item_id("hotkey", settings.hotkey.as_str()));
    out.push(menu_item_id("rewrite", settings.rewrite_hotkey.as_str()));
    out.push(menu_item_id("mode", settings.record_mode.as_str()));
    proof {
        reveal_strlit("hotkey");
        reveal_strlit("hotkey:");
        reveal_strlit("rewrite");
        reveal_strlit("rewrite:");
        reveal_strlit("mode");
        reveal_strlit("mode:");
        reveal_strlit(":");
        assert("hotkey"@ + ":"@ =~= "hotkey:"@);
        assert("rewrite"@ + ":"@ =~= "rewrite:"@);
        assert("mode"@ + ":"@ =~= "mode:"@);
        assert(texts(out@) =~= seq![
            "hotkey:"@ + hotkey_name(settings.hotkey),
            "rewrite:"@ + hotkey_name(settings.rewrite_hotkey),
            "mode:"@ + mode_name(settings.record_mode),
        ]);
    }
    out
}

/// A style radio item: id, style name, and whether it is the current style.
pub struct StyleEntry {
    pub id: String,
    pub name: String,
    pub checked: bool,
}

/// The style items, in menu order, the current style checked.
pub fn style_entries(settings: &Settings) -> (r: Vec<StyleEntry>)
    ensures
        r@.len() == (builtin_names() + extra_style_names(settings.polish.styles@)).len(),
        forall|i: int|
            0 <= i < r@.len() ==> {
                let name = (builtin_names() + extra_style_names(settings.polish.styles@))[i];
                &&& (#[trigger] r@[i]).name@ == name
                &&& r@[i].id@ == "style:"@ + name
                &&& r@[i].checked == (name == settings.polish.style@)
            },
{
    let names = style_names(settings);
    let ghost all = builtin_names() + extra_style_names(settings.polish.styles@);
    let mut out: Vec<StyleEntry> = Vec::new();
    let mut i: usize = 0;
    proof {
        reveal_strlit("style");
        reveal_strlit("style:");
        reveal_strlit(":");
        assert("style"@ + ":"@ =~= "style:"@);
    }
    while i < names.len()
        invariant
            texts(names@) == all,
            all == builtin_names() + extra_style_names(settings.polish.styles@),
            "style"@ + ":"@ == "style:"@,
            i <= names@.len(),
            out@.len() == i,
            forall|j: int|
                0 <= j < i ==> {
                    &&& (#[trigger] out@[j]).name@ == all[j]
                    &&& out@[j].id@ == "style:"@ + all[j]
                    &&& out@[j].checked == (all[j] == settings.polish.style@)
                },
        decreases names@.len() - i,
    {
        let name = &names[i];
        assert(name@ == all[i as int]);
        let checked = crate::text::str_eq(name.as_str(), settings.polish.style.as_str());
        let id = menu_item_id("style", name.as_str());
        assert(id@ == "style:"@ + all[i as int]);
        out.push(StyleEntry { id, name: name.clone(), checked });
        i = i + 1;
    }
    out
}

/// The text before the first ':' of an item id (the whole id without one).
pub open spec fn id_prefix(id: Seq<char>) -> Seq<char> {
    match first_colon(id) {
        Some(c) => id.subrange(0, c),
        None => id,
    }
}

/// Radio selection: every item sharing the chosen item's prefix is checked
/// exactly when it is the chosen one; other items are left alone (`None`).
pub fn select_exclusive(ids: &Vec<String>, chosen: &str) -> (r: Vec<Option<bool>>)
    ensures
        r@.len() == ids@.len(),
        forall|i: int|
            0 <= i < r@.len() ==> #[trigger] r@[i] == (if crate::polisher::has_prefix(
                ids@[i]@,
                id_prefix(chosen@) + ":"@,
            ) {
                Some(ids@[i]@ == chosen@)
            } else {
                None
            }),
{
    let v = crate::text::chars_of(chosen);
    let mut k: usize = 0;
    while k < v.len() && v[k] != ':'
        invariant
            v@ == chosen@,
            k <= v@.len(),
            forall|j: int| 0 <= j < k ==> chosen@[j] != ':',
        decreases v@.len() - k,
    {
        k = k + 1;
    }
    proof {
        reveal(first_colon);
        if k == v.len() {
            assert(!(exists|c: int| 0 <= c < chosen@.len() && chosen@[c] == ':'));
            assert(chosen@.subrange(0, k as int) =~= chosen@);
        } else {
            let c = choose|c: int|
                0 <= c < chosen@.len() && chosen@[c] == ':' && forall|j: int|
                    0 <= j < c ==> chosen@[j] != ':';
            assert(0 <= k < chosen@.len() && chosen@[k as int] == ':' && forall|j: int|
                0 <= j < k ==> chosen@[j] != ':');
            if c < k {
                assert(chosen@[c] != ':');
            } else if c > k {
                assert(chosen@[k as int] != ':');
            }
        }
        assert(id_prefix(chosen@) == chosen@.subrange(0, k as int));
    }
    let mut prefix = crate::text::string_of_range(&v, 0, k);
    push_text(&mut prefix, ":");
    let mut out: Vec<Option<bool>> = Vec::new();
    let mut i: usize = 0;
    while i < ids.len()
        invariant
            prefix@ == id_prefix(chosen@) + ":"@,
            i <= ids@.len(),
            out@.len() == i,
            forall|j: int|
                0 <= j < i ==> #[trigger] out@[j] == (if crate::polisher::has_prefix(
                    ids@[j]@,
                    id_prefix(chosen@) + ":"@,
                ) {
                    Some(ids@[j]@ == chosen@)
                } else {
                    None
                }),
        decreases ids@.len() - i,
    {
        let id = &ids[i];
        if crate::polisher::starts_with_text(id.as_str(), prefix.as_str()) {
            out.push(Some(crate::text::str_eq(id.as_str(), chosen)));
        } else {
            out.push(None);
        }
        i = i + 1;
    }
    out
}

} // verus!
