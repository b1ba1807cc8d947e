//! Hotkey identifiers and recording modes: the typed form of the `hotkey`,
//! `rewrite_hotkey` and `record_mode` values of settings.json, plus the
//! mapping from raw keyboard keys to what the hotkey state machine sees.
//!
//! macOS offers `alt_l` (left Option, default dictation key), `alt_r` (right
//! Option, default rewrite key), `cmd_r` and `f19`; every other target offers
//! `ctrl_r` (default dictation key), `f8` (default rewrite key), `f9` and
//! `alt_r`.

use vstd::prelude::*;
use crate::text::str_eq;

verus! {

/// The operating system the input method runs on. `Windows` stands for
/// every target that is not macOS.
#[derive(Debug, Clone, Copy, PartialEq, Eq, Structural)]
pub enum TargetOs {
    MacOs,
    Windows,
}

#[derive(Debug, Clone, Copy, PartialEq, Eq, Hash, Structural)]
pub enum HotkeyId {
    AltL,
    AltR,
    CmdR,
    F19,
    CtrlR,
    F8,
    F9,
}

/// The settings.json spelling of each hotkey.
pub open spec fn hotkey_name(id: HotkeyId) -> Seq<char> {
    match id {
        HotkeyId::AltL => "alt_l"@,
        HotkeyId::AltR => "alt_r"@,
        HotkeyId::CmdR => "cmd_r"@,
        HotkeyId::F19 => "f19"@,
        HotkeyId::CtrlR => "ctrl_r"@,
        HotkeyId::F8 => "f8"@,
        HotkeyId::F9 => "f9"@,
    }
}

/// The hotkey spelled `s` in settings.json, if any.
pub open spec fn hotkey_from_name(s: Seq<char>) -> Option<HotkeyId> {
    if s == "alt_l"@ {
        Some(HotkeyId::AltL)
    } else if s == "alt_r"@ {
        Some(HotkeyId::AltR)
    } else if s == "cmd_r"@ {
        Some(HotkeyId::CmdR)
    } else if s == "f19"@ {
        Some(HotkeyId::F19)
    } else if s == "ctrl_r"@ {
        Some(HotkeyId::CtrlR)
    } else if s == "f8"@ {
        Some(HotkeyId::F8)
    } else if s == "f9"@ {
        Some(HotkeyId::F9)
    } else {
        None
    }
}

/// Menu / settings page label of a hotkey.
pub open spec fn hotkey_label(id: HotkeyId, os: TargetOs) -> Seq<char> {
    match id {
        HotkeyId::AltL => "左 Option"@,
        HotkeyId::AltR => if os == TargetOs::MacOs {
            "右 Option"@
        } else {
            "右 Alt（AltGr 键盘慎用）"@
        },
        HotkeyId::CmdR => "右 Command"@,
        HotkeyId::F19 => "F19"@,
        HotkeyId::CtrlR => "右 Ctrl"@,
        HotkeyId::F8 => "F8"@,
        HotkeyId::F9 => "F9"@,
    }
}

/// The hotkeys offered on `os`, in menu order.
pub open spec fn hotkey_choices(os: TargetOs) -> Seq<HotkeyId> {
    if os == TargetOs::MacOs {
        seq![HotkeyId::AltL, HotkeyId::AltR, HotkeyId::CmdR, HotkeyId::F19]
    } else {
        seq![HotkeyId::CtrlR, HotkeyId::F8, HotkeyId::F9, HotkeyId::AltR]
    }
}

pub open spec fn default_dictate_key(os: TargetOs) -> HotkeyId {
    if os == TargetOs::MacOs {
        HotkeyId::AltL
    } else {
        HotkeyId::CtrlR
    }
}

pub open spec fn default_rewrite_key(os: TargetOs) -> HotkeyId {
    if os == TargetOs::MacOs {
        HotkeyId::AltR
    } else {
        HotkeyId::F8
    }
}

impl HotkeyId {
    /// The value written to settings.json.
    pub fn as_str(&self) -> (r: &'static str)
        ensures
            r@ == hotkey_name(*self),
    {
        match self {
            HotkeyId::AltL => "alt_l",
            HotkeyId::AltR => "alt_r",
            HotkeyId::CmdR => "cmd_r",
            HotkeyId::F19 => "f19",
            HotkeyId::CtrlR => "ctrl_r",
            HotkeyId::F8 => "f8",
            HotkeyId::F9 => "f9",
        }
    }

    /// Reads a settings.json value; unknown spellings give `None`.
    pub fn parse(s: &str) -> (r: Option<HotkeyId>)
        ensures
            r == hotkey_from_name(s@),
    {
        if str_eq(s, "alt_l") {
            Some(HotkeyId::AltL)
        } else if str_eq(s, "alt_r") {
            Some(HotkeyId::AltR)
        } else if str_eq(s, "cmd_r") {
            Some(HotkeyId::CmdR)
        } else if str_eq(s, "f19") {
            Some(HotkeyId::F19)
        } else if str_eq(s, "ctrl_r") {
            Some(HotkeyId::CtrlR)
        } else if str_eq(s, "f8") {
            Some(HotkeyId::F8)
        } else if str_eq(s, "f9") {
            Some(HotkeyId::F9)
        } else {
            None
        }
    }

    /// Label shown in the menu and on the settings page.
    pub fn display(&self, os: TargetOs) -> (r: &'static str)
        ensures
            r@ == hotkey_label(*self, os),
    {
        match self {
            HotkeyId::AltL => "左 Option",
            HotkeyId::AltR => {
                match os {
                    TargetOs::MacOs => "右 Option",
                    TargetOs::Windows => "右 Alt（AltGr 键盘慎用）",
                }
            },
            HotkeyId::CmdR => "右 Command",
            HotkeyId::F19 => "F19",
            HotkeyId::CtrlR => "右 Ctrl",
            HotkeyId::F8 => "F8",
            HotkeyId::F9 => "F9",
        }
    }

    /// The hotkeys offered on `os`; the order is the menu order.
    pub fn choices(os: TargetOs) -> (r: Vec<HotkeyId>)
        ensures
            r@ == hotkey_choices(os),
    {
        match os {
            TargetOs::MacOs => vec![HotkeyId::AltL, HotkeyId::AltR, HotkeyId::CmdR, HotkeyId::F19],
            TargetOs::Windows => vec![HotkeyId::CtrlR, HotkeyId::F8, HotkeyId::F9, HotkeyId::AltR],
        }
    }

    pub fn default_dictate(os: TargetOs) -> (r: HotkeyId)
        ensures
            r == default_dictate_key(os),
    {
        match os {
            TargetOs::MacOs => HotkeyId::AltL,
            TargetOs::Windows => HotkeyId::CtrlR,
        }
    }

    pub fn default_rewrite(os: TargetOs) -> (r: HotkeyId)
        ensures
            r == default_rewrite_key(os),
    {
        match os {
            TargetOs::MacOs => HotkeyId::AltR,
            TargetOs::Windows => HotkeyId::F8,
        }
    }

    /// Whether this key is offered on `os`.
    pub fn offered_on(&self, os: TargetOs) -> (r: bool)
        ensures
            r == hotkey_choices(os).contains(*self),
    {
        let choices = HotkeyId::choices(os);
        let mut i: usize = 0;
        while i < choices.len()
            invariant
                choices@ == hotkey_choices(os),
                i <= choices@.len(),
                forall|j: int| 0 <= j < i ==> choices@[j] != *self,
            decreases choices@.len() - i,
        {
            if choices[i] == *self {
                assert(choices@[i as int] == *self);
                return true;
            }
            i = i + 1;
        }
        false
    }

    /// A dictation key that is not offered on `os` (settings.json copied from
    /// another platform) falls back to the default dictation key.
    pub fn valid_or_default_dictate(self, os: TargetOs) -> (r: HotkeyId)
        ensures
            r == (if hotkey_choices(os).contains(self) {
                self
            } else {
                default_dictate_key(os)
            }),
    {
        if self.offered_on(os) {
            self
        } else {
            HotkeyId::default_dictate(os)
        }
    }

    /// A rewrite key that is not offered on `os` falls back to the default
    /// rewrite key.
    pub fn valid_or_default_rewrite(self, os: TargetOs) -> (r: HotkeyId)
        ensures
            r == (if hotkey_choices(os).contains(self) {
                self
            } else {
                default_rewrite_key(os)
            }),
    {
        if self.offered_on(os) {
            self
        } else {
            HotkeyId::default_rewrite(os)
        }
    }
}

/// How a hotkey drives a recording.
#[derive(Debug, Clone, Copy, PartialEq, Eq, Structural)]
pub enum RecordMode {
    /// Tap to start, tap again to finish (the default).
    Toggle,
    /// Hold to talk; a double tap within the window locks the recording.
    Hold,
}

pub open spec fn mode_name(m: RecordMode) -> Seq<char> {
    match m {
        RecordMode::Toggle => "toggle"@,
        RecordMode::Hold => "hold"@,
    }
}

pub open spec fn mode_from_name(s: Seq<char>) -> Option<RecordMode> {
    if s == "toggle"@ {
        Some(RecordMode::Toggle)
    } else if s == "hold"@ {
        Some(RecordMode::Hold)
    } else {
        None
    }
}

impl RecordMode {
    pub fn as_str(&self) -> (r: &'static str)
        ensures
            r@ == mode_name(*self),
    {
        match self {
            RecordMode::Toggle => "toggle",
            RecordMode::Hold => "hold",
        }
    }

    pub fn display(&self) -> (r: &'static str)
        ensures
            r@ == (match *self {
                RecordMode::Toggle => "单击开始 / 再击结束"@,
                RecordMode::Hold => "按住说话（双击锁定）"@,
            }),
    {
        match self {
            RecordMode::Toggle => "单击开始 / 再击结束",
            RecordMode::Hold => "按住说话（双击锁定）",
        }
    }

    pub fn parse(s: &str) -> (r: Option<RecordMode>)
        ensures
            r == mode_from_name(s@),
    {
        if str_eq(s, "toggle") {
            Some(RecordMode::Toggle)
        } else if str_eq(s, "hold") {
            Some(RecordMode::Hold)
        } else {
            None
        }
    }
}

impl Default for RecordMode {
    fn default() -> (r: RecordMode)
        ensures
            r == RecordMode::Toggle,
    {
        RecordMode::Toggle
    }
}

/// What the hotkey state machine sees of a key: one of the hotkeys, or any
/// other key (letters, Esc, other modifiers).
#[derive(Debug, Clone, Copy, PartialEq, Eq, Structural)]
pub enum KeyKind {
    Hotkey(HotkeyId),
    Other,
}

#[derive(Debug, Clone, Copy, PartialEq, Eq, Structural)]
pub struct KeyEvent {
    pub key: KeyKind,
    pub pressed: bool,
}

/// The physical keys the global keyboard hook can report that matter to the
/// hotkeys; everything else arrives as `Other`.
#[derive(Debug, Clone, Copy, PartialEq, Eq, Structural)]
pub enum RawKey {
    /// Left Option (macOS) / left Alt.
    Alt,
    /// Right Option (macOS) / right Alt, AltGr.
    AltGr,
    MetaRight,
    ControlRight,
    F8,
    F9,
    /// A key code the hook has no name for (macOS reports F19 as code 80).
    Unknown(u32),
    Other,
}

/// macOS virtual key code of F19 (kVK_F19), which the hook reports unnamed.
pub const MAC_F19_KEYCODE: u32 = 80;

pub open spec fn key_kind_of(key: RawKey, os: TargetOs) -> KeyKind {
    if os == TargetOs::MacOs {
        match key {
            RawKey::Alt => KeyKind::Hotkey(HotkeyId::AltL),
            RawKey::AltGr => KeyKind::Hotkey(HotkeyId::AltR),
            RawKey::MetaRight => KeyKind::Hotkey(HotkeyId::CmdR),
            RawKey::Unknown(code) => if code == MAC_F19_KEYCODE {
                KeyKind::Hotkey(HotkeyId::F19)
            } else {
                KeyKind::Other
            },
            _ => KeyKind::Other,
        }
    } else {
        match key {
            RawKey::ControlRight => KeyKind::Hotkey(HotkeyId::CtrlR),
            RawKey::F8 => KeyKind::Hotkey(HotkeyId::F8),
            RawKey::F9 => KeyKind::Hotkey(HotkeyId::F9),
            RawKey::AltGr => KeyKind::Hotkey(HotkeyId::AltR),
            _ => KeyKind::Other,
        }
    }
}

/// Maps a raw key to a hotkey of `os`, or to `Other`.
pub fn map_key(key: RawKey, os: TargetOs) -> (r: KeyKind)
    ensures
        r == key_kind_of(key, os),
{
    match os {
        TargetOs::MacOs => match key {
            RawKey::Alt => KeyKind::Hotkey(HotkeyId::AltL),
            RawKey::AltGr => KeyKind::Hotkey(HotkeyId::AltR),
            RawKey::MetaRight => KeyKind::Hotkey(HotkeyId::CmdR),
            RawKey::Unknown(code) => if code == MAC_F19_KEYCODE {
                KeyKind::Hotkey(HotkeyId::F19)
            } else {
                KeyKind::Other
            },
            _ => KeyKind::Other,
        },
        TargetOs::Windows => match key {
            RawKey::ControlRight => KeyKind::Hotkey(HotkeyId::CtrlR),
            RawKey::F8 => KeyKind::Hotkey(HotkeyId::F8),
            RawKey::F9 => KeyKind::Hotkey(HotkeyId::F9),
            RawKey::AltGr => KeyKind::Hotkey(HotkeyId::AltR),
            _ => KeyKind::Other,
        },
    }
}

/// Two different hotkeys never share a settings.json spelling.
pub proof fn law_hotkey_names_distinct(a: HotkeyId, b: HotkeyId)
    ensures
        a != b ==> hotkey_name(a) != hotkey_name(b),
{
    law_hotkey_name_roundtrip(a);
    law_hotkey_name_roundtrip(b);
}

/// Every hotkey's settings.json spelling reads back as that hotkey.
pub proof fn law_hotkey_name_roundtrip(id: HotkeyId)
    ensures
        hotkey_from_name(hotkey_name(id)) == Some(id),
{
    reveal_strlit("alt_l");
    reveal_strlit("alt_r");
    reveal_strlit("cmd_r");
    reveal_strlit("f19");
    reveal_strlit("ctrl_r");
    reveal_strlit("f8");
    reveal_strlit("f9");
    let n = hotkey_name(id);
    match id {
        HotkeyId::AltL => {},
        HotkeyId::AltR => {
            assert(n[4] != "alt_l"@[4]);
        },
        HotkeyId::CmdR => {
            assert(n[0] != "alt_l"@[0]);
            assert(n[0] != "alt_r"@[0]);
        },
        HotkeyId::F19 => {
            assert(n.len() != "alt_l"@.len());
            assert(n.len() != "alt_r"@.len());
            assert(n.len() != "cmd_r"@.len());
        },
        HotkeyId::CtrlR => {
            assert(n.len() != "alt_l"@.len());
            assert(n.len() != "alt_r"@.len());
            assert(n.len() != "cmd_r"@.len());
            assert(n.len() != "f19"@.len());
        },
        HotkeyId::F8 => {
            assert(n.len() != "alt_l"@.len());
            assert(n.len() != "alt_r"@.len());
            assert(n.len() != "cmd_r"@.len());
            assert(n.len() != "f19"@.len());
            assert(n.len() != "ctrl_r"@.len());
        },
        HotkeyId::F9 => {
            assert(n.len() != "alt_l"@.len());
            assert(n.len() != "alt_r"@.len());
            assert(n.len() != "cmd_r"@.len());
            assert(n.len() != "f19"@.len());
            assert(n.len() != "ctrl_r"@.len());
            assert(n[1] != "f8"@[1]);
        },
    }
}

/// A spelling that reads as a hotkey is that hotkey's spelling.
pub proof fn law_hotkey_parse_exact(s: Seq<char>, id: HotkeyId)
    requires
        hotkey_from_name(s) == Some(id),
    ensures
        s == hotkey_name(id),
{
}

/// Both default hotkeys are offered on their platform, and they differ.
pub proof fn law_defaults_are_valid_choices(os: TargetOs)
    ensures
        hotkey_choices(os).contains(default_dictate_key(os)),
        hotkey_choices(os).contains(default_rewrite_key(os)),
        default_dictate_key(os) != default_rewrite_key(os),
{
    if os == TargetOs::MacOs {
        assert(hotkey_choices(os)[0] == default_dictate_key(os));
        assert(hotkey_choices(os)[1] == default_rewrite_key(os));
    } else {
        assert(hotkey_choices(os)[0] == default_dictate_key(os));
        assert(hotkey_choices(os)[1] == default_rewrite_key(os));
    }
}

/// Falling back to a valid key always yields an offered key, and falling back
/// twice changes nothing.
pub proof fn law_valid_or_default_is_offered(id: HotkeyId, os: TargetOs)
    ensures
        hotkey_choices(os).contains(
            if hotkey_choices(os).contains(id) { id } else { default_dictate_key(os) },
        ),
        hotkey_choices(os).contains(
            if hotkey_choices(os).contains(id) { id } else { default_rewrite_key(os) },
        ),
{
    law_defaults_are_valid_choices(os);
}

/// Every mode's spelling reads back as that mode.
pub proof fn law_mode_name_roundtrip(m: RecordMode)
    ensures
        mode_from_name(mode_name(m)) == Some(m),
{
    reveal_strlit("toggle");
    reveal_strlit("hold");
    if m == RecordMode::Hold {
        assert(mode_name(m).len() != "toggle"@.len());
    }
}

} // verus!
