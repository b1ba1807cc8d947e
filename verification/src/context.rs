//! Context-aware polishing: the frontmost application chooses the polishing
//! style through the `app_styles` table of settings.json, keyed by bundle id
//! or application name on macOS and by executable name on Windows, e.g.
//! `{"com.tencent.xinWeChat": "轻度纠错", "Mail": "书面化", "Terminal": "关闭"}`.
//!
//! Finding the frontmost application is the platform layer's job; this module
//! only matches.

use vstd::prelude::*;
use crate::strmap::{StrMap, lookup};
use crate::text::{lowercase, str_eq, to_lower};

verus! {

/// Style names meaning "do not polish in this application".
pub const STYLE_OFF: [&'static str; 2] = ["关闭", "off"];

pub open spec fn style_off_spec(s: Seq<char>) -> bool {
    s == "关闭"@ || s == "off"@
}

/// Whether a style name switches polishing off (exact match).
pub fn is_style_off(style: &str) -> (r: bool)
    ensures
        r == style_off_spec(style@),
{
    str_eq(style, STYLE_OFF[0]) || str_eq(style, STYLE_OFF[1])
}

/// `Some(s@)` for `Some(s)`.
pub open spec fn opt_text(o: Option<String>) -> Option<Seq<char>> {
    match o {
        Some(s) => Some(s@),
        None => None,
    }
}

/// Value of the first entry, from index `i` on, whose key is non-empty and
/// whose case-folded key `folded[j]` equals `target`.
pub open spec fn folded_match_from(
    e: Seq<(Seq<char>, Seq<char>)>,
    folded: Seq<Seq<char>>,
    target: Seq<char>,
    i: int,
) -> Option<Seq<char>>
    decreases e.len() - i,
{
    if i < 0 || i >= e.len() {
        None
    } else if e[i].0.len() > 0 && folded[i] == target {
        Some(e[i].1)
    } else {
        folded_match_from(e, folded, target, i + 1)
    }
}

/// The case-folded keys of a table, in key order.
pub open spec fn folded_keys(e: Seq<(Seq<char>, Seq<char>)>) -> Seq<Seq<char>> {
    e.map_values(|p: (Seq<char>, Seq<char>)| lowercase(p.0))
}

/// The style chosen for an application: an exact match of the identifier
/// first, then the first key (in key order) equal to the name ignoring case;
/// `None` when nothing matches (the global default style applies).
pub open spec fn pick_style_spec(
    name: Seq<char>,
    id: Seq<char>,
    m: Seq<(Seq<char>, Seq<char>)>,
) -> Option<Seq<char>> {
    if m.len() == 0 {
        None
    } else if id.len() > 0 && lookup(m, id) is Some {
        lookup(m, id)
    } else if name.len() == 0 {
        None
    } else {
        folded_match_from(m, folded_keys(m), lowercase(name), 0)
    }
}

/// Name-matching step of [`pick_style`] once the keys and the application
/// name are case-folded: the value of the first entry with a non-empty key
/// whose folded form `folded_keys[i]` equals `folded_name`.
pub fn match_folded_name(mapping: &StrMap, folded_keys: &Vec<String>, folded_name: &str) -> (r:
    Option<String>)
    requires
        folded_keys@.len() == mapping@.len(),
    ensures
        opt_text(r) == folded_match_from(
            mapping@,
            folded_keys@.map_values(|s: String| s@),
            folded_name@,
            0,
        ),
{
    let ghost fk = folded_keys@.map_values(|s: String| s@);
    let n = mapping.len();
    let mut i: usize = 0;
    while i < n
        invariant
            n == mapping@.len(),
            folded_keys@.len() == n,
            fk == folded_keys@.map_values(|s: String| s@),
            i <= n,
            folded_match_from(mapping@, fk, folded_name@, 0) == folded_match_from(
                mapping@,
                fk,
                folded_name@,
                i as int,
            ),
        decreases n - i,
    {
        let key = mapping.key_at(i);
        if !key.as_str().is_empty() && str_eq(folded_keys[i].as_str(), folded_name) {
            let v = mapping.value_at(i);
            return Some(v.clone());
        }
        proof {
            if key@.len() > 0 {
                assert(fk[i as int] == folded_keys@[i as int]@);
            }
        }
        i = i + 1;
    }
    None
}

/// Matches `app_styles` for an application: the identifier (bundle id /
/// executable name) exactly first, then the application name ignoring case.
/// Returns the style name (possibly "关闭"), or `None` for the default style.
pub fn pick_style(app_name: &str, app_id: &str, mapping: &StrMap) -> (r: Option<String>)
    ensures
        opt_text(r) == pick_style_spec(app_name@, app_id@, mapping@),
{
    if mapping.is_empty() {
        return None;
    }
    if !app_id.is_empty() {
        match mapping.get(app_id) {
            Some(style) => {
                return Some(style.clone());
            },
            None => {},
        }
    }
    if app_name.is_empty() {
        return None;
    }
    let folded_name = to_lower(app_name);
    let n = mapping.len();
    let mut folded: Vec<String> = Vec::new();
    let mut i: usize = 0;
    while i < n
        invariant
            n == mapping@.len(),
            i <= n,
            folded@.len() == i,
            forall|j: int| 0 <= j < i ==> (#[trigger] folded@[j])@ == lowercase(mapping@[j].0),
        decreases n - i,
    {
        let key = mapping.key_at(i);
        let f = to_lower(key.as_str());
        folded.push(f);
        i = i + 1;
    }
    proof {
        assert(folded@.map_values(|s: String| s@) =~= folded_keys(mapping@));
    }
    match_folded_name(mapping, &folded, folded_name.as_str())
}

} // verus!
