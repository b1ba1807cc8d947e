//! LLM polishing and voice rewrite: styles, prompts and the offline
//! replacement table, plus the requests sent to the provider and the reading
//! of its replies.
//!
//! Providers (`polish.provider`): `openai`, any OpenAI-compatible endpoint
//! configured by `base_url` + `api_key` + `model` (the default), and
//! `anthropic`, the Anthropic Messages API, whose key falls back to the
//! `ANTHROPIC_API_KEY` environment variable. Every failure is fail-open: no
//! result, and the caller keeps the raw transcript.

use vstd::prelude::*;
use crate::settings::{PolishConfig, Settings};
use crate::strmap::{StrMap, lookup, sorted_keys, key_less, lemma_key_less_irreflexive};
use crate::text::{blank, chars_of, is_blank, push_text, str_eq, string_of_range};

verus! {

pub const STYLE_POLISH: &'static str = "润色";
pub const STYLE_FORMAL: &'static str = "书面化";
pub const STYLE_LIGHT: &'static str = "轻度纠错";
pub const STYLE_ENGLISH: &'static str = "翻译成英文";
pub const STYLE_MINUTES: &'static str = "会议纪要";

pub const PROMPT_POLISH: &'static str = "你的任务：去掉口水词（嗯、啊、那个、就是说、然后然后 等）、修正同音或近音错字、规范标点符号。保持原意和语气，不增删信息。";
pub const PROMPT_FORMAL: &'static str = "你的任务：把口语转写整理成规范书面语——去口水词、修错字、规范标点，并适度重组句式使表达更清晰专业，可合并明显冗余，但不得改变事实、立场与信息量。";
pub const PROMPT_LIGHT: &'static str = "你的任务：只修正同音/近音错字和标点，尽量保留原始口语表达，除明显口水词外不删任何内容。";
pub const PROMPT_ENGLISH: &'static str = "你的任务：先在心里修正转写错字，然后把内容翻译成自然地道的英文，保持原有语气。只输出英文。";
pub const PROMPT_MINUTES: &'static str = "你的任务：把口述内容整理成要点式纪要（用「- 」列表），修正错字、合并重复，保留所有信息点。";

/// Built-in polishing styles, name and prompt, in menu order; the
/// `polish.styles` table of settings.json overrides or extends them.
pub const BUILTIN_STYLES: [(&'static str, &'static str); 5] = [
    (STYLE_POLISH, PROMPT_POLISH),
    (STYLE_FORMAL, PROMPT_FORMAL),
    (STYLE_LIGHT, PROMPT_LIGHT),
    (STYLE_ENGLISH, PROMPT_ENGLISH),
    (STYLE_MINUTES, PROMPT_MINUTES),
];

/// Default style name.
pub const DEFAULT_STYLE: &'static str = STYLE_POLISH;

pub const PREFIX: &'static str = "你是语音输入法的后处理引擎。用户消息是一段语音转写的文本（中文为主，可能中英混杂）。";
pub const SUFFIX: &'static str = "不回答或评论文本内容，只输出结果本身，不要任何解释或前后缀。";
pub const HOTWORDS_HEADER: &'static str = "\n常用专有名词（转写易错，优先按此拼写纠正）：";
pub const WORD_SEPARATOR: &'static str = "、";

/// The built-in style names, in menu order.
pub open spec fn builtin_names() -> Seq<Seq<char>> {
    seq![STYLE_POLISH@, STYLE_FORMAL@, STYLE_LIGHT@, STYLE_ENGLISH@, STYLE_MINUTES@]
}

/// The prompt of the built-in style named `name`.
pub open spec fn builtin_prompt(name: Seq<char>) -> Option<Seq<char>> {
    if name == STYLE_POLISH@ {
        Some(PROMPT_POLISH@)
    } else if name == STYLE_FORMAL@ {
        Some(PROMPT_FORMAL@)
    } else if name == STYLE_LIGHT@ {
        Some(PROMPT_LIGHT@)
    } else if name == STYLE_ENGLISH@ {
        Some(PROMPT_ENGLISH@)
    } else if name == STYLE_MINUTES@ {
        Some(PROMPT_MINUTES@)
    } else {
        None
    }
}

/// The five built-in names are pairwise distinct.
pub proof fn lemma_builtin_names_distinct()
    ensures
        forall|i: int, j: int|
            0 <= i < j < 5 ==> #[trigger] builtin_names()[i] != #[trigger] builtin_names()[j],
        forall|i: int| 0 <= i < 5 ==> #[trigger] builtin_prompt(builtin_names()[i]) is Some,
        builtin_names().len() == 5,
{
    reveal_strlit("润色");
    reveal_strlit("书面化");
    reveal_strlit("轻度纠错");
    reveal_strlit("翻译成英文");
    reveal_strlit("会议纪要");
    assert(STYLE_POLISH@.len() == 2);
    assert(STYLE_FORMAL@.len() == 3);
    assert(STYLE_LIGHT@.len() == 4);
    assert(STYLE_ENGLISH@.len() == 5);
    assert(STYLE_MINUTES@.len() == 4);
    assert(STYLE_LIGHT@[0] != STYLE_MINUTES@[0]);
}

/// The prompt of a built-in style.
pub fn builtin_style(name: &str) -> (r: Option<&'static str>)
    ensures
        match r {
            Some(p) => builtin_prompt(name@) == Some(p@),
            None => builtin_prompt(name@) is None,
        },
{
    if str_eq(name, STYLE_POLISH) {
        Some(PROMPT_POLISH)
    } else if str_eq(name, STYLE_FORMAL) {
        Some(PROMPT_FORMAL)
    } else if str_eq(name, STYLE_LIGHT) {
        Some(PROMPT_LIGHT)
    } else if str_eq(name, STYLE_ENGLISH) {
        Some(PROMPT_ENGLISH)
    } else if str_eq(name, STYLE_MINUTES) {
        Some(PROMPT_MINUTES)
    } else {
        None
    }
}

/// The prompt of style `k` once the user table `user` is laid over the
/// built-in styles: a user entry with a non-empty name and a non-empty prompt
/// wins, otherwise the built-in prompt.
pub open spec fn style_prompt(user: Seq<(Seq<char>, Seq<char>)>, k: Seq<char>) -> Option<Seq<char>> {
    match lookup(user, k) {
        Some(v) => if k.len() > 0 && v.len() > 0 {
            Some(v)
        } else {
            builtin_prompt(k)
        },
        None => builtin_prompt(k),
    }
}

/// Overlay of the first `i` user entries over the built-in styles.
pub open spec fn overlay_upto(user: Seq<(Seq<char>, Seq<char>)>, i: int, k: Seq<char>) -> Option<
    Seq<char>,
>
    decreases i,
{
    if i <= 0 {
        builtin_prompt(k)
    } else if user[i - 1].0 == k && user[i - 1].0.len() > 0 && user[i - 1].1.len() > 0 {
        Some(user[i - 1].1)
    } else {
        overlay_upto(user, i - 1, k)
    }
}

proof fn lemma_overlay_full(user: Seq<(Seq<char>, Seq<char>)>, i: int, k: Seq<char>)
    requires
        sorted_keys(user),
        0 <= i <= user.len(),
    ensures
        overlay_upto(user, i, k) == (if exists|j: int| 0 <= j < i && #[trigger] user[j].0 == k {
            style_prompt(user, k)
        } else {
            builtin_prompt(k)
        }),
    decreases i,
{
    if i > 0 {
        lemma_overlay_full(user, i - 1, k);
        if user[i - 1].0 == k {
            crate::strmap::lemma_lookup_at(user, i - 1);
            assert forall|j: int| 0 <= j < i - 1 implies #[trigger] user[j].0 != k by {
                assert(key_less(user[j].0, user[i - 1].0));
                lemma_key_less_irreflexive(k);
            }
        } else {
            if exists|j: int| 0 <= j < i && #[trigger] user[j].0 == k {
                let j = choose|j: int| 0 <= j < i && #[trigger] user[j].0 == k;
                assert(j < i - 1);
            }
        }
    }
}

/// Built-in styles plus the user styles of `polish.styles` (same name
/// overrides; entries with an empty name or prompt are ignored).
pub fn get_styles(settings: &Settings) -> (r: StrMap)
    ensures
        forall|k: Seq<char>| #[trigger]
            lookup(r@, k) == style_prompt(settings.polish.styles@, k),
{
    let mut styles = StrMap::new();
    let mut i: usize = 0;
    proof {
        lemma_builtin_names_distinct();
    }
    while i < 5
        invariant
            i <= 5,
            forall|k: Seq<char>| #[trigger]
                lookup(styles@, k) == (if exists|j: int| 0 <= j < i && builtin_names()[j] == k {
                    builtin_prompt(k)
                } else {
                    None
                }),
            forall|j: int|
                0 <= j < 5 ==> (#[trigger] BUILTIN_STYLES@[j]).0@ == builtin_names()[j]
                    && Some(BUILTIN_STYLES@[j].1@) == builtin_prompt(builtin_names()[j]),
        decreases 5 - i,
    {
        let (name, prompt) = BUILTIN_STYLES[i];
        styles.insert(name.to_owned(), prompt.to_owned());
        proof {
            assert forall|k: Seq<char>| #[trigger]
                lookup(styles@, k) == (if exists|j: int| 0 <= j < i + 1 && builtin_names()[j] == k {
                    builtin_prompt(k)
                } else {
                    None
                }) by {
                if k == name@ {
                    assert(builtin_names()[i as int] == k);
                } else {
                    if exists|j: int| 0 <= j < i + 1 && builtin_names()[j] == k {
                        let j = choose|j: int| 0 <= j < i + 1 && builtin_names()[j] == k;
                        assert(j != i);
                    }
                }
            }
        }
        i = i + 1;
    }
    let user = &settings.polish.styles;
    let n = user.len();
    let ghost u = user@;
    proof {
        assert forall|k: Seq<char>| #[trigger] lookup(styles@, k) == overlay_upto(u, 0, k) by {
            if builtin_prompt(k) is Some {
                if k == STYLE_POLISH@ {
                    assert(builtin_names()[0] == k);
                } else if k == STYLE_FORMAL@ {
                    assert(builtin_names()[1] == k);
                } else if k == STYLE_LIGHT@ {
                    assert(builtin_names()[2] == k);
                } else if k == STYLE_ENGLISH@ {
                    assert(builtin_names()[3] == k);
                } else {
                    assert(builtin_names()[4] == k);
                }
            } else {
                if exists|j: int| 0 <= j < 5 && builtin_names()[j] == k {
                    let j = choose|j: int| 0 <= j < 5 && builtin_names()[j] == k;
                    assert(builtin_prompt(builtin_names()[j]) is Some);
                }
            }
        }
    }
    let mut i: usize = 0;
    while i < n
        invariant
            n == u.len(),
            u == settings.polish.styles@,
            user@ == u,
            sorted_keys(u),
            i <= n,
            forall|k: Seq<char>| #[trigger] lookup(styles@, k) == overlay_upto(u, i as int, k),
        decreases n - i,
    {
        let name = user.key_at(i);
        let prompt = user.value_at(i);
        if !name.as_str().is_empty() && !prompt.as_str().is_empty() {
            styles.insert(name.clone(), prompt.clone());
        }
        i = i + 1;
    }
    proof {
        assert forall|k: Seq<char>| #[trigger]
            lookup(styles@, k) == style_prompt(settings.polish.styles@, k) by {
            lemma_overlay_full(u, n as int, k);
            if !(exists|j: int| 0 <= j < n && #[trigger] u[j].0 == k) {
                assert(lookup(u, k) is None);
            }
        }
    }
    styles
}

/// The user style names listed after the built-in ones: non-empty name and
/// prompt, not a built-in name, in key order.
pub open spec fn extra_style_names(e: Seq<(Seq<char>, Seq<char>)>) -> Seq<Seq<char>>
    decreases e.len(),
{
    if e.len() == 0 {
        Seq::empty()
    } else {
        let r = extra_style_names(e.drop_last());
        let k = e.last().0;
        if k.len() > 0 && e.last().1.len() > 0 && builtin_prompt(k) is None {
            r.push(k)
        } else {
            r
        }
    }
}

/// Menu order of the style names: the five built-in styles first, in their
/// fixed order, then the styles the user added, by name.
pub fn style_names(settings: &Settings) -> (r: Vec<String>)
    ensures
        texts(r@) == builtin_names() + extra_style_names(
            settings.polish.styles@,
        ),
{
    let mut names: Vec<String> = Vec::new();
    let mut i: usize = 0;
    while i < 5
        invariant
            i <= 5,
            texts(names@) == builtin_names().subrange(0, i as int),
            forall|j: int|
                0 <= j < 5 ==> (#[trigger] BUILTIN_STYLES@[j]).0@ == builtin_names()[j],
        decreases 5 - i,
    {
        let ghost before = names@;
        let name: &str = BUILTIN_STYLES[i].0;
        let owned = name.to_owned();
        assert(owned@ == builtin_names()[i as int]);
        names.push(owned);
        assert(names@ == before.push(owned));
        assert(texts(names@) =~= texts(before).push(owned@));
        i = i + 1;
        assert(texts(names@) =~= builtin_names().subrange(0, i as int));
    }
    let user = &settings.polish.styles;
    let ghost u = user@;
    let n = user.len();
    let mut i: usize = 0;
    assert(builtin_names().subrange(0, 5) =~= builtin_names());
    assert(u.subrange(0, 0) =~= Seq::<(Seq<char>, Seq<char>)>::empty());
    while i < n
        invariant
            n == u.len(),
            u == settings.polish.styles@,
            user@ == u,
            i <= n,
            texts(names@) == builtin_names() + extra_style_names(
                u.subrange(0, i as int),
            ),
        decreases n - i,
    {
        let name = user.key_at(i);
        let prompt = user.value_at(i);
        assert(u.subrange(0, i + 1).drop_last() =~= u.subrange(0, i as int));
        if !name.as_str().is_empty() && !prompt.as_str().is_empty() && builtin_style(
            name.as_str(),
        ).is_none() {
            let ghost before = names@;
            let owned = name.clone();
            names.push(owned);
            assert(names@ == before.push(owned));
            assert(owned@ == u[i as int].0);
            assert(texts(names@) =~= texts(before).push(owned@));
            assert(texts(names@) =~= builtin_names() + extra_style_names(
                u.subrange(0, i + 1),
            ));
        }
        i = i + 1;
    }
    assert(u.subrange(0, n as int) =~= u);
    names
}

/// Texts of the words that are not empty, in order.
pub open spec fn nonempty_words(ws: Seq<Seq<char>>) -> Seq<Seq<char>>
    decreases ws.len(),
{
    if ws.len() == 0 {
        Seq::empty()
    } else {
        let r = nonempty_words(ws.drop_last());
        if ws.last().len() > 0 {
            r.push(ws.last())
        } else {
            r
        }
    }
}

/// The words separated by `sep`.
pub open spec fn join(ws: Seq<Seq<char>>, sep: Seq<char>) -> Seq<char>
    decreases ws.len(),
{
    if ws.len() == 0 {
        Seq::empty()
    } else if ws.len() == 1 {
        ws[0]
    } else {
        join(ws.drop_last(), sep) + sep + ws.last()
    }
}

/// The texts of a list of strings.
pub open spec fn texts(v: Seq<String>) -> Seq<Seq<char>> {
    v.map_values(|s: String| s@)
}

/// The non-empty hotwords joined by "、", and how many there are.
fn join_hotwords(hotwords: &[String]) -> (r: (String, usize))
    ensures
        r.0@ == join(nonempty_words(texts(hotwords@)), WORD_SEPARATOR@),
        r.1 == nonempty_words(texts(hotwords@)).len(),
{
    let ghost ws = texts(hotwords@);
    let mut joined = String::new();
    let mut count: usize = 0;
    let mut i: usize = 0;
    assert(ws.subrange(0, 0) =~= Seq::<Seq<char>>::empty());
    while i < hotwords.len()
        invariant
            ws == texts(hotwords@),
            i <= hotwords@.len(),
            joined@ == join(nonempty_words(ws.subrange(0, i as int)), WORD_SEPARATOR@),
            count == nonempty_words(ws.subrange(0, i as int)).len(),
            count <= i,
        decreases hotwords@.len() - i,
    {
        let w = &hotwords[i];
        let ghost before = nonempty_words(ws.subrange(0, i as int));
        assert(ws.subrange(0, i + 1).drop_last() =~= ws.subrange(0, i as int));
        assert(ws.subrange(0, i + 1).last() == w@);
        if !w.as_str().is_empty() {
            if count > 0 {
                push_text(&mut joined, WORD_SEPARATOR);
            }
            push_text(&mut joined, w.as_str());
            count = count + 1;
            proof {
                let after = before.push(w@);
                assert(after.drop_last() =~= before);
                if before.len() == 0 {
                    assert(joined@ =~= join(after, WORD_SEPARATOR@));
                }
            }
        }
        i = i + 1;
    }
    assert(ws.subrange(0, hotwords@.len() as int) =~= ws);
    (joined, count)
}

/// The system prompt: fixed prefix, the style prompt (the default style
/// when none or an empty one is given), fixed suffix, and the non-empty
/// hotwords after a header when there are any.
pub open spec fn system_prompt_spec(hotwords: Seq<Seq<char>>, style: Option<Seq<char>>) -> Seq<char> {
    let s = match style {
        Some(p) => if p.len() > 0 {
            p
        } else {
            PROMPT_POLISH@
        },
        None => PROMPT_POLISH@,
    };
    let words = nonempty_words(hotwords);
    let base = PREFIX@ + s + SUFFIX@;
    if words.len() > 0 {
        base + HOTWORDS_HEADER@ + join(words, WORD_SEPARATOR@)
    } else {
        base
    }
}

/// Builds the system prompt: prefix + style + suffix (+ hotwords).
pub fn build_system_prompt(hotwords: &[String], style_prompt: Option<&str>) -> (r: String)
    ensures
        r@ == system_prompt_spec(
            texts(hotwords@),
            match style_prompt {
                Some(p) => Some(p@),
                None => None,
            },
        ),
{
    let style = match style_prompt {
        Some(p) => if !p.is_empty() {
            p
        } else {
            PROMPT_POLISH
        },
        None => PROMPT_POLISH,
    };
    let mut prompt = PREFIX.to_owned();
    push_text(&mut prompt, style);
    push_text(&mut prompt, SUFFIX);
    let (words, count) = join_hotwords(hotwords);
    if count > 0 {
        push_text(&mut prompt, HOTWORDS_HEADER);
        push_text(&mut prompt, words.as_str());
    }
    prompt
}

/// `str::replace`: every occurrence of `from` (non-empty), scanning left to
/// right without overlap, replaced by `to`.
pub open spec fn replace_all(s: Seq<char>, from: Seq<char>, to: Seq<char>) -> Seq<char>
    decreases s.len(),
{
    if from.len() == 0 || s.len() < from.len() {
        s
    } else if s.subrange(0, from.len() as int) == from {
        to + replace_all(s.skip(from.len() as int), from, to)
    } else {
        seq![s[0]] + replace_all(s.skip(1), from, to)
    }
}

/// Whether `pat` occurs in `v` at position `i`.
fn occurs_at(v: &Vec<char>, i: usize, pat: &Vec<char>) -> (r: bool)
    requires
        i <= v@.len(),
    ensures
        r == (i + pat@.len() <= v@.len() && v@.subrange(i as int, i + pat@.len()) == pat@),
{
    let vlen = v.len();
    if pat.len() > vlen - i {
        return false;
    }
    let mut j: usize = 0;
    while j < pat.len()
        invariant
            vlen == v@.len(),
            i + pat@.len() <= v@.len(),
            j <= pat@.len(),
            forall|t: int| 0 <= t < j ==> v@[i + t] == pat@[t],
        decreases pat@.len() - j,
    {
        if v[i + j] != pat[j] {
            assert(v@.subrange(i as int, i + pat@.len())[j as int] != pat@[j as int]);
            return false;
        }
        j = j + 1;
    }
    assert(v@.subrange(i as int, i + pat@.len()) =~= pat@);
    true
}

/// Replaces every occurrence of `from` (non-empty) in `text` by `to`.
pub fn replace_text(text: &str, from: &str, to: &str) -> (r: String)
    requires
        from@.len() > 0,
    ensures
        r@ == replace_all(text@, from@, to@),
{
    let v = chars_of(text);
    let pat = chars_of(from);
    let n = v.len();
    let m = pat.len();
    let mut out = String::new();
    let mut i: usize = 0;
    assert(text@.skip(0) =~= text@);
    assert(out@ + replace_all(text@, from@, to@) =~= replace_all(text@, from@, to@));
    while i < n
        invariant
            v@ == text@,
            pat@ == from@,
            n == v@.len(),
            m == pat@.len(),
            m > 0,
            i <= n,
            out@ + replace_all(text@.skip(i as int), from@, to@) == replace_all(text@, from@, to@),
        decreases n - i,
    {
        let ghost rest = text@.skip(i as int);
        if occurs_at(&v, i, &pat) {
            proof {
                assert(rest.subrange(0, m as int) =~= v@.subrange(i as int, i + m));
                assert(rest.skip(m as int) =~= text@.skip(i + m));
            }
            push_text(&mut out, to);
            i = i + m;
            assert(out@ + replace_all(text@.skip(i as int), from@, to@) =~= replace_all(
                text@,
                from@,
                to@,
            ));
        } else {
            proof {
                if rest.len() >= m {
                    assert(rest.subrange(0, m as int) =~= v@.subrange(i as int, i + m));
                }
                assert(rest.skip(1) =~= text@.skip(i + 1));
                assert(rest[0] == v@[i as int]);
            }
            let single = string_of_range(&v, i, i + 1);
            push_text(&mut out, single.as_str());
            i = i + 1;
            assert(out@ + replace_all(text@.skip(i as int), from@, to@) =~= replace_all(
                text@,
                from@,
                to@,
            ));
        }
    }
    assert(text@.skip(n as int) =~= Seq::<char>::empty());
    assert(out@ + Seq::<char>::empty() =~= out@);
    out
}

/// The table entries from index `i` on applied in key order, each a
/// `replace_all` of its non-empty key by its value.
pub open spec fn replace_from(s: Seq<char>, e: Seq<(Seq<char>, Seq<char>)>, i: int) -> Seq<char>
    decreases e.len() - i,
{
    if i < 0 || i >= e.len() {
        s
    } else if e[i].0.len() > 0 {
        replace_from(replace_all(s, e[i].0, e[i].1), e, i + 1)
    } else {
        replace_from(s, e, i + 1)
    }
}

/// Offline replacement table: plain string replacement, no LLM involved.
pub fn apply_replacements(text: &str, mapping: &StrMap) -> (r: String)
    ensures
        r@ == replace_from(text@, mapping@, 0),
{
    let mut out = text.to_owned();
    let n = mapping.len();
    let mut i: usize = 0;
    while i < n
        invariant
            n == mapping@.len(),
            i <= n,
            replace_from(out@, mapping@, i as int) == replace_from(text@, mapping@, 0),
        decreases n - i,
    {
        let src = mapping.key_at(i);
        if !src.as_str().is_empty() {
            let dst = mapping.value_at(i);
            out = replace_text(out.as_str(), src.as_str(), dst.as_str());
        }
        i = i + 1;
    }
    out
}


/// `s` starts with `p`.
pub open spec fn has_prefix(s: Seq<char>, p: Seq<char>) -> bool {
    p.len() <= s.len() && s.subrange(0, p.len() as int) == p
}

/// Whether `s` starts with `p` (`str::starts_with`).
pub fn starts_with_text(s: &str, p: &str) -> (r: bool)
    ensures
        r == has_prefix(s@, p@),
{
    let vs = chars_of(s);
    let vp = chars_of(p);
    if vp.len() > vs.len() {
        return false;
    }
    let mut i: usize = 0;
    while i < vp.len()
        invariant
            vs@ == s@,
            vp@ == p@,
            vp@.len() <= vs@.len(),
            i <= vp@.len(),
            forall|j: int| 0 <= j < i ==> vs@[j] == vp@[j],
        decreases vp@.len() - i,
    {
        if vs[i] != vp[i] {
            assert(s@.subrange(0, p@.len() as int)[i as int] != p@[i as int]);
            return false;
        }
        i = i + 1;
    }
    assert(s@.subrange(0, p@.len() as int) =~= p@);
    true
}

/// At most `max` characters of `s`, with "…" appended when it was cut.
pub open spec fn truncated(s: Seq<char>, max: nat) -> Seq<char> {
    if s.len() <= max {
        s
    } else {
        s.subrange(0, max as int) + "…"@
    }
}

/// Shortens a text for a log or error line.
pub fn truncate(s: &str, max: usize) -> (r: String)
    ensures
        r@ == truncated(s@, max as nat),
{
    let v = chars_of(s);
    if v.len() <= max {
        return s.to_owned();
    }
    let mut out = string_of_range(&v, 0, max);
    push_text(&mut out, "…");
    out
}

/// Default endpoint of the Anthropic Messages API.
pub const ANTHROPIC_BASE: &'static str = "https://api.anthropic.com";
/// Value of the `anthropic-version` header.
pub const ANTHROPIC_VERSION: &'static str = "2023-06-01";
/// `max_tokens` of an Anthropic request.
pub const ANTHROPIC_MAX_TOKENS: u32 = 2048;

/// The Anthropic models the polisher is told about: the model used when
/// `polish.model` is empty, and the name prefixes of the models that accept
/// `output_config.effort` (polishing asks those for low effort to keep
/// latency down).
pub struct ModelCatalog {
    pub default_model: String,
    pub low_effort_prefixes: Vec<String>,
}

/// The low-effort prefixes of a catalog as character sequences.
pub open spec fn prefixes_view(c: ModelCatalog) -> Seq<Seq<char>> {
    c.low_effort_prefixes@.map_values(|p: String| p@)
}

/// Whether a model is asked for low effort: its name starts with one of the
/// catalog's prefixes.
pub open spec fn is_low_effort_model(model: Seq<char>, prefixes: Seq<Seq<char>>) -> bool {
    exists|i: int| 0 <= i < prefixes.len() && has_prefix(model, #[trigger] prefixes[i])
}

/// The Anthropic endpoint: the configured base (`ANTHROPIC_BASE_URL`) when
/// it is not blank, else the default, without trailing '/'.
pub open spec fn anthropic_base_spec(configured: Option<Seq<char>>) -> Seq<char> {
    let base = match configured {
        Some(v) => if is_blank(v) {
            ANTHROPIC_BASE@
        } else {
            v
        },
        None => ANTHROPIC_BASE@,
    };
    crate::text::strip_trailing(base, '/')
}

pub fn anthropic_base(configured: Option<&str>) -> (r: String)
    ensures
        r@ == anthropic_base_spec(
            match configured {
                Some(v) => Some(v@),
                None => None,
            },
        ),
{
    let base = match configured {
        Some(v) => if blank(v) {
            ANTHROPIC_BASE
        } else {
            v
        },
        None => ANTHROPIC_BASE,
    };
    crate::text::strip_trailing_str(base, '/')
}

/// The API a request is sent to.
#[derive(Debug, Clone, Copy, PartialEq, Eq, Structural)]
pub enum ApiKind {
    /// `POST {base_url}/chat/completions`, bearer token.
    OpenAi,
    /// `POST {base}/v1/messages`, `x-api-key` and `anthropic-version` headers.
    Anthropic,
}

/// One LLM request, ready for the HTTP client.
pub struct LlmRequest {
    pub api: ApiKind,
    /// Endpoint URL.
    pub url: String,
    pub model: String,
    /// System prompt.
    pub system: String,
    /// User message.
    pub user: String,
    /// Credential; `None` sends no authorization header.
    pub api_key: Option<String>,
    /// Request timeout in seconds, at least 1.
    pub timeout_secs: u64,
    /// `max_tokens` of the body, when the API needs one.
    pub max_tokens: Option<u32>,
    /// Ask the model for low effort.
    pub low_effort: bool,
}

/// Why no request could be built (the call then fails open).
#[derive(Debug, Clone, Copy, PartialEq, Eq, Structural)]
pub enum RequestError {
    /// `polish.provider` is neither `openai` nor `anthropic`.
    UnknownProvider,
    /// OpenAI-compatible provider without `base_url`.
    MissingBaseUrl,
    /// Anthropic provider without a key in the settings or the environment.
    MissingApiKey,
}

pub open spec fn opt_view(o: Option<String>) -> Option<Seq<char>> {
    match o {
        Some(s) => Some(s@),
        None => None,
    }
}

/// The OpenAI-compatible base URL: trimmed, without trailing '/'.
pub open spec fn openai_base(base_url: Seq<char>) -> Seq<char> {
    crate::text::strip_trailing(crate::text::trim(base_url), '/')
}

/// The Anthropic key: the configured one, else the environment's.
pub open spec fn anthropic_key(configured: Seq<char>, env_key: Seq<char>) -> Seq<char> {
    if configured.len() == 0 {
        env_key
    } else {
        configured
    }
}

/// The request `build_request` makes, or why it makes none.
pub open spec fn request_ok(
    req: LlmRequest,
    provider: Seq<char>,
    user: Seq<char>,
    conf: PolishConfig,
    system: Seq<char>,
    anthropic_base: Seq<char>,
    env_key: Seq<char>,
    models: ModelCatalog,
) -> bool {
    &&& req.system@ == system
    &&& req.user@ == user
    &&& req.timeout_secs == (if conf.timeout == 0 {
        1
    } else {
        conf.timeout
    })
    &&& if provider == "openai"@ {
        &&& req.api == ApiKind::OpenAi
        &&& req.url@ == openai_base(conf.base_url@) + "/chat/completions"@
        &&& req.model@ == conf.model@
        &&& opt_view(req.api_key) == (if conf.api_key@.len() == 0 {
            None
        } else {
            Some(conf.api_key@)
        })
        &&& req.max_tokens is None
        &&& !req.low_effort
    } else {
        let model = if conf.model@.len() == 0 {
            models.default_model@
        } else {
            conf.model@
        };
        &&& req.api == ApiKind::Anthropic
        &&& req.url@ == anthropic_base + "/v1/messages"@
        &&& req.model@ == model
        &&& opt_view(req.api_key) == Some(anthropic_key(conf.api_key@, env_key))
        &&& req.max_tokens == Some(ANTHROPIC_MAX_TOKENS)
        &&& req.low_effort == is_low_effort_model(model, prefixes_view(models))
    }
}

/// When `build_request` fails, and with which error.
pub open spec fn request_error(
    provider: Seq<char>,
    conf: PolishConfig,
    env_key: Seq<char>,
) -> Option<RequestError> {
    if provider == "openai"@ {
        if openai_base(conf.base_url@).len() == 0 {
            Some(RequestError::MissingBaseUrl)
        } else {
            None
        }
    } else if provider == "anthropic"@ {
        if is_blank(anthropic_key(conf.api_key@, env_key)) {
            Some(RequestError::MissingApiKey)
        } else {
            None
        }
    } else {
        Some(RequestError::UnknownProvider)
    }
}

fn is_low_effort(model: &str, prefixes: &Vec<String>) -> (r: bool)
    ensures
        r == is_low_effort_model(model@, prefixes@.map_values(|p: String| p@)),
{
    let ghost ps = prefixes@.map_values(|p: String| p@);
    let mut i: usize = 0;
    while i < prefixes.len()
        invariant
            ps == prefixes@.map_values(|p: String| p@),
            i <= prefixes@.len(),
            forall|j: int| 0 <= j < i ==> !has_prefix(model@, #[trigger] ps[j]),
        decreases prefixes@.len() - i,
    {
        if starts_with_text(model, prefixes[i].as_str()) {
            assert(has_prefix(model@, ps[i as int]));
            return true;
        }
        i = i + 1;
    }
    false
}

/// The request for `provider` with system prompt `system` and user message
/// `user`. `anthropic_base` is the Anthropic endpoint ([`anthropic_base`]),
/// `env_key` the `ANTHROPIC_API_KEY` environment value (empty when unset),
/// `models` the Anthropic model catalog.
pub fn build_request(
    provider: &str,
    user: &str,
    conf: &PolishConfig,
    system: &str,
    anthropic_base: &str,
    env_key: &str,
    models: &ModelCatalog,
) -> (r: Result<LlmRequest, RequestError>)
    ensures
        match r {
            Ok(req) => request_error(provider@, *conf, env_key@) is None && request_ok(
                req,
                provider@,
                user@,
                *conf,
                system@,
                anthropic_base@,
                env_key@,
                *models,
            ),
            Err(e) => request_error(provider@, *conf, env_key@) == Some(e),
        },
{
    let timeout_secs = if conf.timeout == 0 {
        1
    } else {
        conf.timeout
    };
    if str_eq(provider, "openai") {
        let trimmed = crate::text::trim_str(conf.base_url.as_str());
        let base = crate::text::strip_trailing_str(trimmed.as_str(), '/');
        if base.as_str().is_empty() {
            return Err(RequestError::MissingBaseUrl);
        }
        let mut url = base;
        push_text(&mut url, "/chat/completions");
        let api_key = if conf.api_key.as_str().is_empty() {
            None
        } else {
            Some(conf.api_key.clone())
        };
        Ok(
            LlmRequest {
                api: ApiKind::OpenAi,
                url,
                model: conf.model.clone(),
                system: system.to_owned(),
                user: user.to_owned(),
                api_key,
                timeout_secs,
                max_tokens: None,
                low_effort: false,
            },
        )
    } else if str_eq(provider, "anthropic") {
        let key = if conf.api_key.as_str().is_empty() {
            env_key.to_owned()
        } else {
            conf.api_key.clone()
        };
        if blank(key.as_str()) {
            return Err(RequestError::MissingApiKey);
        }
        let model = if conf.model.as_str().is_empty() {
            models.default_model.clone()
        } else {
            conf.model.clone()
        };
        let low_effort = is_low_effort(model.as_str(), &models.low_effort_prefixes);
        let mut url = anthropic_base.to_owned();
        push_text(&mut url, "/v1/messages");
        Ok(
            LlmRequest {
                api: ApiKind::Anthropic,
                url,
                model,
                system: system.to_owned(),
                user: user.to_owned(),
                api_key: Some(key),
                timeout_secs,
                max_tokens: Some(ANTHROPIC_MAX_TOKENS),
                low_effort,
            },
        )
    } else {
        Err(RequestError::UnknownProvider)
    }
}

/// One block of an Anthropic reply's `content` array: its `type` and its
/// `text`, each when it is a JSON string.
pub struct ReplyBlock {
    pub kind: Option<String>,
    pub text: Option<String>,
}

/// The text of an Anthropic reply: empty for a refusal; otherwise the
/// `text` of the first block of type "text" (empty when that block has no
/// text, or there is no such block, or no content array).
pub open spec fn anthropic_text_spec(stop_reason: Option<Seq<char>>, blocks: Option<Seq<ReplyBlock>>) -> Seq<
    char,
> {
    if stop_reason == Some("refusal"@) {
        Seq::empty()
    } else {
        match blocks {
            Some(b) => first_text_block(b, 0),
            None => Seq::empty(),
        }
    }
}

pub open spec fn first_text_block(b: Seq<ReplyBlock>, i: int) -> Seq<char>
    decreases b.len() - i,
{
    if i < 0 || i >= b.len() {
        Seq::empty()
    } else if opt_view(b[i].kind) == Some("text"@) {
        match opt_view(b[i].text) {
            Some(t) => t,
            None => Seq::empty(),
        }
    } else {
        first_text_block(b, i + 1)
    }
}

/// Reads the text out of an Anthropic Messages reply.
pub fn anthropic_reply_text(stop_reason: Option<&str>, blocks: Option<&Vec<ReplyBlock>>) -> (r:
    String)
    ensures
        r@ == anthropic_text_spec(
            match stop_reason {
                Some(s) => Some(s@),
                None => None,
            },
            match blocks {
                Some(b) => Some(b@),
                None => None,
            },
        ),
{
    match stop_reason {
        Some(s) => {
            if str_eq(s, "refusal") {
                return String::new();
            }
        },
        None => {},
    }
    match blocks {
        None => String::new(),
        Some(b) => first_text(b),
    }
}

fn first_text(b: &Vec<ReplyBlock>) -> (r: String)
    ensures
        r@ == first_text_block(b@, 0),
{
    let mut i: usize = 0;
    while i < b.len()
        invariant
            i <= b@.len(),
            first_text_block(b@, 0) == first_text_block(b@, i as int),
        decreases b@.len() - i,
    {
        let blk = &b[i];
        let is_text = match &blk.kind {
            Some(k) => str_eq(k.as_str(), "text"),
            None => false,
        };
        if is_text {
            assert(opt_view(blk.kind) == Some("text"@));
            return match &blk.text {
                Some(t) => t.clone(),
                None => String::new(),
            };
        }
        i = i + 1;
    }
    String::new()
}

/// What a finished call yields: the trimmed reply when it is not empty;
/// nothing for an empty reply or a failed call (fail-open).
pub open spec fn reply_outcome(reply: Option<Seq<char>>) -> Option<Seq<char>> {
    match reply {
        Some(t) => if crate::text::trim(t).len() == 0 {
            None
        } else {
            Some(crate::text::trim(t))
        },
        None => None,
    }
}

/// Final step of a call: `reply` is the text the API returned, `None` when
/// the call failed.
pub fn finish_reply(reply: Option<&str>) -> (r: Option<String>)
    ensures
        opt_view(r) == reply_outcome(
            match reply {
                Some(t) => Some(t@),
                None => None,
            },
        ),
{
    match reply {
        Some(t) => {
            let out = crate::text::trim_str(t);
            if out.as_str().is_empty() {
                None
            } else {
                Some(out)
            }
        },
        None => None,
    }
}

/// Whether the provider configuration is usable: an OpenAI-compatible
/// provider needs a base URL; Anthropic may take its key from the
/// environment.
pub fn configured(conf: &PolishConfig) -> (r: bool)
    ensures
        r == (conf.provider@ == "openai"@ ==> !is_blank(conf.base_url@)),
{
    if str_eq(conf.provider.as_str(), "openai") {
        !blank(conf.base_url.as_str())
    } else {
        true
    }
}

/// `r` is what [`build_request`] returns for these inputs.
pub open spec fn request_result(
    r: Result<LlmRequest, RequestError>,
    provider: Seq<char>,
    user: Seq<char>,
    conf: PolishConfig,
    system: Seq<char>,
    anthropic_base: Seq<char>,
    env_key: Seq<char>,
    models: ModelCatalog,
) -> bool {
    match r {
        Ok(req) => request_error(provider, conf, env_key) is None && request_ok(
            req,
            provider,
            user,
            conf,
            system,
            anthropic_base,
            env_key,
            models,
        ),
        Err(e) => request_error(provider, conf, env_key) == Some(e),
    }
}

/// The style a dictation is polished with: the application's style when it
/// names a known style, else `polish.style` (the default style when empty).
pub open spec fn resolved_style(
    user: Seq<(Seq<char>, Seq<char>)>,
    conf_style: Seq<char>,
    style: Option<Seq<char>>,
) -> Seq<char> {
    match style {
        Some(s) => if style_prompt(user, s) is Some {
            s
        } else if conf_style.len() == 0 {
            DEFAULT_STYLE@
        } else {
            conf_style
        },
        None => if conf_style.len() == 0 {
            DEFAULT_STYLE@
        } else {
            conf_style
        },
    }
}

/// The prompt of style `name`, falling back to the default style's prompt,
/// then to the empty text.
pub open spec fn resolved_prompt(user: Seq<(Seq<char>, Seq<char>)>, name: Seq<char>) -> Seq<char> {
    match style_prompt(user, name) {
        Some(p) => p,
        None => match style_prompt(user, DEFAULT_STYLE@) {
            Some(p) => p,
            None => Seq::empty(),
        },
    }
}

/// System prompt of a dictation polish for the application style `style`.
pub open spec fn polish_prompt_spec(s: Settings, style: Option<Seq<char>>) -> Seq<char> {
    system_prompt_spec(
        texts(s.hotwords@),
        Some(
            resolved_prompt(
                s.polish.styles@,
                resolved_style(s.polish.styles@, s.polish.style@, style),
            ),
        ),
    )
}

/// Builds the system prompt of a dictation polish.
pub fn polish_system_prompt(settings: &Settings, style: Option<&str>) -> (r: String)
    ensures
        r@ == polish_prompt_spec(
            *settings,
            match style {
                Some(s) => Some(s@),
                None => None,
            },
        ),
{
    let styles = get_styles(settings);
    let conf = &settings.polish;
    let name: String = match style {
        Some(s) => match styles.get(s) {
            Some(_) => s.to_owned(),
            None => if conf.style.as_str().is_empty() {
                DEFAULT_STYLE.to_owned()
            } else {
                conf.style.clone()
            },
        },
        None => if conf.style.as_str().is_empty() {
            DEFAULT_STYLE.to_owned()
        } else {
            conf.style.clone()
        },
    };
    let prompt: String = match styles.get(name.as_str()) {
        Some(p) => p.clone(),
        None => match styles.get(DEFAULT_STYLE) {
            Some(p) => p.clone(),
            None => String::new(),
        },
    };
    build_system_prompt(settings.hotwords.as_slice(), Some(prompt.as_str()))
}

/// The request polishing `text` would send, or `None` when polishing is off
/// or the text is blank. `anthropic_base`, `env_key` and `models` as in
/// [`build_request`].
pub fn plan_polish(
    settings: &Settings,
    text: &str,
    style: Option<&str>,
    anthropic_base: &str,
    env_key: &str,
    models: &ModelCatalog,
) -> (r: Option<Result<LlmRequest, RequestError>>)
    ensures
        r is None <==> (!settings.polish.enabled || is_blank(text@)),
        match r {
            Some(res) => request_result(
                res,
                settings.polish.provider@,
                text@,
                settings.polish,
                polish_prompt_spec(
                    *settings,
                    match style {
                        Some(s) => Some(s@),
                        None => None,
                    },
                ),
                anthropic_base@,
                env_key@,
                *models,
            ),
            None => true,
        },
{
    if !settings.polish.enabled || blank(text) {
        return None;
    }
    let system = polish_system_prompt(settings, style);
    Some(
        build_request(
            settings.polish.provider.as_str(),
            text,
            &settings.polish,
            system.as_str(),
            anthropic_base,
            env_key,
            models,
        ),
    )
}

pub const REWRITE_PROMPT: &'static str = "你是文本改写引擎。按照用户的口头指令改写给定文本，保持改写结果可以直接原地替换原文（不加解释、不加前后缀、不加引号）。指令若与文本无关或无法执行，原样输出原文。";
pub const REWRITE_HOTWORDS_HEADER: &'static str = "\n常用专有名词：";

/// System prompt of a voice rewrite: the rewrite instructions, then the
/// non-empty hotwords after a header when there are any.
pub open spec fn rewrite_prompt_spec(hotwords: Seq<Seq<char>>) -> Seq<char> {
    let words = nonempty_words(hotwords);
    if words.len() > 0 {
        REWRITE_PROMPT@ + REWRITE_HOTWORDS_HEADER@ + join(words, WORD_SEPARATOR@)
    } else {
        REWRITE_PROMPT@
    }
}

/// User message of a voice rewrite.
pub open spec fn rewrite_message_spec(selection: Seq<char>, instruction: Seq<char>) -> Seq<char> {
    "指令："@ + instruction + "\n\n待改写文本：\n"@ + selection
}

/// The request rewriting `selection` by the spoken `instruction` would
/// send, or `None` when either is blank. It does not depend on
/// `polish.enabled` (that switch is for dictation).
pub fn plan_rewrite(
    settings: &Settings,
    selection: &str,
    instruction: &str,
    anthropic_base: &str,
    env_key: &str,
    models: &ModelCatalog,
) -> (r: Option<Result<LlmRequest, RequestError>>)
    ensures
        r is None <==> (is_blank(selection@) || is_blank(instruction@)),
        match r {
            Some(res) => request_result(
                res,
                settings.polish.provider@,
                rewrite_message_spec(selection@, instruction@),
                settings.polish,
                rewrite_prompt_spec(texts(settings.hotwords@)),
                anthropic_base@,
                env_key@,
                *models,
            ),
            None => true,
        },
{
    if blank(selection) || blank(instruction) {
        return None;
    }
    let mut system = REWRITE_PROMPT.to_owned();
    let (words, count) = join_hotwords(settings.hotwords.as_slice());
    if count > 0 {
        push_text(&mut system, REWRITE_HOTWORDS_HEADER);
        push_text(&mut system, words.as_str());
    }
    let mut user = "指令：".to_owned();
    push_text(&mut user, instruction);
    push_text(&mut user, "\n\n待改写文本：\n");
    push_text(&mut user, selection);
    Some(
        build_request(
            settings.polish.provider.as_str(),
            user.as_str(),
            &settings.polish,
            system.as_str(),
            anthropic_base,
            env_key,
            models,
        ),
    )
}

} // verus!
