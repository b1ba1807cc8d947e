//! Platform decisions that do not need the system: the application name
//! taken from a process image path, and the Windows sound aliases and
//! settings pages.

use vstd::prelude::*;
use crate::text::{chars_of, string_of_range};
use crate::types::{FrontmostApp, PrivacySection, SoundEvent};

verus! {

/// Start of the file name: just after the last '\\' or '/'.
pub open spec fn file_name_start(p: Seq<char>) -> int
    decreases p.len(),
{
    if p.len() == 0 {
        0
    } else if p.last() == '\\' || p.last() == '/' {
        p.len() as int
    } else {
        file_name_start(p.drop_last())
    }
}

/// End of the stem: the last '.' of the file name unless it is the first
/// character (".bashrc" keeps its name), else the whole name.
pub open spec fn stem_end(f: Seq<char>) -> int
    decreases f.len(),
{
    if f.len() == 0 {
        0
    } else if f.last() == '.' && f.len() > 1 {
        f.len() - 1
    } else if f.len() == 1 {
        1
    } else {
        let e = stem_end(f.drop_last());
        if e == f.len() - 1 {
            f.len() as int
        } else {
            e
        }
    }
}

proof fn lemma_file_name_start_bounds(p: Seq<char>)
    ensures
        0 <= file_name_start(p) <= p.len(),
    decreases p.len(),
{
    if p.len() > 0 {
        lemma_file_name_start_bounds(p.drop_last());
    }
}

proof fn lemma_stem_end_bounds(f: Seq<char>)
    ensures
        0 <= stem_end(f) <= f.len(),
        f.len() > 0 ==> stem_end(f) > 0,
    decreases f.len(),
{
    if f.len() > 1 {
        lemma_stem_end_bounds(f.drop_last());
    }
}

/// The executable name, without directories and extension, of a process
/// image path; the frontmost application's name and identifier on Windows.
pub open spec fn exe_name_spec(full: Seq<char>) -> Seq<char> {
    let f = full.subrange(file_name_start(full), full.len() as int);
    f.subrange(0, stem_end(f))
}

fn file_name_start_exec(v: &Vec<char>) -> (r: usize)
    ensures
        r == file_name_start(v@),
{
    let mut k: usize = v.len();
    assert(v@.subrange(0, v@.len() as int) =~= v@);
    while k > 0 && v[k - 1] != '\\' && v[k - 1] != '/'
        invariant
            k <= v@.len(),
            file_name_start(v@) == file_name_start(v@.subrange(0, k as int)),
        decreases k,
    {
        assert(v@.subrange(0, k as int).drop_last() =~= v@.subrange(0, k - 1));
        k = k - 1;
    }
    assert(v@.subrange(0, v@.len() as int) =~= v@);
    if k > 0 {
        assert(v@.subrange(0, k as int).last() == v@[k - 1]);
    }
    k
}

/// The stem end, searching backwards for the last '.'.
fn stem_end_exec(f: &Vec<char>, from: usize) -> (r: usize)
    requires
        from <= f@.len(),
    ensures
        r - from == stem_end(f@.subrange(from as int, f@.len() as int)),
{
    let n = f.len();
    let ghost g = f@.subrange(from as int, n as int);
    let mut k: usize = n;
    while k > from && !(f[k - 1] == '.' && k - 1 > from)
        invariant
            from <= k <= n,
            n == f@.len(),
            g == f@.subrange(from as int, n as int),
            forall|j: int| k <= j < n ==> !(#[trigger] f@[j] == '.' && j > from),
        decreases k,
    {
        k = k - 1;
    }
    proof {
        let kk = (k - from) as int;
        assert forall|j: int| kk <= j < g.len() implies !(#[trigger] g[j] == '.' && j > 0) by {
            assert(g[j] == f@[from + j]);
        }
        if kk > 0 {
            assert(g[kk - 1] == f@[k - 1]);
        }
        lemma_stem_from(g, kk);
    }
    if k > from {
        k - 1
    } else {
        n
    }
}

proof fn lemma_stem_from(g: Seq<char>, k: int)
    requires
        0 <= k <= g.len(),
        forall|j: int| k <= j < g.len() ==> !(#[trigger] g[j] == '.' && j > 0),
        k > 0 ==> g[k - 1] == '.' && k - 1 > 0,
    ensures
        stem_end(g) == (if k > 0 {
            k - 1
        } else {
            g.len() as int
        }),
    decreases g.len(),
{
    if g.len() == 0 {
    } else if g.len() == 1 {
    } else if g.last() == '.' {
        assert(k == g.len());
    } else {
        let h = g.drop_last();
        if k == g.len() {
            assert(false);
        }
        assert forall|j: int| k <= j < h.len() implies !(#[trigger] h[j] == '.' && j > 0) by {
            assert(h[j] == g[j]);
        }
        if k > 0 {
            assert(h[k - 1] == g[k - 1]);
        }
        lemma_stem_from(h, k);
    }
}

/// The frontmost application of Windows, named by its executable.
pub fn app_from_image_path(full: &str) -> (r: FrontmostApp)
    ensures
        r.name@ == exe_name_spec(full@),
        r.id@ == exe_name_spec(full@),
{
    let v = chars_of(full);
    let start = file_name_start_exec(&v);
    proof {
        lemma_file_name_start_bounds(v@);
    }
    let end = stem_end_exec(&v, start);
    proof {
        lemma_stem_end_bounds(v@.subrange(start as int, v@.len() as int));
        assert(v@.subrange(start as int, end as int) =~= v@.subrange(start as int, v@.len() as int).subrange(
            0,
            end - start,
        ));
    }
    let name = string_of_range(&v, start, end);
    let id = string_of_range(&v, start, end);
    FrontmostApp { name, id }
}

/// Windows sound aliases of the feedback sounds.
pub fn sound_alias(event: SoundEvent) -> (r: &'static str)
    ensures
        r@ == (match event {
            SoundEvent::Start => "SystemAsterisk"@,
            SoundEvent::Stop => "SystemDefault"@,
            SoundEvent::Cancel => "SystemHand"@,
        }),
{
    match event {
        SoundEvent::Start => "SystemAsterisk",
        SoundEvent::Stop => "SystemDefault",
        SoundEvent::Cancel => "SystemHand",
    }
}

/// The Windows settings page of a privacy pane.
pub fn privacy_uri(section: PrivacySection) -> (r: &'static str)
    ensures
        r@ == (match section {
            PrivacySection::Microphone => "ms-settings:privacy-microphone"@,
            _ => "ms-settings:privacy"@,
        }),
{
    match section {
        PrivacySection::Microphone => "ms-settings:privacy-microphone",
        _ => "ms-settings:privacy",
    }
}

} // verus!
