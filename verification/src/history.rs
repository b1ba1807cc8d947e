//! Input history: the in-memory log behind the tray's "recent" menu.
//!
//! Every delivered text is appended to `data/history.jsonl` in full; memory
//! keeps the newest `history.max_items` entries, plus running totals over
//! everything ever recorded and a version number that grows on every change
//! so the UI knows when to redraw.

use std::collections::VecDeque;
use vstd::prelude::*;
use crate::text::{blank, chars_of, is_blank};

verus! {

/// One history entry. In the jsonl file the final text's key is `final`.
pub struct HistoryEntry {
    /// Local time, `%Y-%m-%d %H:%M:%S`.
    pub ts: String,
    /// Raw transcript.
    pub raw: String,
    /// Delivered text (after replacements and polishing).
    pub final_text: String,
}

/// [`HistoryEntry`] as texts.
pub struct EntryModel {
    pub ts: Seq<char>,
    pub raw: Seq<char>,
    pub final_text: Seq<char>,
}

impl View for HistoryEntry {
    type V = EntryModel;

    open spec fn view(&self) -> EntryModel {
        EntryModel { ts: self.ts@, raw: self.raw@, final_text: self.final_text@ }
    }
}

impl HistoryEntry {
    /// A field-by-field copy.
    pub fn duplicate(&self) -> (r: HistoryEntry)
        ensures
            r@ == self@,
    {
        HistoryEntry {
            ts: self.ts.clone(),
            raw: self.raw.clone(),
            final_text: self.final_text.clone(),
        }
    }
}

/// An ASCII decimal digit.
pub open spec fn is_digit(c: char) -> bool {
    '0' <= c && c <= '9'
}

/// The year as chrono's `%Y` writes it: four digits (years 0 to 9999), else
/// a sign followed by at least four digits.
pub open spec fn year_text(y: Seq<char>) -> bool {
    ||| (y.len() == 4 && forall|i: int| 0 <= i < 4 ==> is_digit(#[trigger] y[i]))
    ||| (y.len() >= 5 && (y[0] == '+' || y[0] == '-') && forall|i: int|
        1 <= i < y.len() ==> is_digit(#[trigger] y[i]))
}

/// `YYYY-MM-DD HH:MM:SS`: the year, then two digits each for month, day,
/// hour, minute and second with their separators.
pub open spec fn timestamp_shape(t: Seq<char>) -> bool {
    let y = t.len() - 15;
    &&& t.len() >= 19
    &&& year_text(t.subrange(0, y))
    &&& t[y] == '-' && t[y + 3] == '-' && t[y + 6] == ' ' && t[y + 9] == ':' && t[y + 12] == ':'
    &&& is_digit(t[y + 1]) && is_digit(t[y + 2]) && is_digit(t[y + 4]) && is_digit(t[y + 5])
    &&& is_digit(t[y + 7]) && is_digit(t[y + 8]) && is_digit(t[y + 10]) && is_digit(t[y + 11])
    &&& is_digit(t[y + 13]) && is_digit(t[y + 14])
}

/// `chrono::Local::now().format("%Y-%m-%d %H:%M:%S")` as a string. The
/// time itself depends on the clock and the time zone and is not stated;
/// what holds of every outcome is the shape chrono writes: `%Y` is four
/// digits for years 0 to 9999 and a sign with at least four digits
/// otherwise, `%m %d %H %M %S` are two digits each.
#[verifier::external_body]
fn local_timestamp() -> (r: String)
    ensures
        timestamp_shape(r@),
{
    chrono::Local::now().format("%Y-%m-%d %H:%M:%S").to_string()
}

/// The newest `max` items of `s`.
pub open spec fn keep_last<T>(s: Seq<T>, max: nat) -> Seq<T> {
    if s.len() <= max {
        s
    } else {
        s.subrange(s.len() - max, s.len() as int)
    }
}

/// The in-memory history.
pub struct HistoryLog {
    items: VecDeque<HistoryEntry>,
    version: u64,
    total_count: u64,
    total_chars: u64,
}

/// The log as values: entries oldest first, version, totals.
pub struct LogModel {
    pub items: Seq<EntryModel>,
    pub version: u64,
    pub total_count: u64,
    pub total_chars: u64,
}

pub open spec fn entries_view(s: Seq<HistoryEntry>) -> Seq<EntryModel> {
    s.map_values(|e: HistoryEntry| e@)
}

impl View for HistoryLog {
    type V = LogModel;

    closed spec fn view(&self) -> LogModel {
        LogModel {
            items: entries_view(self.items@),
            version: self.version,
            total_count: self.total_count,
            total_chars: self.total_chars,
        }
    }
}

/// The log after recording `e`: kept when its final text is not blank and
/// history is enabled, counted in the totals, the oldest entries beyond
/// `max_items` dropped, version bumped.
pub open spec fn log_after_append(l: LogModel, enabled: bool, e: EntryModel, max_items: nat) -> LogModel {
    if !enabled || is_blank(e.final_text) {
        l
    } else {
        LogModel {
            items: keep_last(l.items.push(e), max_items),
            version: (l.version + 1) as u64,
            total_count: (l.total_count + 1) as u64,
            total_chars: (l.total_chars + e.final_text.len()) as u64,
        }
    }
}

/// Room in the counters for one more entry with `chars` characters.
pub open spec fn room_for(l: LogModel, chars: nat) -> bool {
    l.version < u64::MAX && l.total_count < u64::MAX && l.total_chars + chars <= u64::MAX
}

/// The log after loading entries from the file: each counted and kept (the
/// newest `max_items`), then one version bump.
pub open spec fn log_after_load(l: LogModel, entries: Seq<EntryModel>, max_items: nat) -> LogModel
    decreases entries.len(),
{
    if entries.len() == 0 {
        LogModel { version: (l.version + 1) as u64, ..l }
    } else {
        let before = log_after_load_items(l, entries.drop_last(), max_items);
        let e = entries.last();
        LogModel {
            items: keep_last(before.items.push(e), max_items),
            total_count: (before.total_count + 1) as u64,
            total_chars: (before.total_chars + e.final_text.len()) as u64,
            version: (l.version + 1) as u64,
            ..before
        }
    }
}

/// Loading without the final version bump.
pub open spec fn log_after_load_items(l: LogModel, entries: Seq<EntryModel>, max_items: nat) -> LogModel
    decreases entries.len(),
{
    if entries.len() == 0 {
        l
    } else {
        let before = log_after_load_items(l, entries.drop_last(), max_items);
        let e = entries.last();
        LogModel {
            items: keep_last(before.items.push(e), max_items),
            total_count: (before.total_count + 1) as u64,
            total_chars: (before.total_chars + e.final_text.len()) as u64,
            ..before
        }
    }
}

/// The newest `n` entries, newest first.
pub open spec fn recent_spec(items: Seq<EntryModel>, n: nat) -> Seq<EntryModel> {
    let k = if n < items.len() {
        n
    } else {
        items.len()
    };
    Seq::new(k, |i: int| items[items.len() - 1 - i])
}

/// Number of characters of a text, as a counter increment.
fn char_count(s: &str) -> (r: u64)
    requires
        s@.len() <= u64::MAX,
    ensures
        r == s@.len(),
{
    let v = chars_of(s);
    v.len() as u64
}

impl HistoryLog {
    /// An empty log.
    pub fn new() -> (r: HistoryLog)
        ensures
            r@ == (LogModel {
                items: Seq::empty(),
                version: 0,
                total_count: 0,
                total_chars: 0,
            }),
    {
        let r = HistoryLog { items: VecDeque::new(), version: 0, total_count: 0, total_chars: 0 };
        assert(entries_view(r.items@) =~= Seq::<EntryModel>::empty());
        r
    }

    /// Drops the oldest entries beyond `max_items`.
    fn roll(&mut self, max_items: usize)
        ensures
            final(self)@ == (LogModel { items: keep_last(old(self)@.items, max_items as nat), ..old(self)@ }),
    {
        let ghost start = self.items@;
        while self.items.len() > max_items
            invariant
                start.len() >= self.items@.len(),
                self.items@ == start.subrange(start.len() - self.items@.len(), start.len() as int),
                self.items@.len() >= max_items || start.len() <= max_items,
                start.len() <= max_items ==> self.items@.len() == start.len(),
                self.version == old(self).version,
                self.total_count == old(self).total_count,
                self.total_chars == old(self).total_chars,
                start == old(self).items@,
            decreases self.items@.len(),
        {
            let ghost before = self.items@;
            self.items.pop_front();
            assert(self.items@ =~= start.subrange(start.len() - self.items@.len(), start.len() as int));
        }
        proof {
            if start.len() <= max_items {
                assert(self.items@ =~= start);
            }
            assert(entries_view(self.items@) =~= keep_last(entries_view(start), max_items as nat));
        }
    }

    /// Records an entry stamped `ts`; ignored when history is off or the
    /// final text is blank. Returns the entry to write to the file.
    pub fn append_at(
        &mut self,
        enabled: bool,
        ts: String,
        raw: &str,
        final_text: &str,
        max_items: usize,
    ) -> (r: Option<HistoryEntry>)
        requires
            enabled && !is_blank(final_text@) ==> room_for(old(self)@, final_text@.len()),
        ensures
            final(self)@ == log_after_append(
                old(self)@,
                enabled,
                EntryModel { ts: ts@, raw: raw@, final_text: final_text@ },
                max_items as nat,
            ),
            match r {
                Some(e) => enabled && !is_blank(final_text@) && e@ == (EntryModel {
                    ts: ts@,
                    raw: raw@,
                    final_text: final_text@,
                }),
                None => !enabled || is_blank(final_text@),
            },
    {
        if !enabled || blank(final_text) {
            return None;
        }
        let entry = HistoryEntry { ts, raw: raw.to_owned(), final_text: final_text.to_owned() };
        let chars = char_count(final_text);
        let ghost before = self@;
        self.items.push_back(entry.duplicate());
        assert(entries_view(self.items@) =~= before.items.push(entry@));
        self.roll(max_items);
        self.total_count = self.total_count + 1;
        self.total_chars = self.total_chars + chars;
        self.version = self.version + 1;
        Some(entry)
    }

    /// Records an entry stamped with the local time now.
    pub fn append(&mut self, enabled: bool, raw: &str, final_text: &str, max_items: usize) -> (r:
        Option<HistoryEntry>)
        requires
            enabled && !is_blank(final_text@) ==> room_for(old(self)@, final_text@.len()),
        ensures
            match r {
                Some(e) => enabled && !is_blank(final_text@) && e@.raw == raw@ && e@.final_text
                    == final_text@ && timestamp_shape(e@.ts) && final(self)@ == log_after_append(
                    old(self)@,
                    enabled,
                    e@,
                    max_items as nat,
                ),
                None => (!enabled || is_blank(final_text@)) && final(self)@ == old(self)@,
            },
    {
        if !enabled || blank(final_text) {
            return None;
        }
        let ts = local_timestamp();
        self.append_at(enabled, ts, raw, final_text, max_items)
    }

    /// Takes in the entries read from the file, oldest first: each is
    /// counted, the newest `max_items` are kept, and the version grows once.
    pub fn load(&mut self, entries: &Vec<HistoryEntry>, max_items: usize)
        requires
            old(self)@.version < u64::MAX,
            old(self)@.total_count + entries@.len() <= u64::MAX,
            old(self)@.total_chars + total_len(entries_view(entries@)) <= u64::MAX,
        ensures
            final(self)@ == log_after_load(old(self)@, entries_view(entries@), max_items as nat),
    {
        let ghost start = self@;
        let ghost ev = entries_view(entries@);
        let mut i: usize = 0;
        while i < entries.len()
            invariant
                ev == entries_view(entries@),
                i <= entries@.len(),
                self@ == log_after_load_items(start, ev.subrange(0, i as int), max_items as nat),
                self@.version == start.version,
                self@.total_count == start.total_count + i,
                self@.total_chars == start.total_chars + total_len(ev.subrange(0, i as int)),
                start.total_count + entries@.len() <= u64::MAX,
                start.total_chars + total_len(ev) <= u64::MAX,
                start.version < u64::MAX,
            decreases entries@.len() - i,
        {
            let e = &entries[i];
            proof {
                lemma_total_len_prefix(ev, i as int + 1);
                assert(ev.subrange(0, i + 1).drop_last() =~= ev.subrange(0, i as int));
                assert(ev.subrange(0, i + 1).last() == e@);
            }
            let chars = char_count(e.final_text.as_str());
            let ghost before = self@;
            self.items.push_back(e.duplicate());
            assert(entries_view(self.items@) =~= before.items.push(e@));
            self.roll(max_items);
            self.total_count = self.total_count + 1;
            self.total_chars = self.total_chars + chars;
            i = i + 1;
        }
        assert(ev.subrange(0, entries@.len() as int) =~= ev);
        proof {
            lemma_load_items_version(start, ev, max_items as nat);
        }
        self.version = self.version + 1;
    }

    /// The newest `n` entries, newest first.
    pub fn recent(&self, n: usize) -> (r: Vec<HistoryEntry>)
        ensures
            entries_view(r@) == recent_spec(self@.items, n as nat),
    {
        let len = self.items.len();
        let k = if n < len {
            n
        } else {
            len
        };
        let mut out: Vec<HistoryEntry> = Vec::new();
        let mut i: usize = 0;
        while i < k
            invariant
                len == self.items@.len(),
                k <= len,
                i <= k,
                k == (if n < len { n } else { len }),
                entries_view(out@) == Seq::new(
                    i as nat,
                    |j: int| entries_view(self.items@)[len - 1 - j],
                ),
            decreases k - i,
        {
            let e = &self.items[len - 1 - i];
            assert(e@ == entries_view(self.items@)[len - 1 - i]);
            let ghost before = out@;
            let d = e.duplicate();
            out.push(d);
            assert(entries_view(out@) =~= entries_view(before).push(d@));
            assert(entries_view(out@) =~= Seq::new(
                (i + 1) as nat,
                |j: int| entries_view(self.items@)[len - 1 - j],
            ));
            i = i + 1;
        }
        assert(entries_view(out@) =~= recent_spec(self@.items, n as nat));
        out
    }

    /// Entries recorded ever (also those rolled out of memory).
    pub fn total_count(&self) -> (r: u64)
        ensures
            r == self@.total_count,
    {
        self.total_count
    }

    /// Characters delivered ever, counted in Unicode scalar values.
    pub fn total_chars(&self) -> (r: u64)
        ensures
            r == self@.total_chars,
    {
        self.total_chars
    }

    /// Grows on every change; the UI redraws when it differs.
    pub fn version(&self) -> (r: u64)
        ensures
            r == self@.version,
    {
        self.version
    }
}

/// Total characters of the final texts.
pub open spec fn total_len(s: Seq<EntryModel>) -> nat
    decreases s.len(),
{
    if s.len() == 0 {
        0
    } else {
        total_len(s.drop_last()) + s.last().final_text.len()
    }
}

proof fn lemma_total_len_prefix(s: Seq<EntryModel>, i: int)
    requires
        0 <= i <= s.len(),
    ensures
        total_len(s.subrange(0, i)) <= total_len(s),
    decreases s.len() - i,
{
    if i < s.len() {
        lemma_total_len_prefix(s, i + 1);
        assert(s.subrange(0, i + 1).drop_last() =~= s.subrange(0, i));
    } else {
        assert(s.subrange(0, i) =~= s);
    }
}

proof fn lemma_load_items_version(l: LogModel, entries: Seq<EntryModel>, max: nat)
    ensures
        log_after_load(l, entries, max) == (LogModel {
            version: (l.version + 1) as u64,
            ..log_after_load_items(l, entries, max)
        }),
{
}

} // verus!
