//! First-run model download: which sources to try and in what order, when
//! to report progress, and when a download counts as complete.
//!
//! Sources: `HF_ENDPOINT` when set, then huggingface.co, then the
//! hf-mirror.com mirror; a default equal to the custom endpoint (ignoring
//! trailing '/') is not queued twice. A download goes to `<file>.part` and is
//! renamed when complete, so no partial model is ever left in place.

use vstd::prelude::*;
use crate::text::{push_text, strip_trailing, strip_trailing_str, str_eq, trim, trim_str};

verus! {

/// Smallest size of a model file that counts as downloaded; anything
/// smaller is most likely a partial file or an error page.
pub const MIN_MODEL_BYTES: u64 = 1024 * 1024;
/// Progress is reported at least every this many bytes (or every 1%).
pub const PROGRESS_MIN_BYTES: u64 = 1024 * 1024;
/// Connection timeout (s).
pub const CONNECT_TIMEOUT_SECS: u64 = 15;
/// A read that stalls this long fails the source (s).
pub const STALL_TIMEOUT_SECS: u64 = 60;
/// Read buffer size.
pub const READ_BUF_BYTES: usize = 64 * 1024;

pub const DEFAULT_REPO: &'static str = "handy-computer/SenseVoiceSmall-gguf";
pub const DEFAULT_FILENAME: &'static str = "SenseVoiceSmall-Q8_0.gguf";
pub const HF_OFFICIAL: &'static str = "https://huggingface.co";
pub const HF_MIRROR: &'static str = "https://hf-mirror.com";

/// Download progress; `total` is `None` without a Content-Length.
pub struct Progress {
    pub downloaded: u64,
    pub total: Option<u64>,
    pub source: String,
}

/// Two endpoints name the same site when they agree without trailing '/'.
pub open spec fn same_site(a: Seq<char>, b: Seq<char>) -> bool {
    strip_trailing(a, '/') == strip_trailing(b, '/')
}

/// The custom endpoint, trimmed, when it is set and not blank.
pub open spec fn custom_endpoints(hf_endpoint: Option<Seq<char>>) -> Seq<Seq<char>> {
    match hf_endpoint {
        Some(v) => if trim(v).len() > 0 {
            seq![trim(v)]
        } else {
            seq![]
        },
        None => seq![],
    }
}

/// `list` with the default source `d` appended unless the same site is
/// already listed.
pub open spec fn add_default(list: Seq<Seq<char>>, d: Seq<char>) -> Seq<Seq<char>> {
    if exists|i: int| 0 <= i < list.len() && same_site(#[trigger] list[i], d) {
        list
    } else {
        list.push(d)
    }
}

/// Sources to try, in order.
pub open spec fn endpoints_spec(hf_endpoint: Option<Seq<char>>) -> Seq<Seq<char>> {
    add_default(add_default(custom_endpoints(hf_endpoint), HF_OFFICIAL@), HF_MIRROR@)
}

fn same_site_exec(a: &str, b: &str) -> (r: bool)
    ensures
        r == same_site(a@, b@),
{
    let x = strip_trailing_str(a, '/');
    let y = strip_trailing_str(b, '/');
    str_eq(x.as_str(), y.as_str())
}

fn push_unless_listed(list: &mut Vec<String>, d: &str)
    ensures
        crate::polisher::texts(final(list)@) == add_default(crate::polisher::texts(old(list)@), d@),
{
    let ghost start = crate::polisher::texts(list@);
    let mut dup = false;
    let mut i: usize = 0;
    while i < list.len()
        invariant
            start == crate::polisher::texts(list@),
            i <= list@.len(),
            dup == (exists|j: int| 0 <= j < i && same_site(#[trigger] start[j], d@)),
        decreases list@.len() - i,
    {
        let hit = same_site_exec(list[i].as_str(), d);
        proof {
            assert(start[i as int] == list@[i as int]@);
            if !dup && !hit {
                assert forall|j: int| 0 <= j < i + 1 implies !same_site(#[trigger] start[j], d@) by {}
            }
        }
        if hit {
            dup = true;
        }
        i = i + 1;
    }
    if !dup {
        list.push(d.to_owned());
        assert(crate::polisher::texts(list@) =~= start.push(d@));
    }
}

/// The candidate sources: `HF_ENDPOINT` (trimmed) first when set, then the
/// official site, then the mirror, each default skipped when already listed.
pub fn endpoints(hf_endpoint: Option<&str>) -> (r: Vec<String>)
    ensures
        crate::polisher::texts(r@) == endpoints_spec(
            match hf_endpoint {
                Some(v) => Some(v@),
                None => None,
            },
        ),
{
    let mut list: Vec<String> = Vec::new();
    match hf_endpoint {
        Some(v) => {
            let t = trim_str(v);
            if !t.as_str().is_empty() {
                list.push(t);
            }
        },
        None => {},
    }
    assert(crate::polisher::texts(list@) =~= custom_endpoints(
        match hf_endpoint {
            Some(v) => Some(v@),
            None => None,
        },
    ));
    push_unless_listed(&mut list, HF_OFFICIAL);
    push_unless_listed(&mut list, HF_MIRROR);
    list
}

/// The download URL of `filename` in `repo` on site `base`.
pub open spec fn model_url_spec(base: Seq<char>, repo: Seq<char>, filename: Seq<char>) -> Seq<char> {
    strip_trailing(base, '/') + "/"@ + repo + "/resolve/main/"@ + filename
}

pub fn model_url(base: &str, repo: &str, filename: &str) -> (r: String)
    ensures
        r@ == model_url_spec(base@, repo@, filename@),
{
    let mut url = strip_trailing_str(base, '/');
    push_text(&mut url, "/");
    push_text(&mut url, repo);
    push_text(&mut url, "/resolve/main/");
    push_text(&mut url, filename);
    url
}

/// The URLs to try, in source order.
pub fn model_urls(hf_endpoint: Option<&str>, repo: &str, filename: &str) -> (r: Vec<String>)
    ensures
        r@.len() == endpoints_spec(
            match hf_endpoint {
                Some(v) => Some(v@),
                None => None,
            },
        ).len(),
        forall|i: int|
            0 <= i < r@.len() ==> (#[trigger] r@[i])@ == model_url_spec(
                endpoints_spec(
                    match hf_endpoint {
                        Some(v) => Some(v@),
                        None => None,
                    },
                )[i],
                repo@,
                filename@,
            ),
{
    let bases = endpoints(hf_endpoint);
    let mut urls: Vec<String> = Vec::new();
    let mut i: usize = 0;
    while i < bases.len()
        invariant
            i <= bases@.len(),
            urls@.len() == i,
            forall|j: int|
                0 <= j < i ==> (#[trigger] urls@[j])@ == model_url_spec(
                    bases@[j]@,
                    repo@,
                    filename@,
                ),
        decreases bases@.len() - i,
    {
        urls.push(model_url(bases[i].as_str(), repo, filename));
        i = i + 1;
    }
    proof {
        assert forall|j: int| 0 <= j < urls@.len() implies bases@[j]@ == crate::polisher::texts(
            bases@,
        )[j] by {}
    }
    urls
}

/// An existing model file is used as is when it is a file larger than
/// [`MIN_MODEL_BYTES`].
pub fn existing_model_usable(is_file: bool, len: u64) -> (r: bool)
    ensures
        r == (is_file && len > MIN_MODEL_BYTES),
{
    is_file && len > MIN_MODEL_BYTES
}

/// What making sure the model is in place does: nothing when the existing
/// file (`Some((is_file, len))`, `None` when there is none) is usable,
/// else download from the sources of [`model_urls`], in order.
pub fn download_plan(
    existing: Option<(bool, u64)>,
    hf_endpoint: Option<&str>,
    repo: &str,
    filename: &str,
) -> (r: Option<Vec<String>>)
    ensures
        r is None <==> (match existing {
            Some((is_file, len)) => is_file && len > MIN_MODEL_BYTES,
            None => false,
        }),
        match r {
            Some(urls) => {
                let bases = endpoints_spec(
                    match hf_endpoint {
                        Some(v) => Some(v@),
                        None => None,
                    },
                );
                &&& urls@.len() == bases.len()
                &&& forall|i: int|
                    0 <= i < urls@.len() ==> (#[trigger] urls@[i])@ == model_url_spec(
                        bases[i],
                        repo@,
                        filename@,
                    )
            },
            None => true,
        },
{
    match existing {
        Some((is_file, len)) => if existing_model_usable(is_file, len) {
            return None;
        },
        None => {},
    }
    Some(model_urls(hf_endpoint, repo, filename))
}

/// The temporary file a download is written to.
pub fn part_path(dest: &str) -> (r: String)
    ensures
        r@ == dest@ + ".part"@,
{
    let mut p = dest.to_owned();
    push_text(&mut p, ".part");
    p
}

/// Report progress after at least 1 MB, or 1% of a known non-zero total,
/// since the last report.
pub open spec fn should_report_spec(downloaded: u64, reported: u64, total: Option<u64>) -> bool {
    let delta = downloaded - reported;
    delta >= PROGRESS_MIN_BYTES || (match total {
        Some(t) => t > 0 && delta >= t / 100,
        None => false,
    })
}

pub fn should_report(downloaded: u64, reported: u64, total: Option<u64>) -> (r: bool)
    requires
        reported <= downloaded,
    ensures
        r == should_report_spec(downloaded, reported, total),
{
    let delta = downloaded - reported;
    delta >= PROGRESS_MIN_BYTES || match total {
        Some(t) => t > 0 && delta >= t / 100,
        None => false,
    }
}

/// Why a finished transfer is rejected.
#[derive(Debug, Clone, Copy, PartialEq, Eq, Structural)]
pub enum TransferError {
    /// Less than [`MIN_MODEL_BYTES`]: an error page rather than a model.
    TooSmall,
    /// Fewer or more bytes than the announced length.
    Incomplete,
}

/// A finished transfer of `downloaded` bytes checked against the announced
/// length.
pub open spec fn check_transfer_spec(downloaded: u64, total: Option<u64>) -> Result<(), TransferError> {
    if downloaded < MIN_MODEL_BYTES {
        Err(TransferError::TooSmall)
    } else {
        match total {
            Some(t) => if t != downloaded {
                Err(TransferError::Incomplete)
            } else {
                Ok(())
            },
            None => Ok(()),
        }
    }
}

/// Checks a finished transfer of `downloaded` bytes against the announced
/// length.
pub fn check_transfer(downloaded: u64, total: Option<u64>) -> (r: Result<(), TransferError>)
    ensures
        r == check_transfer_spec(downloaded, total),
{
    if downloaded < MIN_MODEL_BYTES {
        return Err(TransferError::TooSmall);
    }
    match total {
        Some(t) => if t != downloaded {
            Err(TransferError::Incomplete)
        } else {
            Ok(())
        },
        None => Ok(()),
    }
}

/// After a complete transfer, a last report is due when the final count was
/// not reported yet.
pub fn needs_final_report(downloaded: u64, reported: u64) -> (r: bool)
    ensures
        r == (reported != downloaded),
{
    reported != downloaded
}

/// The counters of one transfer: bytes received, the count last reported
/// (0 before the first report), the announced length, and every count
/// reported so far.
pub struct TransferModel {
    pub downloaded: u64,
    pub reported: u64,
    pub total: Option<u64>,
    pub reports: Seq<u64>,
}

/// Every report is larger than the one before it.
pub open spec fn strictly_increasing(s: Seq<u64>) -> bool {
    forall|i: int, j: int| 0 <= i < j < s.len() ==> s[i] < s[j]
}

/// What holds of the counters throughout a transfer: the reported counts
/// strictly increase, the last of them is the reported count, and nothing
/// beyond the bytes received was reported.
pub open spec fn counter_wf(m: TransferModel) -> bool {
    &&& strictly_increasing(m.reports)
    &&& m.reported <= m.downloaded
    &&& if m.reports.len() == 0 {
        m.reported == 0
    } else {
        m.reports.last() == m.reported
    }
}

/// The byte counter of one transfer and the progress it reports.
pub struct TransferCounter {
    downloaded: u64,
    reported: u64,
    total: Option<u64>,
    reports: Ghost<Seq<u64>>,
}

impl View for TransferCounter {
    type V = TransferModel;

    closed spec fn view(&self) -> TransferModel {
        TransferModel {
            downloaded: self.downloaded,
            reported: self.reported,
            total: self.total,
            reports: self.reports@,
        }
    }
}

impl TransferCounter {
    #[verifier::type_invariant]
    spec fn inv(self) -> bool {
        counter_wf(self@)
    }

    /// A transfer that has received nothing; `total` is the announced
    /// length.
    pub fn new(total: Option<u64>) -> (r: TransferCounter)
        ensures
            r@ == (TransferModel { downloaded: 0, reported: 0, total, reports: Seq::empty() }),
            counter_wf(r@),
    {
        TransferCounter { downloaded: 0, reported: 0, total, reports: Ghost(Seq::empty()) }
    }

    /// Bytes received so far.
    pub fn downloaded(&self) -> (r: u64)
        ensures
            r == self@.downloaded,
    {
        self.downloaded
    }

    /// The announced length.
    pub fn total(&self) -> (r: Option<u64>)
        ensures
            r == self@.total,
    {
        self.total
    }

    /// Counts a chunk of `n` bytes; the count to report now, if any
    /// ([`should_report`]).
    pub fn on_chunk(&mut self, n: u64) -> (r: Option<u64>)
        requires
            n > 0,
            old(self)@.downloaded + n <= u64::MAX,
        ensures
            final(self)@.downloaded == old(self)@.downloaded + n,
            final(self)@.total == old(self)@.total,
            if should_report_spec(
                final(self)@.downloaded,
                old(self)@.reported,
                old(self)@.total,
            ) {
                &&& r == Some(final(self)@.downloaded)
                &&& final(self)@.reported == final(self)@.downloaded
                &&& final(self)@.reports == old(self)@.reports.push(final(self)@.downloaded)
            } else {
                &&& r is None
                &&& final(self)@.reported == old(self)@.reported
                &&& final(self)@.reports == old(self)@.reports
            },
            counter_wf(final(self)@),
    {
        proof {
            use_type_invariant(&*self);
        }
        let downloaded = self.downloaded + n;
        if should_report(downloaded, self.reported, self.total) {
            let ghost reports = self.reports@.push(downloaded);
            *self = TransferCounter {
                downloaded,
                reported: downloaded,
                total: self.total,
                reports: Ghost(reports),
            };
            Some(downloaded)
        } else {
            let ghost reports = self.reports@;
            *self = TransferCounter {
                downloaded,
                reported: self.reported,
                total: self.total,
                reports: Ghost(reports),
            };
            None
        }
    }

    /// Ends the transfer: rejected as [`check_transfer`] says; when it is
    /// accepted, the final count is reported unless it already was. After an
    /// accepted transfer the last report is the number of bytes received.
    pub fn finish(&mut self) -> (r: Result<Option<u64>, TransferError>)
        ensures
            match check_transfer_spec(old(self)@.downloaded, old(self)@.total) {
                Err(e) => r == Err::<Option<u64>, TransferError>(e) && final(self)@ == old(self)@,
                Ok(_) => {
                    &&& final(self)@.downloaded == old(self)@.downloaded
                    &&& final(self)@.total == old(self)@.total
                    &&& if old(self)@.reported != old(self)@.downloaded {
                        &&& r == Ok::<Option<u64>, TransferError>(Some(old(self)@.downloaded))
                        &&& final(self)@.reports == old(self)@.reports.push(old(self)@.downloaded)
                    } else {
                        &&& r == Ok::<Option<u64>, TransferError>(None)
                        &&& final(self)@.reports == old(self)@.reports
                    }
                    &&& final(self)@.reports.len() > 0
                    &&& final(self)@.reports.last() == final(self)@.downloaded
                },
            },
            counter_wf(final(self)@),
    {
        proof {
            use_type_invariant(&*self);
        }
        match check_transfer(self.downloaded, self.total) {
            Err(e) => Err(e),
            Ok(()) => {
                if needs_final_report(self.downloaded, self.reported) {
                    let ghost reports = self.reports@.push(self.downloaded);
                    *self = TransferCounter {
                        downloaded: self.downloaded,
                        reported: self.downloaded,
                        total: self.total,
                        reports: Ghost(reports),
                    };
                    Ok(Some(self.downloaded))
                } else {
                    Ok(None)
                }
            },
        }
    }
}

/// What the fallback loop does after trying source `index` of `count`.
#[derive(Debug, Clone, Copy, PartialEq, Eq, Structural)]
pub enum FallbackStep {
    /// The model is in place.
    Done,
    /// Try the source at this index.
    Try(usize),
    /// Every source failed; report the last error.
    GiveUp,
}

/// First step of the fallback loop over `count` sources.
pub fn first_source(count: usize) -> (r: FallbackStep)
    ensures
        r == (if count == 0 {
            FallbackStep::GiveUp
        } else {
            FallbackStep::Try(0)
        }),
{
    if count == 0 {
        FallbackStep::GiveUp
    } else {
        FallbackStep::Try(0)
    }
}

/// The sources are tried in order until one succeeds.
pub fn after_attempt(index: usize, succeeded: bool, count: usize) -> (r: FallbackStep)
    requires
        index < count,
    ensures
        r == (if succeeded {
            FallbackStep::Done
        } else if index + 1 < count {
            FallbackStep::Try((index + 1) as usize)
        } else {
            FallbackStep::GiveUp
        }),
{
    if succeeded {
        FallbackStep::Done
    } else if index + 1 < count {
        FallbackStep::Try(index + 1)
    } else {
        FallbackStep::GiveUp
    }
}

} // verus!
