use xiaodao_core::history::HistoryLog;
use xiaodao_core::model_download::{
    download_plan, TransferCounter, TransferError, HF_MIRROR, HF_OFFICIAL, MIN_MODEL_BYTES,
};

const MB: u64 = 1024 * 1024;

#[test]
fn progress_reports_increase_and_end_at_total() {
    let total = 3 * MB + 10;
    let mut c = TransferCounter::new(Some(total));
    let mut reports = Vec::new();
    for n in [MB / 2, MB / 2, 5, MB, MB - 5, 10] {
        if let Some(r) = c.on_chunk(n) {
            reports.push(r);
        }
    }
    assert_eq!(c.downloaded(), total);
    if let Some(r) = c.finish().unwrap() {
        reports.push(r);
    }
    assert!(reports.windows(2).all(|w| w[0] < w[1]));
    assert_eq!(*reports.last().unwrap(), total);
    // 1% of the total is 31457 bytes: the first half megabyte is reported.
    assert_eq!(reports[0], MB / 2);
}

#[test]
fn final_report_not_repeated() {
    let mut c = TransferCounter::new(None);
    assert_eq!(c.on_chunk(2 * MB), Some(2 * MB));
    assert_eq!(c.finish(), Ok(None));
}

#[test]
fn rejected_transfers() {
    let mut small = TransferCounter::new(None);
    small.on_chunk(16);
    assert_eq!(small.finish(), Err(TransferError::TooSmall));
    let mut short = TransferCounter::new(Some(5 * MB));
    short.on_chunk(2 * MB);
    assert_eq!(short.finish(), Err(TransferError::Incomplete));
    assert_eq!(short.downloaded(), 2 * MB);
    assert_eq!(short.total(), Some(5 * MB));
}

#[test]
fn plan_skips_usable_model() {
    assert_eq!(download_plan(Some((true, MIN_MODEL_BYTES + 1)), None, "r", "f"), None);
    let urls = download_plan(Some((true, MIN_MODEL_BYTES)), None, "r", "f").unwrap();
    assert_eq!(
        urls,
        vec![format!("{HF_OFFICIAL}/r/resolve/main/f"), format!("{HF_MIRROR}/r/resolve/main/f")]
    );
    assert_eq!(download_plan(Some((false, 5 * MB)), None, "r", "f").map(|u| u.len()), Some(2));
    let urls = download_plan(None, Some("http://my.hub/"), "r", "f").unwrap();
    assert_eq!(urls[0], "http://my.hub/r/resolve/main/f");
    assert_eq!(urls.len(), 3);
}

#[test]
fn history_stamp_shape() {
    let mut h = HistoryLog::new();
    let e = h.append(true, "r", "f", 10).unwrap();
    let ts: Vec<char> = e.ts.chars().collect();
    assert_eq!(ts.len(), 19);
    for (i, c) in ts.iter().enumerate() {
        match i {
            4 | 7 => assert_eq!(*c, '-'),
            10 => assert_eq!(*c, ' '),
            13 | 16 => assert_eq!(*c, ':'),
            _ => assert!(c.is_ascii_digit()),
        }
    }
}
