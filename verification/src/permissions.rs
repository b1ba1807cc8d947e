//! Privacy permissions (input monitoring, accessibility): what is missing,
//! what the tray and the notification say about it, and how the first
//! keyboard event corrects a false alarm.

use vstd::prelude::*;
use crate::text::{push_text, str_eq};
use crate::types::{Permissions, PrivacySection};

verus! {

/// The sections a permission check found missing, in menu order.
pub open spec fn missing_spec(p: Permissions) -> Seq<PrivacySection> {
    (if !p.input_monitoring {
        seq![PrivacySection::InputMonitoring]
    } else {
        seq![]
    }) + (if !p.accessibility {
        seq![PrivacySection::Accessibility]
    } else {
        seq![]
    })
}

/// The names of the missing permissions joined by "、".
pub open spec fn missing_names_spec(p: Permissions) -> Seq<char> {
    if !p.input_monitoring && !p.accessibility {
        "输入监听、辅助功能"@
    } else if !p.input_monitoring {
        "输入监听"@
    } else if !p.accessibility {
        "辅助功能"@
    } else {
        Seq::empty()
    }
}

/// What a failed permission check reports.
pub struct PermissionReport {
    pub missing: Vec<PrivacySection>,
    /// Tray status line.
    pub status_text: String,
    /// Notification title.
    pub title: String,
    /// Notification message.
    pub message: &'static str,
}

/// Checks the permissions: `None` when all are granted, otherwise what is
/// missing and the texts to show.
pub fn permission_report(p: Permissions) -> (r: Option<PermissionReport>)
    ensures
        match r {
            None => p.input_monitoring && p.accessibility,
            Some(rep) => {
                &&& !(p.input_monitoring && p.accessibility)
                &&& rep.missing@ == missing_spec(p)
                &&& rep.status_text@ == "状态：缺权限（"@ + missing_names_spec(p) + "）→ 点我去授权"@
                &&& rep.title@ == "缺少权限："@ + missing_names_spec(p)
            },
        },
{
    if p.all_granted() {
        return None;
    }
    let mut missing: Vec<PrivacySection> = Vec::new();
    let mut names = String::new();
    if !p.input_monitoring {
        missing.push(PrivacySection::InputMonitoring);
        push_text(&mut names, "输入监听");
    }
    if !p.accessibility {
        missing.push(PrivacySection::Accessibility);
        if !p.input_monitoring {
            push_text(&mut names, "、");
        }
        push_text(&mut names, "辅助功能");
    }
    proof {
        reveal_strlit("输入监听、辅助功能");
        reveal_strlit("输入监听");
        reveal_strlit("辅助功能");
        reveal_strlit("、");
        assert(missing@ =~= missing_spec(p));
        assert(names@ =~= missing_names_spec(p));
    }
    let mut status_text = "状态：缺权限（".to_owned();
    push_text(&mut status_text, names.as_str());
    push_text(&mut status_text, "）→ 点我去授权");
    let mut title = "缺少权限：".to_owned();
    push_text(&mut title, names.as_str());
    Some(
        PermissionReport {
            missing,
            status_text,
            title,
            message: "点菜单栏「状态」一行可直达系统设置对应页面；若列表里已有旧条目仍无效，先移除再重新添加，然后重启本程序。",
        },
    )
}

/// What the tray shows after the first keyboard event.
pub enum FirstKeyOutcome {
    /// Nothing was flagged missing: nothing to do.
    Unchanged,
    /// Input monitoring evidently works and nothing else is missing.
    AllClear,
    /// Still missing accessibility.
    StillMissing,
}

/// The first keyboard event proves input monitoring works: it is dropped
/// from the missing list. Returns the new list and what to show.
pub fn after_first_key(missing: &Vec<PrivacySection>) -> (r: (Vec<PrivacySection>, FirstKeyOutcome))
    ensures
        r.0@ == missing@.filter(|s: PrivacySection| s != PrivacySection::InputMonitoring),
        match r.1 {
            FirstKeyOutcome::Unchanged => missing@.len() == 0,
            FirstKeyOutcome::AllClear => missing@.len() > 0 && r.0@.len() == 0,
            FirstKeyOutcome::StillMissing => missing@.len() > 0 && r.0@.len() > 0,
        },
{
    let mut kept: Vec<PrivacySection> = Vec::new();
    let mut i: usize = 0;
    while i < missing.len()
        invariant
            i <= missing@.len(),
            kept@ == missing@.subrange(0, i as int).filter(
                |s: PrivacySection| s != PrivacySection::InputMonitoring,
            ),
        decreases missing@.len() - i,
    {
        let s = missing[i];
        proof {
            let f = |s: PrivacySection| s != PrivacySection::InputMonitoring;
            assert(missing@.subrange(0, i + 1).drop_last() =~= missing@.subrange(0, i as int));
            missing@.subrange(0, i as int).lemma_filter_push(s, f);
            assert(missing@.subrange(0, i as int).push(s) =~= missing@.subrange(0, i + 1));
        }
        if s != PrivacySection::InputMonitoring {
            kept.push(s);
        }
        i = i + 1;
    }
    assert(missing@.subrange(0, missing@.len() as int) =~= missing@);
    if missing.len() == 0 {
        (kept, FirstKeyOutcome::Unchanged)
    } else if kept.len() == 0 {
        (kept, FirstKeyOutcome::AllClear)
    } else {
        (kept, FirstKeyOutcome::StillMissing)
    }
}

/// The panes the status line opens: the missing ones, or input monitoring
/// when nothing is flagged.
pub fn panes_to_open(missing: &Vec<PrivacySection>) -> (r: Vec<PrivacySection>)
    ensures
        r@ == (if missing@.len() == 0 {
            seq![PrivacySection::InputMonitoring]
        } else {
            missing@
        }),
{
    if missing.len() == 0 {
        let r = vec![PrivacySection::InputMonitoring];
        assert(r@ =~= seq![PrivacySection::InputMonitoring]);
        r
    } else {
        let mut r: Vec<PrivacySection> = Vec::new();
        let mut i: usize = 0;
        while i < missing.len()
            invariant
                i <= missing@.len(),
                r@ == missing@.subrange(0, i as int),
            decreases missing@.len() - i,
        {
            r.push(missing[i]);
            i = i + 1;
            assert(r@ =~= missing@.subrange(0, i as int));
        }
        assert(missing@.subrange(0, missing@.len() as int) =~= missing@);
        r
    }
}

/// A switch in the environment (`XIAODAO_VERBOSE`,
/// `XIAODAO_FAKE_NO_PERM`): on for "1", "true" or "yes".
pub fn env_flag(value: Option<&str>) -> (r: bool)
    ensures
        r == (match value {
            Some(v) => v@ == "1"@ || v@ == "true"@ || v@ == "yes"@,
            None => false,
        }),
{
    match value {
        Some(v) => str_eq(v, "1") || str_eq(v, "true") || str_eq(v, "yes"),
        None => false,
    }
}

} // verus!
