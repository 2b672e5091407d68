//! The Copilot premium-request quota: what the entitlement endpoint's status
//! means, and the text report of an entitlement.
use vstd::prelude::*;

use crate::text::{decimal, decimal_text};

verus! {

/// The premium-interaction limit of the plan.
#[derive(Debug)]
pub struct CopilotLimits {
    pub premium_interactions: Option<u64>,
}

/// The premium interactions left. (The percentages that the endpoint also
/// reports are floating-point values and are not held here.)
#[derive(Debug)]
pub struct CopilotRemaining {
    pub premium_interactions: Option<u64>,
}

/// Quota limits, what is left of them, and when they reset.
#[derive(Debug)]
pub struct CopilotQuotas {
    pub limits: Option<CopilotLimits>,
    pub remaining: Option<CopilotRemaining>,
    pub reset_date: Option<String>,
    pub overages_enabled: Option<bool>,
}

/// Trial eligibility.
#[derive(Debug)]
pub struct CopilotTrial {
    pub eligible: Option<bool>,
}

/// The Copilot entitlement of the signed-in account.
#[derive(Debug)]
pub struct CopilotEntitlement {
    pub license_type: Option<String>,
    pub quotas: Option<CopilotQuotas>,
    pub plan: Option<String>,
    pub trial: Option<CopilotTrial>,
}

/// Why the entitlement endpoint's answer is refused.
#[derive(Debug)]
pub enum QuotaFailure {
    /// Status 404: the session cookie has most likely expired.
    SessionExpired,
    /// Any other status outside 200 to 299.
    Status(u16),
}

/// What a status of the entitlement endpoint means: success for 200 to 299,
/// an expired session for 404, else a failure with that status.
pub fn quota_status_failure(code: u16) -> (res: Option<QuotaFailure>)
    ensures
        200 <= code <= 299 ==> res is None,
        code == 404 ==> res matches Some(QuotaFailure::SessionExpired),
        !(200 <= code <= 299) && code != 404 ==> res == Some(QuotaFailure::Status(code)),
{
    if 200 <= code && code <= 299 {
        None
    } else if code == 404 {
        Some(QuotaFailure::SessionExpired)
    } else {
        Some(QuotaFailure::Status(code))
    }
}

/// The text, or `unknown` when there is none.
pub open spec fn or_unknown(o: Option<String>) -> Seq<char> {
    match o {
        Some(s) => s@,
        None => "unknown"@,
    }
}

/// The premium-interaction limit, if known.
pub open spec fn limit_of(q: CopilotQuotas) -> Option<u64> {
    match q.limits {
        Some(l) => l.premium_interactions,
        None => None,
    }
}

/// The premium interactions left, if known.
pub open spec fn remaining_of(q: CopilotQuotas) -> Option<u64> {
    match q.remaining {
        Some(r) => r.premium_interactions,
        None => None,
    }
}

/// The `Used:` line, when both the limit and what is left are known; the use
/// is the limit less what is left, and never below zero.
pub open spec fn used_lines(q: CopilotQuotas) -> Seq<Seq<char>> {
    match (remaining_of(q), limit_of(q)) {
        (Some(rem), Some(lim)) => seq![
            "  Used:      "@ + decimal(lim.saturating_sub(rem) as nat) + " / "@ + decimal(
                lim as nat,
            ),
        ],
        _ => Seq::empty(),
    }
}

/// The `Remaining:` line, when what is left is known, with the percentage
/// text when there is one.
pub open spec fn remaining_lines(q: CopilotQuotas, percent: Option<Seq<char>>) -> Seq<Seq<char>> {
    match remaining_of(q) {
        Some(rem) => match percent {
            Some(p) => seq!["  Remaining: "@ + decimal(rem as nat) + " ("@ + p + "%)"@],
            None => seq!["  Remaining: "@ + decimal(rem as nat)],
        },
        None => Seq::empty(),
    }
}

/// The lines of the quota report. `percent` is the remaining share of premium
/// interactions as it is to be shown, if the endpoint gave one.
pub open spec fn quota_report(e: CopilotEntitlement, percent: Option<Seq<char>>) -> Seq<Seq<char>> {
    let plan = or_unknown(e.plan);
    match e.quotas {
        Some(q) => seq!["Copilot Premium Requests"@, "  Plan:      "@ + plan] + used_lines(q)
            + remaining_lines(q, percent) + seq![
            "  Resets:    "@ + or_unknown(q.reset_date),
            "  Overages:  "@ + (if q.overages_enabled == Some(true) {
                "enabled"@
            } else {
                "disabled"@
            }),
        ],
        None => seq!["Plan: "@ + plan, "No quota information available."@],
    }
}

/// The text of an optional string.
pub open spec fn text_view(o: Option<String>) -> Option<Seq<char>> {
    match o {
        Some(s) => Some(s@),
        None => None,
    }
}

fn text_or_unknown(o: &Option<String>) -> (res: &str)
    ensures
        res@ == or_unknown(*o),
{
    match o {
        Some(s) => s.as_str(),
        None => "unknown",
    }
}

fn line(head: &str, tail: &str) -> (res: String)
    ensures
        res@ == head@ + tail@,
{
    String::from_str(head).concat(tail)
}

/// The lines of the quota report of an entitlement; `percent` is the
/// remaining share of premium interactions, already written out.
pub fn quota_report_lines(e: &CopilotEntitlement, percent: Option<String>) -> (res: Vec<String>)
    ensures
        res@.map_values(|s: String| s@) == quota_report(*e, text_view(percent)),
{
    let ghost pct = text_view(percent);
    let plan = text_or_unknown(&e.plan);
    let mut lines: Vec<String> = Vec::new();
    match &e.quotas {
        Some(q) => {
            let limit = match &q.limits {
                Some(l) => l.premium_interactions,
                None => None,
            };
            let remaining = match &q.remaining {
                Some(r) => r.premium_interactions,
                None => None,
            };
            lines.push(String::from_str("Copilot Premium Requests"));
            lines.push(line("  Plan:      ", plan));
            let ghost head = lines@.map_values(|s: String| s@);
            assert(head =~= seq!["Copilot Premium Requests"@, "  Plan:      "@ + or_unknown(e.plan)]);
            if let (Some(rem), Some(lim)) = (remaining, limit) {
                let used = lim.saturating_sub(rem);
                let mut s = line("  Used:      ", decimal_text(used).as_str());
                s.append(" / ");
                s.append(decimal_text(lim).as_str());
                lines.push(s);
            }
            let ghost with_used = lines@.map_values(|s: String| s@);
            assert(with_used =~= head + used_lines(*q));
            if let Some(rem) = remaining {
                let mut s = line("  Remaining: ", decimal_text(rem).as_str());
                if let Some(p) = percent {
                    s.append(" (");
                    s.append(p.as_str());
                    s.append("%)");
                }
                lines.push(s);
            }
            let ghost with_remaining = lines@.map_values(|s: String| s@);
            assert(with_remaining =~= with_used + remaining_lines(*q, pct));
            lines.push(line("  Resets:    ", text_or_unknown(&q.reset_date)));
            let overages = match q.overages_enabled {
                Some(b) => b,
                None => false,
            };
            if overages {
                lines.push(line("  Overages:  ", "enabled"));
            } else {
                lines.push(line("  Overages:  ", "disabled"));
            }
            assert(lines@.map_values(|s: String| s@) =~= quota_report(*e, pct));
        },
        None => {
            lines.push(line("Plan: ", plan));
            lines.push(String::from_str("No quota information available."));
            assert(lines@.map_values(|s: String| s@) =~= quota_report(*e, pct));
        },
    }
    lines
}

/// The quota report, line by line. Without quotas: the plan and a note that
/// there is no quota information. With quotas: a title; the plan; the use
/// (limit less what is left, zero when more is left than the limit) out of the
/// limit when both are known; what is left, with the percentage when given,
/// when it is known; the reset date; and whether overages are enabled, which
/// reads `enabled` only when the entitlement says `true`, and `disabled` when
/// it says `false` or nothing. A missing plan or reset date reads `unknown`.
pub proof fn lemma_quota_report_lines(e: CopilotEntitlement, percent: Option<Seq<char>>)
    ensures
        ({
            let r = quota_report(e, percent);
            let plan: Seq<char> = if e.plan is Some {
                e.plan->0@
            } else {
                "unknown"@
            };
            match e.quotas {
                None => r == seq!["Plan: "@ + plan, "No quota information available."@],
                Some(q) => {
                    let lim: Option<u64> = if q.limits is Some {
                        q.limits->0.premium_interactions
                    } else {
                        None
                    };
                    let rem: Option<u64> = if q.remaining is Some {
                        q.remaining->0.premium_interactions
                    } else {
                        None
                    };
                    let used_count: int = if lim is Some && rem is Some {
                        1
                    } else {
                        0
                    };
                    let rem_count: int = if rem is Some {
                        1
                    } else {
                        0
                    };
                    &&& r.len() == 4 + used_count + rem_count
                    &&& r[0] == "Copilot Premium Requests"@
                    &&& r[1] == "  Plan:      "@ + plan
                    &&& (lim is Some && rem is Some) ==> r[2] == "  Used:      "@ + decimal(
                        (if lim->0 >= rem->0 {
                            lim->0 - rem->0
                        } else {
                            0
                        }) as nat,
                    ) + " / "@ + decimal(lim->0 as nat)
                    &&& (rem is Some && percent is Some) ==> r[2 + used_count] == "  Remaining: "@
                        + decimal(rem->0 as nat) + " ("@ + percent->0 + "%)"@
                    &&& (rem is Some && percent is None) ==> r[2 + used_count] == "  Remaining: "@
                        + decimal(rem->0 as nat)
                    &&& q.reset_date is Some ==> r[r.len() - 2] == "  Resets:    "@
                        + q.reset_date->0@
                    &&& q.reset_date is None ==> r[r.len() - 2] == "  Resets:    "@ + "unknown"@
                    &&& q.overages_enabled == Some(true) ==> r[r.len() - 1] == "  Overages:  "@
                        + "enabled"@
                    &&& q.overages_enabled == Some(false) ==> r[r.len() - 1] == "  Overages:  "@
                        + "disabled"@
                    &&& q.overages_enabled is None ==> r[r.len() - 1] == "  Overages:  "@
                        + "disabled"@
                },
            }
        }),
{
}

} // verus!
