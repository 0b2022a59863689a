//! The `findings-v1` automation adapter: a run report as the findings envelope that
//! automation consumes, with numbered findings and counts by severity.
use vstd::prelude::*;

use crate::cli::{finding_severity_rank, finding_severity_token_from_rank, increment_severity_count, AdapterSeverityCounts};
use crate::json::{is_str_member, str_member, uint_member, value_member, JsonValue};
use crate::json_text::{json_pretty_text, pretty_json};
use crate::model::{severity_rank, severity_token_spec, Finding, FindingSeverity};
use crate::output_formats::{
    is_decimal, is_opt_text, is_opt_uint, items, key_at, list_of, members, object_of, str_at, uint_at, val_at,
};
use crate::cli::LiveFailureReasonCount;
use crate::run_report::{push_two_decimals, two_decimals, LiveFallbackDecision, LiveRunMetrics, RunReport};
use crate::text::{chars_of, dec_padded, dec_padded_chars, push_all, push_str, string_of};

verus! {

/// The number of findings of a severity.
pub open spec fn count_severity(fs: Seq<Finding>, s: FindingSeverity) -> nat
    decreases fs.len(),
{
    if fs.len() == 0 {
        0
    } else {
        count_severity(fs.drop_last(), s) + if fs.last().severity == s { 1nat } else { 0nat }
    }
}

proof fn lemma_count_severity_bound(fs: Seq<Finding>, s: FindingSeverity)
    ensures
        count_severity(fs, s) <= fs.len(),
    decreases fs.len(),
{
    if fs.len() > 0 {
        lemma_count_severity_bound(fs.drop_last(), s);
    }
}

/// The highest severity rank among findings (0 for none).
pub open spec fn highest_rank(fs: Seq<Finding>) -> nat
    decreases fs.len(),
{
    if fs.len() == 0 {
        0
    } else {
        let r = highest_rank(fs.drop_last());
        let x = severity_rank(fs.last().severity);
        if x > r {
            x
        } else {
            r
        }
    }
}

/// The name of a severity rank.
pub open spec fn rank_token(rank: nat) -> Seq<char> {
    if rank == 0 {
        "info"@
    } else if rank == 1 {
        "low"@
    } else if rank == 2 {
        "medium"@
    } else if rank == 3 {
        "high"@
    } else {
        "critical"@
    }
}

/// The identifier of the finding at position `i`: `F-` and its number from 1 in at
/// least four digits.
pub open spec fn finding_id(i: nat) -> Seq<char> {
    "F-"@ + dec_padded(i + 1, 4)
}

/// A fallback decision as JSON.
pub open spec fn decision_doc(j: JsonValue, d: LiveFallbackDecision) -> bool {
    &&& object_of(j, 5)
    &&& str_at(j, 0, "policy"@, d.policy@)
    &&& str_at(j, 1, "reason"@, d.reason@)
    &&& str_at(j, 2, "reason_code"@, d.reason_code@)
    &&& str_at(j, 3, "live_error"@, d.live_error@)
    &&& str_at(j, 4, "fallback_mode"@, d.fallback_mode@)
}

/// A failure reason count as JSON.
pub open spec fn reason_doc(j: JsonValue, r: LiveFailureReasonCount) -> bool {
    object_of(j, 2) && str_at(j, 0, "reason_code"@, r.reason_code@) && uint_at(j, 1, "count"@, r.count as u64)
}

/// Live-run metrics as JSON: the optional latency and failure reasons only when there
/// are some; rates as two-decimal numbers.
pub open spec fn metrics_doc(j: JsonValue, m: LiveRunMetrics) -> bool {
    let a: int = if m.first_token_latency_ms is Some { 1int } else { 0int };
    let b: int = if m.top_failure_reasons@.len() > 0 { 1int } else { 0int };
    &&& object_of(j, 7 + a + b)
    &&& (a == 1 ==> uint_at(j, 0, "first_token_latency_ms"@, m.first_token_latency_ms->0))
    &&& uint_at(j, a, "total_run_duration_ms"@, m.total_run_duration_ms)
    &&& uint_at(j, a + 1, "live_attempt_duration_ms"@, m.live_attempt_duration_ms)
    &&& uint_at(j, a + 2, "live_attempt_count"@, m.live_attempt_count as u64)
    &&& uint_at(j, a + 3, "live_success_count"@, m.live_success_count as u64)
    &&& uint_at(j, a + 4, "fallback_count"@, m.fallback_count as u64)
    &&& key_at(j, a + 5, "live_success_rate"@) && is_decimal(val_at(j, a + 5), two_decimals(m.live_success_rate as nat))
    &&& key_at(j, a + 6, "fallback_rate"@) && is_decimal(val_at(j, a + 6), two_decimals(m.fallback_rate as nat))
    &&& (b == 1 ==> key_at(j, a + 7, "top_failure_reasons"@) && list_of(
        val_at(j, a + 7),
        m.top_failure_reasons@.len() as int,
    ) && forall|i: int|
        0 <= i < m.top_failure_reasons@.len() ==> reason_doc(#[trigger] items(val_at(j, a + 7))[i], m.top_failure_reasons@[i]))
}

/// The counts by severity as JSON.
pub open spec fn counts_doc(j: JsonValue, fs: Seq<Finding>) -> bool {
    &&& object_of(j, 5)
    &&& uint_at(j, 0, "info"@, count_severity(fs, FindingSeverity::Info) as u64)
    &&& uint_at(j, 1, "low"@, count_severity(fs, FindingSeverity::Low) as u64)
    &&& uint_at(j, 2, "medium"@, count_severity(fs, FindingSeverity::Medium) as u64)
    &&& uint_at(j, 3, "high"@, count_severity(fs, FindingSeverity::High) as u64)
    &&& uint_at(j, 4, "critical"@, count_severity(fs, FindingSeverity::Critical) as u64)
}

/// The envelope's summary: the task, the case, the fallback decision and the metrics
/// when there are any, the finding count, the highest severity (`none` without
/// findings) and the counts by severity.
pub open spec fn adapter_summary_doc(j: JsonValue, r: RunReport) -> bool {
    let a: int = if r.case_id is Some { 1int } else { 0int };
    let b: int = if r.live_fallback_decision is Some { 1int } else { 0int };
    let c: int = if r.live_run_metrics is Some { 1int } else { 0int };
    let k = 1 + a + b + c;
    &&& object_of(j, k + 3)
    &&& str_at(j, 0, "task"@, r.task@)
    &&& (a == 1 ==> str_at(j, 1, "case_id"@, r.case_id->0@))
    &&& (b == 1 ==> key_at(j, 1 + a, "live_fallback_decision"@) && decision_doc(val_at(j, 1 + a), r.live_fallback_decision->0))
    &&& (c == 1 ==> key_at(j, 1 + a + b, "live_run_metrics"@) && metrics_doc(val_at(j, 1 + a + b), r.live_run_metrics->0))
    &&& uint_at(j, k, "finding_count"@, r.findings@.len() as u64)
    &&& str_at(
        j,
        k + 1,
        "highest_severity"@,
        if r.findings@.len() == 0 {
            "none"@
        } else {
            rank_token(highest_rank(r.findings@))
        },
    )
    &&& key_at(j, k + 2, "severity_counts"@) && counts_doc(val_at(j, k + 2), r.findings@)
}

/// A finding of the envelope: its identifier, title, severity, confidence, action and
/// evidence pointer.
pub open spec fn adapter_finding_doc(j: JsonValue, i: nat, f: Finding) -> bool {
    let e = val_at(j, 5);
    &&& object_of(j, 6)
    &&& str_at(j, 0, "finding_id"@, finding_id(i))
    &&& str_at(j, 1, "title"@, f.title@)
    &&& str_at(j, 2, "severity"@, severity_token_spec(f.severity))
    &&& key_at(j, 3, "confidence"@) && is_decimal(val_at(j, 3), two_decimals(f.confidence as nat))
    &&& str_at(j, 4, "recommended_action"@, f.recommended_action@)
    &&& key_at(j, 5, "evidence_pointer"@) && object_of(e, 3) && key_at(e, 0, "turn"@) && is_opt_uint(
        val_at(e, 0),
        f.evidence_pointer.turn,
    ) && key_at(e, 1, "tool"@) && is_opt_text(val_at(e, 1), f.evidence_pointer.tool) && str_at(
        e,
        2,
        "field"@,
        f.evidence_pointer.field@,
    )
}

/// The `findings-v1` envelope of a report.
pub open spec fn findings_adapter_doc(d: JsonValue, r: RunReport) -> bool {
    &&& object_of(d, 4)
    &&& str_at(d, 0, "adapter"@, "findings-v1"@)
    &&& key_at(d, 1, "summary"@) && adapter_summary_doc(val_at(d, 1), r)
    &&& key_at(d, 2, "findings"@) && list_of(val_at(d, 2), r.findings@.len() as int) && forall|i: int|
        0 <= i < r.findings@.len() ==> adapter_finding_doc(#[trigger] items(val_at(d, 2))[i], i as nat, r.findings@[i])
    &&& str_at(d, 3, "contract_version"@, "1.0.0"@)
}

fn decimal_json(n: u64) -> (r: JsonValue)
    ensures
        is_decimal(r, two_decimals(n as nat)),
{
    let mut v: Vec<char> = Vec::new();
    push_two_decimals(&mut v, n);
    assert(v@ =~= two_decimals(n as nat));
    JsonValue::Decimal(string_of(&v))
}

fn decision_json(d: &LiveFallbackDecision) -> (r: JsonValue)
    ensures
        decision_doc(r, *d),
{
    JsonValue::Object(
        vec![
            str_member("policy", d.policy.as_str()),
            str_member("reason", d.reason.as_str()),
            str_member("reason_code", d.reason_code.as_str()),
            str_member("live_error", d.live_error.as_str()),
            str_member("fallback_mode", d.fallback_mode.as_str()),
        ],
    )
}

fn metrics_json(m: &LiveRunMetrics) -> (r: JsonValue)
    ensures
        metrics_doc(r, *m),
{
    let mut out: Vec<(String, JsonValue)> = Vec::new();
    match m.first_token_latency_ms {
        Some(n) => out.push(uint_member("first_token_latency_ms", n)),
        None => {},
    }
    out.push(uint_member("total_run_duration_ms", m.total_run_duration_ms));
    out.push(uint_member("live_attempt_duration_ms", m.live_attempt_duration_ms));
    out.push(uint_member("live_attempt_count", m.live_attempt_count as u64));
    out.push(uint_member("live_success_count", m.live_success_count as u64));
    out.push(uint_member("fallback_count", m.fallback_count as u64));
    out.push(value_member("live_success_rate", decimal_json(m.live_success_rate)));
    out.push(value_member("fallback_rate", decimal_json(m.fallback_rate)));
    if m.top_failure_reasons.len() > 0 {
        let mut rs: Vec<JsonValue> = Vec::new();
        let mut i: usize = 0;
        while i < m.top_failure_reasons.len()
            invariant
                i <= m.top_failure_reasons@.len(),
                rs@.len() == i,
                forall|k: int| 0 <= k < i ==> reason_doc(#[trigger] rs@[k], m.top_failure_reasons@[k]),
            decreases m.top_failure_reasons@.len() - i,
        {
            let r = &m.top_failure_reasons[i];
            rs.push(
                JsonValue::Object(
                    vec![str_member("reason_code", r.reason_code.as_str()), uint_member("count", r.count as u64)],
                ),
            );
            i = i + 1;
        }
        out.push(value_member("top_failure_reasons", JsonValue::Array(rs)));
    }
    JsonValue::Object(out)
}

fn opt_uint_value(n: Option<usize>) -> (r: JsonValue)
    ensures
        is_opt_uint(r, n),
{
    match n {
        Some(k) => JsonValue::UInt(k as u64),
        None => JsonValue::Null,
    }
}

fn opt_text_value(s: &Option<String>) -> (r: JsonValue)
    ensures
        is_opt_text(r, *s),
{
    match s {
        Some(t) => JsonValue::Str(string_of(&chars_of(t.as_str()))),
        None => JsonValue::Null,
    }
}

fn finding_id_exec(i: usize) -> (r: String)
    requires
        i < usize::MAX,
    ensures
        r@ == finding_id(i as nat),
{
    let mut v = chars_of("F-");
    push_all(&mut v, &dec_padded_chars(i as u64 + 1, 4));
    string_of(&v)
}

fn adapter_finding_json(i: usize, f: &Finding) -> (r: JsonValue)
    requires
        i < usize::MAX,
    ensures
        adapter_finding_doc(r, i as nat, *f),
{
    let pointer = JsonValue::Object(
        vec![
            value_member("turn", opt_uint_value(f.evidence_pointer.turn)),
            value_member("tool", opt_text_value(&f.evidence_pointer.tool)),
            str_member("field", f.evidence_pointer.field.as_str()),
        ],
    );
    JsonValue::Object(
        vec![
            str_member("finding_id", finding_id_exec(i).as_str()),
            str_member("title", f.title.as_str()),
            str_member("severity", f.severity.token()),
            value_member("confidence", decimal_json(f.confidence as u64)),
            str_member("recommended_action", f.recommended_action.as_str()),
            value_member("evidence_pointer", pointer),
        ],
    )
}

/// The `findings-v1` envelope of a report (see [`findings_adapter_doc`]),
/// pretty-printed.
pub fn render_findings_adapter_v1(report: &RunReport) -> (r: String)
    requires
        report.findings@.len() < usize::MAX,
    ensures
        exists|d: JsonValue| #[trigger] findings_adapter_doc(d, *report) && r@ == json_pretty_text(d),
{
    let mut counts = AdapterSeverityCounts { info: 0, low: 0, medium: 0, high: 0, critical: 0 };
    let mut highest: u8 = 0;
    let mut entries: Vec<JsonValue> = Vec::new();
    let ghost fs = report.findings@;
    let mut i: usize = 0;
    assert(fs.take(0) =~= Seq::<Finding>::empty());
    while i < report.findings.len()
        invariant
            i <= fs.len(),
            fs == report.findings@,
            fs.len() < usize::MAX,
            entries@.len() == i,
            forall|k: int| 0 <= k < i ==> adapter_finding_doc(#[trigger] entries@[k], k as nat, fs[k]),
            highest as nat == highest_rank(fs.take(i as int)),
            highest <= 4,
            counts.info as nat == count_severity(fs.take(i as int), FindingSeverity::Info),
            counts.low as nat == count_severity(fs.take(i as int), FindingSeverity::Low),
            counts.medium as nat == count_severity(fs.take(i as int), FindingSeverity::Medium),
            counts.high as nat == count_severity(fs.take(i as int), FindingSeverity::High),
            counts.critical as nat == count_severity(fs.take(i as int), FindingSeverity::Critical),
        decreases fs.len() - i,
    {
        assert(fs.take(i + 1).drop_last() =~= fs.take(i as int));
        assert(fs.take(i + 1).last() == fs[i as int]);
        proof {
            lemma_count_severity_bound(fs.take(i as int), FindingSeverity::Info);
            lemma_count_severity_bound(fs.take(i as int), FindingSeverity::Low);
            lemma_count_severity_bound(fs.take(i as int), FindingSeverity::Medium);
            lemma_count_severity_bound(fs.take(i as int), FindingSeverity::High);
            lemma_count_severity_bound(fs.take(i as int), FindingSeverity::Critical);
        }
        let f = &report.findings[i];
        let rank = finding_severity_rank(f.severity);
        if rank > highest {
            highest = rank;
        }
        increment_severity_count(&mut counts, f.severity);
        entries.push(adapter_finding_json(i, f));
        i = i + 1;
    }
    assert(fs.take(fs.len() as int) =~= fs);
    let mut summary: Vec<(String, JsonValue)> = Vec::new();
    summary.push(str_member("task", report.task.as_str()));
    match &report.case_id {
        Some(c) => summary.push(str_member("case_id", c.as_str())),
        None => {},
    }
    match &report.live_fallback_decision {
        Some(d) => summary.push(value_member("live_fallback_decision", decision_json(d))),
        None => {},
    }
    match &report.live_run_metrics {
        Some(m) => summary.push(value_member("live_run_metrics", metrics_json(m))),
        None => {},
    }
    summary.push(uint_member("finding_count", report.findings.len() as u64));
    let highest_name = if report.findings.len() == 0 {
        "none"
    } else {
        finding_severity_token_from_rank(highest)
    };
    summary.push(str_member("highest_severity", highest_name));
    let counts_doc_value = JsonValue::Object(
        vec![
            uint_member("info", counts.info as u64),
            uint_member("low", counts.low as u64),
            uint_member("medium", counts.medium as u64),
            uint_member("high", counts.high as u64),
            uint_member("critical", counts.critical as u64),
        ],
    );
    summary.push(value_member("severity_counts", counts_doc_value));
    let summary_value = JsonValue::Object(summary);
    assert(adapter_summary_doc(summary_value, *report));
    let d = JsonValue::Object(
        vec![
            str_member("adapter", "findings-v1"),
            value_member("summary", summary_value),
            value_member("findings", JsonValue::Array(entries)),
            str_member("contract_version", "1.0.0"),
        ],
    );
    assert(findings_adapter_doc(d, *report));
    pretty_json(&d)
}

} // verus!
