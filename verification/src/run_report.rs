//! The report of one investigation run and its two human-readable renderings: the
//! plain summary and the Markdown document.
//!
//! Rates and confidences are held in hundredths (`1.00` is 100); they are printed with
//! two decimals.
use vstd::prelude::*;

use crate::cli::{
    evidence_text, finding_severity_label, format_live_failure_reasons, optional_latency_label,
    reasons_text, render_evidence_pointer, trim_end_chars, LiveFailureReasonCount,
    classify_live_error_reason_code, live_error_code, live_fallback_policy_token, LiveFallbackPolicy,
};
use crate::json::JsonValue;
use crate::json_text::{compact_json, json_compact_text, json_pretty_text, pretty_json};
use crate::model::{
    finding_views, severity_token_spec, AgentTurn, Finding, FindingSeverity, FindingView,
};
use crate::text::{
    ascii_upper, chars_of, dec, dec_chars, dec_padded, dec_padded_chars, join, push_all,
    push_str, string_of, trim_end, usize_dec,
};
use crate::tools::{text_lt, text_lt_exec};

verus! {

/// Why a live run fell back to the dry-run path, and under which policy.
#[derive(Debug)]
pub struct LiveFallbackDecision {
    pub policy: String,
    pub reason: String,
    pub reason_code: String,
    pub live_error: String,
    pub fallback_mode: String,
}

/// How long a run took.
#[derive(Debug)]
pub struct RunTimingMetrics {
    pub first_token_latency_ms: Option<u64>,
    pub total_run_duration_ms: u64,
}

/// Outcome counts of the live-inference attempts of a run.
#[derive(Debug)]
pub struct LiveRunMetrics {
    pub first_token_latency_ms: Option<u64>,
    pub total_run_duration_ms: u64,
    pub live_attempt_duration_ms: u64,
    pub live_attempt_count: usize,
    pub live_success_count: usize,
    pub fallback_count: usize,
    /// Share of attempts that succeeded, in hundredths.
    pub live_success_rate: u64,
    /// Share of attempts that fell back, in hundredths.
    pub fallback_rate: u64,
    pub top_failure_reasons: Vec<LiveFailureReasonCount>,
}

/// Everything one investigation produced.
#[derive(Debug)]
pub struct RunReport {
    pub task: String,
    pub case_id: Option<String>,
    pub max_severity: Option<FindingSeverity>,
    pub backend: Option<String>,
    pub live_fallback_decision: Option<LiveFallbackDecision>,
    pub run_timing: Option<RunTimingMetrics>,
    pub live_run_metrics: Option<LiveRunMetrics>,
    pub turns: Vec<AgentTurn>,
    pub final_answer: String,
    pub findings: Vec<Finding>,
    pub supplementary_findings: Vec<Finding>,
}

// ---------------------------------------------------------------------------
// Live-run metrics
// ---------------------------------------------------------------------------

/// `count / total` in hundredths, rounded half up; zero for an empty total.
pub open spec fn ratio_spec(count: nat, total: nat) -> nat {
    if total == 0 {
        0
    } else {
        (count * 200 + total) / (2 * total)
    }
}

/// The share `count / total` in hundredths.
pub fn ratio(count: usize, total: usize) -> (r: u64)
    requires
        count <= total,
    ensures
        r == ratio_spec(count as nat, total as nat),
        r <= 100,
{
    if total == 0 {
        return 0;
    }
    let num: u128 = (count as u128) * 200 + (total as u128);
    let den: u128 = 2 * (total as u128);
    let q: u128 = num / den;
    assert(q <= 100) by (nonlinear_arith)
        requires
            q == num / den,
            num == count * 200 + total,
            den == 2 * total,
            count <= total,
            total > 0,
    {
        assert(num <= 201 * den / 2) by (nonlinear_arith)
            requires num == count * 200 + total, den == 2 * total, count <= total;
        assert(num < 101 * den) by (nonlinear_arith)
            requires num == count * 200 + total, den == 2 * total, count <= total, total > 0;
    }
    q as u64
}

/// The metrics of a run with one live attempt, which either succeeded or fell back.
pub open spec fn single_attempt_metrics_ok(
    m: LiveRunMetrics,
    total_run_duration_ms: u64,
    live_attempt_duration_ms: u64,
    first_token_latency_ms: Option<u64>,
    live_success: bool,
    failure_reason_code: Option<Seq<char>>,
) -> bool {
    &&& m.first_token_latency_ms == first_token_latency_ms
    &&& m.total_run_duration_ms == total_run_duration_ms
    &&& m.live_attempt_duration_ms == live_attempt_duration_ms
    &&& m.live_attempt_count == 1
    &&& m.live_success_count == (if live_success { 1usize } else { 0usize })
    &&& m.fallback_count == (if live_success { 0usize } else { 1usize })
    &&& m.live_success_rate == (if live_success { 100u64 } else { 0u64 })
    &&& m.fallback_rate == (if live_success { 0u64 } else { 100u64 })
    &&& match failure_reason_code {
        Some(code) => m.top_failure_reasons@.len() == 1
            && m.top_failure_reasons@[0].reason_code@ == code
            && m.top_failure_reasons@[0].count == 1,
        None => m.top_failure_reasons@.len() == 0,
    }
}

/// The metrics of a run with a single live attempt.
pub fn build_live_run_metrics(
    total_run_duration_ms: u64,
    live_attempt_duration_ms: u64,
    first_token_latency_ms: Option<u64>,
    live_success: bool,
    failure_reason_code: Option<&str>,
) -> (m: LiveRunMetrics)
    ensures
        single_attempt_metrics_ok(
            m,
            total_run_duration_ms,
            live_attempt_duration_ms,
            first_token_latency_ms,
            live_success,
            match failure_reason_code {
                Some(c) => Some(c@),
                None => None,
            },
        ),
{
    let live_attempt_count: usize = 1;
    let live_success_count: usize = if live_success { 1 } else { 0 };
    let fallback_count: usize = if live_success { 0 } else { 1 };
    let mut top_failure_reasons: Vec<LiveFailureReasonCount> = Vec::new();
    match failure_reason_code {
        Some(code) => {
            top_failure_reasons.push(
                LiveFailureReasonCount { reason_code: string_of(&chars_of(code)), count: 1 },
            );
        },
        None => {},
    }
    let live_success_rate = ratio(live_success_count, live_attempt_count);
    let fallback_rate = ratio(fallback_count, live_attempt_count);
    assert(ratio_spec(1, 1) == 100) by {
        assert((1nat * 200 + 1) / (2 * 1nat) == 100) by (nonlinear_arith);
    }
    assert(ratio_spec(0, 1) == 0) by {
        assert((0nat * 200 + 1) / (2 * 1nat) == 0) by (nonlinear_arith);
    }
    LiveRunMetrics {
        first_token_latency_ms,
        total_run_duration_ms,
        live_attempt_duration_ms,
        live_attempt_count,
        live_success_count,
        fallback_count,
        live_success_rate,
        fallback_rate,
        top_failure_reasons,
    }
}

// ---------------------------------------------------------------------------
// Shared text pieces
// ---------------------------------------------------------------------------

/// A value in hundredths with two decimals (`format!("{:.2}", n / 100)`).
pub open spec fn two_decimals(n: nat) -> Seq<char> {
    dec(n / 100) + seq!['.'] + dec_padded(n % 100, 2)
}

pub(crate) fn push_two_decimals(out: &mut Vec<char>, n: u64)
    ensures
        final(out)@ == old(out)@ + two_decimals(n as nat),
{
    push_all(out, &dec_chars(n / 100));
    push_str(out, ".");
    proof {
        reveal_strlit(".");
    }
    push_all(out, &dec_padded_chars(n % 100, 2));
    assert(final(out)@ =~= old(out)@ + two_decimals(n as nat)) by {
        assert("."@ =~= seq!['.']);
    }
}

/// A latency in milliseconds, or `null`.
pub open spec fn latency_text(v: Option<u64>) -> Seq<char> {
    match v {
        Some(n) => dec(n as nat),
        None => "null"@,
    }
}

/// One line: the bullet, the label, the value and a line break.
pub open spec fn kv(bullet: Seq<char>, label: Seq<char>, value: Seq<char>) -> Seq<char> {
    bullet + label + value + "\n"@
}

fn push_kv(out: &mut Vec<char>, bullet: &str, label: &str, value: &Vec<char>)
    ensures
        final(out)@ == old(out)@ + kv(bullet@, label@, value@),
{
    push_str(out, bullet);
    push_str(out, label);
    push_all(out, value);
    push_str(out, "\n");
    assert(final(out)@ =~= old(out)@ + kv(bullet@, label@, value@));
}

// ---------------------------------------------------------------------------
// The header lines shared by both renderings
// ---------------------------------------------------------------------------

/// The task and, when there is one, the case.
pub open spec fn head_ident(r: RunReport, b: Seq<char>) -> Seq<char> {
    kv(b, "Task: "@, r.task@) + match r.case_id {
        Some(c) => kv(b, "Case ID: "@, c@),
        None => seq![],
    }
}

/// The fallback decision, when there is one.
pub open spec fn head_fallback(r: RunReport, b: Seq<char>) -> Seq<char> {
    match r.live_fallback_decision {
        Some(d) => kv(b, "Live Fallback: "@, d.fallback_mode@) + kv(b, "Fallback Policy: "@, d.policy@)
            + kv(b, "Fallback Reason: "@, d.reason@) + kv(b, "Fallback Reason Code: "@, d.reason_code@),
        None => seq![],
    }
}

/// The run timing, when there is one.
pub open spec fn head_timing(r: RunReport, b: Seq<char>) -> Seq<char> {
    match r.run_timing {
        Some(t) => kv(
            b,
            "Run Timing: first_token_ms="@,
            latency_text(t.first_token_latency_ms) + ", total_ms="@ + dec(t.total_run_duration_ms as nat),
        ),
        None => seq![],
    }
}

/// The rest of the live-metrics line after `success_rate=`.
pub open spec fn metrics_tail(m: LiveRunMetrics) -> Seq<char> {
    two_decimals(m.live_success_rate as nat) + ", fallback_rate="@ + two_decimals(m.fallback_rate as nat)
        + ", live_attempt_duration_ms="@ + dec(m.live_attempt_duration_ms as nat) + ", total_ms="@
        + dec(m.total_run_duration_ms as nat) + ", first_token_ms="@ + latency_text(
        m.first_token_latency_ms,
    )
}

/// The live metrics and their failure reasons, when there are metrics.
pub open spec fn head_metrics(r: RunReport, b: Seq<char>) -> Seq<char> {
    match r.live_run_metrics {
        Some(m) => kv(b, "Live Metrics: success_rate="@, metrics_tail(m)) + if m.top_failure_reasons@.len()
            > 0 {
            kv(b, "Live Failure Reasons: "@, reasons_text(m.top_failure_reasons@))
        } else {
            seq![]
        },
        None => seq![],
    }
}

/// The turn and finding counts and the final answer.
pub open spec fn head_counts(r: RunReport, b: Seq<char>) -> Seq<char> {
    kv(b, "Turns: "@, dec(r.turns@.len())) + kv(b, "Findings: "@, dec(r.findings@.len())) + kv(
        b,
        "Final Answer: "@,
        r.final_answer@,
    )
}

/// The header lines, each starting with the bullet `b`.
pub open spec fn head_text(r: RunReport, b: Seq<char>) -> Seq<char> {
    head_ident(r, b) + head_fallback(r, b) + head_timing(r, b) + head_metrics(r, b) + head_counts(r, b)
}

fn push_head_ident(out: &mut Vec<char>, r: &RunReport, b: &str)
    ensures
        final(out)@ == old(out)@ + head_ident(*r, b@),
{
    push_kv(out, b, "Task: ", &chars_of(r.task.as_str()));
    match &r.case_id {
        Some(c) => push_kv(out, b, "Case ID: ", &chars_of(c.as_str())),
        None => {},
    }
    assert(final(out)@ =~= old(out)@ + head_ident(*r, b@));
}

#[verifier::spinoff_prover]
#[verifier::rlimit(30)]
fn push_head_fallback(out: &mut Vec<char>, r: &RunReport, b: &str)
    ensures
        final(out)@ == old(out)@ + head_fallback(*r, b@),
{
    match &r.live_fallback_decision {
        Some(d) => {
            push_kv(out, b, "Live Fallback: ", &chars_of(d.fallback_mode.as_str()));
            push_kv(out, b, "Fallback Policy: ", &chars_of(d.policy.as_str()));
            push_kv(out, b, "Fallback Reason: ", &chars_of(d.reason.as_str()));
            push_kv(out, b, "Fallback Reason Code: ", &chars_of(d.reason_code.as_str()));
        },
        None => {},
    }
    assert(final(out)@ =~= old(out)@ + head_fallback(*r, b@));
}

fn push_head_timing(out: &mut Vec<char>, r: &RunReport, b: &str)
    ensures
        final(out)@ == old(out)@ + head_timing(*r, b@),
{
    match &r.run_timing {
        Some(t) => {
            let mut v: Vec<char> = Vec::new();
            let lat = optional_latency_label(t.first_token_latency_ms);
            push_str(&mut v, lat.as_str());
            push_str(&mut v, ", total_ms=");
            push_all(&mut v, &dec_chars(t.total_run_duration_ms));
            assert(v@ =~= latency_text(t.first_token_latency_ms) + ", total_ms="@ + dec(
                t.total_run_duration_ms as nat,
            ));
            push_kv(out, b, "Run Timing: first_token_ms=", &v);
        },
        None => {},
    }
    assert(final(out)@ =~= old(out)@ + head_timing(*r, b@));
}

#[verifier::spinoff_prover]
#[verifier::rlimit(30)]
fn metrics_tail_chars(m: &LiveRunMetrics) -> (v: Vec<char>)
    ensures
        v@ == metrics_tail(*m),
{
    let mut v: Vec<char> = Vec::new();
    push_two_decimals(&mut v, m.live_success_rate);
    push_str(&mut v, ", fallback_rate=");
    push_two_decimals(&mut v, m.fallback_rate);
    push_str(&mut v, ", live_attempt_duration_ms=");
    push_all(&mut v, &dec_chars(m.live_attempt_duration_ms));
    push_str(&mut v, ", total_ms=");
    push_all(&mut v, &dec_chars(m.total_run_duration_ms));
    push_str(&mut v, ", first_token_ms=");
    let lat = optional_latency_label(m.first_token_latency_ms);
    push_str(&mut v, lat.as_str());
    assert(v@ =~= metrics_tail(*m));
    v
}

#[verifier::spinoff_prover]
#[verifier::rlimit(30)]
fn push_head_metrics(out: &mut Vec<char>, r: &RunReport, b: &str)
    ensures
        final(out)@ == old(out)@ + head_metrics(*r, b@),
{
    match &r.live_run_metrics {
        Some(m) => {
            push_kv(out, b, "Live Metrics: success_rate=", &metrics_tail_chars(m));
            if m.top_failure_reasons.len() > 0 {
                let reasons = format_live_failure_reasons(&m.top_failure_reasons);
                push_kv(out, b, "Live Failure Reasons: ", &chars_of(reasons.as_str()));
            }
        },
        None => {},
    }
    assert(final(out)@ =~= old(out)@ + head_metrics(*r, b@));
}

fn push_head_counts(out: &mut Vec<char>, r: &RunReport, b: &str)
    ensures
        final(out)@ == old(out)@ + head_counts(*r, b@),
{
    push_kv(out, b, "Turns: ", &usize_dec(r.turns.len()));
    push_kv(out, b, "Findings: ", &usize_dec(r.findings.len()));
    push_kv(out, b, "Final Answer: ", &chars_of(r.final_answer.as_str()));
    assert(final(out)@ =~= old(out)@ + head_counts(*r, b@));
}

fn push_head(out: &mut Vec<char>, r: &RunReport, b: &str)
    ensures
        final(out)@ == old(out)@ + head_text(*r, b@),
{
    push_head_ident(out, r, b);
    push_head_fallback(out, r, b);
    push_head_timing(out, r, b);
    push_head_metrics(out, r, b);
    push_head_counts(out, r, b);
    assert(final(out)@ =~= old(out)@ + head_text(*r, b@));
}

// ---------------------------------------------------------------------------
// Observations in one line
// ---------------------------------------------------------------------------

/// Inserts `x` before the first entry that sorts after it.
pub open spec fn insert_text(s: Seq<Seq<char>>, x: Seq<char>) -> Seq<Seq<char>>
    decreases s.len(),
{
    if s.len() == 0 {
        seq![x]
    } else if text_lt(x, s[0]) {
        seq![x] + s
    } else {
        seq![s[0]] + insert_text(s.drop_first(), x)
    }
}

/// The texts in ascending order (insertion sort).
pub open spec fn sorted_texts(s: Seq<Seq<char>>) -> Seq<Seq<char>>
    decreases s.len(),
{
    if s.len() == 0 {
        seq![]
    } else {
        insert_text(sorted_texts(s.drop_last()), s.last())
    }
}

/// The member names of an object, in order.
pub open spec fn member_names(fields: Seq<(String, JsonValue)>) -> Seq<Seq<char>> {
    Seq::new(fields.len(), |i: int| fields[i].0@)
}

/// An observation in one line: its error, the sorted names of its members, `{}` for an
/// empty object, `null`, or the compact JSON of any other value.
pub open spec fn observation_summary(v: JsonValue) -> Seq<char> {
    match v {
        JsonValue::Object(fields) => match crate::json::get_str(v, "error"@) {
            Some(e) => "error="@ + e,
            None => {
                let names = sorted_texts(member_names(fields@));
                if names.len() == 0 {
                    "{}"@
                } else {
                    "keys="@ + join(names, ","@)
                }
            },
        },
        JsonValue::Null => "null"@,
        _ => json_compact_text(v),
    }
}

proof fn lemma_insert_text_at(s: Seq<Seq<char>>, x: Seq<char>, p: int)
    requires
        0 <= p <= s.len(),
        forall|k: int| 0 <= k < p ==> !text_lt(x, #[trigger] s[k]),
        p == s.len() || text_lt(x, s[p]),
    ensures
        insert_text(s, x) == s.take(p) + seq![x] + s.skip(p),
    decreases p,
{
    if s.len() == 0 {
        assert(s.take(p) + seq![x] + s.skip(p) =~= seq![x]);
    } else if p == 0 {
        assert(s.take(p) + seq![x] + s.skip(p) =~= seq![x] + s);
    } else {
        let t = s.drop_first();
        assert(!text_lt(x, s[0]));
        assert forall|k: int| 0 <= k < p - 1 implies !text_lt(x, #[trigger] t[k]) by {
            assert(t[k] == s[k + 1]);
        }
        if p - 1 < t.len() {
            assert(t[p - 1] == s[p]);
        }
        lemma_insert_text_at(t, x, p - 1);
        assert(seq![s[0]] + (t.take(p - 1) + seq![x] + t.skip(p - 1)) =~= s.take(p) + seq![x]
            + s.skip(p));
    }
}

pub(crate) fn insert_sorted_text(out: &mut Vec<Vec<char>>, x: Vec<char>)
    ensures
        crate::text::views(final(out)@) == insert_text(crate::text::views(old(out)@), x@),
{
    let ghost s = crate::text::views(out@);
    let mut p: usize = 0;
    let mut found = false;
    while p < out.len() && !found
        invariant
            p <= out@.len(),
            s == crate::text::views(out@),
            found ==> p < out@.len() && text_lt(x@, s[p as int]),
            forall|k: int| 0 <= k < p ==> !text_lt(x@, #[trigger] s[k]),
        decreases out@.len() - p, (if found { 0int } else { 1int }),
    {
        assert(s[p as int] == out@[p as int]@);
        if text_lt_exec(&x, &out[p]) {
            found = true;
        } else {
            p = p + 1;
        }
    }
    proof {
        lemma_insert_text_at(s, x@, p as int);
    }
    let ghost xv = x@;
    out.insert(p, x);
    assert(crate::text::views(out@) =~= s.take(p as int) + seq![xv] + s.skip(p as int));
}

fn sorted_member_names(fields: &Vec<(String, JsonValue)>) -> (r: Vec<Vec<char>>)
    ensures
        crate::text::views(r@) == sorted_texts(member_names(fields@)),
{
    let ghost all = member_names(fields@);
    let mut out: Vec<Vec<char>> = Vec::new();
    let mut i: usize = 0;
    assert(all.take(0) =~= Seq::<Seq<char>>::empty());
    assert(crate::text::views(out@) =~= Seq::<Seq<char>>::empty());
    while i < fields.len()
        invariant
            i <= fields@.len(),
            all == member_names(fields@),
            crate::text::views(out@) == sorted_texts(all.take(i as int)),
        decreases fields@.len() - i,
    {
        assert(all.take(i + 1).drop_last() =~= all.take(i as int));
        assert(all.take(i + 1).last() == fields@[i as int].0@);
        insert_sorted_text(&mut out, chars_of(fields[i].0.as_str()));
        i = i + 1;
    }
    assert(all.take(fields@.len() as int) =~= all);
    out
}

/// One line describing an observation (see [`observation_summary`]).
pub fn summarize_observation(value: &JsonValue) -> (r: String)
    ensures
        r@ == observation_summary(*value),
{
    match value {
        JsonValue::Object(fields) => {
            match value.get_str("error") {
                Some(e) => {
                    let mut out = chars_of("error=");
                    push_str(&mut out, e.as_str());
                    string_of(&out)
                },
                None => {
                    let names = sorted_member_names(fields);
                    if names.len() == 0 {
                        string_of(&chars_of("{}"))
                    } else {
                        let mut out = chars_of("keys=");
                        let joined = crate::text::join_chars(&names, &chars_of(","));
                        push_all(&mut out, &joined);
                        string_of(&out)
                    }
                },
            }
        },
        JsonValue::Null => string_of(&chars_of("null")),
        _ => compact_json(value),
    }
}

// ---------------------------------------------------------------------------
// The plain summary
// ---------------------------------------------------------------------------

/// One finding of the summary: its number, severity, title and confidence, then its
/// evidence and recommended action, indented.
pub open spec fn summary_finding(i: nat, f: FindingView) -> Seq<char> {
    dec(i + 1) + ". ["@ + ascii_upper(severity_token_spec(f.severity)) + "] "@ + f.title
        + " (confidence "@ + two_decimals(f.confidence) + ")\n"@ + "   evidence: "@ + evidence_text(
        f.pointer,
    ) + "\n"@ + "   recommended_action: "@ + f.action + "\n"@
}

pub open spec fn summary_findings(fs: Seq<FindingView>) -> Seq<char>
    decreases fs.len(),
{
    if fs.len() == 0 {
        seq![]
    } else {
        summary_findings(fs.drop_last()) + summary_finding((fs.len() - 1) as nat, fs.last())
    }
}

/// The findings section of the summary, absent when there are no findings.
pub open spec fn summary_findings_section(fs: Seq<FindingView>) -> Seq<char> {
    if fs.len() == 0 {
        seq![]
    } else {
        "\nFindings:\n"@ + summary_findings(fs)
    }
}

/// One turn of the summary: its number, the tool and its compact arguments, and the
/// observation in one line.
pub open spec fn summary_turn(i: nat, t: AgentTurn) -> Seq<char> {
    dec(i + 1) + ".\n"@ + (match t.tool_call {
        Some(c) => "   tool: "@ + c.tool@ + "\n"@ + "   args: "@ + json_compact_text(c.args) + "\n"@,
        None => "   tool: none\n"@,
    }) + (match t.observation {
        Some(o) => "   observation: "@ + observation_summary(o) + "\n"@,
        None => "   observation: none\n"@,
    })
}

pub open spec fn summary_turns(ts: Seq<AgentTurn>) -> Seq<char>
    decreases ts.len(),
{
    if ts.len() == 0 {
        seq![]
    } else {
        summary_turns(ts.drop_last()) + summary_turn((ts.len() - 1) as nat, ts.last())
    }
}

/// The turn breakdown of the summary, absent when there are no turns.
pub open spec fn summary_turns_section(ts: Seq<AgentTurn>) -> Seq<char> {
    if ts.len() == 0 {
        seq![]
    } else {
        "\nTurn Breakdown:\n"@ + summary_turns(ts)
    }
}

/// The whole summary, trailing white space removed.
pub open spec fn summary_text(r: RunReport) -> Seq<char> {
    trim_end(
        head_text(r, ""@) + summary_findings_section(finding_views(r.findings@))
            + summary_turns_section(r.turns@),
    )
}

#[verifier::spinoff_prover]
#[verifier::rlimit(30)]
fn push_summary_finding(out: &mut Vec<char>, i: usize, f: &Finding)
    requires
        i < usize::MAX,
    ensures
        final(out)@ == old(out)@ + summary_finding(i as nat, f@),
{
    push_all(out, &usize_dec(i + 1));
    push_str(out, ". [");
    push_str(out, finding_severity_label(f.severity));
    push_str(out, "] ");
    push_str(out, f.title.as_str());
    push_str(out, " (confidence ");
    push_two_decimals(out, f.confidence as u64);
    push_str(out, ")\n");
    push_str(out, "   evidence: ");
    let ev = render_evidence_pointer(&f.evidence_pointer);
    push_str(out, ev.as_str());
    push_str(out, "\n");
    push_str(out, "   recommended_action: ");
    push_str(out, f.recommended_action.as_str());
    push_str(out, "\n");
    assert(final(out)@ =~= old(out)@ + summary_finding(i as nat, f@));
}

fn push_summary_findings(out: &mut Vec<char>, findings: &Vec<Finding>)
    ensures
        final(out)@ == old(out)@ + summary_findings_section(finding_views(findings@)),
{
    let ghost fs = finding_views(findings@);
    if findings.len() == 0 {
        assert(final(out)@ =~= old(out)@ + summary_findings_section(fs));
        return;
    }
    push_str(out, "\nFindings:\n");
    let ghost start = out@;
    let mut i: usize = 0;
    assert(fs.take(0) =~= Seq::<FindingView>::empty());
    while i < findings.len()
        invariant
            i <= findings@.len(),
            fs == finding_views(findings@),
            out@ == start + summary_findings(fs.take(i as int)),
        decreases findings@.len() - i,
    {
        assert(fs.take(i + 1).drop_last() =~= fs.take(i as int));
        assert(fs.take(i + 1).last() == findings@[i as int]@);
        push_summary_finding(out, i, &findings[i]);
        assert(out@ =~= start + summary_findings(fs.take(i + 1)));
        i = i + 1;
    }
    assert(fs.take(findings@.len() as int) =~= fs);
    assert(final(out)@ =~= old(out)@ + summary_findings_section(fs));
}

#[verifier::spinoff_prover]
#[verifier::rlimit(30)]
fn push_summary_turn(out: &mut Vec<char>, i: usize, t: &AgentTurn)
    requires
        i < usize::MAX,
    ensures
        final(out)@ == old(out)@ + summary_turn(i as nat, *t),
{
    push_all(out, &usize_dec(i + 1));
    push_str(out, ".\n");
    match &t.tool_call {
        Some(c) => {
            push_str(out, "   tool: ");
            push_str(out, c.tool.as_str());
            push_str(out, "\n");
            push_str(out, "   args: ");
            let args = compact_json(&c.args);
            push_str(out, args.as_str());
            push_str(out, "\n");
        },
        None => push_str(out, "   tool: none\n"),
    }
    match &t.observation {
        Some(o) => {
            push_str(out, "   observation: ");
            let line = summarize_observation(o);
            push_str(out, line.as_str());
            push_str(out, "\n");
        },
        None => push_str(out, "   observation: none\n"),
    }
    assert(final(out)@ =~= old(out)@ + summary_turn(i as nat, *t));
}

fn push_summary_turns(out: &mut Vec<char>, turns: &Vec<AgentTurn>)
    ensures
        final(out)@ == old(out)@ + summary_turns_section(turns@),
{
    let ghost ts = turns@;
    if turns.len() == 0 {
        assert(final(out)@ =~= old(out)@ + summary_turns_section(ts));
        return;
    }
    push_str(out, "\nTurn Breakdown:\n");
    let ghost start = out@;
    let mut i: usize = 0;
    assert(ts.take(0) =~= Seq::<AgentTurn>::empty());
    while i < turns.len()
        invariant
            i <= turns@.len(),
            ts == turns@,
            out@ == start + summary_turns(ts.take(i as int)),
        decreases turns@.len() - i,
    {
        assert(ts.take(i + 1).drop_last() =~= ts.take(i as int));
        assert(ts.take(i + 1).last() == turns@[i as int]);
        push_summary_turn(out, i, &turns[i]);
        assert(out@ =~= start + summary_turns(ts.take(i + 1)));
        i = i + 1;
    }
    assert(ts.take(turns@.len() as int) =~= ts);
    assert(final(out)@ =~= old(out)@ + summary_turns_section(ts));
}

/// The plain-text summary of a report (see [`summary_text`]).
pub fn render_summary(report: &RunReport) -> (r: String)
    ensures
        r@ == summary_text(*report),
{
    let mut out: Vec<char> = Vec::new();
    push_head(&mut out, report, "");
    push_summary_findings(&mut out, &report.findings);
    push_summary_turns(&mut out, &report.turns);
    assert(out@ =~= head_text(*report, ""@) + summary_findings_section(finding_views(report.findings@))
        + summary_turns_section(report.turns@));
    string_of(&trim_end_chars(&out))
}

// ---------------------------------------------------------------------------
// The Markdown report
// ---------------------------------------------------------------------------

/// One finding of the Markdown report, under a heading of its own.
pub open spec fn markdown_finding(i: nat, f: FindingView) -> Seq<char> {
    "\n### Finding "@ + dec(i + 1) + "\n"@ + "- Title: "@ + f.title + "\n"@ + "- Severity: "@
        + ascii_upper(severity_token_spec(f.severity)) + "\n"@ + "- Confidence: "@ + two_decimals(
        f.confidence,
    ) + "\n"@ + "- Evidence: "@ + evidence_text(f.pointer) + "\n"@ + "- Recommended Action: "@
        + f.action + "\n"@
}

pub open spec fn markdown_findings(fs: Seq<FindingView>) -> Seq<char>
    decreases fs.len(),
{
    if fs.len() == 0 {
        seq![]
    } else {
        markdown_findings(fs.drop_last()) + markdown_finding((fs.len() - 1) as nat, fs.last())
    }
}

/// The findings section of the Markdown report, absent when there are no findings.
pub open spec fn markdown_findings_section(fs: Seq<FindingView>) -> Seq<char> {
    if fs.len() == 0 {
        seq![]
    } else {
        "\n## Findings\n"@ + markdown_findings(fs)
    }
}

/// A JSON document in a fenced `json` block.
pub open spec fn json_block(v: JsonValue) -> Seq<char> {
    "```json\n"@ + json_pretty_text(v) + "\n"@ + "```\n"@
}

/// One turn of the Markdown report: the tool with its indented arguments and the
/// indented observation.
pub open spec fn markdown_turn(i: nat, t: AgentTurn) -> Seq<char> {
    "\n### Turn "@ + dec(i + 1) + "\n"@ + (match t.tool_call {
        Some(c) => "- Tool: "@ + c.tool@ + "\n"@ + "- Args:\n"@ + json_block(c.args),
        None => "- Tool: none\n"@,
    }) + (match t.observation {
        Some(o) => "- Observation:\n"@ + json_block(o),
        None => "- Observation: none\n"@,
    })
}

pub open spec fn markdown_turns(ts: Seq<AgentTurn>) -> Seq<char>
    decreases ts.len(),
{
    if ts.len() == 0 {
        seq![]
    } else {
        markdown_turns(ts.drop_last()) + markdown_turn((ts.len() - 1) as nat, ts.last())
    }
}

/// The turns section of the Markdown report, absent when there are no turns.
pub open spec fn markdown_turns_section(ts: Seq<AgentTurn>) -> Seq<char> {
    if ts.len() == 0 {
        seq![]
    } else {
        "\n## Turns\n"@ + markdown_turns(ts)
    }
}

/// The whole Markdown report, trailing white space removed.
pub open spec fn markdown_text(r: RunReport) -> Seq<char> {
    trim_end(
        "# WraithRun Report\n\n"@ + head_text(r, "- "@) + markdown_findings_section(
            finding_views(r.findings@),
        ) + markdown_turns_section(r.turns@),
    )
}

#[verifier::spinoff_prover]
#[verifier::rlimit(30)]
fn push_markdown_finding(out: &mut Vec<char>, i: usize, f: &Finding)
    requires
        i < usize::MAX,
    ensures
        final(out)@ == old(out)@ + markdown_finding(i as nat, f@),
{
    push_str(out, "\n### Finding ");
    push_all(out, &usize_dec(i + 1));
    push_str(out, "\n");
    push_str(out, "- Title: ");
    push_str(out, f.title.as_str());
    push_str(out, "\n");
    push_str(out, "- Severity: ");
    push_str(out, finding_severity_label(f.severity));
    push_str(out, "\n");
    push_str(out, "- Confidence: ");
    push_two_decimals(out, f.confidence as u64);
    push_str(out, "\n");
    push_str(out, "- Evidence: ");
    let ev = render_evidence_pointer(&f.evidence_pointer);
    push_str(out, ev.as_str());
    push_str(out, "\n");
    push_str(out, "- Recommended Action: ");
    push_str(out, f.recommended_action.as_str());
    push_str(out, "\n");
    assert(final(out)@ =~= old(out)@ + markdown_finding(i as nat, f@));
}

fn push_markdown_findings(out: &mut Vec<char>, findings: &Vec<Finding>)
    ensures
        final(out)@ == old(out)@ + markdown_findings_section(finding_views(findings@)),
{
    let ghost fs = finding_views(findings@);
    if findings.len() == 0 {
        assert(final(out)@ =~= old(out)@ + markdown_findings_section(fs));
        return;
    }
    push_str(out, "\n## Findings\n");
    let ghost start = out@;
    let mut i: usize = 0;
    assert(fs.take(0) =~= Seq::<FindingView>::empty());
    while i < findings.len()
        invariant
            i <= findings@.len(),
            fs == finding_views(findings@),
            out@ == start + markdown_findings(fs.take(i as int)),
        decreases findings@.len() - i,
    {
        assert(fs.take(i + 1).drop_last() =~= fs.take(i as int));
        assert(fs.take(i + 1).last() == findings@[i as int]@);
        push_markdown_finding(out, i, &findings[i]);
        assert(out@ =~= start + markdown_findings(fs.take(i + 1)));
        i = i + 1;
    }
    assert(fs.take(findings@.len() as int) =~= fs);
    assert(final(out)@ =~= old(out)@ + markdown_findings_section(fs));
}

fn push_json_block(out: &mut Vec<char>, v: &JsonValue)
    ensures
        final(out)@ == old(out)@ + json_block(*v),
{
    push_str(out, "```json\n");
    let text = pretty_json(v);
    push_str(out, text.as_str());
    push_str(out, "\n");
    push_str(out, "```\n");
    assert(final(out)@ =~= old(out)@ + json_block(*v));
}

#[verifier::spinoff_prover]
#[verifier::rlimit(30)]
fn push_markdown_turn(out: &mut Vec<char>, i: usize, t: &AgentTurn)
    requires
        i < usize::MAX,
    ensures
        final(out)@ == old(out)@ + markdown_turn(i as nat, *t),
{
    push_str(out, "\n### Turn ");
    push_all(out, &usize_dec(i + 1));
    push_str(out, "\n");
    match &t.tool_call {
        Some(c) => {
            push_str(out, "- Tool: ");
            push_str(out, c.tool.as_str());
            push_str(out, "\n");
            push_str(out, "- Args:\n");
            push_json_block(out, &c.args);
        },
        None => push_str(out, "- Tool: none\n"),
    }
    match &t.observation {
        Some(o) => {
            push_str(out, "- Observation:\n");
            push_json_block(out, o);
        },
        None => push_str(out, "- Observation: none\n"),
    }
    assert(final(out)@ =~= old(out)@ + markdown_turn(i as nat, *t));
}

fn push_markdown_turns(out: &mut Vec<char>, turns: &Vec<AgentTurn>)
    ensures
        final(out)@ == old(out)@ + markdown_turns_section(turns@),
{
    let ghost ts = turns@;
    if turns.len() == 0 {
        assert(final(out)@ =~= old(out)@ + markdown_turns_section(ts));
        return;
    }
    push_str(out, "\n## Turns\n");
    let ghost start = out@;
    let mut i: usize = 0;
    assert(ts.take(0) =~= Seq::<AgentTurn>::empty());
    while i < turns.len()
        invariant
            i <= turns@.len(),
            ts == turns@,
            out@ == start + markdown_turns(ts.take(i as int)),
        decreases turns@.len() - i,
    {
        assert(ts.take(i + 1).drop_last() =~= ts.take(i as int));
        assert(ts.take(i + 1).last() == turns@[i as int]);
        push_markdown_turn(out, i, &turns[i]);
        assert(out@ =~= start + markdown_turns(ts.take(i + 1)));
        i = i + 1;
    }
    assert(ts.take(turns@.len() as int) =~= ts);
    assert(final(out)@ =~= old(out)@ + markdown_turns_section(ts));
}

/// The Markdown report (see [`markdown_text`]).
pub fn render_markdown(report: &RunReport) -> (r: String)
    ensures
        r@ == markdown_text(*report),
{
    let mut out: Vec<char> = chars_of("# WraithRun Report\n\n");
    push_head(&mut out, report, "- ");
    push_markdown_findings(&mut out, &report.findings);
    push_markdown_turns(&mut out, &report.turns);
    assert(out@ =~= "# WraithRun Report\n\n"@ + head_text(*report, "- "@) + markdown_findings_section(
        finding_views(report.findings@),
    ) + markdown_turns_section(report.turns@));
    string_of(&trim_end_chars(&out))
}

// ---------------------------------------------------------------------------
// The live-fallback finding
// ---------------------------------------------------------------------------

/// Some finding points at the live error of a fallback decision.
pub open spec fn has_fallback_finding(fs: Seq<FindingView>) -> bool {
    exists|i: int| 0 <= i < fs.len() && (#[trigger] fs[i]).pointer.field == "live_fallback_decision.live_error"@
}

/// The finding that records a live-mode fallback.
pub open spec fn fallback_finding(d: LiveFallbackDecision) -> FindingView {
    FindingView {
        title: "Live mode fallback applied after inference failure"@,
        severity: FindingSeverity::Info,
        confidence: 100,
        label: crate::model::confidence_label_spec(100),
        factors: seq![],
        relevance: crate::model::FindingRelevance::Primary,
        pointer: crate::model::PointerView { turn: None, tool: None, field: "live_fallback_decision.live_error"@ },
        action: "Review live inference error details and model-pack readiness, then rerun live mode after fixing root cause. Fallback reason: "@
            + d.reason@ + " (code: "@ + d.reason_code@ + ")."@,
    }
}

/// The findings after recording a fallback decision (see
/// [`append_live_fallback_finding`]).
pub open spec fn with_fallback(fs: Seq<FindingView>, d: LiveFallbackDecision) -> Seq<FindingView> {
    if has_fallback_finding(fs) {
        fs
    } else {
        fs.push(fallback_finding(d))
    }
}

/// Recording a fallback decision a second time changes nothing: a report holds at most
/// the one fallback finding that the first decision produced.
pub proof fn lemma_fallback_recorded_once(fs: Seq<FindingView>, first: LiveFallbackDecision, second: LiveFallbackDecision)
    ensures
        with_fallback(with_fallback(fs, first), second) == with_fallback(fs, first),
{
    if !has_fallback_finding(fs) {
        let out = fs.push(fallback_finding(first));
        assert(out[fs.len() as int].pointer.field == "live_fallback_decision.live_error"@);
        assert(has_fallback_finding(out));
    }
}

/// Two reports that differ at most in their findings.
pub open spec fn same_but_findings(a: RunReport, b: RunReport) -> bool {
    &&& a.task == b.task
    &&& a.case_id == b.case_id
    &&& a.max_severity == b.max_severity
    &&& a.backend == b.backend
    &&& a.live_fallback_decision == b.live_fallback_decision
    &&& a.run_timing == b.run_timing
    &&& a.live_run_metrics == b.live_run_metrics
    &&& a.turns == b.turns
    &&& a.final_answer == b.final_answer
    &&& a.supplementary_findings == b.supplementary_findings
}

/// Records a live-mode fallback as a finding, unless one is already recorded.
pub fn append_live_fallback_finding(report: &mut RunReport, decision: &LiveFallbackDecision)
    ensures
        same_but_findings(*final(report), *old(report)),
        finding_views(final(report).findings@) == with_fallback(finding_views(old(report).findings@), *decision),
{
    let marker = chars_of("live_fallback_decision.live_error");
    let ghost fs = finding_views(report.findings@);
    let mut i: usize = 0;
    while i < report.findings.len()
        invariant
            i <= report.findings@.len(),
            fs == finding_views(report.findings@),
            marker@ == "live_fallback_decision.live_error"@,
            forall|k: int| 0 <= k < i ==> (#[trigger] fs[k]).pointer.field != "live_fallback_decision.live_error"@,
        decreases report.findings@.len() - i,
    {
        let field = chars_of(report.findings[i].evidence_pointer.field.as_str());
        if crate::text::chars_eq(&field, &marker) {
            assert(fs[i as int].pointer.field == "live_fallback_decision.live_error"@);
            return;
        }
        i = i + 1;
    }
    let mut action = chars_of(
        "Review live inference error details and model-pack readiness, then rerun live mode after fixing root cause. Fallback reason: ",
    );
    push_str(&mut action, decision.reason.as_str());
    push_str(&mut action, " (code: ");
    push_str(&mut action, decision.reason_code.as_str());
    push_str(&mut action, ").");
    let pointer = crate::model::EvidencePointer { turn: None, tool: None, field: string_of(&marker) };
    let f = Finding::new(
        string_of(&chars_of("Live mode fallback applied after inference failure")),
        FindingSeverity::Info,
        100,
        pointer,
        string_of(&action),
    );
    let ghost fv = f@;
    report.findings.push(f);
    assert(finding_views(report.findings@) =~= fs.push(fv));
}

/// The name of a fallback policy, as a decision records it.
pub open spec fn policy_token_spec(policy: LiveFallbackPolicy) -> Seq<char> {
    match policy {
        LiveFallbackPolicy::Disabled => "none"@,
        LiveFallbackPolicy::DryRunOnError => "dry-run-on-error"@,
    }
}

/// The decision taken when a live attempt fails with the given error text: there is
/// one only under the `dry-run-on-error` policy, and it records the policy, the fixed
/// reason, the error's reason code, the error itself and the dry-run mode.
pub fn live_fallback_decision(policy: LiveFallbackPolicy, live_error: &str) -> (r: Option<LiveFallbackDecision>)
    ensures
        (r is Some) == (policy == LiveFallbackPolicy::DryRunOnError),
        r matches Some(d) ==> {
            &&& d.policy@ == policy_token_spec(policy)
            &&& d.reason@ == "live inference failed and runtime fell back to dry-run"@
            &&& d.reason_code@ == live_error_code(live_error@)
            &&& d.live_error@ == live_error@
            &&& d.fallback_mode@ == "dry-run"@
        },
{
    match policy {
        LiveFallbackPolicy::Disabled => None,
        LiveFallbackPolicy::DryRunOnError => {
            let code = classify_live_error_reason_code(live_error);
            Some(LiveFallbackDecision {
                policy: string_of(&chars_of(live_fallback_policy_token(policy))),
                reason: string_of(&chars_of("live inference failed and runtime fell back to dry-run")),
                reason_code: string_of(&chars_of(code)),
                live_error: string_of(&chars_of(live_error)),
                fallback_mode: string_of(&chars_of("dry-run")),
            })
        },
    }
}

/// The first-token latency of a run that fell back: the live attempt's duration added,
/// saturating, to the dry run's own first-token latency, when it has one.
pub fn fallback_first_token_latency(attempt_ms: u64, first: Option<u64>) -> (r: Option<u64>)
    ensures
        match first {
            None => r is None,
            Some(v) => r == Some(
                if attempt_ms + v > u64::MAX { u64::MAX } else { (attempt_ms + v) as u64 },
            ),
        },
{
    match first {
        None => None,
        Some(v) => Some(attempt_ms.saturating_add(v)),
    }
}

/// The dry-run report of a fallback, completed: the fallback finding appended (once),
/// the decision recorded, and the single-attempt metrics of a failed live attempt with
/// the decision's reason code and the shifted first-token latency.
pub fn record_live_fallback(report: &mut RunReport, decision: LiveFallbackDecision, attempt_ms: u64, total_ms: u64)
    ensures
        final(report).task == old(report).task,
        final(report).case_id == old(report).case_id,
        final(report).max_severity == old(report).max_severity,
        final(report).backend == old(report).backend,
        final(report).supplementary_findings == old(report).supplementary_findings,
        final(report).turns == old(report).turns,
        final(report).final_answer == old(report).final_answer,
        final(report).run_timing == old(report).run_timing,
        finding_views(final(report).findings@) == with_fallback(finding_views(old(report).findings@), decision),
        final(report).live_fallback_decision == Some(decision),
        final(report).live_run_metrics matches Some(m) && single_attempt_metrics_ok(
            m,
            total_ms,
            attempt_ms,
            match old(report).run_timing {
                Some(t) => match t.first_token_latency_ms {
                    Some(v) => Some(if attempt_ms + v > u64::MAX { u64::MAX } else { (attempt_ms + v) as u64 }),
                    None => None,
                },
                None => None,
            },
            false,
            Some(decision.reason_code@),
        ),
{
    append_live_fallback_finding(report, &decision);
    let first = match &report.run_timing {
        Some(t) => t.first_token_latency_ms,
        None => None,
    };
    let shifted = fallback_first_token_latency(attempt_ms, first);
    let metrics = build_live_run_metrics(total_ms, attempt_ms, shifted, false, Some(decision.reason_code.as_str()));
    report.live_fallback_decision = Some(decision);
    report.live_run_metrics = Some(metrics);
}

} // verus!
