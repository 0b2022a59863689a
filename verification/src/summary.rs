//! The deterministic investigation summary written when no model synthesises one.
use vstd::prelude::*;

use crate::derive::{dedup_seq, distinct_tool_count, distinct_tool_count_exec, tool_list};
use crate::model::{
    clone_opt_string, clone_string, factor_views, finding_views, severity_token_spec,
    ConfidenceFactor, EvidencePointer, Finding, FindingSeverity, FindingView,
};
use crate::report::{sort_findings, sort_spec};
use crate::text::{
    ascii_upper, chars_eq, chars_of, dec, join, join_chars, push_all, push_str, slice_chars,
    string_of, to_ascii_upper, usize_dec, views,
};

verus! {

/// A copy of a confidence factor.
pub fn clone_factor(f: &ConfidenceFactor) -> (r: ConfidenceFactor)
    ensures
        r@ == f@,
{
    ConfidenceFactor {
        factor: clone_string(&f.factor),
        contribution: f.contribution,
        detail: clone_string(&f.detail),
    }
}

/// A copy of a finding.
pub fn clone_finding(f: &Finding) -> (r: Finding)
    ensures
        r@ == f@,
{
    let mut factors: Vec<ConfidenceFactor> = Vec::new();
    let mut i: usize = 0;
    while i < f.confidence_factors.len()
        invariant
            i <= f.confidence_factors@.len(),
            factors@.len() == i,
            factor_views(factors@) == factor_views(f.confidence_factors@).take(i as int),
        decreases f.confidence_factors@.len() - i,
    {
        let c = clone_factor(&f.confidence_factors[i]);
        let ghost before = factors@;
        factors.push(c);
        assert forall|k: int| 0 <= k < i implies factor_views(factors@)[k] == factor_views(before)[k] by {
            assert(factors@[k] == before[k]);
        }
        assert(factor_views(factors@) =~= factor_views(f.confidence_factors@).take(i + 1));
        i = i + 1;
    }
    assert(factor_views(f.confidence_factors@).take(f.confidence_factors@.len() as int)
        =~= factor_views(f.confidence_factors@));
    Finding {
        title: clone_string(&f.title),
        severity: f.severity,
        confidence: f.confidence,
        confidence_label: f.confidence_label,
        confidence_factors: factors,
        relevance: f.relevance,
        evidence_pointer: EvidencePointer {
            turn: f.evidence_pointer.turn,
            tool: clone_opt_string(&f.evidence_pointer.tool),
            field: clone_string(&f.evidence_pointer.field),
        },
        recommended_action: clone_string(&f.recommended_action),
    }
}

/// A copy of a list of findings.
pub fn clone_findings(fs: &Vec<Finding>) -> (r: Vec<Finding>)
    ensures
        finding_views(r@) == finding_views(fs@),
{
    let mut out: Vec<Finding> = Vec::new();
    let mut i: usize = 0;
    while i < fs.len()
        invariant
            i <= fs@.len(),
            out@.len() == i,
            finding_views(out@) == finding_views(fs@).take(i as int),
        decreases fs@.len() - i,
    {
        let c = clone_finding(&fs[i]);
        let ghost before = out@;
        out.push(c);
        assert forall|k: int| 0 <= k < i implies finding_views(out@)[k] == finding_views(before)[k] by {
            assert(out@[k] == before[k]);
        }
        assert(finding_views(out@) =~= finding_views(fs@).take(i + 1));
        i = i + 1;
    }
    assert(finding_views(fs@).take(fs@.len() as int) =~= finding_views(fs@));
    out
}

/// The findings of one severity, in order.
pub open spec fn sev_group(s: Seq<FindingView>, sev: FindingSeverity) -> Seq<FindingView>
    decreases s.len(),
{
    if s.len() == 0 {
        seq![]
    } else {
        let rest = sev_group(s.drop_last(), sev);
        if s.last().severity == sev {
            rest.push(s.last())
        } else {
            rest
        }
    }
}

pub open spec fn tool_tag(f: FindingView) -> Seq<char> {
    match f.pointer.tool {
        Some(t) => " ["@ + t + "]"@,
        None => seq![],
    }
}

/// `  • title [tool] — action` and a newline.
pub open spec fn finding_line(f: FindingView) -> Seq<char> {
    "  • "@ + f.title + tool_tag(f) + " — "@ + f.action + "\n"@
}

pub open spec fn lines_text(g: Seq<FindingView>) -> Seq<char>
    decreases g.len(),
{
    if g.len() == 0 {
        seq![]
    } else {
        lines_text(g.drop_last()) + finding_line(g.last())
    }
}

pub open spec fn group_header(sev: FindingSeverity) -> Seq<char> {
    match sev {
        FindingSeverity::Critical => "🔴 CRITICAL"@,
        FindingSeverity::High => "🟠 HIGH"@,
        FindingSeverity::Medium => "🟡 MEDIUM"@,
        FindingSeverity::Low => "🔵 LOW"@,
        FindingSeverity::Info => "ℹ️  INFO"@,
    }
}

/// The block of one severity group, empty when the group is.
pub open spec fn group_text(sorted: Seq<FindingView>, sev: FindingSeverity) -> Seq<char> {
    let g = sev_group(sorted, sev);
    if g.len() == 0 {
        seq![]
    } else {
        "── "@ + group_header(sev) + " ("@ + dec(g.len()) + ") ──\n"@ + lines_text(g) + "\n"@
    }
}

pub open spec fn groups_text(sorted: Seq<FindingView>) -> Seq<char> {
    group_text(sorted, FindingSeverity::Critical) + group_text(sorted, FindingSeverity::High)
        + group_text(sorted, FindingSeverity::Medium) + group_text(sorted, FindingSeverity::Low)
        + group_text(sorted, FindingSeverity::Info)
}

/// The cross-reference block, present when more than one tool contributed.
pub open spec fn cross_text(sorted: Seq<FindingView>, ntools: nat) -> Seq<char> {
    let keys = dedup_seq(tool_list(sorted));
    if ntools > 1 && keys.len() > 1 {
        "CROSS-REFERENCES:\n"@ + "  Data was collected from "@ + dec(keys.len()) + " sources ("@
            + join(keys, ", "@) + "). "@ + "Correlate findings across tools for a complete picture.\n\n"@
    } else {
        seq![]
    }
}

/// The recommended actions of findings, in order.
pub open spec fn action_list(s: Seq<FindingView>) -> Seq<Seq<char>>
    decreases s.len(),
{
    if s.len() == 0 {
        seq![]
    } else {
        action_list(s.drop_last()).push(s.last().action)
    }
}

/// Numbered lines `  i. action`.
pub open spec fn numbered_actions(acts: Seq<Seq<char>>) -> Seq<char>
    decreases acts.len(),
{
    if acts.len() == 0 {
        seq![]
    } else {
        numbered_actions(acts.drop_last()) + "  "@ + dec(acts.len()) + ". "@ + acts.last() + "\n"@
    }
}

pub open spec fn drop_final_newline(s: Seq<char>) -> Seq<char> {
    if s.len() > 0 && s.last() == '\n' {
        s.drop_last()
    } else {
        s
    }
}

/// The opening lines: the task when one is given, how many findings, from how many
/// tools, and the maximum severity.
pub open spec fn summary_header(task: Option<Seq<char>>, n: nat, ntools: nat, up: Seq<char>) -> Seq<char> {
    match task {
        Some(t) => "INVESTIGATION SUMMARY — \""@ + t + "\"\n"@ + dec(n) + " findings across "@ + dec(ntools)
            + " tool(s). Maximum severity: "@ + up + ".\n\n"@,
        None => "INVESTIGATION SUMMARY\n"@ + dec(n) + " findings detected. Maximum severity: "@ + up
            + ".\n\n"@,
    }
}

/// The closing blocks: cross-references, the overall risk and the distinct actions.
pub open spec fn summary_tail(sorted: Seq<FindingView>, ntools: nat, up: Seq<char>) -> Seq<char> {
    cross_text(sorted, ntools) + "OVERALL RISK: "@ + up + "\n\n"@
        + "RECOMMENDED ACTIONS (priority order):\n"@ + numbered_actions(dedup_seq(action_list(sorted)))
}

/// The deterministic summary of a run: header, findings grouped by severity, the tools
/// that contributed, the overall risk, and the distinct recommended actions by priority.
pub open spec fn basic_summary_spec(fs: Seq<FindingView>, task: Option<Seq<char>>) -> Seq<char> {
    if fs.len() == 0 {
        let prefix = match task {
            Some(t) => "SUMMARY: Task \""@ + t + "\" completed with 0 findings. Maximum severity: info."@,
            None => "SUMMARY: 0 findings detected. Maximum severity: info."@,
        };
        prefix + "\nFINDINGS:\n(none)\nRISK: info\nACTIONS:\n(none)"@
    } else {
        let sorted = sort_spec(fs);
        let up = ascii_upper(severity_token_spec(sorted[0].severity));
        let ntools = distinct_tool_count(fs);
        drop_final_newline(
            summary_header(task, fs.len(), ntools, up) + groups_text(sorted) + summary_tail(
                sorted,
                ntools,
                up,
            ),
        )
    }
}

fn lines_text_exec(s: &Vec<Finding>, sev: FindingSeverity) -> (r: (usize, Vec<char>))
    ensures
        r.0 as nat == sev_group(finding_views(s@), sev).len(),
        r.1@ == lines_text(sev_group(finding_views(s@), sev)),
{
    let ghost all = finding_views(s@);
    let mut n: usize = 0;
    let mut out: Vec<char> = Vec::new();
    let mut i: usize = 0;
    assert(all.take(0) =~= Seq::<FindingView>::empty());
    while i < s.len()
        invariant
            i <= s@.len(),
            all == finding_views(s@),
            n as nat == sev_group(all.take(i as int), sev).len(),
            n <= i,
            out@ == lines_text(sev_group(all.take(i as int), sev)),
        decreases s@.len() - i,
    {
        assert(all.take(i + 1).drop_last() =~= all.take(i as int));
        assert(all.take(i + 1).last() == s@[i as int]@);
        let f = &s[i];
        if f.severity == sev {
            let ghost g = sev_group(all.take(i as int), sev);
            assert(sev_group(all.take(i + 1), sev).drop_last() =~= g);
            push_str(&mut out, "  • ");
            let t = chars_of(f.title.as_str());
            push_all(&mut out, &t);
            match &f.evidence_pointer.tool {
                Some(tool) => {
                    push_str(&mut out, " [");
                    let tc = chars_of(tool.as_str());
                    push_all(&mut out, &tc);
                    push_str(&mut out, "]");
                },
                None => {},
            }
            push_str(&mut out, " — ");
            let a = chars_of(f.recommended_action.as_str());
            push_all(&mut out, &a);
            push_str(&mut out, "\n");
            n = n + 1;
        }
        i = i + 1;
    }
    assert(all.take(s@.len() as int) =~= all);
    (n, out)
}

fn group_text_exec(sorted: &Vec<Finding>, sev: FindingSeverity, header: &str) -> (r: Vec<char>)
    requires
        header@ == group_header(sev),
    ensures
        r@ == group_text(finding_views(sorted@), sev),
{
    let (n, body) = lines_text_exec(sorted, sev);
    if n == 0 {
        return Vec::new();
    }
    let mut out = chars_of("── ");
    push_str(&mut out, header);
    push_str(&mut out, " (");
    let d = usize_dec(n);
    push_all(&mut out, &d);
    push_str(&mut out, ") ──\n");
    push_all(&mut out, &body);
    push_str(&mut out, "\n");
    out
}

fn contains_chars(seen: &Vec<Vec<char>>, x: &Vec<char>) -> (r: bool)
    ensures
        r == views(seen@).contains(x@),
{
    let mut i: usize = 0;
    while i < seen.len()
        invariant
            i <= seen@.len(),
            forall|k: int| 0 <= k < i ==> seen@[k]@ != x@,
        decreases seen@.len() - i,
    {
        if chars_eq(&seen[i], x) {
            assert(views(seen@)[i as int] == x@);
            return true;
        }
        i = i + 1;
    }
    assert forall|k: int| 0 <= k < views(seen@).len() implies views(seen@)[k] != x@ by {
        assert(views(seen@)[k] == seen@[k]@);
    }
    false
}

fn distinct_tools_exec(fs: &Vec<Finding>) -> (r: Vec<Vec<char>>)
    ensures
        views(r@) == dedup_seq(tool_list(finding_views(fs@))),
{
    let mut seen: Vec<Vec<char>> = Vec::new();
    let mut i: usize = 0;
    let ghost all = finding_views(fs@);
    assert(all.take(0) =~= Seq::<FindingView>::empty());
    assert(views(seen@) =~= Seq::<Seq<char>>::empty());
    while i < fs.len()
        invariant
            i <= fs@.len(),
            all == finding_views(fs@),
            views(seen@) == dedup_seq(tool_list(all.take(i as int))),
        decreases fs@.len() - i,
    {
        assert(all.take(i + 1).drop_last() =~= all.take(i as int));
        assert(all.take(i + 1).last() == fs@[i as int]@);
        match &fs[i].evidence_pointer.tool {
            Some(t) => {
                let tc = chars_of(t.as_str());
                let ghost tl = tool_list(all.take(i as int));
                assert(tool_list(all.take(i + 1)) =~= tl.push(tc@));
                assert(tool_list(all.take(i + 1)).drop_last() =~= tl);
                if !contains_chars(&seen, &tc) {
                    let ghost before = views(seen@);
                    seen.push(tc);
                    assert(views(seen@) =~= before.push(tc@));
                }
            },
            None => {},
        }
        i = i + 1;
    }
    assert(all.take(fs@.len() as int) =~= all);
    seen
}

fn distinct_actions_exec(fs: &Vec<Finding>) -> (r: Vec<Vec<char>>)
    ensures
        views(r@) == dedup_seq(action_list(finding_views(fs@))),
{
    let mut seen: Vec<Vec<char>> = Vec::new();
    let mut i: usize = 0;
    let ghost all = finding_views(fs@);
    assert(all.take(0) =~= Seq::<FindingView>::empty());
    assert(views(seen@) =~= Seq::<Seq<char>>::empty());
    while i < fs.len()
        invariant
            i <= fs@.len(),
            all == finding_views(fs@),
            views(seen@) == dedup_seq(action_list(all.take(i as int))),
        decreases fs@.len() - i,
    {
        assert(all.take(i + 1).drop_last() =~= all.take(i as int));
        assert(all.take(i + 1).last() == fs@[i as int]@);
        let ac = chars_of(fs[i].recommended_action.as_str());
        let ghost al = action_list(all.take(i as int));
        assert(action_list(all.take(i + 1)) =~= al.push(ac@));
        assert(action_list(all.take(i + 1)).drop_last() =~= al);
        if !contains_chars(&seen, &ac) {
            let ghost before = views(seen@);
            seen.push(ac);
            assert(views(seen@) =~= before.push(ac@));
        }
        i = i + 1;
    }
    assert(all.take(fs@.len() as int) =~= all);
    seen
}

fn numbered_actions_exec(acts: &Vec<Vec<char>>) -> (r: Vec<char>)
    ensures
        r@ == numbered_actions(views(acts@)),
{
    let ghost all = views(acts@);
    let mut out: Vec<char> = Vec::new();
    let mut i: usize = 0;
    assert(all.take(0) =~= Seq::<Seq<char>>::empty());
    while i < acts.len()
        invariant
            i <= acts@.len(),
            all == views(acts@),
            out@ == numbered_actions(all.take(i as int)),
        decreases acts@.len() - i,
    {
        assert(all.take(i + 1).drop_last() =~= all.take(i as int));
        assert(all.take(i + 1).last() == acts@[i as int]@);
        push_str(&mut out, "  ");
        let d = usize_dec(i + 1);
        push_all(&mut out, &d);
        push_str(&mut out, ". ");
        push_all(&mut out, &acts[i]);
        push_str(&mut out, "\n");
        i = i + 1;
    }
    assert(all.take(acts@.len() as int) =~= all);
    out
}

fn summary_header_exec(task: Option<&str>, n: usize, ntools: usize, up: &Vec<char>) -> (r: Vec<char>)
    ensures
        r@ == summary_header(
            match task {
                Some(t) => Some(t@),
                None => None,
            },
            n as nat,
            ntools as nat,
            up@,
        ),
{
    match task {
        Some(t) => {
            let mut h = chars_of("INVESTIGATION SUMMARY — \"");
            push_str(&mut h, t);
            push_str(&mut h, "\"\n");
            let d = usize_dec(n);
            push_all(&mut h, &d);
            push_str(&mut h, " findings across ");
            let d = usize_dec(ntools);
            push_all(&mut h, &d);
            push_str(&mut h, " tool(s). Maximum severity: ");
            push_all(&mut h, up);
            push_str(&mut h, ".\n\n");
            h
        },
        None => {
            let mut h = chars_of("INVESTIGATION SUMMARY\n");
            let d = usize_dec(n);
            push_all(&mut h, &d);
            push_str(&mut h, " findings detected. Maximum severity: ");
            push_all(&mut h, up);
            push_str(&mut h, ".\n\n");
            h
        },
    }
}

fn groups_text_exec(sorted: &Vec<Finding>) -> (r: Vec<char>)
    ensures
        r@ == groups_text(finding_views(sorted@)),
{
    let mut out = group_text_exec(sorted, FindingSeverity::Critical, "🔴 CRITICAL");
    let g = group_text_exec(sorted, FindingSeverity::High, "🟠 HIGH");
    push_all(&mut out, &g);
    let g = group_text_exec(sorted, FindingSeverity::Medium, "🟡 MEDIUM");
    push_all(&mut out, &g);
    let g = group_text_exec(sorted, FindingSeverity::Low, "🔵 LOW");
    push_all(&mut out, &g);
    let g = group_text_exec(sorted, FindingSeverity::Info, "ℹ️  INFO");
    push_all(&mut out, &g);
    out
}

fn cross_text_exec(sorted: &Vec<Finding>, ntools: usize) -> (r: Vec<char>)
    ensures
        r@ == cross_text(finding_views(sorted@), ntools as nat),
{
    let keys = distinct_tools_exec(sorted);
    let mut out: Vec<char> = Vec::new();
    if ntools > 1 && keys.len() > 1 {
        push_str(&mut out, "CROSS-REFERENCES:\n");
        push_str(&mut out, "  Data was collected from ");
        let d = usize_dec(keys.len());
        push_all(&mut out, &d);
        push_str(&mut out, " sources (");
        let sep = chars_of(", ");
        let j = join_chars(&keys, &sep);
        push_all(&mut out, &j);
        push_str(&mut out, "). ");
        push_str(&mut out, "Correlate findings across tools for a complete picture.\n\n");
    }
    out
}

fn summary_tail_exec(sorted: &Vec<Finding>, ntools: usize, up: &Vec<char>) -> (r: Vec<char>)
    ensures
        r@ == summary_tail(finding_views(sorted@), ntools as nat, up@),
{
    let mut out = cross_text_exec(sorted, ntools);
    push_str(&mut out, "OVERALL RISK: ");
    push_all(&mut out, up);
    push_str(&mut out, "\n\n");
    push_str(&mut out, "RECOMMENDED ACTIONS (priority order):\n");
    let acts = distinct_actions_exec(sorted);
    let na = numbered_actions_exec(&acts);
    push_all(&mut out, &na);
    out
}

/// The deterministic summary without a task (see [`basic_summary_spec`]).
pub fn basic_tier_summary(findings: &Vec<Finding>) -> (r: String)
    ensures
        r@ == basic_summary_spec(finding_views(findings@), None),
{
    basic_tier_summary_for_task(findings, None)
}

/// The deterministic summary of a run, naming the task when one is given.
pub fn basic_tier_summary_for_task(findings: &Vec<Finding>, task: Option<&str>) -> (r: String)
    ensures
        r@ == basic_summary_spec(
            finding_views(findings@),
            match task {
                Some(t) => Some(t@),
                None => None,
            },
        ),
{
    if findings.len() == 0 {
        let mut out = match task {
            Some(t) => {
                let mut p = chars_of("SUMMARY: Task \"");
                push_str(&mut p, t);
                push_str(&mut p, "\" completed with 0 findings. Maximum severity: info.");
                p
            },
            None => chars_of("SUMMARY: 0 findings detected. Maximum severity: info."),
        };
        push_str(&mut out, "\nFINDINGS:\n(none)\nRISK: info\nACTIONS:\n(none)");
        return string_of(&out);
    }
    let mut sorted = clone_findings(findings);
    sort_findings(&mut sorted);
    proof {
        lemma_sort_len(finding_views(findings@));
    }
    let ghost sv = finding_views(sorted@);
    assert(sv[0] == sorted@[0]@);
    let tok = chars_of(sorted[0].severity.token());
    let up = to_ascii_upper(&tok);
    let ntools = distinct_tool_count_exec(findings);
    let mut out = summary_header_exec(task, findings.len(), ntools, &up);
    let g = groups_text_exec(&sorted);
    push_all(&mut out, &g);
    let t = summary_tail_exec(&sorted, ntools, &up);
    push_all(&mut out, &t);
    let n = out.len();
    if n > 0 && out[n - 1] == '\n' {
        let trimmed = slice_chars(&out, 0, n - 1);
        assert(trimmed@ =~= out@.drop_last());
        return string_of(&trimmed);
    }
    string_of(&out)
}

proof fn lemma_insert_len(s: Seq<FindingView>, x: FindingView)
    ensures
        crate::report::insert_sorted(s, x).len() == s.len() + 1,
    decreases s.len(),
{
    if s.len() > 0 {
        lemma_insert_len(s.drop_first(), x);
    }
}

/// Sorting keeps the number of findings.
pub proof fn lemma_sort_len(s: Seq<FindingView>)
    ensures
        sort_spec(s).len() == s.len(),
    decreases s.len(),
{
    if s.len() > 0 {
        lemma_sort_len(s.drop_last());
        lemma_insert_len(sort_spec(s.drop_last()), s.last());
    }
}

} // verus!
