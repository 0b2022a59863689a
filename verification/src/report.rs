//! Post-processing of findings: de-duplication, ordering, the highest severity, and the
//! quality gate on a model's final answer.
use vstd::prelude::*;

use crate::model::{
    finding_views, severity_rank, severity_token_spec, Finding, FindingSeverity, FindingView,
};
use crate::text::{
    chars_eq, chars_eq_str, chars_of, contains_seq, contains_str, dec, push_all, push_str,
    starts_with_seq, starts_with_str, string_of, trim, trim_chars, trim_str, usize_dec, views,
    lines, split_lines, is_ws,
};
use crate::text_support::{str_to_lowercase, unicode_lowercase};

verus! {

// ---------------------------------------------------------------------------
// De-duplication
// ---------------------------------------------------------------------------

/// How authoritative a tool's findings are when two tools report the same field.
pub open spec fn authority(tool: Option<Seq<char>>) -> nat {
    match tool {
        Some(t) => if t == "correlate_process_network"@ || t == "audit_account_changes"@ {
            3
        } else if t == "inspect_persistence_locations"@ {
            2
        } else if t == "scan_network"@ || t == "check_privilege_escalation_vectors"@ {
            1
        } else {
            0
        },
        None => 0,
    }
}

/// Fields that are never de-duplicated.
pub open spec fn never_deduped(field: Seq<char>) -> bool {
    field == "final_answer"@ || field == "observation.error"@
}

/// `j` is the first position whose finding has the given field.
pub open spec fn first_with_field(acc: Seq<FindingView>, field: Seq<char>, j: int) -> bool {
    0 <= j < acc.len() && acc[j].pointer.field == field && forall|k: int|
        0 <= k < j ==> acc[k].pointer.field != field
}

/// A new finding replaces a kept one from a less authoritative tool, or from an equally
/// authoritative tool with lower confidence.
pub open spec fn preferred(new: FindingView, kept: FindingView) -> bool {
    let a = authority(new.pointer.tool);
    let b = authority(kept.pointer.tool);
    a > b || (a == b && new.confidence > kept.confidence)
}

/// One step of de-duplication: the kept findings after seeing `f`.
pub open spec fn dedup_step(acc: Seq<FindingView>, f: FindingView) -> Seq<FindingView> {
    if never_deduped(f.pointer.field) {
        acc.push(f)
    } else if exists|j: int| first_with_field(acc, f.pointer.field, j) {
        let j = choose|j: int| first_with_field(acc, f.pointer.field, j);
        if preferred(f, acc[j]) {
            acc.update(j, f)
        } else {
            acc
        }
    } else {
        acc.push(f)
    }
}

/// De-duplication of a sequence of findings by evidence field.
pub open spec fn dedup_findings_spec(fs: Seq<FindingView>) -> Seq<FindingView>
    decreases fs.len(),
{
    if fs.len() == 0 {
        seq![]
    } else {
        dedup_step(dedup_findings_spec(fs.drop_last()), fs.last())
    }
}

/// Each evidence field occurs at most once, except the never de-duplicated ones.
pub open spec fn fields_unique(acc: Seq<FindingView>) -> bool {
    forall|i: int, j: int|
        0 <= i < j < acc.len() && (#[trigger] acc[i]).pointer.field == (#[trigger] acc[j]).pointer.field
            ==> never_deduped(acc[i].pointer.field)
}

proof fn lemma_first_field_exists(acc: Seq<FindingView>, field: Seq<char>, k: int)
    requires
        0 <= k < acc.len(),
        acc[k].pointer.field == field,
    ensures
        exists|j: int| first_with_field(acc, field, j),
    decreases k,
{
    if exists|m: int| 0 <= m < k && acc[m].pointer.field == field {
        let m = choose|m: int| 0 <= m < k && acc[m].pointer.field == field;
        lemma_first_field_exists(acc, field, m);
    } else {
        assert(first_with_field(acc, field, k));
    }
}

/// After de-duplication no evidence field occurs twice, except `final_answer` and
/// `observation.error`.
pub proof fn lemma_dedup_fields_unique(fs: Seq<FindingView>)
    ensures
        fields_unique(dedup_findings_spec(fs)),
    decreases fs.len(),
{
    if fs.len() > 0 {
        lemma_dedup_fields_unique(fs.drop_last());
        let acc = dedup_findings_spec(fs.drop_last());
        let f = fs.last();
        let out = dedup_findings_spec(fs);
        if never_deduped(f.pointer.field) {
            assert forall|i: int, j: int|
                0 <= i < j < out.len() && (#[trigger] out[i]).pointer.field == (#[trigger] out[j]).pointer.field
                    implies never_deduped(out[i].pointer.field) by {
                if j < acc.len() {
                    assert(out[i] == acc[i] && out[j] == acc[j]);
                }
            }
        } else if exists|j: int| first_with_field(acc, f.pointer.field, j) {
            let j0 = choose|j: int| first_with_field(acc, f.pointer.field, j);
            assert forall|i: int, j: int|
                0 <= i < j < out.len() && (#[trigger] out[i]).pointer.field == (#[trigger] out[j]).pointer.field
                    implies never_deduped(out[i].pointer.field) by {
                assert(out.len() == acc.len());
                assert(out[i].pointer.field == acc[i].pointer.field);
                assert(out[j].pointer.field == acc[j].pointer.field);
            }
        } else {
            assert forall|i: int, j: int|
                0 <= i < j < out.len() && (#[trigger] out[i]).pointer.field == (#[trigger] out[j]).pointer.field
                    implies never_deduped(out[i].pointer.field) by {
                if j < acc.len() {
                    assert(out[i] == acc[i] && out[j] == acc[j]);
                } else {
                    assert(out[j] == f);
                    assert(out[i] == acc[i]);
                    if !never_deduped(f.pointer.field) {
                        lemma_first_field_exists(acc, f.pointer.field, i);
                    }
                }
            }
        }
    }
}

/// Every kept finding is one of the findings given.
pub open spec fn drawn_from(out: Seq<FindingView>, fs: Seq<FindingView>) -> bool {
    forall|i: int| #![trigger out[i]] 0 <= i < out.len() ==> exists|k: int| 0 <= k < fs.len() && #[trigger] fs[k] == out[i]
}

/// Every finding of a de-duplicated field is matched by a kept finding of that field
/// that it is not preferred to: the kept one has the greatest tool authority, then the
/// greatest confidence, of its field.
pub open spec fn best_kept(out: Seq<FindingView>, fs: Seq<FindingView>) -> bool {
    forall|k: int|
        0 <= k < fs.len() && !never_deduped((#[trigger] fs[k]).pointer.field) ==> exists|i: int|
            0 <= i < out.len() && (#[trigger] out[i]).pointer.field == fs[k].pointer.field && !preferred(fs[k], out[i])
}

/// Every finding of a field that is never de-duplicated is kept.
pub open spec fn never_deduped_kept(out: Seq<FindingView>, fs: Seq<FindingView>) -> bool {
    forall|k: int|
        0 <= k < fs.len() && never_deduped((#[trigger] fs[k]).pointer.field) ==> exists|i: int|
            0 <= i < out.len() && #[trigger] out[i] == fs[k]
}

proof fn lemma_step_drawn(acc: Seq<FindingView>, p: Seq<FindingView>, f: FindingView)
    requires
        drawn_from(acc, p),
    ensures
        drawn_from(dedup_step(acc, f), p.push(f)),
{
    let fs = p.push(f);
    let out = dedup_step(acc, f);
    let n = p.len() as int;
    assert(fs[n] == f);
    assert forall|i: int| #![trigger out[i]] 0 <= i < out.len() implies exists|k: int| 0 <= k < fs.len() && #[trigger] fs[k]
        == out[i] by {
        if i < acc.len() && out[i] == acc[i] {
            let k = choose|k: int| 0 <= k < p.len() && #[trigger] p[k] == acc[i];
            assert(fs[k] == p[k]);
        } else {
            assert(out[i] == f);
        }
    }
}

proof fn lemma_step_always_kept(acc: Seq<FindingView>, p: Seq<FindingView>, f: FindingView)
    requires
        never_deduped_kept(acc, p),
    ensures
        never_deduped_kept(dedup_step(acc, f), p.push(f)),
{
    let fs = p.push(f);
    let out = dedup_step(acc, f);
    let n = p.len() as int;
    assert(fs[n] == f);
    assert forall|k: int|
        0 <= k < fs.len() && never_deduped((#[trigger] fs[k]).pointer.field) implies exists|i: int|
            0 <= i < out.len() && #[trigger] out[i] == fs[k] by {
        if k < n {
            assert(p[k] == fs[k]);
            let i = choose|i: int| 0 <= i < acc.len() && #[trigger] acc[i] == p[k];
            if !never_deduped(f.pointer.field) && exists|j: int| first_with_field(acc, f.pointer.field, j) {
                let j = choose|j: int| first_with_field(acc, f.pointer.field, j);
                assert(i != j);
            }
            assert(out[i] == acc[i]);
        } else {
            assert(out[acc.len() as int] == f);
        }
    }
}

proof fn lemma_step_best(acc: Seq<FindingView>, p: Seq<FindingView>, f: FindingView)
    requires
        best_kept(acc, p),
    ensures
        best_kept(dedup_step(acc, f), p.push(f)),
{
    let fs = p.push(f);
    let out = dedup_step(acc, f);
    let n = p.len() as int;
    assert(fs[n] == f);
    assert forall|k: int|
        0 <= k < fs.len() && !never_deduped((#[trigger] fs[k]).pointer.field) implies exists|i: int|
            0 <= i < out.len() && (#[trigger] out[i]).pointer.field == fs[k].pointer.field && !preferred(
                fs[k],
                out[i],
            ) by {
        if exists|j: int| first_with_field(acc, f.pointer.field, j) {
            let j = choose|j: int| first_with_field(acc, f.pointer.field, j);
            if k < n {
                assert(p[k] == fs[k]);
                let i = choose|i: int|
                    0 <= i < acc.len() && (#[trigger] acc[i]).pointer.field == p[k].pointer.field && !preferred(
                        p[k],
                        acc[i],
                    );
                if i == j && preferred(f, acc[j]) {
                    assert(out[i] == f);
                } else {
                    assert(out[i] == acc[i]);
                }
            } else {
                assert(out[j].pointer.field == f.pointer.field);
            }
        } else {
            if k < n {
                assert(p[k] == fs[k]);
                let i = choose|i: int|
                    0 <= i < acc.len() && (#[trigger] acc[i]).pointer.field == p[k].pointer.field && !preferred(
                        p[k],
                        acc[i],
                    );
                assert(out[i] == acc[i]);
            } else {
                assert(out[acc.len() as int] == f);
            }
        }
    }
}

proof fn lemma_step_sub_multiset(acc: Seq<FindingView>, f: FindingView)
    ensures
        dedup_step(acc, f).to_multiset().subset_of(acc.to_multiset().insert(f)),
{
    broadcast use vstd::seq_lib::group_to_multiset_ensures, vstd::multiset::group_multiset_axioms;

    if never_deduped(f.pointer.field) {
        assert(acc.push(f).to_multiset() =~= acc.to_multiset().insert(f));
    } else if exists|j: int| first_with_field(acc, f.pointer.field, j) {
        let j = choose|j: int| first_with_field(acc, f.pointer.field, j);
        if preferred(f, acc[j]) {
            vstd::seq_lib::to_multiset_update(acc, j, f);
            let m = acc.to_multiset().insert(f);
            assert forall|v: FindingView| #[trigger] m.remove(acc[j]).count(v) <= m.count(v) by {}
        } else {
            assert forall|v: FindingView| #[trigger] acc.to_multiset().count(v) <= acc.to_multiset().insert(f).count(v) by {}
        }
    } else {
        assert(acc.push(f).to_multiset() =~= acc.to_multiset().insert(f));
    }
}

/// De-duplication keeps a sub-multiset of its input: no finding comes out more often
/// than it went in.
pub proof fn lemma_dedup_sub_multiset(fs: Seq<FindingView>)
    ensures
        dedup_findings_spec(fs).to_multiset().subset_of(fs.to_multiset()),
    decreases fs.len(),
{
    broadcast use vstd::seq_lib::group_to_multiset_ensures, vstd::multiset::group_multiset_axioms;

    if fs.len() > 0 {
        let p = fs.drop_last();
        let f = fs.last();
        lemma_dedup_sub_multiset(p);
        lemma_step_sub_multiset(dedup_findings_spec(p), f);
        assert(fs =~= p.push(f));
        assert(fs.to_multiset() =~= p.to_multiset().insert(f));
        let a = dedup_findings_spec(p).to_multiset();
        assert forall|v: FindingView| #[trigger] a.insert(f).count(v) <= p.to_multiset().insert(f).count(v) by {}
    } else {
        assert(dedup_findings_spec(fs) =~= Seq::<FindingView>::empty());
    }
}

/// De-duplication keeps only findings it was given, keeps every `final_answer` and
/// `observation.error` finding, and for each other field keeps a finding that no
/// finding of that field outranks by tool authority, then confidence.
pub proof fn lemma_dedup_keeps_best(fs: Seq<FindingView>)
    ensures
        drawn_from(dedup_findings_spec(fs), fs),
        best_kept(dedup_findings_spec(fs), fs),
        never_deduped_kept(dedup_findings_spec(fs), fs),
    decreases fs.len(),
{
    if fs.len() > 0 {
        let p = fs.drop_last();
        lemma_dedup_keeps_best(p);
        assert(fs == p.push(fs.last()));
        lemma_step_drawn(dedup_findings_spec(p), p, fs.last());
        lemma_step_best(dedup_findings_spec(p), p, fs.last());
        lemma_step_always_kept(dedup_findings_spec(p), p, fs.last());
    }
}

/// The authority of a tool (see [`authority`]).
pub fn tool_authority(tool: &Option<String>) -> (r: u8)
    ensures
        r as nat == authority(crate::model::opt_view(*tool)),
{
    match tool {
        Some(t) => {
            let c = chars_of(t.as_str());
            if chars_eq_str(&c, "correlate_process_network") || chars_eq_str(
                &c,
                "audit_account_changes",
            ) {
                3
            } else if chars_eq_str(&c, "inspect_persistence_locations") {
                2
            } else if chars_eq_str(&c, "scan_network") || chars_eq_str(
                &c,
                "check_privilege_escalation_vectors",
            ) {
                1
            } else {
                0
            }
        },
        None => 0,
    }
}

fn find_field(acc: &Vec<Finding>, field: &Vec<char>) -> (r: Option<usize>)
    ensures
        match r {
            Some(j) => first_with_field(finding_views(acc@), field@, j as int),
            None => !exists|j: int| first_with_field(finding_views(acc@), field@, j),
        },
{
    let mut i: usize = 0;
    while i < acc.len()
        invariant
            i <= acc@.len(),
            forall|k: int| 0 <= k < i ==> finding_views(acc@)[k].pointer.field != field@,
        decreases acc@.len() - i,
    {
        let f = chars_of(acc[i].evidence_pointer.field.as_str());
        assert(finding_views(acc@)[i as int] == acc@[i as int]@);
        if chars_eq(&f, field) {
            return Some(i);
        }
        i = i + 1;
    }
    assert forall|j: int| !first_with_field(finding_views(acc@), field@, j) by {
        if 0 <= j < acc@.len() {
            assert(finding_views(acc@)[j].pointer.field != field@);
        }
    }
    None
}

proof fn lemma_first_unique(acc: Seq<FindingView>, field: Seq<char>, j: int)
    requires
        first_with_field(acc, field, j),
    ensures
        (choose|k: int| first_with_field(acc, field, k)) == j,
{
    let k = choose|k: int| first_with_field(acc, field, k);
    assert(first_with_field(acc, field, k));
    if k < j {
        assert(acc[k].pointer.field != field);
    } else if j < k {
        assert(acc[j].pointer.field != field);
    }
}

/// Keeps one finding per evidence field, preferring the more authoritative tool and then
/// the higher confidence; `final_answer` and `observation.error` findings are all kept.
pub fn deduplicate_findings(findings: Vec<Finding>) -> (r: Vec<Finding>)
    ensures
        finding_views(r@) == dedup_findings_spec(finding_views(findings@)),
{
    let ghost all = finding_views(findings@);
    let total = findings.len();
    let mut rest = findings;
    let mut kept: Vec<Finding> = Vec::new();
    let mut k: usize = 0;
    assert(all.take(0) =~= Seq::<FindingView>::empty());
    assert(finding_views(kept@) =~= Seq::<FindingView>::empty());
    while rest.len() > 0
        invariant
            all.len() == total,
            k + rest@.len() == total,
            finding_views(rest@) == all.skip(k as int),
            finding_views(kept@) == dedup_findings_spec(all.take(k as int)),
        decreases rest@.len(),
    {
        let ghost old_rest = rest@;
        let f = rest.remove(0);
        assert(rest@ =~= old_rest.subrange(1, old_rest.len() as int));
        assert(f@ == all[k as int]) by {
            assert(finding_views(old_rest)[0] == all.skip(k as int)[0]);
        }
        assert forall|j: int| 0 <= j < rest@.len() implies finding_views(rest@)[j] == all.skip(
            k + 1,
        )[j] by {
            assert(rest@[j] == old_rest[j + 1]);
            assert(finding_views(old_rest)[j + 1] == all.skip(k as int)[j + 1]);
        }
        assert(finding_views(rest@) =~= all.skip(k + 1));
        assert(all.take(k + 1).drop_last() =~= all.take(k as int));
        assert(all.take(k + 1).last() == all[k as int]);
        let ghost acc = finding_views(kept@);
        let fc = chars_of(f.evidence_pointer.field.as_str());
        let special = chars_eq_str(&fc, "final_answer") || chars_eq_str(&fc, "observation.error");
        let ghost fv = f@;
        if special {
            kept.push(f);
            assert(finding_views(kept@) =~= acc.push(fv));
        } else {
            match find_field(&kept, &fc) {
                Some(j) => {
                    proof {
                        lemma_first_unique(acc, fv.pointer.field, j as int);
                    }
                    assert(finding_views(kept@)[j as int] == kept@[j as int]@);
                    let new_auth = tool_authority(&f.evidence_pointer.tool);
                    let old_auth = tool_authority(&kept[j].evidence_pointer.tool);
                    if new_auth > old_auth || (new_auth == old_auth && f.confidence
                        > kept[j].confidence) {
                        kept.set(j, f);
                        assert(finding_views(kept@) =~= acc.update(j as int, fv));
                    }
                },
                None => {
                    kept.push(f);
                    assert(finding_views(kept@) =~= acc.push(fv));
                },
            }
        }
        k = k + 1;
    }
    assert(all.take(total as int) =~= all);
    kept
}

// ---------------------------------------------------------------------------
// Ordering
// ---------------------------------------------------------------------------

/// `a` ranks at or above `b`: higher severity, or equal severity and confidence no lower.
pub open spec fn ranks_ge(a: FindingView, b: FindingView) -> bool {
    severity_rank(a.severity) > severity_rank(b.severity) || (severity_rank(a.severity)
        == severity_rank(b.severity) && a.confidence >= b.confidence)
}

/// `x` placed after the leading run of findings that rank at or above it.
pub open spec fn insert_sorted(s: Seq<FindingView>, x: FindingView) -> Seq<FindingView>
    decreases s.len(),
{
    if s.len() == 0 {
        seq![x]
    } else if ranks_ge(s[0], x) {
        seq![s[0]] + insert_sorted(s.drop_first(), x)
    } else {
        seq![x] + s
    }
}

/// Stable sort by severity descending, then confidence descending.
pub open spec fn sort_spec(s: Seq<FindingView>) -> Seq<FindingView>
    decreases s.len(),
{
    if s.len() == 0 {
        seq![]
    } else {
        insert_sorted(sort_spec(s.drop_last()), s.last())
    }
}

/// Findings in order: each ranks at or above the next.
pub open spec fn is_sorted(s: Seq<FindingView>) -> bool {
    forall|i: int, j: int| 0 <= i < j < s.len() ==> ranks_ge(s[i], s[j])
}

proof fn lemma_insert_at(s: Seq<FindingView>, x: FindingView, p: int)
    requires
        0 <= p <= s.len(),
        forall|k: int| 0 <= k < p ==> ranks_ge(s[k], x),
        p == s.len() || !ranks_ge(s[p], x),
    ensures
        insert_sorted(s, x) == s.take(p) + seq![x] + s.skip(p),
    decreases p,
{
    if s.len() == 0 {
        assert(s.take(p) + seq![x] + s.skip(p) =~= seq![x]);
    } else if p == 0 {
        assert(s.take(p) + seq![x] + s.skip(p) =~= seq![x] + s);
    } else {
        let t = s.drop_first();
        assert forall|k: int| 0 <= k < p - 1 implies ranks_ge(t[k], x) by {
            assert(t[k] == s[k + 1]);
        }
        if p - 1 < t.len() {
            assert(t[p - 1] == s[p]);
        }
        lemma_insert_at(t, x, p - 1);
        assert(seq![s[0]] + (t.take(p - 1) + seq![x] + t.skip(p - 1)) =~= s.take(p) + seq![x]
            + s.skip(p));
    }
}

fn ranks_ge_exec(a: &Finding, b: &Finding) -> (r: bool)
    ensures
        r == ranks_ge(a@, b@),
{
    let ra = a.severity.rank();
    let rb = b.severity.rank();
    ra > rb || (ra == rb && a.confidence >= b.confidence)
}

/// Sorts findings by severity descending, then confidence descending, keeping the
/// original order among equals.
pub fn sort_findings(findings: &mut Vec<Finding>)
    ensures
        finding_views(final(findings)@) == sort_spec(finding_views(old(findings)@)),
{
    let mut rest: Vec<Finding> = Vec::new();
    std::mem::swap(&mut rest, findings);
    let ghost all = finding_views(rest@);
    let total = rest.len();
    let mut sorted: Vec<Finding> = Vec::new();
    let mut k: usize = 0;
    assert(all.take(0) =~= Seq::<FindingView>::empty());
    assert(finding_views(sorted@) =~= Seq::<FindingView>::empty());
    while rest.len() > 0
        invariant
            all.len() == total,
            k + rest@.len() == total,
            finding_views(rest@) == all.skip(k as int),
            finding_views(sorted@) == sort_spec(all.take(k as int)),
        decreases rest@.len(),
    {
        let ghost old_rest = rest@;
        let f = rest.remove(0);
        assert(rest@ =~= old_rest.subrange(1, old_rest.len() as int));
        assert(f@ == all[k as int]) by {
            assert(finding_views(old_rest)[0] == all.skip(k as int)[0]);
        }
        assert forall|j: int| 0 <= j < rest@.len() implies finding_views(rest@)[j] == all.skip(
            k + 1,
        )[j] by {
            assert(rest@[j] == old_rest[j + 1]);
            assert(finding_views(old_rest)[j + 1] == all.skip(k as int)[j + 1]);
        }
        assert(finding_views(rest@) =~= all.skip(k + 1));
        assert(all.take(k + 1).drop_last() =~= all.take(k as int));
        assert(all.take(k + 1).last() == all[k as int]);
        let ghost acc = finding_views(sorted@);
        let mut p: usize = 0;
        while p < sorted.len() && ranks_ge_exec(&sorted[p], &f)
            invariant
                p <= sorted@.len(),
                acc == finding_views(sorted@),
                forall|q: int| 0 <= q < p ==> ranks_ge(acc[q], f@),
            decreases sorted@.len() - p,
        {
            assert(acc[p as int] == sorted@[p as int]@);
            p = p + 1;
        }
        if p < sorted.len() {
            assert(acc[p as int] == sorted@[p as int]@);
        }
        proof {
            lemma_insert_at(acc, f@, p as int);
        }
        let ghost fv = f@;
        sorted.insert(p, f);
        assert(finding_views(sorted@) =~= acc.take(p as int) + seq![fv] + acc.skip(p as int));
        k = k + 1;
    }
    assert(all.take(total as int) =~= all);
    *findings = sorted;
}

proof fn lemma_ranks_ge_trans(a: FindingView, b: FindingView, c: FindingView)
    requires
        ranks_ge(a, b),
        ranks_ge(b, c),
    ensures
        ranks_ge(a, c),
{
}

proof fn lemma_insert_sorted_props(t: Seq<FindingView>, x: FindingView)
    ensures
        insert_sorted(t, x).to_multiset() =~= t.to_multiset().insert(x),
        is_sorted(t) ==> is_sorted(insert_sorted(t, x)),
    decreases t.len(),
{
    broadcast use vstd::seq_lib::group_to_multiset_ensures, vstd::seq_lib::lemma_multiset_commutative;

    if t.len() == 0 {
        assert(seq![x] =~= Seq::<FindingView>::empty().push(x));
    } else {
        let t0 = t[0];
        let r = t.drop_first();
        assert(t =~= seq![t0] + r);
        assert(seq![t0] =~= Seq::<FindingView>::empty().push(t0));
        if ranks_ge(t0, x) {
            lemma_insert_sorted_props(r, x);
            let ins = insert_sorted(r, x);
            assert(insert_sorted(t, x) == seq![t0] + ins);
            if is_sorted(t) {
                assert(is_sorted(r)) by {
                    assert forall|i: int, j: int| 0 <= i < j < r.len() implies ranks_ge(r[i], r[j]) by {
                        assert(r[i] == t[i + 1] && r[j] == t[j + 1]);
                    }
                }
                let all = seq![t0] + ins;
                assert forall|i: int, j: int| 0 <= i < j < all.len() implies ranks_ge(all[i], all[j]) by {
                    if i > 0 {
                        assert(all[i] == ins[i - 1] && all[j] == ins[j - 1]);
                    } else {
                        let y = ins[j - 1];
                        assert(ins.contains(y));
                        assert(ins.to_multiset().count(y) > 0);
                        if y != x {
                            assert(r.to_multiset().count(y) > 0);
                            assert(r.contains(y));
                            let k = choose|k: int| 0 <= k < r.len() && r[k] == y;
                            assert(t[k + 1] == y);
                        }
                    }
                }
            }
        } else {
            assert(insert_sorted(t, x) == seq![x] + t);
            assert(seq![x] =~= Seq::<FindingView>::empty().push(x));
            if is_sorted(t) {
                let all = seq![x] + t;
                assert forall|i: int, j: int| 0 <= i < j < all.len() implies ranks_ge(all[i], all[j]) by {
                    if i > 0 {
                        assert(all[i] == t[i - 1] && all[j] == t[j - 1]);
                    } else {
                        assert(ranks_ge(x, t0));
                        if j - 1 > 0 {
                            assert(ranks_ge(t0, t[j - 1]));
                            lemma_ranks_ge_trans(x, t0, t[j - 1]);
                        }
                    }
                }
            }
        }
    }
}

/// Sorting findings orders them by severity, strongest first, then by confidence,
/// highest first, and keeps every finding, as often as it occurs.
pub proof fn lemma_sort_findings_order(s: Seq<FindingView>)
    ensures
        is_sorted(sort_spec(s)),
        sort_spec(s).to_multiset() =~= s.to_multiset(),
    decreases s.len(),
{
    broadcast use vstd::seq_lib::group_to_multiset_ensures;

    if s.len() > 0 {
        lemma_sort_findings_order(s.drop_last());
        lemma_insert_sorted_props(sort_spec(s.drop_last()), s.last());
        assert(s =~= s.drop_last().push(s.last()));
    }
}

/// No finding of `t` shares `x`'s evidence field, unless that field is never
/// de-duplicated.
pub open spec fn field_fresh(t: Seq<FindingView>, x: FindingView) -> bool {
    !never_deduped(x.pointer.field) ==> forall|k: int| 0 <= k < t.len() ==> (#[trigger] t[k]).pointer.field
        != x.pointer.field
}

proof fn lemma_insert_keeps_unique(t: Seq<FindingView>, x: FindingView)
    requires
        fields_unique(t),
        field_fresh(t, x),
    ensures
        fields_unique(insert_sorted(t, x)),
        forall|y: FindingView| #[trigger] insert_sorted(t, x).contains(y) ==> t.contains(y) || y == x,
    decreases t.len(),
{
    if t.len() == 0 {
        assert(insert_sorted(t, x) == seq![x]);
        assert forall|y: FindingView| #[trigger] insert_sorted(t, x).contains(y) implies t.contains(y) || y == x by {
            let k = choose|k: int| 0 <= k < 1 && seq![x][k] == y;
        }
    } else if ranks_ge(t[0], x) {
        let r = t.drop_first();
        assert forall|i: int, j: int|
            0 <= i < j < r.len() && (#[trigger] r[i]).pointer.field == (#[trigger] r[j]).pointer.field implies never_deduped(
                r[i].pointer.field,
            ) by {
            assert(r[i] == t[i + 1] && r[j] == t[j + 1]);
        }
        assert forall|k: int| 0 <= k < r.len() && !never_deduped(x.pointer.field) implies (#[trigger] r[k]).pointer.field
            != x.pointer.field by {
            assert(r[k] == t[k + 1]);
        }
        lemma_insert_keeps_unique(r, x);
        let rest = insert_sorted(r, x);
        let out = insert_sorted(t, x);
        assert(out == seq![t[0]] + rest);
        assert forall|k: int| 1 <= k < out.len() && (#[trigger] out[k]).pointer.field == t[0].pointer.field implies never_deduped(
            t[0].pointer.field,
        ) by {
            assert(out[k] == rest[k - 1]);
            assert(rest.contains(rest[k - 1]));
            if out[k] == x {
                assert(t[0].pointer.field != x.pointer.field || never_deduped(x.pointer.field));
            } else {
                assert(r.contains(out[k]));
                let m = choose|m: int| 0 <= m < r.len() && r[m] == out[k];
                assert(t[m + 1] == out[k]);
            }
        }
        assert forall|i: int, j: int|
            0 <= i < j < out.len() && (#[trigger] out[i]).pointer.field == (#[trigger] out[j]).pointer.field implies never_deduped(
                out[i].pointer.field,
            ) by {
            if i == 0 {
                assert(out[0] == t[0]);
            } else {
                assert(out[i] == rest[i - 1] && out[j] == rest[j - 1]);
            }
        }
        assert forall|y: FindingView| #[trigger] out.contains(y) implies t.contains(y) || y == x by {
            let k = choose|k: int| 0 <= k < out.len() && out[k] == y;
            if k == 0 {
                assert(t[0] == y);
            } else {
                assert(rest[k - 1] == y);
                assert(rest.contains(y));
                if y != x {
                    let m = choose|m: int| 0 <= m < r.len() && r[m] == y;
                    assert(t[m + 1] == y);
                }
            }
        }
    } else {
        let out = insert_sorted(t, x);
        assert(out == seq![x] + t);
        assert forall|i: int, j: int|
            0 <= i < j < out.len() && (#[trigger] out[i]).pointer.field == (#[trigger] out[j]).pointer.field implies never_deduped(
                out[i].pointer.field,
            ) by {
            if i == 0 {
                assert(out[j] == t[j - 1]);
            } else {
                assert(out[i] == t[i - 1] && out[j] == t[j - 1]);
            }
        }
        assert forall|y: FindingView| #[trigger] out.contains(y) implies t.contains(y) || y == x by {
            let k = choose|k: int| 0 <= k < out.len() && out[k] == y;
            if k > 0 {
                assert(t[k - 1] == y);
            }
        }
    }
}

/// Sorting keeps the evidence fields unique: no field other than `final_answer` and
/// `observation.error` occurs twice after sorting when it did not before; and each
/// sorted finding is one of the findings given.
pub proof fn lemma_sort_keeps_unique(s: Seq<FindingView>)
    requires
        fields_unique(s),
    ensures
        fields_unique(sort_spec(s)),
        forall|y: FindingView| #[trigger] sort_spec(s).contains(y) ==> s.contains(y),
    decreases s.len(),
{
    if s.len() > 0 {
        let p = s.drop_last();
        let x = s.last();
        assert forall|i: int, j: int|
            0 <= i < j < p.len() && (#[trigger] p[i]).pointer.field == (#[trigger] p[j]).pointer.field implies never_deduped(
                p[i].pointer.field,
            ) by {
            assert(p[i] == s[i] && p[j] == s[j]);
        }
        lemma_sort_keeps_unique(p);
        let sp = sort_spec(p);
        assert forall|k: int| 0 <= k < sp.len() && !never_deduped(x.pointer.field) implies (#[trigger] sp[k]).pointer.field
            != x.pointer.field by {
            assert(sp.contains(sp[k]));
            let m = choose|m: int| 0 <= m < p.len() && p[m] == sp[k];
            assert(s[m] == sp[k]);
            assert(s[s.len() - 1] == x);
        }
        lemma_insert_keeps_unique(sp, x);
        assert forall|y: FindingView| #[trigger] sort_spec(s).contains(y) implies s.contains(y) by {
            if y == x {
                assert(s[s.len() - 1] == x);
            } else {
                assert(sp.contains(y));
                let m = choose|m: int| 0 <= m < p.len() && p[m] == y;
                assert(s[m] == y);
            }
        }
    }
}

// ---------------------------------------------------------------------------
// Highest severity
// ---------------------------------------------------------------------------

/// The highest severity among findings, `None` when there are none.
pub open spec fn max_severity_spec(fs: Seq<FindingView>) -> Option<FindingSeverity>
    decreases fs.len(),
{
    if fs.len() == 0 {
        None
    } else {
        match max_severity_spec(fs.drop_last()) {
            Some(m) => if severity_rank(fs.last().severity) > severity_rank(m) {
                Some(fs.last().severity)
            } else {
                Some(m)
            },
            None => Some(fs.last().severity),
        }
    }
}

/// The highest severity is that of some finding, and no finding is more severe; there
/// is none exactly when there are no findings.
pub proof fn lemma_max_severity_bounds(fs: Seq<FindingView>)
    ensures
        fs.len() == 0 <==> max_severity_spec(fs) is None,
        max_severity_spec(fs) matches Some(m) ==> (exists|i: int| 0 <= i < fs.len() && (#[trigger] fs[i]).severity == m)
            && forall|i: int| 0 <= i < fs.len() ==> severity_rank((#[trigger] fs[i]).severity) <= severity_rank(m),
    decreases fs.len(),
{
    if fs.len() > 0 {
        let p = fs.drop_last();
        lemma_max_severity_bounds(p);
        match max_severity_spec(fs) {
            Some(m) => {
                assert forall|i: int| 0 <= i < fs.len() implies severity_rank((#[trigger] fs[i]).severity)
                    <= severity_rank(m) by {
                    if i < fs.len() - 1 {
                        assert(fs[i] == p[i]);
                    }
                }
                if m == fs.last().severity {
                    assert(fs[fs.len() - 1].severity == m);
                } else {
                    let i = choose|i: int| 0 <= i < p.len() && (#[trigger] p[i]).severity == m;
                    assert(fs[i] == p[i]);
                }
            },
            None => {},
        }
    }
}

/// The highest severity across findings.
pub fn max_severity(findings: &Vec<Finding>) -> (r: Option<FindingSeverity>)
    ensures
        r == max_severity_spec(finding_views(findings@)),
{
    let ghost all = finding_views(findings@);
    let mut best: Option<FindingSeverity> = None;
    let mut i: usize = 0;
    assert(all.take(0) =~= Seq::<FindingView>::empty());
    while i < findings.len()
        invariant
            i <= findings@.len(),
            all == finding_views(findings@),
            best == max_severity_spec(all.take(i as int)),
        decreases findings@.len() - i,
    {
        assert(all.take(i + 1).drop_last() =~= all.take(i as int));
        assert(all.take(i + 1).last() == findings@[i as int]@);
        let s = findings[i].severity;
        best = match best {
            Some(m) => if s.rank() > m.rank() {
                Some(s)
            } else {
                Some(m)
            },
            None => Some(s),
        };
        i = i + 1;
    }
    assert(all.take(findings@.len() as int) =~= all);
    best
}

// ---------------------------------------------------------------------------
// Quality gate on the model's final answer
// ---------------------------------------------------------------------------

/// Bytes of one character in UTF-8.
pub open spec fn utf8_width(c: char) -> nat {
    let u = c as u32;
    if u < 0x80 {
        1
    } else if u < 0x800 {
        2
    } else if u < 0x10000 {
        3
    } else {
        4
    }
}

/// Length of a text in UTF-8 bytes (`str::len`).
pub open spec fn utf8_len(s: Seq<char>) -> nat
    decreases s.len(),
{
    if s.len() == 0 {
        0
    } else {
        utf8_len(s.drop_last()) + utf8_width(s.last())
    }
}

pub fn utf8_len_exec(v: &Vec<char>) -> (r: u128)
    ensures
        r as nat == utf8_len(v@),
{
    let mut n: u128 = 0;
    let mut i: usize = 0;
    assert(v@.take(0) =~= Seq::<char>::empty());
    while i < v.len()
        invariant
            i <= v@.len(),
            n as nat == utf8_len(v@.take(i as int)),
            n <= 4 * i,
        decreases v@.len() - i,
    {
        assert(v@.take(i + 1).drop_last() =~= v@.take(i as int));
        assert(v@.take(i + 1).last() == v@[i as int]);
        let u = v[i] as u32;
        let w: u128 = if u < 0x80 {
            1
        } else if u < 0x800 {
            2
        } else if u < 0x10000 {
            3
        } else {
            4
        };
        n = n + w;
        i = i + 1;
    }
    assert(v@.take(v@.len() as int) =~= v@);
    n
}

pub open spec fn is_sentence_sep(c: char) -> bool {
    c == '.' || c == '!' || c == '?' || c == '\n'
}

pub open spec fn sentence_acc(s: Seq<char>, cur: Seq<char>) -> Seq<Seq<char>>
    decreases s.len(),
{
    if s.len() == 0 {
        seq![cur]
    } else if is_sentence_sep(s[0]) {
        seq![cur] + sentence_acc(s.drop_first(), seq![])
    } else {
        sentence_acc(s.drop_first(), cur.push(s[0]))
    }
}

/// The pieces of a text between `.`, `!`, `?` and newlines.
pub open spec fn sentence_pieces(s: Seq<char>) -> Seq<Seq<char>> {
    sentence_acc(s, seq![])
}

/// The trimmed pieces longer than ten bytes, each lower-cased.
pub open spec fn long_sentences(ps: Seq<Seq<char>>) -> Seq<Seq<char>>
    decreases ps.len(),
{
    if ps.len() == 0 {
        seq![]
    } else {
        let rest = long_sentences(ps.drop_last());
        let t = trim(ps.last());
        if utf8_len(t) > 10 {
            rest.push(unicode_lowercase(t))
        } else {
            rest
        }
    }
}

/// How often `x` occurs in `s`.
pub open spec fn count_in(s: Seq<Seq<char>>, x: Seq<char>) -> nat
    decreases s.len(),
{
    if s.len() == 0 {
        0
    } else {
        count_in(s.drop_last(), x) + if s.last() == x {
            1nat
        } else {
            0nat
        }
    }
}

/// Some sentence occurs three times or more.
pub open spec fn has_repetition(s: Seq<Seq<char>>) -> bool {
    exists|i: int| 0 <= i < s.len() && count_in(s, s[i]) >= 3
}

pub open spec fn hit(b: bool) -> nat {
    if b {
        1
    } else {
        0
    }
}

/// How many menu-style phrases the lower-cased answer contains.
pub open spec fn menu_hits(lower: Seq<char>) -> nat {
    hit(contains_seq(lower, "what would you like"@)) + hit(contains_seq(lower, "would you like me to"@))
        + hit(contains_seq(lower, "choose one of the following"@)) + hit(
        contains_seq(lower, "select an option"@),
    ) + hit(contains_seq(lower, "here are the available"@)) + hit(
        contains_seq(lower, "which tool would you"@),
    ) + hit(contains_seq(lower, "i can help you with"@)) + hit(
        contains_seq(lower, "let me know which"@),
    ) + hit(contains_seq(lower, "please select"@)) + hit(contains_seq(lower, "1)"@))
}

/// A line that, trimmed, starts with `1)` to `5)`.
pub open spec fn numbered_line(l: Seq<char>) -> bool {
    let t = trim(l);
    starts_with_seq(t, "1)"@) || starts_with_seq(t, "2)"@) || starts_with_seq(t, "3)"@)
        || starts_with_seq(t, "4)"@) || starts_with_seq(t, "5)"@)
}

pub open spec fn numbered_count(ls: Seq<Seq<char>>) -> nat
    decreases ls.len(),
{
    if ls.len() == 0 {
        0
    } else {
        numbered_count(ls.drop_last()) + hit(numbered_line(ls.last()))
    }
}

/// A model answer is low quality when, trimmed, it is shorter than 20 or longer than
/// 5000 bytes, role-plays tool calls, reads like a menu, or repeats a sentence three times.
pub open spec fn low_quality_spec(text: Seq<char>) -> bool {
    let t = trim(text);
    let n = utf8_len(t);
    if n < 20 || n > 5000 {
        true
    } else {
        low_quality_lowered(t, unicode_lowercase(t))
    }
}

/// The checks of a trimmed answer of fitting length, given the answer in lower case:
/// tool-call markup, menu phrasing, numbered menus and repeated sentences.
pub open spec fn low_quality_lowered(t: Seq<char>, lower: Seq<char>) -> bool {
    if contains_seq(lower, "<call>"@) || contains_seq(lower, "[observation"@) {
        true
    } else {
        let h = menu_hits(lower);
        if h >= 2 {
            true
        } else if numbered_count(lines(t)) >= 3 && h >= 1 {
            true
        } else {
            has_repetition(long_sentences(sentence_pieces(t)))
        }
    }
}

fn hit_exec(b: bool) -> (r: u64)
    ensures
        r as nat == hit(b),
{
    if b {
        1
    } else {
        0
    }
}

#[verifier::spinoff_prover]
#[verifier::rlimit(40)]
fn menu_hits_exec(lower: &Vec<char>) -> (r: u64)
    ensures
        r as nat == menu_hits(lower@),
{
    hit_exec(contains_str(lower, "what would you like")) + hit_exec(
        contains_str(lower, "would you like me to"),
    ) + hit_exec(contains_str(lower, "choose one of the following")) + hit_exec(
        contains_str(lower, "select an option"),
    ) + hit_exec(contains_str(lower, "here are the available")) + hit_exec(
        contains_str(lower, "which tool would you"),
    ) + hit_exec(contains_str(lower, "i can help you with")) + hit_exec(
        contains_str(lower, "let me know which"),
    ) + hit_exec(contains_str(lower, "please select")) + hit_exec(contains_str(lower, "1)"))
}

fn numbered_count_exec(ls: &Vec<Vec<char>>) -> (r: u64)
    ensures
        r as nat == numbered_count(views(ls@)),
{
    let ghost all = views(ls@);
    let mut n: u64 = 0;
    let mut i: usize = 0;
    assert(all.take(0) =~= Seq::<Seq<char>>::empty());
    while i < ls.len()
        invariant
            i <= ls@.len(),
            all == views(ls@),
            n as nat == numbered_count(all.take(i as int)),
            n <= i,
        decreases ls@.len() - i,
    {
        assert(all.take(i + 1).drop_last() =~= all.take(i as int));
        assert(all.take(i + 1).last() == ls@[i as int]@);
        let t = trim_chars(&ls[i]);
        let b = starts_with_str(&t, "1)") || starts_with_str(&t, "2)") || starts_with_str(
            &t,
            "3)",
        ) || starts_with_str(&t, "4)") || starts_with_str(&t, "5)");
        n = n + hit_exec(b);
        i = i + 1;
    }
    assert(all.take(ls@.len() as int) =~= all);
    n
}

fn sentence_pieces_exec(s: &Vec<char>) -> (res: Vec<Vec<char>>)
    ensures
        views(res@) == sentence_pieces(s@),
{
    let mut out: Vec<Vec<char>> = Vec::new();
    let mut cur: Vec<char> = Vec::new();
    let mut i: usize = 0;
    assert(s@.skip(0) =~= s@);
    while i < s.len()
        invariant
            i <= s@.len(),
            sentence_pieces(s@) == views(out@) + sentence_acc(s@.skip(i as int), cur@),
        decreases s@.len() - i,
    {
        let c = s[i];
        assert(s@.skip(i as int).drop_first() =~= s@.skip(i + 1));
        assert(s@.skip(i as int)[0] == c);
        if c == '.' || c == '!' || c == '?' || c == '\n' {
            let ghost rest = sentence_acc(s@.skip(i + 1), seq![]);
            let ghost old_out = views(out@);
            let ghost old_cur = cur@;
            out.push(cur);
            cur = Vec::new();
            assert(views(out@) =~= old_out.push(old_cur));
            assert(views(out@) + rest =~= old_out + (seq![old_cur] + rest));
        } else {
            cur.push(c);
        }
        i = i + 1;
    }
    assert(s@.skip(i as int) =~= Seq::<char>::empty());
    let ghost old_out = views(out@);
    let ghost old_cur = cur@;
    out.push(cur);
    assert(views(out@) =~= old_out.push(old_cur));
    out
}

fn long_sentences_exec(ps: &Vec<Vec<char>>) -> (res: Vec<Vec<char>>)
    ensures
        views(res@) == long_sentences(views(ps@)),
{
    let ghost all = views(ps@);
    let mut out: Vec<Vec<char>> = Vec::new();
    let mut i: usize = 0;
    assert(all.take(0) =~= Seq::<Seq<char>>::empty());
    assert(views(out@) =~= Seq::<Seq<char>>::empty());
    while i < ps.len()
        invariant
            i <= ps@.len(),
            all == views(ps@),
            views(out@) == long_sentences(all.take(i as int)),
        decreases ps@.len() - i,
    {
        assert(all.take(i + 1).drop_last() =~= all.take(i as int));
        assert(all.take(i + 1).last() == ps@[i as int]@);
        let t = trim_chars(&ps[i]);
        if utf8_len_exec(&t) > 10 {
            let ts = string_of(&t);
            let low = str_to_lowercase(ts.as_str());
            let lc = chars_of(low.as_str());
            let ghost before = views(out@);
            out.push(lc);
            assert(views(out@) =~= before.push(lc@));
        }
        i = i + 1;
    }
    assert(all.take(ps@.len() as int) =~= all);
    out
}

fn count_in_exec(s: &Vec<Vec<char>>, x: &Vec<char>) -> (r: u64)
    ensures
        r as nat == count_in(views(s@), x@),
{
    let ghost all = views(s@);
    let mut n: u64 = 0;
    let mut i: usize = 0;
    assert(all.take(0) =~= Seq::<Seq<char>>::empty());
    while i < s.len()
        invariant
            i <= s@.len(),
            all == views(s@),
            n as nat == count_in(all.take(i as int), x@),
            n <= i,
        decreases s@.len() - i,
    {
        assert(all.take(i + 1).drop_last() =~= all.take(i as int));
        assert(all.take(i + 1).last() == s@[i as int]@);
        if chars_eq(&s[i], x) {
            n = n + 1;
        }
        i = i + 1;
    }
    assert(all.take(s@.len() as int) =~= all);
    n
}

fn has_repetition_exec(s: &Vec<Vec<char>>) -> (r: bool)
    ensures
        r == has_repetition(views(s@)),
{
    let mut i: usize = 0;
    while i < s.len()
        invariant
            i <= s@.len(),
            forall|k: int| 0 <= k < i ==> count_in(views(s@), views(s@)[k]) < 3,
        decreases s@.len() - i,
    {
        assert(views(s@)[i as int] == s@[i as int]@);
        if count_in_exec(s, &s[i]) >= 3 {
            return true;
        }
        i = i + 1;
    }
    false
}

/// Whether a model's final answer is too poor to show (see [`low_quality_spec`]).
pub fn is_low_quality(text: &str) -> (r: bool)
    ensures
        r == low_quality_spec(text@),
{
    let t = trim_str(text);
    let n = utf8_len_exec(&t);
    if n < 20 || n > 5000 {
        return true;
    }
    let ts = string_of(&t);
    let low = str_to_lowercase(ts.as_str());
    let lower = chars_of(low.as_str());
    low_quality_after_lowering(&t, &lower)
}

/// The checks of [`low_quality_lowered`] on a trimmed answer and its lower-case form.
pub fn low_quality_after_lowering(t: &Vec<char>, lower: &Vec<char>) -> (r: bool)
    ensures
        r == low_quality_lowered(t@, lower@),
{
    if contains_str(lower, "<call>") || contains_str(lower, "[observation") {
        return true;
    }
    let h = menu_hits_exec(lower);
    if h >= 2 {
        return true;
    }
    let ls = split_lines(t);
    if numbered_count_exec(&ls) >= 3 && h >= 1 {
        return true;
    }
    let pieces = sentence_pieces_exec(t);
    let longs = long_sentences_exec(&pieces);
    has_repetition_exec(&longs)
}

/// The one-line summary used in place of a poor answer.
pub open spec fn deterministic_summary_spec(fs: Seq<FindingView>) -> Seq<char> {
    if fs.len() == 0 {
        "SUMMARY: No findings derived from collected evidence."@
    } else {
        let top = fs[0];
        let sev = match max_severity_spec(fs) {
            Some(s) => s,
            None => FindingSeverity::Info,
        };
        "SUMMARY: "@ + dec(fs.len()) + " finding(s) ("@ + severity_token_spec(sev)
            + " max severity). Top finding: "@ + top.title + ". Recommended: "@ + top.action
    }
}

pub fn deterministic_summary(findings: &Vec<Finding>) -> (r: String)
    ensures
        r@ == deterministic_summary_spec(finding_views(findings@)),
{
    if findings.len() == 0 {
        return "SUMMARY: No findings derived from collected evidence.".to_owned();
    }
    let sev = match max_severity(findings) {
        Some(s) => s,
        None => FindingSeverity::Info,
    };
    assert(finding_views(findings@)[0] == findings@[0]@);
    let mut out = chars_of("SUMMARY: ");
    let d = usize_dec(findings.len());
    push_all(&mut out, &d);
    push_str(&mut out, " finding(s) (");
    push_str(&mut out, sev.token());
    push_str(&mut out, " max severity). Top finding: ");
    let t = chars_of(findings[0].title.as_str());
    push_all(&mut out, &t);
    push_str(&mut out, ". Recommended: ");
    let a = chars_of(findings[0].recommended_action.as_str());
    push_all(&mut out, &a);
    string_of(&out)
}

/// The model's answer, or the deterministic summary of the findings when the answer is
/// low quality.
pub fn quality_checked_final_answer(raw_llm_output: &str, findings: &Vec<Finding>) -> (r: String)
    ensures
        r@ == if low_quality_spec(raw_llm_output@) {
            deterministic_summary_spec(finding_views(findings@))
        } else {
            raw_llm_output@
        },
{
    if is_low_quality(raw_llm_output) {
        deterministic_summary(findings)
    } else {
        raw_llm_output.to_owned()
    }
}

} // verus!
