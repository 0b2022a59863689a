//! A run report in two exchange formats: a STIX 2.1 bundle for threat-intel platforms
//! and OCSF Detection Finding records for SIEMs.  Identifiers of findings are stable
//! digests; the bundle's and report's own identifiers and the timestamps come from the
//! clock and a random source.
use vstd::prelude::*;

use crate::digest::{
    deterministic_uuid, sha256_of, stable_uid, stable_uid_spec, stable_uuid, utf8, uuid_bytes_spec, uuid_seed,
    uuid_text_spec,
};
use crate::json::{is_str_member, is_uint_member, str_member, uint_member, value_member, JsonValue};
use crate::json_text::{compact_json, json_compact_text};
use crate::model::{
    confidence_token_spec, opt_view, severity_token_spec, ConfidenceFactor, Finding, FindingRelevance, FindingSeverity,
};
use crate::run_report::{push_two_decimals, two_decimals};
use crate::time::{chrono_now, iso8601};
use crate::run_report::RunReport;
use crate::text::{chars_of, contains_seq, contains_str, push_all, push_str, string_of};

verus! {

// ---------------------------------------------------------------------------
// Reading JSON objects in specifications
// ---------------------------------------------------------------------------

/// The members of an object (none for another value).
pub open spec fn members(j: JsonValue) -> Seq<(String, JsonValue)> {
    match j {
        JsonValue::Object(m) => m@,
        _ => seq![],
    }
}

/// The items of a list (none for another value).
pub open spec fn items(j: JsonValue) -> Seq<JsonValue> {
    match j {
        JsonValue::Array(xs) => xs@,
        _ => seq![],
    }
}

/// `j` is an object of `n` members.
pub open spec fn object_of(j: JsonValue, n: int) -> bool {
    j is Object && members(j).len() == n
}

/// `j` is a list of `n` items.
pub open spec fn list_of(j: JsonValue, n: int) -> bool {
    j is Array && items(j).len() == n
}

/// Member `i` of `j` is the string `val` under `key`.
pub open spec fn str_at(j: JsonValue, i: int, key: Seq<char>, val: Seq<char>) -> bool {
    is_str_member(members(j)[i], key, val)
}

/// Member `i` of `j` is the number `n` under `key`.
pub open spec fn uint_at(j: JsonValue, i: int, key: Seq<char>, n: u64) -> bool {
    is_uint_member(members(j)[i], key, n)
}

/// Member `i` of `j` is named `key`; its value.
pub open spec fn key_at(j: JsonValue, i: int, key: Seq<char>) -> bool {
    members(j)[i].0@ == key
}

pub open spec fn val_at(j: JsonValue, i: int) -> JsonValue {
    members(j)[i].1
}

/// `j` is the string `s`.
pub open spec fn is_text(j: JsonValue, s: Seq<char>) -> bool {
    j matches JsonValue::Str(x) && x@ == s
}

// ---------------------------------------------------------------------------
// STIX 2.1
// ---------------------------------------------------------------------------

/// The identifier of the identity object that stands for WraithRun.
pub open spec fn identity_id() -> Seq<char> {
    "identity--"@ + uuid_text_spec(uuid_bytes_spec(sha256_of(utf8("identity:wraithrun"@))))
}

/// The stable identifier of a finding's indicator.
pub open spec fn indicator_id(f: Finding) -> Seq<char> {
    "indicator--"@ + uuid_text_spec(
        uuid_bytes_spec(sha256_of(utf8(uuid_seed(f.title@, f.evidence_pointer.field@, opt_view(f.evidence_pointer.tool))))),
    )
}

/// A text with each `'` escaped as `\'`.
pub open spec fn escape_quotes(s: Seq<char>) -> Seq<char>
    decreases s.len(),
{
    if s.len() == 0 {
        seq![]
    } else {
        escape_quotes(s.drop_last()) + if s.last() == '\'' {
            seq!['\\', '\'']
        } else {
            seq![s.last()]
        }
    }
}

/// The placeholder STIX pattern of a finding: a file hash for a digest field, TCP
/// traffic for a listener field, the finding's title otherwise.
pub open spec fn stix_pattern(f: Finding) -> Seq<char> {
    if contains_seq(f.evidence_pointer.field@, "sha256"@) {
        "[file:hashes.'SHA-256' = '"@ + f.title@ + "']"@
    } else if contains_seq(f.evidence_pointer.field@, "listener"@) {
        "[network-traffic:protocols[*] = 'tcp']"@
    } else {
        "[x-wraithrun-finding:title = '"@ + escape_quotes(f.title@) + "']"@
    }
}

/// The STIX indicator type of a severity.
pub open spec fn indicator_type(s: FindingSeverity) -> Seq<char> {
    match s {
        FindingSeverity::Critical | FindingSeverity::High => "malicious-activity"@,
        FindingSeverity::Medium => "anomalous-activity"@,
        FindingSeverity::Low => "anonymization"@,
        FindingSeverity::Info => "benign"@,
    }
}

/// `j` is the identity object of WraithRun `version`, created at `now`.
pub open spec fn identity_object(j: JsonValue, version: Seq<char>, now: Seq<char>) -> bool {
    &&& object_of(j, 8)
    &&& str_at(j, 0, "type"@, "identity"@)
    &&& str_at(j, 1, "spec_version"@, "2.1"@)
    &&& str_at(j, 2, "id"@, identity_id())
    &&& str_at(j, 3, "created"@, now)
    &&& str_at(j, 4, "modified"@, now)
    &&& str_at(j, 5, "name"@, "WraithRun"@)
    &&& str_at(j, 6, "identity_class"@, "system"@)
    &&& str_at(j, 7, "description"@, "WraithRun "@ + version + " agentic investigation engine"@)
}

/// `j` is the indicator of a finding, created at `now`.
pub open spec fn indicator_object(j: JsonValue, f: Finding, now: Seq<char>) -> bool {
    &&& object_of(j, 14)
    &&& str_at(j, 0, "type"@, "indicator"@)
    &&& str_at(j, 1, "spec_version"@, "2.1"@)
    &&& str_at(j, 2, "id"@, indicator_id(f))
    &&& str_at(j, 3, "created_by_ref"@, identity_id())
    &&& str_at(j, 4, "created"@, now)
    &&& str_at(j, 5, "modified"@, now)
    &&& str_at(j, 6, "name"@, f.title@)
    &&& str_at(j, 7, "description"@, f.recommended_action@)
    &&& key_at(j, 8, "indicator_types"@) && list_of(val_at(j, 8), 1) && is_text(
        items(val_at(j, 8))[0],
        indicator_type(f.severity),
    )
    &&& str_at(j, 9, "pattern_type"@, "stix"@)
    &&& str_at(j, 10, "pattern"@, stix_pattern(f))
    &&& str_at(j, 11, "valid_from"@, now)
    &&& uint_at(j, 12, "confidence"@, f.confidence as u64)
    &&& key_at(j, 13, "labels"@) && list_of(val_at(j, 13), 2) && is_text(
        items(val_at(j, 13))[0],
        "severity:"@ + severity_token_spec(f.severity),
    ) && is_text(items(val_at(j, 13))[1], "confidence:"@ + confidence_token_spec(f.confidence_label))
}

/// `j` is the report object that links the indicators of `r`'s findings.
pub open spec fn report_object(j: JsonValue, r: RunReport, report_uuid: Seq<char>, now: Seq<char>) -> bool {
    &&& object_of(j, 11)
    &&& str_at(j, 0, "type"@, "report"@)
    &&& str_at(j, 1, "spec_version"@, "2.1"@)
    &&& str_at(j, 2, "id"@, "report--"@ + report_uuid)
    &&& str_at(j, 3, "created_by_ref"@, identity_id())
    &&& str_at(j, 4, "created"@, now)
    &&& str_at(j, 5, "modified"@, now)
    &&& str_at(j, 6, "name"@, "WraithRun investigation: "@ + r.task@)
    &&& key_at(j, 7, "report_types"@) && list_of(val_at(j, 7), 1) && is_text(items(val_at(j, 7))[0], "threat-report"@)
    &&& str_at(j, 8, "published"@, now)
    &&& key_at(j, 9, "object_refs"@) && list_of(val_at(j, 9), r.findings@.len() as int) && forall|i: int|
        0 <= i < r.findings@.len() ==> is_text(#[trigger] items(val_at(j, 9))[i], indicator_id(r.findings@[i]))
    &&& str_at(j, 10, "description"@, r.final_answer@)
}

/// `j` is the STIX bundle of a report: the identity, one indicator per finding in order,
/// and the report object.
pub open spec fn stix_bundle(
    j: JsonValue,
    r: RunReport,
    version: Seq<char>,
    bundle_uuid: Seq<char>,
    report_uuid: Seq<char>,
    now: Seq<char>,
) -> bool {
    let objs = items(val_at(j, 2));
    let n = r.findings@.len() as int;
    &&& object_of(j, 3)
    &&& str_at(j, 0, "type"@, "bundle"@)
    &&& str_at(j, 1, "id"@, "bundle--"@ + bundle_uuid)
    &&& key_at(j, 2, "objects"@) && list_of(val_at(j, 2), n + 2)
    &&& identity_object(objs[0], version, now)
    &&& forall|i: int| 0 <= i < n ==> indicator_object(#[trigger] objs[i + 1], r.findings@[i], now)
    &&& report_object(objs[n + 1], r, report_uuid, now)
}

fn text_of(v: &Vec<char>) -> (r: String)
    ensures
        r@ == v@,
{
    string_of(v)
}

fn prefixed(prefix: &str, s: &str) -> (r: String)
    ensures
        r@ == prefix@ + s@,
{
    let mut v = chars_of(prefix);
    push_str(&mut v, s);
    string_of(&v)
}

fn text_item(s: &str) -> (r: JsonValue)
    ensures
        is_text(r, s@),
{
    JsonValue::Str(string_of(&chars_of(s)))
}

fn escape_quotes_exec(s: &str) -> (r: Vec<char>)
    ensures
        r@ == escape_quotes(s@),
{
    let v = chars_of(s);
    let mut out: Vec<char> = Vec::new();
    let mut i: usize = 0;
    assert(v@.take(0) =~= Seq::<char>::empty());
    while i < v.len()
        invariant
            i <= v@.len(),
            v@ == s@,
            out@ == escape_quotes(v@.take(i as int)),
        decreases v@.len() - i,
    {
        assert(v@.take(i + 1).drop_last() =~= v@.take(i as int));
        assert(v@.take(i + 1).last() == v@[i as int]);
        if v[i] == '\'' {
            out.push('\\');
            out.push('\'');
        } else {
            out.push(v[i]);
        }
        assert(out@ =~= escape_quotes(v@.take(i + 1)));
        i = i + 1;
    }
    assert(v@.take(v@.len() as int) =~= v@);
    out
}

/// The STIX pattern of a finding (see [`stix_pattern`]).
pub fn stix_pattern_for(f: &Finding) -> (r: String)
    ensures
        r@ == stix_pattern(*f),
{
    let field = chars_of(f.evidence_pointer.field.as_str());
    if contains_str(&field, "sha256") {
        let mut v = chars_of("[file:hashes.'SHA-256' = '");
        push_str(&mut v, f.title.as_str());
        push_str(&mut v, "']");
        string_of(&v)
    } else if contains_str(&field, "listener") {
        string_of(&chars_of("[network-traffic:protocols[*] = 'tcp']"))
    } else {
        let mut v = chars_of("[x-wraithrun-finding:title = '");
        push_all(&mut v, &escape_quotes_exec(f.title.as_str()));
        push_str(&mut v, "']");
        string_of(&v)
    }
}

fn identity_json(version: &str, now: &str, id: &String) -> (r: JsonValue)
    requires
        id@ == identity_id(),
    ensures
        identity_object(r, version@, now@),
{
    let mut d = chars_of("WraithRun ");
    push_str(&mut d, version);
    push_str(&mut d, " agentic investigation engine");
    let m = vec![
        str_member("type", "identity"),
        str_member("spec_version", "2.1"),
        str_member("id", id.as_str()),
        str_member("created", now),
        str_member("modified", now),
        str_member("name", "WraithRun"),
        str_member("identity_class", "system"),
        str_member("description", text_of(&d).as_str()),
    ];
    JsonValue::Object(m)
}

fn indicator_json(f: &Finding, now: &str, identity: &String, id: &String) -> (r: JsonValue)
    requires
        identity@ == identity_id(),
        id@ == indicator_id(*f),
    ensures
        indicator_object(r, *f, now@),
{
    let kind = match f.severity {
        FindingSeverity::Critical | FindingSeverity::High => "malicious-activity",
        FindingSeverity::Medium => "anomalous-activity",
        FindingSeverity::Low => "anonymization",
        FindingSeverity::Info => "benign",
    };
    let types = JsonValue::Array(vec![text_item(kind)]);
    let sev = prefixed("severity:", f.severity.token());
    let conf = prefixed("confidence:", f.confidence_label.token());
    let labels = JsonValue::Array(vec![text_item(sev.as_str()), text_item(conf.as_str())]);
    let m = vec![
        str_member("type", "indicator"),
        str_member("spec_version", "2.1"),
        str_member("id", id.as_str()),
        str_member("created_by_ref", identity.as_str()),
        str_member("created", now),
        str_member("modified", now),
        str_member("name", f.title.as_str()),
        str_member("description", f.recommended_action.as_str()),
        value_member("indicator_types", types),
        str_member("pattern_type", "stix"),
        str_member("pattern", stix_pattern_for(f).as_str()),
        str_member("valid_from", now),
        uint_member("confidence", f.confidence as u64),
        value_member("labels", labels),
    ];
    JsonValue::Object(m)
}

fn indicator_id_exec(f: &Finding) -> (r: String)
    ensures
        r@ == indicator_id(*f),
{
    let u = stable_uuid(f.title.as_str(), f.evidence_pointer.field.as_str(), &f.evidence_pointer.tool);
    proof {
        assert(opt_view(f.evidence_pointer.tool) == match f.evidence_pointer.tool {
            Some(t) => Some(t@),
            None => None::<Seq<char>>,
        });
    }
    prefixed("indicator--", u.as_str())
}

/// The STIX 2.1 bundle of a report (see [`stix_bundle`]) with the given bundle and
/// report identifiers and creation time.
pub fn stix_bundle_at(report: &RunReport, product_version: &str, bundle_uuid: &str, report_uuid: &str, now: &str) -> (r:
    JsonValue)
    requires
        report.findings@.len() + 2 <= usize::MAX,
    ensures
        stix_bundle(r, *report, product_version@, bundle_uuid@, report_uuid@, now@),
{
    let identity = prefixed("identity--", deterministic_uuid("identity:wraithrun").as_str());
    let mut objects: Vec<JsonValue> = Vec::new();
    objects.push(identity_json(product_version, now, &identity));
    let mut refs: Vec<JsonValue> = Vec::new();
    let mut i: usize = 0;
    while i < report.findings.len()
        invariant
            i <= report.findings@.len(),
            identity@ == identity_id(),
            objects@.len() == i + 1,
            refs@.len() == i,
            identity_object(objects@[0], product_version@, now@),
            forall|k: int| 0 <= k < i ==> indicator_object(#[trigger] objects@[k + 1], report.findings@[k], now@),
            forall|k: int| 0 <= k < i ==> is_text(#[trigger] refs@[k], indicator_id(report.findings@[k])),
        decreases report.findings@.len() - i,
    {
        let f = &report.findings[i];
        let id = indicator_id_exec(f);
        objects.push(indicator_json(f, now, &identity, &id));
        refs.push(JsonValue::Str(id));
        i = i + 1;
    }
    let report_members = vec![
        str_member("type", "report"),
        str_member("spec_version", "2.1"),
        str_member("id", prefixed("report--", report_uuid).as_str()),
        str_member("created_by_ref", identity.as_str()),
        str_member("created", now),
        str_member("modified", now),
        str_member("name", prefixed("WraithRun investigation: ", report.task.as_str()).as_str()),
        value_member("report_types", JsonValue::Array(vec![text_item("threat-report")])),
        str_member("published", now),
        value_member("object_refs", JsonValue::Array(refs)),
        str_member("description", report.final_answer.as_str()),
    ];
    let rep = JsonValue::Object(report_members);
    assert(report_object(rep, *report, report_uuid@, now@));
    objects.push(rep);
    let m = vec![
        str_member("type", "bundle"),
        str_member("id", prefixed("bundle--", bundle_uuid).as_str()),
        value_member("objects", JsonValue::Array(objects)),
    ];
    let r = JsonValue::Object(m);
    assert(items(val_at(r, 2)) == objects@);
    assert forall|k: int| 0 <= k < report.findings@.len() implies indicator_object(
        #[trigger] items(val_at(r, 2))[k + 1],
        report.findings@[k],
        now@,
    ) by {
        assert(objects@[k + 1] == items(val_at(r, 2))[k + 1]);
    }
    r
}

/// A report as a STIX 2.1 bundle (see [`stix_bundle`]): the bundle and the report
/// object get fresh random version-4 UUIDs as identifiers, and the current UTC time is
/// their creation time.
pub fn to_stix2(report: &RunReport, product_version: &str) -> (r: JsonValue)
    requires
        report.findings@.len() + 2 <= usize::MAX,
    ensures
        exists|b: Seq<char>, u: Seq<char>, secs: u64|
            crate::digest::is_v4_uuid_text(b) && crate::digest::is_v4_uuid_text(u) && #[trigger] stix_bundle(
                r,
                *report,
                product_version@,
                b,
                u,
                iso8601(secs as nat),
            ),
{
    let bundle_uuid = crate::server::random_token();
    let now = chrono_now();
    let report_uuid = crate::server::random_token();
    let r = stix_bundle_at(report, product_version, bundle_uuid.as_str(), report_uuid.as_str(), now.as_str());
    let ghost secs = choose|secs: u64| now@ == iso8601(secs as nat);
    assert(stix_bundle(r, *report, product_version@, bundle_uuid@, report_uuid@, iso8601(secs as nat)));
    r
}

// ---------------------------------------------------------------------------
// Findings as JSON
// ---------------------------------------------------------------------------

/// The name of a relevance.
pub open spec fn relevance_token(r: FindingRelevance) -> Seq<char> {
    match r {
        FindingRelevance::Primary => "primary"@,
        FindingRelevance::Supplementary => "supplementary"@,
    }
}

/// A contribution in thousandths as a decimal rounded to hundredths, half away from
/// zero.
pub open spec fn contribution_text(c: int) -> Seq<char> {
    let a: nat = if c < 0 { (-c) as nat } else { c as nat };
    (if c < 0 { "-"@ } else { Seq::<char>::empty() }) + two_decimals((a + 5) / 10)
}

/// `j` is a decimal number written as `text`.
pub open spec fn is_decimal(j: JsonValue, text: Seq<char>) -> bool {
    j matches JsonValue::Decimal(x) && x@ == text
}

/// `j` is `null` for `None`, else the number.
pub open spec fn is_opt_uint(j: JsonValue, n: Option<usize>) -> bool {
    match n {
        Some(k) => j == JsonValue::UInt(k as u64),
        None => j == JsonValue::Null,
    }
}

/// `j` is `null` for `None`, else the string.
pub open spec fn is_opt_text(j: JsonValue, s: Option<String>) -> bool {
    match s {
        Some(t) => is_text(j, t@),
        None => j == JsonValue::Null,
    }
}

/// A confidence factor as JSON: its name, contribution and detail.
pub open spec fn factor_doc(j: JsonValue, f: ConfidenceFactor) -> bool {
    &&& object_of(j, 3)
    &&& str_at(j, 0, "factor"@, f.factor@)
    &&& key_at(j, 1, "contribution"@) && is_decimal(val_at(j, 1), contribution_text(f.contribution as int))
    &&& str_at(j, 2, "detail"@, f.detail@)
}

/// A list of confidence factors as JSON.
pub open spec fn factors_doc(j: JsonValue, fs: Seq<ConfidenceFactor>) -> bool {
    list_of(j, fs.len() as int) && forall|i: int| 0 <= i < fs.len() ==> factor_doc(#[trigger] items(j)[i], fs[i])
}

/// A finding as JSON, its fields in order; the factors only when there are any.
pub open spec fn finding_doc(j: JsonValue, f: Finding) -> bool {
    let k: int = if f.confidence_factors@.len() > 0 { 1int } else { 0int };
    let e = val_at(j, 5 + k);
    &&& object_of(j, 7 + k)
    &&& str_at(j, 0, "title"@, f.title@)
    &&& str_at(j, 1, "severity"@, severity_token_spec(f.severity))
    &&& key_at(j, 2, "confidence"@) && is_decimal(val_at(j, 2), two_decimals(f.confidence as nat))
    &&& str_at(j, 3, "confidence_label"@, confidence_token_spec(f.confidence_label))
    &&& (k == 1 ==> key_at(j, 4, "confidence_factors"@) && factors_doc(val_at(j, 4), f.confidence_factors@))
    &&& str_at(j, 4 + k, "relevance"@, relevance_token(f.relevance))
    &&& key_at(j, 5 + k, "evidence_pointer"@) && object_of(e, 3) && key_at(e, 0, "turn"@) && is_opt_uint(
        val_at(e, 0),
        f.evidence_pointer.turn,
    ) && key_at(e, 1, "tool"@) && is_opt_text(val_at(e, 1), f.evidence_pointer.tool) && str_at(
        e,
        2,
        "field"@,
        f.evidence_pointer.field@,
    )
    &&& str_at(j, 6 + k, "recommended_action"@, f.recommended_action@)
}

fn decimal_of(v: Vec<char>) -> (r: JsonValue)
    ensures
        is_decimal(r, v@),
{
    JsonValue::Decimal(string_of(&v))
}

fn contribution_json(c: i128) -> (r: JsonValue)
    ensures
        is_decimal(r, contribution_text(c as int)),
{
    let mut v: Vec<char> = Vec::new();
    let a: u128 = if c < 0 {
        (0i128 - (c + 1)) as u128 + 1
    } else {
        c as u128
    };
    if c < 0 {
        v.push('-');
    }
    let r = (a + 5) / 10;
    let ghost head = v@;
    push_all(&mut v, &crate::confidence::dec_u128(r / 100));
    v.push('.');
    push_all(&mut v, &crate::text::dec_padded_chars((r % 100) as u64, 2));
    proof {
        reveal_strlit("-");
        if c < 0 {
            assert(head =~= "-"@);
        } else {
            assert(head =~= Seq::<char>::empty());
        }
        assert(v@ =~= head + two_decimals(r as nat));
    }
    decimal_of(v)
}

fn factor_json(f: &ConfidenceFactor) -> (r: JsonValue)
    ensures
        factor_doc(r, *f),
{
    let m = vec![
        str_member("factor", f.factor.as_str()),
        value_member("contribution", contribution_json(f.contribution)),
        str_member("detail", f.detail.as_str()),
    ];
    JsonValue::Object(m)
}

/// The confidence factors as a JSON list.
pub fn factors_json(fs: &Vec<ConfidenceFactor>) -> (r: JsonValue)
    ensures
        factors_doc(r, fs@),
{
    let mut out: Vec<JsonValue> = Vec::new();
    let mut i: usize = 0;
    while i < fs.len()
        invariant
            i <= fs@.len(),
            out@.len() == i,
            forall|k: int| 0 <= k < i ==> factor_doc(#[trigger] out@[k], fs@[k]),
        decreases fs@.len() - i,
    {
        out.push(factor_json(&fs[i]));
        i = i + 1;
    }
    JsonValue::Array(out)
}

fn opt_uint_json(n: Option<usize>) -> (r: JsonValue)
    ensures
        is_opt_uint(r, n),
{
    match n {
        Some(k) => JsonValue::UInt(k as u64),
        None => JsonValue::Null,
    }
}

fn opt_text_json(s: &Option<String>) -> (r: JsonValue)
    ensures
        is_opt_text(r, *s),
{
    match s {
        Some(t) => JsonValue::Str(string_of(&chars_of(t.as_str()))),
        None => JsonValue::Null,
    }
}

fn relevance_str(r: FindingRelevance) -> (s: &'static str)
    ensures
        s@ == relevance_token(r),
{
    match r {
        FindingRelevance::Primary => "primary",
        FindingRelevance::Supplementary => "supplementary",
    }
}

/// A finding as JSON (see [`finding_doc`]); the confidence is written in hundredths
/// as a two-decimal number.
pub fn finding_json(f: &Finding) -> (r: JsonValue)
    ensures
        finding_doc(r, *f),
{
    let mut conf: Vec<char> = Vec::new();
    push_two_decimals(&mut conf, f.confidence as u64);
    assert(conf@ =~= two_decimals(f.confidence as nat));
    let pointer = JsonValue::Object(
        vec![
            value_member("turn", opt_uint_json(f.evidence_pointer.turn)),
            value_member("tool", opt_text_json(&f.evidence_pointer.tool)),
            str_member("field", f.evidence_pointer.field.as_str()),
        ],
    );
    let mut m: Vec<(String, JsonValue)> = Vec::new();
    m.push(str_member("title", f.title.as_str()));
    m.push(str_member("severity", f.severity.token()));
    m.push(value_member("confidence", decimal_of(conf)));
    m.push(str_member("confidence_label", f.confidence_label.token()));
    if f.confidence_factors.len() > 0 {
        m.push(value_member("confidence_factors", factors_json(&f.confidence_factors)));
    }
    m.push(str_member("relevance", relevance_str(f.relevance)));
    m.push(value_member("evidence_pointer", pointer));
    m.push(str_member("recommended_action", f.recommended_action.as_str()));
    JsonValue::Object(m)
}

// ---------------------------------------------------------------------------
// OCSF Detection Findings
// ---------------------------------------------------------------------------

/// The OCSF severity number of a severity.
pub open spec fn ocsf_severity_id_spec(s: FindingSeverity) -> u64 {
    match s {
        FindingSeverity::Info => 1,
        FindingSeverity::Low => 2,
        FindingSeverity::Medium => 3,
        FindingSeverity::High => 4,
        FindingSeverity::Critical => 5,
    }
}

/// The OCSF severity name of a severity.
pub open spec fn ocsf_severity_label_spec(s: FindingSeverity) -> Seq<char> {
    match s {
        FindingSeverity::Info => "Informational"@,
        FindingSeverity::Low => "Low"@,
        FindingSeverity::Medium => "Medium"@,
        FindingSeverity::High => "High"@,
        FindingSeverity::Critical => "Critical"@,
    }
}

/// The record time in milliseconds for a clock reading in seconds: the seconds taken
/// as a signed 64-bit number, times 1000, saturated to the signed 64-bit range.
pub open spec fn ocsf_time(secs: u64) -> int {
    let v: int = if secs <= i64::MAX { secs as int } else { secs - 0x1_0000_0000_0000_0000 };
    let t = v * 1000;
    if t > i64::MAX {
        i64::MAX as int
    } else if t < i64::MIN {
        i64::MIN as int
    } else {
        t
    }
}

/// `j` is the integer `v`.
pub open spec fn is_int(j: JsonValue, v: int) -> bool {
    if v >= 0 {
        j == JsonValue::UInt(v as u64)
    } else {
        j == JsonValue::NegInt(v as i64)
    }
}

/// The OCSF metadata of WraithRun `version`.
pub open spec fn metadata_doc(j: JsonValue, version: Seq<char>) -> bool {
    let p = val_at(j, 1);
    &&& object_of(j, 2)
    &&& str_at(j, 0, "version"@, "1.1.0"@)
    &&& key_at(j, 1, "product"@) && object_of(p, 3) && str_at(p, 0, "name"@, "WraithRun"@) && str_at(
        p,
        1,
        "version"@,
        version,
    ) && str_at(p, 2, "vendor_name"@, "Anthropic-community"@)
}

/// The OCSF finding information of a finding.
pub open spec fn finding_info_doc(j: JsonValue, f: Finding) -> bool {
    &&& object_of(j, 5)
    &&& str_at(j, 0, "title"@, f.title@)
    &&& str_at(j, 1, "uid"@, stable_uid_spec(f.title@, f.evidence_pointer.field@))
    &&& str_at(j, 2, "desc"@, f.recommended_action@)
    &&& key_at(j, 3, "types"@) && list_of(val_at(j, 3), 1) && is_text(items(val_at(j, 3))[0], "Host"@)
    &&& key_at(j, 4, "src_url"@) && val_at(j, 4) == JsonValue::Null
}

/// The OCSF evidence of a finding: the observation of its tool (or of the synthesizer).
pub open spec fn evidences_doc(j: JsonValue, f: Finding) -> bool {
    let e = items(j)[0];
    let d = val_at(e, 2);
    &&& list_of(j, 1)
    &&& object_of(e, 3)
    &&& str_at(
        e,
        0,
        "name"@,
        match f.evidence_pointer.tool {
            Some(t) => t@,
            None => "synthesizer"@,
        },
    )
    &&& str_at(e, 1, "type"@, "Observation"@)
    &&& key_at(e, 2, "data"@) && object_of(d, 3) && str_at(d, 0, "field"@, f.evidence_pointer.field@) && key_at(
        d,
        1,
        "tool"@,
    ) && is_opt_text(val_at(d, 1), f.evidence_pointer.tool) && key_at(d, 2, "turn"@) && is_opt_uint(
        val_at(d, 2),
        f.evidence_pointer.turn,
    )
}

/// The WraithRun fields of a record that OCSF does not map.
pub open spec fn unmapped_doc(j: JsonValue, f: Finding, r: RunReport) -> bool {
    &&& object_of(j, 4)
    &&& str_at(j, 0, "wraithrun.task"@, r.task@)
    &&& key_at(j, 1, "wraithrun.case_id"@) && is_opt_text(val_at(j, 1), r.case_id)
    &&& key_at(j, 2, "wraithrun.confidence_factors"@) && factors_doc(val_at(j, 2), f.confidence_factors@)
    &&& str_at(j, 3, "wraithrun.relevance"@, relevance_token(f.relevance))
}

/// `j` is the OCSF Detection Finding (class 2004) record of a finding of report `r`,
/// made at `time` milliseconds; its raw data is the finding's compact JSON text.
pub open spec fn ocsf_record(j: JsonValue, f: Finding, r: RunReport, version: Seq<char>, time: int) -> bool {
    &&& object_of(j, 18)
    &&& uint_at(j, 0, "class_uid"@, 2004)
    &&& str_at(j, 1, "class_name"@, "Detection Finding"@)
    &&& uint_at(j, 2, "category_uid"@, 2)
    &&& str_at(j, 3, "category_name"@, "Findings"@)
    &&& uint_at(j, 4, "type_uid"@, 200401)
    &&& uint_at(j, 5, "activity_id"@, 1)
    &&& uint_at(j, 6, "severity_id"@, ocsf_severity_id_spec(f.severity))
    &&& str_at(j, 7, "severity"@, ocsf_severity_label_spec(f.severity))
    &&& uint_at(j, 8, "status_id"@, 1)
    &&& str_at(j, 9, "status"@, "New"@)
    &&& key_at(j, 10, "time"@) && is_int(val_at(j, 10), time)
    &&& key_at(j, 11, "metadata"@) && metadata_doc(val_at(j, 11), version)
    &&& key_at(j, 12, "finding_info"@) && finding_info_doc(val_at(j, 12), f)
    &&& uint_at(j, 13, "confidence"@, f.confidence as u64)
    &&& uint_at(j, 14, "confidence_score"@, f.confidence as u64)
    &&& key_at(j, 15, "evidences"@) && evidences_doc(val_at(j, 15), f)
    &&& key_at(j, 16, "raw_data"@) && exists|d: JsonValue| #[trigger] finding_doc(d, f) && is_text(val_at(j, 16), json_compact_text(d))
    &&& key_at(j, 17, "unmapped"@) && unmapped_doc(val_at(j, 17), f, r)
}

/// The OCSF records of a report: one per finding, in order.
pub open spec fn ocsf_records(j: JsonValue, r: RunReport, version: Seq<char>, time: int) -> bool {
    &&& list_of(j, r.findings@.len() as int)
    &&& forall|i: int| 0 <= i < r.findings@.len() ==> ocsf_record(#[trigger] items(j)[i], r.findings@[i], r, version, time)
}

fn metadata_json(version: &str) -> (r: JsonValue)
    ensures
        metadata_doc(r, version@),
{
    let product = JsonValue::Object(
        vec![
            str_member("name", "WraithRun"),
            str_member("version", version),
            str_member("vendor_name", "Anthropic-community"),
        ],
    );
    JsonValue::Object(vec![str_member("version", "1.1.0"), value_member("product", product)])
}

fn time_json(secs: u64) -> (r: JsonValue)
    ensures
        is_int(r, ocsf_time(secs)),
{
    let v: i128 = if secs <= 0x7FFF_FFFF_FFFF_FFFF {
        secs as i128
    } else {
        secs as i128 - 0x1_0000_0000_0000_0000i128
    };
    let t: i128 = v * 1000;
    if t > 0x7FFF_FFFF_FFFF_FFFFi128 {
        JsonValue::UInt(0x7FFF_FFFF_FFFF_FFFF)
    } else if t < -0x8000_0000_0000_0000i128 {
        JsonValue::NegInt(-0x8000_0000_0000_0000i64)
    } else if t >= 0 {
        JsonValue::UInt(t as u64)
    } else {
        JsonValue::NegInt(t as i64)
    }
}

fn ocsf_record_json(f: &Finding, report: &RunReport, version: &str, secs: u64) -> (r: JsonValue)
    ensures
        ocsf_record(r, *f, *report, version@, ocsf_time(secs)),
{
    let (sev_id, sev_label): (u64, &str) = match f.severity {
        FindingSeverity::Info => (1, "Informational"),
        FindingSeverity::Low => (2, "Low"),
        FindingSeverity::Medium => (3, "Medium"),
        FindingSeverity::High => (4, "High"),
        FindingSeverity::Critical => (5, "Critical"),
    };
    let info = JsonValue::Object(
        vec![
            str_member("title", f.title.as_str()),
            str_member("uid", stable_uid(f.title.as_str(), f.evidence_pointer.field.as_str()).as_str()),
            str_member("desc", f.recommended_action.as_str()),
            value_member("types", JsonValue::Array(vec![text_item("Host")])),
            value_member("src_url", JsonValue::Null),
        ],
    );
    let name = match &f.evidence_pointer.tool {
        Some(t) => string_of(&chars_of(t.as_str())),
        None => string_of(&chars_of("synthesizer")),
    };
    let data = JsonValue::Object(
        vec![
            str_member("field", f.evidence_pointer.field.as_str()),
            value_member("tool", opt_text_json(&f.evidence_pointer.tool)),
            value_member("turn", opt_uint_json(f.evidence_pointer.turn)),
        ],
    );
    let evidence = JsonValue::Object(
        vec![str_member("name", name.as_str()), str_member("type", "Observation"), value_member("data", data)],
    );
    let doc = finding_json(f);
    let raw = compact_json(&doc);
    let unmapped = JsonValue::Object(
        vec![
            str_member("wraithrun.task", report.task.as_str()),
            value_member("wraithrun.case_id", opt_text_json(&report.case_id)),
            value_member("wraithrun.confidence_factors", factors_json(&f.confidence_factors)),
            str_member("wraithrun.relevance", relevance_str(f.relevance)),
        ],
    );
    let m = vec![
        uint_member("class_uid", 2004),
        str_member("class_name", "Detection Finding"),
        uint_member("category_uid", 2),
        str_member("category_name", "Findings"),
        uint_member("type_uid", 200401),
        uint_member("activity_id", 1),
        uint_member("severity_id", sev_id),
        str_member("severity", sev_label),
        uint_member("status_id", 1),
        str_member("status", "New"),
        value_member("time", time_json(secs)),
        value_member("metadata", metadata_json(version)),
        value_member("finding_info", info),
        uint_member("confidence", f.confidence as u64),
        uint_member("confidence_score", f.confidence as u64),
        value_member("evidences", JsonValue::Array(vec![evidence])),
        str_member("raw_data", raw.as_str()),
        value_member("unmapped", unmapped),
    ];
    let r = JsonValue::Object(m);
    assert(finding_doc(doc, *f) && is_text(val_at(r, 16), json_compact_text(doc)));
    r
}

/// The OCSF Detection Finding records of a report (see [`ocsf_records`]), made at the
/// clock reading `now_secs`.
pub fn ocsf_records_at(report: &RunReport, product_version: &str, now_secs: u64) -> (r: JsonValue)
    ensures
        ocsf_records(r, *report, product_version@, ocsf_time(now_secs)),
{
    let mut out: Vec<JsonValue> = Vec::new();
    let mut i: usize = 0;
    while i < report.findings.len()
        invariant
            i <= report.findings@.len(),
            out@.len() == i,
            forall|k: int|
                0 <= k < i ==> ocsf_record(#[trigger] out@[k], report.findings@[k], *report, product_version@, ocsf_time(now_secs)),
        decreases report.findings@.len() - i,
    {
        out.push(ocsf_record_json(&report.findings[i], report, product_version, now_secs));
        i = i + 1;
    }
    JsonValue::Array(out)
}

/// A report as OCSF Detection Finding records (see [`ocsf_records`]), made at the
/// current time of the system clock.
pub fn to_ocsf(report: &RunReport, product_version: &str) -> (r: JsonValue)
    ensures
        exists|secs: u64| #[trigger] ocsf_records(r, *report, product_version@, ocsf_time(secs)),
{
    let secs = crate::text_support::unix_now_secs();
    ocsf_records_at(report, product_version, secs)
}

} // verus!
