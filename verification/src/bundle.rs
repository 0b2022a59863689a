//! Verifying an evidence bundle against its `SHA256SUMS` manifest: which manifest
//! lines name files to check, what each file's digest says, and the report.  The host
//! reads the manifest and the files; the library parses, hashes and judges.
use vstd::prelude::*;

use crate::cli::{checksum_line_spec, hex_char_spec, is_valid_sha256_hex, parse_checksum_line, trim_end_chars};
use crate::digest::{hex, sha256_hex, sha256_of};
use crate::json::{is_str_member, is_uint_member, str_member, uint_member, value_member, JsonValue};
use crate::json_text::{json_pretty_text, pretty_json};
use crate::plugin::{join_path, join_paths};
use crate::text::{
    ascii_lower, chars_of, dec, eq_ignore_ascii_case, lines, lines_of, push_all, push_str, string_of,
    string_views, to_ascii_lower, trim, trim_chars, trim_end, usize_dec, views,
};

verus! {

/// The verdict on one manifest entry.
#[derive(Debug, Clone, Copy, PartialEq, Eq, Structural)]
pub enum BundleVerificationStatus {
    Pass,
    Missing,
    Mismatch,
    Unreadable,
}

/// A manifest entry asking for a file's digest.
#[derive(Debug)]
pub struct ChecksumRequest {
    /// The digest the manifest expects, as written.
    pub expected_sha256: String,
    /// The file's path relative to the bundle.
    pub file: String,
}

/// A 64-digit hex SHA-256 digest, in either case.
pub open spec fn valid_sha256_spec(s: Seq<char>) -> bool {
    s.len() == 64 && forall|i: int| 0 <= i < s.len() ==> hex_char_spec(#[trigger] s[i])
}

/// What line `n` (counted from 1) of a manifest asks for: nothing (a blank line or a
/// comment), a digest check of a file, or a parse error.
pub open spec fn manifest_line(n: nat, line: Seq<char>) -> Option<Result<(Seq<char>, Seq<char>), Seq<char>>> {
    let t = trim(line);
    if t.len() == 0 || t[0] == '#' {
        None
    } else {
        match checksum_line_spec(t) {
            None => Some(Err("Line "@ + dec(n) + " is not a valid '<sha256>  <filename>' entry: "@ + t)),
            Some((e, f)) => if !valid_sha256_spec(e) {
                Some(Err("Line "@ + dec(n) + " has invalid SHA-256 digest '"@ + e + "': expected 64 hex characters"@))
            } else if f.len() == 0 {
                Some(Err("Line "@ + dec(n) + " is missing a filename"@))
            } else {
                Some(Ok((e, f)))
            },
        }
    }
}

/// The digest checks and the parse errors of a manifest's lines, in line order.
pub open spec fn manifest_plan(ls: Seq<Seq<char>>) -> (Seq<(Seq<char>, Seq<char>)>, Seq<Seq<char>>)
    decreases ls.len(),
{
    if ls.len() == 0 {
        (seq![], seq![])
    } else {
        let p = manifest_plan(ls.drop_last());
        match manifest_line(ls.len(), ls.last()) {
            None => p,
            Some(Ok(r)) => (p.0.push(r), p.1),
            Some(Err(e)) => (p.0, p.1.push(e)),
        }
    }
}

pub open spec fn request_views(rs: Seq<ChecksumRequest>) -> Seq<(Seq<char>, Seq<char>)> {
    Seq::new(rs.len(), |i: int| (rs[i].expected_sha256@, rs[i].file@))
}

fn manifest_line_exec(n: usize, line: &Vec<char>) -> (r: Option<Result<ChecksumRequest, String>>)
    ensures
        match manifest_line(n as nat, line@) {
            None => r is None,
            Some(Ok((e, f))) => r matches Some(Ok(q)) && q.expected_sha256@ == e && q.file@ == f,
            Some(Err(m)) => r matches Some(Err(x)) && x@ == m,
        },
{
    let t = trim_chars(line);
    if t.len() == 0 || t[0] == '#' {
        return None;
    }
    let ts = string_of(&t);
    match parse_checksum_line(ts.as_str()) {
        None => {
            let mut m = chars_of("Line ");
            push_all(&mut m, &usize_dec(n));
            push_str(&mut m, " is not a valid '<sha256>  <filename>' entry: ");
            push_all(&mut m, &t);
            Some(Err(string_of(&m)))
        },
        Some((e, f)) => {
            if !is_valid_sha256_hex(e.as_str()) {
                let mut m = chars_of("Line ");
                push_all(&mut m, &usize_dec(n));
                push_str(&mut m, " has invalid SHA-256 digest '");
                push_str(&mut m, e.as_str());
                push_str(&mut m, "': expected 64 hex characters");
                Some(Err(string_of(&m)))
            } else if chars_of(f.as_str()).len() == 0 {
                let mut m = chars_of("Line ");
                push_all(&mut m, &usize_dec(n));
                push_str(&mut m, " is missing a filename");
                Some(Err(string_of(&m)))
            } else {
                Some(Ok(ChecksumRequest { expected_sha256: e, file: f }))
            }
        },
    }
}

/// The digest checks and the parse errors of a manifest (see [`manifest_plan`]).
pub fn plan_checksum_entries(checksums_text: &str) -> (r: (Vec<ChecksumRequest>, Vec<String>))
    ensures
        request_views(r.0@) == manifest_plan(lines(checksums_text@)).0,
        string_views(r.1@) == manifest_plan(lines(checksums_text@)).1,
{
    let ls = lines_of(checksums_text);
    let ghost lv = views(ls@);
    let mut requests: Vec<ChecksumRequest> = Vec::new();
    let mut errors: Vec<String> = Vec::new();
    let mut i: usize = 0;
    assert(lv.take(0) =~= Seq::<Seq<char>>::empty());
    assert(request_views(requests@) =~= Seq::<(Seq<char>, Seq<char>)>::empty());
    assert(string_views(errors@) =~= Seq::<Seq<char>>::empty());
    while i < ls.len()
        invariant
            i <= ls@.len(),
            lv == views(ls@),
            lv == lines(checksums_text@),
            request_views(requests@) == manifest_plan(lv.take(i as int)).0,
            string_views(errors@) == manifest_plan(lv.take(i as int)).1,
        decreases ls@.len() - i,
    {
        assert(lv.take(i + 1).drop_last() =~= lv.take(i as int));
        assert(lv.take(i + 1).last() == ls@[i as int]@);
        let ghost before_r = request_views(requests@);
        let ghost before_e = string_views(errors@);
        match manifest_line_exec(i + 1, &ls[i]) {
            None => {},
            Some(Ok(q)) => {
                requests.push(q);
                assert(request_views(requests@) =~= before_r.push((requests@.last().expected_sha256@, requests@.last().file@)));
            },
            Some(Err(m)) => {
                errors.push(m);
                assert(string_views(errors@) =~= before_e.push(errors@.last()@));
            },
        }
        i = i + 1;
    }
    assert(lv.take(ls@.len() as int) =~= lv);
    (requests, errors)
}

// ---------------------------------------------------------------------------
// Judging the files
// ---------------------------------------------------------------------------

/// What the host found at a manifest entry's file.
#[derive(Debug)]
pub enum FileProbe {
    /// No file at the path.
    Missing,
    /// The file's bytes.
    Read(Vec<u8>),
    /// The file could not be read; the system's message.
    Unreadable(String),
}

/// The verdict on one manifest entry.
#[derive(Debug)]
pub struct BundleVerificationEntry {
    pub file: String,
    /// The expected digest in lower case.
    pub expected_sha256: String,
    pub actual_sha256: Option<String>,
    pub status: BundleVerificationStatus,
    pub detail: Option<String>,
}

/// `e` is the verdict on `req` given what was found at its file in `bundle_dir`: a
/// missing or unreadable file fails, a read file passes when its digest equals the
/// expected one in any case.
pub open spec fn entry_is(e: BundleVerificationEntry, bundle_dir: Seq<char>, req: ChecksumRequest, p: FileProbe) -> bool {
    &&& e.file@ == req.file@
    &&& e.expected_sha256@ == ascii_lower(req.expected_sha256@)
    &&& match p {
        FileProbe::Missing => e.actual_sha256 is None && e.status == BundleVerificationStatus::Missing
            && (e.detail matches Some(d) && d@ == "Missing file: "@ + join_path(bundle_dir, req.file@)),
        FileProbe::Read(bytes) => (e.actual_sha256 matches Some(a) && a@ == hex(sha256_of(bytes@))) && e.status == (
        if ascii_lower(hex(sha256_of(bytes@))) == ascii_lower(req.expected_sha256@) {
            BundleVerificationStatus::Pass
        } else {
            BundleVerificationStatus::Mismatch
        }) && e.detail is None,
        FileProbe::Unreadable(m) => e.actual_sha256 is None && e.status == BundleVerificationStatus::Unreadable
            && (e.detail matches Some(d) && d@ == m@),
    }
}

/// The verdict on one manifest entry (see [`entry_is`]); the digest of a read file is
/// SHA-256 in lower-case hex.
pub fn verify_checksum_entry(bundle_dir: &str, req: &ChecksumRequest, probe: FileProbe) -> (r: BundleVerificationEntry)
    ensures
        entry_is(r, bundle_dir@, *req, probe),
{
    let expected = string_of(&to_ascii_lower(&chars_of(req.expected_sha256.as_str())));
    let file = string_of(&chars_of(req.file.as_str()));
    match probe {
        FileProbe::Missing => {
            let mut d = chars_of("Missing file: ");
            push_str(&mut d, join_paths(bundle_dir, req.file.as_str()).as_str());
            BundleVerificationEntry {
                file,
                expected_sha256: expected,
                actual_sha256: None,
                status: BundleVerificationStatus::Missing,
                detail: Some(string_of(&d)),
            }
        },
        FileProbe::Read(bytes) => {
            let actual = sha256_hex(&bytes);
            let status = if eq_ignore_ascii_case(&chars_of(actual.as_str()), &chars_of(req.expected_sha256.as_str())) {
                BundleVerificationStatus::Pass
            } else {
                BundleVerificationStatus::Mismatch
            };
            BundleVerificationEntry {
                file,
                expected_sha256: expected,
                actual_sha256: Some(actual),
                status,
                detail: None,
            }
        },
        FileProbe::Unreadable(m) => BundleVerificationEntry {
            file,
            expected_sha256: expected,
            actual_sha256: None,
            status: BundleVerificationStatus::Unreadable,
            detail: Some(m),
        },
    }
}

// ---------------------------------------------------------------------------
// The report
// ---------------------------------------------------------------------------

/// The counts of passing and failing checks.
#[derive(Debug)]
pub struct BundleVerificationSummary {
    pub pass: usize,
    pub fail: usize,
}

/// The verification of a bundle.
#[derive(Debug)]
pub struct BundleVerificationReport {
    pub bundle_dir: String,
    pub checksums_path: String,
    pub summary: BundleVerificationSummary,
    pub entries: Vec<BundleVerificationEntry>,
    pub parse_errors: Vec<String>,
}

/// The number of entries that passed.
pub open spec fn pass_count(es: Seq<BundleVerificationEntry>) -> nat
    decreases es.len(),
{
    if es.len() == 0 {
        0
    } else {
        pass_count(es.drop_last()) + if es.last().status == BundleVerificationStatus::Pass {
            1nat
        } else {
            0nat
        }
    }
}

proof fn lemma_pass_count_bound(es: Seq<BundleVerificationEntry>)
    ensures
        pass_count(es) <= es.len(),
    decreases es.len(),
{
    if es.len() > 0 {
        lemma_pass_count_bound(es.drop_last());
    }
}

/// The parse errors a report lists: a manifest with no entry at all is an error.
pub open spec fn reported_errors(entries: Seq<BundleVerificationEntry>, parse_errors: Seq<Seq<char>>) -> Seq<Seq<char>> {
    if entries.len() == 0 && parse_errors.len() == 0 {
        seq!["No checksum entries found in SHA256SUMS"@]
    } else {
        parse_errors
    }
}

/// The report of a bundle's verification: the passing entries, and as failures the
/// other entries and the parse errors.
pub fn bundle_verification_report(
    bundle_dir: String,
    checksums_path: String,
    entries: Vec<BundleVerificationEntry>,
    parse_errors: Vec<String>,
) -> (r: BundleVerificationReport)
    requires
        entries@.len() + parse_errors@.len() < usize::MAX,
    ensures
        r.bundle_dir@ == bundle_dir@,
        r.checksums_path@ == checksums_path@,
        r.entries@ == entries@,
        string_views(r.parse_errors@) == reported_errors(entries@, string_views(parse_errors@)),
        r.summary.pass == pass_count(entries@),
        r.summary.fail == entries@.len() - pass_count(entries@) + r.parse_errors@.len(),
{
    let mut errors = parse_errors;
    if entries.len() == 0 && errors.len() == 0 {
        errors.push(string_of(&chars_of("No checksum entries found in SHA256SUMS")));
        assert(string_views(errors@) =~= seq!["No checksum entries found in SHA256SUMS"@]);
    }
    let mut pass: usize = 0;
    let mut i: usize = 0;
    while i < entries.len()
        invariant
            i <= entries@.len(),
            pass == pass_count(entries@.take(i as int)),
            pass <= i,
        decreases entries@.len() - i,
    {
        assert(entries@.take(i + 1).drop_last() =~= entries@.take(i as int));
        if entries[i].status == BundleVerificationStatus::Pass {
            pass = pass + 1;
        }
        i = i + 1;
    }
    assert(entries@.take(entries@.len() as int) =~= entries@);
    let fail = (entries.len() - pass) + errors.len();
    BundleVerificationReport {
        bundle_dir,
        checksums_path,
        summary: BundleVerificationSummary { pass, fail },
        entries,
        parse_errors: errors,
    }
}

// ---------------------------------------------------------------------------
// Rendering the report
// ---------------------------------------------------------------------------

/// The status of an entry as the text report marks it.
pub open spec fn status_mark(s: BundleVerificationStatus) -> Seq<char> {
    if s == BundleVerificationStatus::Pass {
        "PASS"@
    } else {
        "FAIL"@
    }
}

/// An entry in the text report: a failing one shows the digests and the detail.
pub open spec fn entry_text(e: BundleVerificationEntry) -> Seq<char> {
    "- ["@ + status_mark(e.status) + "] "@ + e.file@ + "\n"@ + if e.status != BundleVerificationStatus::Pass {
        "  expected: "@ + e.expected_sha256@ + "\n  actual: "@ + match e.actual_sha256 {
            Some(a) => a@,
            None => "(unavailable)"@,
        } + "\n"@ + match e.detail {
            Some(d) => "  detail: "@ + d@ + "\n"@,
            None => Seq::empty(),
        }
    } else {
        Seq::empty()
    }
}

pub open spec fn entries_text(es: Seq<BundleVerificationEntry>) -> Seq<char>
    decreases es.len(),
{
    if es.len() == 0 {
        Seq::empty()
    } else {
        entries_text(es.drop_last()) + entry_text(es.last())
    }
}

pub open spec fn errors_text(errs: Seq<Seq<char>>) -> Seq<char>
    decreases errs.len(),
{
    if errs.len() == 0 {
        Seq::empty()
    } else {
        errors_text(errs.drop_last()) + "- [FAIL] "@ + errs.last() + "\n"@
    }
}

/// The text report: the bundle and manifest paths, the counts, the entries and the
/// parse errors, without trailing white space.
pub open spec fn bundle_report_text(r: BundleVerificationReport) -> Seq<char> {
    trim_end(
        "WraithRun Evidence Bundle Verification\nBundle: "@ + r.bundle_dir@ + "\nChecksums: "@ + r.checksums_path@
            + "\nSummary: "@ + dec(r.summary.pass as nat) + " pass, "@ + dec(r.summary.fail as nat) + " fail\n"@
            + (if r.entries@.len() == 0 {
            "\nChecks: none\n"@
        } else {
            "\nChecks:\n"@ + entries_text(r.entries@)
        }) + (if r.parse_errors@.len() == 0 {
            Seq::<char>::empty()
        } else {
            "\nParse Errors:\n"@ + errors_text(string_views(r.parse_errors@))
        }),
    )
}

fn entry_text_exec(e: &BundleVerificationEntry) -> (r: Vec<char>)
    ensures
        r@ == entry_text(*e),
{
    let pass = e.status == BundleVerificationStatus::Pass;
    let mut out = chars_of("- [");
    push_str(&mut out, if pass { "PASS" } else { "FAIL" });
    push_str(&mut out, "] ");
    push_str(&mut out, e.file.as_str());
    push_str(&mut out, "\n");
    if !pass {
        push_str(&mut out, "  expected: ");
        push_str(&mut out, e.expected_sha256.as_str());
        push_str(&mut out, "\n  actual: ");
        match &e.actual_sha256 {
            Some(a) => push_str(&mut out, a.as_str()),
            None => push_str(&mut out, "(unavailable)"),
        }
        push_str(&mut out, "\n");
        match &e.detail {
            Some(d) => {
                push_str(&mut out, "  detail: ");
                push_str(&mut out, d.as_str());
                push_str(&mut out, "\n");
            },
            None => {},
        }
    }
    out
}

/// The text report of a bundle's verification (see [`bundle_report_text`]).
pub fn render_bundle_verification_report(report: &BundleVerificationReport) -> (r: String)
    ensures
        r@ == bundle_report_text(*report),
{
    let mut out = chars_of("WraithRun Evidence Bundle Verification\nBundle: ");
    push_str(&mut out, report.bundle_dir.as_str());
    push_str(&mut out, "\nChecksums: ");
    push_str(&mut out, report.checksums_path.as_str());
    push_str(&mut out, "\nSummary: ");
    push_all(&mut out, &usize_dec(report.summary.pass));
    push_str(&mut out, " pass, ");
    push_all(&mut out, &usize_dec(report.summary.fail));
    push_str(&mut out, " fail\n");
    let ghost head = out@;
    if report.entries.len() == 0 {
        push_str(&mut out, "\nChecks: none\n");
    } else {
        push_str(&mut out, "\nChecks:\n");
        let ghost h2 = out@;
        let mut i: usize = 0;
        assert(report.entries@.take(0) =~= Seq::<BundleVerificationEntry>::empty());
        assert(out@ =~= h2 + entries_text(report.entries@.take(0)));
        while i < report.entries.len()
            invariant
                i <= report.entries@.len(),
                out@ == h2 + entries_text(report.entries@.take(i as int)),
            decreases report.entries@.len() - i,
        {
            assert(report.entries@.take(i + 1).drop_last() =~= report.entries@.take(i as int));
            let t = entry_text_exec(&report.entries[i]);
            push_all(&mut out, &t);
            assert(out@ =~= h2 + entries_text(report.entries@.take(i + 1)));
            i = i + 1;
        }
        assert(report.entries@.take(report.entries@.len() as int) =~= report.entries@);
    }
    let ghost h3 = out@;
    if report.parse_errors.len() > 0 {
        push_str(&mut out, "\nParse Errors:\n");
        let ghost h4 = out@;
        let ghost ev = string_views(report.parse_errors@);
        let mut i: usize = 0;
        assert(ev.take(0) =~= Seq::<Seq<char>>::empty());
        assert(out@ =~= h4 + errors_text(ev.take(0)));
        while i < report.parse_errors.len()
            invariant
                i <= report.parse_errors@.len(),
                ev == string_views(report.parse_errors@),
                out@ == h4 + errors_text(ev.take(i as int)),
            decreases report.parse_errors@.len() - i,
        {
            assert(ev.take(i + 1).drop_last() =~= ev.take(i as int));
            assert(ev.take(i + 1).last() == report.parse_errors@[i as int]@);
            push_str(&mut out, "- [FAIL] ");
            push_str(&mut out, report.parse_errors[i].as_str());
            push_str(&mut out, "\n");
            assert(out@ =~= h4 + errors_text(ev.take(i + 1)));
            i = i + 1;
        }
        assert(ev.take(ev.len() as int) =~= ev);
    }
    assert(out@ =~= "WraithRun Evidence Bundle Verification\nBundle: "@ + report.bundle_dir@ + "\nChecksums: "@
        + report.checksums_path@ + "\nSummary: "@ + dec(report.summary.pass as nat) + " pass, "@
        + dec(report.summary.fail as nat) + " fail\n"@ + (if report.entries@.len() == 0 {
        "\nChecks: none\n"@
    } else {
        "\nChecks:\n"@ + entries_text(report.entries@)
    }) + (if report.parse_errors@.len() == 0 {
        Seq::<char>::empty()
    } else {
        "\nParse Errors:\n"@ + errors_text(string_views(report.parse_errors@))
    }));
    string_of(&trim_end_chars(&out))
}

/// The name of a status in JSON.
pub open spec fn status_token(s: BundleVerificationStatus) -> Seq<char> {
    match s {
        BundleVerificationStatus::Pass => "pass"@,
        BundleVerificationStatus::Missing => "missing"@,
        BundleVerificationStatus::Mismatch => "mismatch"@,
        BundleVerificationStatus::Unreadable => "unreadable"@,
    }
}

/// An entry as JSON: file, expected digest, the actual digest when there is one, the
/// status, and the detail when there is one.
pub open spec fn entry_json(j: JsonValue, e: BundleVerificationEntry) -> bool {
    let a: int = if e.actual_sha256 is Some { 1int } else { 0int };
    let n: int = 3 + a + (if e.detail is Some { 1int } else { 0int });
    j matches JsonValue::Object(m) && m@.len() == n && is_str_member(m@[0], "file"@, e.file@)
        && is_str_member(m@[1], "expected_sha256"@, e.expected_sha256@) && match e.actual_sha256 {
        Some(x) => is_str_member(m@[2], "actual_sha256"@, x@),
        None => true,
    } && is_str_member(m@[2 + a], "status"@, status_token(e.status)) && match e.detail {
        Some(d) => is_str_member(m@[n - 1], "detail"@, d@),
        None => true,
    }
}

/// The JSON document of a report: the paths, the counts, the entries, the parse errors
/// when there are any, and the contract version.
pub open spec fn bundle_doc(d: JsonValue, r: BundleVerificationReport) -> bool {
    let k: int = if r.parse_errors@.len() == 0 { 5int } else { 6int };
    d matches JsonValue::Object(m) && m@.len() == k && is_str_member(m@[0], "bundle_dir"@, r.bundle_dir@)
        && is_str_member(m@[1], "checksums_path"@, r.checksums_path@) && m@[2].0@ == "summary"@ && (m@[2].1 matches JsonValue::Object(
        s,
    ) && s@.len() == 2 && is_uint_member(s@[0], "pass"@, r.summary.pass as u64) && is_uint_member(
        s@[1],
        "fail"@,
        r.summary.fail as u64,
    )) && m@[3].0@ == "entries"@ && (m@[3].1 matches JsonValue::Array(items) && items@.len() == r.entries@.len()
        && forall|i: int| 0 <= i < r.entries@.len() ==> entry_json(#[trigger] items@[i], r.entries@[i])) && (
    r.parse_errors@.len() > 0 ==> m@[4].0@ == "parse_errors"@ && (m@[4].1 matches JsonValue::Array(xs) && xs@.len()
        == r.parse_errors@.len() && forall|i: int|
        0 <= i < xs@.len() ==> (#[trigger] xs@[i] matches JsonValue::Str(x) && x@ == r.parse_errors@[i]@)))
        && is_str_member(m@[k - 1], "contract_version"@, "1.0.0"@)
}

fn entry_to_json(e: &BundleVerificationEntry) -> (r: JsonValue)
    ensures
        entry_json(r, *e),
{
    let mut m: Vec<(String, JsonValue)> = Vec::new();
    m.push(str_member("file", e.file.as_str()));
    m.push(str_member("expected_sha256", e.expected_sha256.as_str()));
    match &e.actual_sha256 {
        Some(a) => m.push(str_member("actual_sha256", a.as_str())),
        None => {},
    }
    m.push(
        str_member(
            "status",
            match e.status {
                BundleVerificationStatus::Pass => "pass",
                BundleVerificationStatus::Missing => "missing",
                BundleVerificationStatus::Mismatch => "mismatch",
                BundleVerificationStatus::Unreadable => "unreadable",
            },
        ),
    );
    match &e.detail {
        Some(d) => m.push(str_member("detail", d.as_str())),
        None => {},
    }
    JsonValue::Object(m)
}

/// The JSON report of a bundle's verification: the document of [`bundle_doc`],
/// pretty-printed.
pub fn render_bundle_verification_report_json(report: &BundleVerificationReport) -> (r: String)
    ensures
        exists|d: JsonValue| #[trigger] bundle_doc(d, *report) && r@ == json_pretty_text(d),
{
    let mut s: Vec<(String, JsonValue)> = Vec::new();
    s.push(uint_member("pass", report.summary.pass as u64));
    s.push(uint_member("fail", report.summary.fail as u64));
    let mut items: Vec<JsonValue> = Vec::new();
    let mut i: usize = 0;
    while i < report.entries.len()
        invariant
            i <= report.entries@.len(),
            items@.len() == i,
            forall|k: int| 0 <= k < i ==> entry_json(#[trigger] items@[k], report.entries@[k]),
        decreases report.entries@.len() - i,
    {
        items.push(entry_to_json(&report.entries[i]));
        i = i + 1;
    }
    let mut m: Vec<(String, JsonValue)> = Vec::new();
    m.push(str_member("bundle_dir", report.bundle_dir.as_str()));
    m.push(str_member("checksums_path", report.checksums_path.as_str()));
    m.push(value_member("summary", JsonValue::Object(s)));
    m.push(value_member("entries", JsonValue::Array(items)));
    if report.parse_errors.len() > 0 {
        let mut xs: Vec<JsonValue> = Vec::new();
        let mut j: usize = 0;
        while j < report.parse_errors.len()
            invariant
                j <= report.parse_errors@.len(),
                xs@.len() == j,
                forall|k: int| 0 <= k < j ==> (#[trigger] xs@[k] matches JsonValue::Str(x) && x@ == report.parse_errors@[k]@),
            decreases report.parse_errors@.len() - j,
        {
            xs.push(JsonValue::Str(string_of(&chars_of(report.parse_errors[j].as_str()))));
            j = j + 1;
        }
        m.push(value_member("parse_errors", JsonValue::Array(xs)));
    }
    m.push(str_member("contract_version", "1.0.0"));
    let d = JsonValue::Object(m);
    let r = pretty_json(&d);
    assert(bundle_doc(d, *report));
    r
}

// ---------------------------------------------------------------------------
// Writing a manifest
// ---------------------------------------------------------------------------

/// The manifest of an evidence bundle: the SHA-256 of the report document and of the
/// raw observations document, each on a line with its file name.
pub open spec fn manifest_text(report_json: Seq<char>, raw_json: Seq<char>) -> Seq<char> {
    hex(sha256_of(crate::digest::utf8(report_json))) + "  report.json\n"@ + hex(
        sha256_of(crate::digest::utf8(raw_json)),
    ) + "  raw_observations.json\n"@
}

/// The `SHA256SUMS` manifest of a bundle's two documents (see [`manifest_text`]).
pub fn checksum_manifest(report_json: &str, raw_json: &str) -> (r: String)
    ensures
        r@ == manifest_text(report_json@, raw_json@),
        lower_hex_digest(hex(sha256_of(crate::digest::utf8(report_json@)))),
        lower_hex_digest(hex(sha256_of(crate::digest::utf8(raw_json@)))),
{
    let mut out = chars_of(sha256_hex(&crate::digest::utf8_bytes(report_json)).as_str());
    push_str(&mut out, "  report.json\n");
    push_str(&mut out, sha256_hex(&crate::digest::utf8_bytes(raw_json)).as_str());
    push_str(&mut out, "  raw_observations.json\n");
    string_of(&out)
}

// ---------------------------------------------------------------------------
// A written manifest verifies
// ---------------------------------------------------------------------------

/// A SHA-256 digest as the hasher writes it: 64 lower-case hex digits.
pub open spec fn lower_hex_digest(h: Seq<char>) -> bool {
    h.len() == 64 && forall|i: int| 0 <= i < h.len() ==> (('0' <= #[trigger] h[i] && h[i] <= '9') || ('a' <= h[i] && h[i] <= 'f'))
}

proof fn lemma_lines_acc_line(s: Seq<char>, rest: Seq<char>, cur: Seq<char>)
    requires
        forall|i: int| 0 <= i < s.len() ==> s[i] != '\n',
    ensures
        crate::text::lines_acc(s + seq!['\n'] + rest, cur) == seq![crate::text::strip_cr(cur + s)]
            + crate::text::lines_acc(rest, seq![]),
    decreases s.len(),
{
    let t = s + seq!['\n'] + rest;
    if s.len() == 0 {
        assert(t =~= seq!['\n'] + rest);
        assert(t.drop_first() =~= rest);
        assert(cur + s =~= cur);
    } else {
        assert(t[0] == s[0]);
        assert(t.drop_first() =~= s.drop_first() + seq!['\n'] + rest);
        lemma_lines_acc_line(s.drop_first(), rest, cur.push(s[0]));
        assert(cur.push(s[0]) + s.drop_first() =~= cur + s);
    }
}

proof fn lemma_no_ascii_ws(s: Seq<char>)
    requires
        forall|i: int| 0 <= i < s.len() ==> !crate::cli::ascii_ws(#[trigger] s[i]),
    ensures
        crate::cli::first_ascii_ws(s) is None,
    decreases s.len(),
{
    if s.len() > 0 {
        lemma_no_ascii_ws(s.drop_last());
    }
}

proof fn lemma_first_ascii_ws_at(s: Seq<char>, k: int)
    requires
        0 <= k < s.len(),
        forall|i: int| 0 <= i < k ==> !crate::cli::ascii_ws(#[trigger] s[i]),
        crate::cli::ascii_ws(s[k]),
    ensures
        crate::cli::first_ascii_ws(s) == Some(k),
    decreases s.len(),
{
    if s.len() == k + 1 {
        lemma_no_ascii_ws(s.drop_last());
    } else {
        lemma_first_ascii_ws_at(s.drop_last(), k);
    }
}

/// One line of a written manifest: a digest, two spaces, a file name.
proof fn lemma_manifest_line(n: nat, h: Seq<char>, name: Seq<char>)
    requires
        lower_hex_digest(h),
        name.len() > 0,
        !crate::text::is_ws(name[0]),
        !crate::text::is_ws(name.last()),
    ensures
        manifest_line(n, h + seq![' ', ' '] + name) == Some(Ok::<(Seq<char>, Seq<char>), Seq<char>>((h, name))),
{
    let line = h + seq![' ', ' '] + name;
    assert(line[0] == h[0]);
    assert(crate::text::trim_start(line) == line);
    assert(line.last() == name.last());
    assert(crate::text::trim_end(line) == line);
    assert(trim(line) == line);
    assert forall|i: int| 0 <= i < 64 implies !crate::cli::ascii_ws(#[trigger] line[i]) by {
        assert(line[i] == h[i]);
    }
    assert(line[64] == ' ');
    lemma_first_ascii_ws_at(line, 64);
    assert(line.take(64) =~= h);
    let tail = line.skip(64);
    assert(tail =~= seq![' ', ' '] + name);
    assert(tail.drop_first() =~= seq![' '] + name);
    assert(tail.drop_first().drop_first() =~= name);
    assert(crate::text::trim_start(name) == name);
    assert(crate::text::is_ws(tail[0]));
    assert(crate::text::trim_start(tail) == crate::text::trim_start(tail.drop_first()));
    assert(crate::text::is_ws(tail.drop_first()[0]));
    assert(crate::text::trim_start(tail.drop_first()) == crate::text::trim_start(tail.drop_first().drop_first()));
    assert(crate::text::trim_start(tail) == name);
    assert forall|i: int| 0 <= i < h.len() implies hex_char_spec(#[trigger] h[i]) by {}
}

/// A manifest written for two documents plans exactly their two digest checks and no
/// parse error: the report document's, then the raw observations document's.
pub proof fn lemma_written_manifest_plans_both_documents(report_digest: Seq<char>, raw_digest: Seq<char>)
    requires
        lower_hex_digest(report_digest),
        lower_hex_digest(raw_digest),
    ensures
        manifest_plan(lines(report_digest + "  report.json\n"@ + raw_digest + "  raw_observations.json\n"@))
            == (seq![(report_digest, "report.json"@), (raw_digest, "raw_observations.json"@)], Seq::<Seq<char>>::empty()),
{
    reveal_strlit("  report.json\n");
    reveal_strlit("  raw_observations.json\n");
    reveal_strlit("report.json");
    reveal_strlit("raw_observations.json");
    let r1 = "report.json"@;
    let r2 = "raw_observations.json"@;
    let l1 = report_digest + seq![' ', ' '] + r1;
    let l2 = raw_digest + seq![' ', ' '] + r2;
    let text = report_digest + "  report.json\n"@ + raw_digest + "  raw_observations.json\n"@;
    assert(text =~= l1 + seq!['\n'] + (l2 + seq!['\n'] + Seq::<char>::empty()));
    assert forall|i: int| 0 <= i < l1.len() implies l1[i] != '\n' by {
        if i < 64 {
            assert(l1[i] == report_digest[i]);
        }
    }
    assert forall|i: int| 0 <= i < l2.len() implies l2[i] != '\n' by {
        if i < 64 {
            assert(l2[i] == raw_digest[i]);
        }
    }
    lemma_lines_acc_line(l1, l2 + seq!['\n'] + Seq::<char>::empty(), seq![]);
    lemma_lines_acc_line(l2, Seq::<char>::empty(), seq![]);
    assert(Seq::<char>::empty() + l1 =~= l1);
    assert(Seq::<char>::empty() + l2 =~= l2);
    assert(crate::text::strip_cr(l1) == l1);
    assert(crate::text::strip_cr(l2) == l2);
    let ls = lines(text);
    assert(ls =~= seq![l1, l2]);
    lemma_manifest_line(1, report_digest, r1);
    lemma_manifest_line(2, raw_digest, r2);
    assert(ls.drop_last() =~= seq![l1]);
    assert(ls.drop_last().drop_last() =~= Seq::<Seq<char>>::empty());
    assert(manifest_plan(ls.drop_last().drop_last()) == (Seq::<(Seq<char>, Seq<char>)>::empty(), Seq::<Seq<char>>::empty()));
    assert(ls.drop_last().last() == l1);
    assert(manifest_plan(ls.drop_last()).0 =~= seq![(report_digest, r1)]);
    assert(manifest_plan(ls.drop_last()).1 =~= Seq::<Seq<char>>::empty());
    assert(ls.last() == l2);
    assert(manifest_plan(ls).0 =~= seq![(report_digest, r1), (raw_digest, r2)]);
    assert(manifest_plan(ls).1 =~= Seq::<Seq<char>>::empty());
}

/// A file whose digest is the one a manifest entry expects passes verification.
pub proof fn lemma_matching_file_passes(e: BundleVerificationEntry, bundle_dir: Seq<char>, req: ChecksumRequest, bytes: Vec<u8>)
    requires
        req.expected_sha256@ == hex(sha256_of(bytes@)),
        entry_is(e, bundle_dir, req, FileProbe::Read(bytes)),
    ensures
        e.status == BundleVerificationStatus::Pass,
{
}

} // verus!
