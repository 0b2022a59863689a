//! The doctor's checks of a live model pack: the model file, the tokenizer and the
//! runtime's compatibility report.  The host probes the files and hands over what it
//! found; the library decides which checks pass, warn or fail and why.
use vstd::prelude::*;

use crate::doctor::{remedy_lookup, remedy_table, DoctorCheck, DoctorReport, DoctorStatus};
use crate::json::JsonValue;
use crate::plugin::last_segment;
use crate::text::{ascii_lower, chars_of, dec, dec_chars, push_all, push_str, string_of, usize_dec};

verus! {

/// A failed file operation: whether it was refused for lack of permission, and the
/// system's message.
#[derive(Debug)]
pub struct IoFailure {
    pub permission_denied: bool,
    pub message: String,
}

/// What reading the tokenizer file gave.
#[derive(Debug)]
pub enum TokenizerContent {
    /// The file could not be read.
    Unreadable(IoFailure),
    /// The file is not JSON; the parser's message.
    Invalid(String),
    /// The parsed document.
    Parsed(JsonValue),
}

/// What the host found on disk for a model pack.
#[derive(Debug)]
pub struct ModelPackProbes {
    pub model_is_file: bool,
    /// The model file's size in bytes.
    pub model_metadata: Result<u64, IoFailure>,
    pub model_open: Result<(), IoFailure>,
    pub tokenizer_is_file: bool,
    /// The tokenizer file's size in bytes.
    pub tokenizer_metadata: Result<u64, IoFailure>,
    pub tokenizer_content: TokenizerContent,
}

/// One problem the runtime found with the model.
#[derive(Debug)]
pub struct CompatibilityIssue {
    /// A failure rather than a warning.
    pub fail: bool,
    pub detail: String,
    pub reason_code: String,
}

/// The runtime's compatibility report of a model.
#[derive(Debug)]
pub struct CompatibilityReport {
    pub issues: Vec<CompatibilityIssue>,
    pub cache_input_count: usize,
    pub cache_output_count: usize,
    pub smoke_check_ran: bool,
}

/// A check as the doctor records it.
pub struct CheckSpec {
    pub status: DoctorStatus,
    pub name: Seq<char>,
    pub detail: Seq<char>,
    pub reason: Option<Seq<char>>,
}

pub open spec fn ck(status: DoctorStatus, name: Seq<char>, detail: Seq<char>, reason: Option<Seq<char>>) -> CheckSpec {
    CheckSpec { status, name, detail, reason }
}

/// A recorded check is the specified one, with the remedy of its reason code.
pub open spec fn check_is(c: DoctorCheck, s: CheckSpec) -> bool {
    &&& c.status == s.status
    &&& c.name@ == s.name
    &&& c.detail@ == s.detail
    &&& match s.reason {
        Some(r) => (c.reason_code matches Some(x) && x@ == r) && match remedy_lookup(remedy_table(), r) {
            Some(m) => c.remediation matches Some(y) && y@ == m,
            None => c.remediation is None,
        },
        None => c.reason_code is None && c.remediation is None,
    }
}

pub open spec fn checks_are(cs: Seq<DoctorCheck>, ss: Seq<CheckSpec>) -> bool {
    &&& cs.len() == ss.len()
    &&& forall|i: int| 0 <= i < cs.len() ==> check_is(#[trigger] cs[i], ss[i])
}

// ---------------------------------------------------------------------------
// File names
// ---------------------------------------------------------------------------

/// The position of the last `.` in a text.
pub open spec fn last_dot(s: Seq<char>) -> Option<int>
    decreases s.len(),
{
    if s.len() == 0 {
        None
    } else if s.last() == '.' {
        Some(s.len() - 1)
    } else {
        last_dot(s.drop_last())
    }
}

/// `Path::extension`: what follows the last `.` of the file name, unless the name has
/// no `.` after its first character.
pub open spec fn path_extension(path: Seq<char>) -> Option<Seq<char>> {
    let file = last_segment(path);
    match last_dot(file) {
        Some(i) => if i > 0 {
            Some(file.subrange(i + 1, file.len() as int))
        } else {
            None
        },
        None => None,
    }
}

/// The path's extension is `onnx` in any ASCII case.
pub open spec fn is_onnx_spec(path: Seq<char>) -> bool {
    path_extension(path) matches Some(e) && ascii_lower(e) == "onnx"@
}

fn last_dot_exec(s: &Vec<char>) -> (r: Option<usize>)
    ensures
        match r {
            Some(i) => last_dot(s@) == Some(i as int) && i < s@.len(),
            None => last_dot(s@) is None,
        },
{
    let mut j = s.len();
    assert(s@.take(j as int) =~= s@);
    while j > 0
        invariant
            j <= s@.len(),
            last_dot(s@) == last_dot(s@.take(j as int)),
        decreases j,
    {
        assert(s@.take(j as int).drop_last() =~= s@.take(j - 1));
        if s[j - 1] == '.' {
            return Some(j - 1);
        }
        j = j - 1;
    }
    None
}

/// Whether a path names an ONNX file (see [`is_onnx_spec`]).
pub fn is_onnx_path(path: &str) -> (r: bool)
    ensures
        r == is_onnx_spec(path@),
{
    let file = crate::plugin::last_segment_chars(&chars_of(path));
    let n = file.len();
    match last_dot_exec(&file) {
        Some(i) => {
            if i == 0 {
                return false;
            }
            let ext = crate::text::slice_chars(&file, i + 1, n);
            proof {
                reveal_strlit("onnx");
            }
            crate::text::chars_eq_str(&crate::text::to_ascii_lower(&ext), "onnx")
        },
        None => false,
    }
}

// ---------------------------------------------------------------------------
// The checks
// ---------------------------------------------------------------------------

pub open spec fn io_reason(permission_denied: bool, denied: Seq<char>, other: Seq<char>) -> Seq<char> {
    if permission_denied {
        denied
    } else {
        other
    }
}

/// The model checks: its path, extension, size and readability, or a missing path.
pub open spec fn model_checks(m: Seq<char>, p: ModelPackProbes) -> Seq<CheckSpec> {
    if p.model_is_file {
        seq![
            ck(DoctorStatus::Pass, "live-model-path"@, "Model file found: "@ + m, None),
            if is_onnx_spec(m) {
                ck(DoctorStatus::Pass, "live-model-format"@, "Model extension is .onnx: "@ + m, None)
            } else {
                ck(
                    DoctorStatus::Warn,
                    "live-model-format"@,
                    "Model file extension is not .onnx (path: "@ + m + ")."@,
                    Some("model_format_non_onnx"@),
                )
            },
            match p.model_metadata {
                Ok(n) => if n > 0 {
                    ck(DoctorStatus::Pass, "live-model-size"@, "Model file size: "@ + dec(n as nat) + " bytes"@, None)
                } else {
                    ck(DoctorStatus::Fail, "live-model-size"@, "Model file is empty: "@ + m, Some("model_file_empty"@))
                },
                Err(e) => ck(
                    DoctorStatus::Fail,
                    "live-model-size"@,
                    "Unable to read model metadata '"@ + m + "': "@ + e.message@,
                    Some(io_reason(e.permission_denied, "model_metadata_permission_denied"@, "model_metadata_unreadable"@)),
                ),
            },
            match p.model_open {
                Ok(()) => ck(DoctorStatus::Pass, "live-model-readable"@, "Model file is readable: "@ + m, None),
                Err(e) => ck(
                    DoctorStatus::Fail,
                    "live-model-readable"@,
                    "Unable to open model file '"@ + m + "': "@ + e.message@,
                    Some(io_reason(e.permission_denied, "model_permission_denied"@, "model_read_failed"@)),
                ),
            },
        ]
    } else {
        seq![
            ck(
                DoctorStatus::Fail,
                "live-model-path"@,
                "Live mode is enabled but model file was not found at "@ + m + "."@,
                Some("model_path_missing"@),
            ),
        ]
    }
}

/// The model opened, so the runtime's compatibility can be checked.
pub open spec fn model_readable(p: ModelPackProbes) -> bool {
    p.model_is_file && p.model_open is Ok
}

/// The checks of the tokenizer's content.
pub open spec fn tokenizer_content_checks(t: Seq<char>, c: TokenizerContent) -> Seq<CheckSpec> {
    match c {
        TokenizerContent::Unreadable(e) => seq![
            ck(
                DoctorStatus::Fail,
                "live-tokenizer-json"@,
                "Unable to read tokenizer file '"@ + t + "': "@ + e.message@,
                Some(io_reason(e.permission_denied, "tokenizer_permission_denied"@, "tokenizer_read_failed"@)),
            ),
        ],
        TokenizerContent::Invalid(msg) => seq![
            ck(
                DoctorStatus::Fail,
                "live-tokenizer-json"@,
                "Tokenizer JSON parse failed for '"@ + t + "': "@ + msg@,
                Some("tokenizer_json_invalid"@),
            ),
        ],
        TokenizerContent::Parsed(doc) => seq![
            ck(DoctorStatus::Pass, "live-tokenizer-json"@, "Tokenizer JSON parsed successfully: "@ + t, None),
            if crate::json::json_get(doc, "model"@) is Some {
                ck(DoctorStatus::Pass, "live-tokenizer-shape"@, "Tokenizer JSON contains top-level 'model' key."@, None)
            } else {
                ck(
                    DoctorStatus::Fail,
                    "live-tokenizer-shape"@,
                    "Tokenizer JSON parsed but top-level 'model' key was not found."@,
                    Some("tokenizer_model_key_missing"@),
                )
            },
        ],
    }
}

/// The tokenizer checks, and whether they end the doctor's model-pack checks (an empty
/// or unreadable-size tokenizer stops them).
pub open spec fn tokenizer_checks(t: Option<Seq<char>>, p: ModelPackProbes) -> (Seq<CheckSpec>, bool) {
    match t {
        Some(t) => if p.tokenizer_is_file {
            let found = ck(DoctorStatus::Pass, "live-tokenizer-path"@, "Tokenizer file found: "@ + t, None);
            match p.tokenizer_metadata {
                Ok(n) => if n > 0 {
                    (
                        seq![
                            found,
                            ck(DoctorStatus::Pass, "live-tokenizer-size"@, "Tokenizer file size: "@ + dec(n as nat) + " bytes"@, None),
                        ] + tokenizer_content_checks(t, p.tokenizer_content),
                        false,
                    )
                } else {
                    (
                        seq![
                            found,
                            ck(
                                DoctorStatus::Fail,
                                "live-tokenizer-size"@,
                                "Tokenizer file is empty: "@ + t,
                                Some("tokenizer_file_empty"@),
                            ),
                        ],
                        true,
                    )
                },
                Err(e) => (
                    seq![
                        found,
                        ck(
                            DoctorStatus::Fail,
                            "live-tokenizer-size"@,
                            "Unable to read tokenizer metadata '"@ + t + "': "@ + e.message@,
                            Some(io_reason(
                                e.permission_denied,
                                "tokenizer_metadata_permission_denied"@,
                                "tokenizer_metadata_unreadable"@,
                            )),
                        ),
                    ],
                    true,
                ),
            }
        } else {
            (
                seq![
                    ck(
                        DoctorStatus::Fail,
                        "live-tokenizer-path"@,
                        "Tokenizer file not found: "@ + t,
                        Some("tokenizer_path_missing"@),
                    ),
                ],
                false,
            )
        },
        None => (
            seq![
                ck(
                    DoctorStatus::Fail,
                    "live-tokenizer-path"@,
                    "No tokenizer path resolved for live mode. The runtime will only work if tokenizer discovery succeeds."@,
                    Some("tokenizer_path_missing"@),
                ),
            ],
            false,
        ),
    }
}

pub open spec fn bool_text(b: bool) -> Seq<char> {
    if b {
        "true"@
    } else {
        "false"@
    }
}

/// The compatibility checks: one pass when the runtime found no issue, otherwise one
/// warning or failure per issue.
pub open spec fn compatibility_checks(c: CompatibilityReport) -> Seq<CheckSpec> {
    if c.issues@.len() == 0 {
        seq![
            ck(
                DoctorStatus::Pass,
                "live-runtime-compatibility"@,
                "Runtime compatibility checks passed (cache_inputs="@ + dec(c.cache_input_count as nat)
                    + ", cache_outputs="@ + dec(c.cache_output_count as nat) + ", smoke_check="@ + bool_text(
                    c.smoke_check_ran,
                ) + ")."@,
                None,
            ),
        ]
    } else {
        Seq::new(
            c.issues@.len(),
            |i: int|
                ck(
                    if c.issues@[i].fail {
                        DoctorStatus::Fail
                    } else {
                        DoctorStatus::Warn
                    },
                    "live-runtime-compatibility"@,
                    c.issues@[i].detail@,
                    Some(c.issues@[i].reason_code@),
                ),
        )
    }
}

/// All model-pack checks of a live run; none for a dry run.
pub open spec fn model_pack_checks_spec(
    live: bool,
    model: Seq<char>,
    tokenizer: Option<Seq<char>>,
    p: ModelPackProbes,
    c: CompatibilityReport,
) -> Seq<CheckSpec> {
    if !live {
        seq![]
    } else {
        let tk = tokenizer_checks(tokenizer, p);
        model_checks(model, p) + tk.0 + if model_readable(p) && !tk.1 {
            compatibility_checks(c)
        } else {
            seq![]
        }
    }
}

// ---------------------------------------------------------------------------
// Recording the checks
// ---------------------------------------------------------------------------

/// `after` is `before` followed by checks matching `ss`.
pub open spec fn appended(before: Seq<DoctorCheck>, after: Seq<DoctorCheck>, ss: Seq<CheckSpec>) -> bool {
    &&& after.len() >= before.len()
    &&& after.take(before.len() as int) == before
    &&& checks_are(after.skip(before.len() as int), ss)
}

pub(crate) proof fn lemma_appended_chain(a: Seq<DoctorCheck>, b: Seq<DoctorCheck>, c: Seq<DoctorCheck>, s1: Seq<CheckSpec>, s2: Seq<CheckSpec>)
    requires
        appended(a, b, s1),
        appended(b, c, s2),
    ensures
        appended(a, c, s1 + s2),
{
    assert(c.take(a.len() as int) =~= b.take(a.len() as int)) by {
        assert forall|i: int| 0 <= i < a.len() implies c[i] == b[i] by {
            assert(c.take(b.len() as int)[i] == c[i]);
        }
    }
    let t = c.skip(a.len() as int);
    assert forall|i: int| 0 <= i < t.len() implies check_is(#[trigger] t[i], (s1 + s2)[i]) by {
        if i < s1.len() {
            assert(t[i] == c[a.len() + i]);
            assert(c[a.len() + i] == c.take(b.len() as int)[a.len() + i]);
            assert(b.skip(a.len() as int)[i] == b[a.len() + i]);
        } else {
            assert(t[i] == c[a.len() + i]);
            assert(c.skip(b.len() as int)[i - s1.len()] == c[b.len() + i - s1.len()]);
        }
    }
}

pub(crate) proof fn lemma_appended_nothing(a: Seq<DoctorCheck>)
    ensures
        appended(a, a, seq![]),
{
    assert(a.take(a.len() as int) =~= a);
    assert(a.skip(a.len() as int) =~= Seq::<DoctorCheck>::empty());
}

pub open spec fn opt_text(o: Option<&str>) -> Option<Seq<char>> {
    match o {
        Some(s) => Some(s@),
        None => None,
    }
}

pub(crate) fn record(report: &mut DoctorReport, status: DoctorStatus, name: &str, detail: &Vec<char>, reason: Option<&str>)
    ensures
        appended(old(report).checks@, final(report).checks@, seq![ck(status, name@, detail@, opt_text(reason))]),
{
    let d = string_of(detail);
    report.push_with_reason(status, name, d.as_str(), reason);
    let ghost before = old(report).checks@;
    let ghost after = report.checks@;
    assert(after.skip(before.len() as int) =~= seq![after.last()]);
}

fn text_of(parts: &Vec<char>) -> (r: Vec<char>)
    ensures
        r@ == parts@,
{
    let mut r: Vec<char> = Vec::new();
    push_all(&mut r, parts);
    assert(r@ =~= parts@);
    r
}

fn push_model_checks(report: &mut DoctorReport, m: &str, p: &ModelPackProbes)
    ensures
        appended(old(report).checks@, final(report).checks@, model_checks(m@, *p)),
{
    let ghost c0 = report.checks@;
    if !p.model_is_file {
        let mut d = chars_of("Live mode is enabled but model file was not found at ");
        push_str(&mut d, m);
        push_str(&mut d, ".");
        record(report, DoctorStatus::Fail, "live-model-path", &d, Some("model_path_missing"));
        return;
    }
    let mut d = chars_of("Model file found: ");
    push_str(&mut d, m);
    record(report, DoctorStatus::Pass, "live-model-path", &d, None);
    let ghost c1 = report.checks@;
    if is_onnx_path(m) {
        let mut d = chars_of("Model extension is .onnx: ");
        push_str(&mut d, m);
        record(report, DoctorStatus::Pass, "live-model-format", &d, None);
    } else {
        let mut d = chars_of("Model file extension is not .onnx (path: ");
        push_str(&mut d, m);
        push_str(&mut d, ").");
        record(report, DoctorStatus::Warn, "live-model-format", &d, Some("model_format_non_onnx"));
    }
    let ghost c2 = report.checks@;
    match &p.model_metadata {
        Ok(n) => {
            if *n > 0 {
                let mut d = chars_of("Model file size: ");
                push_all(&mut d, &dec_chars(*n));
                push_str(&mut d, " bytes");
                record(report, DoctorStatus::Pass, "live-model-size", &d, None);
            } else {
                let mut d = chars_of("Model file is empty: ");
                push_str(&mut d, m);
                record(report, DoctorStatus::Fail, "live-model-size", &d, Some("model_file_empty"));
            }
        },
        Err(e) => {
            let mut d = chars_of("Unable to read model metadata '");
            push_str(&mut d, m);
            push_str(&mut d, "': ");
            push_str(&mut d, e.message.as_str());
            let code = if e.permission_denied {
                "model_metadata_permission_denied"
            } else {
                "model_metadata_unreadable"
            };
            record(report, DoctorStatus::Fail, "live-model-size", &d, Some(code));
        },
    }
    let ghost c3 = report.checks@;
    match &p.model_open {
        Ok(()) => {
            let mut d = chars_of("Model file is readable: ");
            push_str(&mut d, m);
            record(report, DoctorStatus::Pass, "live-model-readable", &d, None);
        },
        Err(e) => {
            let mut d = chars_of("Unable to open model file '");
            push_str(&mut d, m);
            push_str(&mut d, "': ");
            push_str(&mut d, e.message.as_str());
            let code = if e.permission_denied {
                "model_permission_denied"
            } else {
                "model_read_failed"
            };
            record(report, DoctorStatus::Fail, "live-model-readable", &d, Some(code));
        },
    }
    let ghost c4 = report.checks@;
    proof {
        reveal_strlit("model_metadata_permission_denied");
        reveal_strlit("model_metadata_unreadable");
        reveal_strlit("model_permission_denied");
        reveal_strlit("model_read_failed");
        let ss = model_checks(m@, *p);
        lemma_appended_chain(c0, c1, c2, seq![ss[0]], seq![ss[1]]);
        lemma_appended_chain(c0, c2, c3, seq![ss[0]] + seq![ss[1]], seq![ss[2]]);
        lemma_appended_chain(c0, c3, c4, seq![ss[0]] + seq![ss[1]] + seq![ss[2]], seq![ss[3]]);
        assert(seq![ss[0]] + seq![ss[1]] + seq![ss[2]] + seq![ss[3]] =~= ss);
    }
}

fn push_content_checks(report: &mut DoctorReport, t: &str, c: &TokenizerContent)
    ensures
        appended(old(report).checks@, final(report).checks@, tokenizer_content_checks(t@, *c)),
{
    let ghost c0 = report.checks@;
    match c {
        TokenizerContent::Unreadable(e) => {
            let mut d = chars_of("Unable to read tokenizer file '");
            push_str(&mut d, t);
            push_str(&mut d, "': ");
            push_str(&mut d, e.message.as_str());
            let code = if e.permission_denied {
                "tokenizer_permission_denied"
            } else {
                "tokenizer_read_failed"
            };
            proof {
                reveal_strlit("tokenizer_permission_denied");
                reveal_strlit("tokenizer_read_failed");
            }
            record(report, DoctorStatus::Fail, "live-tokenizer-json", &d, Some(code));
        },
        TokenizerContent::Invalid(msg) => {
            let mut d = chars_of("Tokenizer JSON parse failed for '");
            push_str(&mut d, t);
            push_str(&mut d, "': ");
            push_str(&mut d, msg.as_str());
            record(report, DoctorStatus::Fail, "live-tokenizer-json", &d, Some("tokenizer_json_invalid"));
        },
        TokenizerContent::Parsed(doc) => {
            let mut d = chars_of("Tokenizer JSON parsed successfully: ");
            push_str(&mut d, t);
            record(report, DoctorStatus::Pass, "live-tokenizer-json", &d, None);
            let ghost c1 = report.checks@;
            if doc.get("model").is_some() {
                record(
                    report,
                    DoctorStatus::Pass,
                    "live-tokenizer-shape",
                    &chars_of("Tokenizer JSON contains top-level 'model' key."),
                    None,
                );
            } else {
                record(
                    report,
                    DoctorStatus::Fail,
                    "live-tokenizer-shape",
                    &chars_of("Tokenizer JSON parsed but top-level 'model' key was not found."),
                    Some("tokenizer_model_key_missing"),
                );
            }
            proof {
                let ss = tokenizer_content_checks(t@, *c);
                lemma_appended_chain(c0, c1, report.checks@, seq![ss[0]], seq![ss[1]]);
                assert(seq![ss[0]] + seq![ss[1]] =~= ss);
            }
        },
    }
}

fn push_tokenizer_checks(report: &mut DoctorReport, tokenizer: Option<&str>, p: &ModelPackProbes) -> (stopped: bool)
    ensures
        appended(old(report).checks@, final(report).checks@, tokenizer_checks(opt_text(tokenizer), *p).0),
        stopped == tokenizer_checks(opt_text(tokenizer), *p).1,
{
    let ghost c0 = report.checks@;
    let t = match tokenizer {
        Some(t) => t,
        None => {
            record(
                report,
                DoctorStatus::Fail,
                "live-tokenizer-path",
                &chars_of(
                    "No tokenizer path resolved for live mode. The runtime will only work if tokenizer discovery succeeds.",
                ),
                Some("tokenizer_path_missing"),
            );
            return false;
        },
    };
    if !p.tokenizer_is_file {
        let mut d = chars_of("Tokenizer file not found: ");
        push_str(&mut d, t);
        record(report, DoctorStatus::Fail, "live-tokenizer-path", &d, Some("tokenizer_path_missing"));
        return false;
    }
    let mut d = chars_of("Tokenizer file found: ");
    push_str(&mut d, t);
    record(report, DoctorStatus::Pass, "live-tokenizer-path", &d, None);
    let ghost c1 = report.checks@;
    let ghost ss = tokenizer_checks(opt_text(tokenizer), *p).0;
    match &p.tokenizer_metadata {
        Ok(n) => {
            if *n > 0 {
                let mut d = chars_of("Tokenizer file size: ");
                push_all(&mut d, &dec_chars(*n));
                push_str(&mut d, " bytes");
                record(report, DoctorStatus::Pass, "live-tokenizer-size", &d, None);
                let ghost c2 = report.checks@;
                push_content_checks(report, t, &p.tokenizer_content);
                proof {
                    let rest = tokenizer_content_checks(t@, p.tokenizer_content);
                    lemma_appended_chain(c0, c1, c2, seq![ss[0]], seq![ss[1]]);
                    lemma_appended_chain(c0, c2, report.checks@, seq![ss[0]] + seq![ss[1]], rest);
                    assert(seq![ss[0]] + seq![ss[1]] + rest =~= ss);
                }
                false
            } else {
                let mut d = chars_of("Tokenizer file is empty: ");
                push_str(&mut d, t);
                record(report, DoctorStatus::Fail, "live-tokenizer-size", &d, Some("tokenizer_file_empty"));
                proof {
                    lemma_appended_chain(c0, c1, report.checks@, seq![ss[0]], seq![ss[1]]);
                    assert(seq![ss[0]] + seq![ss[1]] =~= ss);
                }
                true
            }
        },
        Err(e) => {
            let mut d = chars_of("Unable to read tokenizer metadata '");
            push_str(&mut d, t);
            push_str(&mut d, "': ");
            push_str(&mut d, e.message.as_str());
            let code = if e.permission_denied {
                "tokenizer_metadata_permission_denied"
            } else {
                "tokenizer_metadata_unreadable"
            };
            proof {
                reveal_strlit("tokenizer_metadata_permission_denied");
                reveal_strlit("tokenizer_metadata_unreadable");
            }
            record(report, DoctorStatus::Fail, "live-tokenizer-size", &d, Some(code));
            proof {
                lemma_appended_chain(c0, c1, report.checks@, seq![ss[0]], seq![ss[1]]);
                assert(seq![ss[0]] + seq![ss[1]] =~= ss);
            }
            true
        },
    }
}

fn push_compatibility_checks(report: &mut DoctorReport, c: &CompatibilityReport)
    ensures
        appended(old(report).checks@, final(report).checks@, compatibility_checks(*c)),
{
    let ghost c0 = report.checks@;
    if c.issues.len() == 0 {
        let mut d = chars_of("Runtime compatibility checks passed (cache_inputs=");
        push_all(&mut d, &usize_dec(c.cache_input_count));
        push_str(&mut d, ", cache_outputs=");
        push_all(&mut d, &usize_dec(c.cache_output_count));
        push_str(&mut d, ", smoke_check=");
        if c.smoke_check_ran {
            push_str(&mut d, "true");
        } else {
            push_str(&mut d, "false");
        }
        push_str(&mut d, ").");
        record(report, DoctorStatus::Pass, "live-runtime-compatibility", &d, None);
        return;
    }
    let ghost ss = compatibility_checks(*c);
    let mut i: usize = 0;
    proof {
        lemma_appended_nothing(c0);
        assert(ss.take(0) =~= Seq::<CheckSpec>::empty());
    }
    while i < c.issues.len()
        invariant
            i <= c.issues@.len(),
            c.issues@.len() > 0,
            ss == compatibility_checks(*c),
            appended(c0, report.checks@, ss.take(i as int)),
        decreases c.issues@.len() - i,
    {
        let issue = &c.issues[i];
        let status = if issue.fail {
            DoctorStatus::Fail
        } else {
            DoctorStatus::Warn
        };
        let ghost before = report.checks@;
        record(
            report,
            status,
            "live-runtime-compatibility",
            &chars_of(issue.detail.as_str()),
            Some(issue.reason_code.as_str()),
        );
        proof {
            lemma_appended_chain(c0, before, report.checks@, ss.take(i as int), seq![ss[i as int]]);
            assert(ss.take(i as int) + seq![ss[i as int]] =~= ss.take(i + 1));
        }
        i = i + 1;
    }
    assert(ss.take(c.issues@.len() as int) =~= ss);
}

/// Records the model-pack checks of a run (see [`model_pack_checks_spec`]); a dry run
/// records none.  `probes` is what the host found on disk for the model and tokenizer
/// paths, `compatibility` what the runtime reported of the model.
pub fn run_model_pack_doctor_checks(
    live: bool,
    model: &str,
    tokenizer: Option<&str>,
    probes: &ModelPackProbes,
    compatibility: &CompatibilityReport,
    report: &mut DoctorReport,
)
    ensures
        appended(
            old(report).checks@,
            final(report).checks@,
            model_pack_checks_spec(live, model@, opt_text(tokenizer), *probes, *compatibility),
        ),
{
    let ghost c0 = report.checks@;
    if !live {
        proof {
            lemma_appended_nothing(c0);
        }
        return;
    }
    push_model_checks(report, model, probes);
    let ghost c1 = report.checks@;
    let stopped = push_tokenizer_checks(report, tokenizer, probes);
    let ghost c2 = report.checks@;
    let readable = probes.model_is_file && probes.model_open.is_ok();
    if readable && !stopped {
        push_compatibility_checks(report, compatibility);
    } else {
        proof {
            lemma_appended_nothing(c2);
        }
    }
    proof {
        let s1 = model_checks(model@, *probes);
        let s2 = tokenizer_checks(opt_text(tokenizer), *probes).0;
        let s3 = if model_readable(*probes) && !tokenizer_checks(opt_text(tokenizer), *probes).1 {
            compatibility_checks(*compatibility)
        } else {
            seq![]
        };
        lemma_appended_chain(c0, c1, c2, s1, s2);
        lemma_appended_chain(c0, c2, report.checks@, s1 + s2, s3);
    }
}

} // verus!
