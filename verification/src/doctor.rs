//! The doctor report: checks with their status, reason codes and remedies, and how the
//! report is written out.
use vstd::prelude::*;

use crate::json::{is_str_member, is_uint_member, str_member, uint_member, value_member, JsonValue};
use crate::json_text::{json_pretty_text, pretty_json};
use crate::text::{chars_eq, chars_of, dec, push_all, push_str, slice_chars, string_of, trim_end, usize_dec};

verus! {

fn lit(s: &str) -> (r: String)
    ensures
        r@ == s@,
{
    string_of(&chars_of(s))
}

// ---------------------------------------------------------------------------
// Remedies
// ---------------------------------------------------------------------------

/// The reason codes that have a documented remedy, with the remedy.
pub open spec fn remedy_table() -> Seq<(Seq<char>, Seq<char>)> {
    seq![
        ("model_path_missing"@, "Place an ONNX model file under ./models/ or pass --model <PATH>."@),
        ("model_path_explicit_invalid"@, "Update --model to point to a readable .onnx file."@),
        ("model_path_discovery_failed"@, "Place a .onnx file under ./models/ or pass --model <PATH>."@),
        ("model_file_empty"@, "The model file has zero bytes. Re-download or replace the model."@),
        ("model_permission_denied"@, "Grant read permission on the model file to the account running WraithRun."@),
        ("model_format_non_onnx"@, "Provide a model with the .onnx extension."@),
        ("model_format_explicit_non_onnx"@, "Provide a model with the .onnx extension."@),
        ("tokenizer_path_missing"@, "Place tokenizer.json beside the model or pass --tokenizer <PATH>."@),
        ("tokenizer_path_explicit_invalid"@, "Update --tokenizer to a readable JSON file with a top-level 'model' key."@),
        ("tokenizer_discovery_failed"@, "Add tokenizer.json beside the model (or under ./models/) and retry."@),
        ("tokenizer_file_empty"@, "The tokenizer file has zero bytes. Re-download or replace the tokenizer."@),
        ("tokenizer_json_invalid"@, "The tokenizer file is not valid JSON. Replace it with a valid tokenizer.json."@),
        ("tokenizer_model_key_missing"@, "The tokenizer JSON is missing the top-level 'model' key. Use a Hugging Face tokenizer.json."@),
        ("tokenizer_permission_denied"@, "Grant read permission on the tokenizer file."@),
        ("runtime_session_init_failed"@, "Verify the model file is a valid ONNX model. Re-download if corrupted."@),
        ("runtime_model_invalid"@, "The model file is not a valid ONNX model. Re-download or convert to ONNX format."@),
        ("runtime_ort_dylib_missing"@, "Set ORT_DYLIB_PATH to the onnxruntime shared library, or place it beside the model."@),
        ("runtime_vitis_provider_missing"@, "Install the RyzenAI SDK or set ORT_DYLIB_PATH to a Vitis-enabled ONNX Runtime build."@),
        ("runtime_custom_ops_unavailable"@, "Install the custom ops library from the RyzenAI SDK, or place it beside the ONNX Runtime DLL."@),
        ("runtime_external_data_file_missing"@, "Ensure the external data file referenced by the model is present beside the .onnx file."@),
        ("runtime_external_initializer_unresolved"@, "Check that all external data files and _ORT_MEM_ADDR_ directories are present beside the model."@),
        ("runtime_ep_assignment_failed"@, "The execution provider could not be assigned. Check runtime and model compatibility."@),
        ("runtime_input_ids_missing"@, "The model does not expose an input_ids or tokens input. It may not be a text-generation model."@),
        ("runtime_logits_output_missing"@, "The model does not expose logits output. It may not be a text-generation model."@),
        ("runtime_input_unsupported"@, "The model requires inputs this runtime does not support. Check model compatibility."@),
        ("runtime_input_dtype_unsupported"@, "The model uses unsupported tensor types. Convert the model to use int64/int32 sequence inputs."@),
        ("runtime_cache_dtype_unsupported"@, "The model's KV-cache tensors use an unsupported dtype. Convert to float32/float16."@),
        ("runtime_cache_output_missing"@, "The model has cache inputs but no matching cache outputs. Check model export settings."@),
        ("runtime_forward_smoke_failed"@, "The model loads but fails a minimal forward pass. Check model integrity and runtime version."@),
        ("onnx_feature_disabled"@, "Rebuild with '--features inference_bridge/onnx' or '--features inference_bridge/vitis' to enable inference."@),
    ]
}

/// The remedy of the first table entry with the code.
pub open spec fn remedy_lookup(t: Seq<(Seq<char>, Seq<char>)>, code: Seq<char>) -> Option<Seq<char>>
    decreases t.len(),
{
    if t.len() == 0 {
        None
    } else if t[0].0 == code {
        Some(t[0].1)
    } else {
        remedy_lookup(t.drop_first(), code)
    }
}

pub open spec fn pair_views(v: Seq<(&'static str, &'static str)>) -> Seq<(Seq<char>, Seq<char>)> {
    Seq::new(v.len(), |i: int| (v[i].0@, v[i].1@))
}

fn remedy_pairs() -> (r: Vec<(&'static str, &'static str)>)
    ensures
        pair_views(r@) == remedy_table(),
{
    let mut v: Vec<(&'static str, &'static str)> = Vec::new();
    v.push(("model_path_missing", "Place an ONNX model file under ./models/ or pass --model <PATH>."));
    v.push(("model_path_explicit_invalid", "Update --model to point to a readable .onnx file."));
    v.push(("model_path_discovery_failed", "Place a .onnx file under ./models/ or pass --model <PATH>."));
    v.push(("model_file_empty", "The model file has zero bytes. Re-download or replace the model."));
    v.push(("model_permission_denied", "Grant read permission on the model file to the account running WraithRun."));
    v.push(("model_format_non_onnx", "Provide a model with the .onnx extension."));
    v.push(("model_format_explicit_non_onnx", "Provide a model with the .onnx extension."));
    v.push(("tokenizer_path_missing", "Place tokenizer.json beside the model or pass --tokenizer <PATH>."));
    v.push(("tokenizer_path_explicit_invalid", "Update --tokenizer to a readable JSON file with a top-level 'model' key."));
    v.push(("tokenizer_discovery_failed", "Add tokenizer.json beside the model (or under ./models/) and retry."));
    v.push(("tokenizer_file_empty", "The tokenizer file has zero bytes. Re-download or replace the tokenizer."));
    v.push(("tokenizer_json_invalid", "The tokenizer file is not valid JSON. Replace it with a valid tokenizer.json."));
    v.push(("tokenizer_model_key_missing", "The tokenizer JSON is missing the top-level 'model' key. Use a Hugging Face tokenizer.json."));
    v.push(("tokenizer_permission_denied", "Grant read permission on the tokenizer file."));
    v.push(("runtime_session_init_failed", "Verify the model file is a valid ONNX model. Re-download if corrupted."));
    v.push(("runtime_model_invalid", "The model file is not a valid ONNX model. Re-download or convert to ONNX format."));
    v.push(("runtime_ort_dylib_missing", "Set ORT_DYLIB_PATH to the onnxruntime shared library, or place it beside the model."));
    v.push(("runtime_vitis_provider_missing", "Install the RyzenAI SDK or set ORT_DYLIB_PATH to a Vitis-enabled ONNX Runtime build."));
    v.push(("runtime_custom_ops_unavailable", "Install the custom ops library from the RyzenAI SDK, or place it beside the ONNX Runtime DLL."));
    v.push(("runtime_external_data_file_missing", "Ensure the external data file referenced by the model is present beside the .onnx file."));
    v.push(("runtime_external_initializer_unresolved", "Check that all external data files and _ORT_MEM_ADDR_ directories are present beside the model."));
    v.push(("runtime_ep_assignment_failed", "The execution provider could not be assigned. Check runtime and model compatibility."));
    v.push(("runtime_input_ids_missing", "The model does not expose an input_ids or tokens input. It may not be a text-generation model."));
    v.push(("runtime_logits_output_missing", "The model does not expose logits output. It may not be a text-generation model."));
    v.push(("runtime_input_unsupported", "The model requires inputs this runtime does not support. Check model compatibility."));
    v.push(("runtime_input_dtype_unsupported", "The model uses unsupported tensor types. Convert the model to use int64/int32 sequence inputs."));
    v.push(("runtime_cache_dtype_unsupported", "The model's KV-cache tensors use an unsupported dtype. Convert to float32/float16."));
    v.push(("runtime_cache_output_missing", "The model has cache inputs but no matching cache outputs. Check model export settings."));
    v.push(("runtime_forward_smoke_failed", "The model loads but fails a minimal forward pass. Check model integrity and runtime version."));
    v.push(("onnx_feature_disabled", "Rebuild with '--features inference_bridge/onnx' or '--features inference_bridge/vitis' to enable inference."));
    assert(pair_views(v@) =~= remedy_table());
    v
}

/// The documented remedy for a doctor reason code, `None` for codes without one.
pub fn remediation_for_reason_code(reason_code: &str) -> (r: Option<&'static str>)
    ensures
        match r {
            Some(s) => remedy_lookup(remedy_table(), reason_code@) == Some(s@),
            None => remedy_lookup(remedy_table(), reason_code@) is None,
        },
{
    let table = remedy_pairs();
    let code = chars_of(reason_code);
    let ghost t = pair_views(table@);
    let mut i: usize = 0;
    assert(t.skip(0) =~= t);
    while i < table.len()
        invariant
            i <= table@.len(),
            t == pair_views(table@),
            t == remedy_table(),
            code@ == reason_code@,
            remedy_lookup(t, code@) == remedy_lookup(t.skip(i as int), code@),
        decreases table@.len() - i,
    {
        assert(t.skip(i as int).drop_first() =~= t.skip(i + 1));
        assert(t.skip(i as int)[0] == (table@[i as int].0@, table@[i as int].1@));
        let (k, v) = table[i];
        if chars_eq(&chars_of(k), &code) {
            return Some(v);
        }
        i = i + 1;
    }
    assert(t.skip(i as int) =~= Seq::<(Seq<char>, Seq<char>)>::empty());
    None
}

// ---------------------------------------------------------------------------
// Checks
// ---------------------------------------------------------------------------

/// The outcome of one doctor check.
#[derive(Clone, Copy, Debug, PartialEq, Eq, Structural)]
pub enum DoctorStatus {
    Pass,
    Warn,
    Fail,
}

pub open spec fn status_label(s: DoctorStatus) -> Seq<char> {
    match s {
        DoctorStatus::Pass => "PASS"@,
        DoctorStatus::Warn => "WARN"@,
        DoctorStatus::Fail => "FAIL"@,
    }
}

pub open spec fn status_name(s: DoctorStatus) -> Seq<char> {
    match s {
        DoctorStatus::Pass => "pass"@,
        DoctorStatus::Warn => "warn"@,
        DoctorStatus::Fail => "fail"@,
    }
}

impl DoctorStatus {
    /// The upper-case label of the text report.
    pub fn label(self) -> (r: &'static str)
        ensures
            r@ == status_label(self),
    {
        match self {
            DoctorStatus::Pass => "PASS",
            DoctorStatus::Warn => "WARN",
            DoctorStatus::Fail => "FAIL",
        }
    }

    /// The lower-case name of the JSON report.
    pub fn name(self) -> (r: &'static str)
        ensures
            r@ == status_name(self),
    {
        match self {
            DoctorStatus::Pass => "pass",
            DoctorStatus::Warn => "warn",
            DoctorStatus::Fail => "fail",
        }
    }
}

/// One doctor check.
#[derive(Debug)]
pub struct DoctorCheck {
    pub status: DoctorStatus,
    pub name: String,
    pub detail: String,
    pub reason_code: Option<String>,
    pub remediation: Option<&'static str>,
}

/// The checks of a doctor run, in the order they ran.
#[derive(Debug)]
pub struct DoctorReport {
    pub checks: Vec<DoctorCheck>,
}

pub open spec fn count_status(cs: Seq<DoctorCheck>, s: DoctorStatus) -> nat
    decreases cs.len(),
{
    if cs.len() == 0 {
        0
    } else {
        count_status(cs.drop_last(), s) + if cs.last().status == s { 1nat } else { 0nat }
    }
}

impl Default for DoctorReport {
    /// An empty report.
    fn default() -> (r: DoctorReport)
        ensures
            r.checks@.len() == 0,
    {
        DoctorReport { checks: Vec::new() }
    }
}

impl DoctorReport {
    /// An empty report.
    pub fn new() -> (r: DoctorReport)
        ensures
            r.checks@.len() == 0,
    {
        DoctorReport { checks: Vec::new() }
    }

    /// Records a check without a reason code.
    pub fn push(&mut self, status: DoctorStatus, name: &str, detail: &str)
        ensures
            final(self).checks@.len() == old(self).checks@.len() + 1,
            final(self).checks@.take(old(self).checks@.len() as int) == old(self).checks@,
            final(self).checks@.last().status == status,
            final(self).checks@.last().name@ == name@,
            final(self).checks@.last().detail@ == detail@,
            final(self).checks@.last().reason_code is None,
            final(self).checks@.last().remediation is None,
    {
        self.push_with_reason(status, name, detail, None);
    }

    /// Records a check; its remedy is the one documented for its reason code.
    pub fn push_with_reason(&mut self, status: DoctorStatus, name: &str, detail: &str, reason_code: Option<&str>)
        ensures
            final(self).checks@.len() == old(self).checks@.len() + 1,
            final(self).checks@.take(old(self).checks@.len() as int) == old(self).checks@,
            final(self).checks@.last().status == status,
            final(self).checks@.last().name@ == name@,
            final(self).checks@.last().detail@ == detail@,
            match reason_code {
                Some(c) => final(self).checks@.last().reason_code matches Some(s) && s@ == c@,
                None => final(self).checks@.last().reason_code is None,
            },
            match reason_code {
                Some(c) => match remedy_lookup(remedy_table(), c@) {
                    Some(m) => final(self).checks@.last().remediation matches Some(x) && x@ == m,
                    None => final(self).checks@.last().remediation is None,
                },
                None => final(self).checks@.last().remediation is None,
            },
    {
        let remediation = match reason_code {
            Some(c) => remediation_for_reason_code(c),
            None => None,
        };
        let code = match reason_code {
            Some(c) => Some(lit(c)),
            None => None,
        };
        let ghost before = self.checks@;
        self.checks.push(DoctorCheck {
            status,
            name: lit(name),
            detail: lit(detail),
            reason_code: code,
            remediation,
        });
        assert(self.checks@.take(before.len() as int) =~= before);
    }

    /// Whether any check failed.
    pub fn has_failures(&self) -> (r: bool)
        ensures
            r == (count_status(self.checks@, DoctorStatus::Fail) > 0),
    {
        let c = self.counts();
        c.2 > 0
    }

    /// How many checks passed, warned and failed.
    pub fn counts(&self) -> (r: (usize, usize, usize))
        ensures
            r.0 as nat == count_status(self.checks@, DoctorStatus::Pass),
            r.1 as nat == count_status(self.checks@, DoctorStatus::Warn),
            r.2 as nat == count_status(self.checks@, DoctorStatus::Fail),
    {
        let ghost cs = self.checks@;
        let mut p: usize = 0;
        let mut w: usize = 0;
        let mut f: usize = 0;
        let mut i: usize = 0;
        assert(cs.take(0) =~= Seq::<DoctorCheck>::empty());
        while i < self.checks.len()
            invariant
                i <= cs.len(),
                cs == self.checks@,
                p <= i && w <= i && f <= i,
                p as nat == count_status(cs.take(i as int), DoctorStatus::Pass),
                w as nat == count_status(cs.take(i as int), DoctorStatus::Warn),
                f as nat == count_status(cs.take(i as int), DoctorStatus::Fail),
            decreases cs.len() - i,
        {
            assert(cs.take(i + 1).drop_last() =~= cs.take(i as int));
            match self.checks[i].status {
                DoctorStatus::Pass => p = p + 1,
                DoctorStatus::Warn => w = w + 1,
                DoctorStatus::Fail => f = f + 1,
            }
            i = i + 1;
        }
        assert(cs.take(cs.len() as int) =~= cs);
        (p, w, f)
    }
}

// ---------------------------------------------------------------------------
// Rendering
// ---------------------------------------------------------------------------

pub open spec fn check_text(c: DoctorCheck) -> Seq<char> {
    "["@ + status_label(c.status) + "] "@ + c.name@ + match c.reason_code {
        Some(code) => " ["@ + code@ + "]"@,
        None => seq![],
    } + ": "@ + c.detail@ + "\n"@ + match c.remediation {
        Some(m) => "       Fix: "@ + m@ + "\n"@,
        None => seq![],
    }
}

pub open spec fn checks_text(cs: Seq<DoctorCheck>) -> Seq<char>
    decreases cs.len(),
{
    if cs.len() == 0 {
        seq![]
    } else {
        checks_text(cs.drop_last()) + check_text(cs.last())
    }
}

/// The text report: the title, the pass/warn/fail summary, then each check with its
/// label, name, reason code when it has one, detail and remedy; trailing white space
/// removed.
pub open spec fn doctor_text(cs: Seq<DoctorCheck>) -> Seq<char> {
    trim_end(
        "WraithRun Doctor\nSummary: "@ + dec(count_status(cs, DoctorStatus::Pass)) + " pass, "@ + dec(
            count_status(cs, DoctorStatus::Warn),
        ) + " warn, "@ + dec(count_status(cs, DoctorStatus::Fail)) + " fail\n"@ + checks_text(cs),
    )
}

fn trim_end_chars(v: &Vec<char>) -> (r: Vec<char>)
    ensures
        r@ == trim_end(v@),
{
    let mut j = v.len();
    assert(v@.subrange(0, j as int) =~= v@);
    while j > 0 && crate::text::is_whitespace(v[j - 1])
        invariant
            j <= v@.len(),
            trim_end(v@) == trim_end(v@.subrange(0, j as int)),
        decreases j,
    {
        assert(v@.subrange(0, j as int).drop_last() =~= v@.subrange(0, j - 1));
        j = j - 1;
    }
    slice_chars(v, 0, j)
}

fn check_line(c: &DoctorCheck) -> (r: Vec<char>)
    ensures
        r@ == check_text(*c),
{
    let mut out = chars_of("[");
    push_str(&mut out, c.status.label());
    push_str(&mut out, "] ");
    push_str(&mut out, c.name.as_str());
    match &c.reason_code {
        Some(code) => {
            push_str(&mut out, " [");
            push_str(&mut out, code.as_str());
            push_str(&mut out, "]");
        },
        None => {},
    }
    push_str(&mut out, ": ");
    push_str(&mut out, c.detail.as_str());
    push_str(&mut out, "\n");
    match c.remediation {
        Some(m) => {
            push_str(&mut out, "       Fix: ");
            push_str(&mut out, m);
            push_str(&mut out, "\n");
        },
        None => {},
    }
    assert(out@ =~= check_text(*c));
    out
}

/// Renders the text report (see [`doctor_text`]).
pub fn render_doctor_report(report: &DoctorReport) -> (r: String)
    ensures
        r@ == doctor_text(report.checks@),
{
    let (p, w, f) = report.counts();
    let mut out = chars_of("WraithRun Doctor\nSummary: ");
    push_all(&mut out, &usize_dec(p));
    push_str(&mut out, " pass, ");
    push_all(&mut out, &usize_dec(w));
    push_str(&mut out, " warn, ");
    push_all(&mut out, &usize_dec(f));
    push_str(&mut out, " fail\n");
    let ghost head = out@;
    let ghost cs = report.checks@;
    let mut i: usize = 0;
    assert(cs.take(0) =~= Seq::<DoctorCheck>::empty());
    while i < report.checks.len()
        invariant
            i <= cs.len(),
            cs == report.checks@,
            out@ == head + checks_text(cs.take(i as int)),
        decreases cs.len() - i,
    {
        assert(cs.take(i + 1).drop_last() =~= cs.take(i as int));
        let line = check_line(&report.checks[i]);
        push_all(&mut out, &line);
        assert(out@ =~= head + checks_text(cs.take(i + 1)));
        i = i + 1;
    }
    assert(cs.take(cs.len() as int) =~= cs);
    string_of(&trim_end_chars(&out))
}

/// A check as JSON: status, name and detail, then the reason code and the remedy when
/// the check has them.
pub open spec fn check_json(j: JsonValue, c: DoctorCheck) -> bool {
    let n: int = 3 + (if c.reason_code is Some { 1int } else { 0int }) + (if c.remediation is Some {
        1int
    } else {
        0int
    });
    j matches JsonValue::Object(m) && m@.len() == n && is_str_member(m@[0], "status"@, status_name(c.status))
        && is_str_member(m@[1], "name"@, c.name@) && is_str_member(m@[2], "detail"@, c.detail@)
        && match c.reason_code {
        Some(code) => is_str_member(m@[3], "reason_code"@, code@),
        None => true,
    } && match c.remediation {
        Some(rem) => is_str_member(m@[n - 1], "remediation"@, rem@),
        None => true,
    }
}

/// The JSON report document: the summary counts, the checks, the contract version.
pub open spec fn doctor_doc(d: JsonValue, cs: Seq<DoctorCheck>) -> bool {
    d matches JsonValue::Object(m) && m@.len() == 3 && m@[0].0@ == "summary"@ && (m@[0].1 matches JsonValue::Object(s)
        && s@.len() == 3 && is_uint_member(s@[0], "pass"@, count_status(cs, DoctorStatus::Pass) as u64)
        && is_uint_member(s@[1], "warn"@, count_status(cs, DoctorStatus::Warn) as u64)
        && is_uint_member(s@[2], "fail"@, count_status(cs, DoctorStatus::Fail) as u64))
        && m@[1].0@ == "checks"@ && (m@[1].1 matches JsonValue::Array(items) && items@.len() == cs.len()
        && forall|i: int| 0 <= i < cs.len() ==> check_json(#[trigger] items@[i], cs[i]))
        && is_str_member(m@[2], "contract_version"@, "1.0.0"@)
}

fn check_to_json(c: &DoctorCheck) -> (r: JsonValue)
    ensures
        check_json(r, *c),
{
    let mut m: Vec<(String, JsonValue)> = Vec::new();
    m.push(str_member("status", c.status.name()));
    m.push(str_member("name", c.name.as_str()));
    m.push(str_member("detail", c.detail.as_str()));
    match &c.reason_code {
        Some(code) => m.push(str_member("reason_code", code.as_str())),
        None => {},
    }
    match c.remediation {
        Some(rem) => m.push(str_member("remediation", rem)),
        None => {},
    }
    JsonValue::Object(m)
}

/// The JSON report: the document of the summary and checks with the contract version,
/// pretty-printed.
pub fn render_doctor_report_json(report: &DoctorReport) -> (r: String)
    ensures
        exists|d: JsonValue| #[trigger] doctor_doc(d, report.checks@) && r@ == json_pretty_text(d),
{
    let (p, w, f) = report.counts();
    let mut s: Vec<(String, JsonValue)> = Vec::new();
    s.push(uint_member("pass", p as u64));
    s.push(uint_member("warn", w as u64));
    s.push(uint_member("fail", f as u64));
    let mut items: Vec<JsonValue> = Vec::new();
    let mut i: usize = 0;
    while i < report.checks.len()
        invariant
            i <= report.checks@.len(),
            items@.len() == i,
            forall|k: int| 0 <= k < i ==> check_json(#[trigger] items@[k], report.checks@[k]),
        decreases report.checks@.len() - i,
    {
        items.push(check_to_json(&report.checks[i]));
        i = i + 1;
    }
    let mut m: Vec<(String, JsonValue)> = Vec::new();
    m.push(value_member("summary", JsonValue::Object(s)));
    m.push(value_member("checks", JsonValue::Array(items)));
    m.push(str_member("contract_version", "1.0.0"));
    let d = JsonValue::Object(m);
    let r = pretty_json(&d);
    assert(doctor_doc(d, report.checks@));
    r
}

} // verus!
