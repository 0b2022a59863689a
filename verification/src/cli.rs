//! The command line's own rules: task templates, option values, the exit policy, error
//! classification, case identifiers, checksum lines and task-file text.
use vstd::prelude::*;

use crate::json::{is_str_member, str_member, value_member, JsonValue};
use crate::json_text::{json_pretty_text, pretty_json};
use crate::model::{severity_rank, severity_token_spec, Finding, FindingSeverity, FindingView, finding_views};
use crate::text::{
    ascii_lower, chars_eq, chars_of, contains, contains_seq, dec, is_alnum_spec,
    is_ascii_alphanumeric, is_ws, push_all, push_str, slice_chars, string_of, to_ascii_lower,
    trim, trim_end, trim_start, trim_str, usize_dec,
};

verus! {

fn lit(s: &str) -> (r: String)
    ensures
        r@ == s@,
{
    string_of(&chars_of(s))
}

pub(crate) fn trim_end_chars(v: &Vec<char>) -> (r: Vec<char>)
    ensures
        r@ == trim_end(v@),
{
    let mut j = v.len();
    assert(v@.subrange(0, j as int) =~= v@);
    while j > 0 && crate::text::is_whitespace(v[j - 1])
        invariant
            j <= v@.len(),
            trim_end(v@) == trim_end(v@.subrange(0, j as int)),
        decreases j,
    {
        assert(v@.subrange(0, j as int).drop_last() =~= v@.subrange(0, j - 1));
        j = j - 1;
    }
    slice_chars(v, 0, j)
}

// ---------------------------------------------------------------------------
// Task templates
// ---------------------------------------------------------------------------

/// The built-in task templates of the command line.
#[derive(Clone, Copy, Debug, PartialEq, Eq, Structural)]
pub enum TaskTemplate {
    SshKeys,
    ListenerRisk,
    HashIntegrity,
    PrivEscReview,
    SyslogSummary,
}

pub open spec fn template_name_spec(t: TaskTemplate) -> Seq<char> {
    match t {
        TaskTemplate::SshKeys => "ssh-keys"@,
        TaskTemplate::ListenerRisk => "listener-risk"@,
        TaskTemplate::HashIntegrity => "hash-integrity"@,
        TaskTemplate::PrivEscReview => "priv-esc-review"@,
        TaskTemplate::SyslogSummary => "syslog-summary"@,
    }
}

pub open spec fn template_prompt_spec(t: TaskTemplate) -> Seq<char> {
    match t {
        TaskTemplate::SshKeys => "Investigate unauthorized SSH keys"@,
        TaskTemplate::ListenerRisk => "Check suspicious listener ports and summarize risk"@,
        TaskTemplate::HashIntegrity => "Hash C:/Windows/System32/notepad.exe and report integrity context"@,
        TaskTemplate::PrivEscReview => "Review local privilege escalation indicators"@,
        TaskTemplate::SyslogSummary => "Read and summarize last 200 lines from C:/Logs/agent.log"@,
    }
}

/// The template's name on the command line.
pub fn task_template_name(template: TaskTemplate) -> (r: &'static str)
    ensures
        r@ == template_name_spec(template),
{
    match template {
        TaskTemplate::SshKeys => "ssh-keys",
        TaskTemplate::ListenerRisk => "listener-risk",
        TaskTemplate::HashIntegrity => "hash-integrity",
        TaskTemplate::PrivEscReview => "priv-esc-review",
        TaskTemplate::SyslogSummary => "syslog-summary",
    }
}

/// The task a template stands for with its defaults.
pub fn task_template_prompt(template: TaskTemplate) -> (r: &'static str)
    ensures
        r@ == template_prompt_spec(template),
{
    match template {
        TaskTemplate::SshKeys => "Investigate unauthorized SSH keys",
        TaskTemplate::ListenerRisk => "Check suspicious listener ports and summarize risk",
        TaskTemplate::HashIntegrity => "Hash C:/Windows/System32/notepad.exe and report integrity context",
        TaskTemplate::PrivEscReview => "Review local privilege escalation indicators",
        TaskTemplate::SyslogSummary => "Read and summarize last 200 lines from C:/Logs/agent.log",
    }
}

/// What a template accepts and its defaults.
#[derive(Debug)]
pub struct TaskTemplateDescriptor {
    pub name: &'static str,
    pub prompt: &'static str,
    pub supports_template_target: bool,
    pub supports_template_lines: bool,
    pub default_target: Option<&'static str>,
    pub default_lines: Option<usize>,
}

pub struct DescriptorView {
    pub name: Seq<char>,
    pub prompt: Seq<char>,
    pub target: bool,
    pub lines: bool,
    pub default_target: Option<Seq<char>>,
    pub default_lines: Option<usize>,
}

impl View for TaskTemplateDescriptor {
    type V = DescriptorView;

    open spec fn view(&self) -> DescriptorView {
        DescriptorView {
            name: self.name@,
            prompt: self.prompt@,
            target: self.supports_template_target,
            lines: self.supports_template_lines,
            default_target: match self.default_target {
                Some(t) => Some(t@),
                None => None,
            },
            default_lines: self.default_lines,
        }
    }
}

pub open spec fn descriptor_views(v: Seq<TaskTemplateDescriptor>) -> Seq<DescriptorView> {
    Seq::new(v.len(), |i: int| v[i]@)
}

/// The descriptors of the five templates, in order.
pub open spec fn descriptors_spec() -> Seq<DescriptorView> {
    seq![
        DescriptorView { name: "ssh-keys"@, prompt: template_prompt_spec(TaskTemplate::SshKeys), target: false, lines: false, default_target: None, default_lines: None },
        DescriptorView { name: "listener-risk"@, prompt: template_prompt_spec(TaskTemplate::ListenerRisk), target: false, lines: false, default_target: None, default_lines: None },
        DescriptorView { name: "hash-integrity"@, prompt: template_prompt_spec(TaskTemplate::HashIntegrity), target: true, lines: false, default_target: Some("C:/Windows/System32/notepad.exe"@), default_lines: None },
        DescriptorView { name: "priv-esc-review"@, prompt: template_prompt_spec(TaskTemplate::PrivEscReview), target: false, lines: false, default_target: None, default_lines: None },
        DescriptorView { name: "syslog-summary"@, prompt: template_prompt_spec(TaskTemplate::SyslogSummary), target: true, lines: true, default_target: Some("C:/Logs/agent.log"@), default_lines: Some(200) },
    ]
}

/// The descriptors of the task templates.
pub fn task_template_descriptors() -> (r: Vec<TaskTemplateDescriptor>)
    ensures
        descriptor_views(r@) == descriptors_spec(),
{
    let mut v: Vec<TaskTemplateDescriptor> = Vec::new();
    v.push(TaskTemplateDescriptor { name: "ssh-keys", prompt: task_template_prompt(TaskTemplate::SshKeys), supports_template_target: false, supports_template_lines: false, default_target: None, default_lines: None });
    v.push(TaskTemplateDescriptor { name: "listener-risk", prompt: task_template_prompt(TaskTemplate::ListenerRisk), supports_template_target: false, supports_template_lines: false, default_target: None, default_lines: None });
    v.push(TaskTemplateDescriptor { name: "hash-integrity", prompt: task_template_prompt(TaskTemplate::HashIntegrity), supports_template_target: true, supports_template_lines: false, default_target: Some("C:/Windows/System32/notepad.exe"), default_lines: None });
    v.push(TaskTemplateDescriptor { name: "priv-esc-review", prompt: task_template_prompt(TaskTemplate::PrivEscReview), supports_template_target: false, supports_template_lines: false, default_target: None, default_lines: None });
    v.push(TaskTemplateDescriptor { name: "syslog-summary", prompt: task_template_prompt(TaskTemplate::SyslogSummary), supports_template_target: true, supports_template_lines: true, default_target: Some("C:/Logs/agent.log"), default_lines: Some(200) });
    assert(descriptor_views(v@) =~= descriptors_spec());
    v
}

pub open spec fn descriptor_text(d: DescriptorView) -> Seq<char> {
    "- "@ + d.name + ": "@ + d.prompt + "\n"@ + if d.target && d.lines {
        "  options: --template-target <PATH> (default "@ + match d.default_target {
            Some(t) => t,
            None => "(none)"@,
        } + "), --template-lines <N> (default "@ + dec(
            match d.default_lines {
                Some(n) => n as nat,
                None => 0nat,
            },
        ) + ")\n"@
    } else if d.target {
        "  options: --template-target <PATH> (default "@ + match d.default_target {
            Some(t) => t,
            None => "(none)"@,
        } + ")\n"@
    } else {
        seq![]
    }
}

pub open spec fn descriptors_text(ds: Seq<DescriptorView>) -> Seq<char>
    decreases ds.len(),
{
    if ds.len() == 0 {
        seq![]
    } else {
        descriptors_text(ds.drop_last()) + descriptor_text(ds.last())
    }
}

/// The text list of task templates: a title, each template's name and prompt, and the
/// options it takes with their defaults; trailing white space removed.
pub open spec fn template_list_text() -> Seq<char> {
    trim_end("WraithRun Task Templates\n"@ + descriptors_text(descriptors_spec()))
}

fn descriptor_line(d: &TaskTemplateDescriptor) -> (r: Vec<char>)
    ensures
        r@ == descriptor_text(d@),
{
    let mut out = chars_of("- ");
    push_str(&mut out, d.name);
    push_str(&mut out, ": ");
    push_str(&mut out, d.prompt);
    push_str(&mut out, "\n");
    if d.supports_template_target && d.supports_template_lines {
        push_str(&mut out, "  options: --template-target <PATH> (default ");
        push_str(&mut out, match d.default_target { Some(t) => t, None => "(none)" });
        push_str(&mut out, "), --template-lines <N> (default ");
        push_all(&mut out, &usize_dec(match d.default_lines { Some(n) => n, None => 0 }));
        push_str(&mut out, ")\n");
    } else if d.supports_template_target {
        push_str(&mut out, "  options: --template-target <PATH> (default ");
        push_str(&mut out, match d.default_target { Some(t) => t, None => "(none)" });
        push_str(&mut out, ")\n");
    }
    assert(out@ =~= descriptor_text(d@));
    out
}

/// Renders the text list of task templates (see [`template_list_text`]).
pub fn render_task_template_list() -> (r: String)
    ensures
        r@ == template_list_text(),
{
    let ds = task_template_descriptors();
    let mut out = chars_of("WraithRun Task Templates\n");
    let ghost head = out@;
    let ghost dv = descriptor_views(ds@);
    let mut i: usize = 0;
    assert(dv.take(0) =~= Seq::<DescriptorView>::empty());
    while i < ds.len()
        invariant
            i <= ds@.len(),
            dv == descriptor_views(ds@),
            out@ == head + descriptors_text(dv.take(i as int)),
        decreases ds@.len() - i,
    {
        assert(dv.take(i + 1).drop_last() =~= dv.take(i as int));
        assert(dv.take(i + 1).last() == ds@[i as int]@);
        let line = descriptor_line(&ds[i]);
        push_all(&mut out, &line);
        assert(out@ =~= head + descriptors_text(dv.take(i + 1)));
        i = i + 1;
    }
    assert(dv.take(ds@.len() as int) =~= dv);
    string_of(&trim_end_chars(&out))
}

/// A descriptor as JSON, members in field order.
pub open spec fn descriptor_json(j: JsonValue, d: DescriptorView) -> bool {
    j matches JsonValue::Object(m) && m@.len() == 6 && is_str_member(m@[0], "name"@, d.name)
        && is_str_member(m@[1], "prompt"@, d.prompt) && m@[2].0@ == "supports_template_target"@
        && m@[2].1 == JsonValue::Bool(d.target) && m@[3].0@ == "supports_template_lines"@ && m@[3].1
        == JsonValue::Bool(d.lines) && crate::json::is_opt_str_member(m@[4], "default_target"@, d.default_target)
        && crate::json::is_opt_uint_member(m@[5], "default_lines"@, match d.default_lines {
        Some(n) => Some(n as u64),
        None => None,
    })
}

/// The JSON list of templates: the templates and the contract version.
pub open spec fn template_list_doc(j: JsonValue) -> bool {
    j matches JsonValue::Object(m) && m@.len() == 2 && m@[0].0@ == "templates"@ && (m@[0].1 matches JsonValue::Array(items)
        && items@.len() == descriptors_spec().len() && forall|i: int| 0 <= i < items@.len() ==> descriptor_json(#[trigger] items@[i], descriptors_spec()[i]))
        && is_str_member(m@[1], "contract_version"@, "1.0.0"@)
}

/// Renders the JSON list of task templates.
pub fn render_task_template_list_json() -> (r: String)
    ensures
        exists|d: JsonValue| #[trigger] template_list_doc(d) && r@ == json_pretty_text(d),
{
    let ds = task_template_descriptors();
    let mut items: Vec<JsonValue> = Vec::new();
    let mut i: usize = 0;
    while i < ds.len()
        invariant
            i <= ds@.len(),
            descriptor_views(ds@) == descriptors_spec(),
            items@.len() == i,
            forall|k: int| 0 <= k < i ==> descriptor_json(#[trigger] items@[k], descriptors_spec()[k]),
        decreases ds@.len() - i,
    {
        let d = &ds[i];
        let mut m: Vec<(String, JsonValue)> = Vec::new();
        m.push(str_member("name", d.name));
        m.push(str_member("prompt", d.prompt));
        m.push(value_member("supports_template_target", JsonValue::Bool(d.supports_template_target)));
        m.push(value_member("supports_template_lines", JsonValue::Bool(d.supports_template_lines)));
        let dt = match d.default_target {
            Some(t) => Some(lit(t)),
            None => None,
        };
        m.push(crate::json::opt_str_member("default_target", &dt));
        m.push(crate::json::opt_uint_member("default_lines", match d.default_lines {
            Some(n) => Some(n as u64),
            None => None,
        }));
        assert(descriptor_views(ds@)[i as int] == d@);
        items.push(JsonValue::Object(m));
        i = i + 1;
    }
    let mut m: Vec<(String, JsonValue)> = Vec::new();
    m.push(value_member("templates", JsonValue::Array(items)));
    m.push(str_member("contract_version", "1.0.0"));
    let doc = JsonValue::Object(m);
    let r = pretty_json(&doc);
    assert(template_list_doc(doc));
    r
}

/// The task of a template with the given target and line count: templates without
/// options refuse both; `hash-integrity` takes a target; `syslog-summary` takes a target
/// and a line count of at least one.  A given target must not be blank.
pub open spec fn template_task_spec(t: TaskTemplate, target: Option<Seq<char>>, lines: Option<usize>) -> Result<Seq<char>, Seq<char>> {
    if target matches Some(x) && trim(x).len() == 0 {
        Err("--template-target cannot be empty when provided"@)
    } else {
        match t {
            TaskTemplate::HashIntegrity => if lines is Some {
                Err("--template-lines is not supported for task template 'hash-integrity'."@)
            } else {
                Ok("Hash "@ + trim(match target {
                    Some(x) => x,
                    None => "C:/Windows/System32/notepad.exe"@,
                }) + " and report integrity context"@)
            },
            TaskTemplate::SyslogSummary => {
                let n: nat = match lines {
                    Some(l) => l as nat,
                    None => 200,
                };
                if n == 0 {
                    Err("--template-lines must be at least 1 for task template 'syslog-summary'."@)
                } else {
                    Ok("Read and summarize last "@ + dec(n) + " lines from "@ + trim(match target {
                        Some(x) => x,
                        None => "C:/Logs/agent.log"@,
                    }))
                }
            },
            _ => if target is Some || lines is Some {
                Err("--template-target and --template-lines are not supported for task template '"@
                    + template_name_spec(t) + "'."@)
            } else {
                Ok(template_prompt_spec(t))
            },
        }
    }
}

/// The task a template gives (see [`template_task_spec`]).
pub fn resolve_task_from_template(template: TaskTemplate, target: Option<&str>, lines: Option<usize>) -> (r: Result<String, String>)
    ensures
        match template_task_spec(template, match target {
            Some(x) => Some(x@),
            None => None,
        }, lines) {
            Ok(s) => r matches Ok(v) && v@ == s,
            Err(s) => r matches Err(v) && v@ == s,
        },
{
    if let Some(raw) = target {
        if trim_str(raw).len() == 0 {
            return Err(lit("--template-target cannot be empty when provided"));
        }
    }
    match template {
        TaskTemplate::HashIntegrity => {
            if lines.is_some() {
                return Err(lit("--template-lines is not supported for task template 'hash-integrity'."));
            }
            let t = trim_str(match target { Some(x) => x, None => "C:/Windows/System32/notepad.exe" });
            let mut out = chars_of("Hash ");
            push_all(&mut out, &t);
            push_str(&mut out, " and report integrity context");
            Ok(string_of(&out))
        },
        TaskTemplate::SyslogSummary => {
            let n = match lines { Some(l) => l, None => 200 };
            if n == 0 {
                return Err(lit("--template-lines must be at least 1 for task template 'syslog-summary'."));
            }
            let t = trim_str(match target { Some(x) => x, None => "C:/Logs/agent.log" });
            let mut out = chars_of("Read and summarize last ");
            push_all(&mut out, &usize_dec(n));
            push_str(&mut out, " lines from ");
            push_all(&mut out, &t);
            Ok(string_of(&out))
        },
        _ => {
            if target.is_some() || lines.is_some() {
                let mut out = chars_of("--template-target and --template-lines are not supported for task template '");
                push_str(&mut out, task_template_name(template));
                push_str(&mut out, "'.");
                return Err(string_of(&out));
            }
            Ok(lit(task_template_prompt(template)))
        },
    }
}

// ---------------------------------------------------------------------------
// Option values
// ---------------------------------------------------------------------------

/// The index of the first option equal to the value in lower case.
pub open spec fn choice_spec(raw: Seq<char>, options: Seq<Seq<char>>) -> Option<int>
    decreases options.len(),
{
    if options.len() == 0 {
        None
    } else {
        match choice_spec(raw, options.drop_last()) {
            Some(i) => Some(i),
            None => if ascii_lower(raw) == options.last() {
                Some(options.len() - 1)
            } else {
                None
            },
        }
    }
}

fn choice(raw: &str, options: &Vec<&'static str>) -> (r: Option<usize>)
    ensures
        match r {
            Some(i) => choice_spec(raw@, crate::templates::str_views(options@)) == Some(i as int) && i < options@.len(),
            None => choice_spec(raw@, crate::templates::str_views(options@)) is None,
        },
{
    let ghost all = crate::templates::str_views(options@);
    let low = to_ascii_lower(&chars_of(raw));
    let mut i: usize = 0;
    assert(all.take(0) =~= Seq::<Seq<char>>::empty());
    while i < options.len()
        invariant
            i <= options@.len(),
            all == crate::templates::str_views(options@),
            low@ == ascii_lower(raw@),
            choice_spec(raw@, all.take(i as int)) is None,
        decreases options@.len() - i,
    {
        assert(all.take(i + 1).drop_last() =~= all.take(i as int));
        assert(all.take(i + 1).last() == options@[i as int]@);
        if chars_eq(&low, &chars_of(options[i])) {
            proof {
                lemma_choice_extend(raw@, all, i as int + 1, i as int);
            }
            return Some(i);
        }
        i = i + 1;
    }
    assert(all.take(options@.len() as int) =~= all);
    None
}

proof fn lemma_choice_extend(raw: Seq<char>, all: Seq<Seq<char>>, n: int, i: int)
    requires
        0 <= n <= all.len(),
        choice_spec(raw, all.take(n)) == Some(i),
    ensures
        choice_spec(raw, all) == Some(i),
    decreases all.len() - n,
{
    if n == all.len() {
        assert(all.take(n) =~= all);
    } else {
        assert(all.take(n + 1).drop_last() =~= all.take(n));
        lemma_choice_extend(raw, all, n + 1, i);
    }
}

/// The error for a value outside a list of choices.
pub open spec fn choice_error(source: Seq<char>, expected: Seq<char>, raw: Seq<char>) -> Seq<char> {
    source + expected + " (got '"@ + raw + "')"@
}

fn choice_error_exec(source: &str, expected: &str, raw: &str) -> (r: String)
    ensures
        r@ == choice_error(source@, expected@, raw@),
{
    let mut out = chars_of(source);
    push_str(&mut out, expected);
    push_str(&mut out, " (got '");
    push_str(&mut out, raw);
    push_str(&mut out, "')");
    string_of(&out)
}

pub open spec fn bool_options() -> Seq<Seq<char>> {
    seq!["1"@, "true"@, "yes"@, "on"@, "0"@, "false"@, "no"@, "off"@]
}

/// A boolean option: `1`, `true`, `yes`, `on` and `0`, `false`, `no`, `off`, in any
/// ASCII case.
pub fn parse_bool(raw: &str, source: &str) -> (r: Result<bool, String>)
    ensures
        match choice_spec(raw@, bool_options()) {
            Some(i) => r == Ok::<bool, String>(i < 4),
            None => r matches Err(e) && e@ == choice_error(source@, " must be one of 1/0, true/false, yes/no, on/off"@, raw@),
        },
{
    let mut o: Vec<&'static str> = Vec::new();
    crate::templates::lit_views_push(&mut o, "1");
    crate::templates::lit_views_push(&mut o, "true");
    crate::templates::lit_views_push(&mut o, "yes");
    crate::templates::lit_views_push(&mut o, "on");
    crate::templates::lit_views_push(&mut o, "0");
    crate::templates::lit_views_push(&mut o, "false");
    crate::templates::lit_views_push(&mut o, "no");
    crate::templates::lit_views_push(&mut o, "off");
    assert(crate::templates::str_views(o@) =~= bool_options());
    match choice(raw, &o) {
        Some(i) => Ok(i < 4),
        None => Err(choice_error_exec(source, " must be one of 1/0, true/false, yes/no, on/off", raw)),
    }
}

/// The format of a run report.
#[derive(Clone, Copy, Debug, PartialEq, Eq, Structural)]
pub enum OutputFormat {
    Json,
    Summary,
    Markdown,
}

/// A report format option: `json`, `summary` or `markdown`, in any ASCII case.
pub fn parse_output_format(raw: &str, source: &str) -> (r: Result<OutputFormat, String>)
    ensures
        match choice_spec(raw@, seq!["json"@, "summary"@, "markdown"@]) {
            Some(i) => r == Ok::<OutputFormat, String>(if i == 0 {
                OutputFormat::Json
            } else if i == 1 {
                OutputFormat::Summary
            } else {
                OutputFormat::Markdown
            }),
            None => r matches Err(e) && e@ == choice_error(source@, " must be one of: json, summary, markdown"@, raw@),
        },
{
    let mut o: Vec<&'static str> = Vec::new();
    crate::templates::lit_views_push(&mut o, "json");
    crate::templates::lit_views_push(&mut o, "summary");
    crate::templates::lit_views_push(&mut o, "markdown");
    assert(crate::templates::str_views(o@) =~= seq!["json"@, "summary"@, "markdown"@]);
    match choice(raw, &o) {
        Some(0) => Ok(OutputFormat::Json),
        Some(1) => Ok(OutputFormat::Summary),
        Some(_) => Ok(OutputFormat::Markdown),
        None => Err(choice_error_exec(source, " must be one of: json, summary, markdown", raw)),
    }
}

/// How much of a report is written.
#[derive(Clone, Copy, Debug, PartialEq, Eq, Structural)]
pub enum OutputMode {
    Compact,
    Full,
}

/// An output mode option: `compact` or `full`, in any ASCII case.
pub fn parse_output_mode(raw: &str, source: &str) -> (r: Result<OutputMode, String>)
    ensures
        match choice_spec(raw@, seq!["compact"@, "full"@]) {
            Some(i) => r == Ok::<OutputMode, String>(if i == 0 { OutputMode::Compact } else { OutputMode::Full }),
            None => r matches Err(e) && e@ == choice_error(source@, " must be one of: compact, full"@, raw@),
        },
{
    let mut o: Vec<&'static str> = Vec::new();
    crate::templates::lit_views_push(&mut o, "compact");
    crate::templates::lit_views_push(&mut o, "full");
    assert(crate::templates::str_views(o@) =~= seq!["compact"@, "full"@]);
    match choice(raw, &o) {
        Some(0) => Ok(OutputMode::Compact),
        Some(_) => Ok(OutputMode::Full),
        None => Err(choice_error_exec(source, " must be one of: compact, full", raw)),
    }
}

/// The policy that turns a failed live run into a dry run.
#[derive(Clone, Copy, Debug, PartialEq, Eq, Structural)]
pub enum LiveFallbackPolicy {
    /// No fallback (`none`).
    Disabled,
    DryRunOnError,
}

/// A fallback policy option: `none` or `dry-run-on-error`, in any ASCII case.
pub fn parse_live_fallback_policy(raw: &str, source: &str) -> (r: Result<LiveFallbackPolicy, String>)
    ensures
        match choice_spec(raw@, seq!["none"@, "dry-run-on-error"@]) {
            Some(i) => r == Ok::<LiveFallbackPolicy, String>(if i == 0 { LiveFallbackPolicy::Disabled } else { LiveFallbackPolicy::DryRunOnError }),
            None => r matches Err(e) && e@ == choice_error(source@, " must be one of: none, dry-run-on-error"@, raw@),
        },
{
    let mut o: Vec<&'static str> = Vec::new();
    crate::templates::lit_views_push(&mut o, "none");
    crate::templates::lit_views_push(&mut o, "dry-run-on-error");
    assert(crate::templates::str_views(o@) =~= seq!["none"@, "dry-run-on-error"@]);
    match choice(raw, &o) {
        Some(0) => Ok(LiveFallbackPolicy::Disabled),
        Some(_) => Ok(LiveFallbackPolicy::DryRunOnError),
        None => Err(choice_error_exec(source, " must be one of: none, dry-run-on-error", raw)),
    }
}

/// The name of a fallback policy.
pub fn live_fallback_policy_token(policy: LiveFallbackPolicy) -> (r: &'static str)
    ensures
        r@ == match policy {
            LiveFallbackPolicy::Disabled => "none"@,
            LiveFallbackPolicy::DryRunOnError => "dry-run-on-error"@,
        },
{
    match policy {
        LiveFallbackPolicy::Disabled => "none",
        LiveFallbackPolicy::DryRunOnError => "dry-run-on-error",
    }
}

/// The machine-readable envelope a report can be wrapped in.
#[derive(Clone, Copy, Debug, PartialEq, Eq, Structural)]
pub enum AutomationAdapter {
    FindingsV1,
}

/// An automation adapter option: `findings-v1`, in any ASCII case.
pub fn parse_automation_adapter(raw: &str, source: &str) -> (r: Result<AutomationAdapter, String>)
    ensures
        match choice_spec(raw@, seq!["findings-v1"@]) {
            Some(i) => r == Ok::<AutomationAdapter, String>(AutomationAdapter::FindingsV1),
            None => r matches Err(e) && e@ == choice_error(source@, " must be 'findings-v1'"@, raw@),
        },
{
    let mut o: Vec<&'static str> = Vec::new();
    crate::templates::lit_views_push(&mut o, "findings-v1");
    assert(crate::templates::str_views(o@) =~= seq!["findings-v1"@]);
    match choice(raw, &o) {
        Some(_) => Ok(AutomationAdapter::FindingsV1),
        None => Err(choice_error_exec(source, " must be 'findings-v1'", raw)),
    }
}

/// Whether a run's findings set the exit code.
#[derive(Clone, Copy, Debug, PartialEq, Eq, Structural)]
pub enum ExitPolicy {
    /// No exit policy (`none`).
    Disabled,
    SeverityThreshold,
}

/// An exit policy option: `none` or `severity-threshold`, in any ASCII case.
pub fn parse_exit_policy(raw: &str, source: &str) -> (r: Result<ExitPolicy, String>)
    ensures
        match choice_spec(raw@, seq!["none"@, "severity-threshold"@]) {
            Some(i) => r == Ok::<ExitPolicy, String>(if i == 0 { ExitPolicy::Disabled } else { ExitPolicy::SeverityThreshold }),
            None => r matches Err(e) && e@ == choice_error(source@, " must be one of: none, severity-threshold"@, raw@),
        },
{
    let mut o: Vec<&'static str> = Vec::new();
    crate::templates::lit_views_push(&mut o, "none");
    crate::templates::lit_views_push(&mut o, "severity-threshold");
    assert(crate::templates::str_views(o@) =~= seq!["none"@, "severity-threshold"@]);
    match choice(raw, &o) {
        Some(0) => Ok(ExitPolicy::Disabled),
        Some(_) => Ok(ExitPolicy::SeverityThreshold),
        None => Err(choice_error_exec(source, " must be one of: none, severity-threshold", raw)),
    }
}

/// The least severity that sets the exit code.
#[derive(Clone, Copy, Debug, PartialEq, Eq, Structural)]
pub enum ExitSeverityThreshold {
    Info,
    Low,
    Medium,
    High,
    Critical,
}

pub open spec fn threshold_rank(t: ExitSeverityThreshold) -> nat {
    match t {
        ExitSeverityThreshold::Info => 0,
        ExitSeverityThreshold::Low => 1,
        ExitSeverityThreshold::Medium => 2,
        ExitSeverityThreshold::High => 3,
        ExitSeverityThreshold::Critical => 4,
    }
}

pub open spec fn threshold_token(t: ExitSeverityThreshold) -> Seq<char> {
    match t {
        ExitSeverityThreshold::Info => "info"@,
        ExitSeverityThreshold::Low => "low"@,
        ExitSeverityThreshold::Medium => "medium"@,
        ExitSeverityThreshold::High => "high"@,
        ExitSeverityThreshold::Critical => "critical"@,
    }
}

pub open spec fn threshold_of(i: int) -> ExitSeverityThreshold {
    if i == 0 {
        ExitSeverityThreshold::Info
    } else if i == 1 {
        ExitSeverityThreshold::Low
    } else if i == 2 {
        ExitSeverityThreshold::Medium
    } else if i == 3 {
        ExitSeverityThreshold::High
    } else {
        ExitSeverityThreshold::Critical
    }
}

/// An exit threshold option: a severity name in any ASCII case.
pub fn parse_exit_threshold(raw: &str, source: &str) -> (r: Result<ExitSeverityThreshold, String>)
    ensures
        match choice_spec(raw@, seq!["info"@, "low"@, "medium"@, "high"@, "critical"@]) {
            Some(i) => r == Ok::<ExitSeverityThreshold, String>(threshold_of(i)),
            None => r matches Err(e) && e@ == choice_error(source@, " must be one of: info, low, medium, high, critical"@, raw@),
        },
{
    let mut o: Vec<&'static str> = Vec::new();
    crate::templates::lit_views_push(&mut o, "info");
    crate::templates::lit_views_push(&mut o, "low");
    crate::templates::lit_views_push(&mut o, "medium");
    crate::templates::lit_views_push(&mut o, "high");
    crate::templates::lit_views_push(&mut o, "critical");
    assert(crate::templates::str_views(o@) =~= seq!["info"@, "low"@, "medium"@, "high"@, "critical"@]);
    match choice(raw, &o) {
        Some(0) => Ok(ExitSeverityThreshold::Info),
        Some(1) => Ok(ExitSeverityThreshold::Low),
        Some(2) => Ok(ExitSeverityThreshold::Medium),
        Some(3) => Ok(ExitSeverityThreshold::High),
        Some(_) => Ok(ExitSeverityThreshold::Critical),
        None => Err(choice_error_exec(source, " must be one of: info, low, medium, high, critical", raw)),
    }
}

/// How much the command line logs.
#[derive(Clone, Copy, Debug, PartialEq, Eq, Structural)]
pub enum LogMode {
    Quiet,
    Normal,
    Verbose,
}

/// A log mode option: `quiet`, `normal` or `verbose`, in any ASCII case.
pub fn parse_log_mode(raw: &str, source: &str) -> (r: Result<LogMode, String>)
    ensures
        match choice_spec(raw@, seq!["quiet"@, "normal"@, "verbose"@]) {
            Some(i) => r == Ok::<LogMode, String>(if i == 0 { LogMode::Quiet } else if i == 1 { LogMode::Normal } else { LogMode::Verbose }),
            None => r matches Err(e) && e@ == choice_error(source@, " must be one of: quiet, normal, verbose"@, raw@),
        },
{
    let mut o: Vec<&'static str> = Vec::new();
    crate::templates::lit_views_push(&mut o, "quiet");
    crate::templates::lit_views_push(&mut o, "normal");
    crate::templates::lit_views_push(&mut o, "verbose");
    assert(crate::templates::str_views(o@) =~= seq!["quiet"@, "normal"@, "verbose"@]);
    match choice(raw, &o) {
        Some(0) => Ok(LogMode::Quiet),
        Some(1) => Ok(LogMode::Normal),
        Some(_) => Ok(LogMode::Verbose),
        None => Err(choice_error_exec(source, " must be one of: quiet, normal, verbose", raw)),
    }
}

/// The log mode from the quiet and verbose switches: both on is an error; otherwise
/// quiet, verbose, normal when either was given, and none when neither was.
pub fn log_mode_from_switches(quiet: Option<bool>, verbose: Option<bool>) -> (r: Result<Option<LogMode>, String>)
    ensures
        quiet == Some(true) && verbose == Some(true) ==> (r matches Err(e) && e@
            == "WRAITHRUN_QUIET and WRAITHRUN_VERBOSE cannot both be true"@),
        !(quiet == Some(true) && verbose == Some(true)) ==> r == Ok::<Option<LogMode>, String>(
            if quiet == Some(true) {
                Some(LogMode::Quiet)
            } else if verbose == Some(true) {
                Some(LogMode::Verbose)
            } else if quiet is Some || verbose is Some {
                Some(LogMode::Normal)
            } else {
                None
            },
        ),
{
    if quiet == Some(true) && verbose == Some(true) {
        return Err(lit("WRAITHRUN_QUIET and WRAITHRUN_VERBOSE cannot both be true"));
    }
    if quiet == Some(true) {
        return Ok(Some(LogMode::Quiet));
    }
    if verbose == Some(true) {
        return Ok(Some(LogMode::Verbose));
    }
    if quiet.is_some() || verbose.is_some() {
        return Ok(Some(LogMode::Normal));
    }
    Ok(None)
}

// ---------------------------------------------------------------------------
// Exit policy
// ---------------------------------------------------------------------------

/// The position of a severity.
pub fn finding_severity_rank(severity: FindingSeverity) -> (r: u8)
    ensures
        r as nat == severity_rank(severity),
{
    match severity {
        FindingSeverity::Info => 0,
        FindingSeverity::Low => 1,
        FindingSeverity::Medium => 2,
        FindingSeverity::High => 3,
        FindingSeverity::Critical => 4,
    }
}

/// The position of a threshold.
pub fn exit_threshold_rank(threshold: ExitSeverityThreshold) -> (r: u8)
    ensures
        r as nat == threshold_rank(threshold),
{
    match threshold {
        ExitSeverityThreshold::Info => 0,
        ExitSeverityThreshold::Low => 1,
        ExitSeverityThreshold::Medium => 2,
        ExitSeverityThreshold::High => 3,
        ExitSeverityThreshold::Critical => 4,
    }
}

/// The name of a threshold.
pub fn exit_threshold_token(threshold: ExitSeverityThreshold) -> (r: &'static str)
    ensures
        r@ == threshold_token(threshold),
{
    match threshold {
        ExitSeverityThreshold::Info => "info",
        ExitSeverityThreshold::Low => "low",
        ExitSeverityThreshold::Medium => "medium",
        ExitSeverityThreshold::High => "high",
        ExitSeverityThreshold::Critical => "critical",
    }
}

/// The severity name for a position; positions past the last name `critical`.
pub fn finding_severity_token_from_rank(rank: u8) -> (r: &'static str)
    ensures
        r@ == if rank == 0 {
            "info"@
        } else if rank == 1 {
            "low"@
        } else if rank == 2 {
            "medium"@
        } else if rank == 3 {
            "high"@
        } else {
            "critical"@
        },
{
    match rank {
        0 => "info",
        1 => "low",
        2 => "medium",
        3 => "high",
        _ => "critical",
    }
}

/// The first finding at or above the threshold.
pub open spec fn first_at_threshold(fs: Seq<FindingView>, rank: nat) -> Option<int>
    decreases fs.len(),
{
    if fs.len() == 0 {
        None
    } else {
        match first_at_threshold(fs.drop_last(), rank) {
            Some(i) => Some(i),
            None => if severity_rank(fs.last().severity) >= rank {
                Some(fs.len() - 1)
            } else {
                None
            },
        }
    }
}

/// What the exit policy says of a run: nothing without the severity-threshold policy;
/// with it, the message about the first finding at or above the threshold (medium by
/// default), if any.
pub open spec fn exit_policy_spec(fs: Seq<FindingView>, policy: ExitPolicy, threshold: Option<ExitSeverityThreshold>) -> Option<Seq<char>> {
    match policy {
        ExitPolicy::Disabled => None,
        ExitPolicy::SeverityThreshold => {
            let t = match threshold {
                Some(x) => x,
                None => ExitSeverityThreshold::Medium,
            };
            match first_at_threshold(fs, threshold_rank(t)) {
                None => None,
                Some(i) => Some("exit policy triggered: finding severity '"@ + severity_token_spec(fs[i].severity)
                    + "' met/exceeded threshold '"@ + threshold_token(t) + "' (finding "@ + dec((i + 1) as nat)
                    + ": "@ + fs[i].title + ")"@),
            }
        },
    }
}

proof fn lemma_first_at_threshold_is_first(fs: Seq<FindingView>, rank: nat)
    ensures
        first_at_threshold(fs, rank) is None <==> forall|k: int| 0 <= k < fs.len() ==> severity_rank(
            (#[trigger] fs[k]).severity,
        ) < rank,
        first_at_threshold(fs, rank) matches Some(i) ==> 0 <= i < fs.len() && severity_rank(fs[i].severity) >= rank
            && forall|k: int| 0 <= k < i ==> severity_rank((#[trigger] fs[k]).severity) < rank,
    decreases fs.len(),
{
    if fs.len() > 0 {
        let p = fs.drop_last();
        lemma_first_at_threshold_is_first(p, rank);
        assert forall|k: int| 0 <= k < p.len() implies #[trigger] fs[k] == p[k] by {}
        assert(fs[fs.len() - 1] == fs.last());
    }
}

/// The severity-threshold policy fires exactly when some finding is at least as severe
/// as the threshold, and names the first such finding; without a threshold it fires
/// exactly on a Medium, High or Critical finding, never on Info or Low ones.  Without
/// the policy it never fires.
pub proof fn lemma_exit_policy_fires_at_threshold(fs: Seq<FindingView>, threshold: Option<ExitSeverityThreshold>)
    ensures
        exit_policy_spec(fs, ExitPolicy::Disabled, threshold) is None,
        threshold is None ==> (exit_policy_spec(fs, ExitPolicy::SeverityThreshold, threshold) is Some <==> exists|i: int|
            0 <= i < fs.len() && ((#[trigger] fs[i]).severity == FindingSeverity::Medium || fs[i].severity
                == FindingSeverity::High || fs[i].severity == FindingSeverity::Critical)),
        threshold == Some(ExitSeverityThreshold::Low) ==> (exit_policy_spec(fs, ExitPolicy::SeverityThreshold, threshold)
            is Some <==> exists|i: int| 0 <= i < fs.len() && (#[trigger] fs[i]).severity != FindingSeverity::Info),
        threshold == Some(ExitSeverityThreshold::Info) ==> (exit_policy_spec(fs, ExitPolicy::SeverityThreshold, threshold)
            is Some <==> fs.len() > 0),
        threshold == Some(ExitSeverityThreshold::High) ==> (exit_policy_spec(fs, ExitPolicy::SeverityThreshold, threshold)
            is Some <==> exists|i: int|
            0 <= i < fs.len() && ((#[trigger] fs[i]).severity == FindingSeverity::High || fs[i].severity
                == FindingSeverity::Critical)),
        threshold == Some(ExitSeverityThreshold::Critical) ==> (exit_policy_spec(fs, ExitPolicy::SeverityThreshold, threshold)
            is Some <==> exists|i: int| 0 <= i < fs.len() && (#[trigger] fs[i]).severity == FindingSeverity::Critical),
        threshold == Some(ExitSeverityThreshold::Medium) ==> exit_policy_spec(fs, ExitPolicy::SeverityThreshold, threshold)
            == exit_policy_spec(fs, ExitPolicy::SeverityThreshold, None),
{
    let t = match threshold {
        Some(x) => x,
        None => ExitSeverityThreshold::Medium,
    };
    lemma_first_at_threshold_is_first(fs, threshold_rank(t));
    lemma_first_at_threshold_is_first(fs, 2);
    if fs.len() > 0 {
        assert(severity_rank(fs[0].severity) >= 0);
    }
}

/// Evaluates the exit policy over a run's findings (see [`exit_policy_spec`]).
pub fn evaluate_exit_policy(findings: &Vec<Finding>, policy: ExitPolicy, threshold: Option<ExitSeverityThreshold>) -> (r: Option<String>)
    ensures
        match exit_policy_spec(finding_views(findings@), policy, threshold) {
            Some(m) => r matches Some(s) && s@ == m,
            None => r is None,
        },
        policy == ExitPolicy::SeverityThreshold && threshold is None ==> (r is Some <==> exists|i: int|
            0 <= i < findings@.len() && ((#[trigger] findings@[i]).severity == FindingSeverity::Medium
                || findings@[i].severity == FindingSeverity::High || findings@[i].severity == FindingSeverity::Critical)),
{
    proof {
        let fs = finding_views(findings@);
        lemma_exit_policy_fires_at_threshold(fs, threshold);
        assert forall|i: int| 0 <= i < findings@.len() implies #[trigger] fs[i] == findings@[i]@ by {}
        if exists|i: int| 0 <= i < fs.len() && ((#[trigger] fs[i]).severity == FindingSeverity::Medium
            || fs[i].severity == FindingSeverity::High || fs[i].severity == FindingSeverity::Critical) {
            let i = choose|i: int| 0 <= i < fs.len() && ((#[trigger] fs[i]).severity == FindingSeverity::Medium
                || fs[i].severity == FindingSeverity::High || fs[i].severity == FindingSeverity::Critical);
            assert(findings@[i].severity == fs[i].severity);
        }
        if exists|i: int| 0 <= i < findings@.len() && ((#[trigger] findings@[i]).severity == FindingSeverity::Medium
            || findings@[i].severity == FindingSeverity::High || findings@[i].severity == FindingSeverity::Critical) {
            let i = choose|i: int| 0 <= i < findings@.len() && ((#[trigger] findings@[i]).severity == FindingSeverity::Medium
                || findings@[i].severity == FindingSeverity::High || findings@[i].severity == FindingSeverity::Critical);
            assert(fs[i].severity == findings@[i].severity);
        }
    }

    match policy {
        ExitPolicy::Disabled => None,
        ExitPolicy::SeverityThreshold => {
            let t = match threshold {
                Some(x) => x,
                None => ExitSeverityThreshold::Medium,
            };
            let tr = exit_threshold_rank(t);
            let ghost fs = finding_views(findings@);
            let mut i: usize = 0;
            assert(fs.take(0) =~= Seq::<FindingView>::empty());
            while i < findings.len()
                invariant
                    i <= findings@.len(),
                    fs == finding_views(findings@),
                    policy == ExitPolicy::SeverityThreshold,
                    t == match threshold {
                        Some(x) => x,
                        None => ExitSeverityThreshold::Medium,
                    },
                    tr as nat == threshold_rank(t),
                    first_at_threshold(fs.take(i as int), tr as nat) is None,
                decreases findings@.len() - i,
            {
                assert(fs.take(i + 1).drop_last() =~= fs.take(i as int));
                assert(fs.take(i + 1).last() == findings@[i as int]@);
                let f = &findings[i];
                if finding_severity_rank(f.severity) >= tr {
                    proof {
                        lemma_first_extend(fs, tr as nat, i as int + 1, i as int);
                    }
                    let mut out = chars_of("exit policy triggered: finding severity '");
                    push_str(&mut out, f.severity.token());
                    push_str(&mut out, "' met/exceeded threshold '");
                    push_str(&mut out, exit_threshold_token(t));
                    push_str(&mut out, "' (finding ");
                    push_all(&mut out, &usize_dec(i + 1));
                    push_str(&mut out, ": ");
                    push_str(&mut out, f.title.as_str());
                    push_str(&mut out, ")");
                    assert(fs[i as int] == f@);
                    return Some(string_of(&out));
                }
                i = i + 1;
            }
            assert(fs.take(findings@.len() as int) =~= fs);
            None
        },
    }
}

proof fn lemma_first_extend(fs: Seq<FindingView>, rank: nat, n: int, i: int)
    requires
        0 <= n <= fs.len(),
        first_at_threshold(fs.take(n), rank) == Some(i),
    ensures
        first_at_threshold(fs, rank) == Some(i),
    decreases fs.len() - n,
{
    if n == fs.len() {
        assert(fs.take(n) =~= fs);
    } else {
        assert(fs.take(n + 1).drop_last() =~= fs.take(n));
        lemma_first_extend(fs, rank, n + 1, i);
    }
}

// ---------------------------------------------------------------------------
// Live errors
// ---------------------------------------------------------------------------

pub open spec fn any_in(hay: Seq<char>, needles: Seq<Seq<char>>) -> bool {
    exists|i: int| 0 <= i < needles.len() && contains_seq(hay, #[trigger] needles[i])
}

/// The reason code of a live-run error, read from its text in lower case.
pub open spec fn live_error_code(e: Seq<char>) -> Seq<char> {
    let n = ascii_lower(e);
    if any_in(n, seq!["runtime compatibility"@, "unsupported runtime inputs"@, "cache output"@, "cache input"@, "runtime_forward_smoke_failed"@]) {
        "model_runtime_incompatible"@
    } else if any_in(n, seq!["unable to locate tokenizer"@, "tokenizer file not found"@, "tokenizer path"@]) {
        "tokenizer_path_missing"@
    } else if contains_seq(n, "tokenizer"@) && any_in(n, seq!["parse"@, "json"@, "failed to load tokenizer"@]) {
        "tokenizer_json_invalid"@
    } else if any_in(n, seq!["no such file"@, "path does not exist"@, "could not read model"@, "model file"@]) {
        "model_path_missing"@
    } else if contains_seq(n, "permission denied"@) {
        "permission_denied"@
    } else if any_in(n, seq!["vitis"@, "onnx"@, "ort"@]) {
        "live_runtime_error"@
    } else {
        "unknown_live_error"@
    }
}

fn any_in_exec(hay: &Vec<char>, needles: &Vec<&'static str>) -> (r: bool)
    ensures
        r == any_in(hay@, crate::templates::str_views(needles@)),
{
    let ghost all = crate::templates::str_views(needles@);
    let mut i: usize = 0;
    while i < needles.len()
        invariant
            i <= needles@.len(),
            all == crate::templates::str_views(needles@),
            forall|k: int| 0 <= k < i ==> !contains_seq(hay@, #[trigger] all[k]),
        decreases needles@.len() - i,
    {
        let n = chars_of(needles[i]);
        assert(all[i as int] == n@);
        if contains(hay, &n) {
            return true;
        }
        i = i + 1;
    }
    false
}

fn needles(a: &'static str, b: Option<&'static str>, c: Option<&'static str>, d: Option<&'static str>, e: Option<&'static str>) -> (r: Vec<&'static str>)
    ensures
        crate::templates::str_views(r@) == seq![a@] + match b { Some(x) => seq![x@], None => seq![] }
            + match c { Some(x) => seq![x@], None => seq![] } + match d { Some(x) => seq![x@], None => seq![] }
            + match e { Some(x) => seq![x@], None => seq![] },
{
    let mut v: Vec<&'static str> = Vec::new();
    crate::templates::lit_views_push(&mut v, a);
    if let Some(x) = b { crate::templates::lit_views_push(&mut v, x); }
    if let Some(x) = c { crate::templates::lit_views_push(&mut v, x); }
    if let Some(x) = d { crate::templates::lit_views_push(&mut v, x); }
    if let Some(x) = e { crate::templates::lit_views_push(&mut v, x); }
    assert(crate::templates::str_views(v@) =~= seq![a@] + match b { Some(x) => seq![x@], None => seq![] }
            + match c { Some(x) => seq![x@], None => seq![] } + match d { Some(x) => seq![x@], None => seq![] }
            + match e { Some(x) => seq![x@], None => seq![] });
    v
}

/// Classifies a live-run error by its text (see [`live_error_code`]).
pub fn classify_live_error_reason_code(live_error: &str) -> (r: &'static str)
    ensures
        r@ == live_error_code(live_error@),
{
    let n = to_ascii_lower(&chars_of(live_error));
    let g1 = needles("runtime compatibility", Some("unsupported runtime inputs"), Some("cache output"), Some("cache input"), Some("runtime_forward_smoke_failed"));
    assert(crate::templates::str_views(g1@) =~= seq!["runtime compatibility"@, "unsupported runtime inputs"@, "cache output"@, "cache input"@, "runtime_forward_smoke_failed"@]);
    if any_in_exec(&n, &g1) {
        return "model_runtime_incompatible";
    }
    let g2 = needles("unable to locate tokenizer", Some("tokenizer file not found"), Some("tokenizer path"), None, None);
    assert(crate::templates::str_views(g2@) =~= seq!["unable to locate tokenizer"@, "tokenizer file not found"@, "tokenizer path"@]);
    if any_in_exec(&n, &g2) {
        return "tokenizer_path_missing";
    }
    let g3 = needles("parse", Some("json"), Some("failed to load tokenizer"), None, None);
    assert(crate::templates::str_views(g3@) =~= seq!["parse"@, "json"@, "failed to load tokenizer"@]);
    if contains(&n, &chars_of("tokenizer")) && any_in_exec(&n, &g3) {
        return "tokenizer_json_invalid";
    }
    let g4 = needles("no such file", Some("path does not exist"), Some("could not read model"), Some("model file"), None);
    assert(crate::templates::str_views(g4@) =~= seq!["no such file"@, "path does not exist"@, "could not read model"@, "model file"@]);
    if any_in_exec(&n, &g4) {
        return "model_path_missing";
    }
    if contains(&n, &chars_of("permission denied")) {
        return "permission_denied";
    }
    let g5 = needles("vitis", Some("onnx"), Some("ort"), None, None);
    assert(crate::templates::str_views(g5@) =~= seq!["vitis"@, "onnx"@, "ort"@]);
    if any_in_exec(&n, &g5) {
        return "live_runtime_error";
    }
    "unknown_live_error"
}

// ---------------------------------------------------------------------------
// Case identifiers and checksum lines
// ---------------------------------------------------------------------------

pub open spec fn case_id_char(c: char) -> bool {
    is_alnum_spec(c) || c == '-' || c == '_' || c == '.' || c == ':'
}

/// A case identifier is valid when, trimmed, it is non-empty, at most 128 bytes long,
/// and made of ASCII letters, digits and `-`, `_`, `.`, `:`.
pub open spec fn case_id_spec(id: Seq<char>) -> Result<(), Seq<char>> {
    let t = trim(id);
    if t.len() == 0 {
        Err("case_id cannot be empty"@)
    } else if crate::report::utf8_len(t) > 128 {
        Err("case_id must be 128 characters or fewer"@)
    } else if !(forall|i: int| 0 <= i < t.len() ==> case_id_char(#[trigger] t[i])) {
        Err("case_id may only contain ASCII letters, digits, and the characters '-', '_', '.', ':'"@)
    } else {
        Ok(())
    }
}

/// Validates a case identifier (see [`case_id_spec`]).
pub fn validate_case_id(case_id: &str) -> (r: Result<(), String>)
    ensures
        match case_id_spec(case_id@) {
            Ok(()) => r is Ok,
            Err(m) => r matches Err(e) && e@ == m,
        },
{
    let t = trim_str(case_id);
    if t.len() == 0 {
        return Err(lit("case_id cannot be empty"));
    }
    if crate::report::utf8_len_exec(&t) > 128 {
        return Err(lit("case_id must be 128 characters or fewer"));
    }
    let mut i: usize = 0;
    while i < t.len()
        invariant
            i <= t@.len(),
            t@ == trim(case_id@),
            t@.len() > 0,
            crate::report::utf8_len(t@) <= 128,
            forall|k: int| 0 <= k < i ==> case_id_char(#[trigger] t@[k]),
        decreases t@.len() - i,
    {
        let c = t[i];
        if !(is_ascii_alphanumeric(c) || c == '-' || c == '_' || c == '.' || c == ':') {
            assert(!case_id_char(t@[i as int]));
            return Err(lit("case_id may only contain ASCII letters, digits, and the characters '-', '_', '.', ':'"));
        }
        i = i + 1;
    }
    Ok(())
}

/// ASCII white space (`char::is_ascii_whitespace`): space, tab, line feed, form feed,
/// carriage return.
pub open spec fn ascii_ws(c: char) -> bool {
    c == ' ' || c == '\t' || c == '\n' || c == '\x0C' || c == '\r'
}

pub open spec fn first_ascii_ws(s: Seq<char>) -> Option<int>
    decreases s.len(),
{
    if s.len() == 0 {
        None
    } else {
        match first_ascii_ws(s.drop_last()) {
            Some(i) => Some(i),
            None => if ascii_ws(s.last()) {
                Some(s.len() - 1)
            } else {
                None
            },
        }
    }
}

/// A checksum line: the text before the first ASCII white space, and the rest with
/// leading white space removed; none without white space.
pub open spec fn checksum_line_spec(line: Seq<char>) -> Option<(Seq<char>, Seq<char>)> {
    match first_ascii_ws(line) {
        None => None,
        Some(i) => Some((line.take(i), trim_start(line.skip(i)))),
    }
}

/// Splits a checksum line (see [`checksum_line_spec`]).
pub fn parse_checksum_line(line: &str) -> (r: Option<(String, String)>)
    ensures
        match checksum_line_spec(line@) {
            None => r is None,
            Some((a, b)) => r matches Some(p) && p.0@ == a && p.1@ == b,
        },
{
    let v = chars_of(line);
    let mut i: usize = 0;
    assert(v@.take(0) =~= Seq::<char>::empty());
    while i < v.len()
        invariant
            i <= v@.len(),
            v@ == line@,
            first_ascii_ws(v@.take(i as int)) is None,
        decreases v@.len() - i,
    {
        assert(v@.take(i + 1).drop_last() =~= v@.take(i as int));
        let c = v[i];
        if c == ' ' || c == '\t' || c == '\n' || c == '\x0C' || c == '\r' {
            proof {
                lemma_first_ws_extend(v@, i as int + 1, i as int);
            }
            let head = slice_chars(&v, 0, i);
            let tail = slice_chars(&v, i, v.len());
            let (s, _) = crate::text::trim_bounds(&tail);
            let rest = slice_chars(&tail, s, tail.len());
            assert(head@ =~= v@.take(i as int));
            assert(tail@ =~= v@.skip(i as int));
            return Some((string_of(&head), string_of(&rest)));
        }
        i = i + 1;
    }
    assert(v@.take(v@.len() as int) =~= v@);
    None
}

proof fn lemma_first_ws_extend(s: Seq<char>, n: int, i: int)
    requires
        0 <= n <= s.len(),
        first_ascii_ws(s.take(n)) == Some(i),
    ensures
        first_ascii_ws(s) == Some(i),
    decreases s.len() - n,
{
    if n == s.len() {
        assert(s.take(n) =~= s);
    } else {
        assert(s.take(n + 1).drop_last() =~= s.take(n));
        lemma_first_ws_extend(s, n + 1, i);
    }
}

pub open spec fn hex_char_spec(c: char) -> bool {
    ('0' <= c && c <= '9') || ('a' <= c && c <= 'f') || ('A' <= c && c <= 'F')
}

/// A SHA-256 digest in hex: 64 hex digits of either case.
pub fn is_valid_sha256_hex(value: &str) -> (r: bool)
    ensures
        r == (value@.len() == 64 && forall|i: int| 0 <= i < value@.len() ==> hex_char_spec(#[trigger] value@[i])),
{
    let v = chars_of(value);
    if v.len() != 64 {
        return false;
    }
    let mut i: usize = 0;
    while i < v.len()
        invariant
            i <= v@.len(),
            v@ == value@,
            forall|k: int| 0 <= k < i ==> hex_char_spec(#[trigger] v@[k]),
        decreases v@.len() - i,
    {
        let c = v[i];
        if !(('0' <= c && c <= '9') || ('a' <= c && c <= 'f') || ('A' <= c && c <= 'F')) {
            return false;
        }
        i = i + 1;
    }
    true
}

// ---------------------------------------------------------------------------
// UTF-16 task files
// ---------------------------------------------------------------------------

/// The code units of UTF-16 bytes in the given byte order.
pub open spec fn utf16_units(b: Seq<u8>, little_endian: bool) -> Seq<u16> {
    Seq::new(
        b.len() / 2,
        |i: int| if little_endian {
            (b[2 * i] as int + 256 * (b[2 * i + 1] as int)) as u16
        } else {
            (256 * (b[2 * i] as int) + b[2 * i + 1] as int) as u16
        },
    )
}

/// Decodes UTF-16 code units: a surrogate pair gives one character, any other
/// surrogate is an error.
pub open spec fn decode_units(u: Seq<u16>) -> Option<Seq<char>>
    decreases u.len(),
{
    if u.len() == 0 {
        Some(seq![])
    } else if u[0] < 0xD800 || u[0] > 0xDFFF {
        match decode_units(u.drop_first()) {
            Some(rest) => Some(seq![u[0] as char] + rest),
            None => None,
        }
    } else if u[0] <= 0xDBFF && u.len() >= 2 && 0xDC00 <= u[1] && u[1] <= 0xDFFF {
        match decode_units(u.skip(2)) {
            Some(rest) => Some(seq![(0x10000 + (u[0] - 0xD800) * 0x400 + (u[1] - 0xDC00)) as char] + rest),
            None => None,
        }
    } else {
        None
    }
}

/// The text of UTF-16 task-file bytes: an error for an odd byte count or invalid
/// UTF-16, naming the file.
pub open spec fn utf16_text_spec(b: Seq<u8>, little_endian: bool, path: Seq<char>) -> Result<Seq<char>, Seq<char>> {
    if b.len() % 2 != 0 {
        Err("Task file '"@ + path + "' has invalid UTF-16 byte length"@)
    } else {
        match decode_units(utf16_units(b, little_endian)) {
            Some(t) => Ok(t),
            None => Err("Task file '"@ + path + "' contains invalid UTF-16 data"@),
        }
    }
}

fn char_of_code(c: u32) -> (r: char)
    requires
        c <= 0xD7FF || (0xE000 <= c && c <= 0x10FFFF),
    ensures
        r == c as char,
{
    proof {
        assert(c as char as u32 == c);
    }
    char_from_u32_checked(c)
}

/// `char::from_u32` on a scalar value: the character with that code.
#[verifier::external_body]
fn char_from_u32_checked(c: u32) -> (r: char)
    requires
        c <= 0xD7FF || (0xE000 <= c && c <= 0x10FFFF),
    ensures
        r == c as char,
{
    match char::from_u32(c) {
        Some(ch) => ch,
        None => '\u{FFFD}',
    }
}

/// Decodes UTF-16 task-file bytes (see [`utf16_text_spec`]).
pub fn decode_utf16_text(bytes: &Vec<u8>, little_endian: bool, path: &str) -> (r: Result<String, String>)
    ensures
        match utf16_text_spec(bytes@, little_endian, path@) {
            Ok(t) => r matches Ok(s) && s@ == t,
            Err(m) => r matches Err(e) && e@ == m,
        },
{
    if bytes.len() % 2 != 0 {
        let mut out = chars_of("Task file '");
        push_str(&mut out, path);
        push_str(&mut out, "' has invalid UTF-16 byte length");
        return Err(string_of(&out));
    }
    let mut units: Vec<u16> = Vec::new();
    let mut k: usize = 0;
    while k < bytes.len() / 2
        invariant
            k <= bytes@.len() / 2,
            bytes@.len() % 2 == 0,
            units@ == utf16_units(bytes@, little_endian).take(k as int),
        decreases bytes@.len() / 2 - k,
    {
        let a = bytes[2 * k] as u16;
        let b = bytes[2 * k + 1] as u16;
        let u: u16 = if little_endian { a + 256 * b } else { 256 * a + b };
        units.push(u);
        assert(units@ =~= utf16_units(bytes@, little_endian).take(k + 1));
        k = k + 1;
    }
    let ghost all = utf16_units(bytes@, little_endian);
    assert(all.take(all.len() as int) =~= all);
    let mut out: Vec<char> = Vec::new();
    let mut i: usize = 0;
    assert(all.skip(0) =~= all);
    while i < units.len()
        invariant
            i <= units@.len(),
            units@ == all,
            all == utf16_units(bytes@, little_endian),
            bytes@.len() % 2 == 0,
            decode_units(all) == match decode_units(all.skip(i as int)) {
                Some(rest) => Some(out@ + rest),
                None => None,
            },
        decreases units@.len() - i,
    {
        let u = units[i];
        let ghost s = all.skip(i as int);
        assert(s[0] == u);
        if u < 0xD800 || u > 0xDFFF {
            assert(s.drop_first() =~= all.skip(i + 1));
            let c = char_of_code(u as u32);
            out.push(c);
            proof {
                match decode_units(all.skip(i + 1)) {
                    Some(rest) => {
                        assert(out@ + rest =~= (out@.drop_last() + (seq![u as char] + rest)));
                    },
                    None => {},
                }
            }
            i = i + 1;
        } else if u <= 0xDBFF && i + 1 < units.len() && 0xDC00 <= units[i + 1] && units[i + 1] <= 0xDFFF {
            let lo = units[i + 1];
            assert(s[1] == lo);
            assert(s.skip(2) =~= all.skip(i + 2));
            let code: u32 = 0x10000 + ((u - 0xD800) as u32) * 0x400 + ((lo - 0xDC00) as u32);
            let c = char_of_code(code);
            out.push(c);
            proof {
                match decode_units(all.skip(i + 2)) {
                    Some(rest) => {
                        assert(out@ + rest =~= (out@.drop_last() + (seq![c] + rest)));
                    },
                    None => {},
                }
            }
            i = i + 2;
        } else {
            if i + 1 < units.len() {
                assert(s[1] == units@[i + 1]);
            }
            assert(decode_units(s) is None);
            let mut msg = chars_of("Task file '");
            push_str(&mut msg, path);
            push_str(&mut msg, "' contains invalid UTF-16 data");
            return Err(string_of(&msg));
        }
    }
    assert(all.skip(i as int) =~= Seq::<u16>::empty());
    assert(out@ + Seq::<char>::empty() =~= out@);
    Ok(string_of(&out))
}

// ---------------------------------------------------------------------------
// Report fragments
// ---------------------------------------------------------------------------

/// The upper-case label of a severity.
pub fn finding_severity_label(severity: FindingSeverity) -> (r: &'static str)
    ensures
        r@ == crate::text::ascii_upper(severity_token_spec(severity)),
{
    proof {
        reveal_strlit("info");
        reveal_strlit("low");
        reveal_strlit("medium");
        reveal_strlit("high");
        reveal_strlit("critical");
        reveal_strlit("INFO");
        reveal_strlit("LOW");
        reveal_strlit("MEDIUM");
        reveal_strlit("HIGH");
        reveal_strlit("CRITICAL");
    }
    let r = match severity {
        FindingSeverity::Info => "INFO",
        FindingSeverity::Low => "LOW",
        FindingSeverity::Medium => "MEDIUM",
        FindingSeverity::High => "HIGH",
        FindingSeverity::Critical => "CRITICAL",
    };
    assert(r@ =~= crate::text::ascii_upper(severity_token_spec(severity)));
    r
}

/// Where a finding's evidence is: `turn N` or `turn n/a`, the tool or `tool n/a`, and
/// the field, separated by `, `.
pub open spec fn evidence_text(p: crate::model::PointerView) -> Seq<char> {
    (match p.turn {
        Some(t) => "turn "@ + dec(t as nat),
        None => "turn n/a"@,
    }) + ", "@ + (match p.tool {
        Some(t) => t,
        None => "tool n/a"@,
    }) + ", "@ + p.field
}

/// Renders an evidence pointer (see [`evidence_text`]).
pub fn render_evidence_pointer(pointer: &crate::model::EvidencePointer) -> (r: String)
    ensures
        r@ == evidence_text(pointer@),
{
    let mut out: Vec<char> = match pointer.turn {
        Some(t) => {
            let mut v = chars_of("turn ");
            push_all(&mut v, &usize_dec(t));
            v
        },
        None => chars_of("turn n/a"),
    };
    push_str(&mut out, ", ");
    match &pointer.tool {
        Some(t) => push_str(&mut out, t.as_str()),
        None => push_str(&mut out, "tool n/a"),
    }
    push_str(&mut out, ", ");
    push_str(&mut out, pointer.field.as_str());
    string_of(&out)
}

/// A latency in milliseconds, or `null`.
pub fn optional_latency_label(value: Option<u64>) -> (r: String)
    ensures
        r@ == match value {
            Some(v) => dec(v as nat),
            None => "null"@,
        },
{
    match value {
        Some(v) => string_of(&crate::text::dec_chars(v)),
        None => lit("null"),
    }
}

/// How often a live-run failure reason occurred.
#[derive(Debug)]
pub struct LiveFailureReasonCount {
    pub reason_code: String,
    pub count: usize,
}

pub open spec fn reasons_text(v: Seq<LiveFailureReasonCount>) -> Seq<char>
    decreases v.len(),
{
    if v.len() == 0 {
        seq![]
    } else if v.len() == 1 {
        v[0].reason_code@ + ":"@ + dec(v[0].count as nat)
    } else {
        reasons_text(v.drop_last()) + ","@ + v.last().reason_code@ + ":"@ + dec(v.last().count as nat)
    }
}

/// Failure reasons as `code:count`, comma-separated.
pub fn format_live_failure_reasons(reasons: &Vec<LiveFailureReasonCount>) -> (r: String)
    ensures
        r@ == reasons_text(reasons@),
{
    let mut out: Vec<char> = Vec::new();
    let mut i: usize = 0;
    assert(reasons@.take(0) =~= Seq::<LiveFailureReasonCount>::empty());
    while i < reasons.len()
        invariant
            i <= reasons@.len(),
            out@ == reasons_text(reasons@.take(i as int)),
        decreases reasons@.len() - i,
    {
        assert(reasons@.take(i + 1).drop_last() =~= reasons@.take(i as int));
        if i > 0 {
            push_str(&mut out, ",");
        }
        push_str(&mut out, reasons[i].reason_code.as_str());
        push_str(&mut out, ":");
        push_all(&mut out, &usize_dec(reasons[i].count));
        i = i + 1;
    }
    assert(reasons@.take(reasons@.len() as int) =~= reasons@);
    string_of(&out)
}

/// Counts of findings by severity, for the findings adapter.
#[derive(Debug)]
pub struct AdapterSeverityCounts {
    pub info: usize,
    pub low: usize,
    pub medium: usize,
    pub high: usize,
    pub critical: usize,
}

/// Counts one more finding of a severity.
pub fn increment_severity_count(counts: &mut AdapterSeverityCounts, severity: FindingSeverity)
    requires
        old(counts).info < usize::MAX && old(counts).low < usize::MAX && old(counts).medium < usize::MAX
            && old(counts).high < usize::MAX && old(counts).critical < usize::MAX,
    ensures
        final(counts).info == old(counts).info + if severity == FindingSeverity::Info { 1int } else { 0int },
        final(counts).low == old(counts).low + if severity == FindingSeverity::Low { 1int } else { 0int },
        final(counts).medium == old(counts).medium + if severity == FindingSeverity::Medium { 1int } else { 0int },
        final(counts).high == old(counts).high + if severity == FindingSeverity::High { 1int } else { 0int },
        final(counts).critical == old(counts).critical + if severity == FindingSeverity::Critical { 1int } else { 0int },
{
    match severity {
        FindingSeverity::Info => counts.info = counts.info + 1,
        FindingSeverity::Low => counts.low = counts.low + 1,
        FindingSeverity::Medium => counts.medium = counts.medium + 1,
        FindingSeverity::High => counts.high = counts.high + 1,
        FindingSeverity::Critical => counts.critical = counts.critical + 1,
    }
}

} // verus!
