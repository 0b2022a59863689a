//! The tool catalog: each built-in tool's name, description and argument schema, and
//! the searches the command line runs over it.
use vstd::prelude::*;

use crate::agent::{string_array};
use crate::json::{is_str_member, is_uint_member, str_member, uint_member, value_member, JsonValue};
use crate::json_text::{compact_json, json_compact_text, json_pretty_text, pretty_json};
use crate::templates::{str_views};
use crate::text::{
    ascii_lower, chars_eq, chars_of, contains, contains_seq, eq_ignore_ascii_case, is_alnum_spec,
    is_ascii_alphanumeric, join, join_chars, lines, lines_of, lower_char, lower_char_spec,
    push_all, push_str, split_words, string_of, string_views, trim, trim_end, trim_str, views,
    words,
};

verus! {

fn lit(s: &str) -> (r: String)
    ensures
        r@ == s@,
{
    string_of(&chars_of(s))
}

// ---------------------------------------------------------------------------
// Tool specifications
// ---------------------------------------------------------------------------

/// A tool's name, description and the JSON schema of its arguments.
#[derive(Debug)]
pub struct ToolSpec {
    pub name: String,
    pub description: String,
    pub args_schema: JsonValue,
}

/// The names of an object's members, in order; none for other values.
pub open spec fn member_keys(v: JsonValue) -> Seq<Seq<char>> {
    match v {
        JsonValue::Object(m) => Seq::new(m@.len(), |i: int| m@[i].0@),
        _ => seq![],
    }
}

/// An object schema: `"type": "object"`, then the named properties when there are
/// any, then the required names when there are any.
pub open spec fn schema_shape(v: JsonValue, props: Option<Seq<Seq<char>>>, required: Option<Seq<Seq<char>>>) -> bool {
    v matches JsonValue::Object(m) && m@.len() >= 1 && is_str_member(m@[0], "type"@, "object"@)
        && match props {
        None => m@.len() == 1,
        Some(p) => m@.len() >= 2 && m@[1].0@ == "properties"@ && member_keys(m@[1].1) == p
            && match required {
            None => m@.len() == 2,
            Some(rq) => m@.len() == 3 && m@[2].0@ == "required"@ && string_array(m@[2].1, rq),
        },
    }
}

/// An integer property: `"type": "integer"` with its inclusive bounds.
pub open spec fn integer_prop_shape(v: JsonValue, minimum: u64, maximum: u64) -> bool {
    v matches JsonValue::Object(m) && m@.len() == 3 && is_str_member(m@[0], "type"@, "integer"@)
        && is_uint_member(m@[1], "minimum"@, minimum) && is_uint_member(m@[2], "maximum"@, maximum)
}

/// A string property: `"type": "string"` alone.
pub open spec fn string_prop_shape(v: JsonValue) -> bool {
    v matches JsonValue::Object(m) && m@.len() == 1 && is_str_member(m@[0], "type"@, "string"@)
}

/// A list-of-strings property: `"type": "array"`, items that are strings, and at most
/// `max_items` of them.
pub open spec fn string_list_prop_shape(v: JsonValue, max_items: u64) -> bool {
    v matches JsonValue::Object(m) && m@.len() == 3 && is_str_member(m@[0], "type"@, "array"@)
        && m@[1].0@ == "items"@ && string_prop_shape(m@[1].1)
        && is_uint_member(m@[2], "maxItems"@, max_items)
}

fn integer_prop(minimum: u64, maximum: u64) -> (r: JsonValue)
    ensures
        integer_prop_shape(r, minimum, maximum),
{
    let mut m: Vec<(String, JsonValue)> = Vec::new();
    m.push(str_member("type", "integer"));
    m.push(uint_member("minimum", minimum));
    m.push(uint_member("maximum", maximum));
    JsonValue::Object(m)
}

fn string_prop() -> (r: JsonValue)
    ensures
        string_prop_shape(r),
{
    let mut m: Vec<(String, JsonValue)> = Vec::new();
    m.push(str_member("type", "string"));
    JsonValue::Object(m)
}

fn string_list_prop(max_items: u64) -> (r: JsonValue)
    ensures
        string_list_prop_shape(r, max_items),
{
    let mut items: Vec<(String, JsonValue)> = Vec::new();
    items.push(str_member("type", "string"));
    let mut m: Vec<(String, JsonValue)> = Vec::new();
    m.push(str_member("type", "array"));
    m.push(value_member("items", JsonValue::Object(items)));
    m.push(uint_member("maxItems", max_items));
    JsonValue::Object(m)
}

fn required_names(names: &Vec<&'static str>) -> (r: JsonValue)
    ensures
        string_array(r, str_views(names@)),
{
    let mut items: Vec<JsonValue> = Vec::new();
    let mut i: usize = 0;
    while i < names.len()
        invariant
            i <= names@.len(),
            items@.len() == i,
            forall|k: int| 0 <= k < i ==> (#[trigger] items@[k] matches JsonValue::Str(s) && s@
                == str_views(names@)[k]),
        decreases names@.len() - i,
    {
        items.push(JsonValue::Str(lit(names[i])));
        i = i + 1;
    }
    JsonValue::Array(items)
}

fn object_schema(props: Option<Vec<(String, JsonValue)>>, required: Option<Vec<&'static str>>) -> (r: JsonValue)
    requires
        props is None ==> required is None,
    ensures
        schema_shape(
            r,
            match props {
                Some(p) => Some(Seq::new(p@.len(), |i: int| p@[i].0@)),
                None => None,
            },
            match required {
                Some(q) => Some(str_views(q@)),
                None => None,
            },
        ),
{
    let mut m: Vec<(String, JsonValue)> = Vec::new();
    m.push(str_member("type", "object"));
    match props {
        Some(p) => {
            let ghost pk = Seq::new(p@.len(), |i: int| p@[i].0@);
            let pv = JsonValue::Object(p);
            assert(member_keys(pv) =~= pk);
            m.push(value_member("properties", pv));
            match required {
                Some(q) => {
                    m.push(value_member("required", required_names(&q)));
                },
                None => {},
            }
        },
        None => {},
    }
    JsonValue::Object(m)
}

fn prop(name: &str, v: JsonValue) -> (r: (String, JsonValue))
    ensures
        r.0@ == name@,
{
    (lit(name), v)
}

/// The tool that reads the tail of a local log.
pub struct ReadSyslogTool;

/// The tool that lists listening sockets.
pub struct ScanNetworkTool;

/// The tool that hashes a file.
pub struct HashBinaryTool;

/// The tool that snapshots the privilege surface.
pub struct CheckPrivilegeEscalationVectorsTool;

/// The tool that inventories persistence locations.
pub struct InspectPersistenceLocationsTool;

/// The tool that snapshots privileged accounts.
pub struct AuditAccountChangesTool;

/// The tool that correlates listeners with their processes.
pub struct CorrelateProcessNetworkTool;

/// The tool that captures a coverage baseline.
pub struct CaptureCoverageBaselineTool;

impl ReadSyslogTool {
    pub fn spec(&self) -> (r: ToolSpec)
        ensures
            r.name@ == "read_syslog"@,
            r.description@ == "Reads local log file tail lines in a bounded, parse-friendly format."@,
            schema_shape(r.args_schema, Some(seq!["path"@, "max_lines"@]), Some(seq!["path"@])),
    {
        let mut p: Vec<(String, JsonValue)> = Vec::new();
        p.push(prop("path", string_prop()));
        p.push(prop("max_lines", integer_prop(1, 1000)));
        let mut q: Vec<&'static str> = Vec::new();
        q.push("path");
        let ghost pk = Seq::new(p@.len(), |i: int| p@[i].0@);
        assert(pk =~= seq!["path"@, "max_lines"@]);
        assert(str_views(q@) =~= seq!["path"@]);
        ToolSpec {
            name: lit("read_syslog"),
            description: lit("Reads local log file tail lines in a bounded, parse-friendly format."),
            args_schema: object_schema(Some(p), Some(q)),
        }
    }
}

impl ScanNetworkTool {
    pub fn spec(&self) -> (r: ToolSpec)
        ensures
            r.name@ == "scan_network"@,
            r.description@ == "Lists active local listening sockets from host networking stack."@,
            schema_shape(r.args_schema, Some(seq!["limit"@]), None),
    {
        let mut p: Vec<(String, JsonValue)> = Vec::new();
        p.push(prop("limit", integer_prop(1, 512)));
        let ghost pk = Seq::new(p@.len(), |i: int| p@[i].0@);
        assert(pk =~= seq!["limit"@]);
        ToolSpec {
            name: lit("scan_network"),
            description: lit("Lists active local listening sockets from host networking stack."),
            args_schema: object_schema(Some(p), None),
        }
    }
}

impl HashBinaryTool {
    pub fn spec(&self) -> (r: ToolSpec)
        ensures
            r.name@ == "hash_binary"@,
            r.description@ == "Computes SHA-256 hash of a file for local integrity triage."@,
            schema_shape(r.args_schema, Some(seq!["path"@]), Some(seq!["path"@])),
    {
        let mut p: Vec<(String, JsonValue)> = Vec::new();
        p.push(prop("path", string_prop()));
        let mut q: Vec<&'static str> = Vec::new();
        q.push("path");
        let ghost pk = Seq::new(p@.len(), |i: int| p@[i].0@);
        assert(pk =~= seq!["path"@]);
        assert(str_views(q@) =~= seq!["path"@]);
        ToolSpec {
            name: lit("hash_binary"),
            description: lit("Computes SHA-256 hash of a file for local integrity triage."),
            args_schema: object_schema(Some(p), Some(q)),
        }
    }
}

impl CheckPrivilegeEscalationVectorsTool {
    pub fn spec(&self) -> (r: ToolSpec)
        ensures
            r.name@ == "check_privilege_escalation_vectors"@,
            r.description@
                == "Collects a host-local privilege surface snapshot for quick escalation triage."@,
            schema_shape(r.args_schema, None, None),
    {
        ToolSpec {
            name: lit("check_privilege_escalation_vectors"),
            description: lit(
                "Collects a host-local privilege surface snapshot for quick escalation triage.",
            ),
            args_schema: object_schema(None, None),
        }
    }
}

impl InspectPersistenceLocationsTool {
    pub fn spec(&self) -> (r: ToolSpec)
        ensures
            r.name@ == "inspect_persistence_locations"@,
            r.description@
                == "Inventories common host persistence locations (startup paths, autoruns, cron/system units)."@,
            schema_shape(
                r.args_schema,
                Some(seq!["limit"@, "baseline_entries"@, "allowlist_terms"@]),
                None,
            ),
    {
        let mut p: Vec<(String, JsonValue)> = Vec::new();
        p.push(prop("limit", integer_prop(1, 512)));
        p.push(prop("baseline_entries", string_list_prop(512)));
        p.push(prop("allowlist_terms", string_list_prop(128)));
        let ghost pk = Seq::new(p@.len(), |i: int| p@[i].0@);
        assert(pk =~= seq!["limit"@, "baseline_entries"@, "allowlist_terms"@]);
        ToolSpec {
            name: lit("inspect_persistence_locations"),
            description: lit(
                "Inventories common host persistence locations (startup paths, autoruns, cron/system units).",
            ),
            args_schema: object_schema(Some(p), None),
        }
    }
}

impl AuditAccountChangesTool {
    pub fn spec(&self) -> (r: ToolSpec)
        ensures
            r.name@ == "audit_account_changes"@,
            r.description@
                == "Captures privileged account and admin-group snapshot for change-focused triage."@,
            schema_shape(
                r.args_schema,
                Some(seq!["baseline_privileged_accounts"@, "approved_privileged_accounts"@]),
                None,
            ),
    {
        let mut p: Vec<(String, JsonValue)> = Vec::new();
        p.push(prop("baseline_privileged_accounts", string_list_prop(512)));
        p.push(prop("approved_privileged_accounts", string_list_prop(512)));
        let ghost pk = Seq::new(p@.len(), |i: int| p@[i].0@);
        assert(pk =~= seq!["baseline_privileged_accounts"@, "approved_privileged_accounts"@]);
        ToolSpec {
            name: lit("audit_account_changes"),
            description: lit(
                "Captures privileged account and admin-group snapshot for change-focused triage.",
            ),
            args_schema: object_schema(Some(p), None),
        }
    }
}

impl CorrelateProcessNetworkTool {
    pub fn spec(&self) -> (r: ToolSpec)
        ensures
            r.name@ == "correlate_process_network"@,
            r.description@
                == "Correlates listening sockets with owning processes for faster containment triage."@,
            schema_shape(
                r.args_schema,
                Some(seq!["limit"@, "baseline_exposed_bindings"@, "expected_processes"@]),
                None,
            ),
    {
        let mut p: Vec<(String, JsonValue)> = Vec::new();
        p.push(prop("limit", integer_prop(1, 512)));
        p.push(prop("baseline_exposed_bindings", string_list_prop(512)));
        p.push(prop("expected_processes", string_list_prop(512)));
        let ghost pk = Seq::new(p@.len(), |i: int| p@[i].0@);
        assert(pk =~= seq!["limit"@, "baseline_exposed_bindings"@, "expected_processes"@]);
        ToolSpec {
            name: lit("correlate_process_network"),
            description: lit(
                "Correlates listening sockets with owning processes for faster containment triage.",
            ),
            args_schema: object_schema(Some(p), None),
        }
    }
}

impl CaptureCoverageBaselineTool {
    pub fn spec(&self) -> (r: ToolSpec)
        ensures
            r.name@ == "capture_coverage_baseline"@,
            r.description@
                == "Captures reusable baseline arrays for persistence, privileged accounts, and exposed process-network bindings."@,
            schema_shape(r.args_schema, Some(seq!["persistence_limit"@, "listener_limit"@]), None),
    {
        let mut p: Vec<(String, JsonValue)> = Vec::new();
        p.push(prop("persistence_limit", integer_prop(1, 512)));
        p.push(prop("listener_limit", integer_prop(1, 512)));
        let ghost pk = Seq::new(p@.len(), |i: int| p@[i].0@);
        assert(pk =~= seq!["persistence_limit"@, "listener_limit"@]);
        ToolSpec {
            name: lit("capture_coverage_baseline"),
            description: lit(
                "Captures reusable baseline arrays for persistence, privileged accounts, and exposed process-network bindings.",
            ),
            args_schema: object_schema(Some(p), None),
        }
    }
}

pub open spec fn spec_names(v: Seq<ToolSpec>) -> Seq<Seq<char>> {
    Seq::new(v.len(), |i: int| v[i].name@)
}

/// The built-in tools' names, in name order.
pub open spec fn default_tool_names() -> Seq<Seq<char>> {
    seq![
        "audit_account_changes"@,
        "capture_coverage_baseline"@,
        "check_privilege_escalation_vectors"@,
        "correlate_process_network"@,
        "hash_binary"@,
        "inspect_persistence_locations"@,
        "read_syslog"@,
        "scan_network"@,
    ]
}

/// The catalog entries (name, description) of the built-in tools, in name order.
pub open spec fn catalog_spec() -> Seq<(Seq<char>, Seq<char>)> {
    seq![
        ("audit_account_changes"@, "Captures privileged account and admin-group snapshot for change-focused triage."@),
        ("capture_coverage_baseline"@, "Captures reusable baseline arrays for persistence, privileged accounts, and exposed process-network bindings."@),
        ("check_privilege_escalation_vectors"@, "Collects a host-local privilege surface snapshot for quick escalation triage."@),
        ("correlate_process_network"@, "Correlates listening sockets with owning processes for faster containment triage."@),
        ("hash_binary"@, "Computes SHA-256 hash of a file for local integrity triage."@),
        ("inspect_persistence_locations"@, "Inventories common host persistence locations (startup paths, autoruns, cron/system units)."@),
        ("read_syslog"@, "Reads local log file tail lines in a bounded, parse-friendly format."@),
        ("scan_network"@, "Lists active local listening sockets from host networking stack."@),
    ]
}

pub open spec fn catalog_of(v: Seq<ToolSpec>) -> Seq<(Seq<char>, Seq<char>)> {
    Seq::new(v.len(), |i: int| (v[i].name@, v[i].description@))
}

/// The specifications of the built-in tools, ordered by name, as the default registry
/// lists them.
pub fn default_tool_specs() -> (r: Vec<ToolSpec>)
    ensures
        spec_names(r@) == default_tool_names(),
        catalog_of(r@) == catalog_spec(),
{
    let mut r: Vec<ToolSpec> = Vec::new();
    r.push(AuditAccountChangesTool.spec());
    r.push(CaptureCoverageBaselineTool.spec());
    r.push(CheckPrivilegeEscalationVectorsTool.spec());
    r.push(CorrelateProcessNetworkTool.spec());
    r.push(HashBinaryTool.spec());
    r.push(InspectPersistenceLocationsTool.spec());
    r.push(ReadSyslogTool.spec());
    r.push(ScanNetworkTool.spec());
    assert(spec_names(r@) =~= default_tool_names());
    assert(catalog_of(r@) =~= catalog_spec());
    r
}

/// A tool specification as JSON: `name`, `description`, `args_schema`.
pub open spec fn spec_json(j: JsonValue, s: ToolSpec) -> bool {
    j matches JsonValue::Object(m) && m@.len() == 3 && is_str_member(m@[0], "name"@, s.name@)
        && is_str_member(m@[1], "description"@, s.description@) && m@[2].0@ == "args_schema"@
        && m@[2].1 == s.args_schema
}

impl ToolSpec {
    /// The specification as a JSON object.
    pub fn into_json(self) -> (r: JsonValue)
        ensures
            spec_json(r, self),
    {
        let mut m: Vec<(String, JsonValue)> = Vec::new();
        m.push(str_member("name", self.name.as_str()));
        m.push(str_member("description", self.description.as_str()));
        m.push(value_member("args_schema", self.args_schema));
        JsonValue::Object(m)
    }
}

} // verus!
