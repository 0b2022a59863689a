//! Plugin tools: external commands described by a manifest.  The library holds the
//! manifest model, the argument schema a plugin advertises, where plugins live, and the
//! rules that admit a plugin (allow-list, platform, command presence and the sandbox
//! denylist).  Reading manifests and running plugin processes is the host's part.
//!
//! Paths are handled as text with `/` as the separator.
use vstd::prelude::*;

use crate::catalog::ToolSpec;
use crate::json::{is_str_member, str_member, JsonValue};
use crate::model::clone_string;
use crate::sandbox::{contains_string, dedup_names, distinct_names, SandboxPolicy, ToolError};
use crate::text::{ascii_lower, chars_of, push_all, push_str, string_of, string_views, to_ascii_lower};

verus! {

/// How long a plugin may run when its manifest sets no timeout, in seconds.
pub const DEFAULT_TIMEOUT_SECS: u64 = 30;

/// One parameter a plugin accepts.
#[derive(Debug)]
pub struct PluginParameter {
    /// The JSON type of the parameter, such as `string`.
    pub param_type: String,
    pub required: bool,
    pub description: String,
}

/// A plugin's manifest.
#[derive(Debug)]
pub struct PluginManifest {
    pub name: String,
    pub description: String,
    pub version: String,
    /// The command to run, relative to the plugin's directory unless absolute.
    pub command: String,
    /// The platforms the plugin supports; none means every platform.
    pub platforms: Vec<String>,
    /// How long the plugin may run, in seconds.
    pub timeout_secs: Option<u64>,
    /// The parameters by name.
    pub parameters: Vec<(String, PluginParameter)>,
}

/// An admitted plugin: its manifest, its directory, the resolved command and the
/// timeout in seconds.
#[derive(Debug)]
pub struct PluginTool {
    pub manifest: PluginManifest,
    pub plugin_dir: String,
    pub command_path: String,
    pub timeout_secs: u64,
}

/// Where plugins are looked for, and which of them may load.
#[derive(Debug)]
pub struct PluginConfig {
    pub tools_dir: String,
    /// The names of the plugins that may load, each once; none means no plugin loads.
    pub allowed_plugins: Vec<String>,
}

// ---------------------------------------------------------------------------
// Paths
// ---------------------------------------------------------------------------

/// A path that starts at the root.
pub open spec fn is_absolute_path(p: Seq<char>) -> bool {
    p.len() > 0 && p[0] == '/'
}

/// `Path::join`: an absolute `rel` replaces `dir`; otherwise `rel` follows `dir`, with a
/// separator unless `dir` is empty or already ends in one.
pub open spec fn join_path(dir: Seq<char>, rel: Seq<char>) -> Seq<char> {
    if is_absolute_path(rel) {
        rel
    } else if dir.len() == 0 || dir.last() == '/' {
        dir + rel
    } else {
        dir + seq!['/'] + rel
    }
}

/// Joins two paths (see [`join_path`]).
pub fn join_paths(dir: &str, rel: &str) -> (r: String)
    ensures
        r@ == join_path(dir@, rel@),
{
    let d = chars_of(dir);
    let rc = chars_of(rel);
    if rc.len() > 0 && rc[0] == '/' {
        return string_of(&rc);
    }
    let mut out = d;
    if out.len() > 0 && out[out.len() - 1] != '/' {
        out.push('/');
    }
    push_all(&mut out, &rc);
    string_of(&out)
}

/// The last segment of a path: what follows its last separator.
pub open spec fn last_segment(p: Seq<char>) -> Seq<char>
    decreases p.len(),
{
    if p.len() == 0 {
        p
    } else if p.last() == '/' {
        seq![]
    } else {
        last_segment(p.drop_last()).push(p.last())
    }
}

pub(crate) fn last_segment_chars(p: &Vec<char>) -> (r: Vec<char>)
    ensures
        r@ == last_segment(p@),
{
    let mut j = p.len();
    while j > 0 && p[j - 1] != '/'
        invariant
            j <= p@.len(),
            forall|k: int| j <= k < p@.len() ==> p@[k] != '/',
        decreases j,
    {
        j = j - 1;
    }
    let r = crate::text::slice_chars(p, j, p.len());
    proof {
        lemma_last_segment(p@, j as int);
    }
    r
}

proof fn lemma_last_segment(p: Seq<char>, j: int)
    requires
        0 <= j <= p.len(),
        forall|k: int| j <= k < p.len() ==> p[k] != '/',
        j == 0 || p[j - 1] == '/',
    ensures
        last_segment(p) == p.subrange(j, p.len() as int),
    decreases p.len(),
{
    if p.len() == 0 {
    } else if j == p.len() {
        assert(p.subrange(j, p.len() as int) =~= Seq::<char>::empty());
    } else {
        lemma_last_segment(p.drop_last(), j);
        assert(p.drop_last().subrange(j, p.len() - 1).push(p.last()) =~= p.subrange(j, p.len() as int));
    }
}

impl PluginTool {
    /// The command path: the manifest's command, under the plugin directory unless it is
    /// absolute.
    pub fn resolve_command(plugin_dir: &str, command: &str) -> (r: String)
        ensures
            r@ == join_path(plugin_dir@, command@),
    {
        join_paths(plugin_dir, command)
    }

    /// The plugin's manifest.
    pub fn manifest(&self) -> (r: &PluginManifest)
        ensures
            *r == self.manifest,
    {
        &self.manifest
    }
}

impl PluginConfig {
    /// A configuration whose allow-list holds each given name once.
    pub fn new(tools_dir: String, allowed: Vec<String>) -> (r: PluginConfig)
        ensures
            r.tools_dir@ == tools_dir@,
            string_views(r.allowed_plugins@) == dedup_names(string_views(allowed@)),
            distinct_names(string_views(r.allowed_plugins@)),
            forall|x: Seq<char>| #[trigger] string_views(r.allowed_plugins@).contains(x) <==> string_views(
                allowed@,
            ).contains(x),
    {
        let ghost all = string_views(allowed@);
        let mut out: Vec<String> = Vec::new();
        let mut i: usize = 0;
        assert(all.take(0) =~= Seq::<Seq<char>>::empty());
        assert(string_views(out@) =~= Seq::<Seq<char>>::empty());
        while i < allowed.len()
            invariant
                i <= allowed@.len(),
                all == string_views(allowed@),
                string_views(out@) == dedup_names(all.take(i as int)),
            decreases allowed@.len() - i,
        {
            assert(all.take(i + 1).drop_last() =~= all.take(i as int));
            assert(all.take(i + 1).last() == allowed@[i as int]@);
            let name = chars_of(allowed[i].as_str());
            if !contains_string(&out, &name) {
                let ghost before = string_views(out@);
                out.push(string_of(&name));
                assert(string_views(out@) =~= before.push(name@));
            }
            i = i + 1;
        }
        assert(all.take(allowed@.len() as int) =~= all);
        proof {
            crate::sandbox::lemma_dedup_distinct(all);
            crate::sandbox::lemma_dedup_same_names(all);
        }
        PluginConfig { tools_dir, allowed_plugins: out }
    }

    /// The default plugin directory, `.config/wraithrun/tools` under the home directory
    /// (the current directory when there is none).
    pub fn default_tools_dir(home: Option<&str>) -> (r: String)
        ensures
            r@ == join_path(
                join_path(
                    join_path(
                        match home {
                            Some(h) => h@,
                            None => "."@,
                        },
                        ".config"@,
                    ),
                    "wraithrun"@,
                ),
                "tools"@,
            ),
    {
        let base: &str = match home {
            Some(h) => h,
            None => ".",
        };
        let config = join_paths(base, ".config");
        let app = join_paths(config.as_str(), "wraithrun");
        join_paths(app.as_str(), "tools")
    }
}

// ---------------------------------------------------------------------------
// The advertised schema
// ---------------------------------------------------------------------------

/// The names of the required parameters, in order.
pub open spec fn required_names(ps: Seq<(String, PluginParameter)>) -> Seq<Seq<char>>
    decreases ps.len(),
{
    if ps.len() == 0 {
        seq![]
    } else {
        let rest = required_names(ps.drop_last());
        if ps.last().1.required {
            rest.push(ps.last().0@)
        } else {
            rest
        }
    }
}

/// The schema of one parameter: its type, then its description when it has one.
pub open spec fn param_schema_ok(v: JsonValue, p: PluginParameter) -> bool {
    v matches JsonValue::Object(m) && m@.len() >= 1 && is_str_member(m@[0], "type"@, p.param_type@)
        && if p.description@.len() == 0 {
        m@.len() == 1
    } else {
        m@.len() == 2 && is_str_member(m@[1], "description"@, p.description@)
    }
}

/// The argument schema of a plugin: an object type, one property per parameter, and
/// the names of the required parameters.
pub open spec fn plugin_schema_ok(v: JsonValue, ps: Seq<(String, PluginParameter)>) -> bool {
    &&& v matches JsonValue::Object(m)
    &&& m@.len() == 3
    &&& is_str_member(m@[0], "type"@, "object"@)
    &&& m@[1].0@ == "properties"@
    &&& m@[1].1 matches JsonValue::Object(props)
    &&& props@.len() == ps.len()
    &&& forall|i: int|
        0 <= i < ps.len() ==> (#[trigger] props@[i]).0@ == ps[i].0@ && param_schema_ok(props@[i].1, ps[i].1)
    &&& m@[2].0@ == "required"@
    &&& crate::agent::string_array(m@[2].1, required_names(ps))
}

fn param_schema(p: &PluginParameter) -> (r: JsonValue)
    ensures
        param_schema_ok(r, *p),
{
    let mut m: Vec<(String, JsonValue)> = Vec::new();
    m.push(str_member("type", p.param_type.as_str()));
    if p.description.as_str().unicode_len() > 0 {
        m.push(str_member("description", p.description.as_str()));
    }
    JsonValue::Object(m)
}

impl PluginTool {
    /// The tool specification the plugin advertises: the manifest's name and
    /// description, and the schema of its parameters (see [`plugin_schema_ok`]).
    pub fn spec(&self) -> (r: ToolSpec)
        ensures
            r.name@ == self.manifest.name@,
            r.description@ == self.manifest.description@,
            plugin_schema_ok(r.args_schema, self.manifest.parameters@),
    {
        let ps = &self.manifest.parameters;
        let mut props: Vec<(String, JsonValue)> = Vec::new();
        let mut required: Vec<JsonValue> = Vec::new();
        let mut i: usize = 0;
        assert(ps@.take(0) =~= Seq::<(String, PluginParameter)>::empty());
        while i < ps.len()
            invariant
                i <= ps@.len(),
                props@.len() == i,
                forall|k: int|
                    0 <= k < i ==> (#[trigger] props@[k]).0@ == ps@[k].0@ && param_schema_ok(
                        props@[k].1,
                        ps@[k].1,
                    ),
                required@.len() == required_names(ps@.take(i as int)).len(),
                forall|k: int|
                    0 <= k < required@.len() ==> (#[trigger] required@[k] matches JsonValue::Str(s)
                        && s@ == required_names(ps@.take(i as int))[k]),
            decreases ps@.len() - i,
        {
            let ghost before = required_names(ps@.take(i as int));
            assert(ps@.take(i + 1).drop_last() =~= ps@.take(i as int));
            assert(ps@.take(i + 1).last() == ps@[i as int]);
            let name = clone_string(&ps[i].0);
            props.push((name, param_schema(&ps[i].1)));
            if ps[i].1.required {
                required.push(JsonValue::Str(clone_string(&ps[i].0)));
                assert(required_names(ps@.take(i + 1)) == before.push(ps@[i as int].0@));
            }
            i = i + 1;
        }
        assert(ps@.take(ps@.len() as int) =~= ps@);
        let mut schema: Vec<(String, JsonValue)> = Vec::new();
        schema.push(str_member("type", "object"));
        schema.push((string_of(&chars_of("properties")), JsonValue::Object(props)));
        schema.push((string_of(&chars_of("required")), JsonValue::Array(required)));
        ToolSpec {
            name: clone_string(&self.manifest.name),
            description: clone_string(&self.manifest.description),
            args_schema: JsonValue::Object(schema),
        }
    }
}

// ---------------------------------------------------------------------------
// Admission
// ---------------------------------------------------------------------------

/// Whether `r` is what admitting the manifest `m` from `dir` gives, checked in this
/// order: the plugin must be on the allow-list, must support the platform when it names
/// any, its resolved command must be a file, and that file's lower-case name must not
/// be on the sandbox denylist.  An admitted plugin runs its resolved command with the
/// manifest's timeout, 30 seconds when there is none.
pub open spec fn admission_ok(
    r: Result<PluginTool, ToolError>,
    m: PluginManifest,
    dir: Seq<char>,
    allowed: Seq<Seq<char>>,
    denylist: Seq<Seq<char>>,
    platform: Seq<char>,
    command_is_file: bool,
) -> bool {
    let path = join_path(dir, m.command@);
    let file = last_segment(path);
    if !allowed.contains(m.name@) {
        r matches Err(ToolError::PolicyDenied(s)) && s@ == "plugin '"@ + m.name@
            + "' is not in the allowed_plugins list"@
    } else if m.platforms@.len() > 0 && !string_views(m.platforms@).contains(platform) {
        r matches Err(ToolError::Execution(s)) && s@ == "plugin '"@ + m.name@
            + "' does not support platform '"@ + platform + "'"@
    } else if !command_is_file {
        r matches Err(ToolError::Execution(s)) && s@ == "plugin command not found: "@ + path
    } else if denylist.contains(ascii_lower(file)) {
        r matches Err(ToolError::PolicyDenied(s)) && s@ == "plugin command '"@ + file
            + "' is in the sandbox denylist"@
    } else {
        r matches Ok(t) && t.manifest == m && t.plugin_dir@ == dir && t.command_path@ == path
            && t.timeout_secs == match m.timeout_secs {
            Some(n) => n,
            None => DEFAULT_TIMEOUT_SECS,
        }
    }
}

/// Decides whether a plugin loads (see [`admission_ok`]).  `platform` is the host's
/// platform name and `command_is_file` whether the resolved command
/// ([`PluginTool::resolve_command`]) names a file.
pub fn admit_plugin(
    manifest: PluginManifest,
    plugin_dir: &str,
    config: &PluginConfig,
    policy: &SandboxPolicy,
    platform: &str,
    command_is_file: bool,
) -> (r: Result<PluginTool, ToolError>)
    ensures
        admission_ok(
            r,
            manifest,
            plugin_dir@,
            string_views(config.allowed_plugins@),
            string_views(policy.command_denylist@),
            platform@,
            command_is_file,
        ),
{
    let name = chars_of(manifest.name.as_str());
    if !contains_string(&config.allowed_plugins, &name) {
        let mut msg = chars_of("plugin '");
        push_all(&mut msg, &name);
        push_str(&mut msg, "' is not in the allowed_plugins list");
        return Err(ToolError::PolicyDenied(string_of(&msg)));
    }
    if manifest.platforms.len() > 0 && !contains_string(&manifest.platforms, &chars_of(platform)) {
        let mut msg = chars_of("plugin '");
        push_all(&mut msg, &name);
        push_str(&mut msg, "' does not support platform '");
        push_str(&mut msg, platform);
        push_str(&mut msg, "'");
        return Err(ToolError::Execution(string_of(&msg)));
    }
    let command_path = PluginTool::resolve_command(plugin_dir, manifest.command.as_str());
    if !command_is_file {
        let mut msg = chars_of("plugin command not found: ");
        push_str(&mut msg, command_path.as_str());
        return Err(ToolError::Execution(string_of(&msg)));
    }
    let file = last_segment_chars(&chars_of(command_path.as_str()));
    if contains_string(&policy.command_denylist, &to_ascii_lower(&file)) {
        let mut msg = chars_of("plugin command '");
        push_all(&mut msg, &file);
        push_str(&mut msg, "' is in the sandbox denylist");
        return Err(ToolError::PolicyDenied(string_of(&msg)));
    }
    let timeout_secs = match manifest.timeout_secs {
        Some(n) => n,
        None => DEFAULT_TIMEOUT_SECS,
    };
    Ok(PluginTool {
        manifest,
        plugin_dir: string_of(&chars_of(plugin_dir)),
        command_path,
        timeout_secs,
    })
}

} // verus!
