//! The sandbox policy that guards tool execution: which paths a tool may read and
//! which commands it may run, and the errors a tool reports.
use vstd::prelude::*;

use crate::json::{as_str_spec, json_get, JsonValue};
use crate::text::{
    ascii_lower, chars_eq, chars_of, push_all, push_str, split_char, split_on, string_of,
    string_views, to_ascii_lower, trim, trim_chars, trim_str, views,
};

verus! {

// ---------------------------------------------------------------------------
// Errors
// ---------------------------------------------------------------------------

/// Why a tool could not run or failed.
#[derive(Debug)]
pub enum ToolError {
    UnknownTool(String),
    InvalidArguments(String),
    PolicyDenied(String),
    /// An I/O failure, carried as the system's message.
    Io(String),
    Execution(String),
}

pub open spec fn tool_error_text(e: ToolError) -> Seq<char> {
    match e {
        ToolError::UnknownTool(s) => "unknown tool: "@ + s@,
        ToolError::InvalidArguments(s) => "invalid arguments: "@ + s@,
        ToolError::PolicyDenied(s) => "policy denied: "@ + s@,
        ToolError::Io(s) => "io error: "@ + s@,
        ToolError::Execution(s) => "tool execution error: "@ + s@,
    }
}

impl ToolError {
    /// The error's message, as the error is displayed.
    pub fn message(&self) -> (r: String)
        ensures
            r@ == tool_error_text(*self),
    {
        let (prefix, body) = match self {
            ToolError::UnknownTool(s) => ("unknown tool: ", s),
            ToolError::InvalidArguments(s) => ("invalid arguments: ", s),
            ToolError::PolicyDenied(s) => ("policy denied: ", s),
            ToolError::Io(s) => ("io error: ", s),
            ToolError::Execution(s) => ("tool execution error: ", s),
        };
        let mut out = chars_of(prefix);
        push_str(&mut out, body.as_str());
        string_of(&out)
    }
}

// ---------------------------------------------------------------------------
// Paths
// ---------------------------------------------------------------------------

/// A path piece kept as a component: empty pieces and `.` are dropped, except a `.`
/// that opens a relative path.
pub open spec fn keeps_piece(piece: Seq<char>, index: int, relative: bool) -> bool {
    piece.len() > 0 && (piece != "."@ || (index == 0 && relative))
}

pub open spec fn kept_pieces(pieces: Seq<Seq<char>>, relative: bool) -> Seq<Seq<char>>
    decreases pieces.len(),
{
    if pieces.len() == 0 {
        seq![]
    } else {
        let rest = kept_pieces(pieces.drop_last(), relative);
        if keeps_piece(pieces.last(), pieces.len() - 1, relative) {
            rest.push(pieces.last())
        } else {
            rest
        }
    }
}

/// The components of a `/`-separated path, as `Path::components` yields them: a root
/// marker `/` for an absolute path, then the non-empty pieces between separators.
pub open spec fn path_components(p: Seq<char>) -> Seq<Seq<char>> {
    let absolute = p.len() > 0 && p[0] == '/';
    let pieces = kept_pieces(split_on(p, '/'), !absolute);
    if absolute {
        seq!["/"@] + pieces
    } else {
        pieces
    }
}

/// `Path::starts_with`: the components of `base` begin the components of `p`.
pub open spec fn path_starts_with(p: Seq<char>, base: Seq<char>) -> bool {
    let pc = path_components(p);
    let bc = path_components(base);
    bc.len() <= pc.len() && pc.take(bc.len() as int) == bc
}

fn components(p: &Vec<char>) -> (r: Vec<Vec<char>>)
    ensures
        views(r@) == path_components(p@),
{
    let absolute = p.len() > 0 && p[0] == '/';
    let pieces = split_char(p, '/');
    let ghost all = views(pieces@);
    let mut out: Vec<Vec<char>> = Vec::new();
    if absolute {
        out.push(chars_of("/"));
    }
    let ghost head = views(out@);
    let dot = chars_of(".");
    let mut i: usize = 0;
    assert(all.take(0) =~= Seq::<Seq<char>>::empty());
    assert(views(out@) =~= head + kept_pieces(all.take(0), !absolute));
    while i < pieces.len()
        invariant
            i <= pieces@.len(),
            all == views(pieces@),
            dot@ == "."@,
            views(out@) == head + kept_pieces(all.take(i as int), !absolute),
        decreases pieces@.len() - i,
    {
        assert(all.take(i + 1).drop_last() =~= all.take(i as int));
        assert(all.take(i + 1).last() == pieces@[i as int]@);
        let piece = &pieces[i];
        let keep = piece.len() > 0 && (!chars_eq(piece, &dot) || (i == 0 && !absolute));
        if keep {
            let ghost before = views(out@);
            out.push(slice_all(piece));
            assert(views(out@) =~= before.push(pieces@[i as int]@));
        }
        i = i + 1;
    }
    assert(all.take(pieces@.len() as int) =~= all);
    proof {
        if !absolute {
            assert(head =~= Seq::<Seq<char>>::empty());
        }
    }
    out
}

fn slice_all(v: &Vec<char>) -> (r: Vec<char>)
    ensures
        r@ == v@,
{
    let mut out: Vec<char> = Vec::new();
    push_all(&mut out, v);
    out
}

/// `Path::starts_with` on `/`-separated paths.
pub fn path_starts_with_exec(p: &Vec<char>, base: &Vec<char>) -> (r: bool)
    ensures
        r == path_starts_with(p@, base@),
{
    let pc = components(p);
    let bc = components(base);
    if bc.len() > pc.len() {
        return false;
    }
    let mut i: usize = 0;
    while i < bc.len()
        invariant
            i <= bc@.len() <= pc@.len(),
            views(pc@) == path_components(p@),
            views(bc@) == path_components(base@),
            forall|k: int| 0 <= k < i ==> pc@[k]@ == bc@[k]@,
        decreases bc@.len() - i,
    {
        if !chars_eq(&pc[i], &bc[i]) {
            assert(views(pc@)[i as int] == pc@[i as int]@);
            assert(views(bc@)[i as int] == bc@[i as int]@);
            assert(views(pc@).take(bc@.len() as int)[i as int] != views(bc@)[i as int]);
            assert(views(pc@).take(bc@.len() as int) != views(bc@));
            return false;
        }
        i = i + 1;
    }
    assert(views(pc@).take(bc@.len() as int) =~= views(bc@));
    true
}

// ---------------------------------------------------------------------------
// Policy
// ---------------------------------------------------------------------------

/// The read roots and command lists that bound what tools may do.  Paths are absolute
/// and canonical, as the host resolves them before a check; the command lists hold
/// lower-case names, each once.
#[derive(Debug)]
pub struct SandboxPolicy {
    pub allowed_read_roots: Vec<String>,
    pub denied_read_roots: Vec<String>,
    pub command_allowlist: Vec<String>,
    pub command_denylist: Vec<String>,
}

/// No name occurs twice in a command list.
pub open spec fn distinct_names(s: Seq<Seq<char>>) -> bool {
    forall|i: int, j: int| 0 <= i < j < s.len() ==> s[i] != s[j]
}

/// The first denied root that `target` lies under.
pub open spec fn first_denied(target: Seq<char>, denied: Seq<Seq<char>>) -> Option<Seq<char>>
    decreases denied.len(),
{
    if denied.len() == 0 {
        None
    } else if path_starts_with(target, denied[0]) {
        Some(denied[0])
    } else {
        first_denied(target, denied.drop_first())
    }
}

/// The outcome of a read check: `Ok` or the denial message.
pub open spec fn path_check_spec(target: Seq<char>, allowed: Seq<Seq<char>>, denied: Seq<Seq<char>>) -> Result<(), Seq<char>> {
    match first_denied(target, denied) {
        Some(d) => Err("path '"@ + target + "' falls under denied root '"@ + d + "'"@),
        None => if allowed.len() == 0 || exists|k: int|
            0 <= k < allowed.len() && path_starts_with(target, #[trigger] allowed[k]) {
            Ok(())
        } else {
            Err("path '"@ + target + "' is outside allowlisted roots"@)
        },
    }
}

proof fn lemma_first_denied_found(target: Seq<char>, denied: Seq<Seq<char>>, k: int)
    requires
        0 <= k < denied.len(),
        path_starts_with(target, denied[k]),
    ensures
        first_denied(target, denied) is Some,
    decreases k,
{
    if k > 0 && !path_starts_with(target, denied[0]) {
        lemma_first_denied_found(target, denied.drop_first(), k - 1);
    }
}

/// A path under any denied root is refused, whatever the allowed roots are.
pub proof fn lemma_denied_root_wins(target: Seq<char>, allowed: Seq<Seq<char>>, denied: Seq<Seq<char>>, k: int)
    requires
        0 <= k < denied.len(),
        path_starts_with(target, denied[k]),
    ensures
        path_check_spec(target, allowed, denied) is Err,
{
    lemma_first_denied_found(target, denied, k);
}

/// A denylisted command is refused even when the allowlist names it.
pub proof fn lemma_denylist_wins(command: Seq<char>, allow: Seq<Seq<char>>, deny: Seq<Seq<char>>)
    requires
        deny.contains(ascii_lower(trim(command))),
    ensures
        command_check_spec(command, allow, deny) is Err,
{
}

/// The outcome of a command check: `Ok` or the denial message.
pub open spec fn command_check_spec(command: Seq<char>, allow: Seq<Seq<char>>, deny: Seq<Seq<char>>) -> Result<(), Seq<char>> {
    let normalized = ascii_lower(trim(command));
    if deny.contains(normalized) {
        Err("command '"@ + command + "' is denylisted"@)
    } else if allow.len() > 0 && !allow.contains(normalized) {
        Err("command '"@ + command + "' is not in the command allowlist"@)
    } else {
        Ok(())
    }
}

/// `r` is `Ok` exactly when `spec` is, and otherwise a policy denial with its message.
pub open spec fn denial_matches(r: Result<(), ToolError>, spec: Result<(), Seq<char>>) -> bool {
    match spec {
        Ok(()) => r is Ok,
        Err(m) => r matches Err(ToolError::PolicyDenied(s)) && s@ == m,
    }
}

pub(crate) fn contains_string(list: &Vec<String>, x: &Vec<char>) -> (r: bool)
    ensures
        r == string_views(list@).contains(x@),
{
    let mut i: usize = 0;
    while i < list.len()
        invariant
            i <= list@.len(),
            forall|k: int| 0 <= k < i ==> list@[k]@ != x@,
        decreases list@.len() - i,
    {
        let c = chars_of(list[i].as_str());
        if chars_eq(&c, x) {
            assert(string_views(list@)[i as int] == x@);
            return true;
        }
        i = i + 1;
    }
    assert forall|k: int| 0 <= k < string_views(list@).len() implies string_views(list@)[k] != x@ by {
        assert(string_views(list@)[k] == list@[k]@);
    }
    false
}

impl SandboxPolicy {
    /// The default policy on a Unix host, reading within the working directory,
    /// `/var/log` and `/tmp`, never under `/root`, `/etc/shadow` or `/proc`, and running
    /// only `id`, `ss` and `sudo`.
    pub fn strict_default(cwd: String) -> (r: SandboxPolicy)
        ensures
            string_views(r.allowed_read_roots@) == seq![cwd@, "/var/log"@, "/tmp"@],
            string_views(r.denied_read_roots@) == seq!["/root"@, "/etc/shadow"@, "/proc"@],
            string_views(r.command_allowlist@) == seq!["id"@, "ss"@, "sudo"@],
            string_views(r.command_denylist@) == seq![
                "cmd"@,
                "powershell"@,
                "pwsh"@,
                "bash"@,
                "sh"@,
                "python"@,
                "curl"@,
                "wget"@,
                "nc"@,
                "ncat"@,
            ],
    {
        let mut allowed: Vec<String> = Vec::new();
        allowed.push(cwd);
        allowed.push(lit("/var/log"));
        allowed.push(lit("/tmp"));
        let mut denied: Vec<String> = Vec::new();
        denied.push(lit("/root"));
        denied.push(lit("/etc/shadow"));
        denied.push(lit("/proc"));
        let mut allow: Vec<String> = Vec::new();
        allow.push(lit("id"));
        allow.push(lit("ss"));
        allow.push(lit("sudo"));
        let mut deny: Vec<String> = Vec::new();
        deny.push(lit("cmd"));
        deny.push(lit("powershell"));
        deny.push(lit("pwsh"));
        deny.push(lit("bash"));
        deny.push(lit("sh"));
        deny.push(lit("python"));
        deny.push(lit("curl"));
        deny.push(lit("wget"));
        deny.push(lit("nc"));
        deny.push(lit("ncat"));
        assert(string_views(allowed@) =~= seq![cwd@, "/var/log"@, "/tmp"@]);
        assert(string_views(denied@) =~= seq!["/root"@, "/etc/shadow"@, "/proc"@]);
        assert(string_views(allow@) =~= seq!["id"@, "ss"@, "sudo"@]);
        assert(string_views(deny@) =~= seq![
            "cmd"@,
            "powershell"@,
            "pwsh"@,
            "bash"@,
            "sh"@,
            "python"@,
            "curl"@,
            "wget"@,
            "nc"@,
            "ncat"@,
        ]);
        SandboxPolicy {
            allowed_read_roots: allowed,
            denied_read_roots: denied,
            command_allowlist: allow,
            command_denylist: deny,
        }
    }

    /// Checks a read of `target`: denied under any denied root (the first one is named),
    /// allowed under an allowed root or when no allowed root is set.  The target and the
    /// roots are compared as given, so they are to be normalized alike beforehand (made
    /// absolute and their links resolved, as the host does for both).
    pub fn ensure_path_allowed(&self, target: &str) -> (r: Result<(), ToolError>)
        ensures
            denial_matches(
                r,
                path_check_spec(
                    target@,
                    string_views(self.allowed_read_roots@),
                    string_views(self.denied_read_roots@),
                ),
            ),
    {
        let t = chars_of(target);
        let ghost denied = string_views(self.denied_read_roots@);
        let mut i: usize = 0;
        assert(denied.skip(0) =~= denied);
        while i < self.denied_read_roots.len()
            invariant
                i <= self.denied_read_roots@.len(),
                denied == string_views(self.denied_read_roots@),
                t@ == target@,
                first_denied(t@, denied) == first_denied(t@, denied.skip(i as int)),
            decreases self.denied_read_roots@.len() - i,
        {
            assert(denied.skip(i as int).drop_first() =~= denied.skip(i + 1));
            assert(denied.skip(i as int)[0] == self.denied_read_roots@[i as int]@);
            let d = chars_of(self.denied_read_roots[i].as_str());
            if path_starts_with_exec(&t, &d) {
                let mut msg = chars_of("path '");
                push_all(&mut msg, &t);
                push_str(&mut msg, "' falls under denied root '");
                push_all(&mut msg, &d);
                push_str(&mut msg, "'");
                return Err(ToolError::PolicyDenied(string_of(&msg)));
            }
            i = i + 1;
        }
        assert(denied.skip(i as int) =~= Seq::<Seq<char>>::empty());
        if self.allowed_read_roots.len() == 0 {
            return Ok(());
        }
        let ghost allowed = string_views(self.allowed_read_roots@);
        let mut j: usize = 0;
        while j < self.allowed_read_roots.len()
            invariant
                j <= self.allowed_read_roots@.len(),
                allowed == string_views(self.allowed_read_roots@),
                first_denied(t@, string_views(self.denied_read_roots@)) is None,
                t@ == target@,
                forall|k: int| 0 <= k < j ==> !path_starts_with(t@, #[trigger] allowed[k]),
            decreases self.allowed_read_roots@.len() - j,
        {
            let a = chars_of(self.allowed_read_roots[j].as_str());
            assert(allowed[j as int] == a@);
            if path_starts_with_exec(&t, &a) {
                assert(path_starts_with(target@, allowed[j as int]));
                return Ok(());
            }
            j = j + 1;
        }
        let mut msg = chars_of("path '");
        push_all(&mut msg, &t);
        push_str(&mut msg, "' is outside allowlisted roots");
        Err(ToolError::PolicyDenied(string_of(&msg)))
    }

    /// Checks that a command may run: its trimmed lower-case name must not be
    /// denylisted, and must be allowlisted when an allowlist is set.
    pub fn ensure_command_allowed(&self, command: &str) -> (r: Result<(), ToolError>)
        ensures
            denial_matches(
                r,
                command_check_spec(
                    command@,
                    string_views(self.command_allowlist@),
                    string_views(self.command_denylist@),
                ),
            ),
    {
        let trimmed = trim_str(command);
        let normalized = to_ascii_lower(&trimmed);
        if contains_string(&self.command_denylist, &normalized) {
            let mut msg = chars_of("command '");
            push_str(&mut msg, command);
            push_str(&mut msg, "' is denylisted");
            return Err(ToolError::PolicyDenied(string_of(&msg)));
        }
        if self.command_allowlist.len() > 0 && !contains_string(&self.command_allowlist, &normalized) {
            let mut msg = chars_of("command '");
            push_str(&mut msg, command);
            push_str(&mut msg, "' is not in the command allowlist");
            return Err(ToolError::PolicyDenied(string_of(&msg)));
        }
        Ok(())
    }
}

fn lit(s: &str) -> (r: String)
    ensures
        r@ == s@,
{
    string_of(&chars_of(s))
}

// ---------------------------------------------------------------------------
// Command lists
// ---------------------------------------------------------------------------

/// The distinct entries of `s`, each kept where it first occurs.
pub open spec fn dedup_names(s: Seq<Seq<char>>) -> Seq<Seq<char>>
    decreases s.len(),
{
    if s.len() == 0 {
        seq![]
    } else {
        let rest = dedup_names(s.drop_last());
        if rest.contains(s.last()) {
            rest
        } else {
            rest.push(s.last())
        }
    }
}

/// The comma-separated entries, trimmed, without empty ones, in lower case.
pub open spec fn command_entries(pieces: Seq<Seq<char>>) -> Seq<Seq<char>>
    decreases pieces.len(),
{
    if pieces.len() == 0 {
        seq![]
    } else {
        let rest = command_entries(pieces.drop_last());
        let t = trim(pieces.last());
        if t.len() == 0 {
            rest
        } else {
            rest.push(ascii_lower(t))
        }
    }
}

/// A comma-separated command list: its trimmed, non-empty, lower-case entries, each
/// once, in the order they first appear.
pub open spec fn command_list_spec(raw: Seq<char>) -> Seq<Seq<char>> {
    dedup_names(command_entries(split_on(raw, ',')))
}

/// De-duplicating names keeps exactly the names given: a name is kept if and only if
/// it was given.
pub proof fn lemma_dedup_same_names(s: Seq<Seq<char>>)
    ensures
        forall|x: Seq<char>| #[trigger] dedup_names(s).contains(x) <==> s.contains(x),
    decreases s.len(),
{
    if s.len() > 0 {
        let p = s.drop_last();
        lemma_dedup_same_names(p);
        let rest = dedup_names(p);
        assert forall|x: Seq<char>| #[trigger] dedup_names(s).contains(x) <==> s.contains(x) by {
            if s.contains(x) {
                let k = choose|k: int| 0 <= k < s.len() && s[k] == x;
                if k < p.len() {
                    assert(p[k] == x);
                    assert(p.contains(x));
                }
            }
            if p.contains(x) {
                let k = choose|k: int| 0 <= k < p.len() && p[k] == x;
                assert(s[k] == x);
            }
            if !rest.contains(s.last()) {
                let out = rest.push(s.last());
                if rest.contains(x) {
                    let k = choose|k: int| 0 <= k < rest.len() && rest[k] == x;
                    assert(out[k] == x);
                }
                if out.contains(x) {
                    let k = choose|k: int| 0 <= k < out.len() && out[k] == x;
                    if k < rest.len() {
                        assert(rest[k] == x);
                    }
                }
                assert(out[rest.len() as int] == s.last());
            }
            assert(s[s.len() - 1] == s.last());
        }
    }
}

pub(crate) proof fn lemma_dedup_distinct(s: Seq<Seq<char>>)
    ensures
        distinct_names(dedup_names(s)),
    decreases s.len(),
{
    if s.len() > 0 {
        lemma_dedup_distinct(s.drop_last());
    }
}

/// Parses a comma-separated command list (see [`command_list_spec`]).
pub fn parse_command_list(raw: &str) -> (r: Vec<String>)
    ensures
        string_views(r@) == command_list_spec(raw@),
        distinct_names(string_views(r@)),
{
    let chars = chars_of(raw);
    let pieces = split_char(&chars, ',');
    let ghost all = views(pieces@);
    let ghost entries = command_entries(all);
    let mut out: Vec<String> = Vec::new();
    let mut i: usize = 0;
    assert(all.take(0) =~= Seq::<Seq<char>>::empty());
    assert(string_views(out@) =~= Seq::<Seq<char>>::empty());
    while i < pieces.len()
        invariant
            i <= pieces@.len(),
            all == views(pieces@),
            string_views(out@) == dedup_names(command_entries(all.take(i as int))),
        decreases pieces@.len() - i,
    {
        assert(all.take(i + 1).drop_last() =~= all.take(i as int));
        assert(all.take(i + 1).last() == pieces@[i as int]@);
        let t = trim_chars(&pieces[i]);
        if t.len() > 0 {
            let low = to_ascii_lower(&t);
            let ghost prev = command_entries(all.take(i as int));
            assert(command_entries(all.take(i + 1)) == prev.push(low@));
            assert(command_entries(all.take(i + 1)).drop_last() =~= prev);
            if !contains_string(&out, &low) {
                let ghost before = string_views(out@);
                out.push(string_of(&low));
                assert(string_views(out@) =~= before.push(low@));
            }
        }
        i = i + 1;
    }
    assert(all.take(pieces@.len() as int) =~= all);
    proof {
        lemma_dedup_distinct(command_entries(all));
    }
    out
}

impl SandboxPolicy {
    /// The policy with the host's overrides applied: each non-empty root list replaces
    /// its default, and each command list that parses to at least one entry replaces its
    /// default.
    pub fn with_overrides(
        self,
        allowed_roots: Option<Vec<String>>,
        denied_roots: Option<Vec<String>>,
        allowlist_raw: Option<&str>,
        denylist_raw: Option<&str>,
    ) -> (r: SandboxPolicy)
        ensures
            string_views(r.allowed_read_roots@) == match allowed_roots {
                Some(v) => if v@.len() > 0 {
                    string_views(v@)
                } else {
                    string_views(self.allowed_read_roots@)
                },
                None => string_views(self.allowed_read_roots@),
            },
            string_views(r.denied_read_roots@) == match denied_roots {
                Some(v) => if v@.len() > 0 {
                    string_views(v@)
                } else {
                    string_views(self.denied_read_roots@)
                },
                None => string_views(self.denied_read_roots@),
            },
            string_views(r.command_allowlist@) == match allowlist_raw {
                Some(raw) => if command_list_spec(raw@).len() > 0 {
                    command_list_spec(raw@)
                } else {
                    string_views(self.command_allowlist@)
                },
                None => string_views(self.command_allowlist@),
            },
            string_views(r.command_denylist@) == match denylist_raw {
                Some(raw) => if command_list_spec(raw@).len() > 0 {
                    command_list_spec(raw@)
                } else {
                    string_views(self.command_denylist@)
                },
                None => string_views(self.command_denylist@),
            },
    {
        let mut policy = self;
        if let Some(roots) = allowed_roots {
            if roots.len() > 0 {
                policy.allowed_read_roots = roots;
            }
        }
        if let Some(roots) = denied_roots {
            if roots.len() > 0 {
                policy.denied_read_roots = roots;
            }
        }
        if let Some(raw) = allowlist_raw {
            let commands = parse_command_list(raw);
            if commands.len() > 0 {
                policy.command_allowlist = commands;
            }
        }
        if let Some(raw) = denylist_raw {
            let commands = parse_command_list(raw);
            if commands.len() > 0 {
                policy.command_denylist = commands;
            }
        }
        policy
    }
}

// ---------------------------------------------------------------------------
// Enforcement
// ---------------------------------------------------------------------------

/// One check that a tool call must pass before the tool runs.
#[derive(Debug)]
pub enum PolicyCheck {
    /// The tool reads this path, as the call gives it.
    ReadPath(String),
    /// The tool runs this command.
    Command(&'static str),
}

pub enum CheckView {
    ReadPath(Seq<char>),
    Command(Seq<char>),
}

impl View for PolicyCheck {
    type V = CheckView;

    open spec fn view(&self) -> CheckView {
        match self {
            PolicyCheck::ReadPath(p) => CheckView::ReadPath(p@),
            PolicyCheck::Command(c) => CheckView::Command(c@),
        }
    }
}

pub open spec fn check_views(v: Seq<PolicyCheck>) -> Seq<CheckView> {
    Seq::new(v.len(), |i: int| v[i]@)
}

/// The checks a call of `tool` with `args` must pass on a Unix host, in order.
pub open spec fn policy_checks_spec(tool: Seq<char>, args: JsonValue) -> Seq<CheckView> {
    let path = as_str_spec(json_get(args, "path"@));
    if tool == "read_syslog"@ {
        seq![CheckView::ReadPath(match path { Some(p) => p, None => "./agent.log"@ })]
    } else if tool == "hash_binary"@ {
        match path {
            Some(p) => seq![CheckView::ReadPath(p)],
            None => seq![],
        }
    } else if tool == "scan_network"@ || tool == "correlate_process_network"@ || tool
        == "capture_coverage_baseline"@ {
        seq![CheckView::Command("ss"@)]
    } else if tool == "check_privilege_escalation_vectors"@ {
        seq![CheckView::Command("id"@), CheckView::Command("sudo"@)]
    } else {
        seq![]
    }
}

/// The checks a tool call must pass (see [`policy_checks_spec`]).
pub fn policy_checks(tool_name: &str, args: &JsonValue) -> (r: Vec<PolicyCheck>)
    ensures
        check_views(r@) == policy_checks_spec(tool_name@, *args),
{
    let name = chars_of(tool_name);
    let mut out: Vec<PolicyCheck> = Vec::new();
    let path = args.get_str("path");
    if chars_eq(&name, &chars_of("read_syslog")) {
        let p = match path {
            Some(p) => lit(p.as_str()),
            None => lit("./agent.log"),
        };
        out.push(PolicyCheck::ReadPath(p));
    } else if chars_eq(&name, &chars_of("hash_binary")) {
        if let Some(p) = path {
            out.push(PolicyCheck::ReadPath(lit(p.as_str())));
        }
    } else if chars_eq(&name, &chars_of("scan_network")) || chars_eq(
        &name,
        &chars_of("correlate_process_network"),
    ) || chars_eq(&name, &chars_of("capture_coverage_baseline")) {
        out.push(PolicyCheck::Command("ss"));
    } else if chars_eq(&name, &chars_of("check_privilege_escalation_vectors")) {
        out.push(PolicyCheck::Command("id"));
        out.push(PolicyCheck::Command("sudo"));
    }
    assert(check_views(out@) =~= policy_checks_spec(tool_name@, *args));
    out
}

/// A check with its path resolved by the host: the absolute canonical path, or the
/// message of the I/O error that stopped the resolution.
#[derive(Debug)]
pub enum ResolvedCheck {
    ReadPath(Result<String, String>),
    Command(String),
}

/// Why enforcement stopped a call.
pub enum Denial {
    Io(Seq<char>),
    Policy(Seq<char>),
}

/// The first failing check, in order, or `None` when every check passes.
pub open spec fn enforce_spec(
    allowed: Seq<Seq<char>>,
    denied: Seq<Seq<char>>,
    allow: Seq<Seq<char>>,
    deny: Seq<Seq<char>>,
    checks: Seq<ResolvedCheck>,
) -> Option<Denial>
    decreases checks.len(),
{
    if checks.len() == 0 {
        None
    } else {
        let rest = enforce_spec(allowed, denied, allow, deny, checks.drop_first());
        match checks[0] {
            ResolvedCheck::ReadPath(Err(m)) => Some(Denial::Io(m@)),
            ResolvedCheck::ReadPath(Ok(p)) => match path_check_spec(p@, allowed, denied) {
                Err(m) => Some(Denial::Policy(m)),
                Ok(()) => rest,
            },
            ResolvedCheck::Command(c) => match command_check_spec(c@, allow, deny) {
                Err(m) => Some(Denial::Policy(m)),
                Ok(()) => rest,
            },
        }
    }
}

impl SandboxPolicy {
    /// Runs the checks of a tool call in order and reports the first that fails: an
    /// unresolvable path as an I/O error, a denied read or command as a policy denial.
    pub fn enforce(&self, checks: &Vec<ResolvedCheck>) -> (r: Result<(), ToolError>)
        ensures
            match enforce_spec(
                string_views(self.allowed_read_roots@),
                string_views(self.denied_read_roots@),
                string_views(self.command_allowlist@),
                string_views(self.command_denylist@),
                checks@,
            ) {
                None => r is Ok,
                Some(Denial::Io(m)) => r matches Err(ToolError::Io(s)) && s@ == m,
                Some(Denial::Policy(m)) => r matches Err(ToolError::PolicyDenied(s)) && s@ == m,
            },
    {
        let ghost a = string_views(self.allowed_read_roots@);
        let ghost d = string_views(self.denied_read_roots@);
        let ghost al = string_views(self.command_allowlist@);
        let ghost dl = string_views(self.command_denylist@);
        let mut i: usize = 0;
        assert(checks@.skip(0) =~= checks@);
        while i < checks.len()
            invariant
                i <= checks@.len(),
                a == string_views(self.allowed_read_roots@),
                d == string_views(self.denied_read_roots@),
                al == string_views(self.command_allowlist@),
                dl == string_views(self.command_denylist@),
                enforce_spec(a, d, al, dl, checks@) == enforce_spec(a, d, al, dl, checks@.skip(i as int)),
            decreases checks@.len() - i,
        {
            assert(checks@.skip(i as int).drop_first() =~= checks@.skip(i + 1));
            assert(checks@.skip(i as int)[0] == checks@[i as int]);
            match &checks[i] {
                ResolvedCheck::ReadPath(Err(m)) => {
                    return Err(ToolError::Io(lit(m.as_str())));
                },
                ResolvedCheck::ReadPath(Ok(p)) => {
                    let r = self.ensure_path_allowed(p.as_str());
                    if r.is_err() {
                        return r;
                    }
                },
                ResolvedCheck::Command(c) => {
                    let r = self.ensure_command_allowed(c.as_str());
                    if r.is_err() {
                        return r;
                    }
                },
            }
            i = i + 1;
        }
        assert(checks@.skip(i as int) =~= Seq::<ResolvedCheck>::empty());
        Ok(())
    }
}

} // verus!
