//! The API server's rules: run and case states, the bearer-token check, request
//! validation, and the bounded in-memory audit trail.
use vstd::prelude::*;

use crate::json::{str_member, is_str_member, JsonValue};
use crate::text::{
    chars_eq, chars_of, push_all, push_str, slice_chars, starts_with_seq, string_of, trim,
    trim_str, usize_dec, dec,
};

verus! {

fn lit(s: &str) -> (r: String)
    ensures
        r@ == s@,
{
    string_of(&chars_of(s))
}

// ---------------------------------------------------------------------------
// Run and case states
// ---------------------------------------------------------------------------

/// Status of an investigation run.
#[derive(Clone, Copy, Debug, PartialEq, Eq, Structural)]
pub enum RunStatus {
    Queued,
    Running,
    Completed,
    Failed,
    Cancelled,
}

pub open spec fn run_status_text(s: RunStatus) -> Seq<char> {
    match s {
        RunStatus::Queued => "queued"@,
        RunStatus::Running => "running"@,
        RunStatus::Completed => "completed"@,
        RunStatus::Failed => "failed"@,
        RunStatus::Cancelled => "cancelled"@,
    }
}

/// The stored name of a run status.
pub fn status_to_str(status: &RunStatus) -> (r: &'static str)
    ensures
        r@ == run_status_text(*status),
{
    match status {
        RunStatus::Queued => "queued",
        RunStatus::Running => "running",
        RunStatus::Completed => "completed",
        RunStatus::Failed => "failed",
        RunStatus::Cancelled => "cancelled",
    }
}

/// The run status stored under a name: one of the five names, anything else reads
/// as failed.
pub open spec fn status_of_text(s: Seq<char>) -> RunStatus {
    if s == "queued"@ {
        RunStatus::Queued
    } else if s == "running"@ {
        RunStatus::Running
    } else if s == "completed"@ {
        RunStatus::Completed
    } else if s == "cancelled"@ {
        RunStatus::Cancelled
    } else {
        RunStatus::Failed
    }
}

/// Reads a stored run status (see [`status_of_text`]).
pub fn str_to_status(s: &str) -> (r: RunStatus)
    ensures
        r == status_of_text(s@),
{
    let c = chars_of(s);
    if chars_eq(&c, &chars_of("queued")) {
        RunStatus::Queued
    } else if chars_eq(&c, &chars_of("running")) {
        RunStatus::Running
    } else if chars_eq(&c, &chars_of("completed")) {
        RunStatus::Completed
    } else if chars_eq(&c, &chars_of("cancelled")) {
        RunStatus::Cancelled
    } else {
        RunStatus::Failed
    }
}

/// Reading back a stored status gives the status that was stored.
pub proof fn lemma_status_round_trip(s: RunStatus)
    ensures
        status_of_text(run_status_text(s)) == s,
{
    reveal_strlit("queued");
    reveal_strlit("running");
    reveal_strlit("completed");
    reveal_strlit("failed");
    reveal_strlit("cancelled");
    assert("queued"@[0] == 'q');
    assert("running"@[0] == 'r');
    assert("completed"@[0] == 'c');
    assert("completed"@[1] == 'o');
    assert("failed"@[0] == 'f');
    assert("cancelled"@[0] == 'c');
    assert("cancelled"@[1] == 'a');
}

/// Status of an investigation case.
#[derive(Clone, Copy, Debug, PartialEq, Eq, Structural)]
pub enum CaseStatus {
    Open,
    Investigating,
    Closed,
}

pub open spec fn case_status_text(s: CaseStatus) -> Seq<char> {
    match s {
        CaseStatus::Open => "open"@,
        CaseStatus::Investigating => "investigating"@,
        CaseStatus::Closed => "closed"@,
    }
}

impl CaseStatus {
    /// The name of a case status.
    pub fn token(self) -> (r: &'static str)
        ensures
            r@ == case_status_text(self),
    {
        match self {
            CaseStatus::Open => "open",
            CaseStatus::Investigating => "investigating",
            CaseStatus::Closed => "closed",
        }
    }
}

impl RunStatus {
    /// Whether the run has not finished: queued or running.
    pub fn is_active(self) -> (r: bool)
        ensures
            r == (self == RunStatus::Queued || self == RunStatus::Running),
    {
        match self {
            RunStatus::Queued | RunStatus::Running => true,
            _ => false,
        }
    }
}

/// Cancelling a run: an active run becomes cancelled; a finished run is unchanged.
/// The flag tells whether the run was active.
pub fn cancel_transition(status: RunStatus) -> (r: (RunStatus, bool))
    ensures
        r.1 == (status == RunStatus::Queued || status == RunStatus::Running),
        r.0 == if r.1 {
            RunStatus::Cancelled
        } else {
            status
        },
{
    if status.is_active() {
        (RunStatus::Cancelled, true)
    } else {
        (status, false)
    }
}

/// The status a run takes when its investigation ends: a cancelled run stays
/// cancelled (`None`: nothing is recorded), otherwise completed or failed.
pub fn completion_status(current: RunStatus, succeeded: bool) -> (r: Option<RunStatus>)
    ensures
        current == RunStatus::Cancelled ==> r is None,
        current != RunStatus::Cancelled ==> r == Some(
            if succeeded {
                RunStatus::Completed
            } else {
                RunStatus::Failed
            },
        ),
{
    if current == RunStatus::Cancelled {
        None
    } else if succeeded {
        Some(RunStatus::Completed)
    } else {
        Some(RunStatus::Failed)
    }
}

// ---------------------------------------------------------------------------
// Configuration
// ---------------------------------------------------------------------------

/// Server configuration for `wraithrun serve`.
#[derive(Debug)]
pub struct ServerConfig {
    pub port: u16,
    /// Bind address; always the loopback address.
    pub bind_addr: [u8; 4],
    pub max_concurrent_runs: usize,
    pub api_token: String,
    pub max_request_body_bytes: usize,
    pub database_path: Option<String>,
    pub audit_log_path: Option<String>,
    pub plugin_tool_names: Vec<String>,
}

/// A fresh random token: `Uuid::new_v4().to_string()` from the `uuid` crate.  Which
/// token comes out is chance; every token is a version-4 UUID (random bytes with the
/// version and variant bits set) in its hyphenated lower-case text.
#[verifier::external_body]
pub(crate) fn random_token() -> (r: String)
    ensures
        crate::digest::is_v4_uuid_text(r@),
{
    uuid::Uuid::new_v4().to_string()
}

impl Default for ServerConfig {
    /// Port 8080 on the loopback address, four concurrent runs, 1 MiB request bodies, no
    /// database or audit file, no plugins, and a random API token: a fresh version-4
    /// UUID text of 36 characters.
    fn default() -> (r: ServerConfig)
        ensures
            crate::digest::is_v4_uuid_text(r.api_token@),
            r.api_token@.len() == 36,
            r.port == 8080,
            r.bind_addr@ == seq![127u8, 0u8, 0u8, 1u8],
            r.max_concurrent_runs == 4,
            r.max_request_body_bytes == 1048576,
            r.database_path is None,
            r.audit_log_path is None,
            r.plugin_tool_names@.len() == 0,
    {
        let r = ServerConfig {
            port: 8080,
            bind_addr: [127, 0, 0, 1],
            max_concurrent_runs: 4,
            api_token: random_token(),
            max_request_body_bytes: 1048576,
            database_path: None,
            audit_log_path: None,
            plugin_tool_names: Vec::new(),
        };
        assert(r.bind_addr@ =~= seq![127u8, 0u8, 0u8, 1u8]);
        proof {
            crate::digest::lemma_v4_uuid_text_len(r.api_token@);
        }
        r
    }
}

/// Investigation steps when a run request names none.
pub fn default_max_steps() -> (r: usize)
    ensures
        r == 8,
{
    8
}

/// Audit events returned when a query names no limit.
pub fn default_audit_limit() -> (r: usize)
    ensures
        r == 100,
{
    100
}

// ---------------------------------------------------------------------------
// Authentication
// ---------------------------------------------------------------------------

/// What the bearer-token check decides for a request.
#[derive(Debug)]
pub enum AuthDecision {
    Accept,
    /// Refused with this reason, which is both the error and the audit detail.
    Reject(String),
}

/// A request is accepted when its `Authorization` header is `Bearer ` followed by
/// exactly the configured token.
pub open spec fn auth_spec(header: Option<Seq<char>>, expected: Seq<char>) -> Option<Seq<char>> {
    match header {
        Some(h) => if starts_with_seq(h, "Bearer "@) {
            if h.skip(7) == expected {
                None
            } else {
                Some("invalid bearer token"@)
            }
        } else {
            Some("missing or malformed Authorization header"@)
        },
        None => Some("missing or malformed Authorization header"@),
    }
}

/// Checks a request's `Authorization` header against the API token.
pub fn authorize(header: Option<&str>, expected: &str) -> (r: AuthDecision)
    ensures
        match auth_spec(
            match header {
                Some(h) => Some(h@),
                None => None,
            },
            expected@,
        ) {
            None => r is Accept,
            Some(reason) => r matches AuthDecision::Reject(s) && s@ == reason,
        },
{
    proof {
        reveal_strlit("Bearer ");
    }
    match header {
        Some(h) => {
            let hc = chars_of(h);
            if crate::text::starts_with(&hc, &chars_of("Bearer ")) {
                let token = slice_chars(&hc, 7, hc.len());
                assert(token@ =~= hc@.skip(7));
                if chars_eq(&token, &chars_of(expected)) {
                    AuthDecision::Accept
                } else {
                    AuthDecision::Reject(lit("invalid bearer token"))
                }
            } else {
                AuthDecision::Reject(lit("missing or malformed Authorization header"))
            }
        },
        None => AuthDecision::Reject(lit("missing or malformed Authorization header")),
    }
}

// ---------------------------------------------------------------------------
// Requests
// ---------------------------------------------------------------------------

/// An API error: the HTTP status code and the message.
#[derive(Debug)]
pub struct ApiError {
    pub status: u16,
    pub error: String,
}

/// A run request is accepted with its task trimmed, unless the task is blank (400) or
/// the concurrency limit is reached (429).
pub open spec fn run_request_spec(task: Seq<char>, active: nat, max: nat) -> Result<Seq<char>, (u16, Seq<char>)> {
    if trim(task).len() == 0 {
        Err((400, "task must not be empty"@))
    } else if active >= max {
        Err((429, "max concurrent runs ("@ + dec(max) + ") reached"@))
    } else {
        Ok(trim(task))
    }
}

/// Validates a run request (see [`run_request_spec`]).
pub fn validate_run_request(task: &str, active_runs: usize, max_concurrent_runs: usize) -> (r: Result<String, ApiError>)
    ensures
        match run_request_spec(task@, active_runs as nat, max_concurrent_runs as nat) {
            Ok(t) => r matches Ok(s) && s@ == t,
            Err((code, msg)) => r matches Err(e) && e.status == code && e.error@ == msg,
        },
{
    let t = trim_str(task);
    if t.len() == 0 {
        return Err(ApiError { status: 400, error: lit("task must not be empty") });
    }
    if active_runs >= max_concurrent_runs {
        let mut msg = chars_of("max concurrent runs (");
        let d = usize_dec(max_concurrent_runs);
        push_all(&mut msg, &d);
        push_str(&mut msg, ") reached");
        return Err(ApiError { status: 429, error: string_of(&msg) });
    }
    Ok(string_of(&t))
}

/// A case title is accepted trimmed, unless it is blank (400).
pub fn validate_case_title(title: &str) -> (r: Result<String, ApiError>)
    ensures
        trim(title@).len() == 0 ==> (r matches Err(e) && e.status == 400 && e.error@
            == "title must not be empty"@),
        trim(title@).len() > 0 ==> (r matches Ok(s) && s@ == trim(title@)),
{
    let t = trim_str(title);
    if t.len() == 0 {
        return Err(ApiError { status: 400, error: lit("title must not be empty") });
    }
    Ok(string_of(&t))
}

/// The editable fields of a case.
#[derive(Debug)]
pub struct CaseFields {
    pub title: String,
    pub description: Option<String>,
    pub status: CaseStatus,
    pub updated_at: String,
}

/// Applies a case update: a given title must not be blank and is stored trimmed; a
/// given description or status replaces the old one; the update time is set.
pub fn apply_case_update(
    case: CaseFields,
    title: Option<&str>,
    description: Option<String>,
    status: Option<CaseStatus>,
    now: String,
) -> (r: Result<CaseFields, ApiError>)
    ensures
        match title {
            Some(t) => trim(t@).len() == 0,
            None => false,
        } ==> (r matches Err(e) && e.status == 400 && e.error@ == "title must not be empty"@),
        !match title {
            Some(t) => trim(t@).len() == 0,
            None => false,
        } ==> (r matches Ok(c) && c.title@ == match title {
            Some(t) => trim(t@),
            None => case.title@,
        } && c.description == match description {
            Some(d) => Some(d),
            None => case.description,
        } && c.status == match status {
            Some(s) => s,
            None => case.status,
        } && c.updated_at == now),
{
    let mut c = case;
    if let Some(t) = title {
        let v = validate_case_title(t);
        match v {
            Ok(s) => {
                c.title = s;
            },
            Err(e) => {
                return Err(e);
            },
        }
    }
    if let Some(d) = description {
        c.description = Some(d);
    }
    if let Some(s) = status {
        c.status = s;
    }
    c.updated_at = now;
    Ok(c)
}

// ---------------------------------------------------------------------------
// Audit trail
// ---------------------------------------------------------------------------

/// All auditable event types.
#[derive(Clone, Copy, Debug, PartialEq, Eq, Structural)]
pub enum AuditEventKind {
    AuthSuccess,
    AuthFailure,
    RunCreated,
    RunCompleted,
    RunFailed,
    RunCancelled,
    CaseCreated,
    CaseUpdated,
    ToolExecuted,
    ToolPolicyDenied,
    ServerStarted,
    ServerStopped,
}

pub open spec fn event_kind_text(k: AuditEventKind) -> Seq<char> {
    match k {
        AuditEventKind::AuthSuccess => "auth_success"@,
        AuditEventKind::AuthFailure => "auth_failure"@,
        AuditEventKind::RunCreated => "run_created"@,
        AuditEventKind::RunCompleted => "run_completed"@,
        AuditEventKind::RunFailed => "run_failed"@,
        AuditEventKind::RunCancelled => "run_cancelled"@,
        AuditEventKind::CaseCreated => "case_created"@,
        AuditEventKind::CaseUpdated => "case_updated"@,
        AuditEventKind::ToolExecuted => "tool_executed"@,
        AuditEventKind::ToolPolicyDenied => "tool_policy_denied"@,
        AuditEventKind::ServerStarted => "server_started"@,
        AuditEventKind::ServerStopped => "server_stopped"@,
    }
}

impl AuditEventKind {
    /// The event's name in the audit log.
    pub fn token(self) -> (r: &'static str)
        ensures
            r@ == event_kind_text(self),
    {
        match self {
            AuditEventKind::AuthSuccess => "auth_success",
            AuditEventKind::AuthFailure => "auth_failure",
            AuditEventKind::RunCreated => "run_created",
            AuditEventKind::RunCompleted => "run_completed",
            AuditEventKind::RunFailed => "run_failed",
            AuditEventKind::RunCancelled => "run_cancelled",
            AuditEventKind::CaseCreated => "case_created",
            AuditEventKind::CaseUpdated => "case_updated",
            AuditEventKind::ToolExecuted => "tool_executed",
            AuditEventKind::ToolPolicyDenied => "tool_policy_denied",
            AuditEventKind::ServerStarted => "server_started",
            AuditEventKind::ServerStopped => "server_stopped",
        }
    }
}

/// A structured audit event.
#[derive(Debug)]
pub struct AuditEvent {
    /// When the event happened, as ISO-8601 UTC text.
    pub timestamp: String,
    pub event: AuditEventKind,
    /// Who acted, such as `api-token:default` or `system`.
    pub actor: String,
    /// What was acted on, such as `run/<id>` or `auth`.
    pub resource: String,
    /// Event-specific details, each a string.
    pub details: Vec<(String, JsonValue)>,
}

/// Builds an event stamped with the current time.
pub fn audit_event(event: AuditEventKind, actor: &str, resource: &str, details: Vec<(String, JsonValue)>) -> (r: AuditEvent)
    ensures
        r.event == event,
        r.actor@ == actor@,
        r.resource@ == resource@,
        r.details == details,
        exists|secs: u64| r.timestamp@ == crate::time::iso8601(secs as nat),
{
    AuditEvent {
        timestamp: crate::time::chrono_now(),
        event,
        actor: lit(actor),
        resource: lit(resource),
        details,
    }
}

/// A details map from key-value pairs, in order.
pub fn details(pairs: &Vec<(&str, &str)>) -> (r: Vec<(String, JsonValue)>)
    ensures
        r@.len() == pairs@.len(),
        forall|i: int| 0 <= i < pairs@.len() ==> is_str_member(#[trigger] r@[i], pairs@[i].0@, pairs@[i].1@),
{
    let mut out: Vec<(String, JsonValue)> = Vec::new();
    let mut i: usize = 0;
    while i < pairs.len()
        invariant
            i <= pairs@.len(),
            out@.len() == i,
            forall|k: int| 0 <= k < i ==> is_str_member(#[trigger] out@[k], pairs@[k].0@, pairs@[k].1@),
        decreases pairs@.len() - i,
    {
        let (k, v) = pairs[i];
        out.push(str_member(k, v));
        i = i + 1;
    }
    out
}

/// Configuration for the audit log.
#[derive(Debug)]
pub struct AuditLogConfig {
    /// The file events are appended to, when there is one.
    pub file_path: Option<String>,
    /// How many events the in-memory buffer keeps; 10 000 when not set.
    pub max_buffer: Option<usize>,
}

impl Default for AuditLogConfig {
    /// No file and the default buffer size.
    fn default() -> (r: AuditLogConfig)
        ensures
            r.file_path is None,
            r.max_buffer is None,
    {
        AuditLogConfig { file_path: None, max_buffer: None }
    }
}

/// The in-memory audit trail: the most recent events, oldest first, at most
/// `max_buffer` of them.
#[derive(Debug)]
pub struct AuditBuffer {
    events: Vec<AuditEvent>,
    max_buffer: usize,
}

impl AuditBuffer {
    /// A buffer never holds more events than its capacity.
    #[verifier::type_invariant]
    closed spec fn within_capacity(self) -> bool {
        self.events@.len() <= self.max_buffer
    }

    /// The events held, oldest first.
    pub closed spec fn contents(&self) -> Seq<AuditEvent> {
        self.events@
    }

    /// How many events the buffer keeps at most.
    pub closed spec fn capacity(&self) -> nat {
        self.max_buffer as nat
    }

    /// An empty buffer keeping as many events as the configuration says, 10 000 by
    /// default.
    pub fn new(config: &AuditLogConfig) -> (r: AuditBuffer)
        ensures
            r.contents().len() == 0,
            r.capacity() == match config.max_buffer {
                Some(n) => n as nat,
                None => 10000nat,
            },
    {
        let max_buffer = match config.max_buffer {
            Some(n) => n,
            None => 10000,
        };
        AuditBuffer { events: Vec::new(), max_buffer }
    }

    /// An empty buffer of the default size.
    pub fn in_memory() -> (r: AuditBuffer)
        ensures
            r.contents().len() == 0,
            r.capacity() == 10000,
    {
        AuditBuffer { events: Vec::new(), max_buffer: 10000 }
    }

    /// The buffer's capacity.
    pub fn max_buffer(&self) -> (r: usize)
        ensures
            r as nat == self.capacity(),
    {
        self.max_buffer
    }

    /// Records an event; when the buffer is full the oldest event is dropped first.
    pub fn emit(&mut self, event: AuditEvent)
        requires
            old(self).capacity() > 0,
        ensures
            final(self).capacity() == old(self).capacity(),
            final(self).contents().len() <= final(self).capacity(),
            final(self).contents() == if old(self).contents().len() >= old(self).capacity() {
                old(self).contents().drop_first().push(event)
            } else {
                old(self).contents().push(event)
            },
    {
        proof {
            use_type_invariant(&*self);
        }
        let mut events: Vec<AuditEvent> = Vec::new();
        std::mem::swap(&mut events, &mut self.events);
        if events.len() >= self.max_buffer {
            let _ = events.remove(0);
        }
        events.push(event);
        self.events = events;
    }

    /// How many events the buffer holds.
    pub fn event_count(&self) -> (r: usize)
        ensures
            r as nat == self.contents().len(),
            r as nat <= self.capacity(),
    {
        proof {
            use_type_invariant(self);
        }
        self.events.len()
    }

    /// The indices of the most recent `limit` events, oldest first: events from
    /// `recent_start(limit)` on.
    pub fn recent_start(&self, limit: usize) -> (r: usize)
        ensures
            r as nat == if self.contents().len() >= limit {
                (self.contents().len() - limit) as nat
            } else {
                0nat
            },
    {
        if self.events.len() >= limit {
            self.events.len() - limit
        } else {
            0
        }
    }

    /// The event at a position, oldest first.
    pub fn event_at(&self, i: usize) -> (r: &AuditEvent)
        requires
            i < self.contents().len(),
        ensures
            *r == self.contents()[i as int],
    {
        &self.events[i]
    }
}

/// A buffer never holds more events than its capacity, whatever was emitted.
pub proof fn lemma_audit_bounded(before: Seq<AuditEvent>, cap: nat, event: AuditEvent)
    requires
        before.len() <= cap,
        cap > 0,
    ensures
        (if before.len() >= cap {
            before.drop_first().push(event)
        } else {
            before.push(event)
        }).len() <= cap,
        (if before.len() >= cap {
            before.drop_first().push(event)
        } else {
            before.push(event)
        }).last() == event,
{
}

} // verus!
