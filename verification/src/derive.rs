//! Derivation of severity-scored findings from the observations of agent turns.
use vstd::prelude::*;

use crate::confidence::{
    confidence_from_count_with_factors, count_confidence, count_factors, fixed_confidence_factor,
    fixed_factors,
};
use crate::json::{get_array, get_bool, get_str, get_u64, get_u64_or_zero, JsonValue};
use crate::model::{
    clone_opt_string, clone_string, confidence_label_spec, confidence_to_label, factor_views,
    finding_views, opt_view, AgentTurn, ConfidenceFactor, EvidencePointer, FactorView, Finding,
    FindingRelevance, FindingSeverity, FindingView, PointerView,
};
use crate::text::{
    ascii_lower, chars_eq, chars_eq_str, chars_of, contains_seq, contains_str, dec, dec_chars,
    join, join_chars, push_all, push_str, string_of, to_ascii_lower, trim, trim_str, usize_dec,
    views,
};

verus! {

// ---------------------------------------------------------------------------
// Shapes of findings
// ---------------------------------------------------------------------------

/// A freshly derived finding: label from its confidence, primary relevance.
pub open spec fn fv(
    title: Seq<char>,
    severity: FindingSeverity,
    confidence: nat,
    factors: Seq<FactorView>,
    turn: Option<usize>,
    tool: Option<Seq<char>>,
    field: Seq<char>,
    action: Seq<char>,
) -> FindingView {
    FindingView {
        title,
        severity,
        confidence,
        label: confidence_label_spec(confidence),
        factors,
        relevance: FindingRelevance::Primary,
        pointer: PointerView { turn, tool, field },
        action,
    }
}

/// A finding scored from a count by [`count_confidence`].
pub open spec fn counted(
    title: Seq<char>,
    severity: FindingSeverity,
    base: nat,
    count: nat,
    slope: nat,
    ceiling: nat,
    factor_field: Seq<char>,
    turn: usize,
    tool: Option<Seq<char>>,
    field: Seq<char>,
    action: Seq<char>,
) -> FindingView {
    fv(
        title,
        severity,
        count_confidence(base, count, slope, ceiling),
        count_factors(base, count, slope, ceiling, factor_field),
        Some(turn),
        tool,
        field,
        action,
    )
}

pub open spec fn opt_findings(o: Option<Finding>) -> Seq<FindingView> {
    match o {
        Some(f) => seq![f@],
        None => seq![],
    }
}

/// `"title (n)"`.
pub open spec fn titled(prefix: Seq<char>, n: nat, suffix: Seq<char>) -> Seq<char> {
    prefix + dec(n) + suffix
}

pub open spec fn bool_text(b: bool) -> Seq<char> {
    if b {
        "true"@
    } else {
        "false"@
    }
}

// ---------------------------------------------------------------------------
// Text summaries of observation arrays
// ---------------------------------------------------------------------------

/// The string elements of an array, in order.
pub open spec fn strs_of(arr: Seq<JsonValue>) -> Seq<Seq<char>>
    decreases arr.len(),
{
    if arr.len() == 0 {
        seq![]
    } else {
        let rest = strs_of(arr.drop_last());
        match arr.last() {
            JsonValue::Str(s) => rest.push(s@),
            _ => rest,
        }
    }
}

/// The entry text of each persistence record: its `entry` string member, or the element
/// itself when it is a string.
pub open spec fn entry_strs(arr: Seq<JsonValue>) -> Seq<Seq<char>>
    decreases arr.len(),
{
    if arr.len() == 0 {
        seq![]
    } else {
        let rest = entry_strs(arr.drop_last());
        match get_str(arr.last(), "entry"@) {
            Some(s) => rest.push(s),
            None => match arr.last() {
                JsonValue::Str(s) => rest.push(s@),
                _ => rest,
            },
        }
    }
}

pub open spec fn min_len(n: nat, max: nat) -> int {
    if n < max {
        n as int
    } else {
        max as int
    }
}

/// The first `max` items joined by `sep`, with `" and N more"` when the array held more
/// than `max` elements; empty when there is no item.
pub open spec fn list_summary(items: Seq<Seq<char>>, total: nat, max: nat, sep: Seq<char>) -> Seq<
    char,
> {
    if items.len() == 0 {
        seq![]
    } else {
        let shown = items.take(min_len(items.len(), max));
        if total > max {
            join(shown, sep) + " and "@ + dec((total - max) as nat) + " more"@
        } else {
            join(shown, sep)
        }
    }
}

/// Summary of a string array member (`item1, item2, item3 and N more`).
pub open spec fn string_list_summary(obs: JsonValue, field: Seq<char>, max: nat) -> Seq<char> {
    match get_array(obs, field) {
        Some(arr) => list_summary(strs_of(arr), arr.len(), max, ", "@),
        None => seq![],
    }
}

/// Summary of a persistence-entry array member (`e1; e2; e3 and N more`).
pub open spec fn persistence_summary(obs: JsonValue, field: Seq<char>, max: nat) -> Seq<char> {
    match get_array(obs, field) {
        Some(arr) => list_summary(entry_strs(arr), arr.len(), max, "; "@),
        None => seq![],
    }
}

/// One SSH directory record: `dir (authorized_keys: bool)`.
pub open spec fn ssh_dir_item(d: JsonValue) -> Seq<char> {
    let dir = match get_str(d, "ssh_dir"@) {
        Some(s) => s,
        None => "?"@,
    };
    let has = match get_bool(d, "has_authorized_keys"@) {
        Some(b) => b,
        None => false,
    };
    dir + " (authorized_keys: "@ + bool_text(has) + ")"@
}

pub open spec fn ssh_items(dirs: Seq<JsonValue>) -> Seq<Seq<char>> {
    Seq::new(min_len(dirs.len(), 3) as nat, |i: int| ssh_dir_item(dirs[i]))
}

/// Summary of the `directories` array of an SSH key observation.
pub open spec fn ssh_detail(obs: JsonValue) -> Seq<char> {
    match get_array(obs, "directories"@) {
        Some(dirs) => if dirs.len() > 3 {
            join(ssh_items(dirs), ", "@) + " and "@ + dec((dirs.len() - 3) as nat) + " more"@
        } else {
            join(ssh_items(dirs), ", "@)
        },
        None => seq![],
    }
}

/// A log line that mentions (in any ASCII case) error, failed, denied, unauthorized or
/// suspicious.
pub open spec fn suspicious_line(s: Seq<char>) -> bool {
    let l = ascii_lower(s);
    contains_seq(l, "error"@) || contains_seq(l, "failed"@) || contains_seq(l, "denied"@)
        || contains_seq(l, "unauthorized"@) || contains_seq(l, "suspicious"@)
}

/// The number of string elements that are suspicious log lines.
pub open spec fn suspicious_count(arr: Seq<JsonValue>) -> nat
    decreases arr.len(),
{
    if arr.len() == 0 {
        0
    } else {
        suspicious_count(arr.drop_last()) + match arr.last() {
            JsonValue::Str(s) => if suspicious_line(s@) {
                1nat
            } else {
                0nat
            },
            _ => 0nat,
        }
    }
}

// ---------------------------------------------------------------------------
// Derivation rules, one per observation signal
// ---------------------------------------------------------------------------

pub open spec fn error_rule(t: usize, tool: Option<Seq<char>>, obs: JsonValue) -> Seq<FindingView> {
    match get_str(obs, "error"@) {
        Some(err) => {
            let label = match tool {
                Some(x) => x,
                None => "unknown_tool"@,
            };
            seq![
                fv(
                    "Tool execution failed for "@ + label,
                    FindingSeverity::High,
                    95,
                    fixed_factors(95, "tool execution error is unambiguous"@),
                    Some(t),
                    tool,
                    "observation.error"@,
                    "Review tool arguments and host access policy, then rerun "@ + label
                        + ". Error sample: "@ + err,
                ),
            ]
        },
        None => seq![],
    }
}

pub open spec fn indicator_rule(t: usize, tool: Option<Seq<char>>, obs: JsonValue) -> Seq<
    FindingView,
> {
    match get_u64(obs, "indicator_count"@) {
        Some(n) => if n > 0 {
            seq![
                counted(
                    titled("Privilege escalation indicators detected ("@, n as nat, ")"@),
                    if n >= 8 {
                        FindingSeverity::High
                    } else if n >= 4 {
                        FindingSeverity::Medium
                    } else {
                        FindingSeverity::Low
                    },
                    550,
                    n as nat,
                    50,
                    920,
                    "indicator_count"@,
                    t,
                    tool,
                    "observation.indicator_count"@,
                    "Review potential_vectors and verify whether elevated rights are expected; revoke or constrain unexpected grants."@,
                ),
            ]
        } else {
            seq![]
        },
        None => seq![],
    }
}

pub open spec fn listener_rule(t: usize, tool: Option<Seq<char>>, obs: JsonValue) -> Seq<
    FindingView,
> {
    match get_u64(obs, "listener_count"@) {
        Some(n) => if n > 0 {
            seq![
                counted(
                    titled("Active listening sockets observed ("@, n as nat, ")"@),
                    if n >= 250 {
                        FindingSeverity::High
                    } else if n >= 150 {
                        FindingSeverity::Medium
                    } else if n >= 50 {
                        FindingSeverity::Low
                    } else {
                        FindingSeverity::Info
                    },
                    500,
                    n as nat,
                    1,
                    800,
                    "listener_count"@,
                    t,
                    tool,
                    "observation.listener_count"@,
                    "Correlate listener PIDs and ports with expected services; investigate unknown listeners and expose only required interfaces."@,
                ),
            ]
        } else {
            seq![]
        },
        None => seq![],
    }
}

pub open spec fn baseline_rule(t: usize, tool: Option<Seq<char>>, obs: JsonValue) -> Seq<
    FindingView,
> {
    match get_str(obs, "baseline_version"@) {
        Some(v) => seq![
            fv(
                "Coverage baseline captured ("@ + dec(
                    get_u64_or_zero(obs, "baseline_entries_count"@) as nat,
                ) + " persistence entries, "@ + dec(
                    get_u64_or_zero(obs, "baseline_privileged_account_count"@) as nat,
                ) + " privileged accounts, "@ + dec(
                    get_u64_or_zero(obs, "baseline_exposed_binding_count"@) as nat,
                ) + " exposed bindings)"@,
                FindingSeverity::Info,
                90,
                fixed_factors(90, "baseline capture is a deterministic snapshot"@),
                Some(t),
                tool,
                "observation.baseline_version"@,
                "Store baseline arrays from this "@ + v
                    + " snapshot and supply them to coverage tools in subsequent runs to detect drift."@,
            ),
        ],
        None => seq![],
    }
}

pub open spec fn persistence_rule(t: usize, tool: Option<Seq<char>>, obs: JsonValue) -> Seq<
    FindingView,
> {
    let a = get_u64_or_zero(obs, "actionable_suspicious_count"@);
    let s = get_u64_or_zero(obs, "suspicious_entry_count"@);
    if a > 0 || s > 0 {
        let n: nat = if a > 0 {
            a as nat
        } else {
            s as nat
        };
        let severity = if n >= 8 {
            FindingSeverity::High
        } else if n >= 3 {
            FindingSeverity::Medium
        } else {
            FindingSeverity::Low
        };
        let detail_field = if a > 0 {
            "actionable_suspicious_entries"@
        } else {
            "suspicious_entries"@
        };
        let detail = persistence_summary(obs, detail_field, 3);
        let head = if a > 0 {
            titled("Actionable suspicious persistence entries detected ("@, n, ")"@)
        } else {
            titled("Suspicious persistence entries detected ("@, n, ")"@)
        };
        let title = if detail.len() == 0 {
            head
        } else {
            head + ": "@ + detail
        };
        let field = if a > 0 {
            "observation.actionable_suspicious_count"@
        } else {
            "observation.suspicious_entry_count"@
        };
        seq![
            counted(
                title,
                severity,
                700,
                n,
                50,
                950,
                field,
                t,
                tool,
                field,
                "Review persistence entries for unauthorized startup references, remove unapproved autoruns, and preserve forensic artifacts before cleanup."@,
            ),
        ]
    } else {
        seq![]
    }
}

pub open spec fn baseline_new_rule(t: usize, tool: Option<Seq<char>>, obs: JsonValue) -> Seq<
    FindingView,
> {
    match get_u64(obs, "baseline_new_count"@) {
        Some(n) => if n > 0 {
            seq![
                counted(
                    titled("Persistence baseline drift detected ("@, n as nat, " new entries)"@),
                    if n >= 8 {
                        FindingSeverity::High
                    } else {
                        FindingSeverity::Medium
                    },
                    690,
                    n as nat,
                    40,
                    940,
                    "baseline_new_count"@,
                    t,
                    tool,
                    "observation.baseline_new_count"@,
                    "Compare baseline_new_entries against approved software changes and investigate unexpected startup additions for persistence abuse."@,
                ),
            ]
        } else {
            seq![]
        },
        None => seq![],
    }
}

pub open spec fn non_default_rule(t: usize, tool: Option<Seq<char>>, obs: JsonValue) -> Seq<
    FindingView,
> {
    match get_u64(obs, "non_default_privileged_account_count"@) {
        Some(n) => if n > 0 {
            let detail = string_list_summary(obs, "non_default_privileged_accounts"@, 3);
            let head = titled("Non-default privileged accounts observed ("@, n as nat, ")"@);
            seq![
                counted(
                    if detail.len() == 0 {
                        head
                    } else {
                        head + ": "@ + detail
                    },
                    if n >= 5 {
                        FindingSeverity::High
                    } else if n >= 3 {
                        FindingSeverity::Medium
                    } else {
                        FindingSeverity::Low
                    },
                    550,
                    n as nat,
                    60,
                    920,
                    "non_default_privileged_account_count"@,
                    t,
                    tool,
                    "observation.non_default_privileged_account_count"@,
                    "Validate each non-default privileged account against approved access records; revoke unauthorized role grants and rotate exposed credentials."@,
                ),
            ]
        } else {
            seq![]
        },
        None => seq![],
    }
}

pub open spec fn newly_privileged_rule(t: usize, tool: Option<Seq<char>>, obs: JsonValue) -> Seq<
    FindingView,
> {
    match get_u64(obs, "newly_privileged_account_count"@) {
        Some(n) => if n > 0 {
            seq![
                counted(
                    titled(
                        "Privileged account baseline drift detected ("@,
                        n as nat,
                        " new account(s))"@,
                    ),
                    if n >= 3 {
                        FindingSeverity::Critical
                    } else {
                        FindingSeverity::High
                    },
                    780,
                    n as nat,
                    40,
                    970,
                    "newly_privileged_account_count"@,
                    t,
                    tool,
                    "observation.newly_privileged_account_count"@,
                    "Validate each newly privileged account against approved access changes, disable unauthorized grants, and rotate impacted credentials."@,
                ),
            ]
        } else {
            seq![]
        },
        None => seq![],
    }
}

pub open spec fn unapproved_rule(t: usize, tool: Option<Seq<char>>, obs: JsonValue) -> Seq<
    FindingView,
> {
    match get_u64(obs, "unapproved_privileged_account_count"@) {
        Some(n) => if n > 0 {
            seq![
                counted(
                    titled("Unapproved privileged accounts detected ("@, n as nat, ")"@),
                    FindingSeverity::Critical,
                    800,
                    n as nat,
                    40,
                    980,
                    "unapproved_privileged_account_count"@,
                    t,
                    tool,
                    "observation.unapproved_privileged_account_count"@,
                    "Escalate immediately: remove unapproved privileged memberships, confirm identity ownership, and collect IAM audit evidence."@,
                ),
            ]
        } else {
            seq![]
        },
        None => seq![],
    }
}

pub open spec fn exposed_rule(t: usize, tool: Option<Seq<char>>, obs: JsonValue) -> Seq<
    FindingView,
> {
    match get_u64(obs, "externally_exposed_count"@) {
        Some(n) => if n > 0 {
            seq![
                counted(
                    titled("Externally exposed listening endpoints observed ("@, n as nat, ")"@),
                    if n >= 10 {
                        FindingSeverity::High
                    } else {
                        FindingSeverity::Medium
                    },
                    660,
                    n as nat,
                    30,
                    930,
                    "externally_exposed_count"@,
                    t,
                    tool,
                    "observation.externally_exposed_count"@,
                    "Confirm process ownership and necessity of exposed listeners; close or firewall unnecessary bindings and monitor for reappearance."@,
                ),
            ]
        } else {
            seq![]
        },
        None => seq![],
    }
}

pub open spec fn high_risk_rule(t: usize, tool: Option<Seq<char>>, obs: JsonValue) -> Seq<
    FindingView,
> {
    match get_u64(obs, "high_risk_exposed_count"@) {
        Some(n) => if n > 0 {
            seq![
                counted(
                    titled("High-risk process listeners exposed externally ("@, n as nat, ")"@),
                    if n >= 2 {
                        FindingSeverity::Critical
                    } else {
                        FindingSeverity::High
                    },
                    760,
                    n as nat,
                    40,
                    970,
                    "high_risk_exposed_count"@,
                    t,
                    tool,
                    "observation.high_risk_exposed_count"@,
                    "Prioritize containment for high-risk exposed processes, validate command-line lineage, and restrict inbound access immediately."@,
                ),
            ]
        } else {
            seq![]
        },
        None => seq![],
    }
}

pub open spec fn unknown_exposed_rule(t: usize, tool: Option<Seq<char>>, obs: JsonValue) -> Seq<
    FindingView,
> {
    match get_u64(obs, "unknown_exposed_process_count"@) {
        Some(n) => if n > 0 {
            seq![
                counted(
                    titled(
                        "Unexpected exposed processes relative to expected allowlist ("@,
                        n as nat,
                        ")"@,
                    ),
                    FindingSeverity::High,
                    720,
                    n as nat,
                    40,
                    950,
                    "unknown_exposed_process_count"@,
                    t,
                    tool,
                    "observation.unknown_exposed_process_count"@,
                    "Reconcile unknown exposed processes against approved service inventory and close unapproved listeners through host firewall or service disablement."@,
                ),
            ]
        } else {
            seq![]
        },
        None => seq![],
    }
}

pub open spec fn risk_score_rule(t: usize, tool: Option<Seq<char>>, obs: JsonValue) -> Seq<
    FindingView,
> {
    match get_u64(obs, "network_risk_score"@) {
        Some(n) => if n >= 40 {
            seq![
                counted(
                    titled("Network exposure risk score exceeded threshold ("@, n as nat, ")"@),
                    if n >= 70 {
                        FindingSeverity::Critical
                    } else {
                        FindingSeverity::High
                    },
                    700,
                    n as nat,
                    2,
                    960,
                    "network_risk_score"@,
                    t,
                    tool,
                    "observation.network_risk_score"@,
                    "Escalate to incident triage: prioritize exposed services with highest risk contribution and verify baseline drift across process-network bindings."@,
                ),
            ]
        } else {
            seq![]
        },
        None => seq![],
    }
}

pub open spec fn hash_rule(t: usize, tool: Option<Seq<char>>, obs: JsonValue) -> Seq<FindingView> {
    match (get_str(obs, "path"@), get_str(obs, "sha256"@)) {
        (Some(path), Some(_)) => seq![
            fv(
                "File hash captured for "@ + path,
                FindingSeverity::Info,
                90,
                fixed_factors(90, "sha256 capture is deterministic"@),
                Some(t),
                tool,
                "observation.sha256"@,
                "Compare the hash against trusted baseline or threat-intel sources before taking containment action."@,
            ),
        ],
        _ => seq![],
    }
}

pub open spec fn ssh_rule(t: usize, tool: Option<Seq<char>>, obs: JsonValue) -> Seq<FindingView> {
    match get_u64(obs, "total_authorized_keys_files"@) {
        Some(a) => {
            let p = get_u64_or_zero(obs, "total_private_keys"@);
            let d = get_u64_or_zero(obs, "ssh_directories_scanned"@);
            if a > 0 || p > 0 {
                let detail = ssh_detail(obs);
                let head = "SSH keys found: "@ + dec(a as nat) + " authorized_keys file(s), "@ + dec(
                    p as nat,
                ) + " private key(s) across "@ + dec(d as nat) + " directory(ies)"@;
                seq![
                    counted(
                        if detail.len() == 0 {
                            head
                        } else {
                            head + " — "@ + detail
                        },
                        if a >= 3 {
                            FindingSeverity::High
                        } else if a >= 1 {
                            FindingSeverity::Medium
                        } else {
                            FindingSeverity::Low
                        },
                        720,
                        (a + p) as nat,
                        40,
                        940,
                        "total_authorized_keys_files"@,
                        t,
                        tool,
                        "observation.total_authorized_keys_files"@,
                        "Audit each authorized_keys file for unknown public keys; verify private key ownership and consider rotation for unattended keys."@,
                    ),
                ]
            } else {
                seq![
                    fv(
                        "No SSH keys found across "@ + dec(d as nat) + " directory(ies) scanned"@,
                        FindingSeverity::Info,
                        85,
                        fixed_factors(85, "absence of SSH keys is a deterministic observation"@),
                        Some(t),
                        tool,
                        "observation.ssh_directories_scanned"@,
                        "SSH key access is not configured on this host."@,
                    ),
                ]
            }
        },
        None => seq![],
    }
}

pub open spec fn lines_rule(t: usize, tool: Option<Seq<char>>, obs: JsonValue) -> Seq<FindingView> {
    match get_array(obs, "lines"@) {
        Some(lines) => {
            let hits = suspicious_count(lines);
            if hits > 0 {
                seq![
                    counted(
                        titled("Suspicious log keywords observed in "@, hits, " line(s)"@),
                        if hits >= 5 {
                            FindingSeverity::High
                        } else {
                            FindingSeverity::Medium
                        },
                        640,
                        hits,
                        50,
                        930,
                        "suspicious_log_lines"@,
                        t,
                        tool,
                        "observation.lines"@,
                        "Inspect matching log lines for account abuse or execution anomalies, then pivot to host and identity telemetry."@,
                    ),
                ]
            } else {
                seq![]
            }
        },
        None => seq![],
    }
}

/// The findings of one observation, in rule order; a tool error yields only the error
/// finding.
pub open spec fn observation_findings(t: usize, tool: Option<Seq<char>>, obs: JsonValue) -> Seq<
    FindingView,
> {
    if get_str(obs, "error"@) is Some {
        error_rule(t, tool, obs)
    } else {
        indicator_rule(t, tool, obs) + listener_rule(t, tool, obs) + baseline_rule(t, tool, obs)
            + persistence_rule(t, tool, obs) + baseline_new_rule(t, tool, obs) + non_default_rule(
            t,
            tool,
            obs,
        ) + newly_privileged_rule(t, tool, obs) + unapproved_rule(t, tool, obs) + exposed_rule(
            t,
            tool,
            obs,
        ) + high_risk_rule(t, tool, obs) + unknown_exposed_rule(t, tool, obs) + risk_score_rule(
            t,
            tool,
            obs,
        ) + hash_rule(t, tool, obs) + ssh_rule(t, tool, obs) + lines_rule(t, tool, obs)
    }
}

pub open spec fn turn_tool(turn: AgentTurn) -> Option<Seq<char>> {
    match turn.tool_call {
        Some(c) => Some(c.tool@),
        None => None,
    }
}

/// The findings of turn number `t` (one-based).
pub open spec fn turn_findings(t: usize, turn: AgentTurn) -> Seq<FindingView> {
    match turn.observation {
        Some(obs) => observation_findings(t, turn_tool(turn), obs),
        None => seq![],
    }
}

/// The findings of all turns, turn by turn.
pub open spec fn raw_findings(turns: Seq<AgentTurn>) -> Seq<FindingView>
    decreases turns.len(),
{
    if turns.len() == 0 {
        seq![]
    } else {
        raw_findings(turns.drop_last()) + turn_findings(turns.len() as usize, turns.last())
    }
}

/// The finding reported when no rule matched any observation.
pub open spec fn fallback_finding(final_answer: Seq<char>) -> FindingView {
    fv(
        "No high-confidence host findings derived from collected evidence"@,
        FindingSeverity::Info,
        55,
        fixed_factors(
            55,
            "fallback finding when no concrete observations matched derivation rules"@,
        ),
        None,
        None,
        "final_answer"@,
        if trim(final_answer).len() == 0 {
            "Review raw observations and rerun targeted task templates for deeper coverage."@
        } else {
            "Review the final answer and raw observations; rerun targeted task templates if analyst confidence is low."@
        },
    )
}

/// The tool names of findings that name a tool, in order.
pub open spec fn tool_list(fs: Seq<FindingView>) -> Seq<Seq<char>>
    decreases fs.len(),
{
    if fs.len() == 0 {
        seq![]
    } else {
        let rest = tool_list(fs.drop_last());
        match fs.last().pointer.tool {
            Some(t) => rest.push(t),
            None => rest,
        }
    }
}

/// First occurrences only.
pub open spec fn dedup_seq(s: Seq<Seq<char>>) -> Seq<Seq<char>>
    decreases s.len(),
{
    if s.len() == 0 {
        seq![]
    } else {
        let d = dedup_seq(s.drop_last());
        if d.contains(s.last()) {
            d
        } else {
            d.push(s.last())
        }
    }
}

/// The number of distinct tools that contributed findings.
pub open spec fn distinct_tool_count(fs: Seq<FindingView>) -> nat {
    dedup_seq(tool_list(fs)).len()
}

/// Corroboration bonus in thousandths: none for one tool, 0.03 for two, 0.05 for more.
pub open spec fn bonus_milli(n: nat) -> nat {
    if n <= 1 {
        0
    } else if n == 2 {
        30
    } else {
        50
    }
}

/// The corroboration adjustment of one finding when `n` tools contributed: tool findings
/// other than errors gain the bonus, capped at 0.99, with a factor recording what was
/// applied.
pub open spec fn corroborate(f: FindingView, n: nat) -> FindingView {
    let b = bonus_milli(n);
    if f.pointer.tool is Some && f.pointer.field != "observation.error"@ && b > 0 {
        let c = f.confidence + b / 10;
        let detail = dec(n) + " distinct tools contributed to this run"@;
        if c > 99 {
            FindingView {
                confidence: 99,
                factors: f.factors.push(
                    FactorView {
                        factor: "corroboration"@,
                        contribution: b - (c - 99) * 10,
                        detail,
                    },
                ),
                ..f
            }
        } else {
            FindingView {
                confidence: c,
                factors: f.factors.push(
                    FactorView { factor: "corroboration"@, contribution: b as int, detail },
                ),
                ..f
            }
        }
    } else {
        f
    }
}

pub open spec fn relabel(f: FindingView) -> FindingView {
    FindingView { label: confidence_label_spec(f.confidence), ..f }
}

/// The findings derived from a run: every rule over every observation, the fallback
/// finding when none matched, corroboration across tools, labels from confidences.
pub open spec fn derive_findings_spec(turns: Seq<AgentTurn>, final_answer: Seq<char>) -> Seq<
    FindingView,
> {
    let raw = raw_findings(turns);
    let base = if raw.len() == 0 {
        seq![fallback_finding(final_answer)]
    } else {
        raw
    };
    let n = distinct_tool_count(base);
    Seq::new(base.len(), |i: int| relabel(corroborate(base[i], n)))
}

// ---------------------------------------------------------------------------
// Executable derivation
// ---------------------------------------------------------------------------

fn make_finding(
    title: &Vec<char>,
    severity: FindingSeverity,
    confidence: u32,
    factors: Vec<ConfidenceFactor>,
    turn: Option<usize>,
    tool: &Option<String>,
    field: &Vec<char>,
    action: &Vec<char>,
) -> (r: Finding)
    ensures
        r@ == fv(
            title@,
            severity,
            confidence as nat,
            factor_views(factors@),
            turn,
            opt_view(*tool),
            field@,
            action@,
        ),
{
    let pointer = EvidencePointer {
        turn,
        tool: clone_opt_string(tool),
        field: string_of(field),
    };
    let f = Finding::new(string_of(title), severity, confidence, pointer, string_of(action));
    f.with_factors(factors)
}

fn counted_finding(
    title: &Vec<char>,
    severity: FindingSeverity,
    base: u32,
    count: u128,
    slope: u32,
    ceiling: u32,
    factor_field: &Vec<char>,
    turn: usize,
    tool: &Option<String>,
    field: &Vec<char>,
    action: &str,
) -> (r: Finding)
    requires
        base <= 1000,
        slope <= 1000,
        ceiling <= 1000,
        count <= u64::MAX as u128 * 2,
    ensures
        r@ == counted(
            title@,
            severity,
            base as nat,
            count as nat,
            slope as nat,
            ceiling as nat,
            factor_field@,
            turn,
            opt_view(*tool),
            field@,
            action@,
        ),
{
    let (conf, factors) = confidence_from_count_with_factors(
        base,
        count,
        slope,
        ceiling,
        factor_field,
    );
    let act = chars_of(action);
    make_finding(title, severity, conf, factors, Some(turn), tool, field, &act)
}

fn titled_chars(prefix: &str, n: u64, suffix: &str) -> (r: Vec<char>)
    ensures
        r@ == titled(prefix@, n as nat, suffix@),
{
    let mut t = chars_of(prefix);
    let d = dec_chars(n);
    push_all(&mut t, &d);
    push_str(&mut t, suffix);
    t
}

fn simple_counted_rule(
    key: &str,
    min: u64,
    prefix: &str,
    suffix: &str,
    sev_high: u64,
    sev_mid: u64,
    sev_low: u64,
    levels: (FindingSeverity, FindingSeverity, FindingSeverity, FindingSeverity),
    base: u32,
    slope: u32,
    ceiling: u32,
    factor_field: &str,
    t: usize,
    tool: &Option<String>,
    field: &str,
    action: &str,
    obs: &JsonValue,
) -> (r: Option<Finding>)
    requires
        base <= 1000,
        slope <= 1000,
        ceiling <= 1000,
    ensures
        opt_findings(r) == match get_u64(*obs, key@) {
            Some(n) => if n >= min {
                seq![
                    counted(
                        titled(prefix@, n as nat, suffix@),
                        if n >= sev_high {
                            levels.0
                        } else if n >= sev_mid {
                            levels.1
                        } else if n >= sev_low {
                            levels.2
                        } else {
                            levels.3
                        },
                        base as nat,
                        n as nat,
                        slope as nat,
                        ceiling as nat,
                        factor_field@,
                        t,
                        opt_view(*tool),
                        field@,
                        action@,
                    ),
                ]
            } else {
                seq![]
            },
            None => seq![],
        },
{
    match obs.get_u64(key) {
        Some(n) => {
            if n >= min {
                let sev = if n >= sev_high {
                    levels.0
                } else if n >= sev_mid {
                    levels.1
                } else if n >= sev_low {
                    levels.2
                } else {
                    levels.3
                };
                let title = titled_chars(prefix, n, suffix);
                let ff = chars_of(factor_field);
                let fl = chars_of(field);
                Some(
                    counted_finding(
                        &title,
                        sev,
                        base,
                        n as u128,
                        slope,
                        ceiling,
                        &ff,
                        t,
                        tool,
                        &fl,
                        action,
                    ),
                )
            } else {
                None
            }
        },
        None => None,
    }
}

fn error_rule_exec(t: usize, tool: &Option<String>, obs: &JsonValue) -> (r: Option<Finding>)
    ensures
        opt_findings(r) == error_rule(t, opt_view(*tool), *obs),
{
    match obs.get_str("error") {
        Some(err) => {
            let label = match tool {
                Some(x) => chars_of(x.as_str()),
                None => chars_of("unknown_tool"),
            };
            let mut title = chars_of("Tool execution failed for ");
            push_all(&mut title, &label);
            let mut action = chars_of("Review tool arguments and host access policy, then rerun ");
            push_all(&mut action, &label);
            push_str(&mut action, ". Error sample: ");
            let e = chars_of(err.as_str());
            push_all(&mut action, &e);
            let factors = fixed_confidence_factor(95, "tool execution error is unambiguous");
            let field = chars_of("observation.error");
            Some(
                make_finding(
                    &title,
                    FindingSeverity::High,
                    95,
                    factors,
                    Some(t),
                    tool,
                    &field,
                    &action,
                ),
            )
        },
        None => None,
    }
}

fn indicator_rule_exec(t: usize, tool: &Option<String>, obs: &JsonValue) -> (r: Option<Finding>)
    ensures
        opt_findings(r) == indicator_rule(t, opt_view(*tool), *obs),
        r matches Some(f) ==> indicator_ladder_ok(seq![f@], *obs),
{
    proof {
        lemma_indicator_rule_indicator(t, opt_view(*tool), *obs);
        reveal_strlit("observation.indicator_count");
    }
    simple_counted_rule(
        "indicator_count",
        1,
        "Privilege escalation indicators detected (",
        ")",
        8,
        4,
        0,
        (FindingSeverity::High, FindingSeverity::Medium, FindingSeverity::Low, FindingSeverity::Low),
        550,
        50,
        920,
        "indicator_count",
        t,
        tool,
        "observation.indicator_count",
        "Review potential_vectors and verify whether elevated rights are expected; revoke or constrain unexpected grants.",
        obs,
    )
}

fn listener_rule_exec(t: usize, tool: &Option<String>, obs: &JsonValue) -> (r: Option<Finding>)
    ensures
        opt_findings(r) == listener_rule(t, opt_view(*tool), *obs),
{
    simple_counted_rule(
        "listener_count",
        1,
        "Active listening sockets observed (",
        ")",
        250,
        150,
        50,
        (FindingSeverity::High, FindingSeverity::Medium, FindingSeverity::Low, FindingSeverity::Info),
        500,
        1,
        800,
        "listener_count",
        t,
        tool,
        "observation.listener_count",
        "Correlate listener PIDs and ports with expected services; investigate unknown listeners and expose only required interfaces.",
        obs,
    )
}

fn baseline_rule_exec(t: usize, tool: &Option<String>, obs: &JsonValue) -> (r: Option<Finding>)
    ensures
        opt_findings(r) == baseline_rule(t, opt_view(*tool), *obs),
{
    match obs.get_str("baseline_version") {
        Some(v) => {
            let e = obs.get_u64_or_zero("baseline_entries_count");
            let p = obs.get_u64_or_zero("baseline_privileged_account_count");
            let b = obs.get_u64_or_zero("baseline_exposed_binding_count");
            let mut title = chars_of("Coverage baseline captured (");
            let d = dec_chars(e);
            push_all(&mut title, &d);
            push_str(&mut title, " persistence entries, ");
            let d = dec_chars(p);
            push_all(&mut title, &d);
            push_str(&mut title, " privileged accounts, ");
            let d = dec_chars(b);
            push_all(&mut title, &d);
            push_str(&mut title, " exposed bindings)");
            let mut action = chars_of("Store baseline arrays from this ");
            let vc = chars_of(v.as_str());
            push_all(&mut action, &vc);
            push_str(
                &mut action,
                " snapshot and supply them to coverage tools in subsequent runs to detect drift.",
            );
            let factors = fixed_confidence_factor(90, "baseline capture is a deterministic snapshot");
            let field = chars_of("observation.baseline_version");
            Some(
                make_finding(
                    &title,
                    FindingSeverity::Info,
                    90,
                    factors,
                    Some(t),
                    tool,
                    &field,
                    &action,
                ),
            )
        },
        None => None,
    }
}

/// The string elements of an array.
fn strs_of_exec(arr: &Vec<JsonValue>) -> (r: Vec<Vec<char>>)
    ensures
        views(r@) == strs_of(arr@),
{
    let mut out: Vec<Vec<char>> = Vec::new();
    let mut i: usize = 0;
    assert(arr@.take(0) =~= Seq::<JsonValue>::empty());
    assert(views(out@) =~= Seq::<Seq<char>>::empty());
    while i < arr.len()
        invariant
            i <= arr@.len(),
            views(out@) == strs_of(arr@.take(i as int)),
        decreases arr@.len() - i,
    {
        assert(arr@.take(i + 1).drop_last() =~= arr@.take(i as int));
        assert(arr@.take(i + 1).last() == arr@[i as int]);
        match &arr[i] {
            JsonValue::Str(s) => {
                let c = chars_of(s.as_str());
                let ghost before = views(out@);
                out.push(c);
                assert(views(out@) =~= before.push(c@));
            },
            _ => {},
        }
        i = i + 1;
    }
    assert(arr@.take(arr@.len() as int) =~= arr@);
    out
}

/// The entry text of each persistence record.
fn entry_strs_exec(arr: &Vec<JsonValue>) -> (r: Vec<Vec<char>>)
    ensures
        views(r@) == entry_strs(arr@),
{
    let mut out: Vec<Vec<char>> = Vec::new();
    let mut i: usize = 0;
    assert(arr@.take(0) =~= Seq::<JsonValue>::empty());
    assert(views(out@) =~= Seq::<Seq<char>>::empty());
    while i < arr.len()
        invariant
            i <= arr@.len(),
            views(out@) == entry_strs(arr@.take(i as int)),
        decreases arr@.len() - i,
    {
        assert(arr@.take(i + 1).drop_last() =~= arr@.take(i as int));
        assert(arr@.take(i + 1).last() == arr@[i as int]);
        let ghost before = views(out@);
        match arr[i].get_str("entry") {
            Some(s) => {
                let c = chars_of(s.as_str());
                out.push(c);
                assert(views(out@) =~= before.push(c@));
            },
            None => match &arr[i] {
                JsonValue::Str(s) => {
                    let c = chars_of(s.as_str());
                    out.push(c);
                    assert(views(out@) =~= before.push(c@));
                },
                _ => {},
            },
        }
        i = i + 1;
    }
    assert(arr@.take(arr@.len() as int) =~= arr@);
    out
}

fn list_summary_exec(items: &Vec<Vec<char>>, total: usize, max: usize, sep: &str) -> (r: Vec<char>)
    ensures
        r@ == list_summary(views(items@), total as nat, max as nat, sep@),
{
    if items.len() == 0 {
        return Vec::new();
    }
    let k = if items.len() < max {
        items.len()
    } else {
        max
    };
    let mut shown: Vec<Vec<char>> = Vec::new();
    let mut i: usize = 0;
    while i < k
        invariant
            k <= items@.len(),
            i <= k,
            views(shown@) == views(items@).take(i as int),
        decreases k - i,
    {
        let c = crate::text::copy_chars(&items[i]);
        let ghost before = views(shown@);
        assert(c@ == views(items@)[i as int]);
        shown.push(c);
        assert(views(shown@) =~= before.push(c@));
        assert(views(shown@) =~= views(items@).take(i + 1));
        i = i + 1;
    }
    let sp = chars_of(sep);
    let mut out = join_chars(&shown, &sp);
    if total > max {
        push_str(&mut out, " and ");
        let d = usize_dec(total - max);
        push_all(&mut out, &d);
        push_str(&mut out, " more");
    }
    out
}

fn string_list_summary_exec(obs: &JsonValue, field: &str, max: usize) -> (r: Vec<char>)
    ensures
        r@ == string_list_summary(*obs, field@, max as nat),
{
    match obs.get_array(field) {
        Some(arr) => {
            let items = strs_of_exec(arr);
            list_summary_exec(&items, arr.len(), max, ", ")
        },
        None => Vec::new(),
    }
}

fn persistence_summary_exec(obs: &JsonValue, field: &str, max: usize) -> (r: Vec<char>)
    ensures
        r@ == persistence_summary(*obs, field@, max as nat),
{
    match obs.get_array(field) {
        Some(arr) => {
            let items = entry_strs_exec(arr);
            list_summary_exec(&items, arr.len(), max, "; ")
        },
        None => Vec::new(),
    }
}

fn persistence_rule_exec(t: usize, tool: &Option<String>, obs: &JsonValue) -> (r: Option<Finding>)
    ensures
        opt_findings(r) == persistence_rule(t, opt_view(*tool), *obs),
{
    let a = obs.get_u64_or_zero("actionable_suspicious_count");
    let s = obs.get_u64_or_zero("suspicious_entry_count");
    if !(a > 0 || s > 0) {
        return None;
    }
    let n: u64 = if a > 0 {
        a
    } else {
        s
    };
    let severity = if n >= 8 {
        FindingSeverity::High
    } else if n >= 3 {
        FindingSeverity::Medium
    } else {
        FindingSeverity::Low
    };
    let detail = if a > 0 {
        persistence_summary_exec(obs, "actionable_suspicious_entries", 3)
    } else {
        persistence_summary_exec(obs, "suspicious_entries", 3)
    };
    let mut title = if a > 0 {
        titled_chars("Actionable suspicious persistence entries detected (", n, ")")
    } else {
        titled_chars("Suspicious persistence entries detected (", n, ")")
    };
    if detail.len() > 0 {
        push_str(&mut title, ": ");
        push_all(&mut title, &detail);
    }
    let field = if a > 0 {
        chars_of("observation.actionable_suspicious_count")
    } else {
        chars_of("observation.suspicious_entry_count")
    };
    Some(
        counted_finding(
            &title,
            severity,
            700,
            n as u128,
            50,
            950,
            &field,
            t,
            tool,
            &field,
            "Review persistence entries for unauthorized startup references, remove unapproved autoruns, and preserve forensic artifacts before cleanup.",
        ),
    )
}

fn baseline_new_rule_exec(t: usize, tool: &Option<String>, obs: &JsonValue) -> (r: Option<Finding>)
    ensures
        opt_findings(r) == baseline_new_rule(t, opt_view(*tool), *obs),
{
    simple_counted_rule(
        "baseline_new_count",
        1,
        "Persistence baseline drift detected (",
        " new entries)",
        8,
        0,
        0,
        (FindingSeverity::High, FindingSeverity::Medium, FindingSeverity::Medium, FindingSeverity::Medium),
        690,
        40,
        940,
        "baseline_new_count",
        t,
        tool,
        "observation.baseline_new_count",
        "Compare baseline_new_entries against approved software changes and investigate unexpected startup additions for persistence abuse.",
        obs,
    )
}

fn non_default_rule_exec(t: usize, tool: &Option<String>, obs: &JsonValue) -> (r: Option<Finding>)
    ensures
        opt_findings(r) == non_default_rule(t, opt_view(*tool), *obs),
{
    match obs.get_u64("non_default_privileged_account_count") {
        Some(n) => {
            if n == 0 {
                return None;
            }
            let detail = string_list_summary_exec(obs, "non_default_privileged_accounts", 3);
            let mut title = titled_chars("Non-default privileged accounts observed (", n, ")");
            if detail.len() > 0 {
                push_str(&mut title, ": ");
                push_all(&mut title, &detail);
            }
            let severity = if n >= 5 {
                FindingSeverity::High
            } else if n >= 3 {
                FindingSeverity::Medium
            } else {
                FindingSeverity::Low
            };
            let ff = chars_of("non_default_privileged_account_count");
            let fl = chars_of("observation.non_default_privileged_account_count");
            Some(
                counted_finding(
                    &title,
                    severity,
                    550,
                    n as u128,
                    60,
                    920,
                    &ff,
                    t,
                    tool,
                    &fl,
                    "Validate each non-default privileged account against approved access records; revoke unauthorized role grants and rotate exposed credentials.",
                ),
            )
        },
        None => None,
    }
}

fn newly_privileged_rule_exec(t: usize, tool: &Option<String>, obs: &JsonValue) -> (r: Option<
    Finding,
>)
    ensures
        opt_findings(r) == newly_privileged_rule(t, opt_view(*tool), *obs),
{
    simple_counted_rule(
        "newly_privileged_account_count",
        1,
        "Privileged account baseline drift detected (",
        " new account(s))",
        3,
        0,
        0,
        (FindingSeverity::Critical, FindingSeverity::High, FindingSeverity::High, FindingSeverity::High),
        780,
        40,
        970,
        "newly_privileged_account_count",
        t,
        tool,
        "observation.newly_privileged_account_count",
        "Validate each newly privileged account against approved access changes, disable unauthorized grants, and rotate impacted credentials.",
        obs,
    )
}

fn unapproved_rule_exec(t: usize, tool: &Option<String>, obs: &JsonValue) -> (r: Option<Finding>)
    ensures
        opt_findings(r) == unapproved_rule(t, opt_view(*tool), *obs),
{
    simple_counted_rule(
        "unapproved_privileged_account_count",
        1,
        "Unapproved privileged accounts detected (",
        ")",
        0,
        0,
        0,
        (
            FindingSeverity::Critical,
            FindingSeverity::Critical,
            FindingSeverity::Critical,
            FindingSeverity::Critical,
        ),
        800,
        40,
        980,
        "unapproved_privileged_account_count",
        t,
        tool,
        "observation.unapproved_privileged_account_count",
        "Escalate immediately: remove unapproved privileged memberships, confirm identity ownership, and collect IAM audit evidence.",
        obs,
    )
}

fn exposed_rule_exec(t: usize, tool: &Option<String>, obs: &JsonValue) -> (r: Option<Finding>)
    ensures
        opt_findings(r) == exposed_rule(t, opt_view(*tool), *obs),
{
    simple_counted_rule(
        "externally_exposed_count",
        1,
        "Externally exposed listening endpoints observed (",
        ")",
        10,
        0,
        0,
        (FindingSeverity::High, FindingSeverity::Medium, FindingSeverity::Medium, FindingSeverity::Medium),
        660,
        30,
        930,
        "externally_exposed_count",
        t,
        tool,
        "observation.externally_exposed_count",
        "Confirm process ownership and necessity of exposed listeners; close or firewall unnecessary bindings and monitor for reappearance.",
        obs,
    )
}

fn high_risk_rule_exec(t: usize, tool: &Option<String>, obs: &JsonValue) -> (r: Option<Finding>)
    ensures
        opt_findings(r) == high_risk_rule(t, opt_view(*tool), *obs),
{
    simple_counted_rule(
        "high_risk_exposed_count",
        1,
        "High-risk process listeners exposed externally (",
        ")",
        2,
        0,
        0,
        (FindingSeverity::Critical, FindingSeverity::High, FindingSeverity::High, FindingSeverity::High),
        760,
        40,
        970,
        "high_risk_exposed_count",
        t,
        tool,
        "observation.high_risk_exposed_count",
        "Prioritize containment for high-risk exposed processes, validate command-line lineage, and restrict inbound access immediately.",
        obs,
    )
}

fn unknown_exposed_rule_exec(t: usize, tool: &Option<String>, obs: &JsonValue) -> (r: Option<
    Finding,
>)
    ensures
        opt_findings(r) == unknown_exposed_rule(t, opt_view(*tool), *obs),
{
    simple_counted_rule(
        "unknown_exposed_process_count",
        1,
        "Unexpected exposed processes relative to expected allowlist (",
        ")",
        0,
        0,
        0,
        (FindingSeverity::High, FindingSeverity::High, FindingSeverity::High, FindingSeverity::High),
        720,
        40,
        950,
        "unknown_exposed_process_count",
        t,
        tool,
        "observation.unknown_exposed_process_count",
        "Reconcile unknown exposed processes against approved service inventory and close unapproved listeners through host firewall or service disablement.",
        obs,
    )
}

fn risk_score_rule_exec(t: usize, tool: &Option<String>, obs: &JsonValue) -> (r: Option<Finding>)
    ensures
        opt_findings(r) == risk_score_rule(t, opt_view(*tool), *obs),
{
    simple_counted_rule(
        "network_risk_score",
        40,
        "Network exposure risk score exceeded threshold (",
        ")",
        70,
        0,
        0,
        (FindingSeverity::Critical, FindingSeverity::High, FindingSeverity::High, FindingSeverity::High),
        700,
        2,
        960,
        "network_risk_score",
        t,
        tool,
        "observation.network_risk_score",
        "Escalate to incident triage: prioritize exposed services with highest risk contribution and verify baseline drift across process-network bindings.",
        obs,
    )
}

fn hash_rule_exec(t: usize, tool: &Option<String>, obs: &JsonValue) -> (r: Option<Finding>)
    ensures
        opt_findings(r) == hash_rule(t, opt_view(*tool), *obs),
{
    let path = obs.get_str("path");
    let digest = obs.get_str("sha256");
    match (path, digest) {
        (Some(p), Some(_)) => {
            let mut title = chars_of("File hash captured for ");
            let pc = chars_of(p.as_str());
            push_all(&mut title, &pc);
            let factors = fixed_confidence_factor(90, "sha256 capture is deterministic");
            let field = chars_of("observation.sha256");
            let action = chars_of(
                "Compare the hash against trusted baseline or threat-intel sources before taking containment action.",
            );
            Some(
                make_finding(
                    &title,
                    FindingSeverity::Info,
                    90,
                    factors,
                    Some(t),
                    tool,
                    &field,
                    &action,
                ),
            )
        },
        _ => None,
    }
}

fn ssh_detail_exec(obs: &JsonValue) -> (r: Vec<char>)
    ensures
        r@ == ssh_detail(*obs),
{
    match obs.get_array("directories") {
        Some(dirs) => {
            let k: usize = if dirs.len() < 3 {
                dirs.len()
            } else {
                3
            };
            let mut items: Vec<Vec<char>> = Vec::new();
            let mut i: usize = 0;
            while i < k
                invariant
                    k == min_len(dirs@.len(), 3),
                    i <= k,
                    views(items@) == ssh_items(dirs@).take(i as int),
                decreases k - i,
            {
                let d = &dirs[i];
                let mut item = match d.get_str("ssh_dir") {
                    Some(s) => chars_of(s.as_str()),
                    None => chars_of("?"),
                };
                let has = match d.get_bool("has_authorized_keys") {
                    Some(b) => b,
                    None => false,
                };
                push_str(&mut item, " (authorized_keys: ");
                if has {
                    push_str(&mut item, "true");
                } else {
                    push_str(&mut item, "false");
                }
                push_str(&mut item, ")");
                assert(item@ == ssh_dir_item(dirs@[i as int]));
                assert(ssh_items(dirs@)[i as int] == ssh_dir_item(dirs@[i as int]));
                let ghost before = views(items@);
                let ghost iv = item@;
                items.push(item);
                assert(views(items@) =~= before.push(iv));
                assert(views(items@) =~= ssh_items(dirs@).take(i + 1));
                i = i + 1;
            }
            assert(ssh_items(dirs@).take(k as int) =~= ssh_items(dirs@));
            let sep = chars_of(", ");
            let mut out = join_chars(&items, &sep);
            if dirs.len() > 3 {
                push_str(&mut out, " and ");
                let d = usize_dec(dirs.len() - 3);
                push_all(&mut out, &d);
                push_str(&mut out, " more");
            }
            out
        },
        None => Vec::new(),
    }
}

fn ssh_rule_exec(t: usize, tool: &Option<String>, obs: &JsonValue) -> (r: Option<Finding>)
    ensures
        opt_findings(r) == ssh_rule(t, opt_view(*tool), *obs),
{
    match obs.get_u64("total_authorized_keys_files") {
        Some(a) => {
            let p = obs.get_u64_or_zero("total_private_keys");
            let d = obs.get_u64_or_zero("ssh_directories_scanned");
            if a > 0 || p > 0 {
                let detail = ssh_detail_exec(obs);
                let mut title = chars_of("SSH keys found: ");
                let x = dec_chars(a);
                push_all(&mut title, &x);
                push_str(&mut title, " authorized_keys file(s), ");
                let x = dec_chars(p);
                push_all(&mut title, &x);
                push_str(&mut title, " private key(s) across ");
                let x = dec_chars(d);
                push_all(&mut title, &x);
                push_str(&mut title, " directory(ies)");
                if detail.len() > 0 {
                    push_str(&mut title, " — ");
                    push_all(&mut title, &detail);
                }
                let severity = if a >= 3 {
                    FindingSeverity::High
                } else if a >= 1 {
                    FindingSeverity::Medium
                } else {
                    FindingSeverity::Low
                };
                let ff = chars_of("total_authorized_keys_files");
                let fl = chars_of("observation.total_authorized_keys_files");
                Some(
                    counted_finding(
                        &title,
                        severity,
                        720,
                        (a as u128) + (p as u128),
                        40,
                        940,
                        &ff,
                        t,
                        tool,
                        &fl,
                        "Audit each authorized_keys file for unknown public keys; verify private key ownership and consider rotation for unattended keys.",
                    ),
                )
            } else {
                let mut title = chars_of("No SSH keys found across ");
                let x = dec_chars(d);
                push_all(&mut title, &x);
                push_str(&mut title, " directory(ies) scanned");
                let factors = fixed_confidence_factor(
                    85,
                    "absence of SSH keys is a deterministic observation",
                );
                let field = chars_of("observation.ssh_directories_scanned");
                let action = chars_of("SSH key access is not configured on this host.");
                Some(
                    make_finding(
                        &title,
                        FindingSeverity::Info,
                        85,
                        factors,
                        Some(t),
                        tool,
                        &field,
                        &action,
                    ),
                )
            }
        },
        None => None,
    }
}

/// Whether a log line mentions a suspicious keyword (ASCII case-insensitive).
pub fn is_suspicious_log_line(line: &Vec<char>) -> (r: bool)
    ensures
        r == suspicious_line(line@),
{
    let l = to_ascii_lower(line);
    contains_str(&l, "error") || contains_str(&l, "failed") || contains_str(&l, "denied")
        || contains_str(&l, "unauthorized") || contains_str(&l, "suspicious")
}

fn suspicious_count_exec(arr: &Vec<JsonValue>) -> (r: u64)
    ensures
        r as nat == suspicious_count(arr@),
{
    let mut n: u64 = 0;
    let mut i: usize = 0;
    assert(arr@.take(0) =~= Seq::<JsonValue>::empty());
    while i < arr.len()
        invariant
            i <= arr@.len(),
            n as nat == suspicious_count(arr@.take(i as int)),
            n <= i,
        decreases arr@.len() - i,
    {
        assert(arr@.take(i + 1).drop_last() =~= arr@.take(i as int));
        assert(arr@.take(i + 1).last() == arr@[i as int]);
        match &arr[i] {
            JsonValue::Str(s) => {
                let c = chars_of(s.as_str());
                if is_suspicious_log_line(&c) {
                    n = n + 1;
                }
            },
            _ => {},
        }
        i = i + 1;
    }
    assert(arr@.take(arr@.len() as int) =~= arr@);
    n
}

fn lines_rule_exec(t: usize, tool: &Option<String>, obs: &JsonValue) -> (r: Option<Finding>)
    ensures
        opt_findings(r) == lines_rule(t, opt_view(*tool), *obs),
{
    match obs.get_array("lines") {
        Some(lines) => {
            let hits = suspicious_count_exec(lines);
            if hits == 0 {
                return None;
            }
            let title = titled_chars("Suspicious log keywords observed in ", hits, " line(s)");
            let severity = if hits >= 5 {
                FindingSeverity::High
            } else {
                FindingSeverity::Medium
            };
            let ff = chars_of("suspicious_log_lines");
            let fl = chars_of("observation.lines");
            Some(
                counted_finding(
                    &title,
                    severity,
                    640,
                    hits as u128,
                    50,
                    930,
                    &ff,
                    t,
                    tool,
                    &fl,
                    "Inspect matching log lines for account abuse or execution anomalies, then pivot to host and identity telemetry.",
                ),
            )
        },
        None => None,
    }
}

fn push_opt(out: &mut Vec<Finding>, o: Option<Finding>)
    ensures
        finding_views(final(out)@) == finding_views(old(out)@) + opt_findings(o),
{
    match o {
        Some(f) => {
            let ghost before = finding_views(out@);
            let ghost fv = f@;
            out.push(f);
            assert(finding_views(out@) =~= before + seq![fv]);
        },
        None => {
            assert(finding_views(out@) =~= finding_views(out@) + Seq::<FindingView>::empty());
        },
    }
}

/// The findings of one observation (see [`observation_findings`]).
fn observation_findings_exec(t: usize, tool: &Option<String>, obs: &JsonValue) -> (r: Vec<Finding>)
    ensures
        finding_views(r@) == observation_findings(t, opt_view(*tool), *obs),
{
    let mut out: Vec<Finding> = Vec::new();
    if obs.get_str("error").is_some() {
        push_opt(&mut out, error_rule_exec(t, tool, obs));
        assert(finding_views(out@) =~= error_rule(t, opt_view(*tool), *obs));
        return out;
    }
    let ghost tl = opt_view(*tool);
    let ghost o = *obs;
    push_opt(&mut out, indicator_rule_exec(t, tool, obs));
    assert(finding_views(out@) =~= indicator_rule(t, tl, o));
    push_opt(&mut out, listener_rule_exec(t, tool, obs));
    push_opt(&mut out, baseline_rule_exec(t, tool, obs));
    push_opt(&mut out, persistence_rule_exec(t, tool, obs));
    push_opt(&mut out, baseline_new_rule_exec(t, tool, obs));
    push_opt(&mut out, non_default_rule_exec(t, tool, obs));
    push_opt(&mut out, newly_privileged_rule_exec(t, tool, obs));
    push_opt(&mut out, unapproved_rule_exec(t, tool, obs));
    push_opt(&mut out, exposed_rule_exec(t, tool, obs));
    push_opt(&mut out, high_risk_rule_exec(t, tool, obs));
    push_opt(&mut out, unknown_exposed_rule_exec(t, tool, obs));
    push_opt(&mut out, risk_score_rule_exec(t, tool, obs));
    push_opt(&mut out, hash_rule_exec(t, tool, obs));
    push_opt(&mut out, ssh_rule_exec(t, tool, obs));
    push_opt(&mut out, lines_rule_exec(t, tool, obs));
    out
}

fn append_findings(out: &mut Vec<Finding>, more: Vec<Finding>)
    ensures
        finding_views(final(out)@) == finding_views(old(out)@) + finding_views(more@),
{
    let mut more = more;
    let ghost a = out@;
    let ghost b = more@;
    out.append(&mut more);
    assert(finding_views(out@) =~= finding_views(a) + finding_views(b));
}

fn contains_chars(seen: &Vec<Vec<char>>, x: &Vec<char>) -> (r: bool)
    ensures
        r == views(seen@).contains(x@),
{
    let mut i: usize = 0;
    while i < seen.len()
        invariant
            i <= seen@.len(),
            forall|k: int| 0 <= k < i ==> seen@[k]@ != x@,
        decreases seen@.len() - i,
    {
        if chars_eq(&seen[i], x) {
            assert(views(seen@)[i as int] == x@);
            return true;
        }
        i = i + 1;
    }
    assert forall|k: int| 0 <= k < views(seen@).len() implies views(seen@)[k] != x@ by {
        assert(views(seen@)[k] == seen@[k]@);
    }
    false
}

pub(crate) fn distinct_tool_count_exec(fs: &Vec<Finding>) -> (r: usize)
    ensures
        r as nat == distinct_tool_count(finding_views(fs@)),
{
    let mut seen: Vec<Vec<char>> = Vec::new();
    let mut i: usize = 0;
    let ghost all = finding_views(fs@);
    assert(all.take(0) =~= Seq::<FindingView>::empty());
    assert(views(seen@) =~= Seq::<Seq<char>>::empty());
    while i < fs.len()
        invariant
            i <= fs@.len(),
            all == finding_views(fs@),
            views(seen@) == dedup_seq(tool_list(all.take(i as int))),
            seen@.len() <= i,
        decreases fs@.len() - i,
    {
        assert(all.take(i + 1).drop_last() =~= all.take(i as int));
        assert(all.take(i + 1).last() == fs@[i as int]@);
        match &fs[i].evidence_pointer.tool {
            Some(t) => {
                let tc = chars_of(t.as_str());
                let ghost tl = tool_list(all.take(i as int));
                assert(tool_list(all.take(i + 1)) =~= tl.push(tc@));
                assert(tool_list(all.take(i + 1)).drop_last() =~= tl);
                if !contains_chars(&seen, &tc) {
                    let ghost before = views(seen@);
                    seen.push(tc);
                    assert(views(seen@) =~= before.push(tc@));
                }
            },
            None => {},
        }
        i = i + 1;
    }
    assert(all.take(fs@.len() as int) =~= all);
    seen.len()
}

fn fallback_finding_exec(final_answer: &str) -> (r: Finding)
    ensures
        r@ == fallback_finding(final_answer@),
{
    let title = chars_of("No high-confidence host findings derived from collected evidence");
    let factors = fixed_confidence_factor(
        55,
        "fallback finding when no concrete observations matched derivation rules",
    );
    let trimmed = trim_str(final_answer);
    let action = if trimmed.len() == 0 {
        chars_of("Review raw observations and rerun targeted task templates for deeper coverage.")
    } else {
        chars_of(
            "Review the final answer and raw observations; rerun targeted task templates if analyst confidence is low.",
        )
    };
    let field = chars_of("final_answer");
    make_finding(&title, FindingSeverity::Info, 55, factors, None, &None, &field, &action)
}

fn corroborate_exec(f: Finding, n: usize) -> (r: Finding)
    ensures
        r@ == relabel(corroborate(f@, n as nat)),
{
    let mut f = f;
    let b: u64 = if n <= 1 {
        0
    } else if n == 2 {
        30
    } else {
        50
    };
    let is_error = match &f.evidence_pointer.tool {
        Some(_) => {
            let fc = chars_of(f.evidence_pointer.field.as_str());
            chars_eq_str(&fc, "observation.error")
        },
        None => true,
    };
    if f.evidence_pointer.tool.is_some() && !is_error && b > 0 {
        let c: u64 = (f.confidence as u64) + b / 10;
        let mut detail = usize_dec(n);
        push_str(&mut detail, " distinct tools contributed to this run");
        let ghost old_factors = factor_views(f.confidence_factors@);
        let applied: i128 = if c > 99 {
            (b as i128) - ((c - 99) as i128) * 10
        } else {
            b as i128
        };
        let factor = ConfidenceFactor::new("corroboration", applied, string_of(&detail));
        f.confidence_factors.push(factor);
        f.confidence = if c > 99 {
            99
        } else {
            c as u32
        };
        assert(factor_views(f.confidence_factors@) =~= old_factors.push(
            FactorView { factor: "corroboration"@, contribution: applied as int, detail: detail@ },
        ));
    }
    f.with_derived_label()
}

/// Derives the findings of a run from the observations of its turns (see
/// [`derive_findings_spec`]).
pub fn derive_findings(turns: &Vec<AgentTurn>, final_answer: &str) -> (r: Vec<Finding>)
    ensures
        finding_views(r@) == derive_findings_spec(turns@, final_answer@),
{
    let mut found: Vec<Finding> = Vec::new();
    let mut i: usize = 0;
    assert(turns@.take(0) =~= Seq::<AgentTurn>::empty());
    assert(finding_views(found@) =~= Seq::<FindingView>::empty());
    while i < turns.len()
        invariant
            i <= turns@.len(),
            finding_views(found@) == raw_findings(turns@.take(i as int)),
        decreases turns@.len() - i,
    {
        assert(turns@.take(i + 1).drop_last() =~= turns@.take(i as int));
        assert(turns@.take(i + 1).last() == turns@[i as int]);
        let turn = &turns[i];
        match &turn.observation {
            Some(obs) => {
                let tool = match &turn.tool_call {
                    Some(c) => Some(clone_string(&c.tool)),
                    None => None,
                };
                let more = observation_findings_exec(i + 1, &tool, obs);
                append_findings(&mut found, more);
            },
            None => {
                assert(finding_views(found@) =~= finding_views(found@) + Seq::<FindingView>::empty());
            },
        }
        i = i + 1;
    }
    assert(turns@.take(turns@.len() as int) =~= turns@);
    if found.len() == 0 {
        let fb = fallback_finding_exec(final_answer);
        found.push(fb);
        assert(finding_views(found@) =~= seq![fallback_finding(final_answer@)]);
    }
    let ghost base = finding_views(found@);
    let n = distinct_tool_count_exec(&found);
    let mut result: Vec<Finding> = Vec::new();
    let total = found.len();
    let mut rest = found;
    let mut k: usize = 0;
    while rest.len() > 0
        invariant
            base.len() == total,
            k + rest@.len() == total,
            finding_views(rest@) == base.skip(k as int),
            finding_views(result@) == Seq::new(k as nat, |j: int| relabel(corroborate(base[j], n as nat))),
        decreases rest@.len(),
    {
        assert(finding_views(rest@)[0] == rest@[0]@);
        let ghost old_rest = rest@;
        let f = rest.remove(0);
        assert(rest@ =~= old_rest.subrange(1, old_rest.len() as int));
        assert(f@ == base[k as int]) by {
            assert(finding_views(old_rest)[0] == base.skip(k as int)[0]);
        }
        assert forall|j: int| 0 <= j < rest@.len() implies finding_views(rest@)[j] == base.skip(
            k + 1,
        )[j] by {
            assert(rest@[j] == old_rest[j + 1]);
            assert(finding_views(old_rest)[j + 1] == base.skip(k as int)[j + 1]);
        }
        assert(finding_views(rest@) =~= base.skip(k + 1));
        let g = corroborate_exec(f, n);
        let ghost before = finding_views(result@);
        let ghost gv = g@;
        result.push(g);
        assert(finding_views(result@) =~= before.push(gv));
        k = k + 1;
        assert(finding_views(result@) =~= Seq::new(k as nat, |j: int| relabel(corroborate(base[j], n as nat))));
    }
    assert(finding_views(result@) =~= derive_findings_spec(turns@, final_answer@));
    result
}

// ---------------------------------------------------------------------------
// What every derived finding points at
// ---------------------------------------------------------------------------

/// A finding's confidence is between 0.50 and 0.99, and an error finding is High at 0.95.
pub open spec fn confidence_in_band(f: FindingView) -> bool {
    &&& 50 <= f.confidence <= 99
    &&& f.pointer.field == "observation.error"@ ==> f.severity == FindingSeverity::High && f.confidence == 95
}

/// Every finding points at turn `t` and tool `tool`, with its confidence in band.
pub open spec fn rule_pointed(fs: Seq<FindingView>, t: usize, tool: Option<Seq<char>>) -> bool {
    forall|i: int|
        0 <= i < fs.len() ==> (#[trigger] fs[i]).pointer.turn == Some(t) && fs[i].pointer.tool == tool
            && confidence_in_band(fs[i])
}

proof fn lemma_count_confidence_band(base: nat, count: nat, slope: nat, ceiling: nat)
    requires
        500 <= base,
        ceiling <= 990,
        base <= ceiling,
    ensures
        50 <= count_confidence(base, count, slope, ceiling) <= 99,
{
    assert(count * slope >= 0) by (nonlinear_arith);
}

proof fn lemma_count_band_all()
    ensures
        forall|base: nat, count: nat, slope: nat, ceiling: nat|
            500 <= base <= ceiling <= 990 ==> 50 <= #[trigger] count_confidence(base, count, slope, ceiling) <= 99,
{
    assert forall|base: nat, count: nat, slope: nat, ceiling: nat|
        500 <= base <= ceiling <= 990 implies 50 <= #[trigger] count_confidence(base, count, slope, ceiling) <= 99 by {
        lemma_count_confidence_band(base, count, slope, ceiling);
    }
}

proof fn lemma_pointed_concat(a: Seq<FindingView>, b: Seq<FindingView>, t: usize, tool: Option<Seq<char>>)
    requires
        rule_pointed(a, t, tool),
        rule_pointed(b, t, tool),
    ensures
        rule_pointed(a + b, t, tool),
{
    assert forall|i: int| 0 <= i < (a + b).len() implies (#[trigger] (a + b)[i]).pointer.turn == Some(t)
        && (a + b)[i].pointer.tool == tool && confidence_in_band((a + b)[i]) by {
        if i < a.len() {
            assert((a + b)[i] == a[i]);
        } else {
            assert((a + b)[i] == b[i - a.len()]);
        }
    }
}

proof fn lemma_error_rule_pointed(t: usize, tool: Option<Seq<char>>, obs: JsonValue)
    ensures
        rule_pointed(error_rule(t, tool, obs), t, tool),
{
    lemma_count_band_all();
    reveal_strlit("observation.error");
    let fs = error_rule(t, tool, obs);
    if fs.len() > 0 {
        assert(fs[0].pointer.turn == Some(t) && fs[0].pointer.tool == tool);
        assert(confidence_in_band(fs[0]));
    }
}

proof fn lemma_indicator_rule_pointed(t: usize, tool: Option<Seq<char>>, obs: JsonValue)
    ensures
        rule_pointed(indicator_rule(t, tool, obs), t, tool),
{
    lemma_count_band_all();
    reveal_strlit("observation.error");
    reveal_strlit("observation.indicator_count");
    let fs = indicator_rule(t, tool, obs);
    if fs.len() > 0 {
        let n = get_u64(obs, "indicator_count"@)->0;
        assert(50 <= count_confidence(550, n as nat, 50, 920) <= 99);
        assert(fs[0].confidence == count_confidence(550, n as nat, 50, 920));
        assert(fs[0].pointer.field == "observation.indicator_count"@);
        assert("observation.indicator_count"@.len() == 27);
    assert("observation.error"@.len() == 17);
    assert("observation.indicator_count"@ != "observation.error"@);
        assert(confidence_in_band(fs[0]));
        assert(fs[0].pointer.turn == Some(t));
    }
}

proof fn lemma_listener_rule_pointed(t: usize, tool: Option<Seq<char>>, obs: JsonValue)
    ensures
        rule_pointed(listener_rule(t, tool, obs), t, tool),
{
    lemma_count_band_all();
    reveal_strlit("observation.error");
    reveal_strlit("observation.listener_count");
    assert("observation.listener_count"@.len() == 26);
    assert("observation.error"@.len() == 17);
    assert("observation.listener_count"@ != "observation.error"@);
    let fs = listener_rule(t, tool, obs);
    if fs.len() > 0 {
        assert(fs[0].pointer.turn == Some(t) && fs[0].pointer.tool == tool);
        assert(confidence_in_band(fs[0]));
    }
}

proof fn lemma_baseline_rule_pointed(t: usize, tool: Option<Seq<char>>, obs: JsonValue)
    ensures
        rule_pointed(baseline_rule(t, tool, obs), t, tool),
{
    lemma_count_band_all();
    reveal_strlit("observation.baseline_version");
    reveal_strlit("observation.error");
    assert("observation.baseline_version"@.len() == 28);
    assert("observation.error"@.len() == 17);
    assert("observation.baseline_version"@ != "observation.error"@);
    let fs = baseline_rule(t, tool, obs);
    if fs.len() > 0 {
        assert(fs[0].pointer.turn == Some(t) && fs[0].pointer.tool == tool);
        assert(confidence_in_band(fs[0]));
    }
}

proof fn lemma_persistence_rule_pointed(t: usize, tool: Option<Seq<char>>, obs: JsonValue)
    ensures
        rule_pointed(persistence_rule(t, tool, obs), t, tool),
{
    lemma_count_band_all();
    reveal_strlit("observation.actionable_suspicious_count");
    reveal_strlit("observation.error");
    reveal_strlit("observation.suspicious_entry_count");
    assert("observation.actionable_suspicious_count"@.len() == 39);
    assert("observation.error"@.len() == 17);
    assert("observation.actionable_suspicious_count"@ != "observation.error"@);
    assert("observation.suspicious_entry_count"@.len() == 34);
    assert("observation.error"@.len() == 17);
    assert("observation.suspicious_entry_count"@ != "observation.error"@);
    let fs = persistence_rule(t, tool, obs);
    if fs.len() > 0 {
        assert(fs[0].pointer.turn == Some(t) && fs[0].pointer.tool == tool);
        assert(confidence_in_band(fs[0]));
    }
}

proof fn lemma_baseline_new_rule_pointed(t: usize, tool: Option<Seq<char>>, obs: JsonValue)
    ensures
        rule_pointed(baseline_new_rule(t, tool, obs), t, tool),
{
    lemma_count_band_all();
    reveal_strlit("observation.baseline_new_count");
    reveal_strlit("observation.error");
    assert("observation.baseline_new_count"@.len() == 30);
    assert("observation.error"@.len() == 17);
    assert("observation.baseline_new_count"@ != "observation.error"@);
    let fs = baseline_new_rule(t, tool, obs);
    if fs.len() > 0 {
        assert(fs[0].pointer.turn == Some(t) && fs[0].pointer.tool == tool);
        assert(confidence_in_band(fs[0]));
    }
}

proof fn lemma_non_default_rule_pointed(t: usize, tool: Option<Seq<char>>, obs: JsonValue)
    ensures
        rule_pointed(non_default_rule(t, tool, obs), t, tool),
{
    lemma_count_band_all();
    reveal_strlit("observation.error");
    reveal_strlit("observation.non_default_privileged_account_count");
    assert("observation.non_default_privileged_account_count"@.len() == 48);
    assert("observation.error"@.len() == 17);
    assert("observation.non_default_privileged_account_count"@ != "observation.error"@);
    let fs = non_default_rule(t, tool, obs);
    if fs.len() > 0 {
        assert(fs[0].pointer.turn == Some(t) && fs[0].pointer.tool == tool);
        assert(confidence_in_band(fs[0]));
    }
}

proof fn lemma_newly_privileged_rule_pointed(t: usize, tool: Option<Seq<char>>, obs: JsonValue)
    ensures
        rule_pointed(newly_privileged_rule(t, tool, obs), t, tool),
{
    lemma_count_band_all();
    reveal_strlit("observation.error");
    reveal_strlit("observation.newly_privileged_account_count");
    assert("observation.newly_privileged_account_count"@.len() == 42);
    assert("observation.error"@.len() == 17);
    assert("observation.newly_privileged_account_count"@ != "observation.error"@);
    let fs = newly_privileged_rule(t, tool, obs);
    if fs.len() > 0 {
        assert(fs[0].pointer.turn == Some(t) && fs[0].pointer.tool == tool);
        assert(confidence_in_band(fs[0]));
    }
}

proof fn lemma_unapproved_rule_pointed(t: usize, tool: Option<Seq<char>>, obs: JsonValue)
    ensures
        rule_pointed(unapproved_rule(t, tool, obs), t, tool),
{
    lemma_count_band_all();
    reveal_strlit("observation.error");
    reveal_strlit("observation.unapproved_privileged_account_count");
    assert("observation.unapproved_privileged_account_count"@.len() == 47);
    assert("observation.error"@.len() == 17);
    assert("observation.unapproved_privileged_account_count"@ != "observation.error"@);
    let fs = unapproved_rule(t, tool, obs);
    if fs.len() > 0 {
        assert(fs[0].pointer.turn == Some(t) && fs[0].pointer.tool == tool);
        assert(confidence_in_band(fs[0]));
    }
}

proof fn lemma_exposed_rule_pointed(t: usize, tool: Option<Seq<char>>, obs: JsonValue)
    ensures
        rule_pointed(exposed_rule(t, tool, obs), t, tool),
{
    lemma_count_band_all();
    reveal_strlit("observation.error");
    reveal_strlit("observation.externally_exposed_count");
    assert("observation.externally_exposed_count"@.len() == 36);
    assert("observation.error"@.len() == 17);
    assert("observation.externally_exposed_count"@ != "observation.error"@);
    let fs = exposed_rule(t, tool, obs);
    if fs.len() > 0 {
        assert(fs[0].pointer.turn == Some(t) && fs[0].pointer.tool == tool);
        assert(confidence_in_band(fs[0]));
    }
}

proof fn lemma_high_risk_rule_pointed(t: usize, tool: Option<Seq<char>>, obs: JsonValue)
    ensures
        rule_pointed(high_risk_rule(t, tool, obs), t, tool),
{
    lemma_count_band_all();
    reveal_strlit("observation.error");
    reveal_strlit("observation.high_risk_exposed_count");
    assert("observation.high_risk_exposed_count"@.len() == 35);
    assert("observation.error"@.len() == 17);
    assert("observation.high_risk_exposed_count"@ != "observation.error"@);
    let fs = high_risk_rule(t, tool, obs);
    if fs.len() > 0 {
        assert(fs[0].pointer.turn == Some(t) && fs[0].pointer.tool == tool);
        assert(confidence_in_band(fs[0]));
    }
}

proof fn lemma_unknown_exposed_rule_pointed(t: usize, tool: Option<Seq<char>>, obs: JsonValue)
    ensures
        rule_pointed(unknown_exposed_rule(t, tool, obs), t, tool),
{
    lemma_count_band_all();
    reveal_strlit("observation.error");
    reveal_strlit("observation.unknown_exposed_process_count");
    assert("observation.unknown_exposed_process_count"@.len() == 41);
    assert("observation.error"@.len() == 17);
    assert("observation.unknown_exposed_process_count"@ != "observation.error"@);
    let fs = unknown_exposed_rule(t, tool, obs);
    if fs.len() > 0 {
        assert(fs[0].pointer.turn == Some(t) && fs[0].pointer.tool == tool);
        assert(confidence_in_band(fs[0]));
    }
}

proof fn lemma_risk_score_rule_pointed(t: usize, tool: Option<Seq<char>>, obs: JsonValue)
    ensures
        rule_pointed(risk_score_rule(t, tool, obs), t, tool),
{
    lemma_count_band_all();
    reveal_strlit("observation.error");
    reveal_strlit("observation.network_risk_score");
    assert("observation.network_risk_score"@.len() == 30);
    assert("observation.error"@.len() == 17);
    assert("observation.network_risk_score"@ != "observation.error"@);
    let fs = risk_score_rule(t, tool, obs);
    if fs.len() > 0 {
        assert(fs[0].pointer.turn == Some(t) && fs[0].pointer.tool == tool);
        assert(confidence_in_band(fs[0]));
    }
}

proof fn lemma_hash_rule_pointed(t: usize, tool: Option<Seq<char>>, obs: JsonValue)
    ensures
        rule_pointed(hash_rule(t, tool, obs), t, tool),
{
    lemma_count_band_all();
    reveal_strlit("observation.error");
    reveal_strlit("observation.sha256");
    assert("observation.sha256"@.len() == 18);
    assert("observation.error"@.len() == 17);
    assert("observation.sha256"@ != "observation.error"@);
    let fs = hash_rule(t, tool, obs);
    if fs.len() > 0 {
        assert(fs[0].pointer.turn == Some(t) && fs[0].pointer.tool == tool);
        assert(confidence_in_band(fs[0]));
    }
}

proof fn lemma_ssh_rule_pointed(t: usize, tool: Option<Seq<char>>, obs: JsonValue)
    ensures
        rule_pointed(ssh_rule(t, tool, obs), t, tool),
{
    lemma_count_band_all();
    reveal_strlit("observation.error");
    reveal_strlit("observation.ssh_directories_scanned");
    reveal_strlit("observation.total_authorized_keys_files");
    assert("observation.ssh_directories_scanned"@.len() == 35);
    assert("observation.error"@.len() == 17);
    assert("observation.ssh_directories_scanned"@ != "observation.error"@);
    assert("observation.total_authorized_keys_files"@.len() == 39);
    assert("observation.error"@.len() == 17);
    assert("observation.total_authorized_keys_files"@ != "observation.error"@);
    let fs = ssh_rule(t, tool, obs);
    if fs.len() > 0 {
        assert(fs[0].pointer.turn == Some(t) && fs[0].pointer.tool == tool);
        assert(confidence_in_band(fs[0]));
    }
}

proof fn lemma_lines_rule_pointed(t: usize, tool: Option<Seq<char>>, obs: JsonValue)
    ensures
        rule_pointed(lines_rule(t, tool, obs), t, tool),
{
    lemma_count_band_all();
    reveal_strlit("observation.error");
    reveal_strlit("observation.lines");
    assert("observation.lines"@.len() == 17);
    assert("observation.error"@.len() == 17);
    assert("observation.lines"@[12] == 'l' && "observation.error"@[12] == 'e');
    assert("observation.lines"@ != "observation.error"@);
    let fs = lines_rule(t, tool, obs);
    if fs.len() > 0 {
        assert(fs[0].pointer.turn == Some(t) && fs[0].pointer.tool == tool);
        assert(confidence_in_band(fs[0]));
    }
}

proof fn lemma_observation_pointed(t: usize, tool: Option<Seq<char>>, obs: JsonValue)
    ensures
        rule_pointed(observation_findings(t, tool, obs), t, tool),
{
    lemma_error_rule_pointed(t, tool, obs);
    lemma_indicator_rule_pointed(t, tool, obs);
    lemma_listener_rule_pointed(t, tool, obs);
    lemma_baseline_rule_pointed(t, tool, obs);
    lemma_persistence_rule_pointed(t, tool, obs);
    lemma_baseline_new_rule_pointed(t, tool, obs);
    lemma_non_default_rule_pointed(t, tool, obs);
    lemma_newly_privileged_rule_pointed(t, tool, obs);
    lemma_unapproved_rule_pointed(t, tool, obs);
    lemma_exposed_rule_pointed(t, tool, obs);
    lemma_high_risk_rule_pointed(t, tool, obs);
    lemma_unknown_exposed_rule_pointed(t, tool, obs);
    lemma_risk_score_rule_pointed(t, tool, obs);
    lemma_hash_rule_pointed(t, tool, obs);
    lemma_ssh_rule_pointed(t, tool, obs);
    lemma_lines_rule_pointed(t, tool, obs);
    if get_str(obs, "error"@) is None {
        lemma_pointed_concat(indicator_rule(t, tool, obs), listener_rule(t, tool, obs), t, tool);
        lemma_pointed_concat(indicator_rule(t, tool, obs) + listener_rule(t, tool, obs), baseline_rule(t, tool, obs), t, tool);
        lemma_pointed_concat(indicator_rule(t, tool, obs) + listener_rule(t, tool, obs) + baseline_rule(t, tool, obs), persistence_rule(t, tool, obs), t, tool);
        lemma_pointed_concat(indicator_rule(t, tool, obs) + listener_rule(t, tool, obs) + baseline_rule(t, tool, obs) + persistence_rule(t, tool, obs), baseline_new_rule(t, tool, obs), t, tool);
        lemma_pointed_concat(indicator_rule(t, tool, obs) + listener_rule(t, tool, obs) + baseline_rule(t, tool, obs) + persistence_rule(t, tool, obs) + baseline_new_rule(t, tool, obs), non_default_rule(t, tool, obs), t, tool);
        lemma_pointed_concat(indicator_rule(t, tool, obs) + listener_rule(t, tool, obs) + baseline_rule(t, tool, obs) + persistence_rule(t, tool, obs) + baseline_new_rule(t, tool, obs) + non_default_rule(t, tool, obs), newly_privileged_rule(t, tool, obs), t, tool);
        lemma_pointed_concat(indicator_rule(t, tool, obs) + listener_rule(t, tool, obs) + baseline_rule(t, tool, obs) + persistence_rule(t, tool, obs) + baseline_new_rule(t, tool, obs) + non_default_rule(t, tool, obs) + newly_privileged_rule(t, tool, obs), unapproved_rule(t, tool, obs), t, tool);
        lemma_pointed_concat(indicator_rule(t, tool, obs) + listener_rule(t, tool, obs) + baseline_rule(t, tool, obs) + persistence_rule(t, tool, obs) + baseline_new_rule(t, tool, obs) + non_default_rule(t, tool, obs) + newly_privileged_rule(t, tool, obs) + unapproved_rule(t, tool, obs), exposed_rule(t, tool, obs), t, tool);
        lemma_pointed_concat(indicator_rule(t, tool, obs) + listener_rule(t, tool, obs) + baseline_rule(t, tool, obs) + persistence_rule(t, tool, obs) + baseline_new_rule(t, tool, obs) + non_default_rule(t, tool, obs) + newly_privileged_rule(t, tool, obs) + unapproved_rule(t, tool, obs) + exposed_rule(t, tool, obs), high_risk_rule(t, tool, obs), t, tool);
        lemma_pointed_concat(indicator_rule(t, tool, obs) + listener_rule(t, tool, obs) + baseline_rule(t, tool, obs) + persistence_rule(t, tool, obs) + baseline_new_rule(t, tool, obs) + non_default_rule(t, tool, obs) + newly_privileged_rule(t, tool, obs) + unapproved_rule(t, tool, obs) + exposed_rule(t, tool, obs) + high_risk_rule(t, tool, obs), unknown_exposed_rule(t, tool, obs), t, tool);
        lemma_pointed_concat(indicator_rule(t, tool, obs) + listener_rule(t, tool, obs) + baseline_rule(t, tool, obs) + persistence_rule(t, tool, obs) + baseline_new_rule(t, tool, obs) + non_default_rule(t, tool, obs) + newly_privileged_rule(t, tool, obs) + unapproved_rule(t, tool, obs) + exposed_rule(t, tool, obs) + high_risk_rule(t, tool, obs) + unknown_exposed_rule(t, tool, obs), risk_score_rule(t, tool, obs), t, tool);
        lemma_pointed_concat(indicator_rule(t, tool, obs) + listener_rule(t, tool, obs) + baseline_rule(t, tool, obs) + persistence_rule(t, tool, obs) + baseline_new_rule(t, tool, obs) + non_default_rule(t, tool, obs) + newly_privileged_rule(t, tool, obs) + unapproved_rule(t, tool, obs) + exposed_rule(t, tool, obs) + high_risk_rule(t, tool, obs) + unknown_exposed_rule(t, tool, obs) + risk_score_rule(t, tool, obs), hash_rule(t, tool, obs), t, tool);
        lemma_pointed_concat(indicator_rule(t, tool, obs) + listener_rule(t, tool, obs) + baseline_rule(t, tool, obs) + persistence_rule(t, tool, obs) + baseline_new_rule(t, tool, obs) + non_default_rule(t, tool, obs) + newly_privileged_rule(t, tool, obs) + unapproved_rule(t, tool, obs) + exposed_rule(t, tool, obs) + high_risk_rule(t, tool, obs) + unknown_exposed_rule(t, tool, obs) + risk_score_rule(t, tool, obs) + hash_rule(t, tool, obs), ssh_rule(t, tool, obs), t, tool);
        lemma_pointed_concat(indicator_rule(t, tool, obs) + listener_rule(t, tool, obs) + baseline_rule(t, tool, obs) + persistence_rule(t, tool, obs) + baseline_new_rule(t, tool, obs) + non_default_rule(t, tool, obs) + newly_privileged_rule(t, tool, obs) + unapproved_rule(t, tool, obs) + exposed_rule(t, tool, obs) + high_risk_rule(t, tool, obs) + unknown_exposed_rule(t, tool, obs) + risk_score_rule(t, tool, obs) + hash_rule(t, tool, obs) + ssh_rule(t, tool, obs), lines_rule(t, tool, obs), t, tool);
    }
}

/// Each finding drawn from the turns points at a turn `k` (1-based) that holds an
/// observation, and names that turn's tool; its confidence is in band.
pub open spec fn points_into(f: FindingView, turns: Seq<AgentTurn>) -> bool {
    f.pointer.turn matches Some(k) && 1 <= k <= turns.len() && turns[k - 1].observation is Some
        && f.pointer.tool == turn_tool(turns[k - 1]) && confidence_in_band(f)
}

proof fn lemma_raw_points_into(turns: Seq<AgentTurn>)
    requires
        turns.len() <= usize::MAX,
    ensures
        forall|i: int| 0 <= i < raw_findings(turns).len() ==> points_into(#[trigger] raw_findings(turns)[i], turns),
    decreases turns.len(),
{
    if turns.len() > 0 {
        let p = turns.drop_last();
        lemma_raw_points_into(p);
        let n = turns.len() as usize;
        let a = raw_findings(p);
        let b = turn_findings(n, turns.last());
        match turns.last().observation {
            Some(obs) => lemma_observation_pointed(n, turn_tool(turns.last()), obs),
            None => {},
        }
        assert forall|i: int| 0 <= i < (a + b).len() implies points_into(#[trigger] (a + b)[i], turns) by {
            if i < a.len() {
                assert((a + b)[i] == a[i]);
                assert(points_into(a[i], p));
                let k = a[i].pointer.turn->0;
                assert(turns[k - 1] == p[k - 1]);
            } else {
                assert((a + b)[i] == b[i - a.len()]);
                assert(turns[n - 1] == turns.last());
            }
        }
    }
}

/// Every derived finding points at a real turn: either the one fallback finding, which
/// names no turn and no tool and stands for `final_answer`, or a finding whose turn
/// (1-based) holds an observation and whose tool is that turn's tool.  Confidences stay
/// between 0.50 and 0.99, and an error finding stays High at 0.95.
pub proof fn lemma_derived_findings_point_into_turns(turns: Seq<AgentTurn>, final_answer: Seq<char>)
    requires
        turns.len() <= usize::MAX,
    ensures
        derive_findings_spec(turns, final_answer).len() > 0,
        forall|i: int|
            0 <= i < derive_findings_spec(turns, final_answer).len() ==> {
                let f = #[trigger] derive_findings_spec(turns, final_answer)[i];
                &&& confidence_in_band(f)
                &&& f.pointer.turn is None ==> derive_findings_spec(turns, final_answer).len() == 1
                    && f.pointer.tool is None && f.pointer.field == "final_answer"@
                &&& f.pointer.turn is Some ==> points_into(f, turns)
            },
{
    lemma_raw_points_into(turns);
    let raw = raw_findings(turns);
    let base = if raw.len() == 0 {
        seq![fallback_finding(final_answer)]
    } else {
        raw
    };
    let n = distinct_tool_count(base);
    let out = derive_findings_spec(turns, final_answer);
    assert forall|i: int| 0 <= i < out.len() implies {
        let f = #[trigger] out[i];
        &&& confidence_in_band(f)
        &&& f.pointer.turn is None ==> out.len() == 1 && f.pointer.tool is None && f.pointer.field == "final_answer"@
        &&& f.pointer.turn is Some ==> points_into(f, turns)
    } by {
        reveal_strlit("observation.error");
        reveal_strlit("final_answer");
        assert("final_answer"@.len() == 12);
        assert("observation.error"@.len() == 17);
        let g = base[i];
        let h = corroborate(g, n);
        assert(out[i] == relabel(h));
        if raw.len() == 0 {
            assert(g == fallback_finding(final_answer));
            assert(g.confidence == 55);
            assert(g.pointer.field != "observation.error"@);
        } else {
            assert(points_into(raw[i], turns));
            assert(g == raw[i]);
        }
        assert(confidence_in_band(g));
        assert(h.pointer == g.pointer);
        assert(confidence_in_band(h));
        assert(relabel(h).pointer == h.pointer && relabel(h).confidence == h.confidence
            && relabel(h).severity == h.severity);
    }
}

// ---------------------------------------------------------------------------
// The severity of privilege-escalation findings
// ---------------------------------------------------------------------------

/// Every finding on the indicator count comes from an observation with a positive
/// count `n`, and is High from 8 indicators, Medium from 4, Low below.
pub open spec fn indicator_ladder_ok(fs: Seq<FindingView>, obs: JsonValue) -> bool {
    forall|i: int|
        0 <= i < fs.len() && (#[trigger] fs[i]).pointer.field == "observation.indicator_count"@ ==> (get_u64(
            obs,
            "indicator_count"@,
        ) matches Some(n) && n > 0 && fs[i].severity == if n >= 8 {
            FindingSeverity::High
        } else if n >= 4 {
            FindingSeverity::Medium
        } else {
            FindingSeverity::Low
        })
}

proof fn lemma_ladder_concat(a: Seq<FindingView>, b: Seq<FindingView>, obs: JsonValue)
    requires
        indicator_ladder_ok(a, obs),
        indicator_ladder_ok(b, obs),
    ensures
        indicator_ladder_ok(a + b, obs),
{
    assert forall|i: int|
        0 <= i < (a + b).len() && (#[trigger] (a + b)[i]).pointer.field == "observation.indicator_count"@ implies (get_u64(
            obs,
            "indicator_count"@,
        ) matches Some(n) && n > 0 && (a + b)[i].severity == if n >= 8 {
            FindingSeverity::High
        } else if n >= 4 {
            FindingSeverity::Medium
        } else {
            FindingSeverity::Low
        }) by {
        if i < a.len() {
            assert((a + b)[i] == a[i]);
        } else {
            assert((a + b)[i] == b[i - a.len()]);
        }
    }
}

proof fn lemma_error_rule_indicator(t: usize, tool: Option<Seq<char>>, obs: JsonValue)
    ensures
        indicator_ladder_ok(error_rule(t, tool, obs), obs),
{
    reveal_strlit("observation.indicator_count");
    assert("observation.indicator_count"@.len() == 27);
    reveal_strlit("observation.error");
    assert("observation.error"@.len() == 17);
    let fs = error_rule(t, tool, obs);
    if fs.len() > 0 {
        assert(fs[0].pointer.field != "observation.indicator_count"@);
    }
}

proof fn lemma_indicator_rule_indicator(t: usize, tool: Option<Seq<char>>, obs: JsonValue)
    ensures
        indicator_ladder_ok(indicator_rule(t, tool, obs), obs),
{
    reveal_strlit("observation.indicator_count");
    assert("observation.indicator_count"@.len() == 27);
    let fs = indicator_rule(t, tool, obs);
    if fs.len() > 0 {
        assert(fs[0].pointer.field == "observation.indicator_count"@);
    }
}

proof fn lemma_listener_rule_indicator(t: usize, tool: Option<Seq<char>>, obs: JsonValue)
    ensures
        indicator_ladder_ok(listener_rule(t, tool, obs), obs),
{
    reveal_strlit("observation.indicator_count");
    assert("observation.indicator_count"@.len() == 27);
    reveal_strlit("observation.listener_count");
    assert("observation.listener_count"@.len() == 26);
    let fs = listener_rule(t, tool, obs);
    if fs.len() > 0 {
        assert(fs[0].pointer.field != "observation.indicator_count"@);
    }
}

proof fn lemma_baseline_rule_indicator(t: usize, tool: Option<Seq<char>>, obs: JsonValue)
    ensures
        indicator_ladder_ok(baseline_rule(t, tool, obs), obs),
{
    reveal_strlit("observation.indicator_count");
    assert("observation.indicator_count"@.len() == 27);
    reveal_strlit("observation.baseline_version");
    assert("observation.baseline_version"@.len() == 28);
    let fs = baseline_rule(t, tool, obs);
    if fs.len() > 0 {
        assert(fs[0].pointer.field != "observation.indicator_count"@);
    }
}

proof fn lemma_persistence_rule_indicator(t: usize, tool: Option<Seq<char>>, obs: JsonValue)
    ensures
        indicator_ladder_ok(persistence_rule(t, tool, obs), obs),
{
    reveal_strlit("observation.indicator_count");
    assert("observation.indicator_count"@.len() == 27);
    reveal_strlit("observation.actionable_suspicious_count");
    assert("observation.actionable_suspicious_count"@.len() == 39);
    reveal_strlit("observation.suspicious_entry_count");
    assert("observation.suspicious_entry_count"@.len() == 34);
    let fs = persistence_rule(t, tool, obs);
    if fs.len() > 0 {
        assert(fs[0].pointer.field != "observation.indicator_count"@);
    }
}

proof fn lemma_baseline_new_rule_indicator(t: usize, tool: Option<Seq<char>>, obs: JsonValue)
    ensures
        indicator_ladder_ok(baseline_new_rule(t, tool, obs), obs),
{
    reveal_strlit("observation.indicator_count");
    assert("observation.indicator_count"@.len() == 27);
    reveal_strlit("observation.baseline_new_count");
    assert("observation.baseline_new_count"@.len() == 30);
    let fs = baseline_new_rule(t, tool, obs);
    if fs.len() > 0 {
        assert(fs[0].pointer.field != "observation.indicator_count"@);
    }
}

proof fn lemma_non_default_rule_indicator(t: usize, tool: Option<Seq<char>>, obs: JsonValue)
    ensures
        indicator_ladder_ok(non_default_rule(t, tool, obs), obs),
{
    reveal_strlit("observation.indicator_count");
    assert("observation.indicator_count"@.len() == 27);
    reveal_strlit("observation.non_default_privileged_account_count");
    assert("observation.non_default_privileged_account_count"@.len() == 48);
    let fs = non_default_rule(t, tool, obs);
    if fs.len() > 0 {
        assert(fs[0].pointer.field != "observation.indicator_count"@);
    }
}

proof fn lemma_newly_privileged_rule_indicator(t: usize, tool: Option<Seq<char>>, obs: JsonValue)
    ensures
        indicator_ladder_ok(newly_privileged_rule(t, tool, obs), obs),
{
    reveal_strlit("observation.indicator_count");
    assert("observation.indicator_count"@.len() == 27);
    reveal_strlit("observation.newly_privileged_account_count");
    assert("observation.newly_privileged_account_count"@.len() == 42);
    let fs = newly_privileged_rule(t, tool, obs);
    if fs.len() > 0 {
        assert(fs[0].pointer.field != "observation.indicator_count"@);
    }
}

proof fn lemma_unapproved_rule_indicator(t: usize, tool: Option<Seq<char>>, obs: JsonValue)
    ensures
        indicator_ladder_ok(unapproved_rule(t, tool, obs), obs),
{
    reveal_strlit("observation.indicator_count");
    assert("observation.indicator_count"@.len() == 27);
    reveal_strlit("observation.unapproved_privileged_account_count");
    assert("observation.unapproved_privileged_account_count"@.len() == 47);
    let fs = unapproved_rule(t, tool, obs);
    if fs.len() > 0 {
        assert(fs[0].pointer.field != "observation.indicator_count"@);
    }
}

proof fn lemma_exposed_rule_indicator(t: usize, tool: Option<Seq<char>>, obs: JsonValue)
    ensures
        indicator_ladder_ok(exposed_rule(t, tool, obs), obs),
{
    reveal_strlit("observation.indicator_count");
    assert("observation.indicator_count"@.len() == 27);
    reveal_strlit("observation.externally_exposed_count");
    assert("observation.externally_exposed_count"@.len() == 36);
    let fs = exposed_rule(t, tool, obs);
    if fs.len() > 0 {
        assert(fs[0].pointer.field != "observation.indicator_count"@);
    }
}

proof fn lemma_high_risk_rule_indicator(t: usize, tool: Option<Seq<char>>, obs: JsonValue)
    ensures
        indicator_ladder_ok(high_risk_rule(t, tool, obs), obs),
{
    reveal_strlit("observation.indicator_count");
    assert("observation.indicator_count"@.len() == 27);
    reveal_strlit("observation.high_risk_exposed_count");
    assert("observation.high_risk_exposed_count"@.len() == 35);
    let fs = high_risk_rule(t, tool, obs);
    if fs.len() > 0 {
        assert(fs[0].pointer.field != "observation.indicator_count"@);
    }
}

proof fn lemma_unknown_exposed_rule_indicator(t: usize, tool: Option<Seq<char>>, obs: JsonValue)
    ensures
        indicator_ladder_ok(unknown_exposed_rule(t, tool, obs), obs),
{
    reveal_strlit("observation.indicator_count");
    assert("observation.indicator_count"@.len() == 27);
    reveal_strlit("observation.unknown_exposed_process_count");
    assert("observation.unknown_exposed_process_count"@.len() == 41);
    let fs = unknown_exposed_rule(t, tool, obs);
    if fs.len() > 0 {
        assert(fs[0].pointer.field != "observation.indicator_count"@);
    }
}

proof fn lemma_risk_score_rule_indicator(t: usize, tool: Option<Seq<char>>, obs: JsonValue)
    ensures
        indicator_ladder_ok(risk_score_rule(t, tool, obs), obs),
{
    reveal_strlit("observation.indicator_count");
    assert("observation.indicator_count"@.len() == 27);
    reveal_strlit("observation.network_risk_score");
    assert("observation.network_risk_score"@.len() == 30);
    let fs = risk_score_rule(t, tool, obs);
    if fs.len() > 0 {
        assert(fs[0].pointer.field != "observation.indicator_count"@);
    }
}

proof fn lemma_hash_rule_indicator(t: usize, tool: Option<Seq<char>>, obs: JsonValue)
    ensures
        indicator_ladder_ok(hash_rule(t, tool, obs), obs),
{
    reveal_strlit("observation.indicator_count");
    assert("observation.indicator_count"@.len() == 27);
    reveal_strlit("observation.sha256");
    assert("observation.sha256"@.len() == 18);
    let fs = hash_rule(t, tool, obs);
    if fs.len() > 0 {
        assert(fs[0].pointer.field != "observation.indicator_count"@);
    }
}

proof fn lemma_ssh_rule_indicator(t: usize, tool: Option<Seq<char>>, obs: JsonValue)
    ensures
        indicator_ladder_ok(ssh_rule(t, tool, obs), obs),
{
    reveal_strlit("observation.indicator_count");
    assert("observation.indicator_count"@.len() == 27);
    reveal_strlit("observation.ssh_directories_scanned");
    assert("observation.ssh_directories_scanned"@.len() == 35);
    reveal_strlit("observation.total_authorized_keys_files");
    assert("observation.total_authorized_keys_files"@.len() == 39);
    let fs = ssh_rule(t, tool, obs);
    if fs.len() > 0 {
        assert(fs[0].pointer.field != "observation.indicator_count"@);
    }
}

proof fn lemma_lines_rule_indicator(t: usize, tool: Option<Seq<char>>, obs: JsonValue)
    ensures
        indicator_ladder_ok(lines_rule(t, tool, obs), obs),
{
    reveal_strlit("observation.indicator_count");
    assert("observation.indicator_count"@.len() == 27);
    reveal_strlit("observation.lines");
    assert("observation.lines"@.len() == 17);
    let fs = lines_rule(t, tool, obs);
    if fs.len() > 0 {
        assert(fs[0].pointer.field != "observation.indicator_count"@);
    }
}

proof fn lemma_observation_indicator(t: usize, tool: Option<Seq<char>>, obs: JsonValue)
    ensures
        indicator_ladder_ok(observation_findings(t, tool, obs), obs),
{
    lemma_error_rule_indicator(t, tool, obs);
    lemma_indicator_rule_indicator(t, tool, obs);
    lemma_listener_rule_indicator(t, tool, obs);
    lemma_baseline_rule_indicator(t, tool, obs);
    lemma_persistence_rule_indicator(t, tool, obs);
    lemma_baseline_new_rule_indicator(t, tool, obs);
    lemma_non_default_rule_indicator(t, tool, obs);
    lemma_newly_privileged_rule_indicator(t, tool, obs);
    lemma_unapproved_rule_indicator(t, tool, obs);
    lemma_exposed_rule_indicator(t, tool, obs);
    lemma_high_risk_rule_indicator(t, tool, obs);
    lemma_unknown_exposed_rule_indicator(t, tool, obs);
    lemma_risk_score_rule_indicator(t, tool, obs);
    lemma_hash_rule_indicator(t, tool, obs);
    lemma_ssh_rule_indicator(t, tool, obs);
    lemma_lines_rule_indicator(t, tool, obs);
    if get_str(obs, "error"@) is None {
        lemma_ladder_concat(indicator_rule(t, tool, obs), listener_rule(t, tool, obs), obs);
        lemma_ladder_concat(indicator_rule(t, tool, obs) + listener_rule(t, tool, obs), baseline_rule(t, tool, obs), obs);
        lemma_ladder_concat(indicator_rule(t, tool, obs) + listener_rule(t, tool, obs) + baseline_rule(t, tool, obs), persistence_rule(t, tool, obs), obs);
        lemma_ladder_concat(indicator_rule(t, tool, obs) + listener_rule(t, tool, obs) + baseline_rule(t, tool, obs) + persistence_rule(t, tool, obs), baseline_new_rule(t, tool, obs), obs);
        lemma_ladder_concat(indicator_rule(t, tool, obs) + listener_rule(t, tool, obs) + baseline_rule(t, tool, obs) + persistence_rule(t, tool, obs) + baseline_new_rule(t, tool, obs), non_default_rule(t, tool, obs), obs);
        lemma_ladder_concat(indicator_rule(t, tool, obs) + listener_rule(t, tool, obs) + baseline_rule(t, tool, obs) + persistence_rule(t, tool, obs) + baseline_new_rule(t, tool, obs) + non_default_rule(t, tool, obs), newly_privileged_rule(t, tool, obs), obs);
        lemma_ladder_concat(indicator_rule(t, tool, obs) + listener_rule(t, tool, obs) + baseline_rule(t, tool, obs) + persistence_rule(t, tool, obs) + baseline_new_rule(t, tool, obs) + non_default_rule(t, tool, obs) + newly_privileged_rule(t, tool, obs), unapproved_rule(t, tool, obs), obs);
        lemma_ladder_concat(indicator_rule(t, tool, obs) + listener_rule(t, tool, obs) + baseline_rule(t, tool, obs) + persistence_rule(t, tool, obs) + baseline_new_rule(t, tool, obs) + non_default_rule(t, tool, obs) + newly_privileged_rule(t, tool, obs) + unapproved_rule(t, tool, obs), exposed_rule(t, tool, obs), obs);
        lemma_ladder_concat(indicator_rule(t, tool, obs) + listener_rule(t, tool, obs) + baseline_rule(t, tool, obs) + persistence_rule(t, tool, obs) + baseline_new_rule(t, tool, obs) + non_default_rule(t, tool, obs) + newly_privileged_rule(t, tool, obs) + unapproved_rule(t, tool, obs) + exposed_rule(t, tool, obs), high_risk_rule(t, tool, obs), obs);
        lemma_ladder_concat(indicator_rule(t, tool, obs) + listener_rule(t, tool, obs) + baseline_rule(t, tool, obs) + persistence_rule(t, tool, obs) + baseline_new_rule(t, tool, obs) + non_default_rule(t, tool, obs) + newly_privileged_rule(t, tool, obs) + unapproved_rule(t, tool, obs) + exposed_rule(t, tool, obs) + high_risk_rule(t, tool, obs), unknown_exposed_rule(t, tool, obs), obs);
        lemma_ladder_concat(indicator_rule(t, tool, obs) + listener_rule(t, tool, obs) + baseline_rule(t, tool, obs) + persistence_rule(t, tool, obs) + baseline_new_rule(t, tool, obs) + non_default_rule(t, tool, obs) + newly_privileged_rule(t, tool, obs) + unapproved_rule(t, tool, obs) + exposed_rule(t, tool, obs) + high_risk_rule(t, tool, obs) + unknown_exposed_rule(t, tool, obs), risk_score_rule(t, tool, obs), obs);
        lemma_ladder_concat(indicator_rule(t, tool, obs) + listener_rule(t, tool, obs) + baseline_rule(t, tool, obs) + persistence_rule(t, tool, obs) + baseline_new_rule(t, tool, obs) + non_default_rule(t, tool, obs) + newly_privileged_rule(t, tool, obs) + unapproved_rule(t, tool, obs) + exposed_rule(t, tool, obs) + high_risk_rule(t, tool, obs) + unknown_exposed_rule(t, tool, obs) + risk_score_rule(t, tool, obs), hash_rule(t, tool, obs), obs);
        lemma_ladder_concat(indicator_rule(t, tool, obs) + listener_rule(t, tool, obs) + baseline_rule(t, tool, obs) + persistence_rule(t, tool, obs) + baseline_new_rule(t, tool, obs) + non_default_rule(t, tool, obs) + newly_privileged_rule(t, tool, obs) + unapproved_rule(t, tool, obs) + exposed_rule(t, tool, obs) + high_risk_rule(t, tool, obs) + unknown_exposed_rule(t, tool, obs) + risk_score_rule(t, tool, obs) + hash_rule(t, tool, obs), ssh_rule(t, tool, obs), obs);
        lemma_ladder_concat(indicator_rule(t, tool, obs) + listener_rule(t, tool, obs) + baseline_rule(t, tool, obs) + persistence_rule(t, tool, obs) + baseline_new_rule(t, tool, obs) + non_default_rule(t, tool, obs) + newly_privileged_rule(t, tool, obs) + unapproved_rule(t, tool, obs) + exposed_rule(t, tool, obs) + high_risk_rule(t, tool, obs) + unknown_exposed_rule(t, tool, obs) + risk_score_rule(t, tool, obs) + hash_rule(t, tool, obs) + ssh_rule(t, tool, obs), lines_rule(t, tool, obs), obs);
    }
}

/// A finding graded by the indicator count of the turn it points at: that turn holds
/// an observation with `n > 0` indicators, and the finding is High when `n >= 8`,
/// Medium when `4 <= n < 8` and Low when `n < 4`.
pub open spec fn indicator_graded(f: FindingView, turns: Seq<AgentTurn>) -> bool {
    match f.pointer.turn {
        Some(k) => 1 <= k <= turns.len() && match turns[k - 1].observation {
            Some(obs) => match get_u64(obs, "indicator_count"@) {
                Some(n) => n > 0 && f.severity == if n >= 8 {
                    FindingSeverity::High
                } else if n >= 4 {
                    FindingSeverity::Medium
                } else {
                    FindingSeverity::Low
                },
                None => false,
            },
            None => false,
        },
        None => false,
    }
}

proof fn lemma_raw_indicator(turns: Seq<AgentTurn>)
    requires
        turns.len() <= usize::MAX,
    ensures
        forall|i: int|
            0 <= i < raw_findings(turns).len() && (#[trigger] raw_findings(turns)[i]).pointer.field
                == "observation.indicator_count"@ ==> indicator_graded(raw_findings(turns)[i], turns),
    decreases turns.len(),
{
    lemma_raw_points_into(turns);
    if turns.len() > 0 {
        let p = turns.drop_last();
        lemma_raw_indicator(p);
        let n = turns.len() as usize;
        let a = raw_findings(p);
        let b = turn_findings(n, turns.last());
        match turns.last().observation {
            Some(obs) => {
                lemma_observation_indicator(n, turn_tool(turns.last()), obs);
                lemma_observation_pointed(n, turn_tool(turns.last()), obs);
            },
            None => {},
        }
        assert(raw_findings(turns) == a + b);
        assert forall|i: int|
            0 <= i < (a + b).len() && (#[trigger] (a + b)[i]).pointer.field == "observation.indicator_count"@ implies indicator_graded(
            (a + b)[i],
            turns,
        ) by {
            if i < a.len() {
                assert((a + b)[i] == a[i]);
                assert(indicator_graded(a[i], p));
                let k = a[i].pointer.turn->0;
                assert(turns[k - 1] == p[k - 1]);
            } else {
                let j = i - a.len();
                assert((a + b)[i] == b[j]);
                assert(turns[n - 1] == turns.last());
            }
        }
    }
}

/// A privilege-escalation indicator finding is graded by the count it reports: every
/// derived finding on `observation.indicator_count` points at a turn whose observation
/// holds `n > 0` indicators, and is High when `n >= 8`, Medium when `4 <= n < 8` and
/// Low when `n < 4` (see [`indicator_graded`]).
pub proof fn lemma_indicator_severity_ladder(turns: Seq<AgentTurn>, final_answer: Seq<char>)
    requires
        turns.len() <= usize::MAX,
    ensures
        forall|i: int|
            0 <= i < derive_findings_spec(turns, final_answer).len() && (#[trigger] derive_findings_spec(
                turns,
                final_answer,
            )[i]).pointer.field == "observation.indicator_count"@ ==> indicator_graded(
                derive_findings_spec(turns, final_answer)[i],
                turns,
            ),
{
    lemma_raw_indicator(turns);
    let raw = raw_findings(turns);
    let base = if raw.len() == 0 {
        seq![fallback_finding(final_answer)]
    } else {
        raw
    };
    let n = distinct_tool_count(base);
    let out = derive_findings_spec(turns, final_answer);
    reveal_strlit("final_answer");
    reveal_strlit("observation.indicator_count");
    assert("final_answer"@.len() == 12);
    assert("observation.indicator_count"@.len() == 27);
    assert forall|i: int|
        0 <= i < out.len() && (#[trigger] out[i]).pointer.field == "observation.indicator_count"@ implies indicator_graded(
        out[i],
        turns,
    ) by {
        let g = base[i];
        let h = corroborate(g, n);
        assert(out[i] == relabel(h));
        assert(h.pointer == g.pointer && h.severity == g.severity);
        if raw.len() == 0 {
            assert(g == fallback_finding(final_answer));
        } else {
            assert(g == raw[i]);
        }
    }
}

} // verus!
