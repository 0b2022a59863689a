use wraithrun::agent::{extract_tag, format_react_system_prompt, tool_call_from_json};
use wraithrun::derive::derive_findings;
use wraithrun::json::JsonValue;
use wraithrun::model::{
    confidence_to_label, AgentTurn, EvidencePointer, Finding, FindingConfidence, FindingRelevance,
    FindingSeverity, ModelCapabilityTier, ToolCall,
};
use wraithrun::report::{
    deduplicate_findings, is_low_quality, max_severity, quality_checked_final_answer, sort_findings,
};
use wraithrun::summary::{basic_tier_summary, basic_tier_summary_for_task};
use wraithrun::templates::{check_task_scope, resolve_investigation_template};

fn obj(members: Vec<(&str, JsonValue)>) -> JsonValue {
    JsonValue::Object(members.into_iter().map(|(k, v)| (k.to_string(), v)).collect())
}

fn s(v: &str) -> JsonValue {
    JsonValue::Str(v.to_string())
}

fn turn(tool: &str, observation: JsonValue) -> AgentTurn {
    AgentTurn {
        thought: "<call>{...}</call>".to_string(),
        tool_call: Some(ToolCall { tool: tool.to_string(), args: obj(vec![]) }),
        observation: Some(observation),
        elapsed_ms: None,
    }
}

/// Confidences are in hundredths: 70 stands for 0.70.
fn make_finding(title: &str, severity: FindingSeverity, confidence: u32, tool: &str, field: &str) -> Finding {
    Finding::new(
        title.to_string(),
        severity,
        confidence,
        EvidencePointer { turn: Some(1), tool: Some(tool.to_string()), field: field.to_string() },
        "Investigate further.".to_string(),
    )
}

// ── Investigation templates ──

#[test]
fn resolves_ssh_template_for_ssh_task() {
    let template = resolve_investigation_template("Investigate unauthorized SSH keys");
    assert_eq!(template.name, "ssh-key-investigation");
}

#[test]
fn resolves_network_template_for_listener_task() {
    let template = resolve_investigation_template("Check suspicious listener ports");
    assert_eq!(template.name, "network-exposure-audit");
}

#[test]
fn resolves_persistence_template() {
    let template = resolve_investigation_template("Analyze autorun persistence entries");
    assert_eq!(template.name, "persistence-analysis");
}

#[test]
fn resolves_privilege_escalation_template() {
    let template = resolve_investigation_template("Review local privilege escalation indicators");
    assert_eq!(template.name, "privilege-escalation-check");
}

#[test]
fn resolves_file_integrity_template() {
    let template = resolve_investigation_template("Verify hash integrity of system binaries");
    assert_eq!(template.name, "file-integrity-check");
}

#[test]
fn falls_back_to_broad_triage_for_generic_task() {
    let template = resolve_investigation_template("Perform a quick triage of this host");
    assert_eq!(template.name, "broad-host-triage");
}

#[test]
fn template_resolution_is_case_insensitive() {
    let template = resolve_investigation_template("CHECK SSH ACCESS NOW");
    assert_eq!(template.name, "ssh-key-investigation");
}

#[test]
fn higher_keyword_count_wins() {
    let template = resolve_investigation_template("Investigate network lateral movement indicators");
    assert_eq!(template.name, "network-exposure-audit");
}

// ── Task scope ──

#[test]
fn out_of_scope_cloud_task_returns_finding() {
    let finding = check_task_scope("Check if my AWS S3 buckets are misconfigured");
    assert!(finding.is_some());
    let f = finding.unwrap();
    assert_eq!(f.severity, FindingSeverity::Info);
    assert!(f.title.contains("outside the scope"));
    assert!(f.recommended_action.contains("aws"));
}

#[test]
fn out_of_scope_kubernetes_task_returns_finding() {
    let finding = check_task_scope("Analyze Kubernetes pod security policies");
    assert!(finding.is_some());
}

#[test]
fn in_scope_host_task_returns_none() {
    let finding = check_task_scope("Investigate unauthorized SSH keys on this host");
    assert!(finding.is_none());
}

#[test]
fn in_scope_network_task_returns_none() {
    let finding = check_task_scope("Check network listener ports for suspicious activity");
    assert!(finding.is_none());
}

#[test]
fn mixed_scope_with_in_scope_keyword_returns_none() {
    let finding = check_task_scope("Check host logs for cloud credential leaks");
    assert!(finding.is_none());
}

#[test]
fn generic_task_without_scope_keywords_returns_none() {
    let finding = check_task_scope("Perform a general security assessment");
    assert!(finding.is_none());
}

// ── ReAct helpers ──

#[test]
fn react_system_prompt_includes_task_and_tools() {
    let prompt = format_react_system_prompt("Check SSH keys", "- scan_network: scan");
    assert!(prompt.contains("Check SSH keys"));
    assert!(prompt.contains("scan_network"));
    assert!(prompt.contains("<call>"));
    assert!(prompt.contains("<final>"));
}

#[test]
fn extracts_final_tag() {
    let text = "noise <final>done</final> trailing";
    let final_text = extract_tag(text, "final").expect("final tag should parse");
    assert_eq!(final_text, "done");
}

#[test]
fn extract_tag_without_closing_tag_is_none() {
    assert!(extract_tag("<call>{\"tool\":\"x\"}", "call").is_none());
    assert!(extract_tag("no tags here", "final").is_none());
}

#[test]
fn tool_call_from_parsed_object_reads_tool_and_args() {
    let parsed = obj(vec![("tool", s("scan_network")), ("args", obj(vec![("limit", JsonValue::UInt(40))]))]);
    let call = tool_call_from_json(parsed).expect("tool call should be read");
    assert_eq!(call.tool, "scan_network");
    match call.args {
        JsonValue::Object(m) => {
            assert_eq!(m.len(), 1);
            assert_eq!(m[0].0, "limit");
            assert!(matches!(m[0].1, JsonValue::UInt(40)));
        },
        _ => panic!("args should be an object"),
    }
}

#[test]
fn tool_call_from_parsed_object_defaults_args_to_empty_object() {
    let call = tool_call_from_json(obj(vec![("tool", s("scan_network"))])).expect("tool call");
    assert_eq!(call.tool, "scan_network");
    assert!(matches!(call.args, JsonValue::Object(ref m) if m.is_empty()));
}

#[test]
fn tool_call_from_parsed_object_without_tool_is_none() {
    assert!(tool_call_from_json(obj(vec![("args", obj(vec![]))])).is_none());
    assert!(tool_call_from_json(s("not an object")).is_none());
}

// ── Findings from observations ──

#[test]
fn derives_privilege_indicator_finding() {
    let turns = vec![turn(
        "check_privilege_escalation_vectors",
        obj(vec![
            ("indicator_count", JsonValue::UInt(2)),
            ("potential_vectors", JsonValue::Array(vec![s("SeDebugPrivilege")])),
        ]),
    )];
    let findings = derive_findings(&turns, "final");
    assert!(findings.iter().any(|f| f.title.contains("Privilege escalation indicators")));
    assert!(findings.iter().any(|f| f.evidence_pointer.field == "observation.indicator_count"));
}

#[test]
fn derives_error_finding_for_failed_tool_observation() {
    let turns = vec![turn("scan_network", obj(vec![("error", s("socket inventory command failed"))]))];
    let findings = derive_findings(&turns, "final");
    assert!(findings.iter().any(|f| f.severity == FindingSeverity::High));
    assert!(findings
        .iter()
        .any(|f| f.evidence_pointer.field == "observation.error" && f.evidence_pointer.turn == Some(1)));
}

#[test]
fn emits_fallback_finding_when_no_signals_exist() {
    let turns = vec![AgentTurn {
        thought: "No-op".to_string(),
        tool_call: None,
        observation: None,
        elapsed_ms: None,
    }];
    let findings = derive_findings(&turns, "No significant anomalies detected.");
    assert_eq!(findings.len(), 1);
    assert_eq!(findings[0].severity, FindingSeverity::Info);
    assert_eq!(findings[0].evidence_pointer.field, "final_answer");
}

#[test]
fn derives_persistence_finding_from_suspicious_entries() {
    let turns = vec![turn(
        "inspect_persistence_locations",
        obj(vec![
            ("entry_count", JsonValue::UInt(12)),
            ("suspicious_entry_count", JsonValue::UInt(2)),
            ("actionable_suspicious_count", JsonValue::UInt(2)),
        ]),
    )];
    let findings = derive_findings(&turns, "final");
    assert!(findings.iter().any(|f| {
        f.title.contains("Actionable suspicious persistence entries")
            && f.evidence_pointer.field == "observation.actionable_suspicious_count"
    }));
}

#[test]
fn derives_privileged_account_drift_finding() {
    let turns = vec![turn(
        "audit_account_changes",
        obj(vec![
            ("newly_privileged_account_count", JsonValue::UInt(1)),
            ("newly_privileged_accounts", JsonValue::Array(vec![s("svc-backup")])),
        ]),
    )];
    let findings = derive_findings(&turns, "final");
    assert!(findings.iter().any(|f| {
        f.title.contains("Privileged account baseline drift detected")
            && f.evidence_pointer.field == "observation.newly_privileged_account_count"
    }));
}

#[test]
fn derives_critical_network_risk_finding() {
    let turns = vec![turn(
        "correlate_process_network",
        obj(vec![
            ("externally_exposed_count", JsonValue::UInt(4)),
            ("high_risk_exposed_count", JsonValue::UInt(2)),
            ("network_risk_score", JsonValue::UInt(78)),
        ]),
    )];
    let findings = derive_findings(&turns, "final");
    assert!(findings.iter().any(|f| {
        f.title.contains("Network exposure risk score")
            && f.severity == FindingSeverity::Critical
            && f.evidence_pointer.field == "observation.network_risk_score"
    }));
}

#[test]
fn derives_baseline_capture_finding() {
    let turns = vec![turn(
        "capture_coverage_baseline",
        obj(vec![
            ("baseline_version", s("coverage-v1")),
            ("baseline_entries_count", JsonValue::UInt(24)),
            ("baseline_privileged_account_count", JsonValue::UInt(3)),
            ("baseline_exposed_binding_count", JsonValue::UInt(5)),
        ]),
    )];
    let findings = derive_findings(&turns, "final");
    assert!(findings.iter().any(|f| {
        f.title.contains("Coverage baseline captured")
            && f.severity == FindingSeverity::Info
            && f.evidence_pointer.field == "observation.baseline_version"
    }));
}

#[test]
fn derive_findings_backfills_confidence_labels() {
    let turns = vec![turn("scan_network", obj(vec![("error", s("boom"))]))];
    let findings = derive_findings(&turns, "final");
    assert!(!findings.is_empty());
    for f in &findings {
        assert_eq!(f.confidence_label, confidence_to_label(f.confidence));
    }
}

// ── Deduplication, ordering and the strongest severity ──

#[test]
fn deduplicates_findings_by_field_keeps_higher_authority() {
    let findings = vec![
        make_finding("Listeners via scan_network", FindingSeverity::Medium, 70, "scan_network", "observation.listener_count"),
        make_finding(
            "Listeners via correlate",
            FindingSeverity::Medium,
            65,
            "correlate_process_network",
            "observation.listener_count",
        ),
    ];
    let deduped = deduplicate_findings(findings);
    assert_eq!(deduped.len(), 1);
    assert!(deduped[0].title.contains("correlate"));
}

#[test]
fn dedup_preserves_error_and_final_answer_fields() {
    let findings = vec![
        make_finding("Error 1", FindingSeverity::High, 90, "scan_network", "observation.error"),
        make_finding("Error 2", FindingSeverity::High, 90, "scan_network", "observation.error"),
        make_finding("Fallback", FindingSeverity::Info, 50, "", "final_answer"),
    ];
    let deduped = deduplicate_findings(findings);
    assert_eq!(deduped.len(), 3);
}

#[test]
fn sort_findings_by_severity_then_confidence() {
    let mut findings = vec![
        make_finding("A", FindingSeverity::Low, 90, "scan_network", "a"),
        make_finding("B", FindingSeverity::Critical, 50, "scan_network", "b"),
        make_finding("C", FindingSeverity::High, 80, "scan_network", "c"),
        make_finding("D", FindingSeverity::High, 95, "scan_network", "d"),
    ];
    sort_findings(&mut findings);
    assert_eq!(findings[0].severity, FindingSeverity::Critical);
    assert_eq!(findings[1].severity, FindingSeverity::High);
    assert!(findings[1].confidence > findings[2].confidence);
    assert_eq!(findings[3].severity, FindingSeverity::Low);
}

#[test]
fn max_severity_returns_highest() {
    let findings = vec![
        make_finding("A", FindingSeverity::Info, 50, "scan_network", "a"),
        make_finding("B", FindingSeverity::High, 50, "scan_network", "b"),
        make_finding("C", FindingSeverity::Medium, 50, "scan_network", "c"),
    ];
    assert_eq!(max_severity(&findings), Some(FindingSeverity::High));
}

#[test]
fn max_severity_returns_none_for_empty() {
    let findings: Vec<Finding> = vec![];
    assert_eq!(max_severity(&findings), None);
}

// ── Answer quality ──

#[test]
fn low_quality_detects_short_text() {
    assert!(is_low_quality("too short"));
}

#[test]
fn low_quality_detects_repetitive_text() {
    let repeated = "The system is compromised and needs attention. ".repeat(5);
    assert!(is_low_quality(&repeated));
}

#[test]
fn low_quality_accepts_normal_text() {
    let normal = "The investigation found 3 suspicious network listeners on non-standard ports. One process (PID 4321) is associated with an unknown binary.";
    assert!(!is_low_quality(normal));
}

#[test]
fn quality_check_replaces_bad_output_with_deterministic_summary() {
    let findings = vec![make_finding(
        "Active listeners",
        FindingSeverity::Medium,
        70,
        "scan_network",
        "observation.listener_count",
    )];
    let result = quality_checked_final_answer("bad", &findings);
    assert!(result.starts_with("SUMMARY:"));
    assert!(result.contains("1 finding(s)"));
    assert!(result.contains("medium"));
}

#[test]
fn quality_check_preserves_good_output() {
    let findings = vec![make_finding(
        "Active listeners",
        FindingSeverity::Medium,
        70,
        "scan_network",
        "observation.listener_count",
    )];
    let good = "The investigation revealed 3 suspicious listener ports that warrant further analysis and correlation with expected services.";
    let result = quality_checked_final_answer(good, &findings);
    assert_eq!(result, good);
}

// ── Orderings, labels and defaults ──

#[test]
fn finding_severity_ordering() {
    assert!(FindingSeverity::Critical > FindingSeverity::High);
    assert!(FindingSeverity::High > FindingSeverity::Medium);
    assert!(FindingSeverity::Medium > FindingSeverity::Low);
    assert!(FindingSeverity::Low > FindingSeverity::Info);
}

#[test]
fn tier_ordering() {
    assert!(ModelCapabilityTier::Basic < ModelCapabilityTier::Moderate);
    assert!(ModelCapabilityTier::Moderate < ModelCapabilityTier::Strong);
}

#[test]
fn finding_confidence_label_ordering() {
    assert!(FindingConfidence::Confirmed > FindingConfidence::Likely);
    assert!(FindingConfidence::Likely > FindingConfidence::Possible);
    assert!(FindingConfidence::Possible > FindingConfidence::Informational);
}

#[test]
fn finding_relevance_default_is_primary() {
    assert_eq!(FindingRelevance::default(), FindingRelevance::Primary);
}

#[test]
fn confidence_label_confirmed_threshold() {
    assert_eq!(confidence_to_label(90), FindingConfidence::Confirmed);
    assert_eq!(confidence_to_label(99), FindingConfidence::Confirmed);
    assert_eq!(confidence_to_label(100), FindingConfidence::Confirmed);
}

#[test]
fn confidence_label_likely_threshold() {
    assert_eq!(confidence_to_label(72), FindingConfidence::Likely);
    assert_eq!(confidence_to_label(89), FindingConfidence::Likely);
}

#[test]
fn confidence_label_possible_threshold() {
    assert_eq!(confidence_to_label(55), FindingConfidence::Possible);
    assert_eq!(confidence_to_label(71), FindingConfidence::Possible);
}

#[test]
fn confidence_label_informational_threshold() {
    assert_eq!(confidence_to_label(54), FindingConfidence::Informational);
    assert_eq!(confidence_to_label(10), FindingConfidence::Informational);
    assert_eq!(confidence_to_label(0), FindingConfidence::Informational);
}

#[test]
fn finding_new_auto_derives_confidence_label() {
    let finding = make_finding("Test", FindingSeverity::High, 92, "scan_network", "a");
    assert_eq!(finding.confidence_label, FindingConfidence::Confirmed);
    let finding = make_finding("Test", FindingSeverity::Low, 60, "scan_network", "b");
    assert_eq!(finding.confidence_label, FindingConfidence::Possible);
}

// ── Basic-tier summaries ──

#[test]
fn basic_tier_summary_empty_findings() {
    let summary = basic_tier_summary(&vec![]);
    assert!(summary.starts_with("SUMMARY: 0 findings detected."));
    assert!(summary.contains("RISK: info"));
}

#[test]
fn basic_tier_summary_with_findings() {
    let findings = vec![
        make_finding("Active listeners", FindingSeverity::High, 80, "scan_network", "observation.listener_count"),
        make_finding(
            "Suspicious persistence",
            FindingSeverity::Medium,
            70,
            "inspect_persistence_locations",
            "observation.suspicious_entry_count",
        ),
    ];
    let summary = basic_tier_summary(&findings);
    assert!(summary.contains("INVESTIGATION SUMMARY"));
    assert!(summary.contains("2 findings"));
    assert!(summary.contains("HIGH"));
    assert!(summary.contains("Active listeners"));
    assert!(summary.contains("Suspicious persistence"));
    assert!(summary.contains("OVERALL RISK: HIGH"));
    assert!(summary.contains("RECOMMENDED ACTIONS"));
    assert!(summary.contains("CROSS-REFERENCES"));
}

#[test]
fn basic_tier_summary_is_deterministic() {
    let findings = vec![make_finding("Test", FindingSeverity::Low, 50, "scan_network", "a")];
    let a = basic_tier_summary(&findings);
    let b = basic_tier_summary(&findings);
    assert_eq!(a, b);
}

#[test]
fn basic_tier_summary_for_task_includes_task_name() {
    let findings = vec![make_finding(
        "Priv-esc detected",
        FindingSeverity::High,
        85,
        "check_privilege_escalation_vectors",
        "observation.indicator_count",
    )];
    let summary = basic_tier_summary_for_task(&findings, Some("windows-triage"));
    assert!(summary.contains("windows-triage"));
    assert!(summary.contains("1 tool(s)"));
    assert!(summary.contains("RECOMMENDED ACTIONS"));
}
