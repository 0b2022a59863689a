use wraithrun::cli::LiveFallbackPolicy;
use wraithrun::json::JsonValue;
use wraithrun::json_text::compact_json;
use wraithrun::model::{EvidencePointer, Finding, FindingSeverity};
use wraithrun::plugin::PluginConfig;
use wraithrun::react::{plan_dry_run, DryRunPlan};
use wraithrun::run_report::{
    fallback_first_token_latency, live_fallback_decision, record_live_fallback, RunReport, RunTimingMetrics,
};
use wraithrun::time::secs_to_iso8601;
use wraithrun::tools::{builtin_tool, BuiltinTool};

fn dry_report(first_token: Option<u64>) -> RunReport {
    RunReport {
        task: "Investigate host".to_string(),
        case_id: None,
        max_severity: Some(FindingSeverity::Low),
        backend: None,
        live_fallback_decision: None,
        run_timing: Some(RunTimingMetrics { first_token_latency_ms: first_token, total_run_duration_ms: 7 }),
        live_run_metrics: None,
        turns: Vec::new(),
        final_answer: "done".to_string(),
        findings: vec![Finding::new(
            "Listener".to_string(),
            FindingSeverity::Low,
            60,
            EvidencePointer { turn: Some(1), tool: Some("scan_network".to_string()), field: "observation.listener_count".to_string() },
            "Check it.".to_string(),
        )],
        supplementary_findings: Vec::new(),
    }
}

#[test]
fn fallback_decision_only_under_dry_run_on_error() {
    assert!(live_fallback_decision(LiveFallbackPolicy::Disabled, "onnx session failed").is_none());
    let d = live_fallback_decision(LiveFallbackPolicy::DryRunOnError, "Tokenizer file not found: ./tok.json").unwrap();
    assert_eq!(d.policy, "dry-run-on-error");
    assert_eq!(d.reason, "live inference failed and runtime fell back to dry-run");
    assert_eq!(d.reason_code, "tokenizer_path_missing");
    assert_eq!(d.live_error, "Tokenizer file not found: ./tok.json");
    assert_eq!(d.fallback_mode, "dry-run");
}

#[test]
fn fallback_first_token_latency_adds_attempt_and_saturates() {
    assert_eq!(fallback_first_token_latency(120, None), None);
    assert_eq!(fallback_first_token_latency(120, Some(30)), Some(150));
    assert_eq!(fallback_first_token_latency(u64::MAX - 1, Some(5)), Some(u64::MAX));
}

#[test]
fn recorded_fallback_sets_decision_finding_and_metrics() {
    let mut report = dry_report(Some(30));
    let d = live_fallback_decision(LiveFallbackPolicy::DryRunOnError, "permission denied opening model").unwrap();
    record_live_fallback(&mut report, d, 100, 250);
    assert_eq!(report.live_fallback_decision.as_ref().unwrap().reason_code, "permission_denied");
    assert_eq!(report.findings.len(), 2);
    assert_eq!(report.findings[1].evidence_pointer.field, "live_fallback_decision.live_error");
    let m = report.live_run_metrics.as_ref().unwrap();
    assert_eq!(m.first_token_latency_ms, Some(130));
    assert_eq!(m.total_run_duration_ms, 250);
    assert_eq!(m.live_attempt_duration_ms, 100);
    assert_eq!(m.fallback_count, 1);
    assert_eq!(m.live_success_count, 0);
    assert_eq!(m.top_failure_reasons.len(), 1);
    assert_eq!(m.top_failure_reasons[0].reason_code, "permission_denied");
}

#[test]
fn registry_knows_the_eight_host_tools_by_exact_name() {
    assert_eq!(builtin_tool("scan_network"), Some(BuiltinTool::ScanNetwork));
    assert_eq!(builtin_tool("capture_coverage_baseline"), Some(BuiltinTool::CaptureCoverageBaseline));
    assert_eq!(builtin_tool("Scan_Network"), None);
    assert_eq!(builtin_tool("delete_everything"), None);
}

#[test]
fn dry_run_plan_stops_out_of_scope_tasks() {
    match plan_dry_run("Check if my AWS S3 buckets are misconfigured", 8, false, &None) {
        DryRunPlan::OutOfScope(f) => assert_eq!(f.evidence_pointer.field, "scope_check"),
        DryRunPlan::Investigate(_) => panic!("expected an out-of-scope plan"),
    }
    match plan_dry_run("Investigate unauthorized SSH keys on this host", 8, false, &None) {
        DryRunPlan::Investigate(calls) => assert!(!calls.is_empty()),
        DryRunPlan::OutOfScope(_) => panic!("expected an investigation"),
    }
}

#[test]
fn unparsable_decimal_is_written_as_null() {
    let doc = JsonValue::Object(vec![
        ("a".to_string(), JsonValue::Decimal("1.5".to_string())),
        ("b".to_string(), JsonValue::Decimal("not-a-number".to_string())),
    ]);
    assert_eq!(compact_json(&doc), "{\"a\":1.5,\"b\":null}");
}

#[test]
fn plugin_allow_list_holds_each_given_name_once() {
    let config = PluginConfig::new(
        "/tools".to_string(),
        vec!["alpha".to_string(), "beta".to_string(), "alpha".to_string()],
    );
    assert_eq!(config.allowed_plugins, vec!["alpha".to_string(), "beta".to_string()]);
}

#[test]
fn leap_day_and_april_24_lie_420_days_apart() {
    // 1709164800 is 2024-02-29; 420 days later is 1745452800.
    assert_eq!(1_709_164_800u64 + 420 * 86_400, 1_745_452_800u64);
    assert_eq!(secs_to_iso8601(1_709_164_800 + 420 * 86_400), "2025-04-24T00:00:00Z");
}

#[test]
fn later_instants_render_later_texts() {
    assert!(secs_to_iso8601(59) < secs_to_iso8601(60));
    assert!(secs_to_iso8601(1_709_164_799) < secs_to_iso8601(1_709_164_800));
    assert!(secs_to_iso8601(86_399) < secs_to_iso8601(86_400));
}
