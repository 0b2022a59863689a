use wraithrun::adapter::render_findings_adapter_v1;
use wraithrun::cli::TaskTemplate;
use wraithrun::config::{FileConfig, RuntimeConfig, SettingsFragment};
use wraithrun::doctor::{DoctorReport, DoctorStatus};
use wraithrun::model::{EvidencePointer, Finding, FindingSeverity};
use wraithrun::profiles::{
    benchmark_latency_tier, model_pack_candidates, model_pack_profile_names, pack_readiness,
    render_model_pack_validation, render_profile_list, render_profile_list_json, selected_profile_source,
    ValidatedPack,
};
use wraithrun::run_report::{LiveFallbackDecision, RunReport};
use wraithrun::task_input::{decode_task_text, file_task, inline_task, missing_task, stdin_task, task_source, TaskSource};

fn config_with(names: &[&str]) -> FileConfig {
    FileConfig {
        defaults: SettingsFragment::empty(),
        profiles: names.iter().map(|n| (n.to_string(), SettingsFragment::empty())).collect(),
    }
}

fn finding(title: &str, severity: FindingSeverity, confidence: u32) -> Finding {
    Finding::new(
        title.to_string(),
        severity,
        confidence,
        EvidencePointer { turn: Some(1), tool: Some("read_syslog".to_string()), field: "observation.x".to_string() },
        "Investigate further.".to_string(),
    )
}

fn report_with(findings: Vec<Finding>) -> RunReport {
    RunReport {
        task: "Investigate host".to_string(),
        case_id: Some("CASE-1".to_string()),
        max_severity: None,
        backend: None,
        live_fallback_decision: None,
        run_timing: None,
        live_run_metrics: None,
        turns: Vec::new(),
        final_answer: "done".to_string(),
        findings,
        supplementary_findings: Vec::new(),
    }
}

// ── Profiles ──

#[test]
fn profile_list_orders_config_profiles_by_name() {
    let config = config_with(&["zeta", "alpha"]);
    let text = render_profile_list(Some("alpha"), Some("wraithrun.toml"), Some(&config));
    assert!(text.starts_with("WraithRun Profiles\nBuilt-in profiles:\n- local-lab: dry-run, compact step/token budget, summary output\n"));
    assert!(text.contains("Config file: wraithrun.toml\nConfig-defined profiles:\n- alpha\n- zeta\nSelected profile: alpha\nProfile source: config"));
}

#[test]
fn renders_profile_list_without_config() {
    let text = render_profile_list(None, None, None);
    assert!(text.contains("Config file: none detected\nConfig-defined profiles:\n- (none)"));
    assert!(!text.contains("Selected profile"));
}

#[test]
fn profile_list_json_reports_both_sources() {
    let config = config_with(&["local-lab"]);
    let json: serde_json::Value =
        serde_json::from_str(&render_profile_list_json(Some("local-lab"), None, Some(&config))).expect("json");
    assert_eq!(json["contract_version"], "1.0.0");
    assert_eq!(json["built_in_profiles"].as_array().map(|a| a.len()), Some(6));
    assert_eq!(json["config_profiles"][0], "local-lab");
    assert_eq!(json["selected_profile"]["source"], "built-in+config");
    assert!(json["config_path"].is_null());
}

#[test]
fn selected_profile_sources() {
    let config = config_with(&["custom"]);
    assert_eq!(selected_profile_source("LIVE-FAST", None), "built-in");
    assert_eq!(selected_profile_source("custom", Some(&config)), "config");
    assert_eq!(selected_profile_source("nope", Some(&config)), "missing");
}

#[test]
fn model_pack_names_list_presets_then_config_profiles_once() {
    let config = config_with(&["team", "Live-Fast"]);
    let names = model_pack_profile_names(None, Some(&config));
    assert_eq!(names, vec!["live-fast", "live-balanced", "live-deep", "live-model", "team"]);
    assert_eq!(model_pack_profile_names(Some("local-lab"), None), vec!["local-lab"]);
}

#[test]
fn model_pack_candidates_keep_live_packs_and_report_failures() {
    let mut live = RuntimeConfig::new("models-mode".to_string());
    live.live = true;
    let dry = RuntimeConfig::new("models-mode".to_string());
    let packs = model_pack_candidates(
        None,
        None,
        vec!["live-fast".to_string(), "local-lab".to_string()],
        vec![Ok(live), Ok(dry)],
    )
    .expect("one live pack");
    assert_eq!(packs.len(), 1);
    assert_eq!(packs[0].name, "live-fast");
    assert_eq!(packs[0].source, "preset");

    let none = model_pack_candidates(Some("local-lab"), None, vec!["local-lab".to_string()], vec![Ok(RuntimeConfig::new("t".to_string()))]);
    assert_eq!(
        none.err().as_deref(),
        Some("Profile 'local-lab' did not resolve to a live model pack. Choose a live profile or preset (live-fast, live-balanced, live-deep).")
    );
    let failed = model_pack_candidates(None, None, vec!["x".to_string()], vec![Err("bad config".to_string())]);
    assert_eq!(failed.err().as_deref(), Some("bad config"));
}

#[test]
fn model_pack_validation_listing_and_readiness() {
    let mut report = DoctorReport::new();
    report.push(DoctorStatus::Pass, "live-model-path", "Model file found: m.onnx");
    report.push_with_reason(DoctorStatus::Warn, "live-model-format", "not onnx", Some("model_format_non_onnx"));
    assert_eq!(pack_readiness(&report), DoctorStatus::Warn);
    let packs = vec![ValidatedPack { name: "live-fast".to_string(), source: "preset".to_string(), report }];
    let text = render_model_pack_validation(&packs);
    assert_eq!(
        text,
        "WraithRun Model Pack Validation\nSummary: 1 pass, 1 warn, 0 fail\n\nlive-fast [preset] => 1 pass, 1 warn, 0 fail\n  - [PASS] live-model-path: Model file found: m.onnx\n  - [WARN] live-model-format [model_format_non_onnx]: not onnx"
    );
    assert_eq!(benchmark_latency_tier(2048), "fast");
    assert_eq!(benchmark_latency_tier(2049), "balanced");
    assert_eq!(benchmark_latency_tier(8193), "deep");
}

// ── Findings adapter ──

#[test]
fn findings_adapter_counts_and_numbers_findings() {
    let report = report_with(vec![
        finding("Low one", FindingSeverity::Low, 40),
        finding("High one", FindingSeverity::High, 85),
    ]);
    let json: serde_json::Value = serde_json::from_str(&render_findings_adapter_v1(&report)).expect("json");
    assert_eq!(json["adapter"], "findings-v1");
    assert_eq!(json["contract_version"], "1.0.0");
    assert_eq!(json["summary"]["finding_count"], 2);
    assert_eq!(json["summary"]["highest_severity"], "high");
    assert_eq!(json["summary"]["severity_counts"]["low"], 1);
    assert_eq!(json["summary"]["severity_counts"]["high"], 1);
    assert_eq!(json["summary"]["case_id"], "CASE-1");
    assert_eq!(json["findings"][0]["finding_id"], "F-0001");
    assert_eq!(json["findings"][1]["finding_id"], "F-0002");
    assert_eq!(json["findings"][1]["confidence"], 0.85);
    assert_eq!(json["findings"][1]["evidence_pointer"]["tool"], "read_syslog");
}

#[test]
fn findings_adapter_without_findings_reports_none() {
    let mut report = report_with(Vec::new());
    report.case_id = None;
    report.live_fallback_decision = Some(LiveFallbackDecision {
        policy: "dry-run-on-error".to_string(),
        reason: "live failed".to_string(),
        reason_code: "live_runtime_error".to_string(),
        live_error: "boom".to_string(),
        fallback_mode: "dry-run".to_string(),
    });
    let json: serde_json::Value = serde_json::from_str(&render_findings_adapter_v1(&report)).expect("json");
    assert_eq!(json["summary"]["highest_severity"], "none");
    assert!(json["summary"].get("case_id").is_none());
    assert_eq!(json["summary"]["live_fallback_decision"]["reason_code"], "live_runtime_error");
}

// ── Task input ──

#[test]
fn task_source_follows_option_precedence() {
    assert!(matches!(task_source(Some("t".to_string()), true, None, None), TaskSource::Inline(_)));
    assert!(matches!(task_source(None, true, Some("f".to_string()), None), TaskSource::Stdin));
    assert!(matches!(task_source(None, false, Some("f".to_string()), Some(TaskTemplate::SshKeys)), TaskSource::File(_)));
    assert!(matches!(task_source(None, false, None, Some(TaskTemplate::SshKeys)), TaskSource::Template(_)));
    assert!(matches!(task_source(None, false, None, None), TaskSource::Missing));
    assert!(missing_task().starts_with("Either --task, --task-stdin, --task-file, or --task-template is required"));
}

#[test]
fn inline_and_stdin_tasks_are_trimmed_and_must_not_be_empty() {
    assert_eq!(inline_task("  check ssh  "), Ok("check ssh".to_string()));
    assert_eq!(inline_task("   "), Err("--task cannot be empty".to_string()));
    assert_eq!(stdin_task("\nscan\n"), Ok("scan".to_string()));
    assert_eq!(stdin_task(" \n"), Err("Stdin task input is empty".to_string()));
}

#[test]
fn task_files_decode_boms_and_reject_bad_utf8() {
    assert_eq!(decode_task_text(&b"\xEF\xBB\xBFhello".to_vec(), "t.txt"), Ok("hello".to_string()));
    assert_eq!(decode_task_text(&vec![0xFF, 0xFE, b'h', 0, b'i', 0], "t.txt"), Ok("hi".to_string()));
    assert_eq!(decode_task_text(&vec![0xFE, 0xFF, 0, b'h'], "t.txt"), Ok("h".to_string()));
    assert_eq!(
        decode_task_text(&vec![0xC3, 0x28], "t.txt"),
        Err("Task file 't.txt' is not valid UTF-8".to_string())
    );
    assert_eq!(file_task(&b"  audit accounts \n".to_vec(), "t.txt"), Ok("audit accounts".to_string()));
    assert_eq!(file_task(&b" \n".to_vec(), "t.txt"), Err("Task file 't.txt' is empty".to_string()));
}
