use wraithrun::cli::{
    evaluate_exit_policy, render_task_template_list, render_task_template_list_json,
    resolve_task_from_template, validate_case_id, ExitPolicy, ExitSeverityThreshold,
    LiveFallbackPolicy, LogMode, OutputFormat, OutputMode, TaskTemplate,
};
use wraithrun::config::{
    layer_settings, layer_settings_with_explanation, validate_runtime_config, CliSettings,
    FileConfig, PathKind, RuntimeConfig, SettingsFragment,
};
use wraithrun::doctor::{render_doctor_report, render_doctor_report_json, DoctorReport, DoctorStatus};
use wraithrun::json::JsonValue;
use wraithrun::model::{AgentTurn, EvidencePointer, Finding, FindingSeverity, ToolCall};
use wraithrun::run_report::{
    append_live_fallback_finding, build_live_run_metrics, render_markdown, render_summary,
    summarize_observation, LiveFallbackDecision, RunReport, RunTimingMetrics,
};
use wraithrun::tool_query::{
    render_tool_detail, render_tool_detail_json, render_tool_list, render_tool_list_json,
    run_describe_tool, run_list_tools, IntrospectionFormat,
};
use wraithrun::catalog::default_tool_specs;

fn obj(members: Vec<(&str, JsonValue)>) -> JsonValue {
    JsonValue::Object(members.into_iter().map(|(k, v)| (k.to_string(), v)).collect())
}

fn base_cli() -> CliSettings {
    CliSettings {
        model: None,
        tokenizer: None,
        max_steps: None,
        max_new_tokens: None,
        temperature: None,
        live: false,
        dry_run: false,
        live_fallback_policy: None,
        format: None,
        output_mode: None,
        automation_adapter: None,
        exit_policy: None,
        exit_threshold: None,
        output_file: None,
        case_id: None,
        evidence_bundle_dir: None,
        evidence_bundle_archive: None,
        baseline_bundle: None,
        quiet: false,
        verbose: false,
        vitis_config: None,
        vitis_cache_dir: None,
        vitis_cache_key: None,
    }
}

/// Layers and validates settings as a run does (no baseline bundle is involved here).
fn merge_sources(
    cli: &CliSettings,
    task: String,
    profile: Option<String>,
    file_config: Option<&FileConfig>,
    file_config_path: Option<&str>,
    env_overrides: &SettingsFragment,
) -> Result<RuntimeConfig, String> {
    let resolved = layer_settings(cli, task, profile, file_config, file_config_path, env_overrides)?;
    validate_runtime_config(&resolved, PathKind::Missing)?;
    Ok(resolved)
}

fn sample_report() -> RunReport {
    RunReport {
        task: "Check suspicious listener ports and summarize risk".to_string(),
        case_id: Some("CASE-2026-0001".to_string()),
        max_severity: Some(FindingSeverity::Medium),
        backend: None,
        live_fallback_decision: None,
        run_timing: None,
        live_run_metrics: None,
        turns: vec![AgentTurn {
            thought: "<call>{...}</call>".to_string(),
            tool_call: Some(ToolCall {
                tool: "scan_network".to_string(),
                args: obj(vec![("limit", JsonValue::UInt(40))]),
            }),
            observation: Some(obj(vec![
                ("listener_count", JsonValue::UInt(3)),
                ("listeners", JsonValue::Array(vec![])),
            ])),
            elapsed_ms: None,
        }],
        final_answer: "Dry-run cycle complete.".to_string(),
        findings: vec![Finding::new(
            "Active listening sockets observed (3)".to_string(),
            FindingSeverity::Medium,
            68,
            EvidencePointer {
                turn: Some(1),
                tool: Some("scan_network".to_string()),
                field: "observation.listener_count".to_string(),
            },
            "Correlate listener PIDs and ports with expected services.".to_string(),
        )],
        supplementary_findings: vec![],
    }
}

fn sample_doctor_report() -> DoctorReport {
    let mut report = DoctorReport::default();
    report.push(DoctorStatus::Pass, "config-file", "loaded config");
    report.push(DoctorStatus::Warn, "live-model-path", "missing model");
    report.push(DoctorStatus::Fail, "effective-runtime", "invalid profile");
    report
}

// ── Doctor ──

#[test]
fn renders_doctor_report_summary() {
    let report = sample_doctor_report();
    let rendered = render_doctor_report(&report);
    assert!(rendered.contains("WraithRun Doctor"));
    assert!(rendered.contains("Summary: 1 pass, 1 warn, 1 fail"));
    assert!(rendered.contains("[FAIL] effective-runtime"));
}

#[test]
fn renders_doctor_report_json() {
    let report = sample_doctor_report();
    let rendered = render_doctor_report_json(&report);
    assert!(rendered.contains("\"contract_version\": \"1.0.0\""));
    assert!(rendered.contains("\"summary\""));
    assert!(rendered.contains("\"pass\": 1"));
    assert!(rendered.contains("\"status\": \"fail\""));
}

// ── Task templates ──

#[test]
fn renders_task_template_list() {
    let rendered = render_task_template_list();
    assert!(rendered.contains("WraithRun Task Templates"));
    assert!(rendered.contains("ssh-keys"));
    assert!(rendered.contains("priv-esc-review"));
}

#[test]
fn renders_task_template_list_json() {
    let rendered = render_task_template_list_json();
    assert!(rendered.contains("\"contract_version\": \"1.0.0\""));
    assert!(rendered.contains("\"templates\""));
    assert!(rendered.contains("\"syslog-summary\""));
    assert!(rendered.contains("\"supports_template_lines\": true"));
}

#[test]
fn resolves_task_from_template() {
    let task = resolve_task_from_template(TaskTemplate::ListenerRisk, None, None).expect("template task should resolve");
    assert!(task.contains("listener ports"));
}

#[test]
fn resolves_hash_template_with_custom_target() {
    let task = resolve_task_from_template(TaskTemplate::HashIntegrity, Some("C:/Temp/suspicious.exe"), None)
        .expect("hash template should resolve");
    assert!(task.contains("C:/Temp/suspicious.exe"));
}

#[test]
fn resolves_syslog_template_with_target_and_lines() {
    let task = resolve_task_from_template(TaskTemplate::SyslogSummary, Some("C:/Logs/security.log"), Some(50))
        .expect("syslog template should resolve");
    assert!(task.contains("last 50 lines"));
    assert!(task.contains("C:/Logs/security.log"));
}

#[test]
fn rejects_invalid_template_options() {
    let err = resolve_task_from_template(TaskTemplate::ListenerRisk, None, Some(10))
        .expect_err("invalid template options should fail");
    assert!(err.contains("not supported"));
}

#[test]
fn rejects_zero_syslog_lines() {
    let err = resolve_task_from_template(TaskTemplate::SyslogSummary, None, Some(0))
        .expect_err("zero lines should fail");
    assert!(err.contains("at least 1"));
}

// ── Tool introspection ──

#[test]
fn renders_tool_list() {
    let tools = default_tool_specs();
    let rendered = render_tool_list(&tools);
    assert!(rendered.contains("WraithRun Tools"));
    assert!(rendered.contains("hash_binary"));
    assert!(rendered.contains("scan_network"));
}

#[test]
fn renders_tool_list_json() {
    let tools = default_tool_specs();
    let rendered = render_tool_list_json(tools);
    assert!(rendered.contains("\"contract_version\": \"1.0.0\""));
    assert!(rendered.contains("\"tools\""));
    assert!(rendered.contains("\"check_privilege_escalation_vectors\""));
    assert!(rendered.contains("\"args_schema\""));
}

#[test]
fn list_tools_filter_matches_expected_tool() {
    let rendered = run_list_tools(IntrospectionFormat::Json, Some("hash")).expect("filtered list-tools should succeed");
    assert!(rendered.contains("\"hash_binary\""));
    assert!(!rendered.contains("\"scan_network\""));
}

#[test]
fn list_tools_filter_matches_multi_term_query() {
    let rendered = run_list_tools(IntrospectionFormat::Json, Some("priv esc"))
        .expect("multi-term filtered list-tools should succeed");
    assert!(rendered.contains("\"check_privilege_escalation_vectors\""));
    assert!(!rendered.contains("\"scan_network\""));
}

#[test]
fn list_tools_filter_matches_hyphenated_query() {
    let rendered = run_list_tools(IntrospectionFormat::Json, Some("hash-binary"))
        .expect("hyphenated filtered list-tools should succeed");
    assert!(rendered.contains("\"hash_binary\""));
    assert!(!rendered.contains("\"scan_network\""));
}

#[test]
fn list_tools_filter_rejects_unknown_query() {
    let error = run_list_tools(IntrospectionFormat::Text, Some("definitely-not-a-tool"))
        .expect_err("unknown filter should fail");
    assert!(error.contains("No tools matched filter"));
}

#[test]
fn list_tools_filter_rejects_empty_query() {
    let error = run_list_tools(IntrospectionFormat::Text, Some("   ")).expect_err("empty filter should fail");
    assert!(error.contains("--tool-filter cannot be empty"));
}

#[test]
fn list_tools_filter_rejects_non_alphanumeric_query() {
    let error = run_list_tools(IntrospectionFormat::Text, Some("---")).expect_err("separator-only filter should fail");
    assert!(error.contains("at least one alphanumeric term"));
}

#[test]
fn renders_tool_detail() {
    let tool = default_tool_specs()
        .into_iter()
        .find(|candidate| candidate.name == "hash_binary")
        .expect("hash_binary should exist");
    let rendered = render_tool_detail(&tool);
    assert!(rendered.contains("WraithRun Tool"));
    assert!(rendered.contains("name: hash_binary"));
    assert!(rendered.contains("args_schema:"));
}

#[test]
fn renders_tool_detail_json() {
    let tool = default_tool_specs()
        .into_iter()
        .find(|candidate| candidate.name == "hash_binary")
        .expect("hash_binary should exist");
    let rendered = render_tool_detail_json(tool);
    assert!(rendered.contains("\"contract_version\": \"1.0.0\""));
    assert!(rendered.contains("\"tool\""));
    assert!(rendered.contains("\"name\": \"hash_binary\""));
}

#[test]
fn describes_tool_by_name() {
    let rendered = run_describe_tool("hash_binary", IntrospectionFormat::Json).expect("describe-tool should work");
    assert!(rendered.contains("\"tool\""));
    assert!(rendered.contains("\"name\": \"hash_binary\""));
}

#[test]
fn describes_tool_with_hyphenated_name_alias() {
    let rendered = run_describe_tool("hash-binary", IntrospectionFormat::Json)
        .expect("describe-tool should support hyphenated aliases");
    assert!(rendered.contains("\"tool\""));
    assert!(rendered.contains("\"name\": \"hash_binary\""));
}

#[test]
fn describes_tool_with_unique_partial_query() {
    let rendered = run_describe_tool("privilege", IntrospectionFormat::Json)
        .expect("describe-tool should support unique partial matches");
    assert!(rendered.contains("\"tool\""));
    assert!(rendered.contains("\"name\": \"check_privilege_escalation_vectors\""));
}

#[test]
fn describe_tool_rejects_ambiguous_partial_query() {
    let error = run_describe_tool("c", IntrospectionFormat::Text).expect_err("ambiguous partial query should fail");
    assert!(error.contains("Ambiguous tool query 'c'"));
    assert!(error.contains("scan_network"));
    assert!(error.contains("check_privilege_escalation_vectors"));
}

#[test]
fn describe_tool_rejects_unknown_name() {
    let error = run_describe_tool("does-not-exist", IntrospectionFormat::Text).expect_err("unknown tool should fail");
    assert!(error.contains("Unknown tool"));
    assert!(error.contains("hash_binary"));
}

// ── Reports ──

#[test]
fn renders_summary_output() {
    let report = sample_report();
    let rendered = render_summary(&report);
    assert!(rendered.contains("Task:"));
    assert!(rendered.contains("Case ID: CASE-2026-0001"));
    assert!(rendered.contains("Findings:"));
    assert!(rendered.contains("tool: scan_network"));
    assert!(rendered.contains("Final Answer:"));
}

#[test]
fn renders_markdown_output() {
    let report = sample_report();
    let rendered = render_markdown(&report);
    assert!(rendered.contains("# WraithRun Report"));
    assert!(rendered.contains("- Case ID: CASE-2026-0001"));
    assert!(rendered.contains("## Findings"));
    assert!(rendered.contains("## Turns"));
    assert!(rendered.contains("```json"));
}

#[test]
fn summary_lists_findings_and_turns_exactly() {
    let report = sample_report();
    let rendered = render_summary(&report);
    let expected = "Task: Check suspicious listener ports and summarize risk\n\
Case ID: CASE-2026-0001\n\
Turns: 1\n\
Findings: 1\n\
Final Answer: Dry-run cycle complete.\n\
\n\
Findings:\n\
1. [MEDIUM] Active listening sockets observed (3) (confidence 0.68)\n   \
evidence: turn 1, scan_network, observation.listener_count\n   \
recommended_action: Correlate listener PIDs and ports with expected services.\n\
\n\
Turn Breakdown:\n\
1.\n   \
tool: scan_network\n   \
args: {\"limit\":40}\n   \
observation: keys=listener_count,listeners";
    assert_eq!(rendered, expected);
}

#[test]
fn summary_of_empty_report_stops_after_the_final_answer() {
    let mut report = sample_report();
    report.turns.clear();
    report.findings.clear();
    report.case_id = None;
    report.run_timing = Some(RunTimingMetrics { first_token_latency_ms: None, total_run_duration_ms: 42 });
    let rendered = render_summary(&report);
    assert_eq!(
        rendered,
        "Task: Check suspicious listener ports and summarize risk\nRun Timing: first_token_ms=null, total_ms=42\nTurns: 0\nFindings: 0\nFinal Answer: Dry-run cycle complete."
    );
}

#[test]
fn summarizes_observations_in_one_line() {
    assert_eq!(summarize_observation(&obj(vec![("error", JsonValue::Str("boom".to_string()))])), "error=boom");
    assert_eq!(
        summarize_observation(&obj(vec![("zeta", JsonValue::Null), ("alpha", JsonValue::Bool(true))])),
        "keys=alpha,zeta"
    );
    assert_eq!(summarize_observation(&obj(vec![])), "{}");
    assert_eq!(summarize_observation(&JsonValue::Null), "null");
    assert_eq!(summarize_observation(&JsonValue::UInt(7)), "7");
}

#[test]
fn appends_live_fallback_finding_once() {
    let mut report = sample_report();
    let decision = LiveFallbackDecision {
        policy: "dry-run-on-error".to_string(),
        reason: "live inference failed and runtime fell back to dry-run".to_string(),
        reason_code: "live_runtime_error".to_string(),
        live_error: "session create failed".to_string(),
        fallback_mode: "dry-run".to_string(),
    };
    append_live_fallback_finding(&mut report, &decision);
    append_live_fallback_finding(&mut report, &decision);
    let fallback_findings = report
        .findings
        .iter()
        .filter(|finding| finding.evidence_pointer.field == "live_fallback_decision.live_error")
        .count();
    assert_eq!(fallback_findings, 1);
    let added = report.findings.last().unwrap();
    assert_eq!(added.severity, FindingSeverity::Info);
    assert!(added.recommended_action.ends_with("(code: live_runtime_error)."));
}

#[test]
fn build_live_run_metrics_calculates_success_rates() {
    let metrics = build_live_run_metrics(400, 400, Some(120), true, None);
    assert_eq!(metrics.live_attempt_count, 1);
    assert_eq!(metrics.live_success_count, 1);
    assert_eq!(metrics.fallback_count, 0);
    assert_eq!(metrics.live_success_rate, 100);
    assert_eq!(metrics.fallback_rate, 0);
    assert!(metrics.top_failure_reasons.is_empty());
}

#[test]
fn build_live_run_metrics_captures_fallback_reason() {
    let metrics = build_live_run_metrics(900, 200, Some(260), false, Some("live_runtime_error"));
    assert_eq!(metrics.live_attempt_count, 1);
    assert_eq!(metrics.live_success_count, 0);
    assert_eq!(metrics.fallback_count, 1);
    assert_eq!(metrics.live_success_rate, 0);
    assert_eq!(metrics.fallback_rate, 100);
    assert_eq!(metrics.top_failure_reasons.len(), 1);
    assert_eq!(metrics.top_failure_reasons[0].reason_code, "live_runtime_error");
}

#[test]
fn live_metrics_render_with_two_decimals() {
    let mut report = sample_report();
    report.live_run_metrics = Some(build_live_run_metrics(900, 200, Some(260), false, Some("live_runtime_error")));
    let rendered = render_summary(&report);
    assert!(rendered.contains(
        "Live Metrics: success_rate=0.00, fallback_rate=1.00, live_attempt_duration_ms=200, total_ms=900, first_token_ms=260"
    ));
    assert!(rendered.contains("Live Failure Reasons: live_runtime_error:1"));
}

// ── Exit policy and case identifiers ──

#[test]
fn exit_policy_triggers_when_threshold_is_met() {
    let report = sample_report();
    let message = evaluate_exit_policy(&report.findings, ExitPolicy::SeverityThreshold, Some(ExitSeverityThreshold::Medium));
    assert!(message.is_some());
    assert!(message.expect("message should exist").contains("exit policy triggered"));
}

#[test]
fn exit_policy_uses_medium_default_threshold() {
    let report = sample_report();
    let message = evaluate_exit_policy(&report.findings, ExitPolicy::SeverityThreshold, None);
    assert!(message.is_some());
}

#[test]
fn exit_policy_disabled_never_triggers() {
    let report = sample_report();
    assert!(evaluate_exit_policy(&report.findings, ExitPolicy::Disabled, Some(ExitSeverityThreshold::Info)).is_none());
    assert!(evaluate_exit_policy(&report.findings, ExitPolicy::SeverityThreshold, Some(ExitSeverityThreshold::High)).is_none());
}

#[test]
fn case_id_with_spaces_is_rejected() {
    let mut cli = base_cli();
    cli.case_id = Some("CASE 2026 INVALID".to_string());
    let err = merge_sources(&cli, "test-task".to_string(), None, None, None, &SettingsFragment::empty())
        .expect_err("invalid case id should fail validation");
    assert!(err.contains("case_id may only contain ASCII letters"));
}

#[test]
fn case_id_rules() {
    assert!(validate_case_id("CASE-2026_01.a:b").is_ok());
    assert!(validate_case_id("   ").unwrap_err().contains("cannot be empty"));
    assert!(validate_case_id(&"x".repeat(129)).unwrap_err().contains("128 characters"));
}

// ── Settings layering ──

#[test]
fn precedence_is_cli_over_env_over_config_over_defaults() {
    let mut cli = base_cli();
    cli.max_steps = Some(16);
    let mut defaults = SettingsFragment::empty();
    defaults.max_steps = Some(5);
    defaults.max_new_tokens = Some(300);
    let mut profile = SettingsFragment::empty();
    profile.max_steps = Some(10);
    let file_config = FileConfig { defaults, profiles: vec![("production-triage".to_string(), profile)] };
    let mut env_overrides = SettingsFragment::empty();
    env_overrides.max_steps = Some(12);
    let resolved = merge_sources(
        &cli,
        "test-task".to_string(),
        Some("production-triage".to_string()),
        Some(&file_config),
        None,
        &env_overrides,
    )
    .expect("config merge should succeed");
    assert_eq!(resolved.max_steps, 16);
    assert_eq!(resolved.max_new_tokens, 300);
}

#[test]
fn builtin_profile_applies_when_no_config_file() {
    let cli = base_cli();
    let resolved = merge_sources(&cli, "test-task".to_string(), Some("local-lab".to_string()), None, None, &SettingsFragment::empty())
        .expect("builtin profile should resolve");
    assert_eq!(resolved.max_steps, 6);
    assert_eq!(resolved.format, OutputFormat::Summary);
    assert!(!resolved.live);
    assert_eq!(f32::from_bits(resolved.temperature), 0.1f32);
}

#[test]
fn live_presets_resolve_to_live_mode() {
    for profile_name in ["live-fast", "live-balanced", "live-deep"] {
        let cli = base_cli();
        let resolved = merge_sources(&cli, "test-task".to_string(), Some(profile_name.to_string()), None, None, &SettingsFragment::empty())
            .expect("live preset should resolve");
        assert!(resolved.live, "preset should enable live mode");
        assert_eq!(resolved.format, OutputFormat::Json);
        assert_eq!(resolved.live_fallback_policy, LiveFallbackPolicy::DryRunOnError);
    }
}

#[test]
fn unknown_profile_without_config_fails() {
    let cli = base_cli();
    let error = merge_sources(&cli, "test-task".to_string(), Some("nonexistent".to_string()), None, None, &SettingsFragment::empty())
        .expect_err("unknown profile should fail");
    assert!(error.contains("nonexistent"));
    assert!(error.contains("no config file was loaded"));
}

#[test]
fn fallback_policy_from_cli_is_applied() {
    let mut cli = base_cli();
    cli.live_fallback_policy = Some(LiveFallbackPolicy::DryRunOnError);
    let resolved = merge_sources(&cli, "test-task".to_string(), None, None, None, &SettingsFragment::empty())
        .expect("runtime resolution should succeed");
    assert_eq!(resolved.live_fallback_policy, LiveFallbackPolicy::DryRunOnError);
}

#[test]
fn exit_threshold_requires_policy() {
    let mut cli = base_cli();
    cli.exit_threshold = Some(ExitSeverityThreshold::High);
    let err = merge_sources(&cli, "test-task".to_string(), None, None, None, &SettingsFragment::empty())
        .expect_err("exit threshold without policy should fail");
    assert!(err.contains("exit_threshold requires exit_policy=severity-threshold"));
}

#[test]
fn defaults_and_switches() {
    let resolved = merge_sources(&base_cli(), "t".to_string(), None, None, None, &SettingsFragment::empty()).unwrap();
    assert_eq!(resolved.model, "./models/llm.onnx");
    assert_eq!(resolved.max_steps, 8);
    assert_eq!(resolved.max_new_tokens, 256);
    assert_eq!(f32::from_bits(resolved.temperature), 0.2f32);
    assert_eq!(resolved.format, OutputFormat::Json);
    assert_eq!(resolved.output_mode, OutputMode::Compact);
    assert_eq!(resolved.log_mode, LogMode::Normal);
    let mut cli = base_cli();
    cli.live = true;
    cli.dry_run = true;
    cli.quiet = true;
    cli.verbose = true;
    let resolved = merge_sources(&cli, "t".to_string(), Some("live-model".to_string()), None, None, &SettingsFragment::empty()).unwrap();
    assert!(!resolved.live);
    assert_eq!(resolved.log_mode, LogMode::Verbose);
}

#[test]
fn temperature_outside_range_is_rejected() {
    let mut cli = base_cli();
    cli.temperature = Some(2.5f32.to_bits());
    let err = merge_sources(&cli, "t".to_string(), None, None, None, &SettingsFragment::empty()).unwrap_err();
    assert_eq!(err, "temperature must be between 0.0 and 2.0");
    cli.temperature = Some(f32::NAN.to_bits());
    assert!(merge_sources(&cli, "t".to_string(), None, None, None, &SettingsFragment::empty()).is_err());
    cli.temperature = Some(2.0f32.to_bits());
    assert!(merge_sources(&cli, "t".to_string(), None, None, None, &SettingsFragment::empty()).is_ok());
    cli.temperature = Some((-0.5f32).to_bits());
    assert!(merge_sources(&cli, "t".to_string(), None, None, None, &SettingsFragment::empty()).is_err());
}

#[test]
fn sources_record_where_each_setting_came_from() {
    let mut cli = base_cli();
    cli.format = Some(OutputFormat::Markdown);
    let mut defaults = SettingsFragment::empty();
    defaults.max_new_tokens = Some(300);
    let file_config = FileConfig { defaults, profiles: vec![("Lab".to_string(), SettingsFragment::empty())] };
    let mut env = SettingsFragment::empty();
    env.case_id = Some("CASE-1".to_string());
    let (config, sources) = layer_settings_with_explanation(
        &cli,
        "task".to_string(),
        "cli --task",
        Some("lab".to_string()),
        Some(&file_config),
        Some("wraithrun.toml"),
        &env,
    )
    .unwrap();
    assert_eq!(config.max_new_tokens, 300);
    assert_eq!(sources.task, "cli --task");
    assert_eq!(sources.format, "cli --format");
    assert_eq!(sources.max_new_tokens, "config defaults (wraithrun.toml)");
    assert_eq!(sources.case_id, "environment variables");
    assert_eq!(sources.max_steps, "default");
}

#[test]
fn baseline_bundle_path_must_name_raw_observations() {
    let mut config = RuntimeConfig::new("t".to_string());
    config.baseline_bundle = Some("/tmp/bundle/report.json".to_string());
    let err = validate_runtime_config(&config, PathKind::File).unwrap_err();
    assert!(err.contains("must be named raw_observations.json"));
    config.baseline_bundle = Some("/tmp/bundle/RAW_OBSERVATIONS.JSON".to_string());
    assert!(validate_runtime_config(&config, PathKind::File).is_ok());
    assert!(validate_runtime_config(&config, PathKind::Directory).is_ok());
    assert!(validate_runtime_config(&config, PathKind::Missing).unwrap_err().contains("does not exist"));
}

// ── Findings adapter ──

#[test]
fn renders_findings_adapter_output() {
    let report = sample_report();
    let rendered = wraithrun::adapter::render_findings_adapter_v1(&report);

    assert!(rendered.contains("\"contract_version\": \"1.0.0\""));
    assert!(rendered.contains("\"adapter\": \"findings-v1\""));
    assert!(rendered.contains("\"finding_id\": \"F-0001\""));
    assert!(rendered.contains("\"summary\""));
}

#[test]
fn findings_adapter_includes_live_metrics_summary() {
    let mut report = sample_report();
    report.live_run_metrics = Some(wraithrun::run_report::LiveRunMetrics {
        first_token_latency_ms: Some(95),
        total_run_duration_ms: 540,
        live_attempt_duration_ms: 180,
        live_attempt_count: 1,
        live_success_count: 0,
        fallback_count: 1,
        live_success_rate: 0,
        fallback_rate: 100,
        top_failure_reasons: vec![wraithrun::cli::LiveFailureReasonCount {
            reason_code: "model_path_missing".to_string(),
            count: 1,
        }],
    });

    let rendered = wraithrun::adapter::render_findings_adapter_v1(&report);

    assert!(rendered.contains("\"live_run_metrics\""));
    assert!(rendered.contains("\"fallback_rate\": 1.0"));
    assert!(rendered.contains("\"reason_code\": \"model_path_missing\""));
}

#[test]
fn adapter_requires_json_output_format() {
    let mut cli = base_cli();
    cli.format = Some(OutputFormat::Summary);
    cli.automation_adapter = Some(wraithrun::cli::AutomationAdapter::FindingsV1);

    let err = merge_sources(&cli, "test-task".to_string(), None, None, None, &SettingsFragment::empty())
        .expect_err("adapter should require JSON output format");

    assert!(err.contains("automation_adapter requires JSON output format"));
}

// ── Profiles ──

#[test]
fn renders_profile_list_with_config_profiles() {
    let file_config = FileConfig {
        defaults: SettingsFragment::empty(),
        profiles: vec![
            ("team-default".to_string(), SettingsFragment::empty()),
            ("incident-hotfix".to_string(), SettingsFragment::empty()),
        ],
    };

    let rendered =
        wraithrun::profiles::render_profile_list(Some("local-lab"), Some("./wraithrun.toml"), Some(&file_config));

    assert!(rendered.contains("WraithRun Profiles"));
    assert!(rendered.contains("team-default"));
    assert!(rendered.contains("incident-hotfix"));
    assert!(rendered.contains("Profile source: built-in"));
}

#[test]
fn renders_profile_list_json_with_selected_source() {
    let file_config = FileConfig {
        defaults: SettingsFragment::empty(),
        profiles: vec![("incident-hotfix".to_string(), SettingsFragment::empty())],
    };

    let rendered = wraithrun::profiles::render_profile_list_json(
        Some("incident-hotfix"),
        Some("./wraithrun.toml"),
        Some(&file_config),
    );

    assert!(rendered.contains("\"contract_version\": \"1.0.0\""));
    assert!(rendered.contains("\"built_in_profiles\""));
    assert!(rendered.contains("\"selected_profile\""));
    assert!(rendered.contains("\"source\": \"config\""));
}
