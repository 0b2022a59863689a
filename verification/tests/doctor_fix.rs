use wraithrun::baseline::{
    build_raw_observations_bundle, coverage_baseline_from_turns, extract_coverage_baseline_from_observation,
    RawObservationTurn,
};
use wraithrun::bundle::{
    bundle_verification_report, plan_checksum_entries, render_bundle_verification_report,
    render_bundle_verification_report_json, verify_checksum_entry, BundleVerificationStatus, ChecksumRequest,
    FileProbe,
};
use wraithrun::cli::LiveFallbackPolicy;
use wraithrun::config::{FileConfig, RuntimeConfig, SettingsFragment};
use wraithrun::doctor::{DoctorReport, DoctorStatus};
use wraithrun::doctor_run::{
    fix_live_access, fix_live_settings, record_effective_runtime, record_settings_sources, record_vitis_config,
    tokenizer_health, DoctorRun, ModelPathProbe,
};
use wraithrun::json::JsonValue;
use wraithrun::model::{AgentTurn, ToolCall};
use wraithrun::pack_doctor::{IoFailure, ModelPackProbes, TokenizerContent};

fn obj(members: Vec<(&str, JsonValue)>) -> JsonValue {
    JsonValue::Object(members.into_iter().map(|(k, v)| (k.to_string(), v)).collect())
}

fn strs(values: &[&str]) -> JsonValue {
    JsonValue::Array(values.iter().map(|v| JsonValue::Str(v.to_string())).collect())
}

fn live_runtime(model: &str) -> RuntimeConfig {
    let mut runtime = RuntimeConfig::new("doctor-self-check".to_string());
    runtime.live = true;
    runtime.model = model.to_string();
    runtime
}

fn probes(tokenizer: TokenizerContent) -> ModelPackProbes {
    ModelPackProbes {
        model_is_file: true,
        model_metadata: Ok(10),
        model_open: Ok(()),
        tokenizer_is_file: true,
        tokenizer_metadata: Ok(10),
        tokenizer_content: tokenizer,
    }
}

fn last(report: &DoctorReport) -> (&str, DoctorStatus, Option<&str>) {
    let c = report.checks.last().expect("a check");
    (c.name.as_str(), c.status, c.reason_code.as_deref())
}

// ── Settings sources ──

#[test]
fn settings_sources_report_profile_config_and_environment() {
    let mut report = DoctorReport::new();
    let config = FileConfig {
        defaults: SettingsFragment::empty(),
        profiles: vec![("local-lab".to_string(), SettingsFragment::empty())],
    };
    record_settings_sources(
        &mut report,
        &Ok(Some("local-lab".to_string())),
        &Ok(Some(("wraithrun.toml".to_string(), Ok(config)))),
        &Ok(SettingsFragment::empty()),
    );
    let names: Vec<&str> = report.checks.iter().map(|c| c.name.as_str()).collect();
    assert_eq!(names, vec!["profile-selection", "config-file", "profile-availability", "environment-overrides"]);
    assert_eq!(report.checks[0].detail, "Selected profile: local-lab");
    assert_eq!(report.checks[1].detail, "Loaded config: wraithrun.toml");
    assert_eq!(
        report.checks[2].detail,
        "Profile 'local-lab' found in built-ins and config file; config profile overrides overlapping keys."
    );
    assert!(!report.has_failures());
}

#[test]
fn settings_sources_fail_for_unknown_profile_and_bad_environment() {
    let mut report = DoctorReport::new();
    record_settings_sources(
        &mut report,
        &Ok(Some("nope".to_string())),
        &Ok(None),
        &Err("WRAITHRUN_MAX_STEPS must be an integer".to_string()),
    );
    assert_eq!(report.checks.len(), 4);
    assert_eq!(report.checks[1].status, DoctorStatus::Warn);
    assert_eq!(report.checks[2].status, DoctorStatus::Fail);
    assert!(report.checks[2].detail.contains("local-lab, production-triage, live-model"));
    assert_eq!(report.checks[3].detail, "Invalid environment variable value: WRAITHRUN_MAX_STEPS must be an integer");
}

#[test]
fn settings_sources_without_profile_skip_availability() {
    let mut report = DoctorReport::new();
    record_settings_sources(&mut report, &Ok(None), &Err("bad path".to_string()), &Ok(SettingsFragment::empty()));
    let names: Vec<&str> = report.checks.iter().map(|c| c.name.as_str()).collect();
    assert_eq!(names, vec!["profile-selection", "config-selection", "environment-overrides"]);
    assert_eq!(report.checks[1].detail, "Unable to resolve config path: bad path");
}

#[test]
fn effective_runtime_and_vitis_checks() {
    let mut report = DoctorReport::new();
    let runtime = RuntimeConfig::new("t".to_string());
    record_effective_runtime(&mut report, &Ok(runtime));
    assert!(report.checks[0].detail.starts_with("Resolved mode=dry-run, model='"));
    assert!(report.checks[0].detail.ends_with(", max_steps=8, max_new_tokens=256, format=Json."));
    record_effective_runtime(&mut report, &Err("boom".to_string()));
    assert_eq!(report.checks[1].detail, "Unable to resolve effective runtime settings: boom");
    record_vitis_config(&mut report, &Some("vitis.json".to_string()), false);
    assert_eq!(last(&report), ("vitis-config", DoctorStatus::Warn, None));
    record_vitis_config(&mut report, &None, false);
    assert_eq!(report.checks.len(), 3);
}

// ── Live fixes ──

#[test]
fn fix_requires_live_mode() {
    let mut report = DoctorReport::new();
    let mut runtime = RuntimeConfig::new("t".to_string());
    let probe = ModelPathProbe { is_file: false, nearby_onnx: None, discovered: None };
    assert!(!fix_live_settings(&mut runtime, false, &probe, &mut report));
    assert_eq!(last(&report), ("doctor-fix", DoctorStatus::Warn, Some("fix_requires_live_mode")));
    assert_eq!(runtime.live_fallback_policy, LiveFallbackPolicy::Disabled);
}

#[test]
fn fix_enables_fallback_and_discovers_model() {
    let mut report = DoctorReport::new();
    let mut runtime = live_runtime("models/missing.onnx");
    let probe = ModelPathProbe { is_file: false, nearby_onnx: None, discovered: Some("models/llm.onnx".to_string()) };
    assert!(fix_live_settings(&mut runtime, false, &probe, &mut report));
    assert_eq!(runtime.live_fallback_policy, LiveFallbackPolicy::DryRunOnError);
    assert_eq!(runtime.model, "models/llm.onnx");
    assert_eq!(
        report.checks[0].reason_code.as_deref(),
        Some("fallback_policy_auto_enabled")
    );
    assert_eq!(last(&report), ("fix-live-model-path", DoctorStatus::Pass, Some("model_path_auto_discovered")));
}

#[test]
fn fix_keeps_explicit_model_and_reports_it() {
    let mut report = DoctorReport::new();
    let mut runtime = live_runtime("weights.bin");
    runtime.live_fallback_policy = LiveFallbackPolicy::DryRunOnError;
    let probe = ModelPathProbe { is_file: true, nearby_onnx: Some("model.onnx".to_string()), discovered: None };
    fix_live_settings(&mut runtime, true, &probe, &mut report);
    assert_eq!(report.checks[0].detail, "Live fallback policy already set to 'dry-run-on-error'.");
    assert_eq!(last(&report), ("fix-live-model-path", DoctorStatus::Warn, Some("model_format_explicit_non_onnx")));
    assert_eq!(runtime.model, "weights.bin");
}

#[test]
fn fix_switches_to_nearby_onnx_model() {
    let mut report = DoctorReport::new();
    let mut runtime = live_runtime("models/weights.bin");
    let probe = ModelPathProbe { is_file: true, nearby_onnx: Some("models/a.onnx".to_string()), discovered: None };
    fix_live_settings(&mut runtime, false, &probe, &mut report);
    assert_eq!(runtime.model, "models/a.onnx");
    assert_eq!(last(&report), ("fix-live-model-path", DoctorStatus::Pass, Some("model_path_auto_corrected")));
}

#[test]
fn fix_discovers_tokenizer_when_none_is_configured() {
    let mut report = DoctorReport::new();
    let mut runtime = live_runtime("models/llm.onnx");
    let p = probes(TokenizerContent::Invalid("unused".to_string()));
    fix_live_access(&mut runtime, false, &p, &Some("models/tokenizer.json".to_string()), &mut report);
    assert_eq!(report.checks[0].name, "fix-live-model-permissions");
    assert_eq!(last(&report), ("fix-live-tokenizer-path", DoctorStatus::Pass, Some("tokenizer_path_auto_discovered")));
    assert_eq!(runtime.tokenizer.as_deref(), Some("models/tokenizer.json"));
}

#[test]
fn fix_reports_explicit_missing_tokenizer() {
    let mut report = DoctorReport::new();
    let mut runtime = live_runtime("models/llm.onnx");
    runtime.tokenizer = Some("missing-tokenizer.json".to_string());
    let mut p = probes(TokenizerContent::Invalid("unused".to_string()));
    p.tokenizer_is_file = false;
    fix_live_access(&mut runtime, true, &p, &None, &mut report);
    assert_eq!(last(&report), ("fix-live-tokenizer-path", DoctorStatus::Warn, Some("tokenizer_path_missing")));
    assert_eq!(runtime.tokenizer.as_deref(), Some("missing-tokenizer.json"));
}

#[test]
fn fix_accepts_valid_tokenizer_and_reports_unreadable_model() {
    let mut report = DoctorReport::new();
    let mut runtime = live_runtime("models/llm.onnx");
    runtime.tokenizer = Some("tokenizer.json".to_string());
    let mut p = probes(TokenizerContent::Parsed(obj(vec![("model", obj(vec![]))])));
    p.model_open = Err(IoFailure { permission_denied: true, message: "denied".to_string() });
    fix_live_access(&mut runtime, false, &p, &None, &mut report);
    assert_eq!(report.checks[0].reason_code.as_deref(), Some("model_permission_denied"));
    assert_eq!(last(&report), ("fix-live-tokenizer-path", DoctorStatus::Pass, None));
}

#[test]
fn tokenizer_health_reason_codes() {
    assert_eq!(tokenizer_health(&TokenizerContent::Parsed(obj(vec![("model", JsonValue::Null)]))), Ok(()));
    assert_eq!(
        tokenizer_health(&TokenizerContent::Parsed(obj(vec![("version", JsonValue::Null)]))),
        Err("tokenizer_model_key_missing")
    );
    assert_eq!(tokenizer_health(&TokenizerContent::Invalid("eof".to_string())), Err("tokenizer_json_invalid"));
    assert_eq!(
        tokenizer_health(&TokenizerContent::Unreadable(IoFailure { permission_denied: false, message: "x".to_string() })),
        Err("tokenizer_read_failed")
    );
}

// ── Evidence bundle verification ──

const DIGEST: &str = "e3b0c44298fc1c149afbf4c8996fb92427ae41e4649b934ca495991b7852b855";

#[test]
fn checksum_manifest_plan_separates_entries_and_errors() {
    let text = format!("# header\n\n{}  report.json\nnot-a-line\nabc  x\n{} \n", DIGEST.to_uppercase(), DIGEST);
    let (requests, errors) = plan_checksum_entries(&text);
    assert_eq!(requests.len(), 1);
    assert_eq!(requests[0].file, "report.json");
    assert_eq!(
        errors,
        vec![
            "Line 4 is not a valid '<sha256>  <filename>' entry: not-a-line".to_string(),
            "Line 5 has invalid SHA-256 digest 'abc': expected 64 hex characters".to_string(),
            format!("Line 6 is not a valid '<sha256>  <filename>' entry: {DIGEST}"),
        ]
    );
}

#[test]
fn checksum_entries_pass_mismatch_missing_and_unreadable() {
    let req = ChecksumRequest { expected_sha256: DIGEST.to_uppercase(), file: "empty.txt".to_string() };
    let pass = verify_checksum_entry("bundle", &req, FileProbe::Read(Vec::new()));
    assert_eq!(pass.status, BundleVerificationStatus::Pass);
    assert_eq!(pass.expected_sha256, DIGEST);
    assert_eq!(pass.actual_sha256.as_deref(), Some(DIGEST));
    let mismatch = verify_checksum_entry("bundle", &req, FileProbe::Read(b"x".to_vec()));
    assert_eq!(mismatch.status, BundleVerificationStatus::Mismatch);
    let missing = verify_checksum_entry("bundle", &req, FileProbe::Missing);
    assert_eq!(missing.status, BundleVerificationStatus::Missing);
    assert_eq!(missing.detail.as_deref(), Some("Missing file: bundle/empty.txt"));
    let unreadable = verify_checksum_entry("bundle", &req, FileProbe::Unreadable("denied".to_string()));
    assert_eq!(unreadable.status, BundleVerificationStatus::Unreadable);

    let report = bundle_verification_report(
        "bundle".to_string(),
        "bundle/SHA256SUMS".to_string(),
        vec![pass, mismatch],
        vec!["Line 3 is missing a filename".to_string()],
    );
    assert_eq!(report.summary.pass, 1);
    assert_eq!(report.summary.fail, 2);
    let text = render_bundle_verification_report(&report);
    assert!(text.starts_with("WraithRun Evidence Bundle Verification\nBundle: bundle\nChecksums: bundle/SHA256SUMS\nSummary: 1 pass, 2 fail"));
    assert!(text.contains("- [PASS] empty.txt\n- [FAIL] empty.txt\n  expected: "));
    assert!(text.ends_with("Parse Errors:\n- [FAIL] Line 3 is missing a filename"));
    let json: serde_json::Value =
        serde_json::from_str(&render_bundle_verification_report_json(&report)).expect("json");
    assert_eq!(json["contract_version"], "1.0.0");
    assert_eq!(json["summary"]["fail"], 2);
    assert_eq!(json["entries"][1]["status"], "mismatch");
}

#[test]
fn empty_manifest_is_a_failure() {
    let report = bundle_verification_report("b".to_string(), "b/SHA256SUMS".to_string(), Vec::new(), Vec::new());
    assert_eq!(report.parse_errors, vec!["No checksum entries found in SHA256SUMS".to_string()]);
    assert_eq!(report.summary.fail, 1);
    assert!(render_bundle_verification_report(&report).contains("Checks: none"));
}

// ── Coverage baselines ──

#[test]
fn extracts_baseline_arrays_from_nested_and_flat_fields() {
    let observation = obj(vec![
        ("persistence", obj(vec![("baseline_entries", strs(&["  B ", "a", "b", ""]))])),
        ("baseline_privileged_accounts", strs(&["root", "Admin"])),
        ("network", obj(vec![("expected_processes", strs(&["sshd"]))])),
        ("baseline_exposed_bindings", JsonValue::Str("not a list".to_string())),
    ]);
    let baseline = extract_coverage_baseline_from_observation(&observation);
    assert_eq!(baseline.baseline_entries, vec!["a".to_string(), "B".to_string()]);
    assert_eq!(baseline.baseline_privileged_accounts, vec!["Admin".to_string(), "root".to_string()]);
    assert_eq!(baseline.approved_privileged_accounts, baseline.baseline_privileged_accounts);
    assert!(baseline.baseline_exposed_bindings.is_empty());
    assert_eq!(baseline.expected_processes, vec!["sshd".to_string()]);
}

fn raw_turn(turn: usize, tool: &str, observation: JsonValue) -> RawObservationTurn {
    RawObservationTurn { turn, tool: Some(tool.to_string()), args: None, observation }
}

#[test]
fn coverage_baseline_comes_from_last_capture_turn() {
    let turns = vec![
        raw_turn(1, "capture_coverage_baseline", obj(vec![("expected_processes", strs(&["old"]))])),
        raw_turn(2, "capture_coverage_baseline", obj(vec![("expected_processes", strs(&["new"]))])),
        raw_turn(3, "read_syslog", obj(vec![])),
    ];
    let baseline = coverage_baseline_from_turns(&turns, "raw_observations.json").expect("baseline");
    assert_eq!(baseline.expected_processes, vec!["new".to_string()]);
}

#[test]
fn coverage_baseline_errors_name_the_file() {
    let none = coverage_baseline_from_turns(&vec![raw_turn(1, "read_syslog", obj(vec![]))], "raw.json");
    assert_eq!(none.err().as_deref(), Some("No capture_coverage_baseline observation found in raw.json"));
    let empty = coverage_baseline_from_turns(&vec![raw_turn(1, "capture_coverage_baseline", obj(vec![]))], "raw.json");
    assert_eq!(
        empty.err().as_deref(),
        Some("Coverage baseline observation in raw.json did not contain reusable baseline arrays")
    );
}

#[test]
fn raw_observations_keep_observed_turns_with_their_numbers() {
    let turns = vec![
        AgentTurn { thought: "a".to_string(), tool_call: None, observation: None, elapsed_ms: None },
        AgentTurn {
            thought: "b".to_string(),
            tool_call: Some(ToolCall { tool: "hash_binary".to_string(), args: obj(vec![]) }),
            observation: Some(obj(vec![("sha256", JsonValue::Str("x".to_string()))])),
            elapsed_ms: Some(3),
        },
    ];
    let bundle = build_raw_observations_bundle("task".to_string(), None, turns);
    assert_eq!(bundle.turns.len(), 1);
    assert_eq!(bundle.turns[0].turn, 2);
    assert_eq!(bundle.turns[0].tool.as_deref(), Some("hash_binary"));
    assert!(bundle.turns[0].args.is_some());
}

#[test]
fn checksum_manifest_of_a_bundle_verifies() {
    let manifest = wraithrun::bundle::checksum_manifest("{}", "[]");
    let (requests, errors) = plan_checksum_entries(&manifest);
    assert!(errors.is_empty());
    assert_eq!(requests.len(), 2);
    assert_eq!(requests[0].file, "report.json");
    assert_eq!(requests[1].file, "raw_observations.json");
    let entry = verify_checksum_entry("b", &requests[0], FileProbe::Read(b"{}".to_vec()));
    assert_eq!(entry.status, BundleVerificationStatus::Pass);
    let entry = verify_checksum_entry("b", &requests[1], FileProbe::Read(b"{}".to_vec()));
    assert_eq!(entry.status, BundleVerificationStatus::Mismatch);
}

#[test]
fn doctor_run_opens_with_profile_selection_and_records_the_runtime_once() {
    let mut run = DoctorRun::begin(&Err("--profile must not be empty".to_string()), &Ok(None), &Ok(SettingsFragment::empty()));
    run.record_runtime(&Ok(RuntimeConfig::new("doctor-self-check".to_string())));
    run.vitis_check(&None, false);
    let report = run.finish();
    assert_eq!(report.checks[0].name, "profile-selection");
    assert_eq!(report.checks[0].status, DoctorStatus::Fail);
    assert_eq!(report.checks.iter().filter(|c| c.name == "effective-runtime").count(), 1);
}
