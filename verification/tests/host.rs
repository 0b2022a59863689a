use wraithrun::digest::{deterministic_uuid, sha256_hex, stable_uid, stable_uuid, utf8_bytes};
use wraithrun::json::JsonValue;
use wraithrun::plugin::{admit_plugin, PluginConfig, PluginManifest, PluginParameter, PluginTool};
use wraithrun::records::{is_windows_event_channel, read_windows_event_log};
use wraithrun::sandbox::{SandboxPolicy, ToolError};
use wraithrun::server::{status_to_str, str_to_status, RunStatus};
use wraithrun::time::{is_leap_year, secs_to_iso8601};
use wraithrun::tools::{calculate_network_risk_score, network_risk_level, sort_dedup_case_insensitive};

// ── Timestamps ──

#[test]
fn iso8601_unix_epoch() {
    assert_eq!(secs_to_iso8601(0), "1970-01-01T00:00:00Z");
}

#[test]
fn iso8601_april_2025_timestamp() {
    // 1745452800 is 20202 days after the epoch: 2025-04-24.
    assert_eq!(secs_to_iso8601(1_745_452_800), "2025-04-24T00:00:00Z");
}

#[test]
fn iso8601_leap_day() {
    // 2024-02-29T00:00:00Z = 1709164800
    assert_eq!(secs_to_iso8601(1_709_164_800), "2024-02-29T00:00:00Z");
}

#[test]
fn iso8601_format_matches_pattern() {
    let ts = secs_to_iso8601(1_700_000_000);
    assert!(ts.len() == 20 && ts.ends_with('Z') && ts.contains('T'), "unexpected format: {ts}");
}

#[test]
fn iso8601_end_of_day_and_century_rules() {
    assert_eq!(secs_to_iso8601(86_399), "1970-01-01T23:59:59Z");
    assert_eq!(secs_to_iso8601(951_782_400), "2000-02-29T00:00:00Z");
    assert!(is_leap_year(2000));
    assert!(!is_leap_year(1900));
    assert!(is_leap_year(2024));
    assert!(!is_leap_year(2023));
}

// ── Event logs ──

#[test]
fn windows_event_log_reads_application_channel() {
    assert!(is_windows_event_channel("Application"));
    assert!(is_windows_event_channel("System"));
    assert!(is_windows_event_channel("Security"));
    assert!(!is_windows_event_channel("/var/log/syslog"));
    assert!(!is_windows_event_channel("./agent.log"));
    match read_windows_event_log("Application", 5) {
        Err(ToolError::Execution(message)) => assert!(message.contains("only available on Windows")),
        _ => panic!("reading an event log off Windows should fail"),
    }
}

// ── Run status tokens ──

#[test]
fn run_status_round_trips_through_its_token() {
    for status in [RunStatus::Queued, RunStatus::Running, RunStatus::Completed, RunStatus::Failed, RunStatus::Cancelled] {
        assert_eq!(str_to_status(status_to_str(&status)), status);
    }
    assert_eq!(status_to_str(&RunStatus::Cancelled), "cancelled");
    assert_eq!(str_to_status("bogus"), RunStatus::Failed);
}

// ── Sandbox ──

#[test]
fn strict_policy_denies_shells_and_protected_roots() {
    let policy = SandboxPolicy::strict_default("/work".to_string());
    assert!(policy.ensure_command_allowed("id").is_ok());
    assert!(matches!(policy.ensure_command_allowed("BASH"), Err(ToolError::PolicyDenied(_))));
    assert!(matches!(policy.ensure_command_allowed("ls"), Err(ToolError::PolicyDenied(_))));
    assert!(policy.ensure_path_allowed("/var/log/syslog").is_ok());
    assert!(matches!(policy.ensure_path_allowed("/proc/1/environ"), Err(ToolError::PolicyDenied(_))));
    assert!(matches!(policy.ensure_path_allowed("/home/user/file"), Err(ToolError::PolicyDenied(_))));
}

// ── Network risk ──

#[test]
fn network_risk_score_and_level() {
    let score = calculate_network_risk_score(4, 2, 0, 0, 0);
    assert_eq!(score, 48);
    assert_eq!(network_risk_level(score), "high");
    assert_eq!(calculate_network_risk_score(3, 5, 1, 0, 0), 100);
    assert_eq!(network_risk_level(0), "low");
    assert_eq!(network_risk_level(100), "critical");
}

#[test]
fn case_insensitive_sort_keeps_first_spelling() {
    let mut v = vec!["beta".to_string(), "Alpha".to_string(), "ALPHA".to_string(), "gamma".to_string()];
    sort_dedup_case_insensitive(&mut v);
    assert_eq!(v, vec!["Alpha".to_string(), "beta".to_string(), "gamma".to_string()]);
}

// ── Digests and stable identifiers ──

#[test]
fn sha256_of_abc_is_the_published_vector() {
    assert_eq!(
        sha256_hex(&utf8_bytes("abc")),
        "ba7816bf8f01cfea414140de5dae2223b00361a396177a9cb410ff61f20015ad"
    );
}

#[test]
fn stable_identifiers_are_deterministic_and_shaped() {
    let uid = stable_uid("Title", "observation.field");
    assert!(uid.starts_with("wraithrun-"));
    assert_eq!(uid.len(), "wraithrun-".len() + 21);
    assert_eq!(uid, stable_uid("Title", "observation.field"));
    assert_ne!(uid, stable_uid("Other", "observation.field"));
    let u = deterministic_uuid("identity:wraithrun");
    assert_eq!(u.len(), 36);
    assert_eq!(&u[14..15], "4");
    assert!(matches!(&u[19..20], "8" | "9" | "a" | "b"));
    assert_eq!(stable_uuid("T", "f", &None), deterministic_uuid("T|f|"));
    assert_eq!(stable_uuid("T", "f", &Some("tool".to_string())), deterministic_uuid("T|f|tool"));
}

// ── Plugins ──

fn manifest(name: &str, platforms: Vec<&str>) -> PluginManifest {
    PluginManifest {
        name: name.to_string(),
        description: "test".to_string(),
        version: String::new(),
        command: "./run.sh".to_string(),
        platforms: platforms.into_iter().map(String::from).collect(),
        timeout_secs: None,
        parameters: vec![],
    }
}

#[test]
fn plugin_spec_includes_parameters() {
    let mut m = manifest("test", vec![]);
    m.description = "desc".to_string();
    m.parameters = vec![(
        "path".to_string(),
        PluginParameter { param_type: "string".to_string(), required: true, description: "target path".to_string() },
    )];
    let tool = PluginTool { manifest: m, plugin_dir: ".".to_string(), command_path: "./run".to_string(), timeout_secs: 30 };
    let spec = tool.spec();
    assert_eq!(spec.name, "test");
    let JsonValue::Object(schema) = &spec.args_schema else { panic!("schema should be an object") };
    let props = schema.iter().find(|(k, _)| k == "properties").expect("properties");
    let JsonValue::Object(props) = &props.1 else { panic!("properties should be an object") };
    assert!(props.iter().any(|(k, _)| k == "path"));
    let required = schema.iter().find(|(k, _)| k == "required").expect("required");
    let JsonValue::Array(required) = &required.1 else { panic!("required should be an array") };
    assert_eq!(required.len(), 1);
}

#[test]
fn discover_skips_disallowed_plugins() {
    let config = PluginConfig::new("/tools".to_string(), vec![]);
    let policy = SandboxPolicy::strict_default("/work".to_string());
    let r = admit_plugin(manifest("my_plugin", vec![]), "/tools/my_plugin", &config, &policy, "linux", true);
    match r {
        Err(ToolError::PolicyDenied(m)) => assert!(m.contains("not in the allowed_plugins list")),
        _ => panic!("disallowed plugin should not be loaded"),
    }
}

#[test]
fn discover_loads_allowed_plugin() {
    let config = PluginConfig::new("/tools".to_string(), vec!["allowed_plugin".to_string()]);
    let policy = SandboxPolicy::strict_default("/work".to_string());
    let tool = admit_plugin(manifest("allowed_plugin", vec!["linux"]), "/tools/allowed_plugin", &config, &policy, "linux", true)
        .expect("allowed plugin should load");
    assert_eq!(tool.spec().name, "allowed_plugin");
    assert_eq!(tool.command_path, "/tools/allowed_plugin/./run.sh");
    assert_eq!(tool.timeout_secs, 30);
}

#[test]
fn discover_skips_wrong_platform() {
    let config = PluginConfig::new("/tools".to_string(), vec!["wrong_platform".to_string()]);
    let policy = SandboxPolicy::strict_default("/work".to_string());
    let r = admit_plugin(manifest("wrong_platform", vec!["nonexistent_os"]), "/tools/wrong_platform", &config, &policy, "linux", true);
    assert!(matches!(r, Err(ToolError::Execution(m)) if m.contains("does not support platform 'linux'")));
}

#[test]
fn plugin_missing_command_and_denylisted_command_are_refused() {
    let config = PluginConfig::new("/tools".to_string(), vec!["p".to_string(), "p".to_string()]);
    assert_eq!(config.allowed_plugins.len(), 1);
    let policy = SandboxPolicy::strict_default("/work".to_string());
    let r = admit_plugin(manifest("p", vec![]), "/tools/p", &config, &policy, "linux", false);
    assert!(matches!(r, Err(ToolError::Execution(m)) if m == "plugin command not found: /tools/p/./run.sh"));
    let mut m = manifest("p", vec![]);
    m.command = "/usr/bin/Bash".to_string();
    let r = admit_plugin(m, "/tools/p", &config, &policy, "linux", true);
    assert!(matches!(r, Err(ToolError::PolicyDenied(msg)) if msg.contains("'Bash' is in the sandbox denylist")));
}

#[test]
fn default_tools_dir_lives_under_the_home_config() {
    assert_eq!(PluginConfig::default_tools_dir(Some("/home/u")), "/home/u/.config/wraithrun/tools");
    assert_eq!(PluginConfig::default_tools_dir(Some("/home/u/")), "/home/u/.config/wraithrun/tools");
    assert_eq!(PluginConfig::default_tools_dir(None), "./.config/wraithrun/tools");
    assert_eq!(PluginTool::resolve_command("/plugins/x", "/abs/cmd"), "/abs/cmd");
}
