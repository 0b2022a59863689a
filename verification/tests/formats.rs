use wraithrun::agent::{decode_tool_call, extract_tag, tool_call_from_json};
use wraithrun::json::JsonValue;
use wraithrun::model::{
    ConfidenceFactor, EvidencePointer, Finding, FindingConfidence, FindingRelevance, FindingSeverity,
};
use wraithrun::output_formats::{
    finding_json, ocsf_records_at, stix_bundle_at, stix_pattern_for, to_ocsf, to_stix2,
};
use wraithrun::run_report::RunReport;

/// A `serde_json` document as the library's JSON value.
fn from_serde(v: &serde_json::Value) -> JsonValue {
    match v {
        serde_json::Value::Null => JsonValue::Null,
        serde_json::Value::Bool(b) => JsonValue::Bool(*b),
        serde_json::Value::Number(n) => {
            if let Some(u) = n.as_u64() {
                JsonValue::UInt(u)
            } else if let Some(i) = n.as_i64() {
                JsonValue::NegInt(i)
            } else {
                JsonValue::Decimal(n.to_string())
            }
        }
        serde_json::Value::String(s) => JsonValue::Str(s.clone()),
        serde_json::Value::Array(items) => JsonValue::Array(items.iter().map(from_serde).collect()),
        serde_json::Value::Object(map) => {
            JsonValue::Object(map.iter().map(|(k, v)| (k.clone(), from_serde(v))).collect())
        }
    }
}

fn parse(text: &str) -> Option<JsonValue> {
    serde_json::from_str::<serde_json::Value>(text).ok().map(|v| from_serde(&v))
}

/// The agent's reading of a `<call>` body.
fn parse_tool_call(json_str: &str) -> Option<wraithrun::model::ToolCall> {
    tool_call_from_json(parse(json_str)?)
}

fn text<'a>(v: &'a JsonValue, key: &str) -> &'a str {
    v.get(key).and_then(|x| x.as_str()).map(|s| s.as_str()).unwrap_or("")
}

fn finding_fixture() -> Finding {
    Finding {
        title: "Suspicious persistence entries detected (4)".to_string(),
        severity: FindingSeverity::High,
        confidence: 85,
        confidence_label: FindingConfidence::Likely,
        confidence_factors: vec![ConfidenceFactor::new("base_rate", 700, "rule prior".to_string())],
        relevance: FindingRelevance::Primary,
        evidence_pointer: EvidencePointer {
            turn: Some(1),
            tool: Some("inspect_persistence_locations".to_string()),
            field: "observation.suspicious_entry_count".to_string(),
        },
        recommended_action: "Review persistence entries.".to_string(),
    }
}

fn report_fixture() -> RunReport {
    RunReport {
        task: "Analyze persistence".to_string(),
        case_id: None,
        max_severity: Some(FindingSeverity::High),
        backend: None,
        live_fallback_decision: None,
        run_timing: None,
        live_run_metrics: None,
        turns: Vec::new(),
        final_answer: "4 suspicious entries.".to_string(),
        findings: vec![finding_fixture()],
        supplementary_findings: Vec::new(),
    }
}

fn objects(bundle: &JsonValue) -> &Vec<JsonValue> {
    match bundle.get("objects") {
        Some(JsonValue::Array(items)) => items,
        _ => panic!("objects"),
    }
}

#[test]
fn parse_tool_call_valid_json() {
    let call = parse_tool_call(r#"{"tool":"scan_network","args":{"limit":40}}"#);
    assert!(call.is_some());
    let call = call.unwrap();
    assert_eq!(call.tool, "scan_network");
    assert_eq!(call.args.get_u64("limit"), Some(40));
}

#[test]
fn parse_tool_call_missing_args() {
    let call = parse_tool_call(r#"{"tool":"scan_network"}"#);
    assert!(call.is_some());
    let call = call.unwrap();
    assert_eq!(call.tool, "scan_network");
    assert!(call.args.is_object());
}

#[test]
fn parse_tool_call_invalid_json() {
    assert!(parse_tool_call("not json").is_none());
}

#[test]
fn parse_tool_call_missing_tool_field() {
    assert!(parse_tool_call(r#"{"args":{}}"#).is_none());
}

#[test]
fn parses_json_tool_call() {
    let text = r#"<call>{"tool":"scan_network","args":{"limit":5}}</call>"#;
    let body = extract_tag(text, "call").expect("call tag");
    let call = decode_tool_call(parse(&body).expect("json")).expect("tool call should parse");
    assert_eq!(call.tool, "scan_network");
    assert_eq!(call.args.get_u64("limit"), Some(5));
}

#[test]
fn decoded_tool_call_defaults_args_to_null_and_accepts_list_form() {
    let call = decode_tool_call(parse(r#"{"tool":"hash_binary"}"#).unwrap()).unwrap();
    assert!(matches!(call.args, JsonValue::Null));
    let call = decode_tool_call(parse(r#"["read_syslog", {"max_lines": 3}]"#).unwrap()).unwrap();
    assert_eq!(call.tool, "read_syslog");
    assert_eq!(call.args.get_u64("max_lines"), Some(3));
    assert!(decode_tool_call(parse(r#"{"tool": 7}"#).unwrap()).is_none());
    assert!(decode_tool_call(parse(r#"["a", {}, 3]"#).unwrap()).is_none());
}

#[test]
fn ocsf_emits_detection_finding_class() {
    let value = to_ocsf(&report_fixture(), "1.10.0");
    let array = match &value {
        JsonValue::Array(items) => items,
        _ => panic!("array"),
    };
    assert_eq!(array.len(), 1);
    let record = &array[0];
    assert_eq!(record.get_u64("class_uid"), Some(2004));
    assert_eq!(record.get_u64("category_uid"), Some(2));
    assert_eq!(text(record, "severity"), "High");
    assert_eq!(record.get_u64("severity_id"), Some(4));
    assert!(text(record.get("finding_info").unwrap(), "uid").starts_with("wraithrun-"));
}

#[test]
fn ocsf_record_carries_time_confidence_and_raw_finding() {
    let value = ocsf_records_at(&report_fixture(), "1.10.0", 1_700_000_000);
    let record = match &value {
        JsonValue::Array(items) => &items[0],
        _ => panic!("array"),
    };
    assert_eq!(record.get_u64("time"), Some(1_700_000_000_000));
    assert_eq!(record.get_u64("confidence"), Some(85));
    assert_eq!(record.get_u64("confidence_score"), Some(85));
    let raw: serde_json::Value = serde_json::from_str(text(record, "raw_data")).expect("raw data is JSON");
    assert_eq!(raw["title"], "Suspicious persistence entries detected (4)");
    assert_eq!(raw["confidence"], 0.85);
    assert_eq!(raw["confidence_factors"][0]["contribution"], 0.7);
    let evidence = match record.get("evidences") {
        Some(JsonValue::Array(items)) => &items[0],
        _ => panic!("evidences"),
    };
    assert_eq!(text(evidence, "name"), "inspect_persistence_locations");
    let unmapped = record.get("unmapped").unwrap();
    assert_eq!(text(unmapped, "wraithrun.relevance"), "primary");
    assert!(matches!(unmapped.get("wraithrun.case_id"), Some(JsonValue::Null)));
}

#[test]
fn stix_emits_bundle_with_indicator_and_report() {
    let value = to_stix2(&report_fixture(), "1.10.0");
    assert_eq!(text(&value, "type"), "bundle");
    assert!(text(&value, "id").starts_with("bundle--"));
    let objects = objects(&value);
    assert!(objects.iter().any(|o| text(o, "type") == "identity"));
    assert!(objects.iter().any(|o| text(o, "type") == "indicator"));
    assert!(objects.iter().any(|o| text(o, "type") == "report"));
}

#[test]
fn stix_indicator_id_is_stable_per_finding() {
    let report = report_fixture();
    let a = to_stix2(&report, "1.10.0");
    let b = to_stix2(&report, "1.10.0");
    let id_a = objects(&a).iter().find(|o| text(o, "type") == "indicator").map(|o| text(o, "id").to_string());
    let id_b = objects(&b).iter().find(|o| text(o, "type") == "indicator").map(|o| text(o, "id").to_string());
    assert!(id_a.is_some());
    assert_eq!(id_a, id_b);
}

#[test]
fn stix_bundle_uses_given_identifiers_and_time() {
    let value = stix_bundle_at(&report_fixture(), "1.10.0", "b-1", "r-2", "2025-04-24T00:00:00Z");
    assert_eq!(text(&value, "id"), "bundle--b-1");
    let objects = objects(&value);
    assert_eq!(objects.len(), 3);
    assert_eq!(text(&objects[0], "description"), "WraithRun 1.10.0 agentic investigation engine");
    assert!(text(&objects[0], "id").starts_with("identity--"));
    let indicator = &objects[1];
    assert_eq!(text(indicator, "created"), "2025-04-24T00:00:00Z");
    assert_eq!(text(indicator, "created_by_ref"), text(&objects[0], "id"));
    assert_eq!(indicator.get_u64("confidence"), Some(85));
    let report = &objects[2];
    assert_eq!(text(report, "id"), "report--r-2");
    assert_eq!(text(report, "name"), "WraithRun investigation: Analyze persistence");
    match report.get("object_refs") {
        Some(JsonValue::Array(refs)) => {
            assert_eq!(refs.len(), 1);
            assert_eq!(refs[0].as_str().map(|s| s.as_str()), Some(text(indicator, "id")));
        }
        _ => panic!("object_refs"),
    }
}

#[test]
fn stix_patterns_follow_the_evidence_field() {
    let mut f = finding_fixture();
    f.title = "Bob's file".to_string();
    assert_eq!(stix_pattern_for(&f), "[x-wraithrun-finding:title = 'Bob\\'s file']");
    f.evidence_pointer.field = "observation.sha256".to_string();
    assert_eq!(stix_pattern_for(&f), "[file:hashes.'SHA-256' = 'Bob's file']");
    f.evidence_pointer.field = "observation.listener_count".to_string();
    assert_eq!(stix_pattern_for(&f), "[network-traffic:protocols[*] = 'tcp']");
}

#[test]
fn finding_json_rounds_negative_contributions_away_from_zero() {
    let mut f = finding_fixture();
    f.confidence_factors = vec![ConfidenceFactor::new("correction", -125, "penalty".to_string())];
    let doc = finding_json(&f);
    match doc.get("confidence_factors") {
        Some(JsonValue::Array(items)) => match items[0].get("contribution") {
            Some(JsonValue::Decimal(t)) => assert_eq!(t, "-0.13"),
            _ => panic!("contribution"),
        },
        _ => panic!("factors"),
    }
    f.confidence_factors = Vec::new();
    assert!(finding_json(&f).get("confidence_factors").is_none());
}
