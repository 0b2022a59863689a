use wraithrun::modes::{
    ensure_exclusive_modes, ensure_introspection_format_usage, is_live_setup_alias, models_alias_flag, ModeFlags,
};
use wraithrun::tool_query::IntrospectionFormat;

fn base_flags() -> ModeFlags {
    ModeFlags {
        doctor: false,
        list_task_templates: false,
        list_tools: false,
        describe_tool: None,
        list_profiles: false,
        print_effective_config: false,
        explain_effective_config: false,
        init_config: false,
        verify_bundle: None,
        live_setup: false,
        models_list: false,
        models_validate: false,
        models_benchmark: false,
    }
}

#[test]
fn rejects_json_introspection_format_without_mode() {
    let flags = base_flags();
    let err = ensure_introspection_format_usage(&flags, IntrospectionFormat::Json)
        .expect_err("json introspection should require introspection mode");
    assert!(err.contains("--introspection-format only applies"));
}

#[test]
fn allows_json_introspection_format_with_mode() {
    let mut flags = base_flags();
    flags.list_profiles = true;
    ensure_introspection_format_usage(&flags, IntrospectionFormat::Json)
        .expect("json introspection should be allowed for list-profiles");
}

#[test]
fn allows_json_introspection_format_for_models_list_mode() {
    let mut flags = base_flags();
    flags.models_list = true;
    ensure_introspection_format_usage(&flags, IntrospectionFormat::Json)
        .expect("json introspection should be allowed for models-list");
}

#[test]
fn allows_json_introspection_format_for_list_tools_mode() {
    let mut flags = base_flags();
    flags.list_tools = true;
    ensure_introspection_format_usage(&flags, IntrospectionFormat::Json)
        .expect("json introspection should be allowed for list-tools");
}

#[test]
fn allows_json_introspection_format_for_describe_tool_mode() {
    let mut flags = base_flags();
    flags.describe_tool = Some("hash_binary".to_string());
    ensure_introspection_format_usage(&flags, IntrospectionFormat::Json)
        .expect("json introspection should be allowed for describe-tool");
}

#[test]
fn allows_json_introspection_format_for_verify_bundle_mode() {
    let mut flags = base_flags();
    flags.verify_bundle = Some(".".to_string());
    ensure_introspection_format_usage(&flags, IntrospectionFormat::Json)
        .expect("json introspection should be allowed for verify-bundle");
}

#[test]
fn text_introspection_format_is_accepted_without_mode() {
    let flags = base_flags();
    assert!(ensure_introspection_format_usage(&flags, IntrospectionFormat::Text).is_ok());
}

#[test]
fn json_introspection_format_is_refused_for_print_effective_config() {
    let mut flags = base_flags();
    flags.print_effective_config = true;
    assert!(ensure_introspection_format_usage(&flags, IntrospectionFormat::Json).is_err());
}

#[test]
fn exclusive_modes_accept_a_single_mode() {
    let mut flags = base_flags();
    assert!(ensure_exclusive_modes(&flags).is_ok());
    flags.doctor = true;
    assert!(ensure_exclusive_modes(&flags).is_ok());
}

#[test]
fn exclusive_modes_name_every_selected_option_in_order() {
    let mut flags = base_flags();
    flags.models_benchmark = true;
    flags.doctor = true;
    flags.describe_tool = Some("hash_binary".to_string());
    let err = ensure_exclusive_modes(&flags).expect_err("three modes must be refused");
    assert_eq!(
        err,
        "Options --doctor, --describe-tool, --models-benchmark are mutually exclusive; choose only one mode."
    );
}

#[test]
fn models_and_live_setup_aliases_map_to_mode_flags() {
    assert_eq!(models_alias_flag(3, Some("models"), Some("list")), Some("--models-list"));
    assert_eq!(models_alias_flag(4, Some("MODELS"), Some("Validate")), Some("--models-validate"));
    assert_eq!(models_alias_flag(3, Some("models"), Some("benchmark")), Some("--models-benchmark"));
    assert_eq!(models_alias_flag(2, Some("models"), Some("list")), None);
    assert_eq!(models_alias_flag(3, Some("models"), Some("remove")), None);
    assert!(is_live_setup_alias(3, Some("live"), Some("SETUP")));
    assert!(!is_live_setup_alias(3, Some("live"), None));
}
