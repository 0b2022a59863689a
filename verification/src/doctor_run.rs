//! The doctor's self-check of a run's settings: where the profile, the config file
//! and the environment came from, what the effective runtime is, and the remediation
//! the doctor applies to a live setup when asked to fix it.  The host reads the files
//! and the environment and probes the paths; these functions decide the checks.
use vstd::prelude::*;

use crate::cli::{live_fallback_policy_token, LiveFallbackPolicy, OutputFormat};
use crate::config::{builtin_profile, builtin_profile_spec, lookup_profile, profile_index, FileConfig, RuntimeConfig, SettingsFragment};
use crate::doctor::{DoctorCheck, DoctorReport, DoctorStatus};
use crate::json::json_get;
use crate::pack_doctor::{
    appended, ck, is_onnx_path, is_onnx_spec, lemma_appended_chain, lemma_appended_nothing, record, CheckSpec,
    IoFailure, ModelPackProbes, TokenizerContent,
};
use crate::text::{chars_of, dec, push_all, push_str, usize_dec};

verus! {

// ---------------------------------------------------------------------------
// Where the settings came from
// ---------------------------------------------------------------------------

/// How the config file was found and read: `None` when no file was found, else its
/// path and what reading and parsing it gave.
pub type ConfigLoad = Option<(String, Result<FileConfig, String>)>;

/// The check of the profile selection.
pub open spec fn profile_selection_check(profile: Result<Option<String>, String>) -> CheckSpec {
    match profile {
        Ok(Some(p)) => ck(DoctorStatus::Pass, "profile-selection"@, "Selected profile: "@ + p@, None),
        Ok(None) => ck(
            DoctorStatus::Warn,
            "profile-selection"@,
            "No profile selected; defaults/config/env/CLI values will be used."@,
            None,
        ),
        Err(e) => ck(DoctorStatus::Fail, "profile-selection"@, "Unable to resolve profile: "@ + e@, None),
    }
}

/// The check of the config file.
pub open spec fn config_file_check(config: Result<ConfigLoad, String>) -> CheckSpec {
    match config {
        Err(e) => ck(DoctorStatus::Fail, "config-selection"@, "Unable to resolve config path: "@ + e@, None),
        Ok(None) => ck(
            DoctorStatus::Warn,
            "config-file"@,
            "No config file detected (checked --config, WRAITHRUN_CONFIG, and ./wraithrun.toml)."@,
            None,
        ),
        Ok(Some((path, Ok(_)))) => ck(DoctorStatus::Pass, "config-file"@, "Loaded config: "@ + path@, None),
        Ok(Some((path, Err(e)))) => ck(
            DoctorStatus::Fail,
            "config-file"@,
            "Failed to load config '"@ + path@ + "': "@ + e@,
            None,
        ),
    }
}

/// The config file that was read, if any.
pub open spec fn loaded_config(config: Result<ConfigLoad, String>) -> Option<FileConfig> {
    match config {
        Ok(Some((_, Ok(fc)))) => Some(fc),
        _ => None,
    }
}

/// The check that the selected profile exists somewhere.
pub open spec fn availability_check(p: Seq<char>, fc: Option<FileConfig>) -> CheckSpec {
    let builtin = builtin_profile_spec(p) is Some;
    let in_file = fc matches Some(c) && profile_index(c.profiles@, p) is Some;
    if builtin && in_file {
        ck(
            DoctorStatus::Pass,
            "profile-availability"@,
            "Profile '"@ + p + "' found in built-ins and config file; config profile overrides overlapping keys."@,
            None,
        )
    } else if builtin {
        ck(DoctorStatus::Pass, "profile-availability"@, "Profile '"@ + p + "' found in built-in profiles."@, None)
    } else if in_file {
        ck(DoctorStatus::Pass, "profile-availability"@, "Profile '"@ + p + "' found in config profiles."@, None)
    } else {
        ck(
            DoctorStatus::Fail,
            "profile-availability"@,
            "Profile '"@ + p
                + "' is not available in built-in profiles (local-lab, production-triage, live-model, live-fast, live-balanced, live-deep) or loaded config profiles."@,
            None,
        )
    }
}

/// The check of the environment overrides.
pub open spec fn environment_check(env: Result<SettingsFragment, String>) -> CheckSpec {
    match env {
        Ok(_) => ck(
            DoctorStatus::Pass,
            "environment-overrides"@,
            "Environment overrides parsed successfully."@,
            None,
        ),
        Err(e) => ck(
            DoctorStatus::Fail,
            "environment-overrides"@,
            "Invalid environment variable value: "@ + e@,
            None,
        ),
    }
}

/// The checks of where the settings came from, in the order the doctor runs them.
pub open spec fn source_checks(
    profile: Result<Option<String>, String>,
    config: Result<ConfigLoad, String>,
    env: Result<SettingsFragment, String>,
) -> Seq<CheckSpec> {
    seq![profile_selection_check(profile), config_file_check(config)] + availability_part(profile, config)
        + seq![environment_check(env)]
}

/// The availability check, made only when a profile was selected.
pub open spec fn availability_part(profile: Result<Option<String>, String>, config: Result<ConfigLoad, String>) -> Seq<
    CheckSpec,
> {
    match profile {
        Ok(Some(p)) => seq![availability_check(p@, loaded_config(config))],
        _ => Seq::empty(),
    }
}

fn text(s: &str) -> (r: Vec<char>)
    ensures
        r@ == s@,
{
    chars_of(s)
}

fn record_profile_selection(report: &mut DoctorReport, profile: &Result<Option<String>, String>)
    ensures
        appended(old(report).checks@, final(report).checks@, seq![profile_selection_check(*profile)]),
{
    match profile {
        Ok(Some(p)) => {
            let mut d = chars_of("Selected profile: ");
            push_str(&mut d, p.as_str());
            record(report, DoctorStatus::Pass, "profile-selection", &d, None);
        },
        Ok(None) => {
            let d = text("No profile selected; defaults/config/env/CLI values will be used.");
            record(report, DoctorStatus::Warn, "profile-selection", &d, None);
        },
        Err(e) => {
            let mut d = chars_of("Unable to resolve profile: ");
            push_str(&mut d, e.as_str());
            record(report, DoctorStatus::Fail, "profile-selection", &d, None);
        },
    }
}

fn record_config_file(report: &mut DoctorReport, config: &Result<ConfigLoad, String>)
    ensures
        appended(old(report).checks@, final(report).checks@, seq![config_file_check(*config)]),
{
    match config {
        Err(e) => {
            let mut d = chars_of("Unable to resolve config path: ");
            push_str(&mut d, e.as_str());
            record(report, DoctorStatus::Fail, "config-selection", &d, None);
        },
        Ok(None) => {
            let d = text("No config file detected (checked --config, WRAITHRUN_CONFIG, and ./wraithrun.toml).");
            record(report, DoctorStatus::Warn, "config-file", &d, None);
        },
        Ok(Some((path, Ok(_)))) => {
            let mut d = chars_of("Loaded config: ");
            push_str(&mut d, path.as_str());
            record(report, DoctorStatus::Pass, "config-file", &d, None);
        },
        Ok(Some((path, Err(e)))) => {
            let mut d = chars_of("Failed to load config '");
            push_str(&mut d, path.as_str());
            push_str(&mut d, "': ");
            push_str(&mut d, e.as_str());
            record(report, DoctorStatus::Fail, "config-file", &d, None);
        },
    }
}

fn record_availability(report: &mut DoctorReport, p: &String, config: &Result<ConfigLoad, String>)
    ensures
        appended(old(report).checks@, final(report).checks@, seq![availability_check(p@, loaded_config(*config))]),
{
    let builtin = builtin_profile(p.as_str()).is_some();
    let in_file = match config {
        Ok(Some((_, Ok(fc)))) => lookup_profile(&fc.profiles, p.as_str()).is_some(),
        _ => false,
    };
    let mut d = chars_of("Profile '");
    push_str(&mut d, p.as_str());
    if builtin && in_file {
        push_str(&mut d, "' found in built-ins and config file; config profile overrides overlapping keys.");
        record(report, DoctorStatus::Pass, "profile-availability", &d, None);
    } else if builtin {
        push_str(&mut d, "' found in built-in profiles.");
        record(report, DoctorStatus::Pass, "profile-availability", &d, None);
    } else if in_file {
        push_str(&mut d, "' found in config profiles.");
        record(report, DoctorStatus::Pass, "profile-availability", &d, None);
    } else {
        push_str(
            &mut d,
            "' is not available in built-in profiles (local-lab, production-triage, live-model, live-fast, live-balanced, live-deep) or loaded config profiles.",
        );
        record(report, DoctorStatus::Fail, "profile-availability", &d, None);
    }
}

fn record_environment(report: &mut DoctorReport, env: &Result<SettingsFragment, String>)
    ensures
        appended(old(report).checks@, final(report).checks@, seq![environment_check(*env)]),
{
    match env {
        Ok(_) => {
            let d = text("Environment overrides parsed successfully.");
            record(report, DoctorStatus::Pass, "environment-overrides", &d, None);
        },
        Err(e) => {
            let mut d = chars_of("Invalid environment variable value: ");
            push_str(&mut d, e.as_str());
            record(report, DoctorStatus::Fail, "environment-overrides", &d, None);
        },
    }
}

/// Records the checks of where a run's settings came from (see [`source_checks`]):
/// `profile` is the profile the command line or the environment selected, `config` the
/// config file found and what reading it gave, `env` the parsed environment overrides.
pub fn record_settings_sources(
    report: &mut DoctorReport,
    profile: &Result<Option<String>, String>,
    config: &Result<ConfigLoad, String>,
    env: &Result<SettingsFragment, String>,
)
    ensures
        appended(old(report).checks@, final(report).checks@, source_checks(*profile, *config, *env)),
{
    let ghost c0 = report.checks@;
    record_profile_selection(report, profile);
    let ghost c1 = report.checks@;
    record_config_file(report, config);
    let ghost c2 = report.checks@;
    proof {
        lemma_appended_chain(c0, c1, c2, seq![profile_selection_check(*profile)], seq![config_file_check(*config)]);
    }
    let ghost mid = availability_part(*profile, *config);
    match profile {
        Ok(Some(p)) => record_availability(report, p, config),
        _ => {
            proof {
                lemma_appended_nothing(c2);
            }
        },
    }
    let ghost c3 = report.checks@;
    record_environment(report, env);
    proof {
        let s01 = seq![profile_selection_check(*profile)] + seq![config_file_check(*config)];
        lemma_appended_chain(c0, c2, c3, s01, mid);
        lemma_appended_chain(c0, c3, report.checks@, s01 + mid, seq![environment_check(*env)]);
        assert(s01 == seq![profile_selection_check(*profile), config_file_check(*config)]);
    }
}

// ---------------------------------------------------------------------------
// The effective runtime
// ---------------------------------------------------------------------------

/// A report format as the doctor names it.
pub open spec fn format_name(f: OutputFormat) -> Seq<char> {
    match f {
        OutputFormat::Json => "Json"@,
        OutputFormat::Summary => "Summary"@,
        OutputFormat::Markdown => "Markdown"@,
    }
}

/// The check of the settings a run resolved to.
pub open spec fn effective_runtime_check(runtime: Result<RuntimeConfig, String>) -> CheckSpec {
    match runtime {
        Ok(c) => ck(
            DoctorStatus::Pass,
            "effective-runtime"@,
            "Resolved mode="@ + (if c.live { "live"@ } else { "dry-run"@ }) + ", model='"@ + c.model@ + "', max_steps="@
                + dec(c.max_steps as nat) + ", max_new_tokens="@ + dec(c.max_new_tokens as nat) + ", format="@
                + format_name(c.format) + "."@,
            None,
        ),
        Err(e) => ck(
            DoctorStatus::Fail,
            "effective-runtime"@,
            "Unable to resolve effective runtime settings: "@ + e@,
            None,
        ),
    }
}

/// Records the check of the settings a run resolved to, or of why they did not resolve.
pub fn record_effective_runtime(report: &mut DoctorReport, runtime: &Result<RuntimeConfig, String>)
    ensures
        appended(old(report).checks@, final(report).checks@, seq![effective_runtime_check(*runtime)]),
{
    match runtime {
        Ok(c) => {
            let mut d = chars_of("Resolved mode=");
            push_str(&mut d, if c.live { "live" } else { "dry-run" });
            push_str(&mut d, ", model='");
            push_str(&mut d, c.model.as_str());
            push_str(&mut d, "', max_steps=");
            push_all(&mut d, &usize_dec(c.max_steps));
            push_str(&mut d, ", max_new_tokens=");
            push_all(&mut d, &usize_dec(c.max_new_tokens));
            push_str(&mut d, ", format=");
            push_str(
                &mut d,
                match c.format {
                    OutputFormat::Json => "Json",
                    OutputFormat::Summary => "Summary",
                    OutputFormat::Markdown => "Markdown",
                },
            );
            push_str(&mut d, ".");
            record(report, DoctorStatus::Pass, "effective-runtime", &d, None);
        },
        Err(e) => {
            let mut d = chars_of("Unable to resolve effective runtime settings: ");
            push_str(&mut d, e.as_str());
            record(report, DoctorStatus::Fail, "effective-runtime", &d, None);
        },
    }
}

/// The check of the Vitis config file, made when one is configured.
pub open spec fn vitis_checks(vitis_config: Option<Seq<char>>, is_file: bool) -> Seq<CheckSpec> {
    match vitis_config {
        Some(v) => if is_file {
            seq![ck(DoctorStatus::Pass, "vitis-config"@, "Vitis config file found: "@ + v, None)]
        } else {
            seq![ck(DoctorStatus::Warn, "vitis-config"@, "Vitis config is set but file was not found: "@ + v, None)]
        },
        None => Seq::empty(),
    }
}

/// Records the check of the configured Vitis config file; `is_file` is whether the host
/// found a file at its path.
pub fn record_vitis_config(report: &mut DoctorReport, vitis_config: &Option<String>, is_file: bool)
    ensures
        appended(
            old(report).checks@,
            final(report).checks@,
            vitis_checks(crate::model::opt_view(*vitis_config), is_file),
        ),
{
    match vitis_config {
        Some(v) => {
            if is_file {
                let mut d = chars_of("Vitis config file found: ");
                push_str(&mut d, v.as_str());
                record(report, DoctorStatus::Pass, "vitis-config", &d, None);
            } else {
                let mut d = chars_of("Vitis config is set but file was not found: ");
                push_str(&mut d, v.as_str());
                record(report, DoctorStatus::Warn, "vitis-config", &d, None);
            }
        },
        None => {
            proof {
                lemma_appended_nothing(report.checks@);
            }
        },
    }
}

// ---------------------------------------------------------------------------
// Fixing a live setup
// ---------------------------------------------------------------------------

/// What the host found for the configured model path before the doctor fixes it.
#[derive(Debug)]
pub struct ModelPathProbe {
    /// A file exists at the model path.
    pub is_file: bool,
    /// The first `.onnx` file, in path order, in the model path's directory.
    pub nearby_onnx: Option<String>,
    /// The model that discovery finds in the usual places (`./models` and the like).
    pub discovered: Option<String>,
}

/// The first of two optional paths that is there.
pub open spec fn first_some(a: Option<String>, b: Option<String>) -> Option<String> {
    match a {
        Some(x) => Some(x),
        None => b,
    }
}

/// The check of the fallback policy a live fix leaves.
pub open spec fn fallback_fix_check(policy: LiveFallbackPolicy) -> CheckSpec {
    match policy {
        LiveFallbackPolicy::Disabled => ck(
            DoctorStatus::Pass,
            "fix-live-fallback-policy"@,
            "Set live fallback policy to dry-run-on-error so live failures preserve operator workflow continuity."@,
            Some("fallback_policy_auto_enabled"@),
        ),
        LiveFallbackPolicy::DryRunOnError => ck(
            DoctorStatus::Pass,
            "fix-live-fallback-policy"@,
            "Live fallback policy already set to '"@ + "dry-run-on-error"@ + "'."@,
            None,
        ),
    }
}

/// The checks of the model path fix.
pub open spec fn model_path_fix_checks(m: Seq<char>, explicit_model: bool, p: ModelPathProbe) -> Seq<CheckSpec> {
    if !p.is_file {
        if explicit_model {
            seq![
                ck(
                    DoctorStatus::Warn,
                    "fix-live-model-path"@,
                    "Explicit --model path was not found: "@ + m + ". Update --model to a readable .onnx file."@,
                    Some("model_path_explicit_invalid"@),
                ),
            ]
        } else {
            match first_some(p.nearby_onnx, p.discovered) {
                Some(q) => seq![
                    ck(
                        DoctorStatus::Pass,
                        "fix-live-model-path"@,
                        "Auto-discovered model path: "@ + q@,
                        Some("model_path_auto_discovered"@),
                    ),
                ],
                None => seq![
                    ck(
                        DoctorStatus::Warn,
                        "fix-live-model-path"@,
                        "No fallback model candidate was discovered. Place a .onnx file under ./models or pass --model <PATH>."@,
                        Some("model_path_discovery_failed"@),
                    ),
                ],
            }
        }
    } else if !is_onnx_spec(m) {
        if explicit_model {
            seq![
                ck(
                    DoctorStatus::Warn,
                    "fix-live-model-path"@,
                    "Explicit --model path is not an ONNX file: "@ + m + ". Provide a .onnx model file."@,
                    Some("model_format_explicit_non_onnx"@),
                ),
            ]
        } else {
            match p.nearby_onnx {
                Some(q) => if q@ != m {
                    seq![
                        ck(
                            DoctorStatus::Pass,
                            "fix-live-model-path"@,
                            "Switched to nearby ONNX model candidate: "@ + q@,
                            Some("model_path_auto_corrected"@),
                        ),
                    ]
                } else {
                    Seq::empty()
                },
                None => Seq::empty(),
            }
        }
    } else {
        Seq::empty()
    }
}

/// The model path a live fix leaves.
pub open spec fn fixed_model(m: Seq<char>, explicit_model: bool, p: ModelPathProbe) -> Seq<char> {
    if explicit_model {
        m
    } else if !p.is_file {
        match first_some(p.nearby_onnx, p.discovered) {
            Some(q) => q@,
            None => m,
        }
    } else if !is_onnx_spec(m) {
        match p.nearby_onnx {
            Some(q) => q@,
            None => m,
        }
    } else {
        m
    }
}

/// The checks of the first stage of a live fix: the fallback policy and the model path.
/// A dry-run setup gets one warning and no fix.
pub open spec fn settings_fix_checks(c: crate::config::ConfigView, explicit_model: bool, p: ModelPathProbe) -> Seq<
    CheckSpec,
> {
    if !c.live {
        seq![
            ck(
                DoctorStatus::Warn,
                "doctor-fix"@,
                "--fix was requested, but live mode is disabled in effective settings. Re-run with --doctor --live --fix to apply live remediation handlers."@,
                Some("fix_requires_live_mode"@),
            ),
        ]
    } else {
        seq![fallback_fix_check(c.live_fallback_policy)] + model_path_fix_checks(c.model, explicit_model, p)
    }
}

/// The settings after the first stage of a live fix: live fallback to a dry run is
/// enabled, and a missing or non-ONNX model path the command line did not give is
/// replaced by a discovered model.
pub open spec fn settings_fixed(c: crate::config::ConfigView, explicit_model: bool, p: ModelPathProbe) -> crate::config::ConfigView {
    if !c.live {
        c
    } else {
        crate::config::ConfigView {
            live_fallback_policy: LiveFallbackPolicy::DryRunOnError,
            model: fixed_model(c.model, explicit_model, p),
            ..c
        }
    }
}

fn record_model_path_fix(runtime: &mut RuntimeConfig, explicit_model: bool, probe: &ModelPathProbe, report: &mut DoctorReport)
    ensures
        appended(old(report).checks@, final(report).checks@, model_path_fix_checks(old(runtime).model@, explicit_model, *probe)),
        final(runtime)@ == (crate::config::ConfigView {
            model: fixed_model(old(runtime).model@, explicit_model, *probe),
            ..old(runtime)@
        }),
{
    let ghost c0 = report.checks@;
    if !probe.is_file {
        if explicit_model {
            let mut d = chars_of("Explicit --model path was not found: ");
            push_str(&mut d, runtime.model.as_str());
            push_str(&mut d, ". Update --model to a readable .onnx file.");
            record(report, DoctorStatus::Warn, "fix-live-model-path", &d, Some("model_path_explicit_invalid"));
        } else {
            let found = match &probe.nearby_onnx {
                Some(q) => Some(q),
                None => match &probe.discovered {
                    Some(q) => Some(q),
                    None => None,
                },
            };
            match found {
                Some(q) => {
                    runtime.model = crate::model::clone_string(q);
                    let mut d = chars_of("Auto-discovered model path: ");
                    push_str(&mut d, q.as_str());
                    record(report, DoctorStatus::Pass, "fix-live-model-path", &d, Some("model_path_auto_discovered"));
                },
                None => {
                    let d = text(
                        "No fallback model candidate was discovered. Place a .onnx file under ./models or pass --model <PATH>.",
                    );
                    record(report, DoctorStatus::Warn, "fix-live-model-path", &d, Some("model_path_discovery_failed"));
                },
            }
        }
    } else if !is_onnx_path(runtime.model.as_str()) {
        if explicit_model {
            let mut d = chars_of("Explicit --model path is not an ONNX file: ");
            push_str(&mut d, runtime.model.as_str());
            push_str(&mut d, ". Provide a .onnx model file.");
            record(report, DoctorStatus::Warn, "fix-live-model-path", &d, Some("model_format_explicit_non_onnx"));
        } else {
            match &probe.nearby_onnx {
                Some(q) => {
                    let same = crate::text::chars_eq(&chars_of(q.as_str()), &chars_of(runtime.model.as_str()));
                    if !same {
                        runtime.model = crate::model::clone_string(q);
                        let mut d = chars_of("Switched to nearby ONNX model candidate: ");
                        push_str(&mut d, q.as_str());
                        record(report, DoctorStatus::Pass, "fix-live-model-path", &d, Some("model_path_auto_corrected"));
                    } else {
                        proof {
                            lemma_appended_nothing(c0);
                        }
                    }
                },
                None => {
                    proof {
                        lemma_appended_nothing(c0);
                    }
                },
            }
        }
    } else {
        proof {
            lemma_appended_nothing(c0);
        }
    }
}

/// The first stage of the doctor's live fix (see [`settings_fix_checks`] and
/// [`settings_fixed`]).  `explicit_model` is whether the command line gave the model
/// path; `probe` is what the host found for the configured model path.  Returns
/// whether the setup is live, so that the second stage applies.
pub fn fix_live_settings(
    runtime: &mut RuntimeConfig,
    explicit_model: bool,
    probe: &ModelPathProbe,
    report: &mut DoctorReport,
) -> (live: bool)
    ensures
        live == old(runtime).live,
        appended(old(report).checks@, final(report).checks@, settings_fix_checks(old(runtime)@, explicit_model, *probe)),
        final(runtime)@ == settings_fixed(old(runtime)@, explicit_model, *probe),
{
    let ghost c0 = report.checks@;
    if !runtime.live {
        let d = text(
            "--fix was requested, but live mode is disabled in effective settings. Re-run with --doctor --live --fix to apply live remediation handlers.",
        );
        record(report, DoctorStatus::Warn, "doctor-fix", &d, Some("fix_requires_live_mode"));
        return false;
    }
    match runtime.live_fallback_policy {
        LiveFallbackPolicy::Disabled => {
            runtime.live_fallback_policy = LiveFallbackPolicy::DryRunOnError;
            let d = text(
                "Set live fallback policy to dry-run-on-error so live failures preserve operator workflow continuity.",
            );
            record(report, DoctorStatus::Pass, "fix-live-fallback-policy", &d, Some("fallback_policy_auto_enabled"));
        },
        LiveFallbackPolicy::DryRunOnError => {
            let mut d = chars_of("Live fallback policy already set to '");
            push_str(&mut d, live_fallback_policy_token(runtime.live_fallback_policy));
            push_str(&mut d, "'.");
            record(report, DoctorStatus::Pass, "fix-live-fallback-policy", &d, None);
        },
    }
    let ghost c1 = report.checks@;
    record_model_path_fix(runtime, explicit_model, probe, report);
    proof {
        lemma_appended_chain(
            c0,
            c1,
            report.checks@,
            seq![fallback_fix_check(old(runtime).live_fallback_policy)],
            model_path_fix_checks(old(runtime).model@, explicit_model, *probe),
        );
    }
    true
}

/// The health of a tokenizer file from what reading it gave: readable JSON with a
/// top-level `model` key, or the reason code of the problem.
pub open spec fn tokenizer_health_spec(c: TokenizerContent) -> Result<(), Seq<char>> {
    match c {
        TokenizerContent::Unreadable(e) => Err(
            crate::pack_doctor::io_reason(e.permission_denied, "tokenizer_permission_denied"@, "tokenizer_read_failed"@),
        ),
        TokenizerContent::Invalid(_) => Err("tokenizer_json_invalid"@),
        TokenizerContent::Parsed(doc) => if json_get(doc, "model"@) is Some {
            Ok(())
        } else {
            Err("tokenizer_model_key_missing"@)
        },
    }
}

/// The health of a tokenizer file (see [`tokenizer_health_spec`]).
pub fn tokenizer_health(content: &TokenizerContent) -> (r: Result<(), &'static str>)
    ensures
        match r {
            Ok(()) => tokenizer_health_spec(*content) is Ok,
            Err(code) => tokenizer_health_spec(*content) == Err::<(), Seq<char>>(code@),
        },
{
    match content {
        TokenizerContent::Unreadable(e) => {
            if e.permission_denied {
                Err("tokenizer_permission_denied")
            } else {
                Err("tokenizer_read_failed")
            }
        },
        TokenizerContent::Invalid(_) => Err("tokenizer_json_invalid"),
        TokenizerContent::Parsed(doc) => {
            if doc.get("model").is_some() {
                Ok(())
            } else {
                Err("tokenizer_model_key_missing")
            }
        },
    }
}

/// The state of the configured tokenizer: none configured, healthy, or the reason code
/// of its problem.
pub open spec fn tokenizer_state(tokenizer: Option<Seq<char>>, p: ModelPackProbes) -> Option<Result<(), Seq<char>>> {
    match tokenizer {
        None => None,
        Some(_) => Some(
            if !p.tokenizer_is_file {
                Err("tokenizer_path_missing"@)
            } else {
                tokenizer_health_spec(p.tokenizer_content)
            },
        ),
    }
}

/// The check of the model file's permissions, made when the model path is a file.
pub open spec fn permission_fix_checks(m: Seq<char>, p: ModelPackProbes) -> Seq<CheckSpec> {
    if p.model_is_file {
        match p.model_open {
            Ok(()) => seq![ck(DoctorStatus::Pass, "fix-live-model-permissions"@, "Model file is readable: "@ + m, None)],
            Err(e) => seq![
                ck(
                    DoctorStatus::Warn,
                    "fix-live-model-permissions"@,
                    "Unable to read model file '"@ + m + "': "@ + e.message@
                        + ". Ensure the account running WraithRun has read permission."@,
                    Some(crate::pack_doctor::io_reason(e.permission_denied, "model_permission_denied"@, "model_read_failed"@)),
                ),
            ],
        }
    } else {
        Seq::empty()
    }
}

/// The check of the tokenizer fix.
pub open spec fn tokenizer_fix_checks(
    tokenizer: Option<Seq<char>>,
    explicit_tokenizer: bool,
    p: ModelPackProbes,
    discovered: Option<String>,
) -> Seq<CheckSpec> {
    let state = tokenizer_state(tokenizer, p);
    if state == Some(Ok::<(), Seq<char>>(())) {
        seq![ck(DoctorStatus::Pass, "fix-live-tokenizer-path"@, "Tokenizer already valid: "@ + tokenizer->0, None)]
    } else if explicit_tokenizer {
        seq![
            ck(
                DoctorStatus::Warn,
                "fix-live-tokenizer-path"@,
                match tokenizer {
                    Some(t) => "Explicit --tokenizer path requires manual correction: "@ + t
                        + ". Update --tokenizer to a readable tokenizer JSON with a top-level model key."@,
                    None => "Explicit --tokenizer value was provided but could not be resolved; pass a readable tokenizer JSON path."@,
                },
                Some(
                    match state {
                        Some(Err(code)) => code,
                        _ => "tokenizer_path_explicit_invalid"@,
                    },
                ),
            ),
        ]
    } else {
        match discovered {
            Some(q) => seq![
                ck(
                    DoctorStatus::Pass,
                    "fix-live-tokenizer-path"@,
                    "Auto-discovered a valid tokenizer JSON: "@ + q@,
                    Some("tokenizer_path_auto_discovered"@),
                ),
            ],
            None => seq![
                ck(
                    DoctorStatus::Warn,
                    "fix-live-tokenizer-path"@,
                    "No valid tokenizer candidate was discovered. Add tokenizer.json beside the model (or under ./models) and retry."@,
                    Some("tokenizer_discovery_failed"@),
                ),
            ],
        }
    }
}

/// The tokenizer path a live fix leaves: a discovered tokenizer replaces a missing or
/// unhealthy one that the command line did not give.
pub open spec fn fixed_tokenizer(
    tokenizer: Option<Seq<char>>,
    explicit_tokenizer: bool,
    p: ModelPackProbes,
    discovered: Option<String>,
) -> Option<Seq<char>> {
    if tokenizer_state(tokenizer, p) == Some(Ok::<(), Seq<char>>(())) || explicit_tokenizer {
        tokenizer
    } else {
        match discovered {
            Some(q) => Some(q@),
            None => tokenizer,
        }
    }
}

fn record_tokenizer_fix(
    runtime: &mut RuntimeConfig,
    explicit_tokenizer: bool,
    probes: &ModelPackProbes,
    discovered: &Option<String>,
    report: &mut DoctorReport,
)
    ensures
        appended(
            old(report).checks@,
            final(report).checks@,
            tokenizer_fix_checks(old(runtime)@.tokenizer, explicit_tokenizer, *probes, *discovered),
        ),
        final(runtime)@ == (crate::config::ConfigView {
            tokenizer: fixed_tokenizer(old(runtime)@.tokenizer, explicit_tokenizer, *probes, *discovered),
            ..old(runtime)@
        }),
{
    let state: Option<Result<(), &'static str>> = match &runtime.tokenizer {
        None => None,
        Some(_) => Some(
            if !probes.tokenizer_is_file {
                Err("tokenizer_path_missing")
            } else {
                tokenizer_health(&probes.tokenizer_content)
            },
        ),
    };
    proof {
        reveal_strlit("tokenizer_path_missing");
    }
    let healthy = match state {
        Some(Ok(())) => true,
        _ => false,
    };
    assert(healthy == (tokenizer_state(old(runtime)@.tokenizer, *probes) == Some(Ok::<(), Seq<char>>(()))));
    if healthy {
        let mut d = chars_of("Tokenizer already valid: ");
        match &runtime.tokenizer {
            Some(t) => push_str(&mut d, t.as_str()),
            None => {},
        }
        record(report, DoctorStatus::Pass, "fix-live-tokenizer-path", &d, None);
        return;
    }
    if explicit_tokenizer {
        let code = match state {
            Some(Err(code)) => code,
            _ => "tokenizer_path_explicit_invalid",
        };
        let d = match &runtime.tokenizer {
            Some(t) => {
                let mut d = chars_of("Explicit --tokenizer path requires manual correction: ");
                push_str(&mut d, t.as_str());
                push_str(&mut d, ". Update --tokenizer to a readable tokenizer JSON with a top-level model key.");
                d
            },
            None => text(
                "Explicit --tokenizer value was provided but could not be resolved; pass a readable tokenizer JSON path.",
            ),
        };
        record(report, DoctorStatus::Warn, "fix-live-tokenizer-path", &d, Some(code));
        return;
    }
    match discovered {
        Some(q) => {
            runtime.tokenizer = Some(crate::model::clone_string(q));
            let mut d = chars_of("Auto-discovered a valid tokenizer JSON: ");
            push_str(&mut d, q.as_str());
            record(report, DoctorStatus::Pass, "fix-live-tokenizer-path", &d, Some("tokenizer_path_auto_discovered"));
        },
        None => {
            let d = text(
                "No valid tokenizer candidate was discovered. Add tokenizer.json beside the model (or under ./models) and retry.",
            );
            record(report, DoctorStatus::Warn, "fix-live-tokenizer-path", &d, Some("tokenizer_discovery_failed"));
        },
    }
}

/// The checks of the second stage of a live fix: the model file's permissions and the
/// tokenizer.  A dry-run setup gets none.
pub open spec fn access_fix_checks(
    c: crate::config::ConfigView,
    explicit_tokenizer: bool,
    p: ModelPackProbes,
    discovered: Option<String>,
) -> Seq<CheckSpec> {
    if !c.live {
        Seq::empty()
    } else {
        permission_fix_checks(c.model, p) + tokenizer_fix_checks(c.tokenizer, explicit_tokenizer, p, discovered)
    }
}

/// The second stage of the doctor's live fix, after the first stage settled the model
/// path (see [`access_fix_checks`] and [`fixed_tokenizer`]).  `probes` is what the host
/// found for the model path and the configured tokenizer path as they now stand;
/// `discovered` is the first healthy tokenizer file found beside the model or under
/// `./models`, other than the configured one.  Nothing happens to a dry-run setup.
pub fn fix_live_access(
    runtime: &mut RuntimeConfig,
    explicit_tokenizer: bool,
    probes: &ModelPackProbes,
    discovered: &Option<String>,
    report: &mut DoctorReport,
)
    ensures
        appended(
            old(report).checks@,
            final(report).checks@,
            access_fix_checks(old(runtime)@, explicit_tokenizer, *probes, *discovered),
        ),
        final(runtime)@ == (if old(runtime).live {
            crate::config::ConfigView {
                tokenizer: fixed_tokenizer(old(runtime)@.tokenizer, explicit_tokenizer, *probes, *discovered),
                ..old(runtime)@
            }
        } else {
            old(runtime)@
        }),
{
    let ghost c0 = report.checks@;
    if !runtime.live {
        proof {
            lemma_appended_nothing(c0);
        }
        return;
    }
    if probes.model_is_file {
        match &probes.model_open {
            Ok(()) => {
                let mut d = chars_of("Model file is readable: ");
                push_str(&mut d, runtime.model.as_str());
                record(report, DoctorStatus::Pass, "fix-live-model-permissions", &d, None);
            },
            Err(e) => {
                let mut d = chars_of("Unable to read model file '");
                push_str(&mut d, runtime.model.as_str());
                push_str(&mut d, "': ");
                push_str(&mut d, e.message.as_str());
                push_str(&mut d, ". Ensure the account running WraithRun has read permission.");
                let code = if e.permission_denied {
                    "model_permission_denied"
                } else {
                    "model_read_failed"
                };
                record(report, DoctorStatus::Warn, "fix-live-model-permissions", &d, Some(code));
            },
        }
    } else {
        proof {
            lemma_appended_nothing(c0);
        }
    }
    let ghost c1 = report.checks@;
    record_tokenizer_fix(runtime, explicit_tokenizer, probes, discovered, report);
    proof {
        lemma_appended_chain(
            c0,
            c1,
            report.checks@,
            permission_fix_checks(old(runtime)@.model, *probes),
            tokenizer_fix_checks(old(runtime)@.tokenizer, explicit_tokenizer, *probes, *discovered),
        );
    }
}

// ---------------------------------------------------------------------------
// The doctor run as a whole
// ---------------------------------------------------------------------------

/// How many checks carry the name.
pub open spec fn checks_named(cs: Seq<DoctorCheck>, name: Seq<char>) -> nat
    decreases cs.len(),
{
    if cs.len() == 0 {
        0
    } else {
        checks_named(cs.drop_last(), name) + if cs.last().name@ == name {
            1nat
        } else {
            0nat
        }
    }
}

/// No specified check carries the name.
pub open spec fn specs_avoid(ss: Seq<CheckSpec>, name: Seq<char>) -> bool {
    forall|i: int| 0 <= i < ss.len() ==> (#[trigger] ss[i]).name != name
}

proof fn lemma_check_names_differ()
    ensures
        "config-file"@ != "effective-runtime"@,
        "config-selection"@ != "effective-runtime"@,
        "doctor-fix"@ != "effective-runtime"@,
        "environment-overrides"@ != "effective-runtime"@,
        "fix-live-fallback-policy"@ != "effective-runtime"@,
        "fix-live-model-path"@ != "effective-runtime"@,
        "fix-live-model-permissions"@ != "effective-runtime"@,
        "fix-live-tokenizer-path"@ != "effective-runtime"@,
        "live-model-format"@ != "effective-runtime"@,
        "live-model-path"@ != "effective-runtime"@,
        "live-model-readable"@ != "effective-runtime"@,
        "live-model-size"@ != "effective-runtime"@,
        "live-runtime-compatibility"@ != "effective-runtime"@,
        "live-tokenizer-json"@ != "effective-runtime"@,
        "live-tokenizer-path"@ != "effective-runtime"@,
        "live-tokenizer-shape"@ != "effective-runtime"@,
        "live-tokenizer-size"@ != "effective-runtime"@,
        "profile-availability"@ != "effective-runtime"@,
        "profile-selection"@ != "effective-runtime"@,
        "vitis-config"@ != "effective-runtime"@,
{
    reveal_strlit("effective-runtime");
    assert("effective-runtime"@[0] == 'e' && "effective-runtime"@[1] == 'f');
    reveal_strlit("config-file");
    assert("config-file"@[0] == 'c');
    reveal_strlit("config-selection");
    assert("config-selection"@[0] == 'c');
    reveal_strlit("doctor-fix");
    assert("doctor-fix"@[0] == 'd');
    reveal_strlit("environment-overrides");
    assert("environment-overrides"@[1] == 'n');
    reveal_strlit("fix-live-fallback-policy");
    assert("fix-live-fallback-policy"@[0] == 'f');
    reveal_strlit("fix-live-model-path");
    assert("fix-live-model-path"@[0] == 'f');
    reveal_strlit("fix-live-model-permissions");
    assert("fix-live-model-permissions"@[0] == 'f');
    reveal_strlit("fix-live-tokenizer-path");
    assert("fix-live-tokenizer-path"@[0] == 'f');
    reveal_strlit("live-model-format");
    assert("live-model-format"@[0] == 'l');
    reveal_strlit("live-model-path");
    assert("live-model-path"@[0] == 'l');
    reveal_strlit("live-model-readable");
    assert("live-model-readable"@[0] == 'l');
    reveal_strlit("live-model-size");
    assert("live-model-size"@[0] == 'l');
    reveal_strlit("live-runtime-compatibility");
    assert("live-runtime-compatibility"@[0] == 'l');
    reveal_strlit("live-tokenizer-json");
    assert("live-tokenizer-json"@[0] == 'l');
    reveal_strlit("live-tokenizer-path");
    assert("live-tokenizer-path"@[0] == 'l');
    reveal_strlit("live-tokenizer-shape");
    assert("live-tokenizer-shape"@[0] == 'l');
    reveal_strlit("live-tokenizer-size");
    assert("live-tokenizer-size"@[0] == 'l');
    reveal_strlit("profile-availability");
    assert("profile-availability"@[0] == 'p');
    reveal_strlit("profile-selection");
    assert("profile-selection"@[0] == 'p');
    reveal_strlit("vitis-config");
    assert("vitis-config"@[0] == 'v');
}

proof fn lemma_checks_named_concat(a: Seq<DoctorCheck>, b: Seq<DoctorCheck>, name: Seq<char>)
    ensures
        checks_named(a + b, name) == checks_named(a, name) + checks_named(b, name),
    decreases b.len(),
{
    if b.len() == 0 {
        assert(a + b =~= a);
    } else {
        lemma_checks_named_concat(a, b.drop_last(), name);
        assert((a + b).drop_last() =~= a + b.drop_last());
    }
}

proof fn lemma_checks_named_of_specs(cs: Seq<DoctorCheck>, ss: Seq<CheckSpec>, name: Seq<char>)
    requires
        crate::pack_doctor::checks_are(cs, ss),
    ensures
        specs_avoid(ss, name) ==> checks_named(cs, name) == 0,
        ss.len() == 1 && ss[0].name == name ==> checks_named(cs, name) == 1,
    decreases cs.len(),
{
    if cs.len() > 0 {
        let p = cs.drop_last();
        let q = ss.drop_last();
        assert forall|i: int| 0 <= i < p.len() implies crate::pack_doctor::check_is(#[trigger] p[i], q[i]) by {
            assert(p[i] == cs[i] && q[i] == ss[i]);
        }
        lemma_checks_named_of_specs(p, q, name);
        assert(crate::pack_doctor::check_is(cs[cs.len() - 1], ss[ss.len() - 1]));
        if specs_avoid(ss, name) {
            assert(ss[ss.len() - 1].name != name);
            assert forall|i: int| 0 <= i < q.len() implies (#[trigger] q[i]).name != name by {
                assert(q[i] == ss[i]);
            }
        }
    }
}

proof fn lemma_appended_count(before: Seq<DoctorCheck>, after: Seq<DoctorCheck>, ss: Seq<CheckSpec>, name: Seq<char>)
    requires
        appended(before, after, ss),
    ensures
        specs_avoid(ss, name) ==> checks_named(after, name) == checks_named(before, name),
        ss.len() == 1 && ss[0].name == name ==> checks_named(after, name) == checks_named(before, name) + 1,
        after.len() >= before.len(),
        forall|i: int| 0 <= i < before.len() ==> after[i] == before[i],
{
    let tail = after.skip(before.len() as int);
    assert(after =~= before + tail);
    lemma_checks_named_concat(before, tail, name);
    lemma_checks_named_of_specs(tail, ss, name);
    assert forall|i: int| 0 <= i < before.len() implies after[i] == before[i] by {
        assert(after.take(before.len() as int)[i] == after[i]);
    }
}

proof fn lemma_concat_avoid(a: Seq<CheckSpec>, b: Seq<CheckSpec>, name: Seq<char>)
    requires
        specs_avoid(a, name),
        specs_avoid(b, name),
    ensures
        specs_avoid(a + b, name),
{
    assert forall|i: int| 0 <= i < (a + b).len() implies (#[trigger] (a + b)[i]).name != name by {
        if i < a.len() {
            assert((a + b)[i] == a[i]);
        } else {
            assert((a + b)[i] == b[i - a.len()]);
        }
    }
}

proof fn lemma_sources_avoid_runtime(
    profile: Result<Option<String>, String>,
    config: Result<ConfigLoad, String>,
    env: Result<SettingsFragment, String>,
)
    ensures
        specs_avoid(source_checks(profile, config, env), "effective-runtime"@),
{
    lemma_check_names_differ();
    let ss = source_checks(profile, config, env);
    assert forall|i: int| 0 <= i < ss.len() implies (#[trigger] ss[i]).name != "effective-runtime"@ by {
        let a = seq![profile_selection_check(profile), config_file_check(config)];
        let b = availability_part(profile, config);
        if i < 2 {
            assert(ss[i] == a[i]);
        } else if i < 2 + b.len() {
            assert(ss[i] == b[i - 2]);
        } else {
            assert(ss[i] == environment_check(env));
        }
    }
}

proof fn lemma_settings_fix_avoid_runtime(c: crate::config::ConfigView, explicit_model: bool, p: ModelPathProbe)
    ensures
        specs_avoid(settings_fix_checks(c, explicit_model, p), "effective-runtime"@),
{
    lemma_check_names_differ();
    let ss = settings_fix_checks(c, explicit_model, p);
    if c.live {
        let a = seq![fallback_fix_check(c.live_fallback_policy)];
        let b = model_path_fix_checks(c.model, explicit_model, p);
        assert(specs_avoid(a, "effective-runtime"@));
        assert(specs_avoid(b, "effective-runtime"@));
        lemma_concat_avoid(a, b, "effective-runtime"@);
    }
}

proof fn lemma_access_fix_avoid_runtime(
    c: crate::config::ConfigView,
    explicit_tokenizer: bool,
    p: ModelPackProbes,
    discovered: Option<String>,
)
    ensures
        specs_avoid(access_fix_checks(c, explicit_tokenizer, p, discovered), "effective-runtime"@),
{
    lemma_check_names_differ();
    if c.live {
        let a = permission_fix_checks(c.model, p);
        let b = tokenizer_fix_checks(c.tokenizer, explicit_tokenizer, p, discovered);
        assert(specs_avoid(a, "effective-runtime"@));
        assert(specs_avoid(b, "effective-runtime"@));
        lemma_concat_avoid(a, b, "effective-runtime"@);
    }
}

proof fn lemma_vitis_avoid_runtime(v: Option<Seq<char>>, is_file: bool)
    ensures
        specs_avoid(vitis_checks(v, is_file), "effective-runtime"@),
{
    lemma_check_names_differ();
}

proof fn lemma_model_pack_avoid_runtime(
    live: bool,
    model: Seq<char>,
    tokenizer: Option<Seq<char>>,
    p: ModelPackProbes,
    c: crate::pack_doctor::CompatibilityReport,
)
    ensures
        specs_avoid(crate::pack_doctor::model_pack_checks_spec(live, model, tokenizer, p, c), "effective-runtime"@),
{
    lemma_check_names_differ();
    if live {
        let tk = crate::pack_doctor::tokenizer_checks(tokenizer, p);
        let a = crate::pack_doctor::model_checks(model, p);
        let cc = if crate::pack_doctor::model_readable(p) && !tk.1 {
            crate::pack_doctor::compatibility_checks(c)
        } else {
            seq![]
        };
        assert(specs_avoid(a, "effective-runtime"@));
        assert(specs_avoid(tk.0, "effective-runtime"@));
        assert(specs_avoid(cc, "effective-runtime"@));
        lemma_concat_avoid(a, tk.0, "effective-runtime"@);
        lemma_concat_avoid(a + tk.0, cc, "effective-runtime"@);
    }
}

/// A doctor run in progress: the checks so far, and whether the effective runtime has
/// been recorded.  The host drives it (reading files, the environment and probes) and
/// hands each step what it found.
pub struct DoctorRun {
    report: DoctorReport,
    runtime_recorded: bool,
    first: Ghost<DoctorCheck>,
}

impl DoctorRun {
    /// The checks recorded so far, in order.
    pub closed spec fn checks(&self) -> Seq<DoctorCheck> {
        self.report.checks@
    }

    /// Whether the effective runtime has been recorded.
    pub closed spec fn runtime_recorded(&self) -> bool {
        self.runtime_recorded
    }

    /// The check the run opened with.
    pub closed spec fn first_check(&self) -> DoctorCheck {
        self.first@
    }

    /// A run opens with the profile-selection check and holds one effective-runtime
    /// check once that is recorded, none before.
    pub closed spec fn wf(&self) -> bool {
        &&& self.report.checks@.len() >= 1
        &&& self.report.checks@[0].name@ == "profile-selection"@
        &&& self.report.checks@[0] == self.first@
        &&& checks_named(self.report.checks@, "effective-runtime"@) == if self.runtime_recorded {
            1nat
        } else {
            0nat
        }
    }

    /// Opens a run with the checks of where the settings come from (see
    /// [`source_checks`]); the first is the profile selection.
    pub fn begin(
        profile: &Result<Option<String>, String>,
        config: &Result<ConfigLoad, String>,
        env: &Result<SettingsFragment, String>,
    ) -> (r: DoctorRun)
        ensures
            r.wf(),
            !r.runtime_recorded(),
            crate::pack_doctor::checks_are(r.checks(), source_checks(*profile, *config, *env)),
            crate::pack_doctor::check_is(r.first_check(), profile_selection_check(*profile)),
    {
        let mut report = DoctorReport::new();
        let ghost empty = report.checks@;
        record_settings_sources(&mut report, profile, config, env);
        proof {
            let ss = source_checks(*profile, *config, *env);
            lemma_sources_avoid_runtime(*profile, *config, *env);
            lemma_appended_count(empty, report.checks@, ss, "effective-runtime"@);
            assert(checks_named(empty, "effective-runtime"@) == 0);
            assert(report.checks@.skip(0) =~= report.checks@);
            assert(crate::pack_doctor::check_is(report.checks@[0], ss[0]));
            reveal_strlit("profile-selection");
        }
        let ghost first = report.checks@[0];
        DoctorRun { report, runtime_recorded: false, first: Ghost(first) }
    }

    /// The first stage of a live fix (see [`fix_live_settings`]).
    pub fn fix_settings(&mut self, runtime: &mut RuntimeConfig, explicit_model: bool, probe: &ModelPathProbe) -> (live: bool)
        requires
            old(self).wf(),
        ensures
            final(self).wf(),
            final(self).runtime_recorded() == old(self).runtime_recorded(),
            final(self).first_check() == old(self).first_check(),
            live == old(runtime).live,
            appended(old(self).checks(), final(self).checks(), settings_fix_checks(old(runtime)@, explicit_model, *probe)),
            final(runtime)@ == settings_fixed(old(runtime)@, explicit_model, *probe),
    {
        let ghost before = self.report.checks@;
        let live = fix_live_settings(runtime, explicit_model, probe, &mut self.report);
        proof {
            lemma_settings_fix_avoid_runtime(old(runtime)@, explicit_model, *probe);
            lemma_appended_count(
                before,
                self.report.checks@,
                settings_fix_checks(old(runtime)@, explicit_model, *probe),
                "effective-runtime"@,
            );
        }
        live
    }

    /// The second stage of a live fix (see [`fix_live_access`]).
    pub fn fix_access(
        &mut self,
        runtime: &mut RuntimeConfig,
        explicit_tokenizer: bool,
        probes: &ModelPackProbes,
        discovered: &Option<String>,
    )
        requires
            old(self).wf(),
        ensures
            final(self).wf(),
            final(self).runtime_recorded() == old(self).runtime_recorded(),
            final(self).first_check() == old(self).first_check(),
            appended(
                old(self).checks(),
                final(self).checks(),
                access_fix_checks(old(runtime)@, explicit_tokenizer, *probes, *discovered),
            ),
            final(runtime)@ == (if old(runtime).live {
                crate::config::ConfigView {
                    tokenizer: fixed_tokenizer(old(runtime)@.tokenizer, explicit_tokenizer, *probes, *discovered),
                    ..old(runtime)@
                }
            } else {
                old(runtime)@
            }),
    {
        let ghost before = self.report.checks@;
        fix_live_access(runtime, explicit_tokenizer, probes, discovered, &mut self.report);
        proof {
            lemma_access_fix_avoid_runtime(old(runtime)@, explicit_tokenizer, *probes, *discovered);
            lemma_appended_count(
                before,
                self.report.checks@,
                access_fix_checks(old(runtime)@, explicit_tokenizer, *probes, *discovered),
                "effective-runtime"@,
            );
        }
    }

    /// Records the effective runtime, once (see [`record_effective_runtime`]).
    pub fn record_runtime(&mut self, runtime: &Result<RuntimeConfig, String>)
        requires
            old(self).wf(),
            !old(self).runtime_recorded(),
        ensures
            final(self).wf(),
            final(self).runtime_recorded(),
            final(self).first_check() == old(self).first_check(),
            appended(old(self).checks(), final(self).checks(), seq![effective_runtime_check(*runtime)]),
    {
        let ghost before = self.report.checks@;
        record_effective_runtime(&mut self.report, runtime);
        self.runtime_recorded = true;
        proof {
            reveal_strlit("effective-runtime");
            assert(effective_runtime_check(*runtime).name == "effective-runtime"@);
            lemma_appended_count(before, self.report.checks@, seq![effective_runtime_check(*runtime)], "effective-runtime"@);
        }
    }

    /// The model-pack checks of the runtime (see
    /// [`crate::pack_doctor::run_model_pack_doctor_checks`]).
    pub fn model_pack_checks(
        &mut self,
        live: bool,
        model: &str,
        tokenizer: Option<&str>,
        probes: &ModelPackProbes,
        compatibility: &crate::pack_doctor::CompatibilityReport,
    )
        requires
            old(self).wf(),
        ensures
            final(self).wf(),
            final(self).runtime_recorded() == old(self).runtime_recorded(),
            final(self).first_check() == old(self).first_check(),
            appended(
                old(self).checks(),
                final(self).checks(),
                crate::pack_doctor::model_pack_checks_spec(
                    live,
                    model@,
                    crate::pack_doctor::opt_text(tokenizer),
                    *probes,
                    *compatibility,
                ),
            ),
    {
        let ghost before = self.report.checks@;
        crate::pack_doctor::run_model_pack_doctor_checks(live, model, tokenizer, probes, compatibility, &mut self.report);
        proof {
            lemma_model_pack_avoid_runtime(live, model@, crate::pack_doctor::opt_text(tokenizer), *probes, *compatibility);
            lemma_appended_count(
                before,
                self.report.checks@,
                crate::pack_doctor::model_pack_checks_spec(
                    live,
                    model@,
                    crate::pack_doctor::opt_text(tokenizer),
                    *probes,
                    *compatibility,
                ),
                "effective-runtime"@,
            );
        }
    }

    /// The Vitis config check (see [`record_vitis_config`]).
    pub fn vitis_check(&mut self, vitis_config: &Option<String>, is_file: bool)
        requires
            old(self).wf(),
        ensures
            final(self).wf(),
            final(self).runtime_recorded() == old(self).runtime_recorded(),
            final(self).first_check() == old(self).first_check(),
            appended(
                old(self).checks(),
                final(self).checks(),
                vitis_checks(crate::model::opt_view(*vitis_config), is_file),
            ),
    {
        let ghost before = self.report.checks@;
        record_vitis_config(&mut self.report, vitis_config, is_file);
        proof {
            lemma_vitis_avoid_runtime(crate::model::opt_view(*vitis_config), is_file);
            lemma_appended_count(
                before,
                self.report.checks@,
                vitis_checks(crate::model::opt_view(*vitis_config), is_file),
                "effective-runtime"@,
            );
        }
    }

    /// The finished report: the checks recorded, opening with the profile selection,
    /// with at most one effective-runtime check.
    pub fn finish(self) -> (r: DoctorReport)
        requires
            self.wf(),
        ensures
            r.checks@ == self.checks(),
            r.checks@.len() >= 1,
            r.checks@[0].name@ == "profile-selection"@,
            r.checks@[0] == self.first_check(),
            checks_named(r.checks@, "effective-runtime"@) <= 1,
            self.runtime_recorded() ==> checks_named(r.checks@, "effective-runtime"@) == 1,
    {
        self.report
    }
}

} // verus!
