//! The command line's modes: which one-shot mode a run asked for, and where the
//! introspection format applies.
use vstd::prelude::*;

use crate::text::{chars_of, join, join_chars, push_all, push_str, string_of, views};
use crate::tool_query::IntrospectionFormat;

verus! {

/// The mode switches of a command line.
#[derive(Debug)]
pub struct ModeFlags {
    pub doctor: bool,
    pub list_task_templates: bool,
    pub list_tools: bool,
    pub describe_tool: Option<String>,
    pub list_profiles: bool,
    pub print_effective_config: bool,
    pub explain_effective_config: bool,
    pub init_config: bool,
    pub verify_bundle: Option<String>,
    pub live_setup: bool,
    pub models_list: bool,
    pub models_validate: bool,
    pub models_benchmark: bool,
}

/// `names` with `name` added when `on`.
pub open spec fn with_flag(names: Seq<Seq<char>>, on: bool, name: Seq<char>) -> Seq<Seq<char>> {
    if on {
        names.push(name)
    } else {
        names
    }
}

/// The options of the selected modes, in a fixed order.
pub open spec fn selected_modes(f: ModeFlags) -> Seq<Seq<char>> {
    let s = with_flag(seq![], f.doctor, "--doctor"@);
    let s = with_flag(s, f.list_task_templates, "--list-task-templates"@);
    let s = with_flag(s, f.list_tools, "--list-tools"@);
    let s = with_flag(s, f.describe_tool is Some, "--describe-tool"@);
    let s = with_flag(s, f.list_profiles, "--list-profiles"@);
    let s = with_flag(s, f.print_effective_config, "--print-effective-config"@);
    let s = with_flag(s, f.explain_effective_config, "--explain-effective-config"@);
    let s = with_flag(s, f.init_config, "--init-config"@);
    let s = with_flag(s, f.verify_bundle is Some, "--verify-bundle"@);
    let s = with_flag(s, f.live_setup, "--live-setup"@);
    let s = with_flag(s, f.models_list, "--models-list"@);
    let s = with_flag(s, f.models_validate, "--models-validate"@);
    with_flag(s, f.models_benchmark, "--models-benchmark"@)
}

fn push_flag(names: &mut Vec<Vec<char>>, on: bool, name: &str)
    ensures
        views(final(names)@) == with_flag(views(old(names)@), on, name@),
{
    if on {
        let ghost before = views(names@);
        names.push(chars_of(name));
        assert(views(names@) =~= before.push(name@));
    }
}

/// Refuses more than one mode at once, naming the selected ones.
pub fn ensure_exclusive_modes(flags: &ModeFlags) -> (r: Result<(), String>)
    ensures
        if selected_modes(*flags).len() > 1 {
            r matches Err(e) && e@ == "Options "@ + join(selected_modes(*flags), ", "@)
                + " are mutually exclusive; choose only one mode."@
        } else {
            r is Ok
        },
{
    let mut names: Vec<Vec<char>> = Vec::new();
    assert(views(names@) =~= Seq::<Seq<char>>::empty());
    push_flag(&mut names, flags.doctor, "--doctor");
    push_flag(&mut names, flags.list_task_templates, "--list-task-templates");
    push_flag(&mut names, flags.list_tools, "--list-tools");
    push_flag(&mut names, flags.describe_tool.is_some(), "--describe-tool");
    push_flag(&mut names, flags.list_profiles, "--list-profiles");
    push_flag(&mut names, flags.print_effective_config, "--print-effective-config");
    push_flag(&mut names, flags.explain_effective_config, "--explain-effective-config");
    push_flag(&mut names, flags.init_config, "--init-config");
    push_flag(&mut names, flags.verify_bundle.is_some(), "--verify-bundle");
    push_flag(&mut names, flags.live_setup, "--live-setup");
    push_flag(&mut names, flags.models_list, "--models-list");
    push_flag(&mut names, flags.models_validate, "--models-validate");
    push_flag(&mut names, flags.models_benchmark, "--models-benchmark");
    if names.len() > 1 {
        let mut msg = chars_of("Options ");
        push_all(&mut msg, &join_chars(&names, &chars_of(", ")));
        push_str(&mut msg, " are mutually exclusive; choose only one mode.");
        return Err(string_of(&msg));
    }
    Ok(())
}

/// A mode that takes an introspection format is selected.
pub open spec fn introspection_mode(f: ModeFlags) -> bool {
    f.doctor || f.list_task_templates || f.list_tools || f.describe_tool is Some || f.list_profiles
        || f.verify_bundle is Some || f.models_list || f.models_validate || f.models_benchmark
}

/// Refuses the JSON introspection format outside the modes that introspect.
pub fn ensure_introspection_format_usage(flags: &ModeFlags, format: IntrospectionFormat) -> (r: Result<(), String>)
    ensures
        if format == IntrospectionFormat::Json && !introspection_mode(*flags) {
            r matches Err(e) && e@
                == "--introspection-format only applies to --doctor, --list-task-templates, --list-tools, --describe-tool, --list-profiles, --verify-bundle, --models-list, --models-validate, or --models-benchmark"@
        } else {
            r is Ok
        },
{
    let json = match format {
        IntrospectionFormat::Json => true,
        IntrospectionFormat::Text => false,
    };
    if json && !(flags.doctor || flags.list_task_templates || flags.list_tools || flags.describe_tool.is_some()
        || flags.list_profiles || flags.verify_bundle.is_some() || flags.models_list || flags.models_validate
        || flags.models_benchmark) {
        return Err(
            string_of(
                &chars_of(
                    "--introspection-format only applies to --doctor, --list-task-templates, --list-tools, --describe-tool, --list-profiles, --verify-bundle, --models-list, --models-validate, or --models-benchmark",
                ),
            ),
        );
    }
    Ok(())
}

/// The mode flag that a `models` subcommand stands for: `models list`, `models validate`
/// and `models benchmark`, in any ASCII case, as the first two arguments after the
/// program name (`first` and `second`, `None` when an argument is not text).
pub open spec fn models_alias_spec(arg_count: nat, first: Option<Seq<char>>, second: Option<Seq<char>>) -> Option<Seq<char>> {
    if arg_count < 3 {
        None
    } else {
        match (first, second) {
            (Some(a), Some(b)) => if crate::text::ascii_lower(a) == "models"@ {
                let b = crate::text::ascii_lower(b);
                if b == "list"@ {
                    Some("--models-list"@)
                } else if b == "validate"@ {
                    Some("--models-validate"@)
                } else if b == "benchmark"@ {
                    Some("--models-benchmark"@)
                } else {
                    None
                }
            } else {
                None
            },
            _ => None,
        }
    }
}

/// The mode flag that replaces a `models` subcommand (see [`models_alias_spec`]); the
/// host puts it in place of the two words.
pub fn models_alias_flag(arg_count: usize, first: Option<&str>, second: Option<&str>) -> (r: Option<&'static str>)
    ensures
        match r {
            Some(f) => models_alias_spec(arg_count as nat, opt_text(first), opt_text(second)) == Some(f@),
            None => models_alias_spec(arg_count as nat, opt_text(first), opt_text(second)) is None,
        },
{
    if arg_count < 3 {
        return None;
    }
    match (first, second) {
        (Some(a), Some(b)) => {
            proof {
                reveal_strlit("models");
                reveal_strlit("list");
                reveal_strlit("validate");
                reveal_strlit("benchmark");
            }
            if !crate::text::chars_eq_str(&crate::text::to_ascii_lower(&chars_of(a)), "models") {
                return None;
            }
            let low = crate::text::to_ascii_lower(&chars_of(b));
            if crate::text::chars_eq_str(&low, "list") {
                Some("--models-list")
            } else if crate::text::chars_eq_str(&low, "validate") {
                Some("--models-validate")
            } else if crate::text::chars_eq_str(&low, "benchmark") {
                Some("--models-benchmark")
            } else {
                None
            }
        },
        _ => None,
    }
}

pub open spec fn opt_text(o: Option<&str>) -> Option<Seq<char>> {
    match o {
        Some(s) => Some(s@),
        None => None,
    }
}

/// `live setup`, in any ASCII case, as the first two arguments after the program name
/// stands for `--live-setup`.
pub open spec fn live_setup_alias_spec(arg_count: nat, first: Option<Seq<char>>, second: Option<Seq<char>>) -> bool {
    arg_count >= 3 && (first matches Some(a) && crate::text::ascii_lower(a) == "live"@) && (second matches Some(b)
        && crate::text::ascii_lower(b) == "setup"@)
}

/// Whether the arguments begin with `live setup` (see [`live_setup_alias_spec`]).
pub fn is_live_setup_alias(arg_count: usize, first: Option<&str>, second: Option<&str>) -> (r: bool)
    ensures
        r == live_setup_alias_spec(arg_count as nat, opt_text(first), opt_text(second)),
{
    if arg_count < 3 {
        return false;
    }
    proof {
        reveal_strlit("live");
        reveal_strlit("setup");
    }
    let a = match first {
        Some(a) => crate::text::chars_eq_str(&crate::text::to_ascii_lower(&chars_of(a)), "live"),
        None => false,
    };
    let b = match second {
        Some(b) => crate::text::chars_eq_str(&crate::text::to_ascii_lower(&chars_of(b)), "setup"),
        None => false,
    };
    a && b
}

} // verus!
