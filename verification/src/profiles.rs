//! The profiles a run can select: the built-in ones, those of the config file, where
//! a selected profile comes from, and the live model packs that profiles describe.
use vstd::prelude::*;

use crate::doctor::{count_status, status_label, DoctorCheck, DoctorReport, DoctorStatus};
use crate::config::{builtin_profile, builtin_profile_spec, lookup_profile, profile_index, FileConfig, RuntimeConfig};
use crate::json::{is_str_member, str_member, value_member, JsonValue};
use crate::json_text::{json_pretty_text, pretty_json};
use crate::run_report::{insert_text, sorted_texts};
use crate::text::{ascii_lower, chars_of, eq_ignore_ascii_case, push_str, string_of, string_views, trim_end, views};

verus! {

/// The built-in profiles with their descriptions, in order.
pub open spec fn builtin_summaries() -> Seq<(Seq<char>, Seq<char>)> {
    seq![
        ("local-lab"@, "dry-run, compact step/token budget, summary output"@),
        ("production-triage"@, "dry-run, deeper loops, markdown output"@),
        ("live-model"@, "live inference enabled, larger token budget"@),
        ("live-fast"@, "live preset focused on responsiveness and lower token budget"@),
        ("live-balanced"@, "live preset balancing response depth and latency"@),
        ("live-deep"@, "live preset for deeper investigations with larger budget"@),
    ]
}

fn builtin_summary_list() -> (r: Vec<(&'static str, &'static str)>)
    ensures
        r@.len() == 6,
        forall|i: int| 0 <= i < 6 ==> (#[trigger] r@[i]).0@ == builtin_summaries()[i].0 && r@[i].1@ == builtin_summaries()[i].1,
{
    vec![
        ("local-lab", "dry-run, compact step/token budget, summary output"),
        ("production-triage", "dry-run, deeper loops, markdown output"),
        ("live-model", "live inference enabled, larger token budget"),
        ("live-fast", "live preset focused on responsiveness and lower token budget"),
        ("live-balanced", "live preset balancing response depth and latency"),
        ("live-deep", "live preset for deeper investigations with larger budget"),
    ]
}

/// Where a selected profile comes from: the built-ins, the config file, both, or
/// neither.
pub open spec fn profile_source_spec(name: Seq<char>, fc: Option<FileConfig>) -> Seq<char> {
    let builtin = builtin_profile_spec(name) is Some;
    let in_config = fc matches Some(c) && profile_index(c.profiles@, name) is Some;
    if builtin && in_config {
        "built-in+config"@
    } else if builtin {
        "built-in"@
    } else if in_config {
        "config"@
    } else {
        "missing"@
    }
}

pub open spec fn fc_view(fc: Option<&FileConfig>) -> Option<FileConfig> {
    match fc {
        Some(c) => Some(*c),
        None => None,
    }
}

/// Where a selected profile comes from (see [`profile_source_spec`]).
pub fn selected_profile_source(selected_profile: &str, file_config: Option<&FileConfig>) -> (r: &'static str)
    ensures
        r@ == profile_source_spec(selected_profile@, fc_view(file_config)),
{
    let builtin = builtin_profile(selected_profile).is_some();
    let in_config = match file_config {
        Some(c) => lookup_profile(&c.profiles, selected_profile).is_some(),
        None => false,
    };
    if builtin && in_config {
        "built-in+config"
    } else if builtin {
        "built-in"
    } else if in_config {
        "config"
    } else {
        "missing"
    }
}

/// The names of a config file's profiles.
pub open spec fn profile_names(fc: Option<FileConfig>) -> Seq<Seq<char>> {
    match fc {
        Some(c) => Seq::new(c.profiles@.len(), |i: int| c.profiles@[i].0@),
        None => seq![],
    }
}

fn sorted_profile_names(file_config: Option<&FileConfig>) -> (r: Vec<Vec<char>>)
    ensures
        views(r@) == sorted_texts(profile_names(fc_view(file_config))),
{
    let mut out: Vec<Vec<char>> = Vec::new();
    assert(views(out@) =~= Seq::<Seq<char>>::empty());
    match file_config {
        None => {
            assert(profile_names(fc_view(file_config)) =~= Seq::<Seq<char>>::empty());
        },
        Some(c) => {
            let ghost all = profile_names(fc_view(file_config));
            let mut i: usize = 0;
            assert(all.take(0) =~= Seq::<Seq<char>>::empty());
            while i < c.profiles.len()
                invariant
                    i <= c.profiles@.len(),
                    all == profile_names(Some(*c)),
                    views(out@) == sorted_texts(all.take(i as int)),
                decreases c.profiles@.len() - i,
            {
                assert(all.take(i + 1).drop_last() =~= all.take(i as int));
                assert(all.take(i + 1).last() == c.profiles@[i as int].0@);
                crate::run_report::insert_sorted_text(&mut out, chars_of(c.profiles[i].0.as_str()));
                i = i + 1;
            }
            assert(all.take(c.profiles@.len() as int) =~= all);
        },
    }
    out
}

pub open spec fn summary_lines(s: Seq<(Seq<char>, Seq<char>)>) -> Seq<char>
    decreases s.len(),
{
    if s.len() == 0 {
        seq![]
    } else {
        summary_lines(s.drop_last()) + "- "@ + s.last().0 + ": "@ + s.last().1 + "\n"@
    }
}

pub open spec fn name_lines(s: Seq<Seq<char>>) -> Seq<char>
    decreases s.len(),
{
    if s.len() == 0 {
        seq![]
    } else {
        name_lines(s.drop_last()) + "- "@ + s.last() + "\n"@
    }
}

/// The line that says where the selected profile comes from.
pub open spec fn source_line(source: Seq<char>) -> Seq<char> {
    if source == "built-in+config"@ {
        "Profile source: built-in and config (config overrides overlapping keys)\n"@
    } else if source == "built-in"@ {
        "Profile source: built-in\n"@
    } else if source == "config"@ {
        "Profile source: config\n"@
    } else {
        "Profile source: missing (not found in built-ins or config)\n"@
    }
}

/// The text listing of the profiles: the built-ins, the config file and its profiles in
/// name order, and the selected profile with its source; no trailing white space.
pub open spec fn profile_list_text(selected: Option<Seq<char>>, config_path: Option<Seq<char>>, fc: Option<FileConfig>) -> Seq<
    char,
> {
    let names = sorted_texts(profile_names(fc));
    trim_end(
        "WraithRun Profiles\nBuilt-in profiles:\n"@ + summary_lines(builtin_summaries()) + match config_path {
            Some(p) => "Config file: "@ + p + "\n"@,
            None => "Config file: none detected\n"@,
        } + "Config-defined profiles:\n"@ + (if names.len() == 0 {
            "- (none)\n"@
        } else {
            name_lines(names)
        }) + match selected {
            Some(n) => "Selected profile: "@ + n + "\n"@ + source_line(profile_source_spec(n, fc)),
            None => Seq::empty(),
        },
    )
}

pub open spec fn opt_str(o: Option<&str>) -> Option<Seq<char>> {
    match o {
        Some(s) => Some(s@),
        None => None,
    }
}

/// The text listing of the profiles (see [`profile_list_text`]).
pub fn render_profile_list(selected_profile: Option<&str>, config_path: Option<&str>, file_config: Option<&FileConfig>) -> (r:
    String)
    ensures
        r@ == profile_list_text(opt_str(selected_profile), opt_str(config_path), fc_view(file_config)),
{
    let mut out = chars_of("WraithRun Profiles\nBuilt-in profiles:\n");
    let ghost h0 = out@;
    let summaries = builtin_summary_list();
    let ghost bs = builtin_summaries();
    let mut i: usize = 0;
    assert(bs.take(0) =~= Seq::<(Seq<char>, Seq<char>)>::empty());
    assert(out@ =~= h0 + summary_lines(bs.take(0)));
    while i < summaries.len()
        invariant
            i <= summaries@.len(),
            summaries@.len() == 6,
            bs == builtin_summaries(),
            forall|k: int| 0 <= k < 6 ==> (#[trigger] summaries@[k]).0@ == bs[k].0 && summaries@[k].1@ == bs[k].1,
            out@ == h0 + summary_lines(bs.take(i as int)),
        decreases summaries@.len() - i,
    {
        assert(bs.take(i + 1).drop_last() =~= bs.take(i as int));
        assert(bs.take(i + 1).last() == bs[i as int]);
        let (name, description) = summaries[i];
        push_str(&mut out, "- ");
        push_str(&mut out, name);
        push_str(&mut out, ": ");
        push_str(&mut out, description);
        push_str(&mut out, "\n");
        assert(out@ =~= h0 + summary_lines(bs.take(i + 1)));
        i = i + 1;
    }
    assert(bs.take(6) =~= bs);
    match config_path {
        Some(p) => {
            push_str(&mut out, "Config file: ");
            push_str(&mut out, p);
            push_str(&mut out, "\n");
        },
        None => push_str(&mut out, "Config file: none detected\n"),
    }
    push_str(&mut out, "Config-defined profiles:\n");
    let ghost h1 = out@;
    let names = sorted_profile_names(file_config);
    let ghost ns = views(names@);
    if names.len() == 0 {
        push_str(&mut out, "- (none)\n");
    } else {
        let mut j: usize = 0;
        assert(ns.take(0) =~= Seq::<Seq<char>>::empty());
        assert(out@ =~= h1 + name_lines(ns.take(0)));
        while j < names.len()
            invariant
                j <= names@.len(),
                ns == views(names@),
                out@ == h1 + name_lines(ns.take(j as int)),
            decreases names@.len() - j,
        {
            assert(ns.take(j + 1).drop_last() =~= ns.take(j as int));
            assert(ns.take(j + 1).last() == names@[j as int]@);
            push_str(&mut out, "- ");
            crate::text::push_all(&mut out, &names[j]);
            push_str(&mut out, "\n");
            assert(out@ =~= h1 + name_lines(ns.take(j + 1)));
            j = j + 1;
        }
        assert(ns.take(ns.len() as int) =~= ns);
    }
    let ghost h2 = out@;
    match selected_profile {
        Some(n) => {
            push_str(&mut out, "Selected profile: ");
            push_str(&mut out, n);
            push_str(&mut out, "\n");
            let source = selected_profile_source(n, file_config);
            proof {
                reveal_strlit("built-in+config");
                reveal_strlit("built-in");
                reveal_strlit("config");
                reveal_strlit("missing");
            }
            let line = if crate::text::chars_eq_str(&chars_of(source), "built-in+config") {
                "Profile source: built-in and config (config overrides overlapping keys)\n"
            } else if crate::text::chars_eq_str(&chars_of(source), "built-in") {
                "Profile source: built-in\n"
            } else if crate::text::chars_eq_str(&chars_of(source), "config") {
                "Profile source: config\n"
            } else {
                "Profile source: missing (not found in built-ins or config)\n"
            };
            assert(line@ == source_line(profile_source_spec(n@, fc_view(file_config))));
            push_str(&mut out, line);
        },
        None => {},
    }
    let ghost names_spec = sorted_texts(profile_names(fc_view(file_config)));
    assert(ns == names_spec);
    assert(out@ =~= "WraithRun Profiles\nBuilt-in profiles:\n"@ + summary_lines(builtin_summaries()) + match opt_str(
        config_path,
    ) {
        Some(p) => "Config file: "@ + p + "\n"@,
        None => "Config file: none detected\n"@,
    } + "Config-defined profiles:\n"@ + (if names_spec.len() == 0 {
        "- (none)\n"@
    } else {
        name_lines(names_spec)
    }) + match opt_str(selected_profile) {
        Some(n) => "Selected profile: "@ + n + "\n"@ + source_line(profile_source_spec(n, fc_view(file_config))),
        None => Seq::empty(),
    });
    let r = string_of(&crate::cli::trim_end_chars(&out));
    r
}

/// A summary of a built-in profile as JSON.
pub open spec fn summary_json(j: JsonValue, s: (Seq<char>, Seq<char>)) -> bool {
    j matches JsonValue::Object(m) && m@.len() == 2 && is_str_member(m@[0], "name"@, s.0) && is_str_member(
        m@[1],
        "description"@,
        s.1,
    )
}

/// `j` is `null` for `None`, else the string.
pub open spec fn opt_text_json(j: JsonValue, s: Option<Seq<char>>) -> bool {
    match s {
        Some(t) => j matches JsonValue::Str(x) && x@ == t,
        None => j == JsonValue::Null,
    }
}

/// The JSON document of the profile listing: the built-ins, the config path, the config
/// profiles in name order, the selected profile with its source, the contract version.
pub open spec fn profile_list_doc(
    d: JsonValue,
    selected: Option<Seq<char>>,
    config_path: Option<Seq<char>>,
    fc: Option<FileConfig>,
) -> bool {
    let names = sorted_texts(profile_names(fc));
    d matches JsonValue::Object(m) && m@.len() == 5 && m@[0].0@ == "built_in_profiles"@ && (m@[0].1 matches JsonValue::Array(
        bs,
    ) && bs@.len() == 6 && forall|i: int| 0 <= i < 6 ==> summary_json(#[trigger] bs@[i], builtin_summaries()[i]))
        && m@[1].0@ == "config_path"@ && opt_text_json(m@[1].1, config_path) && m@[2].0@ == "config_profiles"@ && (
    m@[2].1 matches JsonValue::Array(ns) && ns@.len() == names.len() && forall|i: int|
        0 <= i < names.len() ==> (#[trigger] ns@[i] matches JsonValue::Str(x) && x@ == names[i])) && m@[3].0@
        == "selected_profile"@ && match selected {
        Some(n) => m@[3].1 matches JsonValue::Object(sm) && sm@.len() == 2 && is_str_member(sm@[0], "name"@, n)
            && is_str_member(sm@[1], "source"@, profile_source_spec(n, fc)),
        None => m@[3].1 == JsonValue::Null,
    } && is_str_member(m@[4], "contract_version"@, "1.0.0"@)
}

fn opt_json(s: Option<&str>) -> (r: JsonValue)
    ensures
        opt_text_json(r, opt_str(s)),
{
    match s {
        Some(t) => JsonValue::Str(string_of(&chars_of(t))),
        None => JsonValue::Null,
    }
}

/// The JSON profile listing (see [`profile_list_doc`]), pretty-printed.
pub fn render_profile_list_json(selected_profile: Option<&str>, config_path: Option<&str>, file_config: Option<&FileConfig>) -> (r:
    String)
    ensures
        exists|d: JsonValue| #[trigger]
            profile_list_doc(d, opt_str(selected_profile), opt_str(config_path), fc_view(file_config))
                && r@ == json_pretty_text(d),
{
    let summaries = builtin_summary_list();
    let mut bs: Vec<JsonValue> = Vec::new();
    let mut i: usize = 0;
    while i < summaries.len()
        invariant
            i <= summaries@.len(),
            summaries@.len() == 6,
            forall|k: int| 0 <= k < 6 ==> (#[trigger] summaries@[k]).0@ == builtin_summaries()[k].0 && summaries@[k].1@
                == builtin_summaries()[k].1,
            bs@.len() == i,
            forall|k: int| 0 <= k < i ==> summary_json(#[trigger] bs@[k], builtin_summaries()[k]),
        decreases summaries@.len() - i,
    {
        let (name, description) = summaries[i];
        bs.push(JsonValue::Object(vec![str_member("name", name), str_member("description", description)]));
        i = i + 1;
    }
    let names = sorted_profile_names(file_config);
    let mut ns: Vec<JsonValue> = Vec::new();
    let mut j: usize = 0;
    while j < names.len()
        invariant
            j <= names@.len(),
            ns@.len() == j,
            forall|k: int| 0 <= k < j ==> (#[trigger] ns@[k] matches JsonValue::Str(x) && x@ == names@[k]@),
        decreases names@.len() - j,
    {
        ns.push(JsonValue::Str(string_of(&names[j])));
        j = j + 1;
    }
    let selected = match selected_profile {
        Some(n) => JsonValue::Object(
            vec![str_member("name", n), str_member("source", selected_profile_source(n, file_config))],
        ),
        None => JsonValue::Null,
    };
    let m = vec![
        value_member("built_in_profiles", JsonValue::Array(bs)),
        value_member("config_path", opt_json(config_path)),
        value_member("config_profiles", JsonValue::Array(ns)),
        value_member("selected_profile", selected),
        str_member("contract_version", "1.0.0"),
    ];
    let d = JsonValue::Object(m);
    assert(profile_list_doc(d, opt_str(selected_profile), opt_str(config_path), fc_view(file_config)));
    pretty_json(&d)
}

// ---------------------------------------------------------------------------
// Live model packs
// ---------------------------------------------------------------------------

/// The names of the live presets.
pub open spec fn live_presets() -> Seq<Seq<char>> {
    seq!["live-fast"@, "live-balanced"@, "live-deep"@]
}

/// A live preset, named in any ASCII case.
pub open spec fn is_live_preset(name: Seq<char>) -> bool {
    exists|i: int| 0 <= i < 3 && ascii_lower(name) == #[trigger] ascii_lower(live_presets()[i])
}

/// The profiles whose model packs are listed: the selected one, or else the live presets,
/// `live-model` and the config profiles in name order.
pub open spec fn pack_profile_names(selected: Option<Seq<char>>, fc: Option<FileConfig>) -> Seq<Seq<char>> {
    match selected {
        Some(p) => seq![p],
        None => live_presets().push("live-model"@) + sorted_texts(profile_names(fc)),
    }
}

/// The names with later ones equal to an earlier one ignoring ASCII case left out.
pub open spec fn dedup_ci_first(s: Seq<Seq<char>>) -> Seq<Seq<char>>
    decreases s.len(),
{
    if s.len() == 0 {
        seq![]
    } else {
        let d = dedup_ci_first(s.drop_last());
        if exists|i: int| 0 <= i < d.len() && ascii_lower(#[trigger] d[i]) == ascii_lower(s.last()) {
            d
        } else {
            d.push(s.last())
        }
    }
}

/// The profiles whose model packs are listed (see [`pack_profile_names`]), each name
/// once ignoring ASCII case, the first kept.
pub fn model_pack_profile_names(selected_profile: Option<&str>, file_config: Option<&FileConfig>) -> (r: Vec<String>)
    ensures
        string_views(r@) == dedup_ci_first(pack_profile_names(opt_str(selected_profile), fc_view(file_config))),
{
    let mut names: Vec<Vec<char>> = Vec::new();
    match selected_profile {
        Some(p) => {
            names.push(chars_of(p));
        },
        None => {
            names.push(chars_of("live-fast"));
            names.push(chars_of("live-balanced"));
            names.push(chars_of("live-deep"));
            names.push(chars_of("live-model"));
            let configured = sorted_profile_names(file_config);
            let ghost head = views(names@);
            let mut k: usize = 0;
            while k < configured.len()
                invariant
                    k <= configured@.len(),
                    views(names@) == head + views(configured@).take(k as int),
                decreases configured@.len() - k,
            {
                assert(views(configured@).take(k + 1) =~= views(configured@).take(k as int).push(configured@[k as int]@));
                let ghost b = views(names@);
                names.push(crate::text::copy_chars(&configured[k]));
                assert(views(names@) =~= b.push(configured@[k as int]@));
                assert(views(names@) =~= head + views(configured@).take(k + 1));
                k = k + 1;
            }
            assert(views(configured@).take(configured@.len() as int) =~= views(configured@));
        },
    }
    let ghost all = views(names@);
    assert(all == pack_profile_names(opt_str(selected_profile), fc_view(file_config)));
    let mut out: Vec<String> = Vec::new();
    let mut i: usize = 0;
    assert(all.take(0) =~= Seq::<Seq<char>>::empty());
    assert(string_views(out@) =~= Seq::<Seq<char>>::empty());
    while i < names.len()
        invariant
            i <= names@.len(),
            all == views(names@),
            string_views(out@) == dedup_ci_first(all.take(i as int)),
        decreases names@.len() - i,
    {
        assert(all.take(i + 1).drop_last() =~= all.take(i as int));
        assert(all.take(i + 1).last() == names@[i as int]@);
        let ghost d = string_views(out@);
        let mut seen = false;
        let mut j: usize = 0;
        while j < out.len() && !seen
            invariant
                j <= out@.len(),
                d == string_views(out@),
                all == views(names@),
                i < names@.len(),
                seen ==> exists|t: int| 0 <= t < d.len() && ascii_lower(#[trigger] d[t]) == ascii_lower(all[i as int]),
                !seen ==> forall|t: int| 0 <= t < j ==> ascii_lower(#[trigger] d[t]) != ascii_lower(all[i as int]),
            decreases out@.len() - j, (if seen { 0int } else { 1int }),
        {
            assert(d[j as int] == out@[j as int]@);
            if eq_ignore_ascii_case(&chars_of(out[j].as_str()), &names[i]) {
                seen = true;
            } else {
                j = j + 1;
            }
        }
        if !seen {
            out.push(string_of(&names[i]));
            assert(string_views(out@) =~= d.push(all[i as int]));
        }
        i = i + 1;
    }
    assert(all.take(names@.len() as int) =~= all);
    out
}

/// A live model pack: a profile, where it comes from and the settings it resolves to.
#[derive(Debug)]
pub struct ModelPackCandidate {
    pub name: String,
    pub source: String,
    pub runtime: RuntimeConfig,
}

/// Where a model pack's profile comes from: `preset` for a live preset, else as for a
/// selected profile.
pub open spec fn pack_source(name: Seq<char>, fc: Option<FileConfig>) -> Seq<char> {
    if is_live_preset(name) {
        "preset"@
    } else {
        profile_source_spec(name, fc)
    }
}

/// The first failure among the resolved settings.
pub open spec fn first_failure(rs: Seq<Result<RuntimeConfig, String>>) -> Option<Seq<char>>
    decreases rs.len(),
{
    if rs.len() == 0 {
        None
    } else {
        match first_failure(rs.drop_last()) {
            Some(e) => Some(e),
            None => match rs.last() {
                Err(e) => Some(e@),
                Ok(_) => None,
            },
        }
    }
}

/// `cs` are the live packs among the resolved settings of the named profiles, in order.
pub open spec fn live_packs(
    cs: Seq<ModelPackCandidate>,
    names: Seq<String>,
    rs: Seq<Result<RuntimeConfig, String>>,
    fc: Option<FileConfig>,
) -> bool
    decreases rs.len(),
{
    if rs.len() == 0 {
        cs.len() == 0
    } else {
        match rs.last() {
            Ok(c) => if c.live {
                cs.len() > 0 && live_packs(cs.drop_last(), names.drop_last(), rs.drop_last(), fc) && cs.last().name@
                    == names.last()@ && cs.last().source@ == pack_source(names.last()@, fc) && cs.last().runtime == c
            } else {
                live_packs(cs, names.drop_last(), rs.drop_last(), fc)
            },
            Err(_) => live_packs(cs, names.drop_last(), rs.drop_last(), fc),
        }
    }
}

/// The message for a listing that finds no live pack.
pub open spec fn no_pack_message(selected: Option<Seq<char>>) -> Seq<char> {
    match selected {
        Some(p) => "Profile '"@ + p
            + "' did not resolve to a live model pack. Choose a live profile or preset (live-fast, live-balanced, live-deep)."@,
        None => "No live model packs were discovered. Configure a live profile or use built-in presets: live-fast, live-balanced, live-deep."@,
    }
}

fn is_live_preset_exec(name: &str) -> (r: bool)
    ensures
        r == is_live_preset(name@),
{
    let low = crate::text::to_ascii_lower(&chars_of(name));
    proof {
        reveal_strlit("live-fast");
        reveal_strlit("live-balanced");
        reveal_strlit("live-deep");
        assert(ascii_lower("live-fast"@) =~= "live-fast"@);
        assert(ascii_lower("live-balanced"@) =~= "live-balanced"@);
        assert(ascii_lower("live-deep"@) =~= "live-deep"@);
    }
    let r = crate::text::chars_eq_str(&low, "live-fast") || crate::text::chars_eq_str(&low, "live-balanced")
        || crate::text::chars_eq_str(&low, "live-deep");
    proof {
        if r {
            if low@ == "live-fast"@ {
                assert(ascii_lower(name@) == ascii_lower(live_presets()[0]));
            } else if low@ == "live-balanced"@ {
                assert(ascii_lower(name@) == ascii_lower(live_presets()[1]));
            } else {
                assert(ascii_lower(name@) == ascii_lower(live_presets()[2]));
            }
        } else {
            assert forall|i: int| 0 <= i < 3 implies ascii_lower(name@) != #[trigger] ascii_lower(live_presets()[i]) by {
                if i == 0 {
                    assert(live_presets()[0] == "live-fast"@);
                } else if i == 1 {
                    assert(live_presets()[1] == "live-balanced"@);
                } else {
                    assert(live_presets()[2] == "live-deep"@);
                }
            }
        }
    }
    r
}

/// The live model packs of the listed profiles, given the settings each resolved to
/// (in the order of `names`): the first profile whose settings failed fails the
/// listing; profiles that do not run live are left out; a listing with no live pack
/// fails.
pub fn model_pack_candidates(
    selected_profile: Option<&str>,
    file_config: Option<&FileConfig>,
    names: Vec<String>,
    resolved: Vec<Result<RuntimeConfig, String>>,
) -> (r: Result<Vec<ModelPackCandidate>, String>)
    requires
        names@.len() == resolved@.len(),
    ensures
        match first_failure(resolved@) {
            Some(e) => r matches Err(x) && x@ == e,
            None => match r {
                Ok(cs) => cs@.len() > 0 && live_packs(cs@, names@, resolved@, fc_view(file_config)),
                Err(x) => x@ == no_pack_message(opt_str(selected_profile)) && live_packs(
                    Seq::empty(),
                    names@,
                    resolved@,
                    fc_view(file_config),
                ),
            },
        },
{
    let ghost all_n = names@;
    let ghost all_r = resolved@;
    let mut rest_n = names;
    let mut rest_r = resolved;
    let mut packs: Vec<ModelPackCandidate> = Vec::new();
    let mut i: usize = 0;
    let n0 = rest_r.len();
    assert(all_n.skip(0) =~= all_n);
    assert(all_r.skip(0) =~= all_r);
    assert(all_r.take(0) =~= Seq::<Result<RuntimeConfig, String>>::empty());
    assert(all_n.take(0) =~= Seq::<String>::empty());
    while rest_r.len() > 0
        invariant
            all_n.len() == all_r.len(),
            all_r.len() == n0,
            all_r == resolved@,
            all_n == names@,
            i <= all_r.len(),
            rest_n@ == all_n.skip(i as int),
            rest_r@ == all_r.skip(i as int),
            first_failure(all_r.take(i as int)) is None,
            live_packs(packs@, all_n.take(i as int), all_r.take(i as int), fc_view(file_config)),
        decreases rest_r@.len(),
    {
        let name = rest_n.remove(0);
        let result = rest_r.remove(0);
        assert(name == all_n[i as int]);
        assert(result == all_r[i as int]);
        assert(all_n.skip(i as int).drop_first() =~= all_n.skip(i + 1));
        assert(all_r.skip(i as int).drop_first() =~= all_r.skip(i + 1));
        assert(all_r.take(i + 1).drop_last() =~= all_r.take(i as int));
        assert(all_n.take(i + 1).drop_last() =~= all_n.take(i as int));
        assert(all_r.take(i + 1).last() == all_r[i as int]);
        assert(all_n.take(i + 1).last() == all_n[i as int]);
        match result {
            Err(e) => {
                proof {
                    lemma_first_failure_prefix(all_r, i as int + 1);
                    assert(first_failure(all_r) == Some(e@));
                }
                return Err(e);
            },
            Ok(runtime) => {
                if runtime.live {
                    let source = if is_live_preset_exec(name.as_str()) {
                        string_of(&chars_of("preset"))
                    } else {
                        string_of(&chars_of(selected_profile_source(name.as_str(), file_config)))
                    };
                    let ghost before = packs@;
                    packs.push(ModelPackCandidate { name, source, runtime });
                    assert(packs@.drop_last() =~= before);
                }
            },
        }
        i = i + 1;
    }
    assert(all_r.take(all_r.len() as int) =~= all_r);
    assert(all_n.take(all_n.len() as int) =~= all_n);
    if packs.len() == 0 {
        let msg = match selected_profile {
            Some(p) => {
                let mut m = chars_of("Profile '");
                push_str(&mut m, p);
                push_str(
                    &mut m,
                    "' did not resolve to a live model pack. Choose a live profile or preset (live-fast, live-balanced, live-deep).",
                );
                m
            },
            None => chars_of(
                "No live model packs were discovered. Configure a live profile or use built-in presets: live-fast, live-balanced, live-deep.",
            ),
        };
        assert(packs@ =~= Seq::<ModelPackCandidate>::empty());
        return Err(string_of(&msg));
    }
    Ok(packs)
}

proof fn lemma_first_failure_prefix(rs: Seq<Result<RuntimeConfig, String>>, n: int)
    requires
        0 < n <= rs.len(),
        first_failure(rs.take(n - 1)) is None,
        rs[n - 1] is Err,
    ensures
        first_failure(rs) == Some(rs[n - 1]->Err_0@),
    decreases rs.len(),
{
    assert(rs.take(n).drop_last() =~= rs.take(n - 1));
    if rs.len() == n {
        assert(rs.take(n) =~= rs);
    } else {
        assert(rs.drop_last().take(n - 1) =~= rs.take(n - 1));
        assert(rs.drop_last()[n - 1] == rs[n - 1]);
        lemma_first_failure_prefix(rs.drop_last(), n);
    }
}

// ---------------------------------------------------------------------------
// Validating model packs
// ---------------------------------------------------------------------------

/// The readiness of a model pack from its checks: failed when any check failed, warned
/// when any warned, passed otherwise.
pub open spec fn readiness_spec(cs: Seq<DoctorCheck>) -> DoctorStatus {
    if count_status(cs, DoctorStatus::Fail) > 0 {
        DoctorStatus::Fail
    } else if count_status(cs, DoctorStatus::Warn) > 0 {
        DoctorStatus::Warn
    } else {
        DoctorStatus::Pass
    }
}

/// The readiness of a model pack (see [`readiness_spec`]).
pub fn pack_readiness(report: &DoctorReport) -> (r: DoctorStatus)
    ensures
        r == readiness_spec(report.checks@),
{
    let (_, w, f) = report.counts();
    if f > 0 {
        DoctorStatus::Fail
    } else if w > 0 {
        DoctorStatus::Warn
    } else {
        DoctorStatus::Pass
    }
}

/// The latency tier of an estimated token budget.
pub open spec fn latency_tier_spec(budget: nat) -> Seq<char> {
    if budget <= 2048 {
        "fast"@
    } else if budget <= 8192 {
        "balanced"@
    } else {
        "deep"@
    }
}

/// The latency tier of an estimated token budget (see [`latency_tier_spec`]).
pub fn benchmark_latency_tier(estimated_token_budget: usize) -> (r: &'static str)
    ensures
        r@ == latency_tier_spec(estimated_token_budget as nat),
{
    if estimated_token_budget <= 2048 {
        "fast"
    } else if estimated_token_budget <= 8192 {
        "balanced"
    } else {
        "deep"
    }
}

/// A model pack with the doctor's checks of it.
#[derive(Debug)]
pub struct ValidatedPack {
    pub name: String,
    pub source: String,
    pub report: DoctorReport,
}

/// The checks of a status over all packs.
pub open spec fn total_status(ps: Seq<ValidatedPack>, s: DoctorStatus) -> nat
    decreases ps.len(),
{
    if ps.len() == 0 {
        0
    } else {
        total_status(ps.drop_last(), s) + count_status(ps.last().report.checks@, s)
    }
}

/// The number of checks over all packs.
pub open spec fn total_checks(ps: Seq<ValidatedPack>) -> nat
    decreases ps.len(),
{
    if ps.len() == 0 {
        0
    } else {
        total_checks(ps.drop_last()) + ps.last().report.checks@.len()
    }
}

proof fn lemma_count_status_bound(cs: Seq<DoctorCheck>, s: DoctorStatus)
    ensures
        count_status(cs, s) <= cs.len(),
    decreases cs.len(),
{
    if cs.len() > 0 {
        lemma_count_status_bound(cs.drop_last(), s);
    }
}

proof fn lemma_total_status_bound(ps: Seq<ValidatedPack>, s: DoctorStatus)
    ensures
        total_status(ps, s) <= total_checks(ps),
    decreases ps.len(),
{
    if ps.len() > 0 {
        lemma_total_status_bound(ps.drop_last(), s);
        lemma_count_status_bound(ps.last().report.checks@, s);
    }
}

proof fn lemma_total_checks_prefix(ps: Seq<ValidatedPack>, i: int)
    requires
        0 <= i <= ps.len(),
    ensures
        total_checks(ps.take(i)) <= total_checks(ps),
    decreases ps.len() - i,
{
    if i < ps.len() {
        lemma_total_checks_prefix(ps, i + 1);
        assert(ps.take(i + 1).drop_last() =~= ps.take(i));
    } else {
        assert(ps.take(i) =~= ps);
    }
}

/// A check in the validation listing.
pub open spec fn validation_check_text(c: DoctorCheck) -> Seq<char> {
    "  - ["@ + status_label(c.status) + "] "@ + c.name@ + match c.reason_code {
        Some(code) => " ["@ + code@ + "]"@,
        None => Seq::empty(),
    } + ": "@ + c.detail@ + "\n"@
}

pub open spec fn validation_checks_text(cs: Seq<DoctorCheck>) -> Seq<char>
    decreases cs.len(),
{
    if cs.len() == 0 {
        seq![]
    } else {
        validation_checks_text(cs.drop_last()) + validation_check_text(cs.last())
    }
}

/// A pack in the validation listing: its counts, then its checks.
pub open spec fn validation_pack_text(p: ValidatedPack) -> Seq<char> {
    let cs = p.report.checks@;
    "\n"@ + p.name@ + " ["@ + p.source@ + "] => "@ + crate::text::dec(count_status(cs, DoctorStatus::Pass)) + " pass, "@
        + crate::text::dec(count_status(cs, DoctorStatus::Warn)) + " warn, "@ + crate::text::dec(
        count_status(cs, DoctorStatus::Fail),
    ) + " fail\n"@ + validation_checks_text(cs)
}

pub open spec fn validation_packs_text(ps: Seq<ValidatedPack>) -> Seq<char>
    decreases ps.len(),
{
    if ps.len() == 0 {
        seq![]
    } else {
        validation_packs_text(ps.drop_last()) + validation_pack_text(ps.last())
    }
}

/// The validation listing: the totals over all packs, then each pack; no trailing
/// white space.
pub open spec fn validation_text(ps: Seq<ValidatedPack>) -> Seq<char> {
    trim_end(
        "WraithRun Model Pack Validation\nSummary: "@ + crate::text::dec(total_status(ps, DoctorStatus::Pass))
            + " pass, "@ + crate::text::dec(total_status(ps, DoctorStatus::Warn)) + " warn, "@ + crate::text::dec(
            total_status(ps, DoctorStatus::Fail),
        ) + " fail\n"@ + validation_packs_text(ps),
    )
}

fn validation_pack_lines(p: &ValidatedPack) -> (r: Vec<char>)
    ensures
        r@ == validation_pack_text(*p),
{
    let (pa, wa, fa) = p.report.counts();
    let mut out = chars_of("\n");
    push_str(&mut out, p.name.as_str());
    push_str(&mut out, " [");
    push_str(&mut out, p.source.as_str());
    push_str(&mut out, "] => ");
    crate::text::push_all(&mut out, &crate::text::usize_dec(pa));
    push_str(&mut out, " pass, ");
    crate::text::push_all(&mut out, &crate::text::usize_dec(wa));
    push_str(&mut out, " warn, ");
    crate::text::push_all(&mut out, &crate::text::usize_dec(fa));
    push_str(&mut out, " fail\n");
    let ghost head = out@;
    let ghost cs = p.report.checks@;
    let mut i: usize = 0;
    assert(cs.take(0) =~= Seq::<DoctorCheck>::empty());
    assert(out@ =~= head + validation_checks_text(cs.take(0)));
    while i < p.report.checks.len()
        invariant
            i <= cs.len(),
            cs == p.report.checks@,
            out@ == head + validation_checks_text(cs.take(i as int)),
        decreases cs.len() - i,
    {
        assert(cs.take(i + 1).drop_last() =~= cs.take(i as int));
        assert(cs.take(i + 1).last() == cs[i as int]);
        let c = &p.report.checks[i];
        push_str(&mut out, "  - [");
        push_str(&mut out, c.status.label());
        push_str(&mut out, "] ");
        push_str(&mut out, c.name.as_str());
        match &c.reason_code {
            Some(code) => {
                push_str(&mut out, " [");
                push_str(&mut out, code.as_str());
                push_str(&mut out, "]");
            },
            None => {},
        }
        push_str(&mut out, ": ");
        push_str(&mut out, c.detail.as_str());
        push_str(&mut out, "\n");
        assert(out@ =~= head + validation_checks_text(cs.take(i + 1)));
        i = i + 1;
    }
    assert(cs.take(cs.len() as int) =~= cs);
    out
}

/// The totals of passing, warning and failing checks over all packs.
pub fn validation_totals(packs: &Vec<ValidatedPack>) -> (r: (usize, usize, usize))
    requires
        total_checks(packs@) <= usize::MAX,
    ensures
        r.0 as nat == total_status(packs@, DoctorStatus::Pass),
        r.1 as nat == total_status(packs@, DoctorStatus::Warn),
        r.2 as nat == total_status(packs@, DoctorStatus::Fail),
{
    let ghost ps = packs@;
    let mut p: usize = 0;
    let mut w: usize = 0;
    let mut f: usize = 0;
    let mut i: usize = 0;
    assert(ps.take(0) =~= Seq::<ValidatedPack>::empty());
    while i < packs.len()
        invariant
            i <= ps.len(),
            ps == packs@,
            total_checks(ps) <= usize::MAX,
            p as nat == total_status(ps.take(i as int), DoctorStatus::Pass),
            w as nat == total_status(ps.take(i as int), DoctorStatus::Warn),
            f as nat == total_status(ps.take(i as int), DoctorStatus::Fail),
        decreases ps.len() - i,
    {
        assert(ps.take(i + 1).drop_last() =~= ps.take(i as int));
        assert(ps.take(i + 1).last() == ps[i as int]);
        proof {
            lemma_total_checks_prefix(ps, i + 1);
            lemma_total_status_bound(ps.take(i + 1), DoctorStatus::Pass);
            lemma_total_status_bound(ps.take(i + 1), DoctorStatus::Warn);
            lemma_total_status_bound(ps.take(i + 1), DoctorStatus::Fail);
        }
        let (a, b, c) = packs[i].report.counts();
        p = p + a;
        w = w + b;
        f = f + c;
        i = i + 1;
    }
    assert(ps.take(ps.len() as int) =~= ps);
    (p, w, f)
}

/// The validation listing of model packs (see [`validation_text`]).
pub fn render_model_pack_validation(packs: &Vec<ValidatedPack>) -> (r: String)
    requires
        total_checks(packs@) <= usize::MAX,
    ensures
        r@ == validation_text(packs@),
{
    let (p, w, f) = validation_totals(packs);
    let mut out = chars_of("WraithRun Model Pack Validation\nSummary: ");
    crate::text::push_all(&mut out, &crate::text::usize_dec(p));
    push_str(&mut out, " pass, ");
    crate::text::push_all(&mut out, &crate::text::usize_dec(w));
    push_str(&mut out, " warn, ");
    crate::text::push_all(&mut out, &crate::text::usize_dec(f));
    push_str(&mut out, " fail\n");
    let ghost head = out@;
    let ghost ps = packs@;
    let mut i: usize = 0;
    assert(ps.take(0) =~= Seq::<ValidatedPack>::empty());
    assert(out@ =~= head + validation_packs_text(ps.take(0)));
    while i < packs.len()
        invariant
            i <= ps.len(),
            ps == packs@,
            out@ == head + validation_packs_text(ps.take(i as int)),
        decreases ps.len() - i,
    {
        assert(ps.take(i + 1).drop_last() =~= ps.take(i as int));
        assert(ps.take(i + 1).last() == ps[i as int]);
        let lines = validation_pack_lines(&packs[i]);
        crate::text::push_all(&mut out, &lines);
        assert(out@ =~= head + validation_packs_text(ps.take(i + 1)));
        i = i + 1;
    }
    assert(ps.take(ps.len() as int) =~= ps);
    string_of(&crate::cli::trim_end_chars(&out))
}

} // verus!
