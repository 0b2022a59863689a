//! Run settings and where they come from.  Settings are layered, each layer replacing
//! what it sets: the defaults, a built-in profile, the config file's defaults, the
//! config file's profile, the environment, and the command line last.
use vstd::prelude::*;

use crate::cli::{
    validate_case_id, AutomationAdapter, ExitPolicy, ExitSeverityThreshold, LiveFallbackPolicy,
    LogMode, OutputFormat, OutputMode,
};
use crate::model::{clone_string, opt_view};
use crate::plugin::last_segment;
use crate::text::{
    ascii_lower, chars_eq, chars_of, eq_ignore_ascii_case, push_str, string_of, to_ascii_lower,
    trim, trim_str,
};

verus! {

fn lit(s: &str) -> (r: String)
    ensures
        r@ == s@,
{
    string_of(&chars_of(s))
}

/// The value set by a layer, or the one below it.
pub open spec fn over<T>(o: Option<T>, base: T) -> T {
    match o {
        Some(v) => v,
        None => base,
    }
}

/// An optional setting set by a layer, or the one below it.
pub open spec fn over_opt<T>(o: Option<T>, base: Option<T>) -> Option<T> {
    match o {
        Some(v) => Some(v),
        None => base,
    }
}

fn pick<T: Copy>(o: Option<T>, base: T) -> (r: T)
    ensures
        r == over(o, base),
{
    match o {
        Some(v) => v,
        None => base,
    }
}

fn pick_opt<T: Copy>(o: Option<T>, base: Option<T>) -> (r: Option<T>)
    ensures
        r == over_opt(o, base),
{
    match o {
        Some(v) => Some(v),
        None => base,
    }
}

fn pick_string(o: &Option<String>, base: &String) -> (r: String)
    ensures
        r@ == over(opt_view(*o), base@),
{
    match o {
        Some(v) => clone_string(v),
        None => clone_string(base),
    }
}

fn pick_opt_string(o: &Option<String>, base: &Option<String>) -> (r: Option<String>)
    ensures
        opt_view(r) == over_opt(opt_view(*o), opt_view(*base)),
{
    match o {
        Some(v) => Some(clone_string(v)),
        None => crate::model::clone_opt_string(base),
    }
}

fn pick_source(set: bool, source: &str, base: &String) -> (r: String)
    ensures
        r@ == if set { source@ } else { base@ },
{
    if set {
        lit(source)
    } else {
        clone_string(base)
    }
}

fn cli_live(live: bool, dry_run: bool, base: bool) -> (r: bool)
    ensures
        r == if dry_run { false } else if live { true } else { base },
{
    if dry_run {
        false
    } else if live {
        true
    } else {
        base
    }
}

fn cli_live_source(live: bool, dry_run: bool, base: &String) -> (r: String)
    ensures
        r@ == if dry_run { "cli --dry-run"@ } else if live { "cli --live"@ } else { base@ },
{
    if dry_run {
        lit("cli --dry-run")
    } else if live {
        lit("cli --live")
    } else {
        clone_string(base)
    }
}

fn cli_log_mode(quiet: bool, verbose: bool, base: LogMode) -> (r: LogMode)
    ensures
        r == if verbose { LogMode::Verbose } else if quiet { LogMode::Quiet } else { base },
{
    if verbose {
        LogMode::Verbose
    } else if quiet {
        LogMode::Quiet
    } else {
        base
    }
}

fn cli_log_source(quiet: bool, verbose: bool, base: &String) -> (r: String)
    ensures
        r@ == if verbose { "cli --verbose"@ } else if quiet { "cli --quiet"@ } else { base@ },
{
    if verbose {
        lit("cli --verbose")
    } else if quiet {
        lit("cli --quiet")
    } else {
        clone_string(base)
    }
}

/// Settings from one source; each one that is set replaces the value below it.
#[derive(Debug)]
pub struct SettingsFragment {
    pub model: Option<String>,
    pub tokenizer: Option<String>,
    pub max_steps: Option<usize>,
    pub max_new_tokens: Option<usize>,
    /// The sampling temperature as the bit pattern of an `f32` (`f32::to_bits`).
    pub temperature: Option<u32>,
    pub live: Option<bool>,
    pub live_fallback_policy: Option<LiveFallbackPolicy>,
    pub format: Option<OutputFormat>,
    pub output_mode: Option<OutputMode>,
    pub automation_adapter: Option<AutomationAdapter>,
    pub exit_policy: Option<ExitPolicy>,
    pub exit_threshold: Option<ExitSeverityThreshold>,
    pub output_file: Option<String>,
    pub case_id: Option<String>,
    pub evidence_bundle_dir: Option<String>,
    pub evidence_bundle_archive: Option<String>,
    pub baseline_bundle: Option<String>,
    pub log: Option<LogMode>,
    pub vitis_config: Option<String>,
    pub vitis_cache_dir: Option<String>,
    pub vitis_cache_key: Option<String>,
}

pub struct FragmentView {
    pub model: Option<Seq<char>>,
    pub tokenizer: Option<Seq<char>>,
    pub max_steps: Option<usize>,
    pub max_new_tokens: Option<usize>,
    pub temperature: Option<u32>,
    pub live: Option<bool>,
    pub live_fallback_policy: Option<LiveFallbackPolicy>,
    pub format: Option<OutputFormat>,
    pub output_mode: Option<OutputMode>,
    pub automation_adapter: Option<AutomationAdapter>,
    pub exit_policy: Option<ExitPolicy>,
    pub exit_threshold: Option<ExitSeverityThreshold>,
    pub output_file: Option<Seq<char>>,
    pub case_id: Option<Seq<char>>,
    pub evidence_bundle_dir: Option<Seq<char>>,
    pub evidence_bundle_archive: Option<Seq<char>>,
    pub baseline_bundle: Option<Seq<char>>,
    pub log: Option<LogMode>,
    pub vitis_config: Option<Seq<char>>,
    pub vitis_cache_dir: Option<Seq<char>>,
    pub vitis_cache_key: Option<Seq<char>>,
}

impl View for SettingsFragment {
    type V = FragmentView;

    open spec fn view(&self) -> FragmentView {
        FragmentView {
            model: opt_view(self.model),
            tokenizer: opt_view(self.tokenizer),
            max_steps: self.max_steps,
            max_new_tokens: self.max_new_tokens,
            temperature: self.temperature,
            live: self.live,
            live_fallback_policy: self.live_fallback_policy,
            format: self.format,
            output_mode: self.output_mode,
            automation_adapter: self.automation_adapter,
            exit_policy: self.exit_policy,
            exit_threshold: self.exit_threshold,
            output_file: opt_view(self.output_file),
            case_id: opt_view(self.case_id),
            evidence_bundle_dir: opt_view(self.evidence_bundle_dir),
            evidence_bundle_archive: opt_view(self.evidence_bundle_archive),
            baseline_bundle: opt_view(self.baseline_bundle),
            log: self.log,
            vitis_config: opt_view(self.vitis_config),
            vitis_cache_dir: opt_view(self.vitis_cache_dir),
            vitis_cache_key: opt_view(self.vitis_cache_key),
        }
    }
}

impl SettingsFragment {
    /// A fragment that sets nothing.
    pub fn empty() -> (r: SettingsFragment)
        ensures
            fragment_is_empty(r@),
    {
        SettingsFragment {
            model: None,
            tokenizer: None,
            max_steps: None,
            max_new_tokens: None,
            temperature: None,
            live: None,
            live_fallback_policy: None,
            format: None,
            output_mode: None,
            automation_adapter: None,
            exit_policy: None,
            exit_threshold: None,
            output_file: None,
            case_id: None,
            evidence_bundle_dir: None,
            evidence_bundle_archive: None,
            baseline_bundle: None,
            log: None,
            vitis_config: None,
            vitis_cache_dir: None,
            vitis_cache_key: None,
        }
    }
}

pub open spec fn fragment_is_empty(f: FragmentView) -> bool {
    f.model is None
        && f.tokenizer is None
        && f.max_steps is None
        && f.max_new_tokens is None
        && f.temperature is None
        && f.live is None
        && f.live_fallback_policy is None
        && f.format is None
        && f.output_mode is None
        && f.automation_adapter is None
        && f.exit_policy is None
        && f.exit_threshold is None
        && f.output_file is None
        && f.case_id is None
        && f.evidence_bundle_dir is None
        && f.evidence_bundle_archive is None
        && f.baseline_bundle is None
        && f.log is None
        && f.vitis_config is None
        && f.vitis_cache_dir is None
        && f.vitis_cache_key is None
}

/// The settings a run uses.
#[derive(Debug)]
pub struct RuntimeConfig {
    pub task: String,
    pub model: String,
    pub tokenizer: Option<String>,
    pub max_steps: usize,
    pub max_new_tokens: usize,
    /// The sampling temperature as the bit pattern of an `f32` (`f32::to_bits`).
    pub temperature: u32,
    pub live: bool,
    pub live_fallback_policy: LiveFallbackPolicy,
    pub format: OutputFormat,
    pub output_mode: OutputMode,
    pub automation_adapter: Option<AutomationAdapter>,
    pub exit_policy: ExitPolicy,
    pub exit_threshold: Option<ExitSeverityThreshold>,
    pub output_file: Option<String>,
    pub case_id: Option<String>,
    pub evidence_bundle_dir: Option<String>,
    pub evidence_bundle_archive: Option<String>,
    pub baseline_bundle: Option<String>,
    pub log_mode: LogMode,
    pub vitis_config: Option<String>,
    pub vitis_cache_dir: Option<String>,
    pub vitis_cache_key: Option<String>,
}

pub struct ConfigView {
    pub task: Seq<char>,
    pub model: Seq<char>,
    pub tokenizer: Option<Seq<char>>,
    pub max_steps: usize,
    pub max_new_tokens: usize,
    pub temperature: u32,
    pub live: bool,
    pub live_fallback_policy: LiveFallbackPolicy,
    pub format: OutputFormat,
    pub output_mode: OutputMode,
    pub automation_adapter: Option<AutomationAdapter>,
    pub exit_policy: ExitPolicy,
    pub exit_threshold: Option<ExitSeverityThreshold>,
    pub output_file: Option<Seq<char>>,
    pub case_id: Option<Seq<char>>,
    pub evidence_bundle_dir: Option<Seq<char>>,
    pub evidence_bundle_archive: Option<Seq<char>>,
    pub baseline_bundle: Option<Seq<char>>,
    pub log_mode: LogMode,
    pub vitis_config: Option<Seq<char>>,
    pub vitis_cache_dir: Option<Seq<char>>,
    pub vitis_cache_key: Option<Seq<char>>,
}

impl View for RuntimeConfig {
    type V = ConfigView;

    open spec fn view(&self) -> ConfigView {
        ConfigView {
            task: self.task@,
            model: self.model@,
            tokenizer: opt_view(self.tokenizer),
            max_steps: self.max_steps,
            max_new_tokens: self.max_new_tokens,
            temperature: self.temperature,
            live: self.live,
            live_fallback_policy: self.live_fallback_policy,
            format: self.format,
            output_mode: self.output_mode,
            automation_adapter: self.automation_adapter,
            exit_policy: self.exit_policy,
            exit_threshold: self.exit_threshold,
            output_file: opt_view(self.output_file),
            case_id: opt_view(self.case_id),
            evidence_bundle_dir: opt_view(self.evidence_bundle_dir),
            evidence_bundle_archive: opt_view(self.evidence_bundle_archive),
            baseline_bundle: opt_view(self.baseline_bundle),
            log_mode: self.log_mode,
            vitis_config: opt_view(self.vitis_config),
            vitis_cache_dir: opt_view(self.vitis_cache_dir),
            vitis_cache_key: opt_view(self.vitis_cache_key),
        }
    }
}

/// `c` with every setting that `f` sets replaced by it.
#[verifier::opaque]
pub open spec fn overlay(c: ConfigView, f: FragmentView) -> ConfigView {
    ConfigView {
        task: c.task,
        model: over(f.model, c.model),
        tokenizer: over_opt(f.tokenizer, c.tokenizer),
        max_steps: over(f.max_steps, c.max_steps),
        max_new_tokens: over(f.max_new_tokens, c.max_new_tokens),
        temperature: over(f.temperature, c.temperature),
        live: over(f.live, c.live),
        live_fallback_policy: over(f.live_fallback_policy, c.live_fallback_policy),
        format: over(f.format, c.format),
        output_mode: over(f.output_mode, c.output_mode),
        automation_adapter: over_opt(f.automation_adapter, c.automation_adapter),
        exit_policy: over(f.exit_policy, c.exit_policy),
        exit_threshold: over_opt(f.exit_threshold, c.exit_threshold),
        output_file: over_opt(f.output_file, c.output_file),
        case_id: over_opt(f.case_id, c.case_id),
        evidence_bundle_dir: over_opt(f.evidence_bundle_dir, c.evidence_bundle_dir),
        evidence_bundle_archive: over_opt(f.evidence_bundle_archive, c.evidence_bundle_archive),
        baseline_bundle: over_opt(f.baseline_bundle, c.baseline_bundle),
        log_mode: over(f.log, c.log_mode),
        vitis_config: over_opt(f.vitis_config, c.vitis_config),
        vitis_cache_dir: over_opt(f.vitis_cache_dir, c.vitis_cache_dir),
        vitis_cache_key: over_opt(f.vitis_cache_key, c.vitis_cache_key),
    }
}

impl RuntimeConfig {
    /// Applies a fragment: every setting it sets replaces the current one.
    pub fn apply_fragment(&mut self, fragment: &SettingsFragment)
        ensures
            final(self)@ == overlay(old(self)@, fragment@),
    {
        proof {
            reveal(overlay);
        }
        self.model = pick_string(&fragment.model, &self.model);
        self.tokenizer = pick_opt_string(&fragment.tokenizer, &self.tokenizer);
        self.max_steps = pick(fragment.max_steps, self.max_steps);
        self.max_new_tokens = pick(fragment.max_new_tokens, self.max_new_tokens);
        self.temperature = pick(fragment.temperature, self.temperature);
        self.live = pick(fragment.live, self.live);
        self.live_fallback_policy = pick(fragment.live_fallback_policy, self.live_fallback_policy);
        self.format = pick(fragment.format, self.format);
        self.output_mode = pick(fragment.output_mode, self.output_mode);
        self.automation_adapter = pick_opt(fragment.automation_adapter, self.automation_adapter);
        self.exit_policy = pick(fragment.exit_policy, self.exit_policy);
        self.exit_threshold = pick_opt(fragment.exit_threshold, self.exit_threshold);
        self.output_file = pick_opt_string(&fragment.output_file, &self.output_file);
        self.case_id = pick_opt_string(&fragment.case_id, &self.case_id);
        self.evidence_bundle_dir = pick_opt_string(&fragment.evidence_bundle_dir, &self.evidence_bundle_dir);
        self.evidence_bundle_archive = pick_opt_string(&fragment.evidence_bundle_archive, &self.evidence_bundle_archive);
        self.baseline_bundle = pick_opt_string(&fragment.baseline_bundle, &self.baseline_bundle);
        self.log_mode = pick(fragment.log, self.log_mode);
        self.vitis_config = pick_opt_string(&fragment.vitis_config, &self.vitis_config);
        self.vitis_cache_dir = pick_opt_string(&fragment.vitis_cache_dir, &self.vitis_cache_dir);
        self.vitis_cache_key = pick_opt_string(&fragment.vitis_cache_key, &self.vitis_cache_key);
    }
}

/// Where each setting came from.
#[derive(Debug)]
pub struct RuntimeConfigSources {
    pub task: String,
    pub live: String,
    pub live_fallback_policy: String,
    pub model: String,
    pub tokenizer: String,
    pub max_steps: String,
    pub max_new_tokens: String,
    pub temperature: String,
    pub format: String,
    pub output_mode: String,
    pub automation_adapter: String,
    pub exit_policy: String,
    pub exit_threshold: String,
    pub output_file: String,
    pub case_id: String,
    pub evidence_bundle_dir: String,
    pub evidence_bundle_archive: String,
    pub baseline_bundle: String,
    pub log_mode: String,
    pub vitis_config: String,
    pub vitis_cache_dir: String,
    pub vitis_cache_key: String,
}

pub struct SourcesView {
    pub task: Seq<char>,
    pub live: Seq<char>,
    pub live_fallback_policy: Seq<char>,
    pub model: Seq<char>,
    pub tokenizer: Seq<char>,
    pub max_steps: Seq<char>,
    pub max_new_tokens: Seq<char>,
    pub temperature: Seq<char>,
    pub format: Seq<char>,
    pub output_mode: Seq<char>,
    pub automation_adapter: Seq<char>,
    pub exit_policy: Seq<char>,
    pub exit_threshold: Seq<char>,
    pub output_file: Seq<char>,
    pub case_id: Seq<char>,
    pub evidence_bundle_dir: Seq<char>,
    pub evidence_bundle_archive: Seq<char>,
    pub baseline_bundle: Seq<char>,
    pub log_mode: Seq<char>,
    pub vitis_config: Seq<char>,
    pub vitis_cache_dir: Seq<char>,
    pub vitis_cache_key: Seq<char>,
}

impl View for RuntimeConfigSources {
    type V = SourcesView;

    open spec fn view(&self) -> SourcesView {
        SourcesView {
            task: self.task@,
            live: self.live@,
            live_fallback_policy: self.live_fallback_policy@,
            model: self.model@,
            tokenizer: self.tokenizer@,
            max_steps: self.max_steps@,
            max_new_tokens: self.max_new_tokens@,
            temperature: self.temperature@,
            format: self.format@,
            output_mode: self.output_mode@,
            automation_adapter: self.automation_adapter@,
            exit_policy: self.exit_policy@,
            exit_threshold: self.exit_threshold@,
            output_file: self.output_file@,
            case_id: self.case_id@,
            evidence_bundle_dir: self.evidence_bundle_dir@,
            evidence_bundle_archive: self.evidence_bundle_archive@,
            baseline_bundle: self.baseline_bundle@,
            log_mode: self.log_mode@,
            vitis_config: self.vitis_config@,
            vitis_cache_dir: self.vitis_cache_dir@,
            vitis_cache_key: self.vitis_cache_key@,
        }
    }
}

/// `s` with the source of every setting that `f` sets replaced by `source`.
#[verifier::opaque]
pub open spec fn source_overlay(s: SourcesView, f: FragmentView, source: Seq<char>) -> SourcesView {
    SourcesView {
        task: s.task,
        live: if f.live is Some { source } else { s.live },
        live_fallback_policy: if f.live_fallback_policy is Some { source } else { s.live_fallback_policy },
        model: if f.model is Some { source } else { s.model },
        tokenizer: if f.tokenizer is Some { source } else { s.tokenizer },
        max_steps: if f.max_steps is Some { source } else { s.max_steps },
        max_new_tokens: if f.max_new_tokens is Some { source } else { s.max_new_tokens },
        temperature: if f.temperature is Some { source } else { s.temperature },
        format: if f.format is Some { source } else { s.format },
        output_mode: if f.output_mode is Some { source } else { s.output_mode },
        automation_adapter: if f.automation_adapter is Some { source } else { s.automation_adapter },
        exit_policy: if f.exit_policy is Some { source } else { s.exit_policy },
        exit_threshold: if f.exit_threshold is Some { source } else { s.exit_threshold },
        output_file: if f.output_file is Some { source } else { s.output_file },
        case_id: if f.case_id is Some { source } else { s.case_id },
        evidence_bundle_dir: if f.evidence_bundle_dir is Some { source } else { s.evidence_bundle_dir },
        evidence_bundle_archive: if f.evidence_bundle_archive is Some { source } else { s.evidence_bundle_archive },
        baseline_bundle: if f.baseline_bundle is Some { source } else { s.baseline_bundle },
        log_mode: if f.log is Some { source } else { s.log_mode },
        vitis_config: if f.vitis_config is Some { source } else { s.vitis_config },
        vitis_cache_dir: if f.vitis_cache_dir is Some { source } else { s.vitis_cache_dir },
        vitis_cache_key: if f.vitis_cache_key is Some { source } else { s.vitis_cache_key },
    }
}

impl RuntimeConfigSources {
    /// Every setting from its default, the task from `task_source`.
    pub fn with_defaults(task_source: &str) -> (r: RuntimeConfigSources)
        ensures
            r@.task == task_source@,
            r@.live == "default"@,
            r@.live_fallback_policy == "default"@,
            r@.model == "default"@,
            r@.tokenizer == "default"@,
            r@.max_steps == "default"@,
            r@.max_new_tokens == "default"@,
            r@.temperature == "default"@,
            r@.format == "default"@,
            r@.output_mode == "default"@,
            r@.automation_adapter == "default"@,
            r@.exit_policy == "default"@,
            r@.exit_threshold == "default"@,
            r@.output_file == "default"@,
            r@.case_id == "default"@,
            r@.evidence_bundle_dir == "default"@,
            r@.evidence_bundle_archive == "default"@,
            r@.baseline_bundle == "default"@,
            r@.log_mode == "default"@,
            r@.vitis_config == "default"@,
            r@.vitis_cache_dir == "default"@,
            r@.vitis_cache_key == "default"@,
    {
        RuntimeConfigSources {
            task: lit(task_source),
            live: lit("default"),
            live_fallback_policy: lit("default"),
            model: lit("default"),
            tokenizer: lit("default"),
            max_steps: lit("default"),
            max_new_tokens: lit("default"),
            temperature: lit("default"),
            format: lit("default"),
            output_mode: lit("default"),
            automation_adapter: lit("default"),
            exit_policy: lit("default"),
            exit_threshold: lit("default"),
            output_file: lit("default"),
            case_id: lit("default"),
            evidence_bundle_dir: lit("default"),
            evidence_bundle_archive: lit("default"),
            baseline_bundle: lit("default"),
            log_mode: lit("default"),
            vitis_config: lit("default"),
            vitis_cache_dir: lit("default"),
            vitis_cache_key: lit("default"),
        }
    }
}

fn record_fragment_sources(sources: &mut RuntimeConfigSources, fragment: &SettingsFragment, source: &str)
    ensures
        final(sources)@ == source_overlay(old(sources)@, fragment@, source@),
{
    proof {
        reveal(source_overlay);
    }
    sources.model = pick_source(fragment.model.is_some(), source, &sources.model);
    sources.tokenizer = pick_source(fragment.tokenizer.is_some(), source, &sources.tokenizer);
    sources.max_steps = pick_source(fragment.max_steps.is_some(), source, &sources.max_steps);
    sources.max_new_tokens = pick_source(fragment.max_new_tokens.is_some(), source, &sources.max_new_tokens);
    sources.temperature = pick_source(fragment.temperature.is_some(), source, &sources.temperature);
    sources.live = pick_source(fragment.live.is_some(), source, &sources.live);
    sources.live_fallback_policy = pick_source(fragment.live_fallback_policy.is_some(), source, &sources.live_fallback_policy);
    sources.format = pick_source(fragment.format.is_some(), source, &sources.format);
    sources.output_mode = pick_source(fragment.output_mode.is_some(), source, &sources.output_mode);
    sources.automation_adapter = pick_source(fragment.automation_adapter.is_some(), source, &sources.automation_adapter);
    sources.exit_policy = pick_source(fragment.exit_policy.is_some(), source, &sources.exit_policy);
    sources.exit_threshold = pick_source(fragment.exit_threshold.is_some(), source, &sources.exit_threshold);
    sources.output_file = pick_source(fragment.output_file.is_some(), source, &sources.output_file);
    sources.case_id = pick_source(fragment.case_id.is_some(), source, &sources.case_id);
    sources.evidence_bundle_dir = pick_source(fragment.evidence_bundle_dir.is_some(), source, &sources.evidence_bundle_dir);
    sources.evidence_bundle_archive = pick_source(fragment.evidence_bundle_archive.is_some(), source, &sources.evidence_bundle_archive);
    sources.baseline_bundle = pick_source(fragment.baseline_bundle.is_some(), source, &sources.baseline_bundle);
    sources.log_mode = pick_source(fragment.log.is_some(), source, &sources.log_mode);
    sources.vitis_config = pick_source(fragment.vitis_config.is_some(), source, &sources.vitis_config);
    sources.vitis_cache_dir = pick_source(fragment.vitis_cache_dir.is_some(), source, &sources.vitis_cache_dir);
    sources.vitis_cache_key = pick_source(fragment.vitis_cache_key.is_some(), source, &sources.vitis_cache_key);
}

/// Applies a fragment and records `source` for every setting it sets.
pub fn apply_fragment_with_source(
    runtime: &mut RuntimeConfig,
    sources: &mut RuntimeConfigSources,
    fragment: &SettingsFragment,
    source: &str,
)
    ensures
        final(runtime)@ == overlay(old(runtime)@, fragment@),
        final(sources)@ == source_overlay(old(sources)@, fragment@, source@),
{
    runtime.apply_fragment(fragment);
    record_fragment_sources(sources, fragment, source);
}

/// The settings given on the command line.
#[derive(Debug)]
pub struct CliSettings {
    pub model: Option<String>,
    pub tokenizer: Option<String>,
    pub max_steps: Option<usize>,
    pub max_new_tokens: Option<usize>,
    /// The sampling temperature as the bit pattern of an `f32` (`f32::to_bits`).
    pub temperature: Option<u32>,
    /// `--live`.
    pub live: bool,
    /// `--dry-run`.
    pub dry_run: bool,
    pub live_fallback_policy: Option<LiveFallbackPolicy>,
    pub format: Option<OutputFormat>,
    pub output_mode: Option<OutputMode>,
    pub automation_adapter: Option<AutomationAdapter>,
    pub exit_policy: Option<ExitPolicy>,
    pub exit_threshold: Option<ExitSeverityThreshold>,
    pub output_file: Option<String>,
    pub case_id: Option<String>,
    pub evidence_bundle_dir: Option<String>,
    pub evidence_bundle_archive: Option<String>,
    pub baseline_bundle: Option<String>,
    /// `--quiet`.
    pub quiet: bool,
    /// `--verbose`.
    pub verbose: bool,
    pub vitis_config: Option<String>,
    pub vitis_cache_dir: Option<String>,
    pub vitis_cache_key: Option<String>,
}

pub struct CliView {
    pub model: Option<Seq<char>>,
    pub tokenizer: Option<Seq<char>>,
    pub max_steps: Option<usize>,
    pub max_new_tokens: Option<usize>,
    pub temperature: Option<u32>,
    pub live: bool,
    pub dry_run: bool,
    pub live_fallback_policy: Option<LiveFallbackPolicy>,
    pub format: Option<OutputFormat>,
    pub output_mode: Option<OutputMode>,
    pub automation_adapter: Option<AutomationAdapter>,
    pub exit_policy: Option<ExitPolicy>,
    pub exit_threshold: Option<ExitSeverityThreshold>,
    pub output_file: Option<Seq<char>>,
    pub case_id: Option<Seq<char>>,
    pub evidence_bundle_dir: Option<Seq<char>>,
    pub evidence_bundle_archive: Option<Seq<char>>,
    pub baseline_bundle: Option<Seq<char>>,
    pub quiet: bool,
    pub verbose: bool,
    pub vitis_config: Option<Seq<char>>,
    pub vitis_cache_dir: Option<Seq<char>>,
    pub vitis_cache_key: Option<Seq<char>>,
}

impl View for CliSettings {
    type V = CliView;

    open spec fn view(&self) -> CliView {
        CliView {
            model: opt_view(self.model),
            tokenizer: opt_view(self.tokenizer),
            max_steps: self.max_steps,
            max_new_tokens: self.max_new_tokens,
            temperature: self.temperature,
            live: self.live,
            dry_run: self.dry_run,
            live_fallback_policy: self.live_fallback_policy,
            format: self.format,
            output_mode: self.output_mode,
            automation_adapter: self.automation_adapter,
            exit_policy: self.exit_policy,
            exit_threshold: self.exit_threshold,
            output_file: opt_view(self.output_file),
            case_id: opt_view(self.case_id),
            evidence_bundle_dir: opt_view(self.evidence_bundle_dir),
            evidence_bundle_archive: opt_view(self.evidence_bundle_archive),
            baseline_bundle: opt_view(self.baseline_bundle),
            quiet: self.quiet,
            verbose: self.verbose,
            vitis_config: opt_view(self.vitis_config),
            vitis_cache_dir: opt_view(self.vitis_cache_dir),
            vitis_cache_key: opt_view(self.vitis_cache_key),
        }
    }
}

/// `c` with the command line's settings applied: each given option replaces its
/// setting, `--dry-run` wins over `--live`, and `--verbose` over `--quiet`.
#[verifier::opaque]
pub open spec fn cli_overlay(c: ConfigView, o: CliView) -> ConfigView {
    ConfigView {
        task: c.task,
        model: over(o.model, c.model),
        tokenizer: over_opt(o.tokenizer, c.tokenizer),
        max_steps: over(o.max_steps, c.max_steps),
        max_new_tokens: over(o.max_new_tokens, c.max_new_tokens),
        temperature: over(o.temperature, c.temperature),
        live: if o.dry_run { false } else if o.live { true } else { c.live },
        live_fallback_policy: over(o.live_fallback_policy, c.live_fallback_policy),
        format: over(o.format, c.format),
        output_mode: over(o.output_mode, c.output_mode),
        automation_adapter: over_opt(o.automation_adapter, c.automation_adapter),
        exit_policy: over(o.exit_policy, c.exit_policy),
        exit_threshold: over_opt(o.exit_threshold, c.exit_threshold),
        output_file: over_opt(o.output_file, c.output_file),
        case_id: over_opt(o.case_id, c.case_id),
        evidence_bundle_dir: over_opt(o.evidence_bundle_dir, c.evidence_bundle_dir),
        evidence_bundle_archive: over_opt(o.evidence_bundle_archive, c.evidence_bundle_archive),
        baseline_bundle: over_opt(o.baseline_bundle, c.baseline_bundle),
        log_mode: if o.verbose { LogMode::Verbose } else if o.quiet { LogMode::Quiet } else { c.log_mode },
        vitis_config: over_opt(o.vitis_config, c.vitis_config),
        vitis_cache_dir: over_opt(o.vitis_cache_dir, c.vitis_cache_dir),
        vitis_cache_key: over_opt(o.vitis_cache_key, c.vitis_cache_key),
    }
}

/// `s` with the option that set each command-line setting recorded.
#[verifier::opaque]
pub open spec fn cli_source_overlay(s: SourcesView, o: CliView) -> SourcesView {
    SourcesView {
        task: s.task,
        live: if o.dry_run { "cli --dry-run"@ } else if o.live { "cli --live"@ } else { s.live },
        live_fallback_policy: if o.live_fallback_policy is Some { "cli --live-fallback-policy"@ } else { s.live_fallback_policy },
        model: if o.model is Some { "cli --model"@ } else { s.model },
        tokenizer: if o.tokenizer is Some { "cli --tokenizer"@ } else { s.tokenizer },
        max_steps: if o.max_steps is Some { "cli --max-steps"@ } else { s.max_steps },
        max_new_tokens: if o.max_new_tokens is Some { "cli --max-new-tokens"@ } else { s.max_new_tokens },
        temperature: if o.temperature is Some { "cli --temperature"@ } else { s.temperature },
        format: if o.format is Some { "cli --format"@ } else { s.format },
        output_mode: if o.output_mode is Some { "cli --output-mode"@ } else { s.output_mode },
        automation_adapter: if o.automation_adapter is Some { "cli --automation-adapter"@ } else { s.automation_adapter },
        exit_policy: if o.exit_policy is Some { "cli --exit-policy"@ } else { s.exit_policy },
        exit_threshold: if o.exit_threshold is Some { "cli --exit-threshold"@ } else { s.exit_threshold },
        output_file: if o.output_file is Some { "cli --output-file"@ } else { s.output_file },
        case_id: if o.case_id is Some { "cli --case-id"@ } else { s.case_id },
        evidence_bundle_dir: if o.evidence_bundle_dir is Some { "cli --evidence-bundle-dir"@ } else { s.evidence_bundle_dir },
        evidence_bundle_archive: if o.evidence_bundle_archive is Some { "cli --evidence-bundle-archive"@ } else { s.evidence_bundle_archive },
        baseline_bundle: if o.baseline_bundle is Some { "cli --baseline-bundle"@ } else { s.baseline_bundle },
        log_mode: if o.verbose { "cli --verbose"@ } else if o.quiet { "cli --quiet"@ } else { s.log_mode },
        vitis_config: if o.vitis_config is Some { "cli --vitis-config"@ } else { s.vitis_config },
        vitis_cache_dir: if o.vitis_cache_dir is Some { "cli --vitis-cache-dir"@ } else { s.vitis_cache_dir },
        vitis_cache_key: if o.vitis_cache_key is Some { "cli --vitis-cache-key"@ } else { s.vitis_cache_key },
    }
}

/// Applies the command line's settings (see [`cli_overlay`]).
pub fn apply_cli_overrides(runtime: &mut RuntimeConfig, cli: &CliSettings)
    ensures
        final(runtime)@ == cli_overlay(old(runtime)@, cli@),
{
    proof {
        reveal(cli_overlay);
    }
    runtime.model = pick_string(&cli.model, &runtime.model);
    runtime.tokenizer = pick_opt_string(&cli.tokenizer, &runtime.tokenizer);
    runtime.max_steps = pick(cli.max_steps, runtime.max_steps);
    runtime.max_new_tokens = pick(cli.max_new_tokens, runtime.max_new_tokens);
    runtime.temperature = pick(cli.temperature, runtime.temperature);
    runtime.live = cli_live(cli.live, cli.dry_run, runtime.live);
    runtime.live_fallback_policy = pick(cli.live_fallback_policy, runtime.live_fallback_policy);
    runtime.format = pick(cli.format, runtime.format);
    runtime.output_mode = pick(cli.output_mode, runtime.output_mode);
    runtime.automation_adapter = pick_opt(cli.automation_adapter, runtime.automation_adapter);
    runtime.exit_policy = pick(cli.exit_policy, runtime.exit_policy);
    runtime.exit_threshold = pick_opt(cli.exit_threshold, runtime.exit_threshold);
    runtime.output_file = pick_opt_string(&cli.output_file, &runtime.output_file);
    runtime.case_id = pick_opt_string(&cli.case_id, &runtime.case_id);
    runtime.evidence_bundle_dir = pick_opt_string(&cli.evidence_bundle_dir, &runtime.evidence_bundle_dir);
    runtime.evidence_bundle_archive = pick_opt_string(&cli.evidence_bundle_archive, &runtime.evidence_bundle_archive);
    runtime.baseline_bundle = pick_opt_string(&cli.baseline_bundle, &runtime.baseline_bundle);
    runtime.log_mode = cli_log_mode(cli.quiet, cli.verbose, runtime.log_mode);
    runtime.vitis_config = pick_opt_string(&cli.vitis_config, &runtime.vitis_config);
    runtime.vitis_cache_dir = pick_opt_string(&cli.vitis_cache_dir, &runtime.vitis_cache_dir);
    runtime.vitis_cache_key = pick_opt_string(&cli.vitis_cache_key, &runtime.vitis_cache_key);
}

fn record_cli_sources(sources: &mut RuntimeConfigSources, cli: &CliSettings)
    ensures
        final(sources)@ == cli_source_overlay(old(sources)@, cli@),
{
    proof {
        reveal(cli_source_overlay);
    }
    sources.model = pick_source(cli.model.is_some(), "cli --model", &sources.model);
    sources.tokenizer = pick_source(cli.tokenizer.is_some(), "cli --tokenizer", &sources.tokenizer);
    sources.max_steps = pick_source(cli.max_steps.is_some(), "cli --max-steps", &sources.max_steps);
    sources.max_new_tokens = pick_source(cli.max_new_tokens.is_some(), "cli --max-new-tokens", &sources.max_new_tokens);
    sources.temperature = pick_source(cli.temperature.is_some(), "cli --temperature", &sources.temperature);
    sources.live = cli_live_source(cli.live, cli.dry_run, &sources.live);
    sources.live_fallback_policy = pick_source(cli.live_fallback_policy.is_some(), "cli --live-fallback-policy", &sources.live_fallback_policy);
    sources.format = pick_source(cli.format.is_some(), "cli --format", &sources.format);
    sources.output_mode = pick_source(cli.output_mode.is_some(), "cli --output-mode", &sources.output_mode);
    sources.automation_adapter = pick_source(cli.automation_adapter.is_some(), "cli --automation-adapter", &sources.automation_adapter);
    sources.exit_policy = pick_source(cli.exit_policy.is_some(), "cli --exit-policy", &sources.exit_policy);
    sources.exit_threshold = pick_source(cli.exit_threshold.is_some(), "cli --exit-threshold", &sources.exit_threshold);
    sources.output_file = pick_source(cli.output_file.is_some(), "cli --output-file", &sources.output_file);
    sources.case_id = pick_source(cli.case_id.is_some(), "cli --case-id", &sources.case_id);
    sources.evidence_bundle_dir = pick_source(cli.evidence_bundle_dir.is_some(), "cli --evidence-bundle-dir", &sources.evidence_bundle_dir);
    sources.evidence_bundle_archive = pick_source(cli.evidence_bundle_archive.is_some(), "cli --evidence-bundle-archive", &sources.evidence_bundle_archive);
    sources.baseline_bundle = pick_source(cli.baseline_bundle.is_some(), "cli --baseline-bundle", &sources.baseline_bundle);
    sources.log_mode = cli_log_source(cli.quiet, cli.verbose, &sources.log_mode);
    sources.vitis_config = pick_source(cli.vitis_config.is_some(), "cli --vitis-config", &sources.vitis_config);
    sources.vitis_cache_dir = pick_source(cli.vitis_cache_dir.is_some(), "cli --vitis-cache-dir", &sources.vitis_cache_dir);
    sources.vitis_cache_key = pick_source(cli.vitis_cache_key.is_some(), "cli --vitis-cache-key", &sources.vitis_cache_key);
}

/// Applies the command line's settings and records the option behind each.
pub fn apply_cli_overrides_with_source(
    runtime: &mut RuntimeConfig,
    sources: &mut RuntimeConfigSources,
    cli: &CliSettings,
)
    ensures
        final(runtime)@ == cli_overlay(old(runtime)@, cli@),
        final(sources)@ == cli_source_overlay(old(sources)@, cli@),
{
    apply_cli_overrides(runtime, cli);
    record_cli_sources(sources, cli);
}
// ---------------------------------------------------------------------------
// Defaults and built-in profiles
// ---------------------------------------------------------------------------

pub const DEFAULT_MAX_STEPS: usize = 8;

pub const DEFAULT_MAX_NEW_TOKENS: usize = 256;

/// `0.2f32.to_bits()`.
pub const DEFAULT_TEMPERATURE_BITS: u32 = 0x3E4C_CCCD;

/// The settings before any layer is applied.
pub open spec fn default_config(task: Seq<char>) -> ConfigView {
    ConfigView {
        task: task,
        model: "./models/llm.onnx"@,
        tokenizer: None,
        max_steps: 8,
        max_new_tokens: 256,
        temperature: 0x3E4C_CCCD,
        live: false,
        live_fallback_policy: LiveFallbackPolicy::Disabled,
        format: OutputFormat::Json,
        output_mode: OutputMode::Compact,
        automation_adapter: None,
        exit_policy: ExitPolicy::Disabled,
        exit_threshold: None,
        output_file: None,
        case_id: None,
        evidence_bundle_dir: None,
        evidence_bundle_archive: None,
        baseline_bundle: None,
        log_mode: LogMode::Normal,
        vitis_config: None,
        vitis_cache_dir: None,
        vitis_cache_key: None,
    }
}

impl RuntimeConfig {
    /// The default settings for a task.
    pub fn new(task: String) -> (r: RuntimeConfig)
        ensures
            r@ == default_config(task@),
    {
        proof {
            reveal_strlit("./models/llm.onnx");
        }
        RuntimeConfig {
            task,
            model: lit("./models/llm.onnx"),
            tokenizer: None,
            max_steps: DEFAULT_MAX_STEPS,
            max_new_tokens: DEFAULT_MAX_NEW_TOKENS,
            temperature: DEFAULT_TEMPERATURE_BITS,
            live: false,
            live_fallback_policy: LiveFallbackPolicy::Disabled,
            format: OutputFormat::Json,
            output_mode: OutputMode::Compact,
            automation_adapter: None,
            exit_policy: ExitPolicy::Disabled,
            exit_threshold: None,
            output_file: None,
            case_id: None,
            evidence_bundle_dir: None,
            evidence_bundle_archive: None,
            baseline_bundle: None,
            log_mode: LogMode::Normal,
            vitis_config: None,
            vitis_cache_dir: None,
            vitis_cache_key: None,
        }
    }
}

/// A profile's fragment: step and token budgets, temperature, format, live mode and,
/// for some, a fallback policy; nothing else.
pub open spec fn profile_fragment(
    steps: usize,
    tokens: usize,
    temperature: u32,
    format: OutputFormat,
    live: bool,
    fallback: Option<LiveFallbackPolicy>,
) -> FragmentView {
    FragmentView {
        model: None,
        tokenizer: None,
        max_steps: Some(steps),
        max_new_tokens: Some(tokens),
        temperature: Some(temperature),
        live: Some(live),
        live_fallback_policy: fallback,
        format: Some(format),
        output_mode: None,
        automation_adapter: None,
        exit_policy: None,
        exit_threshold: None,
        output_file: None,
        case_id: None,
        evidence_bundle_dir: None,
        evidence_bundle_archive: None,
        baseline_bundle: None,
        log: None,
        vitis_config: None,
        vitis_cache_dir: None,
        vitis_cache_key: None,
    }
}

/// The names of the built-in profiles.
pub open spec fn known_profile_names() -> Seq<Seq<char>> {
    seq!["local-lab"@, "production-triage"@, "live-model"@, "live-fast"@, "live-balanced"@, "live-deep"@]
}

/// The built-in profile of a name, matched in any ASCII case.  Temperatures are `f32`
/// bit patterns: 0.1, 0.15, 0.2 and 0.25.
pub open spec fn builtin_profile_spec(name: Seq<char>) -> Option<FragmentView> {
    let n = ascii_lower(name);
    if n == "local-lab"@ {
        Some(profile_fragment(6, 192, 0x3DCC_CCCD, OutputFormat::Summary, false, None))
    } else if n == "production-triage"@ {
        Some(profile_fragment(12, 320, 0x3E19_999A, OutputFormat::Markdown, false, None))
    } else if n == "live-model"@ {
        Some(profile_fragment(10, 512, 0x3E4C_CCCD, OutputFormat::Json, true, None))
    } else if n == "live-fast"@ {
        Some(profile_fragment(6, 256, 0x3DCC_CCCD, OutputFormat::Json, true, Some(LiveFallbackPolicy::DryRunOnError)))
    } else if n == "live-balanced"@ {
        Some(profile_fragment(10, 512, 0x3E4C_CCCD, OutputFormat::Json, true, Some(LiveFallbackPolicy::DryRunOnError)))
    } else if n == "live-deep"@ {
        Some(profile_fragment(16, 768, 0x3E80_0000, OutputFormat::Json, true, Some(LiveFallbackPolicy::DryRunOnError)))
    } else {
        None
    }
}

fn make_profile(
    steps: usize,
    tokens: usize,
    temperature: u32,
    format: OutputFormat,
    live: bool,
    fallback: Option<LiveFallbackPolicy>,
) -> (r: SettingsFragment)
    ensures
        r@ == profile_fragment(steps, tokens, temperature, format, live, fallback),
{
    SettingsFragment {
        model: None,
        tokenizer: None,
        max_steps: Some(steps),
        max_new_tokens: Some(tokens),
        temperature: Some(temperature),
        live: Some(live),
        live_fallback_policy: fallback,
        format: Some(format),
        output_mode: None,
        automation_adapter: None,
        exit_policy: None,
        exit_threshold: None,
        output_file: None,
        case_id: None,
        evidence_bundle_dir: None,
        evidence_bundle_archive: None,
        baseline_bundle: None,
        log: None,
        vitis_config: None,
        vitis_cache_dir: None,
        vitis_cache_key: None,
    }
}

/// The built-in profile of a name (see [`builtin_profile_spec`]).
pub fn builtin_profile(name: &str) -> (r: Option<SettingsFragment>)
    ensures
        match r {
            Some(f) => builtin_profile_spec(name@) == Some(f@),
            None => builtin_profile_spec(name@) is None,
        },
{
    proof {
        reveal_strlit("local-lab");
        reveal_strlit("production-triage");
        reveal_strlit("live-model");
        reveal_strlit("live-fast");
        reveal_strlit("live-balanced");
        reveal_strlit("live-deep");
    }
    let n = to_ascii_lower(&chars_of(name));
    if crate::text::chars_eq_str(&n, "local-lab") {
        Some(make_profile(6, 192, 0x3DCC_CCCD, OutputFormat::Summary, false, None))
    } else if crate::text::chars_eq_str(&n, "production-triage") {
        Some(make_profile(12, 320, 0x3E19_999A, OutputFormat::Markdown, false, None))
    } else if crate::text::chars_eq_str(&n, "live-model") {
        Some(make_profile(10, 512, 0x3E4C_CCCD, OutputFormat::Json, true, None))
    } else if crate::text::chars_eq_str(&n, "live-fast") {
        Some(make_profile(6, 256, 0x3DCC_CCCD, OutputFormat::Json, true, Some(LiveFallbackPolicy::DryRunOnError)))
    } else if crate::text::chars_eq_str(&n, "live-balanced") {
        Some(make_profile(10, 512, 0x3E4C_CCCD, OutputFormat::Json, true, Some(LiveFallbackPolicy::DryRunOnError)))
    } else if crate::text::chars_eq_str(&n, "live-deep") {
        Some(make_profile(16, 768, 0x3E80_0000, OutputFormat::Json, true, Some(LiveFallbackPolicy::DryRunOnError)))
    } else {
        None
    }
}
// ---------------------------------------------------------------------------
// Config files and layering
// ---------------------------------------------------------------------------

/// A config file: its default settings and its named profiles.
#[derive(Debug)]
pub struct FileConfig {
    pub defaults: SettingsFragment,
    pub profiles: Vec<(String, SettingsFragment)>,
}

/// The first profile whose name equals `name`, or else the first whose name equals it
/// ignoring ASCII case.
pub open spec fn profile_index(ps: Seq<(String, SettingsFragment)>, name: Seq<char>) -> Option<int> {
    match first_named(ps, name, false) {
        Some(i) => Some(i),
        None => first_named(ps, name, true),
    }
}

/// The first entry named `name` (ignoring ASCII case when `fold` holds).
pub open spec fn first_named(ps: Seq<(String, SettingsFragment)>, name: Seq<char>, fold: bool) -> Option<int>
    decreases ps.len(),
{
    if ps.len() == 0 {
        None
    } else {
        match first_named(ps.drop_last(), name, fold) {
            Some(i) => Some(i),
            None => if name_matches(ps.last().0@, name, fold) {
                Some(ps.len() - 1)
            } else {
                None
            },
        }
    }
}

pub open spec fn name_matches(key: Seq<char>, name: Seq<char>, fold: bool) -> bool {
    if fold {
        ascii_lower(key) == ascii_lower(name)
    } else {
        key == name
    }
}

proof fn lemma_first_named_prefix(ps: Seq<(String, SettingsFragment)>, name: Seq<char>, fold: bool, n: int, i: int)
    requires
        0 <= n <= ps.len(),
        first_named(ps.take(n), name, fold) == Some(i),
    ensures
        first_named(ps, name, fold) == Some(i),
    decreases ps.len() - n,
{
    if n == ps.len() {
        assert(ps.take(n) =~= ps);
    } else {
        assert(ps.take(n + 1).drop_last() =~= ps.take(n));
        lemma_first_named_prefix(ps, name, fold, n + 1, i);
    }
}

fn find_named(ps: &Vec<(String, SettingsFragment)>, name: &str, fold: bool) -> (r: Option<usize>)
    ensures
        match r {
            Some(i) => first_named(ps@, name@, fold) == Some(i as int) && i < ps@.len(),
            None => first_named(ps@, name@, fold) is None,
        },
{
    let target = chars_of(name);
    let low = to_ascii_lower(&target);
    let mut i: usize = 0;
    assert(ps@.take(0) =~= Seq::<(String, SettingsFragment)>::empty());
    while i < ps.len()
        invariant
            i <= ps@.len(),
            target@ == name@,
            low@ == ascii_lower(name@),
            first_named(ps@.take(i as int), name@, fold) is None,
        decreases ps@.len() - i,
    {
        assert(ps@.take(i + 1).drop_last() =~= ps@.take(i as int));
        assert(ps@.take(i + 1).last() == ps@[i as int]);
        let key = chars_of(ps[i].0.as_str());
        let hit = if fold {
            chars_eq(&to_ascii_lower(&key), &low)
        } else {
            chars_eq(&key, &target)
        };
        if hit {
            proof {
                lemma_first_named_prefix(ps@, name@, fold, i as int + 1, i as int);
            }
            return Some(i);
        }
        i = i + 1;
    }
    assert(ps@.take(ps@.len() as int) =~= ps@);
    None
}

/// The profile of a name in a config file (see [`profile_index`]).
pub fn lookup_profile<'a>(profiles: &'a Vec<(String, SettingsFragment)>, name: &str) -> (r: Option<&'a SettingsFragment>)
    ensures
        match profile_index(profiles@, name@) {
            Some(i) => 0 <= i < profiles@.len() && r == Some(&profiles@[i].1),
            None => r is None,
        },
{
    match find_named(profiles, name, false) {
        Some(i) => Some(&profiles[i].1),
        None => match find_named(profiles, name, true) {
            Some(i) => Some(&profiles[i].1),
            None => None,
        },
    }
}

/// A profile name from the command line or the environment: trimmed, and refused when
/// nothing is left.
pub fn normalize_profile_name(profile: &str, source: &str) -> (r: Result<Option<String>, String>)
    ensures
        if trim(profile@).len() == 0 {
            r matches Err(e) && e@ == source@ + " cannot be empty"@
        } else {
            r matches Ok(Some(p)) && p@ == trim(profile@)
        },
{
    let t = trim_str(profile);
    if t.len() == 0 {
        let mut msg = chars_of(source);
        push_str(&mut msg, " cannot be empty");
        return Err(string_of(&msg));
    }
    Ok(Some(string_of(&t)))
}

/// `c` with `f` applied when there is one.
pub open spec fn overlay_opt(c: ConfigView, f: Option<FragmentView>) -> ConfigView {
    match f {
        Some(v) => overlay(c, v),
        None => c,
    }
}

pub open spec fn source_overlay_opt(s: SourcesView, f: Option<FragmentView>, source: Seq<char>) -> SourcesView {
    match f {
        Some(v) => source_overlay(s, v, source),
        None => s,
    }
}

/// The built-in profile a run asked for, if it names one.
pub open spec fn builtin_layer(profile: Option<Seq<char>>) -> Option<FragmentView> {
    match profile {
        Some(p) => builtin_profile_spec(p),
        None => None,
    }
}

/// The config file's profile a run asked for, if the file holds one of that name.
pub open spec fn file_profile_layer(fc: Option<FileConfig>, profile: Option<Seq<char>>) -> Option<FragmentView> {
    match (fc, profile) {
        (Some(c), Some(p)) => match profile_index(c.profiles@, p) {
            Some(i) => Some(c.profiles@[i].1@),
            None => None,
        },
        _ => None,
    }
}

pub open spec fn file_defaults_layer(fc: Option<FileConfig>) -> Option<FragmentView> {
    match fc {
        Some(c) => Some(c.defaults@),
        None => None,
    }
}

/// The settings of a run: the defaults, then the built-in profile, the config file's
/// defaults, the config file's profile, the environment and the command line.
pub open spec fn layered_config(
    task: Seq<char>,
    cli: CliView,
    profile: Option<Seq<char>>,
    fc: Option<FileConfig>,
    env: FragmentView,
) -> ConfigView {
    cli_overlay(
        overlay(
            overlay_opt(
                overlay_opt(overlay_opt(default_config(task), builtin_layer(profile)), file_defaults_layer(fc)),
                file_profile_layer(fc, profile),
            ),
            env,
        ),
        cli,
    )
}

pub open spec fn fc_of(o: Option<&FileConfig>) -> Option<FileConfig> {
    match o {
        Some(c) => Some(*c),
        None => None,
    }
}

pub open spec fn opt_text(o: Option<&str>) -> Option<Seq<char>> {
    match o {
        Some(s) => Some(s@),
        None => None,
    }
}

pub open spec fn defaults_label_spec(path: Option<Seq<char>>) -> Seq<char> {
    match path {
        Some(q) => "config defaults ("@ + q + ")"@,
        None => "config defaults"@,
    }
}

pub open spec fn profile_label_spec(p: Seq<char>, path: Option<Seq<char>>) -> Seq<char> {
    match path {
        Some(q) => "config profile '"@ + p + "' ("@ + q + ")"@,
        None => "config profile '"@ + p + "'"@,
    }
}

/// Where each layered setting came from.
pub open spec fn layered_sources(
    task_source: Seq<char>,
    cli: CliView,
    profile: Option<Seq<char>>,
    fc: Option<FileConfig>,
    path: Option<Seq<char>>,
    env: FragmentView,
) -> SourcesView {
    let p = match profile {
        Some(p) => p,
        None => seq![],
    };
    let defaults_label = defaults_label_spec(path);
    let profile_label = profile_label_spec(p, path);
    cli_source_overlay(
        source_overlay(
            source_overlay_opt(
                source_overlay_opt(
                    source_overlay_opt(
                        default_sources(task_source),
                        builtin_layer(profile),
                        "built-in profile '"@ + p + "'"@,
                    ),
                    file_defaults_layer(fc),
                    defaults_label,
                ),
                file_profile_layer(fc, profile),
                profile_label,
            ),
            env,
            "environment variables"@,
        ),
        cli,
    )
}

/// The message for a profile found neither built in nor in the config file.
pub open spec fn unknown_profile_message(p: Seq<char>, path: Option<Seq<char>>) -> Seq<char> {
    let known = "local-lab, production-triage, live-model, live-fast, live-balanced, live-deep"@;
    match path {
        Some(q) => "Profile '"@ + p + "' was not found in built-in profiles ("@ + known + ") or in config '"@ + q
            + "'."@,
        None => "Profile '"@ + p + "' was not found in built-in profiles ("@ + known
            + "), and no config file was loaded."@,
    }
}

/// The profile a run asked for exists nowhere.
pub open spec fn profile_missing(profile: Option<Seq<char>>, fc: Option<FileConfig>) -> bool {
    profile is Some && builtin_layer(profile) is None && file_profile_layer(fc, profile) is None
}

/// Every setting from its default, the task from `task_source`.
pub open spec fn default_sources(task_source: Seq<char>) -> SourcesView {
    SourcesView {
        task: task_source,
        live: "default"@,
        live_fallback_policy: "default"@,
        model: "default"@,
        tokenizer: "default"@,
        max_steps: "default"@,
        max_new_tokens: "default"@,
        temperature: "default"@,
        format: "default"@,
        output_mode: "default"@,
        automation_adapter: "default"@,
        exit_policy: "default"@,
        exit_threshold: "default"@,
        output_file: "default"@,
        case_id: "default"@,
        evidence_bundle_dir: "default"@,
        evidence_bundle_archive: "default"@,
        baseline_bundle: "default"@,
        log_mode: "default"@,
        vitis_config: "default"@,
        vitis_cache_dir: "default"@,
        vitis_cache_key: "default"@,
    }
}

fn apply_optional(
    runtime: &mut RuntimeConfig,
    sources: &mut RuntimeConfigSources,
    fragment: Option<&SettingsFragment>,
    source: &str,
)
    ensures
        final(runtime)@ == overlay_opt(old(runtime)@, match fragment {
            Some(f) => Some(f@),
            None => None,
        }),
        final(sources)@ == source_overlay_opt(old(sources)@, match fragment {
            Some(f) => Some(f@),
            None => None,
        }, source@),
{
    match fragment {
        Some(f) => apply_fragment_with_source(runtime, sources, f, source),
        None => {},
    }
}

fn quoted_label(prefix: &str, name: &str, path: Option<&str>) -> (r: String)
    ensures
        r@ == match path {
            Some(q) => prefix@ + name@ + "' ("@ + q@ + ")"@,
            None => prefix@ + name@ + "'"@,
        },
{
    let mut out = chars_of(prefix);
    push_str(&mut out, name);
    match path {
        Some(q) => {
            push_str(&mut out, "' (");
            push_str(&mut out, q);
            push_str(&mut out, ")");
        },
        None => push_str(&mut out, "'"),
    }
    string_of(&out)
}

fn unknown_profile_error(p: &str, path: Option<&str>) -> (r: String)
    ensures
        r@ == unknown_profile_message(p@, opt_text(path)),
{
    let mut out = chars_of("Profile '");
    push_str(&mut out, p);
    push_str(&mut out, "' was not found in built-in profiles (");
    push_str(&mut out, "local-lab, production-triage, live-model, live-fast, live-balanced, live-deep");
    match path {
        Some(q) => {
            push_str(&mut out, ") or in config '");
            push_str(&mut out, q);
            push_str(&mut out, "'.");
        },
        None => push_str(&mut out, "), and no config file was loaded."),
    }
    string_of(&out)
}

fn apply_file_layers(
    resolved: &mut RuntimeConfig,
    sources: &mut RuntimeConfigSources,
    fc: &FileConfig,
    profile: &Option<String>,
    file_config_path: Option<&str>,
) -> (matched: bool)
    ensures
        matched == file_profile_layer(Some(*fc), opt_view(*profile)) is Some,
        final(resolved)@ == overlay_opt(
            overlay(old(resolved)@, fc.defaults@),
            file_profile_layer(Some(*fc), opt_view(*profile)),
        ),
        final(sources)@ == source_overlay_opt(
            source_overlay(old(sources)@, fc.defaults@, defaults_label_spec(opt_text(file_config_path))),
            file_profile_layer(Some(*fc), opt_view(*profile)),
            profile_label_spec(
                match opt_view(*profile) {
                    Some(p) => p,
                    None => Seq::<char>::empty(),
                },
                opt_text(file_config_path),
            ),
        ),
{
    let defaults_label = match file_config_path {
        Some(q) => {
            let mut out = chars_of("config defaults (");
            push_str(&mut out, q);
            push_str(&mut out, ")");
            string_of(&out)
        },
        None => lit("config defaults"),
    };
    apply_fragment_with_source(resolved, sources, &fc.defaults, defaults_label.as_str());
    match profile {
        Some(p) => {
            let found = lookup_profile(&fc.profiles, p.as_str());
            let profile_label = quoted_label("config profile '", p.as_str(), file_config_path);
            apply_optional(resolved, sources, found, profile_label.as_str());
            found.is_some()
        },
        None => false,
    }
}

/// Layers a run's settings and records where each came from (see [`layered_config`]
/// and [`layered_sources`]); fails when the profile asked for exists nowhere.  The
/// result still has to pass [`validate_runtime_config`].
#[verifier::spinoff_prover]
#[verifier::rlimit(40)]
pub fn layer_settings_with_explanation(
    cli: &CliSettings,
    task: String,
    task_source: &str,
    profile: Option<String>,
    file_config: Option<&FileConfig>,
    file_config_path: Option<&str>,
    env_overrides: &SettingsFragment,
) -> (r: Result<(RuntimeConfig, RuntimeConfigSources), String>)
    ensures
        if profile_missing(opt_view(profile), fc_of(file_config)) {
            r matches Err(e) && e@ == unknown_profile_message(opt_view(profile)->0, opt_text(file_config_path))
        } else {
            r matches Ok((c, s)) && c@ == layered_config(
            task@,
            cli@,
            opt_view(profile),
            fc_of(file_config),
            env_overrides@,
        ) && s@ == layered_sources(
            task_source@,
            cli@,
            opt_view(profile),
            fc_of(file_config),
            opt_text(file_config_path),
            env_overrides@,
        )
        },
{
    let ghost fc = match file_config {
        Some(c) => Some(*c),
        None => None,
    };
    let ghost pv = opt_view(profile);
    let ghost path = opt_text(file_config_path);
    let mut resolved = RuntimeConfig::new(task);
    let mut sources = RuntimeConfigSources::with_defaults(task_source);
    proof {
        reveal_strlit("");
    }
    let pname: &str = match &profile {
        Some(p) => p.as_str(),
        None => "",
    };
    assert(pname@ == match pv {
        Some(p) => p,
        None => Seq::<char>::empty(),
    });
    let built_in = match &profile {
        Some(p) => builtin_profile(p.as_str()),
        None => None,
    };
    assert(match built_in {
        Some(f) => builtin_layer(pv) == Some(f@),
        None => builtin_layer(pv) is None,
    });
    let builtin_label = quoted_label("built-in profile '", pname, None);
    apply_optional(&mut resolved, &mut sources, built_in.as_ref(), builtin_label.as_str());
    let matched_file_profile = match file_config {
        Some(fcv) => apply_file_layers(&mut resolved, &mut sources, fcv, &profile, file_config_path),
        None => false,
    };
    assert(matched_file_profile == file_profile_layer(fc, pv) is Some);
    if profile.is_some() && built_in.is_none() && !matched_file_profile {
        return Err(unknown_profile_error(pname, file_config_path));
    }
    apply_fragment_with_source(&mut resolved, &mut sources, env_overrides, "environment variables");
    apply_cli_overrides_with_source(&mut resolved, &mut sources, cli);
    Ok((resolved, sources))
}

/// Layers a run's settings (see [`layered_config`]); fails when the profile asked for
/// exists nowhere.  The result still has to pass [`validate_runtime_config`].
pub fn layer_settings(
    cli: &CliSettings,
    task: String,
    profile: Option<String>,
    file_config: Option<&FileConfig>,
    file_config_path: Option<&str>,
    env_overrides: &SettingsFragment,
) -> (r: Result<RuntimeConfig, String>)
    ensures
        if profile_missing(opt_view(profile), fc_of(file_config)) {
            r matches Err(e) && e@ == unknown_profile_message(opt_view(profile)->0, opt_text(file_config_path))
        } else {
            r matches Ok(c) && c@ == layered_config(
            task@,
            cli@,
            opt_view(profile),
            fc_of(file_config),
            env_overrides@,
        )
        },
{
    match layer_settings_with_explanation(cli, task, "", profile, file_config, file_config_path, env_overrides) {
        Ok((c, _)) => Ok(c),
        Err(e) => Err(e),
    }
}
// ---------------------------------------------------------------------------
// Validation
// ---------------------------------------------------------------------------

/// What a path names on disk.
#[derive(Clone, Copy, Debug, PartialEq, Eq, Structural)]
pub enum PathKind {
    Directory,
    File,
    Missing,
}

/// A temperature bit pattern that is not NaN and lies in `0.0..=2.0` (for such `f32`
/// values the bit patterns are ordered as the values; `-0.0` counts as zero).
pub open spec fn temperature_ok(bits: u32) -> bool {
    bits <= 0x4000_0000 || bits == 0x8000_0000
}

/// What is wrong with a baseline bundle path, if anything: a directory is accepted,
/// and so is a file named `raw_observations.json` in any ASCII case.
pub open spec fn baseline_error(path: Seq<char>, kind: PathKind) -> Option<Seq<char>> {
    match kind {
        PathKind::Directory => None,
        PathKind::File => if ascii_lower(last_segment(path)) == "raw_observations.json"@ {
            None
        } else {
            Some("baseline_bundle file must be named raw_observations.json (got '"@ + path + "')"@)
        },
        PathKind::Missing => Some("baseline_bundle path '"@ + path + "' does not exist or is not accessible"@),
    }
}

/// Checks a baseline bundle path of the given kind (see [`baseline_error`]).
pub fn validate_baseline_bundle_path(path: &str, kind: PathKind) -> (r: Result<(), String>)
    ensures
        match baseline_error(path@, kind) {
            Some(m) => r matches Err(e) && e@ == m,
            None => r is Ok,
        },
{
    match kind {
        PathKind::Directory => Ok(()),
        PathKind::File => {
            let name = crate::plugin::last_segment_chars(&chars_of(path));
            if eq_ignore_ascii_case(&name, &chars_of("raw_observations.json")) {
                proof {
                    reveal_strlit("raw_observations.json");
                    assert(ascii_lower(name@) == ascii_lower("raw_observations.json"@));
                    assert(ascii_lower("raw_observations.json"@) =~= "raw_observations.json"@);
                }
                Ok(())
            } else {
                proof {
                    reveal_strlit("raw_observations.json");
                    assert(ascii_lower("raw_observations.json"@) =~= "raw_observations.json"@);
                }
                let mut msg = chars_of("baseline_bundle file must be named raw_observations.json (got '");
                push_str(&mut msg, path);
                push_str(&mut msg, "')");
                Err(string_of(&msg))
            }
        },
        PathKind::Missing => {
            let mut msg = chars_of("baseline_bundle path '");
            push_str(&mut msg, path);
            push_str(&mut msg, "' does not exist or is not accessible");
            Err(string_of(&msg))
        },
    }
}

/// The first problem with a run's settings, checked in this order: the step and token
/// budgets, the temperature, the adapter's format, the exit threshold's policy, the
/// case identifier and the baseline bundle (whose path is of kind `kind`).
pub open spec fn config_error(c: ConfigView, kind: PathKind) -> Option<Seq<char>> {
    if c.max_steps == 0 {
        Some("max_steps must be at least 1"@)
    } else if c.max_new_tokens == 0 {
        Some("max_new_tokens must be at least 1"@)
    } else if !temperature_ok(c.temperature) {
        Some("temperature must be between 0.0 and 2.0"@)
    } else if c.automation_adapter is Some && c.format != OutputFormat::Json {
        Some("automation_adapter requires JSON output format (--format json)"@)
    } else if c.exit_policy == ExitPolicy::Disabled && c.exit_threshold is Some {
        Some("exit_threshold requires exit_policy=severity-threshold"@)
    } else if c.case_id is Some && crate::cli::case_id_spec(c.case_id->0) is Err {
        Some(crate::cli::case_id_spec(c.case_id->0)->Err_0)
    } else if c.baseline_bundle is Some {
        baseline_error(c.baseline_bundle->0, kind)
    } else {
        None
    }
}

/// Checks a run's settings (see [`config_error`]); `baseline_kind` is what the
/// baseline bundle path, when there is one, names on disk.
pub fn validate_runtime_config(config: &RuntimeConfig, baseline_kind: PathKind) -> (r: Result<(), String>)
    ensures
        match config_error(config@, baseline_kind) {
            Some(m) => r matches Err(e) && e@ == m,
            None => r is Ok,
        },
{
    if config.max_steps == 0 {
        return Err(lit("max_steps must be at least 1"));
    }
    if config.max_new_tokens == 0 {
        return Err(lit("max_new_tokens must be at least 1"));
    }
    if !(config.temperature <= 0x4000_0000 || config.temperature == 0x8000_0000) {
        return Err(lit("temperature must be between 0.0 and 2.0"));
    }
    if config.automation_adapter.is_some() && config.format != OutputFormat::Json {
        return Err(lit("automation_adapter requires JSON output format (--format json)"));
    }
    if config.exit_policy == ExitPolicy::Disabled && config.exit_threshold.is_some() {
        return Err(lit("exit_threshold requires exit_policy=severity-threshold"));
    }
    match &config.case_id {
        Some(id) => match validate_case_id(id.as_str()) {
            Ok(()) => {},
            Err(e) => return Err(e),
        },
        None => {},
    }
    match &config.baseline_bundle {
        Some(p) => validate_baseline_bundle_path(p.as_str(), baseline_kind),
        None => Ok(()),
    }
}

// ---------------------------------------------------------------------------
// Precedence
// ---------------------------------------------------------------------------

/// A fragment that sets nothing.
pub open spec fn empty_fragment() -> FragmentView {
    FragmentView {
        model: None,
        tokenizer: None,
        max_steps: None,
        max_new_tokens: None,
        temperature: None,
        live: None,
        live_fallback_policy: None,
        format: None,
        output_mode: None,
        automation_adapter: None,
        exit_policy: None,
        exit_threshold: None,
        output_file: None,
        case_id: None,
        evidence_bundle_dir: None,
        evidence_bundle_archive: None,
        baseline_bundle: None,
        log: None,
        vitis_config: None,
        vitis_cache_dir: None,
        vitis_cache_key: None,
    }
}

pub open spec fn layer_or_empty(o: Option<FragmentView>) -> FragmentView {
    match o {
        Some(f) => f,
        None => empty_fragment(),
    }
}

/// Each setting of a run comes from the command line when given there, else from the
/// environment, else from the config file's profile, else from the config file's
/// defaults, else from the built-in profile, else it keeps its default; `--dry-run`
/// wins over `--live` and `--verbose` over `--quiet`.
pub proof fn lemma_settings_precedence(
    task: Seq<char>,
    cli: CliView,
    profile: Option<Seq<char>>,
    fc: Option<FileConfig>,
    env: FragmentView,
)
    ensures
        ({
            let r = layered_config(task, cli, profile, fc, env);
            let d = default_config(task);
            let b = layer_or_empty(builtin_layer(profile));
            let fd = layer_or_empty(file_defaults_layer(fc));
            let fp = layer_or_empty(file_profile_layer(fc, profile));
            &&& r.task == task
            &&& r.model == over(cli.model, over(env.model, over(fp.model, over(fd.model, over(b.model, d.model)))))
            &&& r.tokenizer == over_opt(cli.tokenizer, over_opt(env.tokenizer, over_opt(fp.tokenizer, over_opt(fd.tokenizer, over_opt(b.tokenizer, d.tokenizer)))))
            &&& r.max_steps == over(cli.max_steps, over(env.max_steps, over(fp.max_steps, over(fd.max_steps, over(b.max_steps, d.max_steps)))))
            &&& r.max_new_tokens == over(cli.max_new_tokens, over(env.max_new_tokens, over(fp.max_new_tokens, over(fd.max_new_tokens, over(b.max_new_tokens, d.max_new_tokens)))))
            &&& r.temperature == over(cli.temperature, over(env.temperature, over(fp.temperature, over(fd.temperature, over(b.temperature, d.temperature)))))
            &&& r.live == if cli.dry_run { false } else if cli.live { true } else { over(env.live, over(fp.live, over(fd.live, over(b.live, d.live)))) }
            &&& r.live_fallback_policy == over(cli.live_fallback_policy, over(env.live_fallback_policy, over(fp.live_fallback_policy, over(fd.live_fallback_policy, over(b.live_fallback_policy, d.live_fallback_policy)))))
            &&& r.format == over(cli.format, over(env.format, over(fp.format, over(fd.format, over(b.format, d.format)))))
            &&& r.output_mode == over(cli.output_mode, over(env.output_mode, over(fp.output_mode, over(fd.output_mode, over(b.output_mode, d.output_mode)))))
            &&& r.automation_adapter == over_opt(cli.automation_adapter, over_opt(env.automation_adapter, over_opt(fp.automation_adapter, over_opt(fd.automation_adapter, over_opt(b.automation_adapter, d.automation_adapter)))))
            &&& r.exit_policy == over(cli.exit_policy, over(env.exit_policy, over(fp.exit_policy, over(fd.exit_policy, over(b.exit_policy, d.exit_policy)))))
            &&& r.exit_threshold == over_opt(cli.exit_threshold, over_opt(env.exit_threshold, over_opt(fp.exit_threshold, over_opt(fd.exit_threshold, over_opt(b.exit_threshold, d.exit_threshold)))))
            &&& r.output_file == over_opt(cli.output_file, over_opt(env.output_file, over_opt(fp.output_file, over_opt(fd.output_file, over_opt(b.output_file, d.output_file)))))
            &&& r.case_id == over_opt(cli.case_id, over_opt(env.case_id, over_opt(fp.case_id, over_opt(fd.case_id, over_opt(b.case_id, d.case_id)))))
            &&& r.evidence_bundle_dir == over_opt(cli.evidence_bundle_dir, over_opt(env.evidence_bundle_dir, over_opt(fp.evidence_bundle_dir, over_opt(fd.evidence_bundle_dir, over_opt(b.evidence_bundle_dir, d.evidence_bundle_dir)))))
            &&& r.evidence_bundle_archive == over_opt(cli.evidence_bundle_archive, over_opt(env.evidence_bundle_archive, over_opt(fp.evidence_bundle_archive, over_opt(fd.evidence_bundle_archive, over_opt(b.evidence_bundle_archive, d.evidence_bundle_archive)))))
            &&& r.baseline_bundle == over_opt(cli.baseline_bundle, over_opt(env.baseline_bundle, over_opt(fp.baseline_bundle, over_opt(fd.baseline_bundle, over_opt(b.baseline_bundle, d.baseline_bundle)))))
            &&& r.log_mode == if cli.verbose { LogMode::Verbose } else if cli.quiet { LogMode::Quiet } else { over(env.log, over(fp.log, over(fd.log, over(b.log, d.log_mode)))) }
            &&& r.vitis_config == over_opt(cli.vitis_config, over_opt(env.vitis_config, over_opt(fp.vitis_config, over_opt(fd.vitis_config, over_opt(b.vitis_config, d.vitis_config)))))
            &&& r.vitis_cache_dir == over_opt(cli.vitis_cache_dir, over_opt(env.vitis_cache_dir, over_opt(fp.vitis_cache_dir, over_opt(fd.vitis_cache_dir, over_opt(b.vitis_cache_dir, d.vitis_cache_dir)))))
            &&& r.vitis_cache_key == over_opt(cli.vitis_cache_key, over_opt(env.vitis_cache_key, over_opt(fp.vitis_cache_key, over_opt(fd.vitis_cache_key, over_opt(b.vitis_cache_key, d.vitis_cache_key)))))
        }),
{
    reveal(overlay);
    reveal(cli_overlay);
}

/// An environment variable as the process reads it.
pub enum EnvVar {
    NotPresent,
    NotUnicode,
    Present(String),
}

/// The setting an environment variable gives: none when unset; its trimmed value when
/// set; an error when it is set but blank, or not Unicode.
pub fn env_setting(name: &str, var: EnvVar) -> (r: Result<Option<String>, String>)
    ensures
        match var {
            EnvVar::NotPresent => r == Ok::<Option<String>, String>(None),
            EnvVar::NotUnicode => r matches Err(e) && e@ == name@ + " contains non-Unicode data"@,
            EnvVar::Present(v) => if crate::text::trim(v@).len() == 0 {
                r matches Err(e) && e@ == name@ + " is set but empty"@
            } else {
                r matches Ok(Some(t)) && t@ == crate::text::trim(v@)
            },
        },
{
    match var {
        EnvVar::NotPresent => Ok(None),
        EnvVar::NotUnicode => {
            let mut e = chars_of(name);
            crate::text::push_str(&mut e, " contains non-Unicode data");
            Err(string_of(&e))
        },
        EnvVar::Present(v) => {
            let t = crate::text::trim_str(v.as_str());
            if t.len() == 0 {
                let mut e = chars_of(name);
                crate::text::push_str(&mut e, " is set but empty");
                Err(string_of(&e))
            } else {
                Ok(Some(string_of(&t)))
            }
        },
    }
}

/// The built-in profiles, matched in any ASCII case: local-lab (6 steps, 192 tokens,
/// summary output), production-triage (12 steps, 320 tokens, markdown output),
/// live-model (10, 512, JSON, live), live-fast (6, 256), live-balanced (10, 512) and
/// live-deep (16, 768), the last three live with fallback to a dry run; all dry-run
/// profiles leave the fallback policy alone.  Any other name is no built-in profile.
pub proof fn lemma_builtin_profile_table(name: Seq<char>)
    ensures
        ascii_lower(name) == "local-lab"@ ==> (builtin_profile_spec(name) matches Some(f) && f.max_steps == Some(6usize)
            && f.max_new_tokens == Some(192usize) && f.format == Some(OutputFormat::Summary) && f.live == Some(false)
            && f.live_fallback_policy == None::<LiveFallbackPolicy> && f.model is None && f.tokenizer is None),
        ascii_lower(name) == "production-triage"@ ==> (builtin_profile_spec(name) matches Some(f) && f.max_steps == Some(12usize)
            && f.max_new_tokens == Some(320usize) && f.format == Some(OutputFormat::Markdown) && f.live == Some(false)
            && f.live_fallback_policy == None::<LiveFallbackPolicy> && f.model is None && f.tokenizer is None),
        ascii_lower(name) == "live-model"@ ==> (builtin_profile_spec(name) matches Some(f) && f.max_steps == Some(10usize)
            && f.max_new_tokens == Some(512usize) && f.format == Some(OutputFormat::Json) && f.live == Some(true)
            && f.live_fallback_policy == None::<LiveFallbackPolicy> && f.model is None && f.tokenizer is None),
        ascii_lower(name) == "live-fast"@ ==> (builtin_profile_spec(name) matches Some(f) && f.max_steps == Some(6usize)
            && f.max_new_tokens == Some(256usize) && f.format == Some(OutputFormat::Json) && f.live == Some(true)
            && f.live_fallback_policy == Some(LiveFallbackPolicy::DryRunOnError) && f.model is None && f.tokenizer is None),
        ascii_lower(name) == "live-balanced"@ ==> (builtin_profile_spec(name) matches Some(f) && f.max_steps == Some(10usize)
            && f.max_new_tokens == Some(512usize) && f.format == Some(OutputFormat::Json) && f.live == Some(true)
            && f.live_fallback_policy == Some(LiveFallbackPolicy::DryRunOnError) && f.model is None && f.tokenizer is None),
        ascii_lower(name) == "live-deep"@ ==> (builtin_profile_spec(name) matches Some(f) && f.max_steps == Some(16usize)
            && f.max_new_tokens == Some(768usize) && f.format == Some(OutputFormat::Json) && f.live == Some(true)
            && f.live_fallback_policy == Some(LiveFallbackPolicy::DryRunOnError) && f.model is None && f.tokenizer is None),
        ascii_lower(name) != "local-lab"@ && ascii_lower(name) != "production-triage"@ && ascii_lower(name) != "live-model"@ && ascii_lower(name) != "live-fast"@ && ascii_lower(name) != "live-balanced"@ && ascii_lower(name) != "live-deep"@ ==> builtin_profile_spec(name) is None,
{
    reveal_strlit("local-lab");
    reveal_strlit("production-triage");
    reveal_strlit("live-model");
    reveal_strlit("live-fast");
    reveal_strlit("live-balanced");
    reveal_strlit("live-deep");
    assert("local-lab"@.len() == 9 && "production-triage"@.len() == 17 && "live-model"@.len() == 10);
    assert("live-fast"@.len() == 9 && "live-balanced"@.len() == 13 && "live-deep"@.len() == 9);
    assert("local-lab"@[1] == 'o' && "live-fast"@[1] == 'i' && "live-deep"@[1] == 'i');
    assert("live-fast"@[5] == 'f' && "live-deep"@[5] == 'd');
    assert("local-lab"@ != "live-fast"@ && "local-lab"@ != "live-deep"@ && "live-fast"@ != "live-deep"@);
}

/// A run that asks for the production-triage profile (in any ASCII case), with no
/// config file and nothing set for these settings on the command line or in the
/// environment, is a dry run of 12 steps and 320 tokens with markdown output.
pub proof fn lemma_production_triage_alone(task: Seq<char>, cli: CliView, profile: Seq<char>, env: FragmentView)
    requires
        ascii_lower(profile) == "production-triage"@,
        cli.max_steps is None,
        cli.max_new_tokens is None,
        cli.format is None,
        !cli.live,
        !cli.dry_run,
        env.max_steps is None,
        env.max_new_tokens is None,
        env.format is None,
        env.live is None,
    ensures
        ({
            let r = layered_config(task, cli, Some(profile), None, env);
            &&& r.format == OutputFormat::Markdown
            &&& r.max_steps == 12
            &&& r.max_new_tokens == 320
            &&& !r.live
        }),
{
    lemma_settings_precedence(task, cli, Some(profile), None, env);
    lemma_builtin_profile_table(profile);
}

} // verus!
