//! The investigation data model: severities, confidence, findings and agent turns.
//!
//! Confidence is carried as whole hundredths (`0..=100`), the precision to which
//! every confidence value is rounded; confidence factors are carried in thousandths.
use vstd::prelude::*;

use crate::json::JsonValue;
use crate::text::{chars_of, string_of};

verus! {

/// How severe a finding is, from least to most.
#[derive(Clone, Copy, Debug, PartialEq, Eq, PartialOrd, Ord, Structural)]
pub enum FindingSeverity {
    Info,
    Low,
    Medium,
    High,
    Critical,
}

/// The position of a severity in the order `Info < Low < Medium < High < Critical`.
pub open spec fn severity_rank(s: FindingSeverity) -> nat {
    match s {
        FindingSeverity::Info => 0,
        FindingSeverity::Low => 1,
        FindingSeverity::Medium => 2,
        FindingSeverity::High => 3,
        FindingSeverity::Critical => 4,
    }
}

pub open spec fn severity_token_spec(s: FindingSeverity) -> Seq<char> {
    match s {
        FindingSeverity::Info => "info"@,
        FindingSeverity::Low => "low"@,
        FindingSeverity::Medium => "medium"@,
        FindingSeverity::High => "high"@,
        FindingSeverity::Critical => "critical"@,
    }
}

impl FindingSeverity {
    /// The lower-case name used in JSON and summaries.
    pub fn token(self) -> (r: &'static str)
        ensures
            r@ == severity_token_spec(self),
    {
        match self {
            FindingSeverity::Info => "info",
            FindingSeverity::Low => "low",
            FindingSeverity::Medium => "medium",
            FindingSeverity::High => "high",
            FindingSeverity::Critical => "critical",
        }
    }

    /// The position of this severity in the severity order.
    pub fn rank(self) -> (r: u8)
        ensures
            r as nat == severity_rank(self),
    {
        match self {
            FindingSeverity::Info => 0,
            FindingSeverity::Low => 1,
            FindingSeverity::Medium => 2,
            FindingSeverity::High => 3,
            FindingSeverity::Critical => 4,
        }
    }
}

/// Model capability tier, from least to most capable.
#[derive(Clone, Copy, Debug, PartialEq, Eq, PartialOrd, Ord, Structural)]
pub enum ModelCapabilityTier {
    Basic,
    Moderate,
    Strong,
}

pub open spec fn tier_rank(t: ModelCapabilityTier) -> nat {
    match t {
        ModelCapabilityTier::Basic => 0,
        ModelCapabilityTier::Moderate => 1,
        ModelCapabilityTier::Strong => 2,
    }
}

/// The tier a per-token smoke latency allows: Basic above 200 ms, Strong below 50 ms,
/// Moderate between.
pub open spec fn latency_tier_spec(ms: u64) -> ModelCapabilityTier {
    if ms > 200 {
        ModelCapabilityTier::Basic
    } else if ms < 50 {
        ModelCapabilityTier::Strong
    } else {
        ModelCapabilityTier::Moderate
    }
}

/// A slower model never gets a higher latency tier: above 200 ms per token it is Basic,
/// below 50 ms Strong, Moderate between, and the tier falls as the latency grows.
pub proof fn lemma_latency_tier_falls_with_latency(fast: u64, slow: u64)
    requires
        fast <= slow,
    ensures
        tier_rank(latency_tier_spec(slow)) <= tier_rank(latency_tier_spec(fast)),
        slow > 200 ==> latency_tier_spec(slow) == ModelCapabilityTier::Basic,
        fast < 50 ==> latency_tier_spec(fast) == ModelCapabilityTier::Strong,
        50 <= fast <= 200 ==> latency_tier_spec(fast) == ModelCapabilityTier::Moderate,
{
}

/// The tier of a per-token smoke latency (see [`latency_tier_spec`]).
pub fn latency_tier(smoke_latency_ms: u64) -> (r: ModelCapabilityTier)
    ensures
        r == latency_tier_spec(smoke_latency_ms),
        smoke_latency_ms > 200 ==> r == ModelCapabilityTier::Basic,
        smoke_latency_ms < 50 ==> r == ModelCapabilityTier::Strong,
        50 <= smoke_latency_ms <= 200 ==> r == ModelCapabilityTier::Moderate,
{
    if smoke_latency_ms > 200 {
        ModelCapabilityTier::Basic
    } else if smoke_latency_ms < 50 {
        ModelCapabilityTier::Strong
    } else {
        ModelCapabilityTier::Moderate
    }
}

/// A model's tier: the lower of the tier its size allows and the tier its smoke latency
/// allows.
pub fn capability_tier(param_tier: ModelCapabilityTier, smoke_latency_ms: u64) -> (r: ModelCapabilityTier)
    ensures
        tier_rank(r) == if tier_rank(param_tier) <= tier_rank(latency_tier_spec(smoke_latency_ms)) {
            tier_rank(param_tier)
        } else {
            tier_rank(latency_tier_spec(smoke_latency_ms))
        },
        smoke_latency_ms > 200 ==> r == ModelCapabilityTier::Basic,
        smoke_latency_ms < 50 ==> r == param_tier,
        50 <= smoke_latency_ms <= 200 ==> r == (if param_tier == ModelCapabilityTier::Basic {
            ModelCapabilityTier::Basic
        } else {
            ModelCapabilityTier::Moderate
        }),
{
    let l = latency_tier(smoke_latency_ms);
    let pr: u8 = match param_tier {
        ModelCapabilityTier::Basic => 0,
        ModelCapabilityTier::Moderate => 1,
        ModelCapabilityTier::Strong => 2,
    };
    let lr: u8 = match l {
        ModelCapabilityTier::Basic => 0,
        ModelCapabilityTier::Moderate => 1,
        ModelCapabilityTier::Strong => 2,
    };
    if pr <= lr {
        param_tier
    } else {
        l
    }
}

pub open spec fn tier_token_spec(t: ModelCapabilityTier) -> Seq<char> {
    match t {
        ModelCapabilityTier::Basic => "basic"@,
        ModelCapabilityTier::Moderate => "moderate"@,
        ModelCapabilityTier::Strong => "strong"@,
    }
}

impl ModelCapabilityTier {
    pub fn token(self) -> (r: &'static str)
        ensures
            r@ == tier_token_spec(self),
    {
        match self {
            ModelCapabilityTier::Basic => "basic",
            ModelCapabilityTier::Moderate => "moderate",
            ModelCapabilityTier::Strong => "strong",
        }
    }
}

/// Discrete confidence label, from weakest to strongest.
#[derive(Clone, Copy, Debug, PartialEq, Eq, PartialOrd, Ord, Structural)]
pub enum FindingConfidence {
    Informational,
    Possible,
    Likely,
    Confirmed,
}

pub open spec fn confidence_token_spec(c: FindingConfidence) -> Seq<char> {
    match c {
        FindingConfidence::Informational => "informational"@,
        FindingConfidence::Possible => "possible"@,
        FindingConfidence::Likely => "likely"@,
        FindingConfidence::Confirmed => "confirmed"@,
    }
}

impl FindingConfidence {
    pub fn token(self) -> (r: &'static str)
        ensures
            r@ == confidence_token_spec(self),
    {
        match self {
            FindingConfidence::Informational => "informational",
            FindingConfidence::Possible => "possible",
            FindingConfidence::Likely => "likely",
            FindingConfidence::Confirmed => "confirmed",
        }
    }
}

/// The label of a confidence given in hundredths: at least 90 is confirmed, at least 72
/// likely, at least 55 possible, anything lower informational.
pub open spec fn confidence_label_spec(confidence: nat) -> FindingConfidence {
    if confidence >= 90 {
        FindingConfidence::Confirmed
    } else if confidence >= 72 {
        FindingConfidence::Likely
    } else if confidence >= 55 {
        FindingConfidence::Possible
    } else {
        FindingConfidence::Informational
    }
}

/// The place of a label among the labels, weakest first.
pub open spec fn label_rank(c: FindingConfidence) -> nat {
    match c {
        FindingConfidence::Informational => 0,
        FindingConfidence::Possible => 1,
        FindingConfidence::Likely => 2,
        FindingConfidence::Confirmed => 3,
    }
}

/// A higher confidence never gets a weaker label.
pub proof fn lemma_confidence_label_monotonic(a: nat, b: nat)
    requires
        a <= b,
    ensures
        label_rank(confidence_label_spec(a)) <= label_rank(confidence_label_spec(b)),
{
}

/// Maps a confidence in hundredths to its discrete label.
pub fn confidence_to_label(confidence: u32) -> (r: FindingConfidence)
    ensures
        r == confidence_label_spec(confidence as nat),
{
    if confidence >= 90 {
        FindingConfidence::Confirmed
    } else if confidence >= 72 {
        FindingConfidence::Likely
    } else if confidence >= 55 {
        FindingConfidence::Possible
    } else {
        FindingConfidence::Informational
    }
}

/// Relevance of a finding to the task; `Primary` unless the finding comes from a tool
/// that the run did not call.
#[derive(Clone, Copy, Debug, PartialEq, Eq, Structural)]
pub enum FindingRelevance {
    Primary,
    Supplementary,
}

impl Default for FindingRelevance {
    /// The default relevance, `Primary`.
    fn default() -> (r: FindingRelevance)
        ensures
            r == FindingRelevance::Primary,
    {
        FindingRelevance::Primary
    }
}

pub open spec fn opt_view(o: Option<String>) -> Option<Seq<char>> {
    match o {
        Some(s) => Some(s@),
        None => None,
    }
}

/// Where a finding's evidence came from.
#[derive(Debug)]
pub struct EvidencePointer {
    /// One-based index of the agent turn, when the finding comes from a turn.
    pub turn: Option<usize>,
    /// The tool whose observation holds the evidence.
    pub tool: Option<String>,
    /// The observation field, such as `observation.listener_count`.
    pub field: String,
}

pub struct PointerView {
    pub turn: Option<usize>,
    pub tool: Option<Seq<char>>,
    pub field: Seq<char>,
}

impl View for EvidencePointer {
    type V = PointerView;

    open spec fn view(&self) -> PointerView {
        PointerView { turn: self.turn, tool: opt_view(self.tool), field: self.field@ }
    }
}

/// One contribution to a finding's confidence, in thousandths.
#[derive(Debug)]
pub struct ConfidenceFactor {
    pub factor: String,
    /// The contribution in thousandths (negative for a correction).
    pub contribution: i128,
    pub detail: String,
}

pub struct FactorView {
    pub factor: Seq<char>,
    pub contribution: int,
    pub detail: Seq<char>,
}

impl View for ConfidenceFactor {
    type V = FactorView;

    open spec fn view(&self) -> FactorView {
        FactorView {
            factor: self.factor@,
            contribution: self.contribution as int,
            detail: self.detail@,
        }
    }
}

impl ConfidenceFactor {
    pub fn new(factor: &str, contribution: i128, detail: String) -> (r: ConfidenceFactor)
        ensures
            r@ == (FactorView { factor: factor@, contribution: contribution as int, detail: detail@ }),
    {
        ConfidenceFactor { factor: factor.to_owned(), contribution, detail }
    }
}

pub open spec fn factor_views(v: Seq<ConfidenceFactor>) -> Seq<FactorView> {
    Seq::new(v.len(), |i: int| v[i]@)
}

/// A severity-scored observation with its evidence and a recommended action.
#[derive(Debug)]
pub struct Finding {
    pub title: String,
    pub severity: FindingSeverity,
    /// Confidence in hundredths, `0..=100`.
    pub confidence: u32,
    pub confidence_label: FindingConfidence,
    pub confidence_factors: Vec<ConfidenceFactor>,
    pub relevance: FindingRelevance,
    pub evidence_pointer: EvidencePointer,
    pub recommended_action: String,
}

pub struct FindingView {
    pub title: Seq<char>,
    pub severity: FindingSeverity,
    pub confidence: nat,
    pub label: FindingConfidence,
    pub factors: Seq<FactorView>,
    pub relevance: FindingRelevance,
    pub pointer: PointerView,
    pub action: Seq<char>,
}

impl View for Finding {
    type V = FindingView;

    open spec fn view(&self) -> FindingView {
        FindingView {
            title: self.title@,
            severity: self.severity,
            confidence: self.confidence as nat,
            label: self.confidence_label,
            factors: factor_views(self.confidence_factors@),
            relevance: self.relevance,
            pointer: self.evidence_pointer@,
            action: self.recommended_action@,
        }
    }
}

pub open spec fn finding_views(v: Seq<Finding>) -> Seq<FindingView> {
    Seq::new(v.len(), |i: int| v[i]@)
}

impl Finding {
    /// A finding whose label is derived from its confidence, with no factors and
    /// primary relevance.
    pub fn new(
        title: String,
        severity: FindingSeverity,
        confidence: u32,
        evidence_pointer: EvidencePointer,
        recommended_action: String,
    ) -> (r: Finding)
        ensures
            r@ == (FindingView {
                title: title@,
                severity,
                confidence: confidence as nat,
                label: confidence_label_spec(confidence as nat),
                factors: seq![],
                relevance: FindingRelevance::Primary,
                pointer: evidence_pointer@,
                action: recommended_action@,
            }),
    {
        let r = Finding {
            title,
            severity,
            confidence_label: confidence_to_label(confidence),
            confidence_factors: Vec::new(),
            relevance: FindingRelevance::Primary,
            confidence,
            evidence_pointer,
            recommended_action,
        };
        assert(factor_views(r.confidence_factors@) =~= Seq::<FactorView>::empty());
        r
    }

    /// The same finding with its label derived again from its confidence.
    pub fn with_derived_label(self) -> (r: Finding)
        ensures
            r@ == (FindingView { label: confidence_label_spec(self.confidence as nat), ..self@ }),
    {
        let mut f = self;
        f.confidence_label = confidence_to_label(f.confidence);
        f
    }

    /// The same finding with the given derivation factors.
    pub fn with_factors(self, factors: Vec<ConfidenceFactor>) -> (r: Finding)
        ensures
            r@ == (FindingView { factors: factor_views(factors@), ..self@ }),
    {
        let mut f = self;
        f.confidence_factors = factors;
        f
    }
}

/// A tool invocation chosen by the agent.
#[derive(Debug)]
pub struct ToolCall {
    pub tool: String,
    pub args: JsonValue,
}

/// One step of an investigation: the agent's thought, the tool it called and what
/// the tool returned.
#[derive(Debug)]
pub struct AgentTurn {
    pub thought: String,
    pub tool_call: Option<ToolCall>,
    pub observation: Option<JsonValue>,
    pub elapsed_ms: Option<u64>,
}

/// Baseline arrays from an earlier run, fed back to coverage tools to detect drift.
#[derive(Debug)]
pub struct CoverageBaseline {
    pub baseline_entries: Vec<String>,
    pub baseline_privileged_accounts: Vec<String>,
    pub approved_privileged_accounts: Vec<String>,
    pub baseline_exposed_bindings: Vec<String>,
    pub expected_processes: Vec<String>,
}

impl CoverageBaseline {
    /// True when every baseline array is empty.
    pub fn is_empty(&self) -> (r: bool)
        ensures
            r == (self.baseline_entries@.len() == 0 && self.baseline_privileged_accounts@.len() == 0
                && self.approved_privileged_accounts@.len() == 0
                && self.baseline_exposed_bindings@.len() == 0
                && self.expected_processes@.len() == 0),
    {
        self.baseline_entries.len() == 0 && self.baseline_privileged_accounts.len() == 0
            && self.approved_privileged_accounts.len() == 0
            && self.baseline_exposed_bindings.len() == 0 && self.expected_processes.len() == 0
    }
}

/// A copy of a string (`String::clone`).
pub fn clone_string(s: &String) -> (r: String)
    ensures
        r@ == s@,
{
    let cs = chars_of(s.as_str());
    string_of(&cs)
}

/// A copy of an optional string.
pub fn clone_opt_string(s: &Option<String>) -> (r: Option<String>)
    ensures
        opt_view(r) == opt_view(*s),
{
    match s {
        Some(t) => Some(clone_string(t)),
        None => None,
    }
}

} // verus!
