//! The investigation loop.  The model proposes tool calls inside `<call>` tags and
//! finishes with a `<final>` report; each tool's observation is fed back into the
//! transcript.  When the step budget runs out, the evidence gathered so far (or the
//! template's tools, when nothing was gathered) is handed to the model for a final
//! synthesis.
//!
//! The loop is a state machine: each handler takes what the host observed (the model's
//! output, the parsed call, a tool's observation) and returns what the host must do
//! next.  Generating text and running tools are the host's part.
use vstd::prelude::*;

use crate::agent::{
    apply_coverage_baseline_to_call, baseline_applied, base_members, baseline_keys, baseline_lists,
    extract_tag, extract_tag_spec, format_react_system_prompt, format_synthesis_prompt,
    react_prompt_spec, synthesis_prompt_spec, tool_call_from_json,
};
use crate::derive::{derive_findings, derive_findings_spec};
use crate::json::JsonValue;
use crate::json_text::{compact_json, json_compact_text};
use crate::model::{
    finding_views, AgentTurn, CoverageBaseline, Finding, FindingRelevance, FindingSeverity, FindingView, ToolCall,
};
use crate::run_report::{RunReport, RunTimingMetrics};
use crate::report::{
    deduplicate_findings, dedup_findings_spec, deterministic_summary_spec, low_quality_spec,
    max_severity, max_severity_spec, quality_checked_final_answer, sort_findings, sort_spec, utf8_len,
    utf8_len_exec, utf8_width,
};
use crate::text::{chars_of, dec, push_all, push_str, string_of, usize_dec};

verus! {

// ---------------------------------------------------------------------------
// Byte-bounded text
// ---------------------------------------------------------------------------

/// The prefix of `t` that is exactly `n` UTF-8 bytes long, if a character boundary
/// falls there.
pub open spec fn bytes_prefix(t: Seq<char>, n: nat) -> Option<Seq<char>>
    decreases t.len(),
{
    if n == 0 {
        Some(seq![])
    } else if t.len() == 0 {
        None
    } else if utf8_width(t[0]) > n {
        None
    } else {
        match bytes_prefix(t.drop_first(), (n - utf8_width(t[0])) as nat) {
            Some(p) => Some(seq![t[0]] + p),
            None => None,
        }
    }
}

/// `t` cut to its first `n` bytes with `...(truncated)` appended when it is longer;
/// nothing when byte `n` falls inside a character (slicing there panics).
pub open spec fn truncated(t: Seq<char>, n: nat) -> Option<Seq<char>> {
    if utf8_len(t) > n {
        match bytes_prefix(t, n) {
            Some(p) => Some(p + "...(truncated)"@),
            None => None,
        }
    } else {
        Some(t)
    }
}

proof fn lemma_utf8_len_take(t: Seq<char>, i: int)
    requires
        0 < i <= t.len(),
    ensures
        utf8_len(t.take(i)) == utf8_len(t.take(i - 1)) + utf8_width(t[i - 1]),
{
    assert(t.take(i).drop_last() =~= t.take(i - 1));
}

proof fn lemma_bytes_prefix_shift(t: Seq<char>, i: int, n: nat)
    requires
        0 <= i <= t.len(),
        utf8_len(t.take(i)) <= n,
    ensures
        bytes_prefix(t, n) == match bytes_prefix(t.skip(i), (n - utf8_len(t.take(i))) as nat) {
            Some(p) => Some(t.take(i) + p),
            None => None,
        },
    decreases i,
{
    if i == 0 {
        assert(t.take(0) =~= Seq::<char>::empty());
        assert(t.skip(0) =~= t);
        match bytes_prefix(t, n) {
            Some(p) => assert(Seq::<char>::empty() + p =~= p),
            None => {},
        }
    } else {
        lemma_utf8_len_take(t, i);
        lemma_bytes_prefix_shift(t, i - 1, n);
        let m = (n - utf8_len(t.take(i - 1))) as nat;
        let u = t.skip(i - 1);
        assert(u[0] == t[i - 1]);
        assert(u.drop_first() =~= t.skip(i));
        assert(m > 0);
        assert(utf8_width(u[0]) <= m);
        match bytes_prefix(t.skip(i), (n - utf8_len(t.take(i))) as nat) {
            Some(p) => {
                assert(t.take(i - 1) + (seq![t[i - 1]] + p) =~= t.take(i) + p);
            },
            None => {},
        }
    }
}

fn char_width(c: char) -> (w: usize)
    ensures
        w as nat == utf8_width(c),
        1 <= w <= 4,
{
    let u = c as u32;
    if u < 0x80 {
        1
    } else if u < 0x800 {
        2
    } else if u < 0x10000 {
        3
    } else {
        4
    }
}

/// Cuts a text to `n` bytes (see [`truncated`]).
pub fn truncate_bytes(t: &Vec<char>, n: usize) -> (r: Option<Vec<char>>)
    ensures
        match r {
            Some(v) => truncated(t@, n as nat) == Some(v@),
            None => truncated(t@, n as nat) is None,
        },
{
    let total = utf8_len_exec(t);
    if total <= n as u128 {
        let mut copy: Vec<char> = Vec::new();
        push_all(&mut copy, t);
        assert(copy@ =~= t@);
        return Some(copy);
    }
    let mut used: usize = 0;
    let mut i: usize = 0;
    assert(t@.take(0) =~= Seq::<char>::empty());
    while used < n
        invariant
            i <= t@.len(),
            used <= n,
            used as nat == utf8_len(t@.take(i as int)),
            total as nat == utf8_len(t@),
            total > n,
        decreases n - used,
    {
        if i == t.len() {
            assert(t@.take(i as int) =~= t@);
            assert(false);
        }
        let w = char_width(t[i]);
        if w > n - used {
            proof {
                lemma_bytes_prefix_shift(t@, i as int, n as nat);
                let u = t@.skip(i as int);
                assert(u[0] == t@[i as int]);
            }
            return None;
        }
        proof {
            lemma_utf8_len_take(t@, i + 1);
        }
        used = used + w;
        i = i + 1;
    }
    proof {
        lemma_bytes_prefix_shift(t@, i as int, n as nat);
    }
    let mut out: Vec<char> = Vec::new();
    let mut k: usize = 0;
    while k < i
        invariant
            k <= i,
            i <= t@.len(),
            out@ == t@.take(k as int),
        decreases i - k,
    {
        out.push(t[k]);
        k = k + 1;
        assert(out@ =~= t@.take(k as int));
    }
    push_str(&mut out, "...(truncated)");
    assert(t@.take(i as int) + Seq::<char>::empty() =~= t@.take(i as int));
    Some(out)
}

// ---------------------------------------------------------------------------
// Evidence summaries
// ---------------------------------------------------------------------------

/// The name of the tool a turn called, or `unknown`.
pub open spec fn tool_label(t: AgentTurn) -> Seq<char> {
    match t.tool_call {
        Some(c) => c.tool@,
        None => "unknown"@,
    }
}

/// How many turns carry an observation.
pub open spec fn observed_count(ts: Seq<AgentTurn>) -> nat
    decreases ts.len(),
{
    if ts.len() == 0 {
        0
    } else {
        observed_count(ts.drop_last()) + if ts.last().observation is Some {
            1nat
        } else {
            0nat
        }
    }
}

/// One turn's evidence: `[tool] observation` with the observation's compact JSON cut
/// to 3000 bytes, and a blank line.
pub open spec fn evidence_entry(t: AgentTurn) -> Option<Seq<char>> {
    match t.observation {
        Some(o) => match truncated(json_compact_text(o), 3000) {
            Some(x) => Some("["@ + tool_label(t) + "] "@ + x + "\n\n"@),
            None => None,
        },
        None => Some(seq![]),
    }
}

/// The evidence of the first `max` observed turns; nothing when an observation would be
/// cut inside a character.
pub open spec fn evidence_summary_spec(ts: Seq<AgentTurn>, max: nat) -> Option<Seq<char>>
    decreases ts.len(),
{
    if ts.len() == 0 {
        Some(seq![])
    } else {
        match evidence_summary_spec(ts.drop_last(), max) {
            None => None,
            Some(prev) => if observed_count(ts.drop_last()) >= max || ts.last().observation is None {
                Some(prev)
            } else {
                match evidence_entry(ts.last()) {
                    Some(e) => Some(prev + e),
                    None => None,
                }
            },
        }
    }
}

proof fn lemma_observed_count_bound(ts: Seq<AgentTurn>)
    ensures
        observed_count(ts) <= ts.len(),
    decreases ts.len(),
{
    if ts.len() > 0 {
        lemma_observed_count_bound(ts.drop_last());
    }
}

proof fn lemma_summary_none_extends(ts: Seq<AgentTurn>, max: nat, k: int)
    requires
        0 <= k <= ts.len(),
        evidence_summary_spec(ts.take(k), max) is None,
    ensures
        evidence_summary_spec(ts, max) is None,
    decreases ts.len() - k,
{
    if k == ts.len() {
        assert(ts.take(k) =~= ts);
    } else {
        assert(ts.take(k + 1).drop_last() =~= ts.take(k));
        lemma_summary_none_extends(ts, max, k + 1);
    }
}

/// The evidence summary of the first `max` observed turns (see
/// [`evidence_summary_spec`]), or nothing when an observation would be cut inside a
/// character.
pub fn try_build_evidence_summary(turns: &Vec<AgentTurn>, max_turns: usize) -> (r: Option<String>)
    ensures
        match r {
            Some(s) => evidence_summary_spec(turns@, max_turns as nat) == Some(s@),
            None => evidence_summary_spec(turns@, max_turns as nat) is None,
        },
{
    let ghost ts = turns@;
    let mut out: Vec<char> = Vec::new();
    let mut count: usize = 0;
    let mut i: usize = 0;
    assert(ts.take(0) =~= Seq::<AgentTurn>::empty());
    while i < turns.len()
        invariant
            i <= ts.len(),
            ts == turns@,
            count as nat == if observed_count(ts.take(i as int)) < max_turns as nat {
                observed_count(ts.take(i as int))
            } else {
                max_turns as nat
            },
            evidence_summary_spec(ts.take(i as int), max_turns as nat) == Some(out@),
        decreases ts.len() - i,
    {
        let ghost prev = ts.take(i as int);
        assert(ts.take(i + 1).drop_last() =~= prev);
        assert(ts.take(i + 1).last() == turns@[i as int]);
        proof {
            lemma_observed_count_bound(prev);
        }
        let turn = &turns[i];
        if count < max_turns {
            match &turn.observation {
                Some(obs) => {
                    let text = compact_json(obs);
                    match truncate_bytes(&chars_of(text.as_str()), 3000) {
                        Some(cut) => {
                            push_str(&mut out, "[");
                            match &turn.tool_call {
                                Some(c) => push_str(&mut out, c.tool.as_str()),
                                None => push_str(&mut out, "unknown"),
                            }
                            push_str(&mut out, "] ");
                            push_all(&mut out, &cut);
                            push_str(&mut out, "\n\n");
                            count = count + 1;
                        },
                        None => {
                            proof {
                                assert(evidence_entry(turns@[i as int]) is None);
                                assert(evidence_summary_spec(ts.take(i + 1), max_turns as nat) is None);
                                lemma_summary_none_extends(ts, max_turns as nat, i + 1);
                            }
                            return None;
                        },
                    }
                },
                None => {},
            }
        }
        i = i + 1;
    }
    assert(ts.take(ts.len() as int) =~= ts);
    Some(string_of(&out))
}

/// The evidence summary of the first `max_turns` observed turns (see
/// [`evidence_summary_spec`]).
pub fn build_evidence_summary_limited(turns: &Vec<AgentTurn>, max_turns: usize) -> (r: String)
    requires
        evidence_summary_spec(turns@, max_turns as nat) is Some,
    ensures
        evidence_summary_spec(turns@, max_turns as nat) == Some(r@),
{
    match try_build_evidence_summary(turns, max_turns) {
        Some(s) => s,
        None => {
            proof {
                assert(false);
            }
            String::new()
        },
    }
}

/// The evidence summary of every observed turn.
pub fn build_evidence_summary(turns: &Vec<AgentTurn>) -> (r: String)
    requires
        evidence_summary_spec(turns@, usize::MAX as nat) is Some,
    ensures
        evidence_summary_spec(turns@, usize::MAX as nat) == Some(r@),
{
    build_evidence_summary_limited(turns, usize::MAX)
}

// ---------------------------------------------------------------------------
// The loop
// ---------------------------------------------------------------------------

/// Where the loop stands: what it waits for.
#[derive(Clone, Copy, Debug, PartialEq, Eq, Structural)]
pub enum ReactStage {
    /// The model's next output.
    AwaitOutput,
    /// The decoded JSON of a `<call>` body.
    AwaitCall,
    /// A tool's observation.
    AwaitObservation,
    /// The turns of the template's tools.
    AwaitTemplate,
    /// The model's synthesis.
    AwaitSynthesis,
    /// Nothing: the loop has finished.
    Done,
}

/// The state of an investigation loop.
pub struct ReactLoop {
    pub task: String,
    /// Everything the model has been shown so far.
    pub transcript: Vec<char>,
    pub turns: Vec<AgentTurn>,
    /// Steps taken so far.
    pub step: usize,
    pub max_steps: usize,
    pub first_token_latency_ms: Option<u64>,
    /// The earlier run's baseline, fed to the coverage tools.
    pub baseline: Option<CoverageBaseline>,
    pub stage: ReactStage,
    /// The model output whose tool call is being decoded or run.
    pub pending_output: Vec<char>,
    /// The tool call the host is to run.
    pub pending_call: Option<ToolCall>,
}

/// What the host must do next.
pub enum ReactAction {
    /// Run the model on this prompt and report its output.
    Generate(String),
    /// Decode this `<call>` body as JSON and report the value, or nothing when it is
    /// not JSON.
    ParseCall(String),
    /// Run the pending tool call and report its observation (a failed run is reported
    /// as an object with an `error` member).
    Execute,
    /// Run the investigation template of the given task and report its turns.
    RunTemplate(String),
    /// Run the model on this synthesis prompt and report its output.
    Synthesize(String),
    /// The loop is over with this final answer.
    Finish(String),
}

/// The final answer from the model's report: the report itself, or the deterministic
/// summary of the findings when the report is of low quality.
pub open spec fn answer_spec(raw: Seq<char>, turns: Seq<AgentTurn>) -> Seq<char> {
    if low_quality_spec(raw) {
        deterministic_summary_spec(dedup_findings_spec(derive_findings_spec(turns, ""@)))
    } else {
        raw
    }
}

fn answer_from(raw: &str, turns: &Vec<AgentTurn>) -> (r: String)
    ensures
        r@ == answer_spec(raw@, turns@),
{
    proof {
        reveal_strlit("");
    }
    let derived = derive_findings(turns, "");
    let findings = deduplicate_findings(derived);
    quality_checked_final_answer(raw, &findings)
}

/// What follows a finished step: the next generation while steps remain; otherwise the
/// template's tools when nothing was gathered, or else the synthesis of the evidence.
pub open spec fn advanced(s: ReactLoop, a: ReactAction) -> bool {
    if s.step < s.max_steps {
        &&& s.stage == ReactStage::AwaitOutput
        &&& a matches ReactAction::Generate(p) && p@ == s.transcript@
    } else if s.turns@.len() == 0 {
        &&& s.stage == ReactStage::AwaitTemplate
        &&& a matches ReactAction::RunTemplate(t) && t@ == s.task@
    } else {
        &&& s.stage == ReactStage::AwaitSynthesis
        &&& a matches ReactAction::Synthesize(p) && (evidence_summary_spec(s.turns@, usize::MAX as nat) matches Some(
            e,
        ) && p@ == synthesis_prompt_spec(s.task@, e))
    }
}

/// Finishing a step does not cut an observation inside a character.
pub open spec fn can_advance(step: nat, max: nat, turns: Seq<AgentTurn>) -> bool {
    step >= max && turns.len() > 0 ==> evidence_summary_spec(turns, usize::MAX as nat) is Some
}

/// The parts of the loop no handler changes.
pub open spec fn keeps(a: ReactLoop, b: ReactLoop) -> bool {
    &&& a.task == b.task
    &&& a.max_steps == b.max_steps
    &&& a.baseline == b.baseline
}

/// The transcript addition after an output with neither tag.
pub open spec fn nudge_text(output: Seq<char>) -> Seq<char> {
    "\n"@ + output
        + "\nObservation: No action detected. Respond with <call>...</call> to use a tool or <final>...</final> to finish.\n"@
}

/// The transcript addition after a `<call>` body that holds no tool call.
pub open spec fn parse_error_text(output: Seq<char>) -> Seq<char> {
    "\n"@ + output
        + "\nObservation: ERROR — could not parse tool call. Use <call>{\"tool\":\"name\",\"args\":{...}}</call> format.\n"@
}

/// The call run for a decoded `<call>` value: its tool and arguments, with the
/// baseline lists added when there is a baseline.
pub open spec fn call_prepared(p: JsonValue, c: ToolCall, baseline: Option<CoverageBaseline>) -> bool {
    match baseline {
        None => crate::agent::call_spec_ok(p, c),
        Some(b) => crate::json::json_get(p, "tool"@) matches Some(JsonValue::Str(t)) && c.tool@ == t@
            && (c.args matches JsonValue::Object(m) && baseline_applied(
            match crate::json::json_get(p, "args"@) {
                Some(a) => base_members(a),
                None => seq![],
            },
            m@,
            baseline_keys(t@),
            baseline_lists(t@, b),
        )),
    }
}

/// The decoded value names a tool.
pub open spec fn names_tool(parsed: Option<JsonValue>) -> bool {
    parsed matches Some(p) && crate::json::json_get(p, "tool"@) matches Some(JsonValue::Str(_))
}

/// The turn recorded for a tool run in step `step` (counted from zero).
pub open spec fn react_turn_ok(t: AgentTurn, step: nat, call: ToolCall, observation: JsonValue) -> bool {
    &&& t.thought@ == "ReAct step "@ + dec(step + 1) + ": invoking "@ + call.tool@
    &&& t.tool_call == Some(call)
    &&& t.observation == Some(observation)
    &&& t.elapsed_ms is None
}

impl ReactLoop {
    fn advance(&mut self) -> (a: ReactAction)
        requires
            can_advance(old(self).step as nat, old(self).max_steps as nat, old(self).turns@),
        ensures
            keeps(*final(self), *old(self)),
            final(self).transcript == old(self).transcript,
            final(self).turns == old(self).turns,
            final(self).step == old(self).step,
            final(self).first_token_latency_ms == old(self).first_token_latency_ms,
            final(self).pending_output == old(self).pending_output,
            final(self).pending_call == old(self).pending_call,
            advanced(*final(self), a),
    {
        if self.step < self.max_steps {
            self.stage = ReactStage::AwaitOutput;
            ReactAction::Generate(string_of(&self.transcript))
        } else if self.turns.len() == 0 {
            self.stage = ReactStage::AwaitTemplate;
            ReactAction::RunTemplate(string_of(&chars_of(self.task.as_str())))
        } else {
            self.stage = ReactStage::AwaitSynthesis;
            let evidence = build_evidence_summary(&self.turns);
            ReactAction::Synthesize(format_synthesis_prompt(self.task.as_str(), evidence.as_str()))
        }
    }

    /// Starts a loop: the transcript is the system prompt of the task and the tool
    /// manifest; the first action is to run the model on it (or, with no steps at all,
    /// to run the template's tools).
    pub fn start(task: &str, tool_manifest: &str, max_steps: usize, baseline: Option<CoverageBaseline>) -> (r: (
        ReactLoop,
        ReactAction,
    ))
        ensures
            r.0.task@ == task@,
            r.0.max_steps == max_steps,
            r.0.baseline == baseline,
            r.0.step == 0,
            r.0.turns@.len() == 0,
            r.0.first_token_latency_ms is None,
            r.0.transcript@ == react_prompt_spec(task@, tool_manifest@),
            advanced(r.0, r.1),
    {
        let prompt = format_react_system_prompt(task, tool_manifest);
        let mut s = ReactLoop {
            task: string_of(&chars_of(task)),
            transcript: chars_of(prompt.as_str()),
            turns: Vec::new(),
            step: 0,
            max_steps,
            first_token_latency_ms: None,
            baseline,
            stage: ReactStage::AwaitOutput,
            pending_output: Vec::new(),
            pending_call: None,
        };
        let a = s.advance();
        (s, a)
    }

    /// The model's output for the current step, `elapsed_ms` after the run began: a
    /// `<final>` report finishes the loop; a `<call>` body is handed over for decoding;
    /// anything else is answered with a nudge and ends the step.
    pub fn on_output(&mut self, output: &str, elapsed_ms: u64) -> (a: ReactAction)
        requires
            output_ok(*old(self), output@),
        ensures
            output_step(*old(self), *final(self), output@, elapsed_ms, a),
    {
        if self.first_token_latency_ms.is_none() {
            self.first_token_latency_ms = Some(elapsed_ms);
        }
        match extract_tag(output, "final") {
            Some(f) => {
                self.stage = ReactStage::Done;
                return ReactAction::Finish(answer_from(f.as_str(), &self.turns));
            },
            None => {},
        }
        match extract_tag(output, "call") {
            Some(body) => {
                self.pending_output = chars_of(output);
                self.stage = ReactStage::AwaitCall;
                ReactAction::ParseCall(body)
            },
            None => {
                let ghost before = self.transcript@;
                push_str(&mut self.transcript, "\n");
                push_str(&mut self.transcript, output);
                push_str(
                    &mut self.transcript,
                    "\nObservation: No action detected. Respond with <call>...</call> to use a tool or <final>...</final> to finish.\n",
                );
                assert(self.transcript@ =~= before + nudge_text(output@));
                self.step = self.step + 1;
                self.advance()
            },
        }
    }

    /// The decoded `<call>` body: a value naming a tool is run (with the baseline lists
    /// added); anything else is answered with a format reminder and ends the step.
    pub fn on_parsed(&mut self, parsed: Option<JsonValue>) -> (a: ReactAction)
        requires
            parsed_ok(*old(self), parsed),
        ensures
            parsed_step(*old(self), *final(self), parsed, a),
    {
        let ghost p0 = parsed;
        let call = match parsed {
            Some(p) => tool_call_from_json(p),
            None => None,
        };
        match call {
            Some(mut c) => {
                let ghost before = c;
                apply_coverage_baseline_to_call(&self.baseline, &mut c);
                proof {
                    let p = p0->0;
                    assert(crate::agent::call_spec_ok(p, before));
                    assert(base_members(before.args) =~= match crate::json::json_get(p, "args"@) {
                        Some(a) => base_members(a),
                        None => Seq::<(String, JsonValue)>::empty(),
                    });
                }
                self.pending_call = Some(c);
                self.stage = ReactStage::AwaitObservation;
                ReactAction::Execute
            },
            None => {
                let ghost before = self.transcript@;
                push_str(&mut self.transcript, "\n");
                push_all(&mut self.transcript, &self.pending_output.clone());
                push_str(
                    &mut self.transcript,
                    "\nObservation: ERROR — could not parse tool call. Use <call>{\"tool\":\"name\",\"args\":{...}}</call> format.\n",
                );
                assert(self.transcript@ =~= before + parse_error_text(self.pending_output@));
                self.step = self.step + 1;
                self.advance()
            },
        }
    }

    /// A tool's observation: the pending call becomes a turn, and the observation's
    /// compact JSON (cut to 2000 bytes) is added to the transcript; the step is over.
    pub fn on_observation(&mut self, observation: JsonValue) -> (a: ReactAction)
        requires
            observed_ok(*old(self), observation),
        ensures
            observed_step(*old(self), *final(self), observation, a),
    {
        let text = compact_json(&observation);
        let cut = match truncate_bytes(&chars_of(text.as_str()), 2000) {
            Some(c) => c,
            None => {
                proof {
                    assert(false);
                }
                Vec::new()
            },
        };
        let ghost before = self.transcript@;
        push_str(&mut self.transcript, "\n");
        push_all(&mut self.transcript, &self.pending_output.clone());
        push_str(&mut self.transcript, "\nObservation: ");
        push_all(&mut self.transcript, &cut);
        push_str(&mut self.transcript, "\n");
        assert(self.transcript@ =~= before + "\n"@ + self.pending_output@ + "\nObservation: "@ + truncated(
            json_compact_text(observation),
            2000,
        )->0 + "\n"@);
        let call = match self.pending_call.take() {
            Some(c) => c,
            None => {
                proof {
                    assert(false);
                }
                ToolCall { tool: String::new(), args: JsonValue::Null }
            },
        };
        let mut thought = chars_of("ReAct step ");
        push_all(&mut thought, &usize_dec(self.step + 1));
        push_str(&mut thought, ": invoking ");
        push_str(&mut thought, call.tool.as_str());
        let ghost old_turns = self.turns@;
        let ghost c = call;
        let turn = AgentTurn {
            thought: string_of(&thought),
            tool_call: Some(call),
            observation: Some(observation),
            elapsed_ms: None,
        };
        let ghost t = turn;
        self.turns.push(turn);
        self.step = self.step + 1;
        proof {
            assert(self.turns@.drop_last() =~= old_turns);
            assert(self.turns@.last() == t);
            assert(tool_label(t) == c.tool@);
            lemma_observed_count_bound(old_turns);
            assert(react_turn_ok(t, (self.step - 1) as nat, c, observation));
        }
        self.advance()
    }

    /// The turns of the template's tools; the step budget is spent, so the evidence is
    /// handed to the model for synthesis.
    pub fn on_template_turns(&mut self, turns: Vec<AgentTurn>) -> (a: ReactAction)
        requires
            template_ok(*old(self), turns@),
        ensures
            template_step(*old(self), *final(self), turns@, a),
    {
        self.turns = turns;
        self.stage = ReactStage::AwaitSynthesis;
        let evidence = build_evidence_summary(&self.turns);
        ReactAction::Synthesize(format_synthesis_prompt(self.task.as_str(), evidence.as_str()))
    }

    /// The model's synthesis: its `<final>` report (or the whole output when it has
    /// none) becomes the final answer.
    pub fn on_synthesis(&mut self, output: &str) -> (a: ReactAction)
        requires
            old(self).stage == ReactStage::AwaitSynthesis,
        ensures
            synthesis_step(*old(self), *final(self), output@, a),
    {
        self.stage = ReactStage::Done;
        let raw = match extract_tag(output, "final") {
            Some(f) => f,
            None => string_of(&chars_of(output)),
        };
        ReactAction::Finish(answer_from(raw.as_str(), &self.turns))
    }
}

/// A tool's observation may be handled: a call is pending, and neither the transcript
/// nor (when this is the last step) the evidence summary cuts text inside a character.
pub open spec fn observed_ok(o: ReactLoop, observation: JsonValue) -> bool {
    &&& o.stage == ReactStage::AwaitObservation
    &&& o.step < o.max_steps
    &&& o.pending_call is Some
    &&& truncated(json_compact_text(observation), 2000) is Some
    &&& o.step + 1 >= o.max_steps ==> evidence_summary_spec(o.turns@, usize::MAX as nat) is Some
        && truncated(json_compact_text(observation), 3000) is Some
}

/// What handling a tool's observation does (see [`ReactLoop::on_observation`]).
pub open spec fn observed_step(o: ReactLoop, n: ReactLoop, observation: JsonValue, a: ReactAction) -> bool {
    &&& keeps(n, o)
    &&& n.first_token_latency_ms == o.first_token_latency_ms
    &&& n.step == o.step + 1
    &&& n.pending_call is None
    &&& n.turns@.len() == o.turns@.len() + 1
    &&& n.turns@.drop_last() == o.turns@
    &&& react_turn_ok(n.turns@.last(), o.step as nat, o.pending_call->0, observation)
    &&& n.transcript@ == o.transcript@ + "\n"@ + o.pending_output@ + "\nObservation: "@ + truncated(
        json_compact_text(observation),
        2000,
    )->0 + "\n"@
    &&& advanced(n, a)
}

/// The template's turns may be handled: their evidence summary cuts no character.
pub open spec fn template_ok(o: ReactLoop, turns: Seq<AgentTurn>) -> bool {
    &&& o.stage == ReactStage::AwaitTemplate
    &&& evidence_summary_spec(turns, usize::MAX as nat) is Some
}

/// What handling the template's turns does (see [`ReactLoop::on_template_turns`]).
pub open spec fn template_step(o: ReactLoop, n: ReactLoop, turns: Seq<AgentTurn>, a: ReactAction) -> bool {
    &&& keeps(n, o)
    &&& n.turns@ == turns
    &&& n.step == o.step
    &&& n.transcript == o.transcript
    &&& n.stage == ReactStage::AwaitSynthesis
    &&& a matches ReactAction::Synthesize(p) && (evidence_summary_spec(turns, usize::MAX as nat) matches Some(e)
        && p@ == synthesis_prompt_spec(o.task@, e))
}

/// What handling the model's synthesis does (see [`ReactLoop::on_synthesis`]).
pub open spec fn synthesis_step(o: ReactLoop, n: ReactLoop, output: Seq<char>, a: ReactAction) -> bool {
    &&& keeps(n, o)
    &&& n.turns == o.turns
    &&& n.stage == ReactStage::Done
    &&& a matches ReactAction::Finish(ans) && ans@ == answer_spec(
        match extract_tag_spec(output, "final"@) {
            Some(f) => f,
            None => output,
        },
        o.turns@,
    )
}

/// The model's output may be handled: a step remains, and finishing the step with a
/// nudge does not cut evidence inside a character.
pub open spec fn output_ok(o: ReactLoop, output: Seq<char>) -> bool {
    &&& o.stage == ReactStage::AwaitOutput
    &&& o.step < o.max_steps
    &&& extract_tag_spec(output, "final"@) is None && extract_tag_spec(output, "call"@) is None ==> can_advance(
        (o.step + 1) as nat,
        o.max_steps as nat,
        o.turns@,
    )
}

/// What handling the model's output does (see [`ReactLoop::on_output`]).
pub open spec fn output_step(o: ReactLoop, n: ReactLoop, output: Seq<char>, elapsed_ms: u64, a: ReactAction) -> bool {
    &&& keeps(n, o)
    &&& n.turns == o.turns
    &&& n.pending_call == o.pending_call
    &&& n.first_token_latency_ms == match o.first_token_latency_ms {
        Some(x) => Some(x),
        None => Some(elapsed_ms),
    }
    &&& match extract_tag_spec(output, "final"@) {
        Some(f) => {
            &&& n.stage == ReactStage::Done
            &&& n.step == o.step
            &&& n.transcript == o.transcript
            &&& a matches ReactAction::Finish(ans) && ans@ == answer_spec(f, o.turns@)
        },
        None => match extract_tag_spec(output, "call"@) {
            Some(body) => {
                &&& n.stage == ReactStage::AwaitCall
                &&& n.step == o.step
                &&& n.transcript == o.transcript
                &&& n.pending_output@ == output
                &&& a matches ReactAction::ParseCall(x) && x@ == body
            },
            None => {
                &&& n.step == o.step + 1
                &&& n.transcript@ == o.transcript@ + nudge_text(output)
                &&& advanced(n, a)
            },
        },
    }
}

/// A decoded `<call>` value may be handled: a step remains, and finishing the step
/// with a reminder does not cut evidence inside a character.
pub open spec fn parsed_ok(o: ReactLoop, parsed: Option<JsonValue>) -> bool {
    &&& o.stage == ReactStage::AwaitCall
    &&& o.step < o.max_steps
    &&& !names_tool(parsed) ==> can_advance((o.step + 1) as nat, o.max_steps as nat, o.turns@)
}

/// What handling a decoded `<call>` value does (see [`ReactLoop::on_parsed`]).
pub open spec fn parsed_step(o: ReactLoop, n: ReactLoop, parsed: Option<JsonValue>, a: ReactAction) -> bool {
    &&& keeps(n, o)
    &&& n.turns == o.turns
    &&& n.first_token_latency_ms == o.first_token_latency_ms
    &&& if names_tool(parsed) {
        &&& n.stage == ReactStage::AwaitObservation
        &&& n.step == o.step
        &&& n.transcript == o.transcript
        &&& n.pending_output == o.pending_output
        &&& a is Execute
        &&& n.pending_call matches Some(c) && call_prepared(parsed->0, c, o.baseline)
    } else {
        &&& n.step == o.step + 1
        &&& n.transcript@ == o.transcript@ + parse_error_text(o.pending_output@)
        &&& advanced(n, a)
    }
}

/// What the host observed since the last action.
pub enum ReactEvent {
    /// The model's output and the milliseconds since the run began.
    Output(String, u64),
    /// The decoded `<call>` body, or nothing when it was not JSON.
    Parsed(Option<JsonValue>),
    /// The pending call's observation.
    Observed(JsonValue),
    /// The turns of the template's tools.
    TemplateTurns(Vec<AgentTurn>),
    /// The model's synthesis.
    Synthesis(String),
}

impl ReactLoop {
    /// Handles an event when the loop waits for it and handling it cuts no text
    /// inside a character (where slicing would panic); otherwise leaves the loop as it
    /// is and returns nothing.
    pub fn try_step(&mut self, event: ReactEvent) -> (r: Option<ReactAction>)
        ensures
            match event {
                ReactEvent::Output(t, e) => if output_ok(*old(self), t@) {
                    r matches Some(a) && output_step(*old(self), *final(self), t@, e, a)
                } else {
                    r is None && *final(self) == *old(self)
                },
                ReactEvent::Parsed(p) => if parsed_ok(*old(self), p) {
                    r matches Some(a) && parsed_step(*old(self), *final(self), p, a)
                } else {
                    r is None && *final(self) == *old(self)
                },
                ReactEvent::Observed(o) => if observed_ok(*old(self), o) {
                    r matches Some(a) && observed_step(*old(self), *final(self), o, a)
                } else {
                    r is None && *final(self) == *old(self)
                },
                ReactEvent::TemplateTurns(ts) => if template_ok(*old(self), ts@) {
                    r matches Some(a) && template_step(*old(self), *final(self), ts@, a)
                } else {
                    r is None && *final(self) == *old(self)
                },
                ReactEvent::Synthesis(t) => if old(self).stage == ReactStage::AwaitSynthesis {
                    r matches Some(a) && synthesis_step(*old(self), *final(self), t@, a)
                } else {
                    r is None && *final(self) == *old(self)
                },
            },
    {
        match event {
            ReactEvent::Output(t, e) => {
                if self.stage != ReactStage::AwaitOutput || self.step >= self.max_steps {
                    return None;
                }
                let f = extract_tag(t.as_str(), "final");
                let c = extract_tag(t.as_str(), "call");
                if f.is_none() && c.is_none() && self.step + 1 >= self.max_steps && self.turns.len() > 0 {
                    if try_build_evidence_summary(&self.turns, usize::MAX).is_none() {
                        return None;
                    }
                }
                Some(self.on_output(t.as_str(), e))
            },
            ReactEvent::Parsed(p) => {
                if self.stage != ReactStage::AwaitCall || self.step >= self.max_steps {
                    return None;
                }
                let names = match &p {
                    Some(v) => v.get_str("tool").is_some(),
                    None => false,
                };
                if !names && self.step + 1 >= self.max_steps && self.turns.len() > 0 {
                    if try_build_evidence_summary(&self.turns, usize::MAX).is_none() {
                        return None;
                    }
                }
                Some(self.on_parsed(p))
            },
            ReactEvent::Observed(o) => {
                if self.stage != ReactStage::AwaitObservation || self.step >= self.max_steps
                    || self.pending_call.is_none() {
                    return None;
                }
                let text = compact_json(&o);
                let chars = chars_of(text.as_str());
                if truncate_bytes(&chars, 2000).is_none() {
                    return None;
                }
                if self.step + 1 >= self.max_steps {
                    if try_build_evidence_summary(&self.turns, usize::MAX).is_none() {
                        return None;
                    }
                    if truncate_bytes(&chars, 3000).is_none() {
                        return None;
                    }
                }
                Some(self.on_observation(o))
            },
            ReactEvent::TemplateTurns(ts) => {
                if self.stage != ReactStage::AwaitTemplate {
                    return None;
                }
                if try_build_evidence_summary(&ts, usize::MAX).is_none() {
                    return None;
                }
                Some(self.on_template_turns(ts))
            },
            ReactEvent::Synthesis(t) => {
                if self.stage != ReactStage::AwaitSynthesis {
                    return None;
                }
                Some(self.on_synthesis(t.as_str()))
            },
        }
    }
}

// ---------------------------------------------------------------------------
// Template-driven runs and the finished report
// ---------------------------------------------------------------------------

/// The tools the template runs: its tools up to the step budget, without `read_syslog`
/// when the default log cannot be read.
pub open spec fn template_tool_names(tools: Seq<Seq<char>>, max_steps: nat, syslog_readable: bool) -> Seq<Seq<char>>
    decreases tools.len(),
{
    if tools.len() == 0 {
        seq![]
    } else {
        let rest = template_tool_names(tools.drop_last(), max_steps, syslog_readable);
        if tools.len() > max_steps {
            template_tool_names(tools.take(max_steps as int), max_steps, syslog_readable)
        } else if tools.last() == "read_syslog"@ && !syslog_readable {
            rest
        } else {
            rest.push(tools.last())
        }
    }
}

/// A template call: the tool with empty arguments, with the baseline lists added when
/// there is a baseline.
pub open spec fn template_call_ok(c: ToolCall, tool: Seq<char>, baseline: Option<CoverageBaseline>) -> bool {
    &&& c.tool@ == tool
    &&& c.args matches JsonValue::Object(m) && match baseline {
        None => m@.len() == 0,
        Some(b) => baseline_applied(seq![], m@, baseline_keys(tool), baseline_lists(tool, b)),
    }
}

proof fn lemma_template_names_prefix(tools: Seq<Seq<char>>, max_steps: nat, ok: bool, i: int)
    requires
        0 <= i < tools.len(),
        i < max_steps,
    ensures
        template_tool_names(tools.take(i + 1), max_steps, ok) == if tools[i] == "read_syslog"@ && !ok {
            template_tool_names(tools.take(i), max_steps, ok)
        } else {
            template_tool_names(tools.take(i), max_steps, ok).push(tools[i])
        },
{
    assert(tools.take(i + 1).drop_last() =~= tools.take(i));
}

proof fn lemma_template_names_cap(tools: Seq<Seq<char>>, max_steps: nat, ok: bool)
    ensures
        template_tool_names(tools, max_steps, ok) == template_tool_names(
            tools.take(if max_steps < tools.len() { max_steps as int } else { tools.len() as int }),
            max_steps,
            ok,
        ),
{
    if tools.len() <= max_steps {
        assert(tools.take(tools.len() as int) =~= tools);
    }
}

/// The calls of a template-driven run: the investigation template of the task (see
/// [`crate::templates::resolved_template`]) supplies the tools.
pub fn template_calls(task: &str, max_steps: usize, syslog_readable: bool, baseline: &Option<CoverageBaseline>) -> (r: Vec<ToolCall>)
    ensures
        r@.len() == template_tool_names(crate::templates::resolved_template(task@).tools, max_steps as nat, syslog_readable).len(),
        forall|i: int|
            0 <= i < r@.len() ==> template_call_ok(
                #[trigger] r@[i],
                template_tool_names(crate::templates::resolved_template(task@).tools, max_steps as nat, syslog_readable)[i],
                *baseline,
            ),
{
    let template = crate::templates::resolve_investigation_template(task);
    let ghost tools = template@.tools;
    let n = if max_steps < template.tools.len() { max_steps } else { template.tools.len() };
    let mut out: Vec<ToolCall> = Vec::new();
    let mut i: usize = 0;
    proof {
        reveal_strlit("read_syslog");
        lemma_template_names_cap(tools, max_steps as nat, syslog_readable);
        assert(template_tool_names(tools.take(0), max_steps as nat, syslog_readable) =~= Seq::<Seq<char>>::empty());
    }
    while i < n
        invariant
            i <= n,
            n <= tools.len(),
            n <= max_steps,
            tools == template@.tools,
            template@.tools.len() == template.tools@.len(),
            forall|k: int| 0 <= k < tools.len() ==> tools[k] == (#[trigger] template.tools@[k])@,
            out@.len() == template_tool_names(tools.take(i as int), max_steps as nat, syslog_readable).len(),
            forall|k: int|
                0 <= k < out@.len() ==> template_call_ok(
                    #[trigger] out@[k],
                    template_tool_names(tools.take(i as int), max_steps as nat, syslog_readable)[k],
                    *baseline,
                ),
        decreases n - i,
    {
        let name = template.tools[i];
        proof {
            lemma_template_names_prefix(tools, max_steps as nat, syslog_readable, i as int);
        }
        let skip = crate::text::chars_eq_str(&chars_of(name), "read_syslog") && !syslog_readable;
        if !skip {
            let mut call = ToolCall { tool: string_of(&chars_of(name)), args: JsonValue::Object(Vec::new()) };
            let ghost before = call;
            apply_coverage_baseline_to_call(baseline, &mut call);
            proof {
                assert(base_members(before.args) =~= Seq::<(String, JsonValue)>::empty());
            }
            let ghost prev = out@;
            out.push(call);
            proof {
                let names = template_tool_names(tools.take(i + 1), max_steps as nat, syslog_readable);
                assert forall|k: int| 0 <= k < out@.len() implies template_call_ok(
                    #[trigger] out@[k],
                    names[k],
                    *baseline,
                ) by {
                    if k < prev.len() {
                        assert(out@[k] == prev[k]);
                    }
                }
            }
        }
        i = i + 1;
    }
    proof {
        assert(tools.take(n as int) == tools.take(if (max_steps as nat) < tools.len() {
            max_steps as int
        } else {
            tools.len() as int
        }));
    }
    out
}

/// The turn recorded for a template tool run.
pub fn template_turn(call: ToolCall, observation: JsonValue) -> (t: AgentTurn)
    ensures
        t.thought@ == "Executing "@ + call.tool@ + " to gather evidence."@,
        t.tool_call == Some(call),
        t.observation == Some(observation),
        t.elapsed_ms is None,
{
    let mut thought = chars_of("Executing ");
    push_str(&mut thought, call.tool.as_str());
    push_str(&mut thought, " to gather evidence.");
    AgentTurn { thought: string_of(&thought), tool_call: Some(call), observation: Some(observation), elapsed_ms: None }
}

/// The turn called `tool`.
pub open spec fn calls_tool(t: AgentTurn, tool: Seq<char>) -> bool {
    t.tool_call matches Some(c) && c.tool@ == tool
}

/// Some turn of the run called `tool`.
pub open spec fn called(turns: Seq<AgentTurn>, tool: Seq<char>) -> bool {
    exists|i: int| 0 <= i < turns.len() && calls_tool(#[trigger] turns[i], tool)
}

/// A finding whose tool the run did not call is supplementary; the rest are unchanged.
pub open spec fn tagged(f: FindingView, turns: Seq<AgentTurn>) -> FindingView {
    match f.pointer.tool {
        Some(t) => if called(turns, t) {
            f
        } else {
            FindingView {
                title: f.title,
                severity: f.severity,
                confidence: f.confidence,
                label: f.label,
                factors: f.factors,
                relevance: FindingRelevance::Supplementary,
                pointer: f.pointer,
                action: f.action,
            }
        },
        None => f,
    }
}

pub open spec fn tagged_all(fs: Seq<FindingView>, turns: Seq<AgentTurn>) -> Seq<FindingView> {
    Seq::new(fs.len(), |i: int| tagged(fs[i], turns))
}

fn tool_called(turns: &Vec<AgentTurn>, tool: &String) -> (r: bool)
    ensures
        r == called(turns@, tool@),
{
    let t = chars_of(tool.as_str());
    let mut i: usize = 0;
    while i < turns.len()
        invariant
            i <= turns@.len(),
            t@ == tool@,
            forall|k: int| 0 <= k < i ==> !calls_tool(#[trigger] turns@[k], tool@),
        decreases turns@.len() - i,
    {
        match &turns[i].tool_call {
            Some(c) => {
                if crate::text::chars_eq(&chars_of(c.tool.as_str()), &t) {
                    assert(calls_tool(turns@[i as int], tool@));
                    return true;
                }
            },
            None => {},
        }
        i = i + 1;
    }
    false
}

/// Marks the findings whose tool the run did not call as supplementary.
pub fn tag_relevance(findings: &mut Vec<Finding>, turns: &Vec<AgentTurn>)
    ensures
        finding_views(final(findings)@) == tagged_all(finding_views(old(findings)@), turns@),
{
    let mut rest: Vec<Finding> = Vec::new();
    std::mem::swap(&mut rest, findings);
    let ghost orig = finding_views(rest@);
    let ghost all = rest@;
    let n = rest.len();
    let mut i: usize = 0;
    while rest.len() > 0
        invariant
            i + rest@.len() == n,
            n == all.len(),
            orig == finding_views(all),
            rest@ == all.skip(i as int),
            findings@.len() == i,
            forall|k: int| 0 <= k < i ==> (#[trigger] finding_views(findings@)[k]) == tagged(orig[k], turns@),
        decreases rest@.len(),
    {
        let mut f = rest.remove(0);
        assert(f == all[i as int]);
        assert(rest@ =~= all.skip(i + 1));
        let ghost fv0 = f@;
        let supplementary = match &f.evidence_pointer.tool {
            Some(t) => !tool_called(turns, t),
            None => false,
        };
        if supplementary {
            f.relevance = FindingRelevance::Supplementary;
        }
        assert(f@ == tagged(fv0, turns@));
        let ghost prev = findings@;
        let ghost fv = f@;
        findings.push(f);
        proof {
            assert forall|k: int| 0 <= k < i + 1 implies (#[trigger] finding_views(findings@)[k]) == tagged(
                orig[k],
                turns@,
            ) by {
                if k < i {
                    assert(findings@[k] == prev[k]);
                    assert(finding_views(prev)[k] == tagged(orig[k], turns@));
                } else {
                    assert(findings@[k]@ == fv);
                    assert(orig[k] == all[k]@);
                    assert(fv0 == orig[k]);
                }
            }
        }
        i = i + 1;
    }
    assert(finding_views(findings@) =~= tagged_all(orig, turns@));
}

/// The findings of a finished run: derived from its turns, deduplicated, sorted, and
/// tagged by relevance.
pub open spec fn run_findings(turns: Seq<AgentTurn>) -> Seq<FindingView> {
    tagged_all(sort_spec(dedup_findings_spec(derive_findings_spec(turns, ""@))), turns)
}

/// The findings of a finished run come strongest first (severity, then confidence),
/// no evidence field other than `final_answer` and `observation.error` occurs twice,
/// and the report's severity is the highest among them.
pub proof fn lemma_run_findings_ordered_unique(turns: Seq<AgentTurn>)
    ensures
        crate::report::is_sorted(run_findings(turns)),
        crate::report::fields_unique(run_findings(turns)),
        max_severity_spec(run_findings(turns)) matches Some(m) ==> forall|i: int|
            0 <= i < run_findings(turns).len() ==> crate::model::severity_rank(
                (#[trigger] run_findings(turns)[i]).severity,
            ) <= crate::model::severity_rank(m),
{
    let d = dedup_findings_spec(derive_findings_spec(turns, ""@));
    crate::report::lemma_dedup_fields_unique(derive_findings_spec(turns, ""@));
    crate::report::lemma_sort_findings_order(d);
    crate::report::lemma_sort_keeps_unique(d);
    crate::report::lemma_max_severity_bounds(run_findings(turns));
    let sd = sort_spec(d);
    let out = run_findings(turns);
    assert forall|i: int| 0 <= i < out.len() implies (#[trigger] out[i]).severity == sd[i].severity
        && out[i].confidence == sd[i].confidence && out[i].pointer == sd[i].pointer by {}
    assert forall|i: int, j: int| 0 <= i < j < out.len() implies crate::report::ranks_ge(
        #[trigger] out[i],
        #[trigger] out[j],
    ) by {
        assert(crate::report::ranks_ge(sd[i], sd[j]));
    }
    assert forall|i: int, j: int|
        0 <= i < j < out.len() && (#[trigger] out[i]).pointer.field == (#[trigger] out[j]).pointer.field implies crate::report::never_deduped(
            out[i].pointer.field,
        ) by {
        assert(sd[i].pointer.field == sd[j].pointer.field);
    }
}

/// The report of a finished run (see [`run_findings`]); its severity is the strongest
/// among its findings.
pub fn finish_investigation(task: &str, turns: Vec<AgentTurn>, final_answer: String, run_timing: RunTimingMetrics) -> (r: RunReport)
    ensures
        r.task@ == task@,
        r.case_id is None,
        r.backend is None,
        r.live_fallback_decision is None,
        r.run_timing == Some(run_timing),
        r.live_run_metrics is None,
        r.turns@ == turns@,
        r.final_answer == final_answer,
        r.supplementary_findings@.len() == 0,
        finding_views(r.findings@) == run_findings(turns@),
        r.max_severity == max_severity_spec(run_findings(turns@)),
{
    proof {
        reveal_strlit("");
    }
    let derived = derive_findings(&turns, "");
    let mut findings = deduplicate_findings(derived);
    sort_findings(&mut findings);
    tag_relevance(&mut findings, &turns);
    let severity = max_severity(&findings);
    RunReport {
        task: string_of(&chars_of(task)),
        case_id: None,
        max_severity: severity,
        backend: None,
        live_fallback_decision: None,
        run_timing: Some(run_timing),
        live_run_metrics: None,
        turns,
        final_answer,
        findings,
        supplementary_findings: Vec::new(),
    }
}

/// The report of a task outside the tools' scope: no tools run, the scope finding
/// alone, informational severity.
pub fn out_of_scope_report(task: &str, scope_finding: Finding, run_timing: RunTimingMetrics) -> (r: RunReport)
    ensures
        r.task@ == task@,
        r.max_severity == Some(FindingSeverity::Info),
        r.run_timing == Some(run_timing),
        r.turns@.len() == 0,
        r.final_answer@
            == "Task is outside the scope of available host-local investigation tools. No tools were executed."@,
        r.findings@ == seq![scope_finding],
        r.case_id is None && r.backend is None && r.live_fallback_decision is None && r.live_run_metrics is None,
        r.supplementary_findings@.len() == 0,
{
    let mut findings: Vec<Finding> = Vec::new();
    findings.push(scope_finding);
    RunReport {
        task: string_of(&chars_of(task)),
        case_id: None,
        max_severity: Some(FindingSeverity::Info),
        backend: None,
        live_fallback_decision: None,
        run_timing: Some(run_timing),
        live_run_metrics: None,
        turns: Vec::new(),
        final_answer: string_of(
            &chars_of("Task is outside the scope of available host-local investigation tools. No tools were executed."),
        ),
        findings,
        supplementary_findings: Vec::new(),
    }
}

/// The final answer of a template-driven run: the basic summary of its deduplicated
/// findings.
pub fn basic_tier_answer(turns: &Vec<AgentTurn>) -> (r: String)
    ensures
        r@ == crate::summary::basic_summary_spec(dedup_findings_spec(derive_findings_spec(turns@, ""@)), None),
{
    proof {
        reveal_strlit("");
    }
    let derived = derive_findings(turns, "");
    let findings = deduplicate_findings(derived);
    crate::summary::basic_tier_summary(&findings)
}

/// What a template-driven run does first: a task outside the tools' scope ends at once
/// with its scope finding; any other task is investigated with its template's calls.
pub enum DryRunPlan {
    OutOfScope(Finding),
    Investigate(Vec<ToolCall>),
}

/// The plan of a template-driven run (see [`crate::templates::check_task_scope`] and
/// [`template_calls`]).
pub fn plan_dry_run(task: &str, max_steps: usize, syslog_readable: bool, baseline: &Option<CoverageBaseline>) -> (r: DryRunPlan)
    ensures
        match r {
            DryRunPlan::OutOfScope(f) => crate::templates::task_scope_spec(task@) == Some(f@),
            DryRunPlan::Investigate(calls) => {
                &&& crate::templates::task_scope_spec(task@) is None
                &&& calls@.len() == template_tool_names(
                    crate::templates::resolved_template(task@).tools,
                    max_steps as nat,
                    syslog_readable,
                ).len()
                &&& forall|i: int|
                    0 <= i < calls@.len() ==> template_call_ok(
                        #[trigger] calls@[i],
                        template_tool_names(
                            crate::templates::resolved_template(task@).tools,
                            max_steps as nat,
                            syslog_readable,
                        )[i],
                        *baseline,
                    )
            },
        },
{
    match crate::templates::check_task_scope(task) {
        Some(f) => DryRunPlan::OutOfScope(f),
        None => DryRunPlan::Investigate(template_calls(task, max_steps, syslog_readable, baseline)),
    }
}

} // verus!
