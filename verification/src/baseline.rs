//! Reusing the coverage baseline of an earlier run: the baseline arrays that a
//! `capture_coverage_baseline` observation holds, found in an evidence bundle's raw
//! observations.
use vstd::prelude::*;

use crate::json::{json_get, JsonValue};
use crate::model::{clone_string, AgentTurn, CoverageBaseline};
use crate::text::{chars_of, push_str, string_of, string_views};
use crate::tools::{bounded_entries, string_entries};

verus! {

/// The value a baseline array is read from: `/section/key` in the observation, or the
/// observation's own `key` when the first is not there.
pub open spec fn baseline_source(obs: JsonValue, section: Seq<char>, key: Seq<char>) -> Option<JsonValue> {
    match json_get(obs, section) {
        Some(sec) => match json_get(sec, key) {
            Some(v) => Some(v),
            None => json_get(obs, key),
        },
        None => json_get(obs, key),
    }
}

/// A baseline array: the bounded string entries of its source list (at most 512),
/// sorted and deduplicated ignoring case; empty when the source is not a list.
pub open spec fn baseline_array(obs: JsonValue, section: Seq<char>, key: Seq<char>, max_chars: nat) -> Seq<Seq<char>> {
    match baseline_source(obs, section, key) {
        Some(JsonValue::Array(items)) => bounded_entries(items@, 512, max_chars),
        _ => seq![],
    }
}

/// `b` holds the baseline arrays of an observation.  Approved privileged accounts
/// default to the baseline privileged accounts.
pub open spec fn baseline_of(b: CoverageBaseline, obs: JsonValue) -> bool {
    let privileged = baseline_array(obs, "accounts"@, "baseline_privileged_accounts"@, 256);
    let approved = baseline_array(obs, "accounts"@, "approved_privileged_accounts"@, 256);
    &&& string_views(b.baseline_entries@) == baseline_array(obs, "persistence"@, "baseline_entries"@, 512)
    &&& string_views(b.baseline_privileged_accounts@) == privileged
    &&& string_views(b.approved_privileged_accounts@) == if approved.len() == 0 {
        privileged
    } else {
        approved
    }
    &&& string_views(b.baseline_exposed_bindings@) == baseline_array(obs, "network"@, "baseline_exposed_bindings"@, 256)
    &&& string_views(b.expected_processes@) == baseline_array(obs, "network"@, "expected_processes"@, 256)
}

fn baseline_value<'a>(obs: &'a JsonValue, section: &str, key: &str) -> (r: Option<&'a JsonValue>)
    ensures
        match r {
            Some(v) => baseline_source(*obs, section@, key@) == Some(*v),
            None => baseline_source(*obs, section@, key@) is None,
        },
{
    match obs.get(section) {
        Some(sec) => match sec.get(key) {
            Some(v) => Some(v),
            None => obs.get(key),
        },
        None => obs.get(key),
    }
}

fn baseline_list(obs: &JsonValue, section: &str, key: &str, max_chars: usize) -> (r: Vec<String>)
    ensures
        string_views(r@) == baseline_array(*obs, section@, key@, max_chars as nat),
{
    match baseline_value(obs, section, key) {
        Some(JsonValue::Array(items)) => string_entries(items, 512, max_chars),
        _ => {
            let r: Vec<String> = Vec::new();
            assert(string_views(r@) =~= Seq::<Seq<char>>::empty());
            r
        },
    }
}

fn copy_strings(v: &Vec<String>) -> (r: Vec<String>)
    ensures
        string_views(r@) == string_views(v@),
{
    let mut r: Vec<String> = Vec::new();
    let mut i: usize = 0;
    while i < v.len()
        invariant
            i <= v@.len(),
            r@.len() == i,
            forall|k: int| 0 <= k < i ==> r@[k]@ == v@[k]@,
        decreases v@.len() - i,
    {
        r.push(clone_string(&v[i]));
        i = i + 1;
    }
    assert(string_views(r@) =~= string_views(v@));
    r
}

/// The baseline arrays of a `capture_coverage_baseline` observation (see
/// [`baseline_of`]).
pub fn extract_coverage_baseline_from_observation(observation: &JsonValue) -> (r: CoverageBaseline)
    ensures
        baseline_of(r, *observation),
{
    let baseline_entries = baseline_list(observation, "persistence", "baseline_entries", 512);
    let baseline_privileged_accounts = baseline_list(observation, "accounts", "baseline_privileged_accounts", 256);
    let approved = baseline_list(observation, "accounts", "approved_privileged_accounts", 256);
    let approved_privileged_accounts = if approved.len() == 0 {
        copy_strings(&baseline_privileged_accounts)
    } else {
        approved
    };
    let baseline_exposed_bindings = baseline_list(observation, "network", "baseline_exposed_bindings", 256);
    let expected_processes = baseline_list(observation, "network", "expected_processes", 256);
    CoverageBaseline {
        baseline_entries,
        baseline_privileged_accounts,
        approved_privileged_accounts,
        baseline_exposed_bindings,
        expected_processes,
    }
}

// ---------------------------------------------------------------------------
// Raw observations
// ---------------------------------------------------------------------------

/// One observed turn of a run as an evidence bundle keeps it.
#[derive(Debug)]
pub struct RawObservationTurn {
    /// The turn's number, counted from 1.
    pub turn: usize,
    pub tool: Option<String>,
    pub args: Option<JsonValue>,
    pub observation: JsonValue,
}

/// The raw observations of a run.
#[derive(Debug)]
pub struct RawObservationsBundle {
    pub task: String,
    pub case_id: Option<String>,
    pub turns: Vec<RawObservationTurn>,
}

/// The turn names the baseline capture tool.
pub open spec fn is_baseline_turn(t: RawObservationTurn) -> bool {
    t.tool matches Some(name) && name@ == "capture_coverage_baseline"@
}

/// The position of the last baseline capture turn.
pub open spec fn last_baseline_turn(turns: Seq<RawObservationTurn>) -> Option<int>
    decreases turns.len(),
{
    if turns.len() == 0 {
        None
    } else if is_baseline_turn(turns.last()) {
        Some(turns.len() - 1)
    } else {
        last_baseline_turn(turns.drop_last())
    }
}

/// The baseline is empty in every array.
pub open spec fn baseline_empty(b: CoverageBaseline) -> bool {
    b.baseline_entries@.len() == 0 && b.baseline_privileged_accounts@.len() == 0
        && b.approved_privileged_accounts@.len() == 0 && b.baseline_exposed_bindings@.len() == 0
        && b.expected_processes@.len() == 0
}

/// The coverage baseline of a bundle's raw observations, read from the last baseline
/// capture turn; `raw_path` names the observations file in the messages.  Fails when
/// no turn captured a baseline, or when the captured arrays are all empty.
pub fn coverage_baseline_from_turns(turns: &Vec<RawObservationTurn>, raw_path: &str) -> (r: Result<
    CoverageBaseline,
    String,
>)
    ensures
        match last_baseline_turn(turns@) {
            None => r matches Err(e) && e@ == "No capture_coverage_baseline observation found in "@ + raw_path@,
            Some(i) => 0 <= i < turns@.len() && match r {
                Ok(b) => baseline_of(b, turns@[i].observation) && !baseline_empty(b),
                Err(e) => e@ == "Coverage baseline observation in "@ + raw_path@
                    + " did not contain reusable baseline arrays"@ && forall|b: CoverageBaseline|
                    #[trigger] baseline_of(b, turns@[i].observation) ==> baseline_empty(b),
            },
        },
{
    let mut i = turns.len();
    assert(turns@.take(i as int) =~= turns@);
    while i > 0
        invariant
            i <= turns@.len(),
            last_baseline_turn(turns@) == last_baseline_turn(turns@.take(i as int)),
        decreases i,
    {
        assert(turns@.take(i as int).drop_last() =~= turns@.take(i - 1));
        assert(turns@.take(i as int).last() == turns@[i - 1]);
        let hit = match &turns[i - 1].tool {
            Some(name) => crate::text::chars_eq_str(&chars_of(name.as_str()), "capture_coverage_baseline"),
            None => false,
        };
        if hit {
            let b = extract_coverage_baseline_from_observation(&turns[i - 1].observation);
            if b.is_empty() {
                let mut m = chars_of("Coverage baseline observation in ");
                push_str(&mut m, raw_path);
                push_str(&mut m, " did not contain reusable baseline arrays");
                proof {
                    assert forall|c: CoverageBaseline| #[trigger] baseline_of(c, turns@[i - 1].observation) implies baseline_empty(c) by {
                        assert(string_views(c.baseline_entries@).len() == string_views(b.baseline_entries@).len());
                        assert(string_views(c.baseline_privileged_accounts@).len() == string_views(b.baseline_privileged_accounts@).len());
                        assert(string_views(c.approved_privileged_accounts@).len() == string_views(b.approved_privileged_accounts@).len());
                        assert(string_views(c.baseline_exposed_bindings@).len() == string_views(b.baseline_exposed_bindings@).len());
                        assert(string_views(c.expected_processes@).len() == string_views(b.expected_processes@).len());
                    }
                }
                return Err(string_of(&m));
            }
            return Ok(b);
        }
        i = i - 1;
    }
    assert(turns@.take(0) =~= Seq::<RawObservationTurn>::empty());
    let mut m = chars_of("No capture_coverage_baseline observation found in ");
    push_str(&mut m, raw_path);
    Err(string_of(&m))
}

/// The raw observations of a run's turns: the turns that observed something, each
/// with its number among all turns and the tool and arguments of its call.
pub open spec fn raw_turns(turns: Seq<AgentTurn>) -> Seq<RawObservationTurn>
    decreases turns.len(),
{
    if turns.len() == 0 {
        seq![]
    } else {
        let rest = raw_turns(turns.drop_last());
        let t = turns.last();
        match t.observation {
            Some(o) => rest.push(
                RawObservationTurn {
                    turn: turns.len() as usize,
                    tool: match t.tool_call {
                        Some(c) => Some(c.tool),
                        None => None,
                    },
                    args: match t.tool_call {
                        Some(c) => Some(c.args),
                        None => None,
                    },
                    observation: o,
                },
            ),
            None => rest,
        }
    }
}

/// The raw observations bundle of a run's task, case and turns (see [`raw_turns`]).
pub fn build_raw_observations_bundle(task: String, case_id: Option<String>, turns: Vec<AgentTurn>) -> (r:
    RawObservationsBundle)
    requires
        turns@.len() < usize::MAX,
    ensures
        r.task == task,
        r.case_id == case_id,
        r.turns@ == raw_turns(turns@),
{
    let ghost all = turns@;
    let mut rest = turns;
    let mut out: Vec<RawObservationTurn> = Vec::new();
    let mut i: usize = 0;
    assert(all.take(0) =~= Seq::<AgentTurn>::empty());
    assert(all.skip(0) =~= all);
    while rest.len() > 0
        invariant
            i <= all.len(),
            all.len() < usize::MAX,
            rest@ == all.skip(i as int),
            out@ == raw_turns(all.take(i as int)),
        decreases rest@.len(),
    {
        let t = rest.remove(0);
        assert(t == all[i as int]);
        assert(all.skip(i as int).drop_first() =~= all.skip(i + 1));
        assert(all.take(i + 1).drop_last() =~= all.take(i as int));
        assert(all.take(i + 1).last() == all[i as int]);
        i = i + 1;
        match t.observation {
            Some(o) => {
                let (tool, args) = match t.tool_call {
                    Some(c) => (Some(c.tool), Some(c.args)),
                    None => (None, None),
                };
                out.push(RawObservationTurn { turn: i, tool, args, observation: o });
            },
            None => {},
        }
    }
    assert(all.take(i as int) =~= all);
    RawObservationsBundle { task, case_id, turns: out }
}

} // verus!
