//! The agent's text protocol: the prompts it writes, the tags it reads back from the
//! model, the tool calls it decodes, and the baseline arguments it adds to them.
use vstd::prelude::*;

use crate::json::{field_of, json_get, JsonValue};
use crate::model::{CoverageBaseline, ToolCall};
use crate::text::{
    chars_of, chars_eq, find_from, first_occurrence_from, occurs_at, push_str, slice_chars,
    string_of, string_views, trim, trim_chars,
};

verus! {

// ---------------------------------------------------------------------------
// Prompts
// ---------------------------------------------------------------------------

pub open spec fn system_prompt_spec(manifest: Seq<char>) -> Seq<char> {
    "You are an autonomous security investigation agent. Act independently.\nTOOLS:\n"@ + manifest
        + "\nFORMAT: Respond with ONLY one XML tag per turn.\nTo call a tool: <call>{\"tool\":\"TOOL_NAME\",\"args\":{}}</call>\nTo finish: <final>SUMMARY: ...\nFINDINGS: ...\nRISK: ...\nACTIONS: ...</final>\nRULES: Your first response MUST be <call>. Call 2+ tools before <final>."@
}

/// The one-shot system prompt listing the tools and the reply format.
pub fn format_system_prompt(tool_manifest: &str) -> (r: String)
    ensures
        r@ == system_prompt_spec(tool_manifest@),
{
    let mut out = chars_of(
        "You are an autonomous security investigation agent. Act independently.\nTOOLS:\n",
    );
    push_str(&mut out, tool_manifest);
    push_str(
        &mut out,
        "\nFORMAT: Respond with ONLY one XML tag per turn.\nTo call a tool: <call>{\"tool\":\"TOOL_NAME\",\"args\":{}}</call>\nTo finish: <final>SUMMARY: ...\nFINDINGS: ...\nRISK: ...\nACTIONS: ...</final>\nRULES: Your first response MUST be <call>. Call 2+ tools before <final>.",
    );
    string_of(&out)
}

pub open spec fn react_prompt_spec(task: Seq<char>, manifest: Seq<char>) -> Seq<char> {
    "You are an autonomous security investigation agent using a ReAct loop.\nAvailable tools:\n"@
        + manifest + "\n\nTask: "@ + task
        + "\n\nAt each step, decide your next action.\nTo call a tool, respond with: <call>{\"tool\":\"tool_name\",\"args\":{...}}</call>\nWhen you have enough evidence, write your final report: <final>SUMMARY: ...\nFINDINGS: ...\nRISK: ...\nACTIONS: ...</final>\n\nBegin your investigation.\n"@
}

/// The first prompt of the reasoning loop: the tools, the task and the reply format.
pub fn format_react_system_prompt(task: &str, tool_manifest: &str) -> (r: String)
    ensures
        r@ == react_prompt_spec(task@, tool_manifest@),
{
    let mut out = chars_of(
        "You are an autonomous security investigation agent using a ReAct loop.\nAvailable tools:\n",
    );
    push_str(&mut out, tool_manifest);
    push_str(&mut out, "\n\nTask: ");
    push_str(&mut out, task);
    push_str(
        &mut out,
        "\n\nAt each step, decide your next action.\nTo call a tool, respond with: <call>{\"tool\":\"tool_name\",\"args\":{...}}</call>\nWhen you have enough evidence, write your final report: <final>SUMMARY: ...\nFINDINGS: ...\nRISK: ...\nACTIONS: ...</final>\n\nBegin your investigation.\n",
    );
    string_of(&out)
}

pub open spec fn synthesis_prompt_spec(task: Seq<char>, evidence: Seq<char>) -> Seq<char> {
    "You are a security analyst conducting a host-level investigation.\n\nTASK (verbatim):\n"@ + task
        + "\n\nEVIDENCE from host investigation tools:\n"@ + evidence
        + "\nUsing ONLY the evidence above, write a structured report inside <final>...</final> tags.\nRequired sections:\nSUMMARY: One-line verdict of the investigation.\nFINDINGS: Numbered list of specific, evidence-backed observations.\nRISK: One of critical / high / medium / low / info — with a one-line justification.\nACTIONS: Numbered remediation or follow-up steps.\n\n<final>"@
}

/// The prompt that asks the model to write the report from the collected evidence.
pub fn format_synthesis_prompt(task: &str, evidence: &str) -> (r: String)
    ensures
        r@ == synthesis_prompt_spec(task@, evidence@),
{
    let mut out = chars_of(
        "You are a security analyst conducting a host-level investigation.\n\nTASK (verbatim):\n",
    );
    push_str(&mut out, task);
    push_str(&mut out, "\n\nEVIDENCE from host investigation tools:\n");
    push_str(&mut out, evidence);
    push_str(
        &mut out,
        "\nUsing ONLY the evidence above, write a structured report inside <final>...</final> tags.\nRequired sections:\nSUMMARY: One-line verdict of the investigation.\nFINDINGS: Numbered list of specific, evidence-backed observations.\nRISK: One of critical / high / medium / low / info — with a one-line justification.\nACTIONS: Numbered remediation or follow-up steps.\n\n<final>",
    );
    string_of(&out)
}

// ---------------------------------------------------------------------------
// Tags
// ---------------------------------------------------------------------------

/// The first index at or after `from` where `needle` occurs (`str::find`).
pub open spec fn find_spec(hay: Seq<char>, needle: Seq<char>, from: int) -> Option<int> {
    if exists|i: int| first_occurrence_from(hay, needle, from, i) {
        Some(choose|i: int| first_occurrence_from(hay, needle, from, i))
    } else {
        None
    }
}

proof fn lemma_find_spec(hay: Seq<char>, needle: Seq<char>, from: int, r: Option<usize>)
    requires
        match r {
            Some(i) => first_occurrence_from(hay, needle, from, i as int),
            None => forall|k: int| from <= k ==> !occurs_at(hay, needle, k),
        },
    ensures
        find_spec(hay, needle, from) == match r {
            Some(i) => Some(i as int),
            None => None::<int>,
        },
{
    match r {
        Some(i) => {
            let j = choose|j: int| first_occurrence_from(hay, needle, from, j);
            assert(first_occurrence_from(hay, needle, from, j));
            if j < i {
                assert(!occurs_at(hay, needle, j));
            }
            if i < j {
                assert(!occurs_at(hay, needle, i as int));
            }
        },
        None => {
            assert forall|i: int| !first_occurrence_from(hay, needle, from, i) by {
                if from <= i {
                    assert(!occurs_at(hay, needle, i));
                }
            }
        },
    }
}

/// The trimmed text between the first `<tag>` and the first `</tag>` after it.
pub open spec fn extract_tag_spec(text: Seq<char>, tag: Seq<char>) -> Option<Seq<char>> {
    let open = "<"@ + tag + ">"@;
    let close = "</"@ + tag + ">"@;
    match find_spec(text, open, 0) {
        None => None,
        Some(i) => {
            let start = i + open.len();
            match find_spec(text, close, start) {
                None => None,
                Some(e) => Some(trim(text.subrange(start, e))),
            }
        },
    }
}

/// The trimmed content of the first `<tag>...</tag>` element of a model reply.
pub fn extract_tag(text: &str, tag: &str) -> (r: Option<String>)
    ensures
        match r {
            Some(s) => extract_tag_spec(text@, tag@) == Some(s@),
            None => extract_tag_spec(text@, tag@) is None,
        },
{
    let t = chars_of(text);
    let mut open = chars_of("<");
    push_str(&mut open, tag);
    push_str(&mut open, ">");
    let mut close = chars_of("</");
    push_str(&mut close, tag);
    push_str(&mut close, ">");
    let found = find_from(&t, &open, 0);
    proof {
        lemma_find_spec(t@, open@, 0, found);
    }
    let i = match found {
        Some(i) => i,
        None => return None,
    };
    assert(occurs_at(t@, open@, i as int));
    let tl = t.len();
    assert(i + open@.len() <= tl);
    let start = i + open.len();
    let found_end = find_from(&t, &close, start);
    proof {
        lemma_find_spec(t@, close@, start as int, found_end);
    }
    let e = match found_end {
        Some(e) => e,
        None => return None,
    };
    let inner = slice_chars(&t, start, e);
    let trimmed = trim_chars(&inner);
    Some(string_of(&trimmed))
}

// ---------------------------------------------------------------------------
// Tool calls
// ---------------------------------------------------------------------------

/// The index of the first object member named `key`.
fn member_index(fields: &Vec<(String, JsonValue)>, key: &str) -> (r: Option<usize>)
    ensures
        match r {
            Some(i) => i < fields@.len() && fields@[i as int].0@ == key@ && field_of(fields@, key@)
                == Some(fields@[i as int].1),
            None => field_of(fields@, key@) is None,
        },
{
    let k = chars_of(key);
    let mut i: usize = 0;
    assert(fields@.skip(0) =~= fields@);
    while i < fields.len()
        invariant
            i <= fields@.len(),
            k@ == key@,
            field_of(fields@, key@) == field_of(fields@.skip(i as int), key@),
        decreases fields@.len() - i,
    {
        assert(fields@.skip(i as int).drop_first() =~= fields@.skip(i + 1));
        assert(fields@.skip(i as int)[0] == fields@[i as int]);
        let name = chars_of(fields[i].0.as_str());
        if chars_eq(&name, &k) {
            return Some(i);
        }
        i = i + 1;
    }
    None
}

/// A decoded `{"tool": ..., "args": ...}` value: the tool is the `tool` member, which
/// must be a string; the arguments are the `args` member, or an empty object.
pub open spec fn call_spec_ok(parsed: JsonValue, call: ToolCall) -> bool {
    &&& json_get(parsed, "tool"@) matches Some(JsonValue::Str(t)) && t@ == call.tool@
    &&& match json_get(parsed, "args"@) {
        Some(a) => call.args == a,
        None => call.args matches JsonValue::Object(m) && m@.len() == 0,
    }
}

/// A tool call as its serialized form decodes: an object whose `tool` member is a
/// string, with the `args` member or `null`; or a list of the tool name and, optionally,
/// the arguments.
pub open spec fn decoded_call(v: JsonValue) -> Option<(Seq<char>, JsonValue)> {
    match v {
        JsonValue::Object(m) => match field_of(m@, "tool"@) {
            Some(JsonValue::Str(t)) => Some(
                (
                    t@,
                    match field_of(m@, "args"@) {
                        Some(a) => a,
                        None => JsonValue::Null,
                    },
                ),
            ),
            _ => None,
        },
        JsonValue::Array(items) => if (items@.len() == 1 || items@.len() == 2) && items@[0] is Str {
            Some((items@[0]->Str_0@, if items@.len() == 2 { items@[1] } else { JsonValue::Null }))
        } else {
            None
        },
        _ => None,
    }
}

/// Decodes a serialized tool call (see [`decoded_call`]).
pub fn decode_tool_call(v: JsonValue) -> (r: Option<ToolCall>)
    ensures
        match decoded_call(v) {
            Some((t, a)) => r matches Some(c) && c.tool@ == t && c.args == a,
            None => r is None,
        },
{
    match v {
        JsonValue::Object(mut fields) => {
            let ti = match member_index(&fields, "tool") {
                Some(ti) => ti,
                None => return None,
            };
            let tool = match &fields[ti].1 {
                JsonValue::Str(s) => string_of(&chars_of(s.as_str())),
                _ => return None,
            };
            let args = match member_index(&fields, "args") {
                Some(ai) => fields.swap_remove(ai).1,
                None => JsonValue::Null,
            };
            Some(ToolCall { tool, args })
        },
        JsonValue::Array(mut items) => {
            if items.len() != 1 && items.len() != 2 {
                return None;
            }
            let tool = match &items[0] {
                JsonValue::Str(s) => string_of(&chars_of(s.as_str())),
                _ => return None,
            };
            let args = if items.len() == 2 {
                items.pop().unwrap()
            } else {
                JsonValue::Null
            };
            Some(ToolCall { tool, args })
        },
        _ => None,
    }
}

/// The tool call held by a decoded `<call>` body; `None` when it names no tool.
pub fn tool_call_from_json(parsed: JsonValue) -> (r: Option<ToolCall>)
    ensures
        match r {
            Some(c) => call_spec_ok(parsed, c),
            None => !(json_get(parsed, "tool"@) matches Some(JsonValue::Str(_))),
        },
{
    let ghost orig = parsed;
    match parsed {
        JsonValue::Object(mut fields) => {
            let ti = match member_index(&fields, "tool") {
                Some(ti) => ti,
                None => return None,
            };
            let tool = match &fields[ti].1 {
                JsonValue::Str(s) => string_of(&chars_of(s.as_str())),
                _ => return None,
            };
            let args = match member_index(&fields, "args") {
                Some(ai) => {
                    let pair = fields.swap_remove(ai);
                    pair.1
                },
                None => JsonValue::Object(Vec::new()),
            };
            Some(ToolCall { tool, args })
        },
        _ => None,
    }
}

// ---------------------------------------------------------------------------
// Baseline arguments
// ---------------------------------------------------------------------------

/// `v` is a JSON array of the strings `vals`, in order.
pub open spec fn string_array(v: JsonValue, vals: Seq<Seq<char>>) -> bool {
    v matches JsonValue::Array(items) && items@.len() == vals.len() && forall|i: int|
        0 <= i < vals.len() ==> (#[trigger] items@[i] matches JsonValue::Str(s) && s@ == vals[i])
}

/// `after` is `before` with `key` set to the string list `vals`, unless `key` is
/// already present or the list is empty.
pub open spec fn list_arg_set(
    before: Seq<(String, JsonValue)>,
    after: Seq<(String, JsonValue)>,
    key: Seq<char>,
    vals: Seq<Seq<char>>,
) -> bool {
    if field_of(before, key) is Some || vals.len() == 0 {
        after == before
    } else {
        &&& after.len() == before.len() + 1
        &&& after.take(before.len() as int) == before
        &&& after.last().0@ == key
        &&& string_array(after.last().1, vals)
    }
}

pub(crate) fn string_array_of(values: &Vec<String>) -> (r: JsonValue)
    ensures
        string_array(r, string_views(values@)),
{
    let mut items: Vec<JsonValue> = Vec::new();
    let mut i: usize = 0;
    while i < values.len()
        invariant
            i <= values@.len(),
            items@.len() == i,
            forall|k: int| 0 <= k < i ==> (#[trigger] items@[k] matches JsonValue::Str(s) && s@
                == values@[k]@),
        decreases values@.len() - i,
    {
        let s = string_of(&chars_of(values[i].as_str()));
        items.push(JsonValue::Str(s));
        i = i + 1;
    }
    JsonValue::Array(items)
}

/// Adds `key: [values...]` to an argument object unless the key is already present or
/// there are no values.
pub fn set_string_list_arg(args: &mut Vec<(String, JsonValue)>, key: &str, values: &Vec<String>)
    ensures
        list_arg_set(old(args)@, final(args)@, key@, string_views(values@)),
{
    let present = member_index(args, key);
    if present.is_some() || values.len() == 0 {
        return;
    }
    let arr = string_array_of(values);
    let k = string_of(&chars_of(key));
    let ghost before = args@;
    args.push((k, arr));
    assert(args@.take(before.len() as int) =~= before);
}

/// The baseline lists that a tool takes, with the argument names it takes them under.
pub open spec fn baseline_keys(tool: Seq<char>) -> Seq<Seq<char>> {
    if tool == "inspect_persistence_locations"@ {
        seq!["baseline_entries"@]
    } else if tool == "audit_account_changes"@ {
        seq!["baseline_privileged_accounts"@, "approved_privileged_accounts"@]
    } else if tool == "correlate_process_network"@ {
        seq!["baseline_exposed_bindings"@, "expected_processes"@]
    } else {
        seq![]
    }
}

pub open spec fn baseline_lists(tool: Seq<char>, b: CoverageBaseline) -> Seq<Seq<Seq<char>>> {
    if tool == "inspect_persistence_locations"@ {
        seq![string_views(b.baseline_entries@)]
    } else if tool == "audit_account_changes"@ {
        seq![
            string_views(b.baseline_privileged_accounts@),
            string_views(b.approved_privileged_accounts@),
        ]
    } else if tool == "correlate_process_network"@ {
        seq![string_views(b.baseline_exposed_bindings@), string_views(b.expected_processes@)]
    } else {
        seq![]
    }
}

/// The members of a tool's arguments before baseline lists are added: the object's
/// members, or none when the arguments are not an object.
pub open spec fn base_members(args: JsonValue) -> Seq<(String, JsonValue)> {
    match args {
        JsonValue::Object(m) => m@,
        _ => seq![],
    }
}

/// `after` is `before` with each of the tool's baseline lists set in turn.
pub open spec fn baseline_applied(
    before: Seq<(String, JsonValue)>,
    after: Seq<(String, JsonValue)>,
    keys: Seq<Seq<char>>,
    lists: Seq<Seq<Seq<char>>>,
) -> bool {
    if keys.len() == 0 {
        after == before
    } else if keys.len() == 1 {
        list_arg_set(before, after, keys[0], lists[0])
    } else {
        exists|mid: Seq<(String, JsonValue)>|
            list_arg_set(before, mid, keys[0], lists[0]) && #[trigger] list_arg_set(
                mid,
                after,
                keys[1],
                lists[1],
            )
    }
}

/// Feeds the baseline of an earlier run to the coverage tools: with a baseline, the
/// call's arguments become an object (an empty one when they were not an object), and
/// each baseline list the tool takes is added under its argument name unless the
/// call already sets it.  Without a baseline the call is unchanged.
pub fn apply_coverage_baseline_to_call(baseline: &Option<CoverageBaseline>, call: &mut ToolCall)
    ensures
        match baseline {
            None => *final(call) == *old(call),
            Some(b) => {
                &&& final(call).tool == old(call).tool
                &&& final(call).args matches JsonValue::Object(m) && baseline_applied(
                    base_members(old(call).args),
                    m@,
                    baseline_keys(old(call).tool@),
                    baseline_lists(old(call).tool@, *b),
                )
            },
        },
{
    let b = match baseline {
        Some(b) => b,
        None => return,
    };
    let mut old_args = JsonValue::Null;
    std::mem::swap(&mut old_args, &mut call.args);
    let mut members: Vec<(String, JsonValue)> = match old_args {
        JsonValue::Object(m) => m,
        _ => Vec::new(),
    };
    let ghost start = members@;
    let name = chars_of(call.tool.as_str());
    let p = chars_of("inspect_persistence_locations");
    let a = chars_of("audit_account_changes");
    let c = chars_of("correlate_process_network");
    if chars_eq(&name, &p) {
        set_string_list_arg(&mut members, "baseline_entries", &b.baseline_entries);
    } else if chars_eq(&name, &a) {
        set_string_list_arg(
            &mut members,
            "baseline_privileged_accounts",
            &b.baseline_privileged_accounts,
        );
        let ghost mid = members@;
        set_string_list_arg(
            &mut members,
            "approved_privileged_accounts",
            &b.approved_privileged_accounts,
        );
        assert(list_arg_set(mid, members@, baseline_keys(name@)[1], baseline_lists(name@, *b)[1]));
    } else if chars_eq(&name, &c) {
        set_string_list_arg(
            &mut members,
            "baseline_exposed_bindings",
            &b.baseline_exposed_bindings,
        );
        let ghost mid = members@;
        set_string_list_arg(&mut members, "expected_processes", &b.expected_processes);
        assert(list_arg_set(mid, members@, baseline_keys(name@)[1], baseline_lists(name@, *b)[1]));
    }
    call.args = JsonValue::Object(members);
}

} // verus!
