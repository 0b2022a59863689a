//! What each host tool reports: its findings computed from the records it collected
//! and the arguments it was called with, as the JSON observation the agent reads.
use vstd::prelude::*;

use crate::agent::{string_array, string_array_of};
use crate::json::{is_str_member, is_uint_member, str_member, uint_member, value_member, JsonValue};
use crate::records::{
    opt_seq, AccountPrivilegeSnapshot, ListenerRecord, PersistenceEntry, ProcessNetworkRecord,
};
use crate::sandbox::{dedup_names, distinct_names};
use crate::text::{
    ascii_lower, chars_eq, chars_of, contains, contains_seq, push_all, push_str, string_of,
    string_views, to_ascii_lower,
};
use crate::tools::{
    bounded_count_spec, high_risk_spec, is_high_risk_process_name, lookup_key,
    normalize_lookup_value, parse_bounded_count, parse_string_list, risk_level_spec,
    risk_score_spec, sort_dedup_case_insensitive, sort_dedup_ci, string_list_spec,
    calculate_network_risk_score, network_risk_level,
};

verus! {

fn lit(s: &str) -> (r: String)
    ensures
        r@ == s@,
{
    string_of(&chars_of(s))
}

// ---------------------------------------------------------------------------
// Lookup sets
// ---------------------------------------------------------------------------

pub open spec fn map_keys(vals: Seq<Seq<char>>) -> Seq<Seq<char>>
    decreases vals.len(),
{
    if vals.len() == 0 {
        seq![]
    } else {
        map_keys(vals.drop_last()).push(lookup_key(vals.last()))
    }
}

/// The distinct lookup keys of a list, in first-seen order (a set of keys).
pub open spec fn key_set(vals: Seq<Seq<char>>) -> Seq<Seq<char>> {
    dedup_names(map_keys(vals))
}

fn contains_string(list: &Vec<String>, x: &Vec<char>) -> (r: bool)
    ensures
        r == string_views(list@).contains(x@),
{
    let mut i: usize = 0;
    while i < list.len()
        invariant
            i <= list@.len(),
            forall|k: int| 0 <= k < i ==> list@[k]@ != x@,
        decreases list@.len() - i,
    {
        let c = chars_of(list[i].as_str());
        if chars_eq(&c, x) {
            assert(string_views(list@)[i as int] == x@);
            return true;
        }
        i = i + 1;
    }
    assert forall|k: int| 0 <= k < string_views(list@).len() implies string_views(list@)[k] != x@ by {
        assert(string_views(list@)[k] == list@[k]@);
    }
    false
}

/// The set of lookup keys of a list.
pub fn lookup_keys(vals: &Vec<String>) -> (r: Vec<String>)
    ensures
        string_views(r@) == key_set(string_views(vals@)),
{
    let ghost all = string_views(vals@);
    let mut out: Vec<String> = Vec::new();
    let mut i: usize = 0;
    assert(all.take(0) =~= Seq::<Seq<char>>::empty());
    assert(string_views(out@) =~= Seq::<Seq<char>>::empty());
    while i < vals.len()
        invariant
            i <= vals@.len(),
            all == string_views(vals@),
            string_views(out@) == dedup_names(map_keys(all.take(i as int))),
        decreases vals@.len() - i,
    {
        assert(all.take(i + 1).drop_last() =~= all.take(i as int));
        assert(all.take(i + 1).last() == vals@[i as int]@);
        let k = normalize_lookup_value(vals[i].as_str());
        let kc = chars_of(k.as_str());
        assert(map_keys(all.take(i + 1)).drop_last() =~= map_keys(all.take(i as int)));
        if !contains_string(&out, &kc) {
            let ghost before = out@;
            out.push(k);
            assert(string_views(out@) =~= string_views(before).push(kc@)) by {
                assert forall|j: int| 0 <= j < before.len() implies string_views(out@)[j] == string_views(before)[j] by {
                    assert(out@[j] == before[j]);
                }
            }
        }
        i = i + 1;
    }
    assert(all.take(vals@.len() as int) =~= all);
    out
}

/// The values whose lookup key is not among `keys`, in order.
pub open spec fn unmatched(vals: Seq<Seq<char>>, keys: Seq<Seq<char>>) -> Seq<Seq<char>>
    decreases vals.len(),
{
    if vals.len() == 0 {
        seq![]
    } else {
        let rest = unmatched(vals.drop_last(), keys);
        if keys.contains(lookup_key(vals.last())) {
            rest
        } else {
            rest.push(vals.last())
        }
    }
}

/// The values absent from a reference set, sorted and deduplicated ignoring case.
pub fn unmatched_sorted(vals: &Vec<String>, keys: &Vec<String>) -> (r: Vec<String>)
    ensures
        string_views(r@) == sort_dedup_ci(unmatched(string_views(vals@), string_views(keys@))),
{
    let ghost all = string_views(vals@);
    let ghost ks = string_views(keys@);
    let mut out: Vec<String> = Vec::new();
    let mut i: usize = 0;
    assert(all.take(0) =~= Seq::<Seq<char>>::empty());
    assert(string_views(out@) =~= Seq::<Seq<char>>::empty());
    while i < vals.len()
        invariant
            i <= vals@.len(),
            all == string_views(vals@),
            ks == string_views(keys@),
            string_views(out@) == unmatched(all.take(i as int), ks),
        decreases vals@.len() - i,
    {
        assert(all.take(i + 1).drop_last() =~= all.take(i as int));
        assert(all.take(i + 1).last() == vals@[i as int]@);
        let k = normalize_lookup_value(vals[i].as_str());
        let kc = chars_of(k.as_str());
        if !contains_string(keys, &kc) {
            let ghost before = out@;
            out.push(lit(vals[i].as_str()));
            assert(string_views(out@) =~= string_views(before).push(vals@[i as int]@)) by {
                assert forall|j: int| 0 <= j < before.len() implies string_views(out@)[j] == string_views(before)[j] by {
                    assert(out@[j] == before[j]);
                }
            }
        }
        i = i + 1;
    }
    assert(all.take(vals@.len() as int) =~= all);
    sort_dedup_case_insensitive(&mut out);
    out
}

// ---------------------------------------------------------------------------
// Persistence
// ---------------------------------------------------------------------------

/// The entry matches an allowlist term: some non-empty term occurs in its location,
/// kind and entry joined by spaces, in lower case.
pub open spec fn allowlisted(e: PersistenceEntry, terms: Seq<Seq<char>>) -> bool {
    terms.len() > 0 && exists|i: int|
        0 <= i < terms.len() && (#[trigger] terms[i]).len() > 0 && contains_seq(
            ascii_lower(e.location@ + " "@ + e.kind@ + " "@ + e.entry@),
            terms[i],
        )
}

/// Whether a persistence entry matches one of the allowlist terms.
pub fn persistence_entry_matches_allowlist(entry: &PersistenceEntry, allowlist_terms: &Vec<String>) -> (r: bool)
    ensures
        r == allowlisted(*entry, string_views(allowlist_terms@)),
{
    if allowlist_terms.len() == 0 {
        return false;
    }
    let mut hay = chars_of(entry.location.as_str());
    push_str(&mut hay, " ");
    push_str(&mut hay, entry.kind.as_str());
    push_str(&mut hay, " ");
    push_str(&mut hay, entry.entry.as_str());
    let lower = to_ascii_lower(&hay);
    let ghost ts = string_views(allowlist_terms@);
    let mut i: usize = 0;
    while i < allowlist_terms.len()
        invariant
            i <= allowlist_terms@.len(),
            ts == string_views(allowlist_terms@),
            lower@ == ascii_lower(entry.location@ + " "@ + entry.kind@ + " "@ + entry.entry@),
            forall|k: int| 0 <= k < i ==> !((#[trigger] ts[k]).len() > 0 && contains_seq(lower@, ts[k])),
        decreases allowlist_terms@.len() - i,
    {
        let t = chars_of(allowlist_terms[i].as_str());
        assert(ts[i as int] == t@);
        if t.len() > 0 && contains(&lower, &t) {
            return true;
        }
        i = i + 1;
    }
    false
}

pub open spec fn count_suspicious(es: Seq<PersistenceEntry>) -> nat
    decreases es.len(),
{
    if es.len() == 0 {
        0
    } else {
        count_suspicious(es.drop_last()) + if es.last().suspicious { 1nat } else { 0nat }
    }
}

/// Suspicious entries that no allowlist term covers, in order.
pub open spec fn actionable(es: Seq<PersistenceEntry>, terms: Seq<Seq<char>>) -> Seq<PersistenceEntry>
    decreases es.len(),
{
    if es.len() == 0 {
        seq![]
    } else {
        let rest = actionable(es.drop_last(), terms);
        if es.last().suspicious && !allowlisted(es.last(), terms) {
            rest.push(es.last())
        } else {
            rest
        }
    }
}

pub open spec fn entry_strings(es: Seq<PersistenceEntry>) -> Seq<Seq<char>> {
    Seq::new(es.len(), |i: int| es[i].entry@)
}

/// `j` is the JSON form of entry `e`.
pub open spec fn entry_json(j: JsonValue, e: PersistenceEntry) -> bool {
    j matches JsonValue::Object(m) && m@.len() == 4 && is_str_member(m@[0], "location"@, e.location@)
        && is_str_member(m@[1], "kind"@, e.kind@) && is_str_member(m@[2], "entry"@, e.entry@)
        && crate::json::is_bool_member(m@[3], "suspicious"@, e.suspicious)
}

/// `v` is the JSON array of `es`.
pub open spec fn entries_json(v: JsonValue, es: Seq<PersistenceEntry>) -> bool {
    v matches JsonValue::Array(items) && items@.len() == es.len() && forall|i: int|
        0 <= i < es.len() ==> entry_json(#[trigger] items@[i], es[i])
}

fn entries_to_json(es: &Vec<PersistenceEntry>) -> (r: JsonValue)
    ensures
        entries_json(r, es@),
{
    let mut items: Vec<JsonValue> = Vec::new();
    let mut i: usize = 0;
    while i < es.len()
        invariant
            i <= es@.len(),
            items@.len() == i,
            forall|k: int| 0 <= k < i ==> entry_json(#[trigger] items@[k], es@[k]),
        decreases es@.len() - i,
    {
        items.push(es[i].to_json());
        i = i + 1;
    }
    JsonValue::Array(items)
}

/// The persistence tool's observation: counts of entries, suspicious entries and
/// actionable ones (suspicious and not allowlisted), the entries absent from the
/// baseline, and every entry.
pub open spec fn persistence_observation_ok(r: JsonValue, es: Seq<PersistenceEntry>, args: JsonValue) -> bool {
    let baseline = string_list_spec(args, "baseline_entries"@, 512, 512);
    let bkeys = key_set(baseline);
    let allow = key_set(string_list_spec(args, "allowlist_terms"@, 128, 128));
    let act = actionable(es, allow);
    let new_entries = if bkeys.len() == 0 {
        seq![]
    } else {
        sort_dedup_ci(unmatched(entry_strings(es), bkeys))
    };
    r matches JsonValue::Object(m) && m@.len() == 9
        && is_uint_member(m@[0], "entry_count"@, es.len() as u64)
        && is_uint_member(m@[1], "suspicious_entry_count"@, count_suspicious(es) as u64)
        && is_uint_member(m@[2], "actionable_suspicious_count"@, act.len() as u64)
        && m@[3].0@ == "actionable_suspicious_entries"@ && entries_json(m@[3].1, act)
        && is_uint_member(m@[4], "baseline_reference_count"@, bkeys.len() as u64)
        && is_uint_member(m@[5], "baseline_new_count"@, new_entries.len() as u64)
        && m@[6].0@ == "baseline_new_entries"@ && string_array(m@[6].1, new_entries)
        && is_uint_member(m@[7], "allowlist_term_count"@, allow.len() as u64)
        && m@[8].0@ == "entries"@ && entries_json(m@[8].1, es)
}

proof fn lemma_key_set_len(vals: Seq<Seq<char>>)
    ensures
        key_set(vals).len() <= vals.len(),
    decreases vals.len(),
{
    lemma_dedup_len(map_keys(vals));
    lemma_map_keys_len(vals);
}

proof fn lemma_map_keys_len(vals: Seq<Seq<char>>)
    ensures
        map_keys(vals).len() == vals.len(),
    decreases vals.len(),
{
    if vals.len() > 0 {
        lemma_map_keys_len(vals.drop_last());
    }
}

proof fn lemma_dedup_len(s: Seq<Seq<char>>)
    ensures
        dedup_names(s).len() <= s.len(),
    decreases s.len(),
{
    if s.len() > 0 {
        lemma_dedup_len(s.drop_last());
    }
}

/// Computes the persistence tool's observation (see [`persistence_observation_ok`]).
pub fn persistence_observation(entries: &Vec<PersistenceEntry>, args: &JsonValue) -> (r: JsonValue)
    ensures
        persistence_observation_ok(r, entries@, *args),
{
    let baseline = parse_string_list(args, "baseline_entries", 512, 512);
    let bkeys = lookup_keys(&baseline);
    let allow_terms = parse_string_list(args, "allowlist_terms", 128, 128);
    let allow = lookup_keys(&allow_terms);
    let ghost es = entries@;
    let mut suspicious: u64 = 0;
    let mut act: Vec<PersistenceEntry> = Vec::new();
    let mut strings: Vec<String> = Vec::new();
    let mut i: usize = 0;
    assert(es.take(0) =~= Seq::<PersistenceEntry>::empty());
    while i < entries.len()
        invariant
            i <= entries@.len(),
            es == entries@,
            suspicious as nat == count_suspicious(es.take(i as int)),
            suspicious <= i,
            act@.len() == actionable(es.take(i as int), string_views(allow@)).len(),
            forall|k: int| 0 <= k < act@.len() ==> {
                let a = actionable(es.take(i as int), string_views(allow@));
                &&& (#[trigger] act@[k]).location@ == a[k].location@
                &&& act@[k].kind@ == a[k].kind@
                &&& act@[k].entry@ == a[k].entry@
                &&& act@[k].suspicious == a[k].suspicious
            },
            strings@.len() == i,
            string_views(strings@) == entry_strings(es).take(i as int),
        decreases entries@.len() - i,
    {
        assert(es.take(i + 1).drop_last() =~= es.take(i as int));
        assert(es.take(i + 1).last() == es[i as int]);
        let e = &entries[i];
        if e.suspicious {
            suspicious = suspicious + 1;
            if !persistence_entry_matches_allowlist(e, &allow) {
                act.push(e.copy());
            }
        }
        let ghost before = strings@;
        strings.push(lit(e.entry.as_str()));
        assert(string_views(strings@) =~= entry_strings(es).take(i + 1)) by {
            assert forall|j: int| 0 <= j < before.len() implies string_views(strings@)[j] == string_views(before)[j] by {
                assert(strings@[j] == before[j]);
            }
            assert(string_views(strings@)[i as int] == entry_strings(es)[i as int]);
        }
        i = i + 1;
    }
    assert(es.take(entries@.len() as int) =~= es);
    assert(entry_strings(es).take(entries@.len() as int) =~= entry_strings(es));
    let new_entries = if bkeys.len() > 0 {
        unmatched_sorted(&strings, &bkeys)
    } else {
        let v: Vec<String> = Vec::new();
        assert(string_views(v@) =~= Seq::<Seq<char>>::empty());
        v
    };
    let act_json = entries_to_json(&act);
    proof {
        let a = actionable(es, string_views(allow@));
        assert forall|k: int| 0 <= k < a.len() implies entry_json(
            #[trigger] act_json->Array_0@[k],
            a[k],
        ) by {
            assert(entry_json(act_json->Array_0@[k], act@[k]));
        }
        lemma_key_set_len(string_views(baseline@));
        lemma_key_set_len(string_views(allow_terms@));
    }
    let mut m: Vec<(String, JsonValue)> = Vec::new();
    m.push(uint_member("entry_count", entries.len() as u64));
    m.push(uint_member("suspicious_entry_count", suspicious));
    m.push(uint_member("actionable_suspicious_count", act.len() as u64));
    m.push(value_member("actionable_suspicious_entries", act_json));
    m.push(uint_member("baseline_reference_count", bkeys.len() as u64));
    m.push(uint_member("baseline_new_count", new_entries.len() as u64));
    m.push(value_member("baseline_new_entries", string_array_of(&new_entries)));
    m.push(uint_member("allowlist_term_count", allow.len() as u64));
    m.push(value_member("entries", entries_to_json(entries)));
    JsonValue::Object(m)
}

// ---------------------------------------------------------------------------
// Accounts
// ---------------------------------------------------------------------------

pub open spec fn drift(active: bool, vals: Seq<Seq<char>>, keys: Seq<Seq<char>>) -> Seq<Seq<char>> {
    if active {
        sort_dedup_ci(unmatched(vals, keys))
    } else {
        seq![]
    }
}

/// The account tool's observation: the snapshot's accounts and evidence, with the
/// accounts that are newly privileged against the baseline, those that lost privilege,
/// and those outside the approved list.
pub open spec fn accounts_observation_ok(r: JsonValue, s: AccountPrivilegeSnapshot, args: JsonValue) -> bool {
    let baseline = string_list_spec(args, "baseline_privileged_accounts"@, 512, 256);
    let approved = string_list_spec(args, "approved_privileged_accounts"@, 512, 256);
    let bkeys = key_set(baseline);
    let akeys = key_set(approved);
    let current = string_views(s.privileged_accounts@);
    let newly = drift(bkeys.len() > 0, current, bkeys);
    let removed = drift(bkeys.len() > 0, baseline, key_set(current));
    let unapproved = drift(akeys.len() > 0, current, akeys);
    r matches JsonValue::Object(m) && m@.len() == 13
        && is_uint_member(m@[0], "privileged_account_count"@, current.len() as u64)
        && is_uint_member(m@[1], "non_default_privileged_account_count"@, s.non_default_privileged_accounts@.len() as u64)
        && is_uint_member(m@[2], "baseline_reference_count"@, bkeys.len() as u64)
        && is_uint_member(m@[3], "newly_privileged_account_count"@, newly.len() as u64)
        && is_uint_member(m@[4], "removed_privileged_account_count"@, removed.len() as u64)
        && is_uint_member(m@[5], "approved_account_count"@, akeys.len() as u64)
        && is_uint_member(m@[6], "unapproved_privileged_account_count"@, unapproved.len() as u64)
        && m@[7].0@ == "privileged_accounts"@ && string_array(m@[7].1, current)
        && m@[8].0@ == "non_default_privileged_accounts"@ && string_array(
            m@[8].1,
            string_views(s.non_default_privileged_accounts@),
        ) && m@[9].0@ == "newly_privileged_accounts"@ && string_array(m@[9].1, newly)
        && m@[10].0@ == "removed_privileged_accounts"@ && string_array(m@[10].1, removed)
        && m@[11].0@ == "unapproved_privileged_accounts"@ && string_array(m@[11].1, unapproved)
        && m@[12].0@ == "evidence"@ && string_array(m@[12].1, string_views(s.evidence@))
}

fn drift_exec(active: bool, vals: &Vec<String>, keys: &Vec<String>) -> (r: Vec<String>)
    ensures
        string_views(r@) == drift(active, string_views(vals@), string_views(keys@)),
{
    if active {
        unmatched_sorted(vals, keys)
    } else {
        let v: Vec<String> = Vec::new();
        assert(string_views(v@) =~= Seq::<Seq<char>>::empty());
        v
    }
}

/// Computes the account tool's observation (see [`accounts_observation_ok`]).
pub fn accounts_observation(snapshot: &AccountPrivilegeSnapshot, args: &JsonValue) -> (r: JsonValue)
    ensures
        accounts_observation_ok(r, *snapshot, *args),
{
    let baseline = parse_string_list(args, "baseline_privileged_accounts", 512, 256);
    let approved = parse_string_list(args, "approved_privileged_accounts", 512, 256);
    let bkeys = lookup_keys(&baseline);
    let akeys = lookup_keys(&approved);
    let ckeys = lookup_keys(&snapshot.privileged_accounts);
    let newly = drift_exec(bkeys.len() > 0, &snapshot.privileged_accounts, &bkeys);
    let removed = drift_exec(bkeys.len() > 0, &baseline, &ckeys);
    let unapproved = drift_exec(akeys.len() > 0, &snapshot.privileged_accounts, &akeys);
    let mut m: Vec<(String, JsonValue)> = Vec::new();
    m.push(uint_member("privileged_account_count", snapshot.privileged_accounts.len() as u64));
    m.push(
        uint_member(
            "non_default_privileged_account_count",
            snapshot.non_default_privileged_accounts.len() as u64,
        ),
    );
    m.push(uint_member("baseline_reference_count", bkeys.len() as u64));
    m.push(uint_member("newly_privileged_account_count", newly.len() as u64));
    m.push(uint_member("removed_privileged_account_count", removed.len() as u64));
    m.push(uint_member("approved_account_count", akeys.len() as u64));
    m.push(uint_member("unapproved_privileged_account_count", unapproved.len() as u64));
    m.push(value_member("privileged_accounts", string_array_of(&snapshot.privileged_accounts)));
    m.push(
        value_member(
            "non_default_privileged_accounts",
            string_array_of(&snapshot.non_default_privileged_accounts),
        ),
    );
    m.push(value_member("newly_privileged_accounts", string_array_of(&newly)));
    m.push(value_member("removed_privileged_accounts", string_array_of(&removed)));
    m.push(value_member("unapproved_privileged_accounts", string_array_of(&unapproved)));
    m.push(value_member("evidence", string_array_of(&snapshot.evidence)));
    JsonValue::Object(m)
}

// ---------------------------------------------------------------------------
// Process and network correlation
// ---------------------------------------------------------------------------

/// `j` is the JSON form of record `r`.
pub open spec fn record_json(j: JsonValue, r: ProcessNetworkRecord) -> bool {
    j matches JsonValue::Object(m) && m@.len() == 6
        && is_str_member(m@[0], "protocol"@, r.protocol@)
        && is_str_member(m@[1], "local_address"@, r.local_address@)
        && is_str_member(m@[2], "state"@, r.state@)
        && crate::json::is_opt_uint_member(m@[3], "pid"@, crate::records::opt_u64(r.pid))
        && crate::json::is_opt_str_member(m@[4], "process_name"@, opt_seq(r.process_name))
        && crate::json::is_bool_member(m@[5], "externally_exposed"@, r.externally_exposed)
}

/// `v` is the JSON array of `rs`.
pub open spec fn records_json(v: JsonValue, rs: Seq<ProcessNetworkRecord>) -> bool {
    v matches JsonValue::Array(items) && items@.len() == rs.len() && forall|i: int|
        0 <= i < rs.len() ==> record_json(#[trigger] items@[i], rs[i])
}

pub open spec fn count_named(rs: Seq<ProcessNetworkRecord>) -> nat
    decreases rs.len(),
{
    if rs.len() == 0 {
        0
    } else {
        count_named(rs.drop_last()) + if rs.last().process_name is Some { 1nat } else { 0nat }
    }
}

pub open spec fn count_exposed(rs: Seq<ProcessNetworkRecord>) -> nat
    decreases rs.len(),
{
    if rs.len() == 0 {
        0
    } else {
        count_exposed(rs.drop_last()) + if rs.last().externally_exposed { 1nat } else { 0nat }
    }
}

/// An exposed listener owned by a high-risk process.
pub open spec fn high_risk_record(r: ProcessNetworkRecord) -> bool {
    r.externally_exposed && match r.process_name {
        Some(n) => high_risk_spec(n@),
        None => false,
    }
}

/// An exposed listener whose process is unknown or not among the expected ones.
pub open spec fn unknown_record(r: ProcessNetworkRecord, expected: Seq<Seq<char>>) -> bool {
    r.externally_exposed && match r.process_name {
        Some(n) => !expected.contains(lookup_key(n@)),
        None => true,
    }
}

pub open spec fn high_risk_records(rs: Seq<ProcessNetworkRecord>) -> Seq<ProcessNetworkRecord>
    decreases rs.len(),
{
    if rs.len() == 0 {
        seq![]
    } else {
        let rest = high_risk_records(rs.drop_last());
        if high_risk_record(rs.last()) {
            rest.push(rs.last())
        } else {
            rest
        }
    }
}

pub open spec fn unknown_records(rs: Seq<ProcessNetworkRecord>, expected: Seq<Seq<char>>) -> Seq<ProcessNetworkRecord>
    decreases rs.len(),
{
    if rs.len() == 0 {
        seq![]
    } else {
        let rest = unknown_records(rs.drop_last(), expected);
        if unknown_record(rs.last(), expected) {
            rest.push(rs.last())
        } else {
            rest
        }
    }
}

pub open spec fn exposed_addresses(rs: Seq<ProcessNetworkRecord>) -> Seq<Seq<char>>
    decreases rs.len(),
{
    if rs.len() == 0 {
        seq![]
    } else {
        let rest = exposed_addresses(rs.drop_last());
        if rs.last().externally_exposed {
            rest.push(rs.last().local_address@)
        } else {
            rest
        }
    }
}

/// The correlation tool's observation: how many listeners have a known process, are
/// exposed, belong to high-risk or unexpected processes or to bindings new against the
/// baseline, and the weighted risk score and level those give.
pub open spec fn correlation_observation_ok(r: JsonValue, rs: Seq<ProcessNetworkRecord>, args: JsonValue) -> bool {
    let bkeys = key_set(string_list_spec(args, "baseline_exposed_bindings"@, 512, 256));
    let ekeys = key_set(string_list_spec(args, "expected_processes"@, 512, 256));
    let named = count_named(rs);
    let exposed = count_exposed(rs);
    let unresolved = (rs.len() - named) as nat;
    let high = high_risk_records(rs);
    let unknown = if ekeys.len() == 0 { seq![] } else { unknown_records(rs, ekeys) };
    let new_bindings = drift(bkeys.len() > 0, exposed_addresses(rs), bkeys);
    let score = risk_score_spec(exposed, high.len(), unknown.len(), new_bindings.len(), unresolved);
    r matches JsonValue::Object(m) && m@.len() == 15
        && is_uint_member(m@[0], "listener_count"@, rs.len() as u64)
        && is_uint_member(m@[1], "correlated_count"@, named as u64)
        && is_uint_member(m@[2], "unresolved_count"@, unresolved as u64)
        && is_uint_member(m@[3], "externally_exposed_count"@, exposed as u64)
        && is_uint_member(m@[4], "high_risk_exposed_count"@, high.len() as u64)
        && m@[5].0@ == "high_risk_exposed_records"@ && records_json(m@[5].1, high)
        && is_uint_member(m@[6], "expected_process_count"@, ekeys.len() as u64)
        && is_uint_member(m@[7], "unknown_exposed_process_count"@, unknown.len() as u64)
        && m@[8].0@ == "unknown_exposed_records"@ && records_json(m@[8].1, unknown)
        && is_uint_member(m@[9], "baseline_binding_count"@, bkeys.len() as u64)
        && is_uint_member(m@[10], "new_exposed_binding_count"@, new_bindings.len() as u64)
        && m@[11].0@ == "new_exposed_bindings"@ && string_array(m@[11].1, new_bindings)
        && is_uint_member(m@[12], "network_risk_score"@, score as u64)
        && is_str_member(m@[13], "network_risk_level"@, risk_level_spec(score))
        && m@[14].0@ == "records"@ && records_json(m@[14].1, rs)
}

fn records_to_json(rs: &Vec<ProcessNetworkRecord>) -> (r: JsonValue)
    ensures
        records_json(r, rs@),
{
    let mut items: Vec<JsonValue> = Vec::new();
    let mut i: usize = 0;
    while i < rs.len()
        invariant
            i <= rs@.len(),
            items@.len() == i,
            forall|k: int| 0 <= k < i ==> record_json(#[trigger] items@[k], rs@[k]),
        decreases rs@.len() - i,
    {
        items.push(rs[i].to_json());
        i = i + 1;
    }
    JsonValue::Array(items)
}

/// The records agree on every field (by value).
pub open spec fn same_record(a: ProcessNetworkRecord, b: ProcessNetworkRecord) -> bool {
    a.protocol@ == b.protocol@ && a.local_address@ == b.local_address@ && a.state@ == b.state@
        && a.pid == b.pid && opt_seq(a.process_name) == opt_seq(b.process_name)
        && a.externally_exposed == b.externally_exposed
}

proof fn lemma_records_json_same(j: JsonValue, a: Seq<ProcessNetworkRecord>, b: Seq<ProcessNetworkRecord>)
    requires
        records_json(j, a),
        a.len() == b.len(),
        forall|k: int| 0 <= k < a.len() ==> same_record(#[trigger] a[k], b[k]),
    ensures
        records_json(j, b),
{
    assert forall|i: int| 0 <= i < b.len() implies record_json(#[trigger] j->Array_0@[i], b[i]) by {
        assert(record_json(j->Array_0@[i], a[i]));
        assert(same_record(a[i], b[i]));
    }
}

proof fn lemma_count_bounds(rs: Seq<ProcessNetworkRecord>, ekeys: Seq<Seq<char>>)
    ensures
        count_named(rs) <= rs.len(),
        count_exposed(rs) <= rs.len(),
        high_risk_records(rs).len() <= rs.len(),
        unknown_records(rs, ekeys).len() <= rs.len(),
        exposed_addresses(rs).len() <= rs.len(),
    decreases rs.len(),
{
    if rs.len() > 0 {
        lemma_count_bounds(rs.drop_last(), ekeys);
    }
}

proof fn lemma_sort_dedup_ci_len(s: Seq<Seq<char>>)
    ensures
        sort_dedup_ci(s).len() <= s.len(),
    decreases s.len(),
{
    if s.len() > 0 {
        lemma_sort_dedup_ci_len(s.drop_last());
        lemma_insert_key_len(sort_dedup_ci(s.drop_last()), s.last());
    }
}

proof fn lemma_insert_key_len(s: Seq<Seq<char>>, x: Seq<char>)
    ensures
        crate::tools::insert_by_key(s, x).len() == s.len() + 1,
    decreases s.len(),
{
    if s.len() > 0 {
        lemma_insert_key_len(s.drop_first(), x);
    }
}

proof fn lemma_unmatched_len(vals: Seq<Seq<char>>, keys: Seq<Seq<char>>)
    ensures
        unmatched(vals, keys).len() <= vals.len(),
    decreases vals.len(),
{
    if vals.len() > 0 {
        lemma_unmatched_len(vals.drop_last(), keys);
    }
}

proof fn lemma_correlation_count_bounds(rs: Seq<ProcessNetworkRecord>)
    ensures
        count_named(rs) <= rs.len(),
        high_risk_records(rs).len() <= count_exposed(rs) <= rs.len(),
    decreases rs.len(),
{
    if rs.len() > 0 {
        lemma_correlation_count_bounds(rs.drop_last());
    }
}

/// The counts of a correlation observation agree: the listeners are the correlated
/// ones plus the unresolved ones, high-risk exposed listeners are among the exposed
/// ones, which are among all listeners, the risk score is at most 100 with its level by
/// the bands, and without expected processes no exposed process is unknown.
pub proof fn lemma_correlation_counts(r: JsonValue, rs: Seq<ProcessNetworkRecord>, args: JsonValue)
    requires
        correlation_observation_ok(r, rs, args),
    ensures
        r matches JsonValue::Object(m) && {
            &&& m@[0].1 matches JsonValue::UInt(listeners)
            &&& m@[1].1 matches JsonValue::UInt(correlated)
            &&& m@[2].1 matches JsonValue::UInt(unresolved)
            &&& m@[3].1 matches JsonValue::UInt(exposed)
            &&& m@[4].1 matches JsonValue::UInt(high_risk)
            &&& m@[12].1 matches JsonValue::UInt(score)
            &&& rs.len() <= u64::MAX ==> listeners == correlated + unresolved
            &&& rs.len() <= u64::MAX ==> high_risk <= exposed <= listeners
            &&& score <= 100
            &&& is_str_member(m@[13], "network_risk_level"@, crate::tools::risk_level_spec(score as nat))
            &&& key_set(string_list_spec(args, "expected_processes"@, 512, 256)).len() == 0 ==> is_uint_member(
                m@[7],
                "unknown_exposed_process_count"@,
                0u64,
            )
        },
{
    lemma_correlation_count_bounds(rs);
}

/// Computes the correlation tool's observation (see [`correlation_observation_ok`]).
pub fn correlation_observation(records: &Vec<ProcessNetworkRecord>, args: &JsonValue) -> (r: JsonValue)
    requires
        records@.len() * 46 <= u32::MAX,
    ensures
        correlation_observation_ok(r, records@, *args),
{
    let baseline = parse_string_list(args, "baseline_exposed_bindings", 512, 256);
    let bkeys = lookup_keys(&baseline);
    let expected = parse_string_list(args, "expected_processes", 512, 256);
    let ekeys = lookup_keys(&expected);
    let ghost rs = records@;
    let ghost ek = string_views(ekeys@);
    let mut named: usize = 0;
    let mut exposed: usize = 0;
    let mut high: Vec<ProcessNetworkRecord> = Vec::new();
    let mut unknown: Vec<ProcessNetworkRecord> = Vec::new();
    let mut addrs: Vec<String> = Vec::new();
    let mut i: usize = 0;
    assert(rs.take(0) =~= Seq::<ProcessNetworkRecord>::empty());
    assert(string_views(addrs@) =~= Seq::<Seq<char>>::empty());
    while i < records.len()
        invariant
            i <= records@.len(),
            rs == records@,
            ek == string_views(ekeys@),
            named as nat == count_named(rs.take(i as int)),
            exposed as nat == count_exposed(rs.take(i as int)),
            named <= i,
            exposed <= i,
            high@.len() == high_risk_records(rs.take(i as int)).len(),
            forall|k: int| 0 <= k < high@.len() ==> same_record(
                #[trigger] high@[k],
                high_risk_records(rs.take(i as int))[k],
            ),
            unknown@.len() == unknown_records(rs.take(i as int), ek).len(),
            forall|k: int| 0 <= k < unknown@.len() ==> same_record(
                #[trigger] unknown@[k],
                unknown_records(rs.take(i as int), ek)[k],
            ),
            string_views(addrs@) == exposed_addresses(rs.take(i as int)),
        decreases records@.len() - i,
    {
        assert(rs.take(i + 1).drop_last() =~= rs.take(i as int));
        assert(rs.take(i + 1).last() == rs[i as int]);
        let rec = &records[i];
        if rec.process_name.is_some() {
            named = named + 1;
        }
        if rec.externally_exposed {
            exposed = exposed + 1;
            let ghost before = addrs@;
            addrs.push(lit(rec.local_address.as_str()));
            assert(string_views(addrs@) =~= string_views(before).push(rec.local_address@)) by {
                assert forall|j: int| 0 <= j < before.len() implies string_views(addrs@)[j] == string_views(before)[j] by {
                    assert(addrs@[j] == before[j]);
                }
            }
            let is_high = match &rec.process_name {
                Some(n) => is_high_risk_process_name(n.as_str()),
                None => false,
            };
            if is_high {
                high.push(rec.copy());
            }
            let is_unknown = match &rec.process_name {
                Some(n) => {
                    let k = normalize_lookup_value(n.as_str());
                    !contains_string(&ekeys, &chars_of(k.as_str()))
                },
                None => true,
            };
            if is_unknown {
                unknown.push(rec.copy());
            }
        }
        i = i + 1;
    }
    assert(rs.take(records@.len() as int) =~= rs);
    proof {
        lemma_count_bounds(rs, ek);
    }
    let unresolved = records.len() - named;
    let unknown_final: Vec<ProcessNetworkRecord> = if ekeys.len() > 0 {
        unknown
    } else {
        Vec::new()
    };
    let new_bindings = drift_exec(bkeys.len() > 0, &addrs, &bkeys);
    proof {
        lemma_unmatched_len(exposed_addresses(rs), string_views(bkeys@));
        lemma_sort_dedup_ci_len(unmatched(exposed_addresses(rs), string_views(bkeys@)));
    }
    let score = calculate_network_risk_score(
        exposed,
        high.len(),
        unknown_final.len(),
        new_bindings.len(),
        unresolved,
    );
    let level = network_risk_level(score);
    let high_json = records_to_json(&high);
    let unknown_json = records_to_json(&unknown_final);
    proof {
        lemma_records_json_same(high_json, high@, high_risk_records(rs));
        if ekeys@.len() > 0 {
            lemma_records_json_same(unknown_json, unknown_final@, unknown_records(rs, ek));
        } else {
            assert(unknown_final@.len() == 0);
        }
        lemma_key_set_len(string_views(baseline@));
        lemma_key_set_len(string_views(expected@));
    }
    let mut m: Vec<(String, JsonValue)> = Vec::new();
    m.push(uint_member("listener_count", records.len() as u64));
    m.push(uint_member("correlated_count", named as u64));
    m.push(uint_member("unresolved_count", unresolved as u64));
    m.push(uint_member("externally_exposed_count", exposed as u64));
    m.push(uint_member("high_risk_exposed_count", high.len() as u64));
    m.push(value_member("high_risk_exposed_records", high_json));
    m.push(uint_member("expected_process_count", ekeys.len() as u64));
    m.push(uint_member("unknown_exposed_process_count", unknown_final.len() as u64));
    m.push(value_member("unknown_exposed_records", unknown_json));
    m.push(uint_member("baseline_binding_count", bkeys.len() as u64));
    m.push(uint_member("new_exposed_binding_count", new_bindings.len() as u64));
    m.push(value_member("new_exposed_bindings", string_array_of(&new_bindings)));
    m.push(uint_member("network_risk_score", score as u64));
    m.push(str_member("network_risk_level", level));
    m.push(value_member("records", records_to_json(records)));
    JsonValue::Object(m)
}

// ---------------------------------------------------------------------------
// Coverage baseline
// ---------------------------------------------------------------------------

pub open spec fn exposed_names(rs: Seq<ProcessNetworkRecord>) -> Seq<Seq<char>>
    decreases rs.len(),
{
    if rs.len() == 0 {
        seq![]
    } else {
        let rest = exposed_names(rs.drop_last());
        match rs.last().process_name {
            Some(n) => if rs.last().externally_exposed {
                rest.push(n@)
            } else {
                rest
            },
            None => rest,
        }
    }
}

/// The limits the baseline capture collects with: persistence entries (default 256)
/// and listeners (default 128), each bounded to `1..=512`.
pub fn baseline_limits(args: &JsonValue) -> (r: (usize, usize))
    ensures
        r.0 as nat == bounded_count_spec(*args, "persistence_limit"@, 256, 512),
        r.1 as nat == bounded_count_spec(*args, "listener_limit"@, 128, 512),
{
    (parse_bounded_count(args, "persistence_limit", 256, 512), parse_bounded_count(args, "listener_limit", 128, 512))
}

/// The baseline capture's observation: the persistence entries, privileged accounts,
/// exposed bindings and their processes as sorted case-insensitive sets to feed back
/// as a later run's baseline, with the counts of each.
pub open spec fn baseline_observation_ok(
    r: JsonValue,
    es: Seq<PersistenceEntry>,
    s: AccountPrivilegeSnapshot,
    rs: Seq<ProcessNetworkRecord>,
    persistence_limit: u64,
    listener_limit: u64,
    captured: u64,
) -> bool {
    let entries = sort_dedup_ci(entry_strings(es));
    let accounts = sort_dedup_ci(string_views(s.privileged_accounts@));
    let approved = sort_dedup_ci(accounts);
    let bindings = sort_dedup_ci(exposed_addresses(rs));
    let procs = sort_dedup_ci(exposed_names(rs));
    r matches JsonValue::Object(m) && m@.len() == 11
        && is_str_member(m@[0], "baseline_version"@, "coverage-v1"@)
        && is_uint_member(m@[1], "captured_epoch_seconds"@, captured)
        && is_uint_member(m@[2], "persistence_limit"@, persistence_limit)
        && is_uint_member(m@[3], "listener_limit"@, listener_limit)
        && is_uint_member(m@[4], "baseline_entries_count"@, entries.len() as u64)
        && is_uint_member(m@[5], "baseline_privileged_account_count"@, accounts.len() as u64)
        && is_uint_member(m@[6], "baseline_exposed_binding_count"@, bindings.len() as u64)
        && is_uint_member(m@[7], "expected_process_count"@, procs.len() as u64)
        && m@[8].0@ == "persistence"@ && (m@[8].1 matches JsonValue::Object(p) && p@.len() == 3
            && is_uint_member(p@[0], "entry_count"@, es.len() as u64)
            && is_uint_member(p@[1], "suspicious_entry_count"@, count_suspicious(es) as u64)
            && p@[2].0@ == "baseline_entries"@ && string_array(p@[2].1, entries))
        && m@[9].0@ == "accounts"@ && (m@[9].1 matches JsonValue::Object(a) && a@.len() == 6
            && is_uint_member(a@[0], "privileged_account_count"@, accounts.len() as u64)
            && is_uint_member(a@[1], "non_default_privileged_account_count"@, s.non_default_privileged_accounts@.len() as u64)
            && a@[2].0@ == "baseline_privileged_accounts"@ && string_array(a@[2].1, accounts)
            && a@[3].0@ == "approved_privileged_accounts"@ && string_array(a@[3].1, approved)
            && a@[4].0@ == "non_default_privileged_accounts"@ && string_array(
                a@[4].1,
                string_views(s.non_default_privileged_accounts@),
            ) && a@[5].0@ == "evidence"@ && string_array(a@[5].1, string_views(s.evidence@)))
        && m@[10].0@ == "network"@ && (m@[10].1 matches JsonValue::Object(n) && n@.len() == 4
            && is_uint_member(n@[0], "listener_count"@, rs.len() as u64)
            && is_uint_member(n@[1], "externally_exposed_count"@, count_exposed(rs) as u64)
            && n@[2].0@ == "baseline_exposed_bindings"@ && string_array(n@[2].1, bindings)
            && n@[3].0@ == "expected_processes"@ && string_array(n@[3].1, procs))
}

fn copy_strings(v: &Vec<String>) -> (r: Vec<String>)
    ensures
        string_views(r@) == string_views(v@),
{
    let mut out: Vec<String> = Vec::new();
    let mut i: usize = 0;
    while i < v.len()
        invariant
            i <= v@.len(),
            out@.len() == i,
            forall|k: int| 0 <= k < i ==> (#[trigger] out@[k])@ == v@[k]@,
        decreases v@.len() - i,
    {
        out.push(lit(v[i].as_str()));
        i = i + 1;
    }
    assert(string_views(out@) =~= string_views(v@));
    out
}

/// Computes the baseline capture's observation (see [`baseline_observation_ok`]).
pub fn baseline_observation(
    entries: &Vec<PersistenceEntry>,
    snapshot: &AccountPrivilegeSnapshot,
    records: &Vec<ProcessNetworkRecord>,
    persistence_limit: u64,
    listener_limit: u64,
    captured_epoch_seconds: u64,
) -> (r: JsonValue)
    ensures
        baseline_observation_ok(
            r,
            entries@,
            *snapshot,
            records@,
            persistence_limit,
            listener_limit,
            captured_epoch_seconds,
        ),
{
    let ghost es = entries@;
    let mut suspicious: u64 = 0;
    let mut strings: Vec<String> = Vec::new();
    let mut i: usize = 0;
    assert(es.take(0) =~= Seq::<PersistenceEntry>::empty());
    while i < entries.len()
        invariant
            i <= entries@.len(),
            es == entries@,
            suspicious as nat == count_suspicious(es.take(i as int)),
            suspicious <= i,
            strings@.len() == i,
            string_views(strings@) == entry_strings(es).take(i as int),
        decreases entries@.len() - i,
    {
        assert(es.take(i + 1).drop_last() =~= es.take(i as int));
        assert(es.take(i + 1).last() == es[i as int]);
        if entries[i].suspicious {
            suspicious = suspicious + 1;
        }
        let ghost before = strings@;
        strings.push(lit(entries[i].entry.as_str()));
        assert(string_views(strings@) =~= entry_strings(es).take(i + 1)) by {
            assert forall|j: int| 0 <= j < before.len() implies string_views(strings@)[j] == string_views(before)[j] by {
                assert(strings@[j] == before[j]);
            }
            assert(string_views(strings@)[i as int] == entry_strings(es)[i as int]);
        }
        i = i + 1;
    }
    assert(es.take(entries@.len() as int) =~= es);
    assert(entry_strings(es).take(entries@.len() as int) =~= entry_strings(es));
    let mut baseline_entries = strings;
    sort_dedup_case_insensitive(&mut baseline_entries);
    let mut accounts = copy_strings(&snapshot.privileged_accounts);
    sort_dedup_case_insensitive(&mut accounts);
    let mut approved = copy_strings(&accounts);
    sort_dedup_case_insensitive(&mut approved);
    let ghost rs = records@;
    let mut exposed: u64 = 0;
    let mut addrs: Vec<String> = Vec::new();
    let mut names: Vec<String> = Vec::new();
    let mut k: usize = 0;
    assert(rs.take(0) =~= Seq::<ProcessNetworkRecord>::empty());
    assert(string_views(addrs@) =~= Seq::<Seq<char>>::empty());
    assert(string_views(names@) =~= Seq::<Seq<char>>::empty());
    while k < records.len()
        invariant
            k <= records@.len(),
            rs == records@,
            exposed as nat == count_exposed(rs.take(k as int)),
            exposed <= k,
            string_views(addrs@) == exposed_addresses(rs.take(k as int)),
            string_views(names@) == exposed_names(rs.take(k as int)),
        decreases records@.len() - k,
    {
        assert(rs.take(k + 1).drop_last() =~= rs.take(k as int));
        assert(rs.take(k + 1).last() == rs[k as int]);
        let rec = &records[k];
        if rec.externally_exposed {
            exposed = exposed + 1;
            let ghost before = addrs@;
            addrs.push(lit(rec.local_address.as_str()));
            assert(string_views(addrs@) =~= string_views(before).push(rec.local_address@)) by {
                assert forall|j: int| 0 <= j < before.len() implies string_views(addrs@)[j] == string_views(before)[j] by {
                    assert(addrs@[j] == before[j]);
                }
            }
            match &rec.process_name {
                Some(n) => {
                    let ghost nb = names@;
                    names.push(lit(n.as_str()));
                    assert(string_views(names@) =~= string_views(nb).push(n@)) by {
                        assert forall|j: int| 0 <= j < nb.len() implies string_views(names@)[j] == string_views(nb)[j] by {
                            assert(names@[j] == nb[j]);
                        }
                    }
                },
                None => {},
            }
        }
        k = k + 1;
    }
    assert(rs.take(records@.len() as int) =~= rs);
    let mut bindings = addrs;
    sort_dedup_case_insensitive(&mut bindings);
    let mut procs = names;
    sort_dedup_case_insensitive(&mut procs);
    let mut pm: Vec<(String, JsonValue)> = Vec::new();
    pm.push(uint_member("entry_count", entries.len() as u64));
    pm.push(uint_member("suspicious_entry_count", suspicious));
    pm.push(value_member("baseline_entries", string_array_of(&baseline_entries)));
    let mut am: Vec<(String, JsonValue)> = Vec::new();
    am.push(uint_member("privileged_account_count", accounts.len() as u64));
    am.push(
        uint_member(
            "non_default_privileged_account_count",
            snapshot.non_default_privileged_accounts.len() as u64,
        ),
    );
    am.push(value_member("baseline_privileged_accounts", string_array_of(&accounts)));
    am.push(value_member("approved_privileged_accounts", string_array_of(&approved)));
    am.push(
        value_member(
            "non_default_privileged_accounts",
            string_array_of(&snapshot.non_default_privileged_accounts),
        ),
    );
    am.push(value_member("evidence", string_array_of(&snapshot.evidence)));
    let mut nm: Vec<(String, JsonValue)> = Vec::new();
    nm.push(uint_member("listener_count", records.len() as u64));
    nm.push(uint_member("externally_exposed_count", exposed));
    nm.push(value_member("baseline_exposed_bindings", string_array_of(&bindings)));
    nm.push(value_member("expected_processes", string_array_of(&procs)));
    let mut m: Vec<(String, JsonValue)> = Vec::new();
    m.push(str_member("baseline_version", "coverage-v1"));
    m.push(uint_member("captured_epoch_seconds", captured_epoch_seconds));
    m.push(uint_member("persistence_limit", persistence_limit));
    m.push(uint_member("listener_limit", listener_limit));
    m.push(uint_member("baseline_entries_count", baseline_entries.len() as u64));
    m.push(uint_member("baseline_privileged_account_count", accounts.len() as u64));
    m.push(uint_member("baseline_exposed_binding_count", bindings.len() as u64));
    m.push(uint_member("expected_process_count", procs.len() as u64));
    m.push(value_member("persistence", JsonValue::Object(pm)));
    m.push(value_member("accounts", JsonValue::Object(am)));
    m.push(value_member("network", JsonValue::Object(nm)));
    JsonValue::Object(m)
}

// ---------------------------------------------------------------------------
// Logs, sockets, hashes and privileges
// ---------------------------------------------------------------------------

/// The log tool's observation: the path read, the number of lines and the lines.
pub fn syslog_observation(path: &str, lines: &Vec<String>) -> (r: JsonValue)
    ensures
        r matches JsonValue::Object(m) && m@.len() == 3 && is_str_member(m@[0], "path"@, path@)
            && is_uint_member(m@[1], "line_count"@, lines@.len() as u64) && m@[2].0@ == "lines"@
            && string_array(m@[2].1, string_views(lines@)),
{
    let mut m: Vec<(String, JsonValue)> = Vec::new();
    m.push(str_member("path", path));
    m.push(uint_member("line_count", lines.len() as u64));
    m.push(value_member("lines", string_array_of(lines)));
    JsonValue::Object(m)
}

/// The path and line budget of a log read: the `path` argument or `./agent.log`, and
/// `max_lines` (default 200) bounded to `1..=1000`.
pub fn syslog_request(args: &JsonValue) -> (r: (String, usize))
    ensures
        r.0@ == match crate::json::get_str(*args, "path"@) {
            Some(p) => p,
            None => "./agent.log"@,
        },
        r.1 as nat == bounded_count_spec(*args, "max_lines"@, 200, 1000),
{
    let path = match args.get_str("path") {
        Some(p) => lit(p.as_str()),
        None => lit("./agent.log"),
    };
    (path, parse_bounded_count(args, "max_lines", 200, 1000))
}

/// The socket tool's observation: the number of listeners and the listeners.
pub fn listeners_observation(listeners: &Vec<ListenerRecord>) -> (r: JsonValue)
    ensures
        r matches JsonValue::Object(m) && m@.len() == 2
            && is_uint_member(m@[0], "listener_count"@, listeners@.len() as u64)
            && m@[1].0@ == "listeners"@ && (m@[1].1 matches JsonValue::Array(items)
            && items@.len() == listeners@.len()),
{
    let mut items: Vec<JsonValue> = Vec::new();
    let mut i: usize = 0;
    while i < listeners.len()
        invariant
            i <= listeners@.len(),
            items@.len() == i,
        decreases listeners@.len() - i,
    {
        items.push(listeners[i].to_json());
        i = i + 1;
    }
    let mut m: Vec<(String, JsonValue)> = Vec::new();
    m.push(uint_member("listener_count", listeners.len() as u64));
    m.push(value_member("listeners", JsonValue::Array(items)));
    JsonValue::Object(m)
}

/// The hash tool's observation: the path and its SHA-256 digest in hex.
pub fn hash_observation(path: &str, digest_hex: &str) -> (r: JsonValue)
    ensures
        r matches JsonValue::Object(m) && m@.len() == 2 && is_str_member(m@[0], "path"@, path@)
            && is_str_member(m@[1], "sha256"@, digest_hex@),
{
    let mut m: Vec<(String, JsonValue)> = Vec::new();
    m.push(str_member("path", path));
    m.push(str_member("sha256", digest_hex));
    JsonValue::Object(m)
}

/// A line of `id` or `sudo -n -l` output that shows an escalation vector.
pub open spec fn vector_line(l: Seq<char>) -> bool {
    contains_seq(l, "NOPASSWD"@) || contains_seq(l, "(ALL)"@)
}

pub open spec fn vector_lines(ls: Seq<Seq<char>>) -> Seq<Seq<char>>
    decreases ls.len(),
{
    if ls.len() == 0 {
        seq![]
    } else {
        let rest = vector_lines(ls.drop_last());
        if vector_line(ls.last()) {
            rest.push(ls.last())
        } else {
            rest
        }
    }
}

/// The privilege tool's observation on a Unix host: of the first 200 lines of the
/// `id` and `sudo -n -l` output, those that show a password-less or unrestricted sudo
/// grant, their number, and the sample itself.
pub fn privilege_observation(lines: &Vec<String>) -> (r: JsonValue)
    ensures
        ({
            let sample = if lines@.len() <= 200 {
                string_views(lines@)
            } else {
                string_views(lines@).take(200)
            };
            let ind = vector_lines(sample);
            r matches JsonValue::Object(m) && m@.len() == 3
                && is_uint_member(m@[0], "indicator_count"@, ind.len() as u64)
                && m@[1].0@ == "potential_vectors"@ && string_array(m@[1].1, ind)
                && m@[2].0@ == "sample"@ && string_array(m@[2].1, sample)
        }),
{
    let n = if lines.len() <= 200 { lines.len() } else { 200 };
    let ghost all = string_views(lines@);
    let ghost sample = if lines@.len() <= 200 { all } else { all.take(200) };
    let mut kept: Vec<String> = Vec::new();
    let mut ind: Vec<String> = Vec::new();
    let mut i: usize = 0;
    assert(sample.take(0) =~= Seq::<Seq<char>>::empty());
    assert(string_views(ind@) =~= Seq::<Seq<char>>::empty());
    while i < n
        invariant
            i <= n <= lines@.len(),
            all == string_views(lines@),
            sample.len() == n,
            forall|k: int| 0 <= k < n ==> sample[k] == all[k],
            kept@.len() == i,
            forall|k: int| 0 <= k < i ==> (#[trigger] kept@[k])@ == sample[k],
            string_views(ind@) == vector_lines(sample.take(i as int)),
            ind@.len() <= i,
        decreases n - i,
    {
        assert(sample.take(i + 1).drop_last() =~= sample.take(i as int));
        assert(sample.take(i + 1).last() == lines@[i as int]@);
        let l = chars_of(lines[i].as_str());
        kept.push(lit(lines[i].as_str()));
        if contains(&l, &chars_of("NOPASSWD")) || contains(&l, &chars_of("(ALL)")) {
            let ghost before = ind@;
            ind.push(lit(lines[i].as_str()));
            assert(string_views(ind@) =~= string_views(before).push(l@)) by {
                assert forall|j: int| 0 <= j < before.len() implies string_views(ind@)[j] == string_views(before)[j] by {
                    assert(ind@[j] == before[j]);
                }
            }
        }
        i = i + 1;
    }
    assert(sample.take(n as int) =~= sample);
    assert(string_views(kept@) =~= sample);
    let mut m: Vec<(String, JsonValue)> = Vec::new();
    m.push(uint_member("indicator_count", ind.len() as u64));
    m.push(value_member("potential_vectors", string_array_of(&ind)));
    m.push(value_member("sample", string_array_of(&kept)));
    JsonValue::Object(m)
}

} // verus!
