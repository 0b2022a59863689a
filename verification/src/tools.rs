//! What the host tools compute from what they collect: the records they report, the
//! argument lists they accept, and the markers, scores and baselines they apply.
use vstd::prelude::*;

use crate::json::{get_array, get_u64, JsonValue};
use crate::templates::{lit_views_push, str_views};
use crate::text::{
    ascii_lower, chars_eq, chars_eq_str, chars_of, contains, contains_seq, starts_with_seq, push_all, push_str, slice_chars,
    string_of, string_views, to_ascii_lower, trim, trim_chars, trim_str, views,
};

verus! {

// ---------------------------------------------------------------------------
// Markers
// ---------------------------------------------------------------------------

/// Some marker of `markers` occurs in `hay`.
pub open spec fn contains_any(hay: Seq<char>, markers: Seq<Seq<char>>) -> bool {
    exists|i: int| 0 <= i < markers.len() && contains_seq(hay, #[trigger] markers[i])
}

fn contains_any_exec(hay: &Vec<char>, markers: &Vec<&'static str>) -> (r: bool)
    ensures
        r == contains_any(hay@, str_views(markers@)),
{
    let ghost all = str_views(markers@);
    let mut i: usize = 0;
    while i < markers.len()
        invariant
            i <= markers@.len(),
            all == str_views(markers@),
            forall|k: int| 0 <= k < i ==> !contains_seq(hay@, #[trigger] all[k]),
        decreases markers@.len() - i,
    {
        let m = chars_of(markers[i]);
        assert(all[i as int] == m@);
        if contains(hay, &m) {
            return true;
        }
        i = i + 1;
    }
    false
}

pub open spec fn persistence_markers() -> Seq<Seq<char>> {
    seq![
        "temp"@,
        "appdata"@,
        "powershell"@,
        "cmd.exe"@,
        "rundll32"@,
        "wscript"@,
        "cscript"@,
        "mshta"@,
        "regsvr32"@,
        "certutil"@,
        "bitsadmin"@,
        "msiexec"@,
        "base64"@,
        "/tmp/"@,
    ]
}

/// A persistence entry is suspicious when, in lower case, it holds a marker of
/// script hosts, temporary paths or encoded payloads.
pub open spec fn suspicious_entry_spec(entry: Seq<char>) -> bool {
    contains_any(ascii_lower(entry), persistence_markers())
}

/// Whether a persistence entry looks suspicious (see [`suspicious_entry_spec`]).
pub fn is_suspicious_persistence_entry(entry: &str) -> (r: bool)
    ensures
        r == suspicious_entry_spec(entry@),
{
    let mut m: Vec<&'static str> = Vec::new();
    lit_views_push(&mut m, "temp");
    lit_views_push(&mut m, "appdata");
    lit_views_push(&mut m, "powershell");
    lit_views_push(&mut m, "cmd.exe");
    lit_views_push(&mut m, "rundll32");
    lit_views_push(&mut m, "wscript");
    lit_views_push(&mut m, "cscript");
    lit_views_push(&mut m, "mshta");
    lit_views_push(&mut m, "regsvr32");
    lit_views_push(&mut m, "certutil");
    lit_views_push(&mut m, "bitsadmin");
    lit_views_push(&mut m, "msiexec");
    lit_views_push(&mut m, "base64");
    lit_views_push(&mut m, "/tmp/");
    assert(str_views(m@) =~= persistence_markers());
    let lower = to_ascii_lower(&chars_of(entry));
    contains_any_exec(&lower, &m)
}

pub open spec fn process_markers() -> Seq<Seq<char>> {
    seq![
        "powershell"@,
        "pwsh"@,
        "cmd.exe"@,
        "wscript"@,
        "cscript"@,
        "mshta"@,
        "rundll32"@,
        "regsvr32"@,
        "certutil"@,
        "bitsadmin"@,
        "msiexec"@,
        "base64"@,
        "/tmp/"@,
        "\\temp\\"@,
        "appdata\\local\\temp"@,
    ]
}

/// A process is suspicious when its name and command line, joined by a space and in
/// lower case, hold a marker of script hosts, temporary paths or encoded payloads.
pub open spec fn suspicious_process_spec(name: Seq<char>, command_line: Seq<char>) -> bool {
    contains_any(ascii_lower(name + " "@ + command_line), process_markers())
}

/// Whether a process looks suspicious (see [`suspicious_process_spec`]).
pub fn is_suspicious_process(name: &str, command_line: &str) -> (r: bool)
    ensures
        r == suspicious_process_spec(name@, command_line@),
{
    let mut m: Vec<&'static str> = Vec::new();
    lit_views_push(&mut m, "powershell");
    lit_views_push(&mut m, "pwsh");
    lit_views_push(&mut m, "cmd.exe");
    lit_views_push(&mut m, "wscript");
    lit_views_push(&mut m, "cscript");
    lit_views_push(&mut m, "mshta");
    lit_views_push(&mut m, "rundll32");
    lit_views_push(&mut m, "regsvr32");
    lit_views_push(&mut m, "certutil");
    lit_views_push(&mut m, "bitsadmin");
    lit_views_push(&mut m, "msiexec");
    lit_views_push(&mut m, "base64");
    lit_views_push(&mut m, "/tmp/");
    lit_views_push(&mut m, "\\temp\\");
    lit_views_push(&mut m, "appdata\\local\\temp");
    assert(str_views(m@) =~= process_markers());
    let mut hay = chars_of(name);
    push_str(&mut hay, " ");
    push_str(&mut hay, command_line);
    let lower = to_ascii_lower(&hay);
    contains_any_exec(&lower, &m)
}

pub open spec fn high_risk_names() -> Seq<Seq<char>> {
    seq![
        "powershell"@,
        "pwsh"@,
        "cmd"@,
        "wscript"@,
        "cscript"@,
        "mshta"@,
        "rundll32"@,
        "python"@,
        "node"@,
        "bash"@,
        "sh"@,
        "netcat"@,
        "ncat"@,
        "nc"@,
    ]
}

/// A process name is high-risk when, in lower case, it holds the name of a shell,
/// script host or network relay.
pub open spec fn high_risk_spec(name: Seq<char>) -> bool {
    contains_any(ascii_lower(name), high_risk_names())
}

/// Whether a process name is high-risk (see [`high_risk_spec`]).
pub fn is_high_risk_process_name(name: &str) -> (r: bool)
    ensures
        r == high_risk_spec(name@),
{
    let mut m: Vec<&'static str> = Vec::new();
    lit_views_push(&mut m, "powershell");
    lit_views_push(&mut m, "pwsh");
    lit_views_push(&mut m, "cmd");
    lit_views_push(&mut m, "wscript");
    lit_views_push(&mut m, "cscript");
    lit_views_push(&mut m, "mshta");
    lit_views_push(&mut m, "rundll32");
    lit_views_push(&mut m, "python");
    lit_views_push(&mut m, "node");
    lit_views_push(&mut m, "bash");
    lit_views_push(&mut m, "sh");
    lit_views_push(&mut m, "netcat");
    lit_views_push(&mut m, "ncat");
    lit_views_push(&mut m, "nc");
    assert(str_views(m@) =~= high_risk_names());
    let lower = to_ascii_lower(&chars_of(name));
    contains_any_exec(&lower, &m)
}

/// A bound address is externally exposed unless it is a loopback address.
pub open spec fn exposed_spec(addr: Seq<char>) -> bool {
    let lower = ascii_lower(addr);
    !(contains_seq(lower, "127.0.0.1"@) || contains_seq(lower, "localhost"@) || contains_seq(
        lower,
        "[::1]"@,
    ) || starts_with_seq(lower, "::1:"@))
}

/// Whether a listener's local address is reachable from other hosts.
pub fn is_externally_exposed(local_address: &str) -> (r: bool)
    ensures
        r == exposed_spec(local_address@),
{
    let lower = to_ascii_lower(&chars_of(local_address));
    let loop_v4 = contains(&lower, &chars_of("127.0.0.1"));
    let local = contains(&lower, &chars_of("localhost"));
    let loop_v6 = contains(&lower, &chars_of("[::1]"));
    let prefix = chars_of("::1:");
    let starts = crate::text::starts_with(&lower, &prefix);
    !(loop_v4 || local || loop_v6 || starts)
}

// ---------------------------------------------------------------------------
// Network risk
// ---------------------------------------------------------------------------

/// The weighted exposure score, capped at 100.
pub open spec fn risk_score_spec(exposed: nat, high_risk: nat, unknown: nat, new_bindings: nat, unresolved: nat) -> nat {
    let w = exposed + high_risk * 22 + unknown * 12 + new_bindings * 9 + unresolved * 2;
    if w < 100 {
        w
    } else {
        100
    }
}

/// The network risk score of a correlation run: one point per exposed listener, 22
/// per high-risk exposed process, 12 per unexpected exposed process, 9 per new exposed
/// binding and 2 per listener without a process, capped at 100.
pub fn calculate_network_risk_score(
    externally_exposed_count: usize,
    high_risk_exposed_count: usize,
    unknown_exposed_process_count: usize,
    new_exposed_binding_count: usize,
    unresolved_count: usize,
) -> (r: u32)
    requires
        externally_exposed_count + high_risk_exposed_count * 22 + unknown_exposed_process_count * 12
            + new_exposed_binding_count * 9 + unresolved_count * 2 <= u32::MAX,
    ensures
        r as nat == risk_score_spec(
            externally_exposed_count as nat,
            high_risk_exposed_count as nat,
            unknown_exposed_process_count as nat,
            new_exposed_binding_count as nat,
            unresolved_count as nat,
        ),
{
    let w: u64 = externally_exposed_count as u64 + high_risk_exposed_count as u64 * 22
        + unknown_exposed_process_count as u64 * 12 + new_exposed_binding_count as u64 * 9
        + unresolved_count as u64 * 2;
    if w < 100 {
        w as u32
    } else {
        100
    }
}

pub open spec fn risk_level_spec(score: nat) -> Seq<char> {
    if score <= 14 {
        "low"@
    } else if score <= 39 {
        "medium"@
    } else if score <= 69 {
        "high"@
    } else {
        "critical"@
    }
}

/// The level of a network risk score: low to 14, medium to 39, high to 69, critical above.
pub fn network_risk_level(score: u32) -> (r: &'static str)
    ensures
        r@ == risk_level_spec(score as nat),
{
    if score <= 14 {
        "low"
    } else if score <= 39 {
        "medium"
    } else if score <= 69 {
        "high"
    } else {
        "critical"
    }
}

// ---------------------------------------------------------------------------
// Case-insensitive lists
// ---------------------------------------------------------------------------

/// `String` order: lexicographic by character.
pub open spec fn text_lt(a: Seq<char>, b: Seq<char>) -> bool
    decreases a.len(),
{
    if a.len() == 0 {
        b.len() > 0
    } else if b.len() == 0 {
        false
    } else if a[0] != b[0] {
        a[0] < b[0]
    } else {
        text_lt(a.drop_first(), b.drop_first())
    }
}

pub(crate) fn text_lt_exec(a: &Vec<char>, b: &Vec<char>) -> (r: bool)
    ensures
        r == text_lt(a@, b@),
{
    let mut i: usize = 0;
    assert(a@.skip(0) =~= a@);
    assert(b@.skip(0) =~= b@);
    while i < a.len() && i < b.len() && a[i] == b[i]
        invariant
            i <= a@.len(),
            i <= b@.len(),
            text_lt(a@, b@) == text_lt(a@.skip(i as int), b@.skip(i as int)),
        decreases a@.len() - i,
    {
        assert(a@.skip(i as int).drop_first() =~= a@.skip(i + 1));
        assert(b@.skip(i as int).drop_first() =~= b@.skip(i + 1));
        i = i + 1;
    }
    if i == a.len() {
        return i < b.len();
    }
    if i == b.len() {
        return false;
    }
    a[i] < b[i]
}

/// Inserts `x` before the first entry whose lower-case form sorts after its own.
pub open spec fn insert_by_key(s: Seq<Seq<char>>, x: Seq<char>) -> Seq<Seq<char>>
    decreases s.len(),
{
    if s.len() == 0 {
        seq![x]
    } else if text_lt(ascii_lower(x), ascii_lower(s[0])) {
        seq![x] + s
    } else {
        seq![s[0]] + insert_by_key(s.drop_first(), x)
    }
}

/// Adds `x` unless an entry equal to it ignoring ASCII case is already there.
pub open spec fn add_ci(s: Seq<Seq<char>>, x: Seq<char>) -> Seq<Seq<char>> {
    if exists|i: int| 0 <= i < s.len() && ascii_lower(#[trigger] s[i]) == ascii_lower(x) {
        s
    } else {
        insert_by_key(s, x)
    }
}

/// A stable sort by lower-case form followed by removal of neighbours equal ignoring
/// ASCII case: one entry per lower-case form, the first given, in ascending order.
pub open spec fn sort_dedup_ci(s: Seq<Seq<char>>) -> Seq<Seq<char>>
    decreases s.len(),
{
    if s.len() == 0 {
        seq![]
    } else {
        add_ci(sort_dedup_ci(s.drop_last()), s.last())
    }
}

proof fn lemma_insert_by_key_at(s: Seq<Seq<char>>, x: Seq<char>, p: int)
    requires
        0 <= p <= s.len(),
        forall|k: int| 0 <= k < p ==> !text_lt(ascii_lower(x), ascii_lower(#[trigger] s[k])),
        p == s.len() || text_lt(ascii_lower(x), ascii_lower(s[p])),
    ensures
        insert_by_key(s, x) == s.take(p) + seq![x] + s.skip(p),
    decreases p,
{
    if s.len() == 0 {
        assert(s.take(p) + seq![x] + s.skip(p) =~= seq![x]);
    } else if p == 0 {
        assert(s.take(p) + seq![x] + s.skip(p) =~= seq![x] + s);
    } else {
        let t = s.drop_first();
        assert(!text_lt(ascii_lower(x), ascii_lower(s[0])));
        assert forall|k: int| 0 <= k < p - 1 implies !text_lt(ascii_lower(x), ascii_lower(#[trigger] t[k])) by {
            assert(t[k] == s[k + 1]);
        }
        if p - 1 < t.len() {
            assert(t[p - 1] == s[p]);
        }
        lemma_insert_by_key_at(t, x, p - 1);
        assert(seq![s[0]] + (t.take(p - 1) + seq![x] + t.skip(p - 1)) =~= s.take(p) + seq![x]
            + s.skip(p));
    }
}

proof fn lemma_text_lt_irreflexive(a: Seq<char>)
    ensures
        !text_lt(a, a),
    decreases a.len(),
{
    if a.len() > 0 {
        lemma_text_lt_irreflexive(a.drop_first());
    }
}

proof fn lemma_text_lt_transitive(a: Seq<char>, b: Seq<char>, c: Seq<char>)
    requires
        text_lt(a, b),
        text_lt(b, c),
    ensures
        text_lt(a, c),
    decreases a.len(),
{
    if a.len() > 0 && b.len() > 0 && c.len() > 0 && a[0] == b[0] && b[0] == c[0] {
        lemma_text_lt_transitive(a.drop_first(), b.drop_first(), c.drop_first());
    }
}

proof fn lemma_text_lt_total(a: Seq<char>, b: Seq<char>)
    requires
        a != b,
    ensures
        text_lt(a, b) || text_lt(b, a),
    decreases a.len(),
{
    if a.len() > 0 && b.len() > 0 && a[0] == b[0] {
        if a.drop_first() == b.drop_first() {
            assert(a =~= seq![a[0]] + a.drop_first());
            assert(b =~= seq![b[0]] + b.drop_first());
            assert(false);
        } else {
            lemma_text_lt_total(a.drop_first(), b.drop_first());
        }
    } else if a.len() == 0 && b.len() == 0 {
        assert(a =~= b);
    } else if a.len() > 0 && b.len() > 0 {

    }
}

/// Entries in strictly ascending order of their lower-case forms.
pub open spec fn strictly_ascending_ci(s: Seq<Seq<char>>) -> bool {
    forall|i: int, j: int| 0 <= i < j < s.len() ==> text_lt(ascii_lower(#[trigger] s[i]), ascii_lower(#[trigger] s[j]))
}

proof fn lemma_insert_by_key_props(t: Seq<Seq<char>>, x: Seq<char>)
    ensures
        insert_by_key(t, x).to_multiset() =~= t.to_multiset().insert(x),
        strictly_ascending_ci(t) && (forall|k: int| 0 <= k < t.len() ==> ascii_lower(#[trigger] t[k]) != ascii_lower(x))
            ==> strictly_ascending_ci(insert_by_key(t, x)),
    decreases t.len(),
{
    broadcast use vstd::seq_lib::group_to_multiset_ensures, vstd::seq_lib::lemma_multiset_commutative;

    if t.len() == 0 {
        assert(seq![x] =~= Seq::<Seq<char>>::empty().push(x));
    } else {
        let t0 = t[0];
        let r = t.drop_first();
        assert(t =~= seq![t0] + r);
        assert(seq![t0] =~= Seq::<Seq<char>>::empty().push(t0));
        assert(seq![x] =~= Seq::<Seq<char>>::empty().push(x));
        if text_lt(ascii_lower(x), ascii_lower(t0)) {
            if strictly_ascending_ci(t) {
                let all = seq![x] + t;
                assert forall|i: int, j: int| 0 <= i < j < all.len() implies text_lt(
                    ascii_lower(#[trigger] all[i]),
                    ascii_lower(#[trigger] all[j]),
                ) by {
                    if i > 0 {
                        assert(all[i] == t[i - 1] && all[j] == t[j - 1]);
                    } else if j > 1 {
                        assert(all[j] == t[j - 1]);
                        assert(text_lt(ascii_lower(t[0]), ascii_lower(t[j - 1])));
                        lemma_text_lt_transitive(ascii_lower(x), ascii_lower(t0), ascii_lower(t[j - 1]));
                    }
                }
            }
        } else {
            lemma_insert_by_key_props(r, x);
            let ins = insert_by_key(r, x);
            if strictly_ascending_ci(t) && (forall|k: int| 0 <= k < t.len() ==> ascii_lower(#[trigger] t[k]) != ascii_lower(x)) {
                assert(strictly_ascending_ci(r)) by {
                    assert forall|i: int, j: int| 0 <= i < j < r.len() implies text_lt(
                        ascii_lower(#[trigger] r[i]),
                        ascii_lower(#[trigger] r[j]),
                    ) by {
                        assert(r[i] == t[i + 1] && r[j] == t[j + 1]);
                    }
                }
                assert forall|k: int| 0 <= k < r.len() implies ascii_lower(#[trigger] r[k]) != ascii_lower(x) by {
                    assert(r[k] == t[k + 1]);
                }
                assert(ascii_lower(t0) != ascii_lower(x));
                lemma_text_lt_total(ascii_lower(t0), ascii_lower(x));
                let all = seq![t0] + ins;
                assert forall|i: int, j: int| 0 <= i < j < all.len() implies text_lt(
                    ascii_lower(#[trigger] all[i]),
                    ascii_lower(#[trigger] all[j]),
                ) by {
                    if i > 0 {
                        assert(all[i] == ins[i - 1] && all[j] == ins[j - 1]);
                    } else {
                        let y = ins[j - 1];
                        assert(all[j] == y);
                        assert(ins.contains(y));
                        assert(ins.to_multiset().count(y) > 0);
                        if y != x {
                            assert(r.to_multiset().count(y) > 0);
                            assert(r.contains(y));
                            let k = choose|k: int| 0 <= k < r.len() && r[k] == y;
                            assert(t[k + 1] == y);
                        }
                    }
                }
            }
        }
    }
}

/// Sorting and de-duplicating ignoring ASCII case leaves the entries in strictly
/// ascending order of their lower-case forms, so no two are equal ignoring case.
pub proof fn lemma_sort_dedup_ci_ascending(s: Seq<Seq<char>>)
    ensures
        strictly_ascending_ci(sort_dedup_ci(s)),
    decreases s.len(),
{
    if s.len() > 0 {
        lemma_sort_dedup_ci_ascending(s.drop_last());
        let prev = sort_dedup_ci(s.drop_last());
        if !(exists|i: int| 0 <= i < prev.len() && ascii_lower(#[trigger] prev[i]) == ascii_lower(s.last())) {
            lemma_insert_by_key_props(prev, s.last());
        }
    }
}

fn add_ci_exec(out: &mut Vec<String>, x: String)
    ensures
        string_views(final(out)@) == add_ci(string_views(old(out)@), x@),
{
    let ghost s = string_views(out@);
    let key = to_ascii_lower(&chars_of(x.as_str()));
    let mut i: usize = 0;
    while i < out.len()
        invariant
            i <= out@.len(),
            s == string_views(out@),
            key@ == ascii_lower(x@),
            forall|k: int| 0 <= k < i ==> ascii_lower(#[trigger] s[k]) != ascii_lower(x@),
        decreases out@.len() - i,
    {
        let other = to_ascii_lower(&chars_of(out[i].as_str()));
        assert(s[i as int] == out@[i as int]@);
        if chars_eq(&other, &key) {
            return;
        }
        i = i + 1;
    }
    let mut p: usize = 0;
    let mut found = false;
    while p < out.len() && !found
        invariant
            p <= out@.len(),
            s == string_views(out@),
            key@ == ascii_lower(x@),
            found ==> p < out@.len() && text_lt(ascii_lower(x@), ascii_lower(s[p as int])),
            forall|k: int| 0 <= k < p ==> !text_lt(ascii_lower(x@), ascii_lower(#[trigger] s[k])),
        decreases out@.len() - p, (if found { 0int } else { 1int }),
    {
        let other = to_ascii_lower(&chars_of(out[p].as_str()));
        assert(s[p as int] == out@[p as int]@);
        if text_lt_exec(&key, &other) {
            found = true;
        } else {
            p = p + 1;
        }
    }
    proof {
        lemma_insert_by_key_at(s, x@, p as int);
    }
    let ghost xv = x@;
    out.insert(p, x);
    assert(string_views(out@) =~= s.take(p as int) + seq![xv] + s.skip(p as int));
}

/// Sorts a list by lower-case form and keeps one entry per case-insensitive value, the
/// first given (see [`sort_dedup_ci`]).
pub fn sort_dedup_case_insensitive(values: &mut Vec<String>)
    ensures
        string_views(final(values)@) == sort_dedup_ci(string_views(old(values)@)),
{
    let mut input: Vec<String> = Vec::new();
    std::mem::swap(&mut input, values);
    let ghost all = string_views(input@);
    let mut out: Vec<String> = Vec::new();
    let mut i: usize = 0;
    assert(all.take(0) =~= Seq::<Seq<char>>::empty());
    assert(string_views(out@) =~= Seq::<Seq<char>>::empty());
    while i < input.len()
        invariant
            i <= input@.len(),
            all == string_views(input@),
            string_views(out@) == sort_dedup_ci(all.take(i as int)),
        decreases input@.len() - i,
    {
        assert(all.take(i + 1).drop_last() =~= all.take(i as int));
        assert(all.take(i + 1).last() == input@[i as int]@);
        let x = string_of(&chars_of(input[i].as_str()));
        add_ci_exec(&mut out, x);
        i = i + 1;
    }
    assert(all.take(input@.len() as int) =~= all);
    *values = out;
}

/// A lookup key: trimmed and in lower case.
pub open spec fn lookup_key(v: Seq<char>) -> Seq<char> {
    ascii_lower(trim(v))
}

/// The lookup key of a value: trimmed and in lower case.
pub fn normalize_lookup_value(value: &str) -> (r: String)
    ensures
        r@ == lookup_key(value@),
{
    let t = trim_str(value);
    string_of(&to_ascii_lower(&t))
}

// ---------------------------------------------------------------------------
// Arguments
// ---------------------------------------------------------------------------

/// A count argument: the field's unsigned value or the default, clamped to `1..=max`.
pub open spec fn bounded_count_spec(args: JsonValue, field: Seq<char>, default: nat, max: nat) -> nat {
    let v: nat = match get_u64(args, field) {
        Some(n) => n as nat,
        None => default,
    };
    if v < 1 {
        1
    } else if v > max {
        max
    } else {
        v
    }
}

/// Reads a bounded count argument (see [`bounded_count_spec`]).
pub fn parse_bounded_count(args: &JsonValue, field: &str, default: usize, max: usize) -> (r: usize)
    requires
        max >= 1,
    ensures
        r as nat == bounded_count_spec(*args, field@, default as nat, max as nat),
{
    let v: u64 = match args.get_u64(field) {
        Some(n) => n,
        None => default as u64,
    };
    if v < 1 {
        1
    } else if v > max as u64 {
        max
    } else {
        v as usize
    }
}

/// The string entries of a list argument before sorting: the first `max_items`
/// entries, strings only, trimmed, non-empty, each cut to `max_chars` characters.
pub open spec fn raw_list_entries(items: Seq<JsonValue>, max_chars: nat) -> Seq<Seq<char>>
    decreases items.len(),
{
    if items.len() == 0 {
        seq![]
    } else {
        let rest = raw_list_entries(items.drop_last(), max_chars);
        match items.last() {
            JsonValue::Str(s) => {
                let t = trim(s@);
                if t.len() == 0 {
                    rest
                } else {
                    rest.push(if t.len() <= max_chars { t } else { t.take(max_chars as int) })
                }
            },
            _ => rest,
        }
    }
}

/// The string entries of a JSON list: its first `max_items` items that are strings,
/// trimmed, non-empty and cut to `max_chars` characters, sorted and deduplicated
/// ignoring case.
pub open spec fn bounded_entries(items: Seq<JsonValue>, max_items: nat, max_chars: nat) -> Seq<Seq<char>> {
    sort_dedup_ci(raw_list_entries(if items.len() <= max_items { items } else { items.take(max_items as int) }, max_chars))
}

/// A string-list argument: its bounded entries, sorted and deduplicated ignoring case.
pub open spec fn string_list_spec(args: JsonValue, field: Seq<char>, max_items: nat, max_chars: nat) -> Seq<Seq<char>> {
    match get_array(args, field) {
        Some(items) => bounded_entries(items, max_items, max_chars),
        None => seq![],
    }
}

/// Reads a string-list argument (see [`string_list_spec`]).
pub fn parse_string_list(args: &JsonValue, field: &str, max_items: usize, max_chars: usize) -> (r: Vec<String>)
    ensures
        string_views(r@) == string_list_spec(*args, field@, max_items as nat, max_chars as nat),
{
    match args.get_array(field) {
        Some(v) => string_entries(v, max_items, max_chars),
        None => {
            let parsed: Vec<String> = Vec::new();
            assert(string_views(parsed@) =~= Seq::<Seq<char>>::empty());
            parsed
        },
    }
}

/// The string entries of a JSON list (see [`bounded_entries`]).
pub fn string_entries(values: &Vec<JsonValue>, max_items: usize, max_chars: usize) -> (r: Vec<String>)
    ensures
        string_views(r@) == bounded_entries(values@, max_items as nat, max_chars as nat),
{
    let mut parsed: Vec<String> = Vec::new();
    let n = if values.len() <= max_items { values.len() } else { max_items };
    let ghost items = if values@.len() <= max_items { values@ } else { values@.take(max_items as int) };
    let mut i: usize = 0;
    assert(items.take(0) =~= Seq::<JsonValue>::empty());
    assert(string_views(parsed@) =~= Seq::<Seq<char>>::empty());
    while i < n
        invariant
            i <= n <= values@.len(),
            n == items.len(),
            forall|k: int| 0 <= k < n ==> items[k] == values@[k],
            string_views(parsed@) == raw_list_entries(items.take(i as int), max_chars as nat),
        decreases n - i,
    {
        assert(items.take(i + 1).drop_last() =~= items.take(i as int));
        assert(items.take(i + 1).last() == values@[i as int]);
        match &values[i] {
            JsonValue::Str(s) => {
                let t = trim_str(s.as_str());
                if t.len() > 0 {
                    let cut = if t.len() <= max_chars { t } else { slice_chars(&t, 0, max_chars) };
                    let ghost before = string_views(parsed@);
                    parsed.push(string_of(&cut));
                    assert(string_views(parsed@) =~= before.push(cut@));
                    proof {
                        if t@.len() > max_chars {
                            assert(cut@ =~= trim(s@).take(max_chars as int));
                        }
                    }
                }
            },
            _ => {},
        }
        i = i + 1;
    }
    assert(items.take(n as int) =~= items);
    sort_dedup_case_insensitive(&mut parsed);
    parsed
}

// ---------------------------------------------------------------------------
// The built-in tools
// ---------------------------------------------------------------------------

/// The host tools the registry holds.
#[derive(Clone, Copy, Debug, PartialEq, Eq, Structural)]
pub enum BuiltinTool {
    ReadSyslog,
    ScanNetwork,
    HashBinary,
    CheckPrivilegeEscalationVectors,
    InspectPersistenceLocations,
    AuditAccountChanges,
    CorrelateProcessNetwork,
    CaptureCoverageBaseline,
}

/// The tool registered under a name; none for a name the registry does not hold.
pub open spec fn builtin_tool_spec(name: Seq<char>) -> Option<BuiltinTool> {
    if name == "read_syslog"@ {
        Some(BuiltinTool::ReadSyslog)
    } else if name == "scan_network"@ {
        Some(BuiltinTool::ScanNetwork)
    } else if name == "hash_binary"@ {
        Some(BuiltinTool::HashBinary)
    } else if name == "check_privilege_escalation_vectors"@ {
        Some(BuiltinTool::CheckPrivilegeEscalationVectors)
    } else if name == "inspect_persistence_locations"@ {
        Some(BuiltinTool::InspectPersistenceLocations)
    } else if name == "audit_account_changes"@ {
        Some(BuiltinTool::AuditAccountChanges)
    } else if name == "correlate_process_network"@ {
        Some(BuiltinTool::CorrelateProcessNetwork)
    } else if name == "capture_coverage_baseline"@ {
        Some(BuiltinTool::CaptureCoverageBaseline)
    } else {
        None
    }
}

/// Looks a tool up by its exact name.
pub fn builtin_tool(name: &str) -> (r: Option<BuiltinTool>)
    ensures
        r == builtin_tool_spec(name@),
{
    let n = chars_of(name);
    if chars_eq_str(&n, "read_syslog") {
        Some(BuiltinTool::ReadSyslog)
    } else if chars_eq_str(&n, "scan_network") {
        Some(BuiltinTool::ScanNetwork)
    } else if chars_eq_str(&n, "hash_binary") {
        Some(BuiltinTool::HashBinary)
    } else if chars_eq_str(&n, "check_privilege_escalation_vectors") {
        Some(BuiltinTool::CheckPrivilegeEscalationVectors)
    } else if chars_eq_str(&n, "inspect_persistence_locations") {
        Some(BuiltinTool::InspectPersistenceLocations)
    } else if chars_eq_str(&n, "audit_account_changes") {
        Some(BuiltinTool::AuditAccountChanges)
    } else if chars_eq_str(&n, "correlate_process_network") {
        Some(BuiltinTool::CorrelateProcessNetwork)
    } else if chars_eq_str(&n, "capture_coverage_baseline") {
        Some(BuiltinTool::CaptureCoverageBaseline)
    } else {
        None
    }
}

/// What running a named tool first needs: the tool the registry holds under that name,
/// then the reads and commands the sandbox policy must allow.  An unknown name fails
/// before any policy check.
pub fn tool_request(name: &str, args: &JsonValue) -> (r: Result<(BuiltinTool, Vec<crate::sandbox::PolicyCheck>), crate::sandbox::ToolError>)
    ensures
        match builtin_tool_spec(name@) {
            None => r matches Err(crate::sandbox::ToolError::UnknownTool(s)) && s@ == name@,
            Some(t) => r matches Ok((k, cs)) && k == t && crate::sandbox::check_views(cs@)
                == crate::sandbox::policy_checks_spec(name@, *args),
        },
{
    match builtin_tool(name) {
        None => Err(crate::sandbox::ToolError::UnknownTool(string_of(&chars_of(name)))),
        Some(t) => Ok((t, crate::sandbox::policy_checks(name, args))),
    }
}

/// The observation a failed tool call leaves: an object with the error's message under
/// `error`.
pub fn error_observation(err: &crate::sandbox::ToolError) -> (r: JsonValue)
    ensures
        r matches JsonValue::Object(m) && m@.len() == 1 && crate::json::is_str_member(
            m@[0],
            "error"@,
            crate::sandbox::tool_error_text(*err),
        ),
{
    let mut m: Vec<(String, JsonValue)> = Vec::new();
    let msg = err.message();
    m.push((string_of(&chars_of("error")), JsonValue::Str(msg)));
    JsonValue::Object(m)
}

} // verus!
