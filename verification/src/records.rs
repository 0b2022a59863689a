//! The records the host collectors report, as JSON, and the parsers that read them
//! from the output of system commands.
use vstd::prelude::*;

use crate::json::{
    bool_member, is_bool_member, is_opt_str_member, is_opt_uint_member, is_str_member,
    is_uint_member, opt_str_member, opt_uint_member, str_member, uint_member, value_member,
    JsonValue,
};
use crate::text::{
    ascii_lower, chars_eq, chars_of, find_from, first_occurrence_from, is_ascii_digit,
    is_digit_spec, lines, occurs_at, parse_u32, parse_u32_spec, slice_chars, split_words,
    starts_with_seq, string_of, trim, trim_chars, trim_str, views, words,
};
use crate::text_support::{str_to_uppercase, unicode_uppercase};
use crate::templates::{lit_views_push, str_views};
use crate::text::{contains, contains_seq, eq_ignore_ascii_case, lines_of, push_str, split_char, split_on, to_ascii_lower, string_views, push_all};
use crate::tools::{text_lt, text_lt_exec};
use crate::text::{dec, dec_chars, matches_at};

verus! {

fn lit(s: &str) -> (r: String)
    ensures
        r@ == s@,
{
    string_of(&chars_of(s))
}

// ---------------------------------------------------------------------------
// Records
// ---------------------------------------------------------------------------

/// A listening socket.
#[derive(Debug)]
pub struct ListenerRecord {
    pub protocol: String,
    pub local_address: String,
    pub state: String,
    pub pid: Option<u32>,
}

pub open spec fn opt_u64(p: Option<u32>) -> Option<u64> {
    match p {
        Some(v) => Some(v as u64),
        None => None,
    }
}

pub open spec fn opt_seq(s: Option<String>) -> Option<Seq<char>> {
    match s {
        Some(v) => Some(v@),
        None => None,
    }
}

impl ListenerRecord {
    /// The record as a JSON object, members in field order.
    pub fn to_json(&self) -> (r: JsonValue)
        ensures
            r matches JsonValue::Object(m) && m@.len() == 4
                && is_str_member(m@[0], "protocol"@, self.protocol@)
                && is_str_member(m@[1], "local_address"@, self.local_address@)
                && is_str_member(m@[2], "state"@, self.state@)
                && is_opt_uint_member(m@[3], "pid"@, opt_u64(self.pid)),
    {
        let mut m: Vec<(String, JsonValue)> = Vec::new();
        m.push(str_member("protocol", self.protocol.as_str()));
        m.push(str_member("local_address", self.local_address.as_str()));
        m.push(str_member("state", self.state.as_str()));
        m.push(opt_uint_member("pid", match self.pid { Some(p) => Some(p as u64), None => None }));
        JsonValue::Object(m)
    }
}

/// An entry found in a persistence location.
#[derive(Debug)]
pub struct PersistenceEntry {
    pub location: String,
    pub kind: String,
    pub entry: String,
    pub suspicious: bool,
}

impl PersistenceEntry {
    /// The entry as a JSON object, members in field order.
    pub fn to_json(&self) -> (r: JsonValue)
        ensures
            r matches JsonValue::Object(m) && m@.len() == 4
                && is_str_member(m@[0], "location"@, self.location@)
                && is_str_member(m@[1], "kind"@, self.kind@)
                && is_str_member(m@[2], "entry"@, self.entry@)
                && is_bool_member(m@[3], "suspicious"@, self.suspicious),
    {
        let mut m: Vec<(String, JsonValue)> = Vec::new();
        m.push(str_member("location", self.location.as_str()));
        m.push(str_member("kind", self.kind.as_str()));
        m.push(str_member("entry", self.entry.as_str()));
        m.push(bool_member("suspicious", self.suspicious));
        JsonValue::Object(m)
    }

    /// A copy of the entry.
    pub fn copy(&self) -> (r: PersistenceEntry)
        ensures
            r.location@ == self.location@,
            r.kind@ == self.kind@,
            r.entry@ == self.entry@,
            r.suspicious == self.suspicious,
    {
        PersistenceEntry {
            location: lit(self.location.as_str()),
            kind: lit(self.kind.as_str()),
            entry: lit(self.entry.as_str()),
            suspicious: self.suspicious,
        }
    }
}

/// A listening socket with the process that owns it.
#[derive(Debug)]
pub struct ProcessNetworkRecord {
    pub protocol: String,
    pub local_address: String,
    pub state: String,
    pub pid: Option<u32>,
    pub process_name: Option<String>,
    pub externally_exposed: bool,
}

impl ProcessNetworkRecord {
    /// The record as a JSON object, members in field order.
    pub fn to_json(&self) -> (r: JsonValue)
        ensures
            r matches JsonValue::Object(m) && m@.len() == 6
                && is_str_member(m@[0], "protocol"@, self.protocol@)
                && is_str_member(m@[1], "local_address"@, self.local_address@)
                && is_str_member(m@[2], "state"@, self.state@)
                && is_opt_uint_member(m@[3], "pid"@, opt_u64(self.pid))
                && is_opt_str_member(m@[4], "process_name"@, opt_seq(self.process_name))
                && is_bool_member(m@[5], "externally_exposed"@, self.externally_exposed),
    {
        let mut m: Vec<(String, JsonValue)> = Vec::new();
        m.push(str_member("protocol", self.protocol.as_str()));
        m.push(str_member("local_address", self.local_address.as_str()));
        m.push(str_member("state", self.state.as_str()));
        m.push(opt_uint_member("pid", match self.pid { Some(p) => Some(p as u64), None => None }));
        m.push(opt_str_member("process_name", &self.process_name));
        m.push(bool_member("externally_exposed", self.externally_exposed));
        JsonValue::Object(m)
    }

    /// A copy of the record.
    pub fn copy(&self) -> (r: ProcessNetworkRecord)
        ensures
            r.protocol@ == self.protocol@,
            r.local_address@ == self.local_address@,
            r.state@ == self.state@,
            r.pid == self.pid,
            opt_seq(r.process_name) == opt_seq(self.process_name),
            r.externally_exposed == self.externally_exposed,
    {
        ProcessNetworkRecord {
            protocol: lit(self.protocol.as_str()),
            local_address: lit(self.local_address.as_str()),
            state: lit(self.state.as_str()),
            pid: self.pid,
            process_name: match &self.process_name {
                Some(n) => Some(lit(n.as_str())),
                None => None,
            },
            externally_exposed: self.externally_exposed,
        }
    }
}

/// A process with its parent and the children that name it as parent.
#[derive(Debug)]
pub struct ProcessTreeEntry {
    pub pid: u32,
    pub ppid: u32,
    pub name: String,
    pub command_line: String,
    pub suspicious: bool,
    pub child_pids: Vec<u32>,
}

/// The privileged accounts on a host, those beyond the defaults, and the lines that
/// show them.
#[derive(Debug)]
pub struct AccountPrivilegeSnapshot {
    pub privileged_accounts: Vec<String>,
    pub non_default_privileged_accounts: Vec<String>,
    pub evidence: Vec<String>,
}

// ---------------------------------------------------------------------------
// Socket listings
// ---------------------------------------------------------------------------

/// The digits after the first `pid=`, as a number.
pub open spec fn pid_digits(line: Seq<char>, start: int) -> Seq<char>
    decreases line.len() - start,
{
    if start < 0 || start >= line.len() || !is_digit_spec(line[start]) {
        seq![]
    } else {
        seq![line[start]] + pid_digits(line, start + 1)
    }
}

pub open spec fn first_index(hay: Seq<char>, needle: Seq<char>) -> Option<int> {
    if exists|i: int| first_occurrence_from(hay, needle, 0, i) {
        Some(choose|i: int| first_occurrence_from(hay, needle, 0, i))
    } else {
        None
    }
}

proof fn lemma_first_index(hay: Seq<char>, needle: Seq<char>, r: Option<usize>)
    requires
        match r {
            Some(i) => first_occurrence_from(hay, needle, 0, i as int),
            None => forall|k: int| 0 <= k ==> !occurs_at(hay, needle, k),
        },
    ensures
        first_index(hay, needle) == match r {
            Some(i) => Some(i as int),
            None => None::<int>,
        },
{
    match r {
        Some(i) => {
            let j = choose|j: int| first_occurrence_from(hay, needle, 0, j);
            assert(first_occurrence_from(hay, needle, 0, j));
            if j < i {
                assert(!occurs_at(hay, needle, j));
            }
            if i < j {
                assert(!occurs_at(hay, needle, i as int));
            }
        },
        None => {
            assert forall|i: int| !first_occurrence_from(hay, needle, 0, i) by {
                if 0 <= i {
                    assert(!occurs_at(hay, needle, i));
                }
            }
        },
    }
}

/// The process id after the first `pid=` marker of a line.
pub open spec fn extract_pid_spec(line: Seq<char>) -> Option<u32> {
    match first_index(line, "pid="@) {
        None => None,
        Some(i) => parse_u32_spec(pid_digits(line, i + 4)),
    }
}

/// Reads the process id that `ss` prints as `pid=N`.
pub fn extract_pid(line: &str) -> (r: Option<u32>)
    ensures
        r == extract_pid_spec(line@),
{
    let l = chars_of(line);
    let marker = chars_of("pid=");
    proof {
        reveal_strlit("pid=");
    }
    let found = find_from(&l, &marker, 0);
    proof {
        lemma_first_index(l@, marker@, found);
    }
    let i = match found {
        Some(i) => i,
        None => return None,
    };
    assert(occurs_at(l@, marker@, i as int));
    let n = l.len();
    let start = i + 4;
    let mut j = start;
    while j < n && is_ascii_digit(l[j])
        invariant
            start <= j <= n,
            n == l@.len(),
            pid_digits(l@, start as int) == l@.subrange(start as int, j as int) + pid_digits(l@, j as int),
        decreases n - j,
    {
        assert(pid_digits(l@, j as int) == seq![l@[j as int]] + pid_digits(l@, j + 1));
        assert(l@.subrange(start as int, j + 1) =~= l@.subrange(start as int, j as int) + seq![l@[j as int]]);
        j = j + 1;
    }
    assert(pid_digits(l@, j as int) =~= Seq::<char>::empty());
    assert(pid_digits(l@, start as int) =~= l@.subrange(start as int, j as int));
    let digits = slice_chars(&l, start, j);
    parse_u32(&digits)
}

/// A line of `ss -tulpen` output as a listener: lines of `tcp` or `udp` sockets with
/// at least six columns, protocol and state upper-cased, the fifth column as the
/// local address.
pub open spec fn ss_line_spec(line: Seq<char>) -> Option<(Seq<char>, Seq<char>, Seq<char>, Option<u32>)> {
    let t = trim(line);
    let parts = words(t);
    if !(starts_with_seq(t, "tcp"@) || starts_with_seq(t, "udp"@)) || parts.len() < 6 {
        None
    } else {
        Some((unicode_uppercase(parts[0]), unicode_uppercase(parts[1]), parts[4], extract_pid_spec(t)))
    }
}

/// Parses one line of `ss -tulpen` output (see [`ss_line_spec`]).
pub fn parse_unix_ss_line(line: &str) -> (r: Option<ListenerRecord>)
    ensures
        match ss_line_spec(line@) {
            None => r is None,
            Some((proto, state, addr, pid)) => r matches Some(rec) && rec.protocol@ == proto
                && rec.state@ == state && rec.local_address@ == addr && rec.pid == pid,
        },
{
    let t = trim_str(line);
    let tcp = crate::text::starts_with(&t, &chars_of("tcp"));
    let udp = crate::text::starts_with(&t, &chars_of("udp"));
    if !(tcp || udp) {
        return None;
    }
    let parts = split_words(&t);
    if parts.len() < 6 {
        return None;
    }
    let ts = string_of(&t);
    let pid = extract_pid(ts.as_str());
    let p0 = string_of(&parts[0]);
    let p1 = string_of(&parts[1]);
    assert(views(parts@)[0] == parts@[0]@);
    assert(views(parts@)[1] == parts@[1]@);
    assert(views(parts@)[4] == parts@[4]@);
    Some(ListenerRecord {
        protocol: str_to_uppercase(p0.as_str()),
        state: str_to_uppercase(p1.as_str()),
        local_address: string_of(&parts[4]),
        pid,
    })
}

/// A line of `netstat -ano` output as a listener: `TCP` lines with at least five
/// columns (state in the fourth, process id in the fifth), `UDP` lines with at least
/// four (no state, process id in the last column).
pub open spec fn netstat_line_spec(line: Seq<char>) -> Option<(Seq<char>, Seq<char>, Seq<char>, Option<u32>)> {
    let t = trim(line);
    let parts = words(t);
    if !(starts_with_seq(t, "TCP"@) || starts_with_seq(t, "UDP"@)) || parts.len() < 4 {
        None
    } else if parts[0] == "TCP"@ {
        if parts.len() < 5 {
            None
        } else {
            Some((parts[0], parts[1], parts[3], parse_u32_spec(parts[4])))
        }
    } else {
        Some((parts[0], parts[1], "N/A"@, parse_u32_spec(parts.last())))
    }
}

/// Parses one line of `netstat -ano` output (see [`netstat_line_spec`]).
pub fn parse_windows_netstat_line(line: &str) -> (r: Option<ListenerRecord>)
    ensures
        match netstat_line_spec(line@) {
            None => r is None,
            Some((proto, addr, state, pid)) => r matches Some(rec) && rec.protocol@ == proto
                && rec.state@ == state && rec.local_address@ == addr && rec.pid == pid,
        },
{
    let t = trim_str(line);
    let tcp = crate::text::starts_with(&t, &chars_of("TCP"));
    let udp = crate::text::starts_with(&t, &chars_of("UDP"));
    if !(tcp || udp) {
        return None;
    }
    let parts = split_words(&t);
    if parts.len() < 4 {
        return None;
    }
    assert(views(parts@)[0] == parts@[0]@);
    assert(views(parts@)[1] == parts@[1]@);
    let protocol = string_of(&parts[0]);
    let local_address = string_of(&parts[1]);
    if chars_eq(&parts[0], &chars_of("TCP")) {
        if parts.len() < 5 {
            return None;
        }
        assert(views(parts@)[3] == parts@[3]@);
        assert(views(parts@)[4] == parts@[4]@);
        let state = string_of(&parts[3]);
        let pid = parse_u32(&parts[4]);
        return Some(ListenerRecord { protocol, local_address, state, pid });
    }
    let last = parts.len() - 1;
    assert(views(parts@)[last as int] == parts@[last as int]@);
    let pid = parse_u32(&parts[last]);
    Some(ListenerRecord { protocol, local_address, state: lit("N/A"), pid })
}

// ---------------------------------------------------------------------------
// Sorted sets of names
// ---------------------------------------------------------------------------

/// Adds `x` to an ascending list of distinct names unless it is already there.
pub open spec fn insert_unique(s: Seq<Seq<char>>, x: Seq<char>) -> Seq<Seq<char>>
    decreases s.len(),
{
    if s.len() == 0 {
        seq![x]
    } else if s[0] == x {
        s
    } else if text_lt(x, s[0]) {
        seq![x] + s
    } else {
        seq![s[0]] + insert_unique(s.drop_first(), x)
    }
}

/// The distinct names of `s` in ascending order (a sorted set).
pub open spec fn sorted_unique(s: Seq<Seq<char>>) -> Seq<Seq<char>>
    decreases s.len(),
{
    if s.len() == 0 {
        seq![]
    } else {
        insert_unique(sorted_unique(s.drop_last()), s.last())
    }
}

proof fn lemma_insert_unique_at(s: Seq<Seq<char>>, x: Seq<char>, p: int)
    requires
        0 <= p <= s.len(),
        forall|k: int| 0 <= k < p ==> #[trigger] s[k] != x && !text_lt(x, s[k]),
        p == s.len() || s[p] == x || text_lt(x, s[p]),
    ensures
        p < s.len() && s[p] == x ==> insert_unique(s, x) == s,
        !(p < s.len() && s[p] == x) ==> insert_unique(s, x) == s.take(p) + seq![x] + s.skip(p),
    decreases p,
{
    if s.len() == 0 {
        assert(s.take(p) + seq![x] + s.skip(p) =~= seq![x]);
    } else if p == 0 {
        assert(s.take(p) + seq![x] + s.skip(p) =~= seq![x] + s);
    } else {
        let t = s.drop_first();
        assert(s[0] != x && !text_lt(x, s[0]));
        assert forall|k: int| 0 <= k < p - 1 implies #[trigger] t[k] != x && !text_lt(x, t[k]) by {
            assert(t[k] == s[k + 1]);
        }
        if p - 1 < t.len() {
            assert(t[p - 1] == s[p]);
        }
        lemma_insert_unique_at(t, x, p - 1);
        if p < s.len() && s[p] == x {
            assert(seq![s[0]] + t =~= s);
        } else {
            assert(seq![s[0]] + (t.take(p - 1) + seq![x] + t.skip(p - 1)) =~= s.take(p) + seq![x]
                + s.skip(p));
        }
    }
}

/// Adds a name to an ascending list of distinct names.
pub fn insert_sorted_unique(out: &mut Vec<String>, x: String)
    ensures
        string_views(final(out)@) == insert_unique(string_views(old(out)@), x@),
{
    let ghost s = string_views(out@);
    let xc = chars_of(x.as_str());
    let mut p: usize = 0;
    let mut stop = false;
    while p < out.len() && !stop
        invariant
            p <= out@.len(),
            s == string_views(out@),
            xc@ == x@,
            stop ==> p < out@.len() && (s[p as int] == x@ || text_lt(x@, s[p as int])),
            forall|k: int| 0 <= k < p ==> #[trigger] s[k] != x@ && !text_lt(x@, s[k]),
        decreases out@.len() - p, (if stop { 0int } else { 1int }),
    {
        let other = chars_of(out[p].as_str());
        assert(s[p as int] == out@[p as int]@);
        if chars_eq(&other, &xc) || text_lt_exec(&xc, &other) {
            stop = true;
        } else {
            p = p + 1;
        }
    }
    proof {
        lemma_insert_unique_at(s, x@, p as int);
    }
    if p < out.len() {
        let other = chars_of(out[p].as_str());
        if chars_eq(&other, &xc) {
            return;
        }
    }
    let ghost xv = x@;
    out.insert(p, x);
    assert(string_views(out@) =~= s.take(p as int) + seq![xv] + s.skip(p as int));
}

// ---------------------------------------------------------------------------
// Administrators group
// ---------------------------------------------------------------------------

/// The member lines of `net localgroup administrators`: the trimmed non-empty lines
/// after the `---` rule, up to the line that reports the command completed.
pub open spec fn admin_collect(ls: Seq<Seq<char>>, i: int, in_list: bool) -> Seq<Seq<char>>
    decreases ls.len() - i,
{
    if i < 0 || i >= ls.len() {
        seq![]
    } else {
        let t = trim(ls[i]);
        if t.len() == 0 {
            admin_collect(ls, i + 1, in_list)
        } else if starts_with_seq(t, "---"@) {
            admin_collect(ls, i + 1, true)
        } else if !in_list {
            admin_collect(ls, i + 1, false)
        } else if contains_seq(ascii_lower(t), "command completed"@) {
            seq![]
        } else {
            seq![t] + admin_collect(ls, i + 1, true)
        }
    }
}

/// The administrators listed by `net localgroup administrators`, sorted, each once.
pub open spec fn admin_members_spec(stdout: Seq<char>) -> Seq<Seq<char>> {
    sorted_unique(admin_collect(lines(stdout), 0, false))
}

/// Parses the members of the local administrators group (see [`admin_members_spec`]).
pub fn parse_windows_admin_members(stdout: &str) -> (r: Vec<String>)
    ensures
        string_views(r@) == admin_members_spec(stdout@),
{
    let ls = lines_of(stdout);
    let ghost all = views(ls@);
    let mut collected: Vec<Vec<char>> = Vec::new();
    let mut in_list = false;
    let mut i: usize = 0;
    let mut done = false;
    assert(views(collected@) + admin_collect(all, 0, false) =~= admin_collect(all, 0, false));
    while i < ls.len() && !done
        invariant
            i <= ls@.len(),
            all == views(ls@),
            done ==> admin_collect(all, 0, false) == views(collected@),
            !done ==> admin_collect(all, 0, false) == views(collected@) + admin_collect(all, i as int, in_list),
        decreases ls@.len() - i, (if done { 0int } else { 1int }),
    {
        let t = trim_chars(&ls[i]);
        assert(all[i as int] == ls@[i as int]@);
        if t.len() == 0 {
            i = i + 1;
        } else if crate::text::starts_with(&t, &chars_of("---")) {
            in_list = true;
            i = i + 1;
        } else if !in_list {
            i = i + 1;
        } else {
            let low = to_ascii_lower(&t);
            if contains(&low, &chars_of("command completed")) {
                assert(views(collected@) + Seq::<Seq<char>>::empty() =~= views(collected@));
                done = true;
            } else {
                let ghost before = views(collected@);
                collected.push(t);
                assert(views(collected@) =~= before.push(trim(all[i as int])));
                assert(before + (seq![trim(all[i as int])] + admin_collect(all, i + 1, true))
                    =~= views(collected@) + admin_collect(all, i + 1, true));
                i = i + 1;
            }
        }
    }
    if !done {
        assert(admin_collect(all, i as int, in_list) =~= Seq::<Seq<char>>::empty());
        assert(views(collected@) + Seq::<Seq<char>>::empty() =~= views(collected@));
    }
    let ghost members = views(collected@);
    let mut out: Vec<String> = Vec::new();
    let mut k: usize = 0;
    assert(members.take(0) =~= Seq::<Seq<char>>::empty());
    assert(string_views(out@) =~= Seq::<Seq<char>>::empty());
    while k < collected.len()
        invariant
            k <= collected@.len(),
            members == views(collected@),
            string_views(out@) == sorted_unique(members.take(k as int)),
        decreases collected@.len() - k,
    {
        assert(members.take(k + 1).drop_last() =~= members.take(k as int));
        assert(members.take(k + 1).last() == collected@[k as int]@);
        insert_sorted_unique(&mut out, string_of(&collected[k]));
        k = k + 1;
    }
    assert(members.take(collected@.len() as int) =~= members);
    out
}

pub open spec fn default_admin_names() -> Seq<Seq<char>> {
    seq![
        "administrator"@,
        "administrators"@,
        "domain admins"@,
        "enterprise admins"@,
        "nt authority\\system"@,
    ]
}

/// A built-in administrator account or group, compared in lower case.
pub open spec fn default_admin_spec(member: Seq<char>) -> bool {
    default_admin_names().contains(ascii_lower(member))
}

/// Whether an administrators-group member is one of the built-in accounts.
pub fn is_windows_default_admin_member(member: &str) -> (r: bool)
    ensures
        r == default_admin_spec(member@),
{
    let mut names: Vec<&'static str> = Vec::new();
    lit_views_push(&mut names, "administrator");
    lit_views_push(&mut names, "administrators");
    lit_views_push(&mut names, "domain admins");
    lit_views_push(&mut names, "enterprise admins");
    lit_views_push(&mut names, "nt authority\\system");
    assert(str_views(names@) =~= default_admin_names());
    let lower = to_ascii_lower(&chars_of(member));
    let mut i: usize = 0;
    while i < names.len()
        invariant
            i <= names@.len(),
            str_views(names@) == default_admin_names(),
            lower@ == ascii_lower(member@),
            forall|k: int| 0 <= k < i ==> default_admin_names()[k] != lower@,
        decreases names@.len() - i,
    {
        let n = chars_of(names[i]);
        assert(str_views(names@)[i as int] == n@);
        if chars_eq(&n, &lower) {
            return true;
        }
        i = i + 1;
    }
    false
}

// ---------------------------------------------------------------------------
// Event log channels
// ---------------------------------------------------------------------------

pub open spec fn event_channels() -> Seq<Seq<char>> {
    seq![
        "System"@,
        "Security"@,
        "Application"@,
        "Setup"@,
        "Microsoft-Windows-PowerShell/Operational"@,
        "Microsoft-Windows-Sysmon/Operational"@,
        "Microsoft-Windows-TaskScheduler/Operational"@,
        "Microsoft-Windows-TerminalServices-LocalSessionManager/Operational"@,
    ]
}

/// A name equal, ignoring ASCII case, to a well-known Windows event log channel.
pub open spec fn event_channel_spec(path: Seq<char>) -> bool {
    exists|i: int| 0 <= i < event_channels().len() && ascii_lower(#[trigger] event_channels()[i])
        == ascii_lower(path)
}

/// Whether a log path names a well-known Windows event log channel rather than a file.
pub fn is_windows_event_channel(path_str: &str) -> (r: bool)
    ensures
        r == event_channel_spec(path_str@),
{
    let mut ch: Vec<&'static str> = Vec::new();
    lit_views_push(&mut ch, "System");
    lit_views_push(&mut ch, "Security");
    lit_views_push(&mut ch, "Application");
    lit_views_push(&mut ch, "Setup");
    lit_views_push(&mut ch, "Microsoft-Windows-PowerShell/Operational");
    lit_views_push(&mut ch, "Microsoft-Windows-Sysmon/Operational");
    lit_views_push(&mut ch, "Microsoft-Windows-TaskScheduler/Operational");
    lit_views_push(&mut ch, "Microsoft-Windows-TerminalServices-LocalSessionManager/Operational");
    assert(str_views(ch@) =~= event_channels());
    let p = chars_of(path_str);
    let mut i: usize = 0;
    while i < ch.len()
        invariant
            i <= ch@.len(),
            str_views(ch@) == event_channels(),
            p@ == path_str@,
            forall|k: int| 0 <= k < i ==> ascii_lower(#[trigger] event_channels()[k]) != ascii_lower(p@),
        decreases ch@.len() - i,
    {
        let c = chars_of(ch[i]);
        assert(str_views(ch@)[i as int] == c@);
        if eq_ignore_ascii_case(&c, &p) {
            return true;
        }
        i = i + 1;
    }
    false
}

/// Reading a Windows event log on a host that is not Windows: always an execution
/// error saying so.
pub fn read_windows_event_log(channel_or_path: &str, max_events: usize) -> (r: Result<Vec<String>, crate::sandbox::ToolError>)
    ensures
        r matches Err(crate::sandbox::ToolError::Execution(m)) && m@
            == "Windows Event Log is only available on Windows"@,
{
    Err(crate::sandbox::ToolError::Execution(lit("Windows Event Log is only available on Windows")))
}

// ---------------------------------------------------------------------------
// Log tails
// ---------------------------------------------------------------------------

/// The last `min(clamp(max_lines, 1, 1000), len)` lines.
pub open spec fn tail_spec(ls: Seq<Seq<char>>, max_lines: nat) -> Seq<Seq<char>> {
    let b: nat = if max_lines < 1 { 1 } else if max_lines > 1000 { 1000 } else { max_lines };
    if ls.len() <= b {
        ls
    } else {
        ls.skip(ls.len() - b)
    }
}

/// Keeps the last lines of a log, at most `max_lines` of them, bounded to `1..=1000`.
pub fn bounded_tail(lines: Vec<String>, max_lines: usize) -> (r: Vec<String>)
    ensures
        string_views(r@) == tail_spec(string_views(lines@), max_lines as nat),
{
    let b: usize = if max_lines < 1 { 1 } else if max_lines > 1000 { 1000 } else { max_lines };
    if lines.len() <= b {
        return lines;
    }
    let start = lines.len() - b;
    let ghost all = string_views(lines@);
    let mut out: Vec<String> = Vec::new();
    let mut i = start;
    while i < lines.len()
        invariant
            start <= i <= lines@.len(),
            all == string_views(lines@),
            out@.len() == i - start,
            string_views(out@) == all.subrange(start as int, i as int),
        decreases lines@.len() - i,
    {
        let ghost before = out@;
        out.push(lit(lines[i].as_str()));
        assert forall|k: int| 0 <= k < before.len() implies string_views(out@)[k] == string_views(before)[k] by {
            assert(out@[k] == before[k]);
        }
        assert(string_views(out@)[before.len() as int] == all[i as int]);
        assert(string_views(out@) =~= all.subrange(start as int, i + 1));
        i = i + 1;
    }
    assert(all.subrange(start as int, lines@.len() as int) =~= all.skip(start as int));
    out
}

// ---------------------------------------------------------------------------
// Task list rows
// ---------------------------------------------------------------------------

pub open spec fn strip_quotes_start(s: Seq<char>) -> Seq<char>
    decreases s.len(),
{
    if s.len() > 0 && s[0] == '"' {
        strip_quotes_start(s.drop_first())
    } else {
        s
    }
}

pub open spec fn strip_quotes_end(s: Seq<char>) -> Seq<char>
    decreases s.len(),
{
    if s.len() > 0 && s.last() == '"' {
        strip_quotes_end(s.drop_last())
    } else {
        s
    }
}

/// `str::trim_matches('"')`.
pub open spec fn strip_quotes(s: Seq<char>) -> Seq<char> {
    strip_quotes_end(strip_quotes_start(s))
}

fn strip_quotes_exec(v: &Vec<char>) -> (r: Vec<char>)
    ensures
        r@ == strip_quotes(v@),
{
    let n = v.len();
    let mut i: usize = 0;
    assert(v@.subrange(0, n as int) =~= v@);
    while i < n && v[i] == '"'
        invariant
            n == v@.len(),
            i <= n,
            strip_quotes_start(v@) == strip_quotes_start(v@.subrange(i as int, n as int)),
        decreases n - i,
    {
        assert(v@.subrange(i as int, n as int).drop_first() =~= v@.subrange(i + 1, n as int));
        i = i + 1;
    }
    let mut j: usize = n;
    while j > i && v[j - 1] == '"'
        invariant
            n == v@.len(),
            i <= j <= n,
            strip_quotes_start(v@) == v@.subrange(i as int, n as int),
            strip_quotes(v@) == strip_quotes_end(v@.subrange(i as int, j as int)),
        decreases j - i,
    {
        assert(v@.subrange(i as int, j as int).drop_last() =~= v@.subrange(i as int, j - 1));
        j = j - 1;
    }
    slice_chars(v, i, j)
}

/// `str::split` on a non-empty string separator.
pub open spec fn split_str_acc(s: Seq<char>, sep: Seq<char>, cur: Seq<char>) -> Seq<Seq<char>>
    decreases s.len(),
{
    if s.len() == 0 || sep.len() == 0 {
        seq![cur + s]
    } else if starts_with_seq(s, sep) {
        seq![cur] + split_str_acc(s.skip(sep.len() as int), sep, seq![])
    } else {
        split_str_acc(s.drop_first(), sep, cur.push(s[0]))
    }
}

/// A row of `tasklist /FO CSV` output: split at `","`, each value trimmed of white
/// space and quotes.
pub open spec fn csv_row_spec(line: Seq<char>) -> Seq<Seq<char>> {
    let pieces = split_str_acc(strip_quotes(trim(line)), "\",\""@, seq![]);
    Seq::new(pieces.len(), |i: int| strip_quotes(trim(pieces[i])))
}

/// Splits a quoted CSV row (see [`csv_row_spec`]).
pub fn parse_csv_row(line: &str) -> (r: Vec<String>)
    ensures
        string_views(r@) == csv_row_spec(line@),
{
    proof {
        reveal_strlit("\",\"");
    }
    let body = strip_quotes_exec(&trim_str(line));
    let sep = chars_of("\",\"");
    let mut pieces: Vec<Vec<char>> = Vec::new();
    let mut cur: Vec<char> = Vec::new();
    let mut i: usize = 0;
    assert(body@.skip(0) =~= body@);
    assert(cur@ + body@.skip(0) =~= body@.skip(0));
    while i < body.len()
        invariant
            i <= body@.len(),
            sep@ == "\",\""@,
            sep@.len() == 3,
            split_str_acc(body@, sep@, seq![]) == views(pieces@) + split_str_acc(body@.skip(i as int), sep@, cur@),
        decreases body@.len() - i,
    {
        let ghost rest = body@.skip(i as int);
        if matches_at(&body, &sep, i) {
            assert(rest.subrange(0, 3) =~= body@.subrange(i as int, i + 3));
            assert(starts_with_seq(rest, sep@));
            assert(rest.skip(3) =~= body@.skip(i + 3));
            let ghost before = views(pieces@);
            let done = cur;
            pieces.push(done);
            cur = Vec::new();
            assert(views(pieces@) =~= before.push(done@));
            assert(views(pieces@) + split_str_acc(body@.skip(i + 3), sep@, cur@) =~= before + (seq![done@]
                + split_str_acc(body@.skip(i + 3), sep@, seq![])));
            i = i + 3;
        } else {
            assert(!starts_with_seq(rest, sep@)) by {
                if starts_with_seq(rest, sep@) {
                    assert(rest.subrange(0, 3) =~= body@.subrange(i as int, i + 3));
                }
            }
            assert(rest.drop_first() =~= body@.skip(i + 1));
            assert(rest[0] == body@[i as int]);
            cur.push(body[i]);
            i = i + 1;
        }
    }
    assert(body@.skip(i as int) =~= Seq::<char>::empty());
    assert(cur@ + body@.skip(i as int) =~= cur@);
    let ghost before = views(pieces@);
    pieces.push(cur);
    assert(views(pieces@) =~= before + seq![pieces@.last()@]);
    let ghost all = views(pieces@);
    let mut out: Vec<String> = Vec::new();
    let mut k: usize = 0;
    while k < pieces.len()
        invariant
            k <= pieces@.len(),
            all == views(pieces@),
            out@.len() == k,
            forall|m: int| 0 <= m < k ==> (#[trigger] out@[m])@ == strip_quotes(trim(all[m])),
        decreases pieces@.len() - k,
    {
        let v = strip_quotes_exec(&trim_chars(&pieces[k]));
        out.push(string_of(&v));
        k = k + 1;
    }
    assert(string_views(out@) =~= csv_row_spec(line@));
    out
}

/// The process named in `tasklist` output for `pid`: the first data row whose second
/// column is the process id; none when `tasklist` reports no match (`INFO:`).
pub open spec fn tasklist_scan(ls: Seq<Seq<char>>, i: int, pid_text: Seq<char>) -> Option<Seq<char>>
    decreases ls.len() - i,
{
    if i < 0 || i >= ls.len() {
        None
    } else {
        let t = trim(ls[i]);
        if t.len() == 0 {
            tasklist_scan(ls, i + 1, pid_text)
        } else if starts_with_seq(ascii_lower(t), "info:"@) {
            None
        } else {
            let cols = csv_row_spec(t);
            if cols.len() >= 2 && cols[1] == pid_text {
                Some(cols[0])
            } else {
                tasklist_scan(ls, i + 1, pid_text)
            }
        }
    }
}

/// Finds the process name for `pid` in `tasklist /FO CSV /NH` output.
pub fn parse_tasklist_process_name(stdout: &str, pid: u32) -> (r: Option<String>)
    ensures
        opt_seq(r) == tasklist_scan(lines(stdout@), 0, dec(pid as nat)),
{
    let pid_text = dec_chars(pid as u64);
    let ls = lines_of(stdout);
    let ghost all = views(ls@);
    let mut i: usize = 0;
    while i < ls.len()
        invariant
            i <= ls@.len(),
            all == views(ls@),
            all == lines(stdout@),
            pid_text@ == dec(pid as nat),
            tasklist_scan(all, 0, pid_text@) == tasklist_scan(all, i as int, pid_text@),
        decreases ls@.len() - i,
    {
        assert(all[i as int] == ls@[i as int]@);
        let t = trim_chars(&ls[i]);
        if t.len() > 0 {
            let low = to_ascii_lower(&t);
            if crate::text::starts_with(&low, &chars_of("info:")) {
                return None;
            }
            let ts = string_of(&t);
            let cols = parse_csv_row(ts.as_str());
            if cols.len() >= 2 {
                let c1 = chars_of(cols[1].as_str());
                assert(string_views(cols@)[1] == cols@[1]@);
                assert(string_views(cols@)[0] == cols@[0]@);
                if chars_eq(&c1, &pid_text) {
                    return Some(lit(cols[0].as_str()));
                }
            }
        }
        i = i + 1;
    }
    None
}

// ---------------------------------------------------------------------------
// Unix accounts
// ---------------------------------------------------------------------------

/// Blank lines and comment lines of `/etc/passwd` and `/etc/group`.
pub open spec fn skipped_line(l: Seq<char>) -> bool {
    trim(l).len() == 0 || (l.len() > 0 && l[0] == '#')
}

/// The accounts with user id 0, in file order.
pub open spec fn root_accounts(ls: Seq<Seq<char>>) -> Seq<Seq<char>>
    decreases ls.len(),
{
    if ls.len() == 0 {
        seq![]
    } else {
        let rest = root_accounts(ls.drop_last());
        let l = ls.last();
        let f = split_on(l, ':');
        if !skipped_line(l) && f.len() >= 4 && trim(f[2]) == "0"@ {
            rest.push(trim(f[0]))
        } else {
            rest
        }
    }
}

pub open spec fn privileged_group(g: Seq<char>) -> bool {
    g == "sudo"@ || g == "wheel"@ || g == "adm"@
}

/// The trimmed, non-empty names of a comma-separated member list.
pub open spec fn member_names(pieces: Seq<Seq<char>>) -> Seq<Seq<char>>
    decreases pieces.len(),
{
    if pieces.len() == 0 {
        seq![]
    } else {
        let rest = member_names(pieces.drop_last());
        let t = trim(pieces.last());
        if t.len() == 0 {
            rest
        } else {
            rest.push(t)
        }
    }
}

/// Each member paired with its group.
pub open spec fn pairs_for(g: Seq<char>, ms: Seq<Seq<char>>) -> Seq<(Seq<char>, Seq<char>)>
    decreases ms.len(),
{
    if ms.len() == 0 {
        seq![]
    } else {
        pairs_for(g, ms.drop_last()).push((g, ms.last()))
    }
}

/// The members of the `sudo`, `wheel` and `adm` groups, with their group, in file order.
pub open spec fn group_pairs(ls: Seq<Seq<char>>) -> Seq<(Seq<char>, Seq<char>)>
    decreases ls.len(),
{
    if ls.len() == 0 {
        seq![]
    } else {
        let rest = group_pairs(ls.drop_last());
        let l = ls.last();
        let f = split_on(l, ':');
        let g = trim(f[0]);
        if !skipped_line(l) && f.len() >= 4 && privileged_group(g) {
            rest + pairs_for(g, member_names(split_on(f[3], ',')))
        } else {
            rest
        }
    }
}

pub open spec fn pair_names(ps: Seq<(Seq<char>, Seq<char>)>) -> Seq<Seq<char>>
    decreases ps.len(),
{
    if ps.len() == 0 {
        seq![]
    } else {
        pair_names(ps.drop_last()).push(ps.last().1)
    }
}

pub open spec fn pair_evidence(ps: Seq<(Seq<char>, Seq<char>)>) -> Seq<Seq<char>>
    decreases ps.len(),
{
    if ps.len() == 0 {
        seq![]
    } else {
        pair_evidence(ps.drop_last()).push(ps.last().0 + " member: "@ + ps.last().1)
    }
}

pub open spec fn root_evidence(rs: Seq<Seq<char>>) -> Seq<Seq<char>>
    decreases rs.len(),
{
    if rs.len() == 0 {
        seq![]
    } else {
        root_evidence(rs.drop_last()).push("uid=0 account: "@ + rs.last())
    }
}

pub open spec fn not_root(s: Seq<Seq<char>>) -> Seq<Seq<char>>
    decreases s.len(),
{
    if s.len() == 0 {
        seq![]
    } else {
        let rest = not_root(s.drop_last());
        if s.last() == "root"@ {
            rest
        } else {
            rest.push(s.last())
        }
    }
}

pub open spec fn opt_lines(t: Option<Seq<char>>) -> Seq<Seq<char>> {
    match t {
        Some(x) => lines(x),
        None => seq![],
    }
}

/// Every privileged name, user-id-0 accounts first, then group members.
pub open spec fn all_privileged(p: Option<Seq<char>>, g: Option<Seq<char>>) -> Seq<Seq<char>> {
    root_accounts(opt_lines(p)) + pair_names(group_pairs(opt_lines(g)))
}

/// The evidence lines: `uid=0 account: NAME` per account, then `GROUP member: NAME`.
pub open spec fn account_evidence(p: Option<Seq<char>>, g: Option<Seq<char>>) -> Seq<Seq<char>> {
    root_evidence(root_accounts(opt_lines(p))) + pair_evidence(group_pairs(opt_lines(g)))
}

fn collect_roots(ls: &Vec<Vec<char>>) -> (r: Vec<Vec<char>>)
    ensures
        views(r@) == root_accounts(views(ls@)),
{
    let ghost all = views(ls@);
    let mut out: Vec<Vec<char>> = Vec::new();
    let mut i: usize = 0;
    assert(all.take(0) =~= Seq::<Seq<char>>::empty());
    assert(views(out@) =~= Seq::<Seq<char>>::empty());
    while i < ls.len()
        invariant
            i <= ls@.len(),
            all == views(ls@),
            views(out@) == root_accounts(all.take(i as int)),
        decreases ls@.len() - i,
    {
        assert(all.take(i + 1).drop_last() =~= all.take(i as int));
        assert(all.take(i + 1).last() == ls@[i as int]@);
        let l = &ls[i];
        let t = trim_chars(l);
        let skipped = t.len() == 0 || (l.len() > 0 && l[0] == '#');
        if !skipped {
            let f = split_char(l, ':');
            if f.len() >= 4 {
                assert(views(f@)[2] == f@[2]@);
                assert(views(f@)[0] == f@[0]@);
                let uid = trim_chars(&f[2]);
                if chars_eq(&uid, &chars_of("0")) {
                    let ghost before = views(out@);
                    out.push(trim_chars(&f[0]));
                    assert(views(out@) =~= before.push(trim(views(f@)[0])));
                }
            }
        }
        i = i + 1;
    }
    assert(all.take(ls@.len() as int) =~= all);
    out
}

fn collect_members(raw: &Vec<char>) -> (r: Vec<Vec<char>>)
    ensures
        views(r@) == member_names(split_on(raw@, ',')),
{
    let pieces = split_char(raw, ',');
    let ghost all = views(pieces@);
    let mut out: Vec<Vec<char>> = Vec::new();
    let mut i: usize = 0;
    assert(all.take(0) =~= Seq::<Seq<char>>::empty());
    assert(views(out@) =~= Seq::<Seq<char>>::empty());
    while i < pieces.len()
        invariant
            i <= pieces@.len(),
            all == views(pieces@),
            views(out@) == member_names(all.take(i as int)),
        decreases pieces@.len() - i,
    {
        assert(all.take(i + 1).drop_last() =~= all.take(i as int));
        assert(all.take(i + 1).last() == pieces@[i as int]@);
        let t = trim_chars(&pieces[i]);
        if t.len() > 0 {
            let ghost before = views(out@);
            out.push(t);
            assert(views(out@) =~= before.push(trim(all[i as int])));
        }
        i = i + 1;
    }
    assert(all.take(pieces@.len() as int) =~= all);
    out
}

proof fn lemma_split_acc_nonempty(s: Seq<char>, sep: char, cur: Seq<char>)
    ensures
        crate::text::split_acc(s, sep, cur).len() >= 1,
    decreases s.len(),
{
    if s.len() > 0 {
        if s[0] == sep {
            lemma_split_acc_nonempty(s.drop_first(), sep, seq![]);
        } else {
            lemma_split_acc_nonempty(s.drop_first(), sep, cur.push(s[0]));
        }
    }
}

pub open spec fn pair_views(v: Seq<(Vec<char>, Vec<char>)>) -> Seq<(Seq<char>, Seq<char>)> {
    Seq::new(v.len(), |i: int| (v[i].0@, v[i].1@))
}

fn collect_group_pairs(ls: &Vec<Vec<char>>) -> (r: Vec<(Vec<char>, Vec<char>)>)
    ensures
        pair_views(r@) == group_pairs(views(ls@)),
{
    let ghost all = views(ls@);
    let mut out: Vec<(Vec<char>, Vec<char>)> = Vec::new();
    let mut i: usize = 0;
    assert(all.take(0) =~= Seq::<Seq<char>>::empty());
    assert(pair_views(out@) =~= Seq::<(Seq<char>, Seq<char>)>::empty());
    while i < ls.len()
        invariant
            i <= ls@.len(),
            all == views(ls@),
            pair_views(out@) == group_pairs(all.take(i as int)),
        decreases ls@.len() - i,
    {
        assert(all.take(i + 1).drop_last() =~= all.take(i as int));
        assert(all.take(i + 1).last() == ls@[i as int]@);
        let l = &ls[i];
        let t = trim_chars(l);
        let skipped = t.len() == 0 || (l.len() > 0 && l[0] == '#');
        let f = split_char(l, ':');
        proof {
            lemma_split_acc_nonempty(l@, ':', seq![]);
        }
        assert(views(f@)[0] == f@[0]@);
        let g = trim_chars(&f[0]);
        let privileged = chars_eq(&g, &chars_of("sudo")) || chars_eq(&g, &chars_of("wheel"))
            || chars_eq(&g, &chars_of("adm"));
        if !skipped && f.len() >= 4 && privileged {
            assert(views(f@)[3] == f@[3]@);
            let ms = collect_members(&f[3]);
            let ghost base = pair_views(out@);
            let ghost mv = views(ms@);
            let mut k: usize = 0;
            assert(mv.take(0) =~= Seq::<Seq<char>>::empty());
            assert(base + pairs_for(g@, mv.take(0)) =~= base);
            while k < ms.len()
                invariant
                    k <= ms@.len(),
                    mv == views(ms@),
                    pair_views(out@) == base + pairs_for(g@, mv.take(k as int)),
                decreases ms@.len() - k,
            {
                assert(mv.take(k + 1).drop_last() =~= mv.take(k as int));
                assert(mv.take(k + 1).last() == ms@[k as int]@);
                let ghost before = out@;
                let gc = slice_chars(&g, 0, g.len());
                let mc = slice_chars(&ms[k], 0, ms[k].len());
                assert(g@.subrange(0, g@.len() as int) =~= g@);
                assert(ms@[k as int]@.subrange(0, ms@[k as int]@.len() as int) =~= ms@[k as int]@);
                out.push((gc, mc));
                assert(pair_views(out@) =~= pair_views(before).push((g@, ms@[k as int]@))) by {
                    assert forall|j: int| 0 <= j < before.len() implies pair_views(out@)[j] == pair_views(before)[j] by {
                        assert(out@[j] == before[j]);
                    }
                }
                assert(base + pairs_for(g@, mv.take(k + 1)) =~= (base + pairs_for(g@, mv.take(k as int))).push((g@, ms@[k as int]@)));
                k = k + 1;
            }
            assert(mv.take(ms@.len() as int) =~= mv);
            assert(split_on(all[i as int], ':') == views(f@));
            assert(mv == member_names(split_on(views(f@)[3], ',')));
            assert(pair_views(out@) =~= group_pairs(all.take(i + 1)));
        } else {
            assert(split_on(all[i as int], ':') == views(f@));
        }
        i = i + 1;
    }
    assert(all.take(ls@.len() as int) =~= all);
    out
}

fn lines_or_empty(t: Option<&str>) -> (r: Vec<Vec<char>>)
    ensures
        views(r@) == opt_lines(match t {
            Some(x) => Some(x@),
            None => None,
        }),
{
    match t {
        Some(x) => lines_of(x),
        None => {
            let v: Vec<Vec<char>> = Vec::new();
            assert(views(v@) =~= Seq::<Seq<char>>::empty());
            v
        },
    }
}

fn names_and_evidence(roots: &Vec<Vec<char>>, pairs: &Vec<(Vec<char>, Vec<char>)>) -> (r: (Vec<Vec<char>>, Vec<String>))
    ensures
        views(r.0@) == views(roots@) + pair_names(pair_views(pairs@)),
        string_views(r.1@) == root_evidence(views(roots@)) + pair_evidence(pair_views(pairs@)),
{
    let ghost rv = views(roots@);
    let ghost pv = pair_views(pairs@);
    let mut names: Vec<Vec<char>> = Vec::new();
    let mut evidence: Vec<String> = Vec::new();
    let mut i: usize = 0;
    assert(rv.take(0) =~= Seq::<Seq<char>>::empty());
    assert(views(names@) =~= Seq::<Seq<char>>::empty());
    assert(string_views(evidence@) =~= Seq::<Seq<char>>::empty());
    while i < roots.len()
        invariant
            i <= roots@.len(),
            rv == views(roots@),
            views(names@) == rv.take(i as int),
            string_views(evidence@) == root_evidence(rv.take(i as int)),
        decreases roots@.len() - i,
    {
        assert(rv.take(i + 1).drop_last() =~= rv.take(i as int));
        assert(rv.take(i + 1).last() == roots@[i as int]@);
        let mut e = chars_of("uid=0 account: ");
        push_all(&mut e, &roots[i]);
        let ghost eb = evidence@;
        let ghost nb = names@;
        evidence.push(string_of(&e));
        names.push(slice_chars(&roots[i], 0, roots[i].len()));
        assert(roots@[i as int]@.subrange(0, roots@[i as int]@.len() as int) =~= roots@[i as int]@);
        assert(string_views(evidence@) =~= string_views(eb).push(e@)) by {
            assert forall|j: int| 0 <= j < eb.len() implies string_views(evidence@)[j] == string_views(eb)[j] by {
                assert(evidence@[j] == eb[j]);
            }
        }
        assert(views(names@) =~= views(nb).push(roots@[i as int]@)) by {
            assert forall|j: int| 0 <= j < nb.len() implies views(names@)[j] == views(nb)[j] by {
                assert(names@[j] == nb[j]);
            }
        }
        i = i + 1;
    }
    assert(rv.take(roots@.len() as int) =~= rv);
    let ghost n0 = views(names@);
    let ghost e0 = string_views(evidence@);
    let mut k: usize = 0;
    assert(pv.take(0) =~= Seq::<(Seq<char>, Seq<char>)>::empty());
    assert(n0 + pair_names(pv.take(0)) =~= n0);
    assert(e0 + pair_evidence(pv.take(0)) =~= e0);
    while k < pairs.len()
        invariant
            k <= pairs@.len(),
            pv == pair_views(pairs@),
            views(names@) == n0 + pair_names(pv.take(k as int)),
            string_views(evidence@) == e0 + pair_evidence(pv.take(k as int)),
        decreases pairs@.len() - k,
    {
        assert(pv.take(k + 1).drop_last() =~= pv.take(k as int));
        assert(pv.take(k + 1).last() == (pairs@[k as int].0@, pairs@[k as int].1@));
        let mut e: Vec<char> = Vec::new();
        push_all(&mut e, &pairs[k].0);
        push_str(&mut e, " member: ");
        push_all(&mut e, &pairs[k].1);
        let ghost eb = evidence@;
        let ghost nb = names@;
        evidence.push(string_of(&e));
        names.push(slice_chars(&pairs[k].1, 0, pairs[k].1.len()));
        assert(pairs@[k as int].1@.subrange(0, pairs@[k as int].1@.len() as int) =~= pairs@[k as int].1@);
        assert(string_views(evidence@) =~= string_views(eb).push(e@)) by {
            assert forall|j: int| 0 <= j < eb.len() implies string_views(evidence@)[j] == string_views(eb)[j] by {
                assert(evidence@[j] == eb[j]);
            }
        }
        assert(views(names@) =~= views(nb).push(pairs@[k as int].1@)) by {
            assert forall|j: int| 0 <= j < nb.len() implies views(names@)[j] == views(nb)[j] by {
                assert(names@[j] == nb[j]);
            }
        }
        assert(n0 + pair_names(pv.take(k + 1)) =~= (n0 + pair_names(pv.take(k as int))).push(pairs@[k as int].1@));
        assert(e0 + pair_evidence(pv.take(k + 1)) =~= (e0 + pair_evidence(pv.take(k as int))).push(e@));
        k = k + 1;
    }
    assert(pv.take(pairs@.len() as int) =~= pv);
    (names, evidence)
}

/// The privileged-account snapshot of a Unix host from the text of `/etc/passwd` and
/// `/etc/group` (`None` where a file could not be read): user-id-0 accounts and members
/// of `sudo`, `wheel` and `adm`, as sorted sets, with and without `root`, and the
/// evidence lines.  An execution error when neither file could be read.
pub fn unix_account_snapshot(passwd: Option<&str>, group: Option<&str>) -> (r: Result<
    AccountPrivilegeSnapshot,
    crate::sandbox::ToolError,
>)
    ensures
        passwd is None && group is None ==> (r matches Err(crate::sandbox::ToolError::Execution(m))
            && m@ == "unable to read /etc/passwd or /etc/group for account snapshot"@),
        !(passwd is None && group is None) ==> (r matches Ok(s) && {
            let p = match passwd {
                Some(x) => Some(x@),
                None => None,
            };
            let g = match group {
                Some(x) => Some(x@),
                None => None,
            };
            &&& string_views(s.privileged_accounts@) == sorted_unique(all_privileged(p, g))
            &&& string_views(s.non_default_privileged_accounts@) == sorted_unique(
                not_root(all_privileged(p, g)),
            )
            &&& string_views(s.evidence@) == account_evidence(p, g)
        }),
{
    if passwd.is_none() && group.is_none() {
        return Err(
            crate::sandbox::ToolError::Execution(
                lit("unable to read /etc/passwd or /etc/group for account snapshot"),
            ),
        );
    }
    let pl = lines_or_empty(passwd);
    let gl = lines_or_empty(group);
    let roots = collect_roots(&pl);
    let pairs = collect_group_pairs(&gl);
    let (names, evidence) = names_and_evidence(&roots, &pairs);
    let ghost all = views(names@);
    let mut privileged: Vec<String> = Vec::new();
    let mut non_default: Vec<String> = Vec::new();
    let mut m: usize = 0;
    assert(all.take(0) =~= Seq::<Seq<char>>::empty());
    assert(string_views(privileged@) =~= Seq::<Seq<char>>::empty());
    assert(string_views(non_default@) =~= Seq::<Seq<char>>::empty());
    while m < names.len()
        invariant
            m <= names@.len(),
            all == views(names@),
            string_views(privileged@) == sorted_unique(all.take(m as int)),
            string_views(non_default@) == sorted_unique(not_root(all.take(m as int))),
        decreases names@.len() - m,
    {
        assert(all.take(m + 1).drop_last() =~= all.take(m as int));
        assert(all.take(m + 1).last() == names@[m as int]@);
        assert(all.take(m + 1) =~= all.take(m as int).push(all[m as int]));
        insert_sorted_unique(&mut privileged, string_of(&names[m]));
        if !chars_eq(&names[m], &chars_of("root")) {
            assert(not_root(all.take(m + 1)) == not_root(all.take(m as int)).push(all[m as int]));
            assert(not_root(all.take(m + 1)).drop_last() =~= not_root(all.take(m as int)));
            insert_sorted_unique(&mut non_default, string_of(&names[m]));
        } else {
            assert(not_root(all.take(m + 1)) == not_root(all.take(m as int)));
        }
        m = m + 1;
    }
    assert(all.take(names@.len() as int) =~= all);
    Ok(AccountPrivilegeSnapshot {
        privileged_accounts: privileged,
        non_default_privileged_accounts: non_default,
        evidence,
    })
}

// ---------------------------------------------------------------------------
// Process trees
// ---------------------------------------------------------------------------

/// The last index whose process id is `p`.
pub open spec fn last_with_pid(pids: Seq<u32>, p: u32) -> Option<int>
    decreases pids.len(),
{
    if pids.len() == 0 {
        None
    } else if pids.last() == p {
        Some(pids.len() - 1)
    } else {
        last_with_pid(pids.drop_last(), p)
    }
}

/// The process ids, among the first `n` entries and in order, whose parent id names
/// entry `j` (the last entry with that id).
pub open spec fn children_upto(pids: Seq<u32>, ppids: Seq<u32>, j: int, n: int) -> Seq<u32>
    decreases n,
{
    if n <= 0 {
        seq![]
    } else {
        let rest = children_upto(pids, ppids, j, n - 1);
        if last_with_pid(pids, ppids[n - 1]) == Some(j) {
            rest.push(pids[n - 1])
        } else {
            rest
        }
    }
}

pub open spec fn tree_pids(v: Seq<ProcessTreeEntry>) -> Seq<u32> {
    Seq::new(v.len(), |i: int| v[i].pid)
}

pub open spec fn tree_ppids(v: Seq<ProcessTreeEntry>) -> Seq<u32> {
    Seq::new(v.len(), |i: int| v[i].ppid)
}

fn last_index_of(pids: &Vec<u32>, p: u32) -> (r: Option<usize>)
    ensures
        match r {
            Some(i) => last_with_pid(pids@, p) == Some(i as int),
            None => last_with_pid(pids@, p) is None,
        },
{
    let mut k = pids.len();
    assert(pids@.take(k as int) =~= pids@);
    while k > 0
        invariant
            k <= pids@.len(),
            last_with_pid(pids@, p) == last_with_pid(pids@.take(k as int), p),
        decreases k,
    {
        assert(pids@.take(k as int).drop_last() =~= pids@.take(k - 1));
        if pids[k - 1] == p {
            return Some(k - 1);
        }
        k = k - 1;
    }
    None
}

/// Records each entry's children: every entry whose parent id names another entry (the
/// last one with that id) is added to that entry's children, in collection order.
pub fn populate_child_pids(entries: Vec<ProcessTreeEntry>) -> (r: Vec<ProcessTreeEntry>)
    ensures
        r@.len() == entries@.len(),
        forall|j: int| 0 <= j < r@.len() ==> {
            &&& (#[trigger] r@[j]).pid == entries@[j].pid
            &&& r@[j].ppid == entries@[j].ppid
            &&& r@[j].name@ == entries@[j].name@
            &&& r@[j].command_line@ == entries@[j].command_line@
            &&& r@[j].suspicious == entries@[j].suspicious
            &&& r@[j].child_pids@ == entries@[j].child_pids@ + children_upto(
                tree_pids(entries@),
                tree_ppids(entries@),
                j,
                entries@.len() as int,
            )
        },
{
    let n = entries.len();
    let mut pids: Vec<u32> = Vec::new();
    let mut ppids: Vec<u32> = Vec::new();
    let mut i: usize = 0;
    while i < n
        invariant
            i <= n == entries@.len(),
            pids@ == tree_pids(entries@).take(i as int),
            ppids@ == tree_ppids(entries@).take(i as int),
        decreases n - i,
    {
        pids.push(entries[i].pid);
        ppids.push(entries[i].ppid);
        assert(pids@ =~= tree_pids(entries@).take(i + 1));
        assert(ppids@ =~= tree_ppids(entries@).take(i + 1));
        i = i + 1;
    }
    assert(pids@ =~= tree_pids(entries@));
    assert(ppids@ =~= tree_ppids(entries@));
    let mut parent: Vec<Option<usize>> = Vec::new();
    let mut a: usize = 0;
    while a < n
        invariant
            a <= n == entries@.len(),
            pids@ == tree_pids(entries@),
            ppids@ == tree_ppids(entries@),
            parent@.len() == a,
            forall|m: int| 0 <= m < a ==> match #[trigger] parent@[m] {
                Some(x) => last_with_pid(pids@, ppids@[m]) == Some(x as int),
                None => last_with_pid(pids@, ppids@[m]) is None,
            },
        decreases n - a,
    {
        let li = last_index_of(&pids, ppids[a]);
        parent.push(li);
        a = a + 1;
    }
    let mut out: Vec<ProcessTreeEntry> = Vec::new();
    let mut j: usize = 0;
    while j < n
        invariant
            j <= n == entries@.len(),
            pids@ == tree_pids(entries@),
            ppids@ == tree_ppids(entries@),
            parent@.len() == n,
            forall|m: int| 0 <= m < n ==> match #[trigger] parent@[m] {
                Some(x) => last_with_pid(pids@, ppids@[m]) == Some(x as int),
                None => last_with_pid(pids@, ppids@[m]) is None,
            },
            out@.len() == j,
            forall|q: int| 0 <= q < j ==> {
                &&& (#[trigger] out@[q]).pid == entries@[q].pid
                &&& out@[q].ppid == entries@[q].ppid
                &&& out@[q].name@ == entries@[q].name@
                &&& out@[q].command_line@ == entries@[q].command_line@
                &&& out@[q].suspicious == entries@[q].suspicious
                &&& out@[q].child_pids@ == entries@[q].child_pids@ + children_upto(
                    pids@,
                    ppids@,
                    q,
                    n as int,
                )
            },
        decreases n - j,
    {
        let e = &entries[j];
        let mut kids: Vec<u32> = Vec::new();
        let mut c: usize = 0;
        while c < e.child_pids.len()
            invariant
                c <= e.child_pids@.len(),
                kids@ == e.child_pids@.take(c as int),
            decreases e.child_pids@.len() - c,
        {
            kids.push(e.child_pids[c]);
            assert(kids@ =~= e.child_pids@.take(c + 1));
            c = c + 1;
        }
        assert(kids@ =~= e.child_pids@);
        let mut b: usize = 0;
        assert(e.child_pids@ + children_upto(pids@, ppids@, j as int, 0) =~= e.child_pids@);
        while b < n
            invariant
                b <= n == pids@.len() == ppids@.len(),
                parent@.len() == n,
                forall|m: int| 0 <= m < n ==> match #[trigger] parent@[m] {
                    Some(x) => last_with_pid(pids@, ppids@[m]) == Some(x as int),
                    None => last_with_pid(pids@, ppids@[m]) is None,
                },
                kids@ == e.child_pids@ + children_upto(pids@, ppids@, j as int, b as int),
            decreases n - b,
        {
            let is_child = match parent[b] {
                Some(x) => x == j,
                None => false,
            };
            if is_child {
                kids.push(pids[b]);
            }
            assert(kids@ =~= e.child_pids@ + children_upto(pids@, ppids@, j as int, b + 1));
            b = b + 1;
        }
        out.push(ProcessTreeEntry {
            pid: e.pid,
            ppid: e.ppid,
            name: lit(e.name.as_str()),
            command_line: lit(e.command_line.as_str()),
            suspicious: e.suspicious,
            child_pids: kids,
        });
        j = j + 1;
    }
    out
}

/// The process tree entry for one process: suspicious by its name and command line,
/// with no children yet.
pub fn make_tree_entry(pid: u32, ppid: u32, name: String, command_line: String) -> (r: ProcessTreeEntry)
    ensures
        r.pid == pid,
        r.ppid == ppid,
        r.name@ == name@,
        r.command_line@ == command_line@,
        r.suspicious == crate::tools::suspicious_process_spec(name@, command_line@),
        r.child_pids@.len() == 0,
{
    let suspicious = crate::tools::is_suspicious_process(name.as_str(), command_line.as_str());
    ProcessTreeEntry { pid, ppid, name, command_line, suspicious, child_pids: Vec::new() }
}

/// The persistence entry for one item found in a location, marked suspicious by its name.
pub fn make_persistence_entry(location: &str, kind: &str, entry: String) -> (r: PersistenceEntry)
    ensures
        r.location@ == location@,
        r.kind@ == kind@,
        r.entry@ == entry@,
        r.suspicious == crate::tools::suspicious_entry_spec(entry@),
{
    let suspicious = crate::tools::is_suspicious_persistence_entry(entry.as_str());
    PersistenceEntry { location: lit(location), kind: lit(kind), entry, suspicious }
}

} // verus!
