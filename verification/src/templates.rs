//! Investigation templates: which tools a task calls for, chosen by keywords in the
//! task, and the check that a task lies within reach of the host-local tools.
use vstd::prelude::*;

use crate::model::{
    confidence_label_spec, EvidencePointer, Finding, FindingRelevance, FindingSeverity,
    FindingView, PointerView,
};
use crate::text::{
    chars_of, is_alnum_spec, is_ascii_alphanumeric, join, join_chars, matches_at, occurs_at,
    push_all, push_str, string_of, views,
};
use crate::text_support::{str_to_lowercase, unicode_lowercase};

verus! {

// ---------------------------------------------------------------------------
// Whole-word search
// ---------------------------------------------------------------------------

/// The match of `word` at `i` is not part of a longer alphanumeric run.
pub open spec fn word_bounded(text: Seq<char>, word: Seq<char>, i: int) -> bool {
    &&& (i == 0 || !is_alnum_spec(text[i - 1]))
    &&& (i + word.len() >= text.len() || !is_alnum_spec(text[i + word.len()]))
}

/// Scans the non-overlapping matches of `word` from `p` on, left to right, as
/// `str::match_indices` yields them, for one that stands as a whole word.
pub open spec fn word_scan(text: Seq<char>, word: Seq<char>, p: int) -> bool
    decreases text.len() + 1 - p,
{
    if p < 0 || p + word.len() > text.len() {
        false
    } else if occurs_at(text, word, p) {
        if word_bounded(text, word, p) {
            true
        } else {
            word_scan(text, word, p + if word.len() == 0 { 1 } else { word.len() as int })
        }
    } else {
        word_scan(text, word, p + 1)
    }
}

/// `word` appears in `text` as a standalone word.
pub open spec fn has_word_spec(text: Seq<char>, word: Seq<char>) -> bool {
    word_scan(text, word, 0)
}

/// Whether `word` appears in `text` as a standalone word, not inside a longer
/// alphanumeric run.
pub fn has_word(text: &Vec<char>, word: &Vec<char>) -> (r: bool)
    ensures
        r == has_word_spec(text@, word@),
{
    let mut p: usize = 0;
    while p < text.len()
        invariant
            p <= text@.len(),
            word_scan(text@, word@, p as int) == has_word_spec(text@, word@),
        decreases text@.len() - p,
    {
        if word.len() > text.len() - p {
            return false;
        }
        if matches_at(text, word, p) {
            let before_ok = p == 0 || !is_ascii_alphanumeric(text[p - 1]);
            let after = p + word.len();
            let after_ok = after >= text.len() || !is_ascii_alphanumeric(text[after]);
            if before_ok && after_ok {
                return true;
            }
            p = if word.len() == 0 { p + 1 } else { after };
        } else {
            p = p + 1;
        }
    }
    if word.len() == 0 {
        assert(occurs_at(text@, word@, p as int)) by {
            assert(text@.subrange(p as int, p as int) =~= word@);
        }
        assert(word_scan(text@, word@, p + 1) == false);
        return p == 0 || !is_ascii_alphanumeric(text[p - 1]);
    }
    false
}

/// Whether any of `words` appears in `text` as a standalone word.
pub open spec fn any_word(text: Seq<char>, words: Seq<Seq<char>>) -> bool {
    exists|i: int| 0 <= i < words.len() && has_word_spec(text, #[trigger] words[i])
}

/// How many of `words` appear in `text` as standalone words.
pub open spec fn word_score(text: Seq<char>, words: Seq<Seq<char>>) -> nat
    decreases words.len(),
{
    if words.len() == 0 {
        0
    } else {
        word_score(text, words.drop_last()) + if has_word_spec(text, words.last()) {
            1nat
        } else {
            0nat
        }
    }
}

/// The `words` that appear in `text` as standalone words, in order.
pub open spec fn matched_words(text: Seq<char>, words: Seq<Seq<char>>) -> Seq<Seq<char>>
    decreases words.len(),
{
    if words.len() == 0 {
        seq![]
    } else {
        let rest = matched_words(text, words.drop_last());
        if has_word_spec(text, words.last()) {
            rest.push(words.last())
        } else {
            rest
        }
    }
}

/// The text views of a list of string literals.
pub open spec fn str_views(v: Seq<&'static str>) -> Seq<Seq<char>> {
    Seq::new(v.len(), |i: int| v[i]@)
}

pub(crate) fn lit_views_push(v: &mut Vec<&'static str>, s: &'static str)
    ensures
        final(v)@ == old(v)@.push(s),
        str_views(final(v)@) == str_views(old(v)@).push(s@),
{
    v.push(s);
    assert(str_views(v@) =~= str_views(old(v)@).push(s@));
}

fn score_words(text: &Vec<char>, words: &Vec<&'static str>) -> (r: usize)
    ensures
        r as nat == word_score(text@, str_views(words@)),
        r <= words@.len(),
{
    let ghost all = str_views(words@);
    let mut n: usize = 0;
    let mut i: usize = 0;
    assert(all.take(0) =~= Seq::<Seq<char>>::empty());
    while i < words.len()
        invariant
            i <= words@.len(),
            all == str_views(words@),
            n <= i,
            n as nat == word_score(text@, all.take(i as int)),
        decreases words@.len() - i,
    {
        assert(all.take(i + 1).drop_last() =~= all.take(i as int));
        let w = chars_of(words[i]);
        assert(all.take(i + 1).last() == w@);
        if has_word(text, &w) {
            n = n + 1;
        }
        i = i + 1;
    }
    assert(all.take(words@.len() as int) =~= all);
    n
}

// ---------------------------------------------------------------------------
// Templates
// ---------------------------------------------------------------------------

/// A declarative investigation template that maps task keywords to tool sets.
#[derive(Debug)]
pub struct InvestigationTemplate {
    pub name: &'static str,
    pub description: &'static str,
    /// Keywords that select the template; empty for the fallback template.
    pub match_keywords: Vec<&'static str>,
    pub tools: Vec<&'static str>,
}

#[verifier::ext_equal]
pub struct TemplateView {
    pub name: Seq<char>,
    pub description: Seq<char>,
    pub keywords: Seq<Seq<char>>,
    pub tools: Seq<Seq<char>>,
}

impl View for InvestigationTemplate {
    type V = TemplateView;

    open spec fn view(&self) -> TemplateView {
        TemplateView {
            name: self.name@,
            description: self.description@,
            keywords: str_views(self.match_keywords@),
            tools: str_views(self.tools@),
        }
    }
}

pub open spec fn template_views(v: Seq<InvestigationTemplate>) -> Seq<TemplateView> {
    Seq::new(v.len(), |i: int| v[i]@)
}

/// The built-in templates, the broad fallback first.
pub open spec fn builtin_templates_spec() -> Seq<TemplateView> {
    seq![
        TemplateView {
            name: "broad-host-triage"@,
            description: "General-purpose host investigation covering persistence, accounts, network, and privilege vectors"@,
            keywords: seq![],
            tools: seq![
                "audit_account_changes"@,
                "inspect_persistence_locations"@,
                "enumerate_scheduled_tasks"@,
                "analyze_process_tree"@,
                "read_syslog"@,
                "scan_network"@,
                "check_privilege_escalation_vectors"@,
            ],
        },
        TemplateView {
            name: "ssh-key-investigation"@,
            description: "Investigate unauthorized SSH keys and related access"@,
            keywords: seq!["ssh"@, "authorized_keys"@, "key"@],
            tools: seq![
                "enumerate_ssh_keys"@,
                "audit_account_changes"@,
                "inspect_persistence_locations"@,
                "check_privilege_escalation_vectors"@,
            ],
        },
        TemplateView {
            name: "persistence-analysis"@,
            description: "Analyze persistence mechanisms including autoruns and scheduled tasks (MITRE T1053)"@,
            keywords: seq![
                "persistence"@,
                "autorun"@,
                "startup"@,
                "cron"@,
                "scheduled"@,
                "task"@,
                "t1053"@,
            ],
            tools: seq![
                "inspect_persistence_locations"@,
                "enumerate_scheduled_tasks"@,
                "audit_account_changes"@,
                "read_syslog"@,
            ],
        },
        TemplateView {
            name: "process-tree-analysis"@,
            description: "Analyse running process parent-child relationships to surface suspicious spawns (MITRE T1057)"@,
            keywords: seq![
                "process"@,
                "tree"@,
                "parent"@,
                "child"@,
                "spawn"@,
                "t1057"@,
                "injection"@,
            ],
            tools: seq![
                "analyze_process_tree"@,
                "correlate_process_network"@,
                "audit_account_changes"@,
            ],
        },
        TemplateView {
            name: "network-exposure-audit"@,
            description: "Audit network listeners, exposed services, and lateral movement indicators"@,
            keywords: seq![
                "network"@,
                "connection"@,
                "port"@,
                "listen"@,
                "listener"@,
                "lateral"@,
                "beacon"@,
                "socket"@,
            ],
            tools: seq!["scan_network"@, "correlate_process_network"@, "audit_account_changes"@],
        },
        TemplateView {
            name: "privilege-escalation-check"@,
            description: "Review local privilege escalation vectors and unauthorized account grants"@,
            keywords: seq!["privilege"@, "escalat"@, "admin"@, "root"@, "sudo"@, "unauthori"@],
            tools: seq![
                "check_privilege_escalation_vectors"@,
                "audit_account_changes"@,
                "inspect_persistence_locations"@,
            ],
        },
        TemplateView {
            name: "file-integrity-check"@,
            description: "Verify file hashes and detect tampering of critical binaries"@,
            keywords: seq!["hash"@, "integrity"@, "checksum"@, "binary"@, "tamper"@],
            tools: seq!["hash_binary"@, "inspect_persistence_locations"@],
        },
        TemplateView {
            name: "syslog-analysis"@,
            description: "Analyze system logs for security-relevant events including failed logins and service anomalies"@,
            keywords: seq!["log"@, "syslog"@, "journal"@, "event"@, "audit"@],
            tools: seq!["read_syslog"@, "audit_account_changes"@, "inspect_persistence_locations"@],
        },
        TemplateView {
            name: "malware-triage"@,
            description: "Triage a suspected malware infection: processes, persistence, network beacons, file hashes"@,
            keywords: seq![
                "malware"@,
                "infection"@,
                "ransomware"@,
                "trojan"@,
                "backdoor"@,
                "c2"@,
                "beacon"@,
                "implant"@,
            ],
            tools: seq![
                "analyze_process_tree"@,
                "enumerate_scheduled_tasks"@,
                "inspect_persistence_locations"@,
                "correlate_process_network"@,
                "hash_binary"@,
            ],
        },
    ]
}

fn make_template(
    name: &'static str,
    description: &'static str,
    kws: &[&'static str],
    tools: &[&'static str],
) -> (t: InvestigationTemplate)
    ensures
        t@ == (TemplateView {
            name: name@,
            description: description@,
            keywords: str_views(kws@),
            tools: str_views(tools@),
        }),
{
    let mut k: Vec<&'static str> = Vec::new();
    let mut i: usize = 0;
    while i < kws.len()
        invariant
            i <= kws@.len(),
            k@ == kws@.take(i as int),
        decreases kws@.len() - i,
    {
        k.push(kws[i]);
        assert(k@ =~= kws@.take(i + 1));
        i = i + 1;
    }
    let mut t: Vec<&'static str> = Vec::new();
    let mut j: usize = 0;
    while j < tools.len()
        invariant
            j <= tools@.len(),
            t@ == tools@.take(j as int),
        decreases tools@.len() - j,
    {
        t.push(tools[j]);
        assert(t@ =~= tools@.take(j + 1));
        j = j + 1;
    }
    assert(k@ =~= kws@);
    assert(t@ =~= tools@);
    InvestigationTemplate { name, description, match_keywords: k, tools: t }
}

/// All built-in investigation templates; the first is the broad fallback, which has
/// no keywords.
pub fn builtin_investigation_templates() -> (r: Vec<InvestigationTemplate>)
    ensures
        template_views(r@) == builtin_templates_spec(),
{
    let mut r: Vec<InvestigationTemplate> = Vec::new();
    r.push(
        make_template(
            "broad-host-triage",
            "General-purpose host investigation covering persistence, accounts, network, and privilege vectors",
            &[],
            &[
                "audit_account_changes",
                "inspect_persistence_locations",
                "enumerate_scheduled_tasks",
                "analyze_process_tree",
                "read_syslog",
                "scan_network",
                "check_privilege_escalation_vectors",
            ],
        ),
    );
    r.push(
        make_template(
            "ssh-key-investigation",
            "Investigate unauthorized SSH keys and related access",
            &["ssh", "authorized_keys", "key"],
            &[
                "enumerate_ssh_keys",
                "audit_account_changes",
                "inspect_persistence_locations",
                "check_privilege_escalation_vectors",
            ],
        ),
    );
    r.push(
        make_template(
            "persistence-analysis",
            "Analyze persistence mechanisms including autoruns and scheduled tasks (MITRE T1053)",
            &["persistence", "autorun", "startup", "cron", "scheduled", "task", "t1053"],
            &[
                "inspect_persistence_locations",
                "enumerate_scheduled_tasks",
                "audit_account_changes",
                "read_syslog",
            ],
        ),
    );
    r.push(
        make_template(
            "process-tree-analysis",
            "Analyse running process parent-child relationships to surface suspicious spawns (MITRE T1057)",
            &["process", "tree", "parent", "child", "spawn", "t1057", "injection"],
            &["analyze_process_tree", "correlate_process_network", "audit_account_changes"],
        ),
    );
    r.push(
        make_template(
            "network-exposure-audit",
            "Audit network listeners, exposed services, and lateral movement indicators",
            &["network", "connection", "port", "listen", "listener", "lateral", "beacon", "socket"],
            &["scan_network", "correlate_process_network", "audit_account_changes"],
        ),
    );
    r.push(
        make_template(
            "privilege-escalation-check",
            "Review local privilege escalation vectors and unauthorized account grants",
            &["privilege", "escalat", "admin", "root", "sudo", "unauthori"],
            &[
                "check_privilege_escalation_vectors",
                "audit_account_changes",
                "inspect_persistence_locations",
            ],
        ),
    );
    r.push(
        make_template(
            "file-integrity-check",
            "Verify file hashes and detect tampering of critical binaries",
            &["hash", "integrity", "checksum", "binary", "tamper"],
            &["hash_binary", "inspect_persistence_locations"],
        ),
    );
    r.push(
        make_template(
            "syslog-analysis",
            "Analyze system logs for security-relevant events including failed logins and service anomalies",
            &["log", "syslog", "journal", "event", "audit"],
            &["read_syslog", "audit_account_changes", "inspect_persistence_locations"],
        ),
    );
    r.push(
        make_template(
            "malware-triage",
            "Triage a suspected malware infection: processes, persistence, network beacons, file hashes",
            &["malware", "infection", "ransomware", "trojan", "backdoor", "c2", "beacon", "implant"],
            &[
                "analyze_process_tree",
                "enumerate_scheduled_tasks",
                "inspect_persistence_locations",
                "correlate_process_network",
                "hash_binary",
            ],
        ),
    );
    proof {
        let spec = builtin_templates_spec();
        let tv = template_views(r@);
        assert(tv[0] =~= spec[0]);
        assert(tv[1] =~= spec[1]);
        assert(tv[2] =~= spec[2]);
        assert(tv[3] =~= spec[3]);
        assert(tv[4] =~= spec[4]);
        assert(tv[5] =~= spec[5]);
        assert(tv[6] =~= spec[6]);
        assert(tv[7] =~= spec[7]);
        assert(tv[8] =~= spec[8]);
    }
    assert(template_views(r@) =~= builtin_templates_spec());
    r
}

/// The best-scoring keyword template among `ts`: its index and score.  A template
/// scores the number of its keywords found in the task; a later template replaces an
/// earlier one only with a strictly higher score, and the fallback is never scored.
pub open spec fn best_template(lower: Seq<char>, ts: Seq<TemplateView>) -> Option<(int, nat)>
    decreases ts.len(),
{
    if ts.len() == 0 {
        None
    } else {
        let prev = best_template(lower, ts.drop_last());
        let t = ts.last();
        let score = word_score(lower, t.keywords);
        if t.keywords.len() == 0 || score == 0 {
            prev
        } else {
            match prev {
                Some((i, b)) => if score > b {
                    Some(((ts.len() - 1) as int, score))
                } else {
                    prev
                },
                None => Some(((ts.len() - 1) as int, score)),
            }
        }
    }
}

proof fn lemma_best_in_range(lower: Seq<char>, ts: Seq<TemplateView>)
    ensures
        match best_template(lower, ts) {
            Some((i, b)) => 0 <= i < ts.len() && b > 0,
            None => true,
        },
    decreases ts.len(),
{
    if ts.len() > 0 {
        lemma_best_in_range(lower, ts.drop_last());
    }
}

/// A template's score over a lower-cased task: how many of its keywords occur there as
/// whole words; zero for a template without keywords.
pub open spec fn template_score(lower: Seq<char>, t: TemplateView) -> nat {
    if t.keywords.len() == 0 {
        0
    } else {
        word_score(lower, t.keywords)
    }
}

/// The chosen template has the highest score, and no earlier template reaches it;
/// none is chosen exactly when every template scores zero.
pub proof fn lemma_best_template_is_first_maximal(lower: Seq<char>, ts: Seq<TemplateView>)
    ensures
        best_template(lower, ts) is None <==> forall|k: int| 0 <= k < ts.len() ==> template_score(lower, #[trigger] ts[k]) == 0,
        best_template(lower, ts) matches Some((i, b)) ==> {
            &&& 0 <= i < ts.len()
            &&& b == template_score(lower, ts[i])
            &&& forall|k: int| 0 <= k < ts.len() ==> template_score(lower, #[trigger] ts[k]) <= b
            &&& forall|k: int| 0 <= k < i ==> template_score(lower, #[trigger] ts[k]) < b
        },
    decreases ts.len(),
{
    if ts.len() > 0 {
        let p = ts.drop_last();
        lemma_best_template_is_first_maximal(lower, p);
        lemma_best_in_range(lower, p);
        let n = p.len() as int;
        assert forall|k: int| 0 <= k < n implies #[trigger] ts[k] == p[k] by {}
        assert(ts[n] == ts.last());
        if best_template(lower, ts) is None {
            assert forall|k: int| 0 <= k < ts.len() implies template_score(lower, #[trigger] ts[k]) == 0 by {
                if k < n {
                    assert(ts[k] == p[k]);
                }
            }
        }
        match best_template(lower, ts) {
            Some((i, b)) => {
                assert forall|k: int| 0 <= k < ts.len() implies template_score(lower, #[trigger] ts[k]) <= b by {
                    if k < n {
                        assert(ts[k] == p[k]);
                    }
                }
                assert forall|k: int| 0 <= k < i implies template_score(lower, #[trigger] ts[k]) < b by {
                    assert(ts[k] == p[k]);
                }
                if i < n {
                    assert(ts[i] == p[i]);
                }
            },
            None => {},
        }
    }
}

/// The template chosen for a task: the best-scoring one over the task in lower case,
/// or the broad fallback when no keyword matches.
pub open spec fn resolved_template(task: Seq<char>) -> TemplateView {
    template_for_lowered(unicode_lowercase(task))
}

/// The best-scoring template for a lower-cased task, or the broad fallback.
pub open spec fn template_for_lowered(lower: Seq<char>) -> TemplateView {
    let ts = builtin_templates_spec();
    match best_template(lower, ts) {
        Some((i, _)) => ts[i],
        None => ts[0],
    }
}

/// The best-matching investigation template for a task (see [`resolved_template`]).
pub fn resolve_investigation_template(task: &str) -> (r: InvestigationTemplate)
    ensures
        r@ == resolved_template(task@),
{
    let lower_s = str_to_lowercase(task);
    let lower = chars_of(lower_s.as_str());
    resolve_template_for_lowered(&lower)
}

/// The best-matching template for a task already in lower case (see
/// [`template_for_lowered`]).
pub fn resolve_template_for_lowered(lower: &Vec<char>) -> (r: InvestigationTemplate)
    ensures
        r@ == template_for_lowered(lower@),
{
    let mut templates = builtin_investigation_templates();
    let ghost ts = builtin_templates_spec();
    let mut best: Option<(usize, usize)> = None;
    let mut i: usize = 0;
    assert(ts.take(0) =~= Seq::<TemplateView>::empty());
    while i < templates.len()
        invariant
            i <= templates@.len(),
            templates@.len() == ts.len(),
            template_views(templates@) == ts,
            ts == builtin_templates_spec(),
            match best {
                Some((bi, bs)) => best_template(lower@, ts.take(i as int)) == Some((bi as int, bs as nat))
                    && bi < i,
                None => best_template(lower@, ts.take(i as int)) is None,
            },
        decreases templates@.len() - i,
    {
        assert(ts.take(i + 1).drop_last() =~= ts.take(i as int));
        assert(ts.take(i + 1).last() == templates@[i as int]@);
        if templates[i].match_keywords.len() > 0 {
            let score = score_words(lower, &templates[i].match_keywords);
            if score > 0 {
                match best {
                    Some((_, bs)) => {
                        if score > bs {
                            best = Some((i, score));
                        }
                    },
                    None => {
                        best = Some((i, score));
                    },
                }
            }
        }
        i = i + 1;
    }
    assert(ts.take(templates@.len() as int) =~= ts);
    let idx = match best {
        Some((bi, _)) => bi,
        None => 0,
    };
    assert(template_views(templates@)[idx as int] == templates@[idx as int]@);
    templates.swap_remove(idx)
}

// ---------------------------------------------------------------------------
// Scope
// ---------------------------------------------------------------------------

/// Keywords that place a task within reach of the host-local tools.
pub open spec fn in_scope_keywords() -> Seq<Seq<char>> {
    seq![
        "host"@,
        "account"@,
        "persistence"@,
        "network"@,
        "process"@,
        "privilege"@,
        "ssh"@,
        "listener"@,
        "port"@,
        "autorun"@,
        "hash"@,
        "integrity"@,
        "log"@,
    ]
}

/// Keywords that point at capabilities outside the local toolset.
pub open spec fn out_of_scope_indicators() -> Seq<Seq<char>> {
    seq![
        "cloud"@,
        "aws"@,
        "azure"@,
        "gcp"@,
        "s3"@,
        "iam"@,
        "kubernetes"@,
        "container"@,
        "api"@,
        "email"@,
        "phishing"@,
        "siem"@,
    ]
}

/// The informational finding that reports a task as out of scope, naming the
/// domains that matched.
pub open spec fn scope_finding(hint: Seq<char>) -> FindingView {
    FindingView {
        title: "Task is outside the scope of available host-local investigation tools"@,
        severity: FindingSeverity::Info,
        confidence: 100,
        label: confidence_label_spec(100),
        factors: seq![],
        relevance: FindingRelevance::Primary,
        pointer: PointerView { turn: None, tool: None, field: "scope_check"@ },
        action: "This "@ + "task requires capabilities not present in the current toolset. Consider tools for: "@
            + hint + "."@,
    }
}

/// A task is out of scope when, in lower case, it names no in-scope keyword and at
/// least one out-of-scope indicator.
pub open spec fn task_scope_spec(task: Seq<char>) -> Option<FindingView> {
    scope_of_lowered(unicode_lowercase(task))
}

/// The scope finding of a lower-cased task: none when it names an in-scope keyword or
/// no out-of-scope indicator.
pub open spec fn scope_of_lowered(lower: Seq<char>) -> Option<FindingView> {
    if any_word(lower, in_scope_keywords()) {
        None
    } else {
        let m = matched_words(lower, out_of_scope_indicators());
        if m.len() == 0 {
            None
        } else {
            Some(scope_finding(join(m, ", "@)))
        }
    }
}

fn in_scope_list() -> (r: Vec<&'static str>)
    ensures
        str_views(r@) == in_scope_keywords(),
{
    let mut r: Vec<&'static str> = Vec::new();
    lit_views_push(&mut r, "host");
    lit_views_push(&mut r, "account");
    lit_views_push(&mut r, "persistence");
    lit_views_push(&mut r, "network");
    lit_views_push(&mut r, "process");
    lit_views_push(&mut r, "privilege");
    lit_views_push(&mut r, "ssh");
    lit_views_push(&mut r, "listener");
    lit_views_push(&mut r, "port");
    lit_views_push(&mut r, "autorun");
    lit_views_push(&mut r, "hash");
    lit_views_push(&mut r, "integrity");
    lit_views_push(&mut r, "log");
    assert(str_views(r@) =~= in_scope_keywords());
    r
}

fn out_of_scope_list() -> (r: Vec<&'static str>)
    ensures
        str_views(r@) == out_of_scope_indicators(),
{
    let mut r: Vec<&'static str> = Vec::new();
    lit_views_push(&mut r, "cloud");
    lit_views_push(&mut r, "aws");
    lit_views_push(&mut r, "azure");
    lit_views_push(&mut r, "gcp");
    lit_views_push(&mut r, "s3");
    lit_views_push(&mut r, "iam");
    lit_views_push(&mut r, "kubernetes");
    lit_views_push(&mut r, "container");
    lit_views_push(&mut r, "api");
    lit_views_push(&mut r, "email");
    lit_views_push(&mut r, "phishing");
    lit_views_push(&mut r, "siem");
    assert(str_views(r@) =~= out_of_scope_indicators());
    r
}

fn any_word_exec(text: &Vec<char>, words: &Vec<&'static str>) -> (r: bool)
    ensures
        r == any_word(text@, str_views(words@)),
{
    let ghost all = str_views(words@);
    let mut i: usize = 0;
    while i < words.len()
        invariant
            i <= words@.len(),
            all == str_views(words@),
            forall|k: int| 0 <= k < i ==> !has_word_spec(text@, #[trigger] all[k]),
        decreases words@.len() - i,
    {
        let w = chars_of(words[i]);
        assert(all[i as int] == w@);
        if has_word(text, &w) {
            return true;
        }
        i = i + 1;
    }
    false
}

fn matched_words_exec(text: &Vec<char>, words: &Vec<&'static str>) -> (r: Vec<Vec<char>>)
    ensures
        views(r@) == matched_words(text@, str_views(words@)),
{
    let ghost all = str_views(words@);
    let mut out: Vec<Vec<char>> = Vec::new();
    let mut i: usize = 0;
    assert(all.take(0) =~= Seq::<Seq<char>>::empty());
    assert(views(out@) =~= Seq::<Seq<char>>::empty());
    while i < words.len()
        invariant
            i <= words@.len(),
            all == str_views(words@),
            views(out@) == matched_words(text@, all.take(i as int)),
        decreases words@.len() - i,
    {
        assert(all.take(i + 1).drop_last() =~= all.take(i as int));
        let w = chars_of(words[i]);
        assert(all.take(i + 1).last() == w@);
        if has_word(text, &w) {
            let ghost before = views(out@);
            out.push(w);
            assert(views(out@) =~= before.push(all.take(i + 1).last()));
        }
        i = i + 1;
    }
    assert(all.take(words@.len() as int) =~= all);
    out
}

/// `Some(finding)` when a task lies outside the reach of the host-local tools, `None`
/// when it is in scope (see [`task_scope_spec`]).
pub fn check_task_scope(task: &str) -> (r: Option<Finding>)
    ensures
        match r {
            Some(f) => task_scope_spec(task@) == Some(f@),
            None => task_scope_spec(task@) is None,
        },
{
    let lower_s = str_to_lowercase(task);
    let lower = chars_of(lower_s.as_str());
    check_lowered_task_scope(&lower)
}

proof fn lemma_matched_nonempty(text: Seq<char>, words: Seq<Seq<char>>)
    ensures
        matched_words(text, words).len() > 0 <==> any_word(text, words),
    decreases words.len(),
{
    if words.len() > 0 {
        let p = words.drop_last();
        lemma_matched_nonempty(text, p);
        if any_word(text, p) {
            let i = choose|i: int| 0 <= i < p.len() && has_word_spec(text, #[trigger] p[i]);
            assert(words[i] == p[i]);
        }
        if any_word(text, words) {
            let i = choose|i: int| 0 <= i < words.len() && has_word_spec(text, #[trigger] words[i]);
            if i < p.len() {
                assert(words[i] == p[i]);
            } else {
                assert(words[i] == words.last());
            }
        }
        if has_word_spec(text, words.last()) {
            assert(words[words.len() - 1] == words.last());
        }
    }
}

/// A task is out of scope exactly when, in lower case, it names none of the in-scope
/// keywords as a word and at least one out-of-scope indicator.
pub proof fn lemma_scope_rule(task: Seq<char>)
    ensures
        task_scope_spec(task) is Some <==> (!any_word(unicode_lowercase(task), in_scope_keywords()) && any_word(
            unicode_lowercase(task),
            out_of_scope_indicators(),
        )),
{
    lemma_matched_nonempty(unicode_lowercase(task), out_of_scope_indicators());
}

proof fn lemma_matched_contains(text: Seq<char>, words: Seq<Seq<char>>, k: int)
    requires
        0 <= k < words.len(),
        has_word_spec(text, words[k]),
    ensures
        matched_words(text, words).contains(words[k]),
    decreases words.len(),
{
    let p = words.drop_last();
    if k < p.len() {
        assert(p[k] == words[k]);
        lemma_matched_contains(text, p, k);
        let rest = matched_words(text, p);
        let j = choose|j: int| 0 <= j < rest.len() && rest[j] == words[k];
        if has_word_spec(text, words.last()) {
            assert(rest.push(words.last())[j] == words[k]);
        }
    } else {
        assert(words[k] == words.last());
        let rest = matched_words(text, p);
        assert(rest.push(words.last())[rest.len() as int] == words[k]);
    }
}

/// Which tasks are out of scope, by the words themselves: a task naming (in lower case,
/// as a whole word) any of host, account, persistence, network, process, privilege,
/// ssh, listener, port, autorun, hash, integrity or log is in scope; otherwise naming
/// any of cloud, aws, azure, gcp, s3, iam, kubernetes, container, api, email, phishing
/// or siem makes it out of scope, with an informational finding whose recommended
/// action lists every such indicator it names, that one among them.
pub proof fn lemma_scope_by_words(task: Seq<char>, k: int)
    ensures
        ({
            let lower = unicode_lowercase(task);
            let ins = seq![
                "host"@, "account"@, "persistence"@, "network"@, "process"@, "privilege"@, "ssh"@,
                "listener"@, "port"@, "autorun"@, "hash"@, "integrity"@, "log"@,
            ];
            let outs = seq![
                "cloud"@, "aws"@, "azure"@, "gcp"@, "s3"@, "iam"@, "kubernetes"@, "container"@, "api"@,
                "email"@, "phishing"@, "siem"@,
            ];
            &&& (exists|j: int| 0 <= j < ins.len() && has_word_spec(lower, #[trigger] ins[j])) ==> task_scope_spec(task) is None
            &&& (forall|j: int| 0 <= j < ins.len() ==> !has_word_spec(lower, #[trigger] ins[j])) && 0 <= k < outs.len()
                && has_word_spec(lower, outs[k]) ==> {
                &&& task_scope_spec(task) matches Some(f)
                &&& f.severity == FindingSeverity::Info
                &&& f.title == "Task is outside the scope of available host-local investigation tools"@
                &&& matched_words(lower, outs).contains(outs[k])
                &&& f.action == "This "@ + "task requires capabilities not present in the current toolset. Consider tools for: "@
                    + join(matched_words(lower, outs), ", "@) + "."@
            }
        }),
{
    let lower = unicode_lowercase(task);
    let ins = seq![
        "host"@, "account"@, "persistence"@, "network"@, "process"@, "privilege"@, "ssh"@,
        "listener"@, "port"@, "autorun"@, "hash"@, "integrity"@, "log"@,
    ];
    let outs = seq![
        "cloud"@, "aws"@, "azure"@, "gcp"@, "s3"@, "iam"@, "kubernetes"@, "container"@, "api"@,
        "email"@, "phishing"@, "siem"@,
    ];
    assert(in_scope_keywords() =~= ins);
    assert(out_of_scope_indicators() =~= outs);
    lemma_scope_rule(task);
    if 0 <= k < outs.len() && has_word_spec(lower, outs[k]) {
        lemma_matched_contains(lower, outs, k);
        assert(any_word(lower, outs));
    }
    if exists|j: int| 0 <= j < ins.len() && has_word_spec(lower, #[trigger] ins[j]) {
        assert(any_word(lower, ins));
    }
}

/// The scope check of a task already in lower case (see [`scope_of_lowered`]).
pub fn check_lowered_task_scope(lower: &Vec<char>) -> (r: Option<Finding>)
    ensures
        match r {
            Some(f) => scope_of_lowered(lower@) == Some(f@),
            None => scope_of_lowered(lower@) is None,
        },
{
    let ins = in_scope_list();
    if any_word_exec(lower, &ins) {
        return None;
    }
    let outs = out_of_scope_list();
    let matched = matched_words_exec(lower, &outs);
    if matched.len() == 0 {
        return None;
    }
    let sep = chars_of(", ");
    let hint = join_chars(&matched, &sep);
    let mut action = chars_of("This ");
    push_str(&mut action, "task requires capabilities not present in the current toolset. Consider tools for: ");
    push_all(&mut action, &hint);
    push_str(&mut action, ".");
    let f = Finding::new(
        string_of(&chars_of("Task is outside the scope of available host-local investigation tools")),
        FindingSeverity::Info,
        100,
        EvidencePointer { turn: None, tool: None, field: string_of(&chars_of("scope_check")) },
        string_of(&action),
    );
    Some(f)
}

} // verus!
