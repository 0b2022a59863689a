//! Listing, filtering and describing the built-in tools, as the command line does.
use vstd::prelude::*;

use crate::catalog::{
    catalog_of, catalog_spec, default_tool_names, default_tool_specs, spec_json, spec_names,
    ToolSpec,
};
use crate::json::{is_str_member, str_member, value_member, JsonValue};
use crate::json_text::{compact_json, json_compact_text, json_pretty_text, pretty_json};
use crate::text::{
    ascii_lower, chars_eq, chars_of, contains, contains_seq, eq_ignore_ascii_case, is_alnum_spec,
    is_ascii_alphanumeric, join, join_chars, lines, lines_of, lower_char, lower_char_spec,
    push_all, push_str, slice_chars, split_words, string_of, trim, trim_chars, trim_end,
    trim_str, views, words,
};

verus! {

fn lit(s: &str) -> (r: String)
    ensures
        r@ == s@,
{
    string_of(&chars_of(s))
}

/// How introspection output is written.
#[derive(Clone, Copy, Debug, PartialEq, Eq, Structural)]
pub enum IntrospectionFormat {
    Text,
    Json,
}

// ---------------------------------------------------------------------------
// Search text
// ---------------------------------------------------------------------------

pub open spec fn norm_acc(s: Seq<char>, out: Seq<char>, pending: bool) -> Seq<char>
    decreases s.len(),
{
    if s.len() == 0 {
        out
    } else if is_alnum_spec(s[0]) {
        let spaced = if pending && out.len() > 0 {
            out.push(' ')
        } else {
            out
        };
        norm_acc(s.drop_first(), spaced.push(lower_char_spec(s[0])), false)
    } else {
        norm_acc(s.drop_first(), out, true)
    }
}

/// Search text: the ASCII alphanumeric runs of a value in lower case, one space
/// between runs.
pub open spec fn search_text(s: Seq<char>) -> Seq<char> {
    norm_acc(s, seq![], false)
}

/// Normalizes a value for tool search (see [`search_text`]).
pub fn normalize_search_text(value: &str) -> (r: String)
    ensures
        r@ == search_text(value@),
{
    let v = chars_of(value);
    let mut out: Vec<char> = Vec::new();
    let mut pending = false;
    let mut i: usize = 0;
    assert(v@.skip(0) =~= v@);
    while i < v.len()
        invariant
            i <= v@.len(),
            v@ == value@,
            search_text(value@) == norm_acc(v@.skip(i as int), out@, pending),
        decreases v@.len() - i,
    {
        assert(v@.skip(i as int).drop_first() =~= v@.skip(i + 1));
        assert(v@.skip(i as int)[0] == v@[i as int]);
        let c = v[i];
        if is_ascii_alphanumeric(c) {
            if pending && out.len() > 0 {
                out.push(' ');
            }
            out.push(lower_char(c));
            pending = false;
        } else {
            pending = true;
        }
        i = i + 1;
    }
    assert(v@.skip(i as int) =~= Seq::<char>::empty());
    string_of(&out)
}

/// The search terms of a filter: the words of its search text.
pub open spec fn search_terms(s: Seq<char>) -> Seq<Seq<char>> {
    words(search_text(s))
}

/// A tool matches when every term occurs in its name and description search texts
/// joined by a space.
pub open spec fn matches_terms(name: Seq<char>, description: Seq<char>, terms: Seq<Seq<char>>) -> bool {
    forall|i: int| 0 <= i < terms.len() ==> contains_seq(
        search_text(name) + " "@ + search_text(description),
        #[trigger] terms[i],
    )
}

fn matches_terms_exec(tool: &ToolSpec, terms: &Vec<Vec<char>>) -> (r: bool)
    ensures
        r == matches_terms(tool.name@, tool.description@, views(terms@)),
{
    let n = normalize_search_text(tool.name.as_str());
    let d = normalize_search_text(tool.description.as_str());
    let mut hay = chars_of(n.as_str());
    push_str(&mut hay, " ");
    push_str(&mut hay, d.as_str());
    let mut i: usize = 0;
    while i < terms.len()
        invariant
            i <= terms@.len(),
            hay@ == search_text(tool.name@) + " "@ + search_text(tool.description@),
            forall|k: int| 0 <= k < i ==> contains_seq(hay@, #[trigger] views(terms@)[k]),
        decreases terms@.len() - i,
    {
        assert(views(terms@)[i as int] == terms@[i as int]@);
        if !contains(&hay, &terms[i]) {
            return false;
        }
        i = i + 1;
    }
    true
}

// ---------------------------------------------------------------------------
// Listing
// ---------------------------------------------------------------------------

/// The catalog entries that match the terms, in order.
pub open spec fn select_spec(c: Seq<(Seq<char>, Seq<char>)>, terms: Seq<Seq<char>>) -> Seq<(Seq<char>, Seq<char>)>
    decreases c.len(),
{
    if c.len() == 0 {
        seq![]
    } else {
        let rest = select_spec(c.drop_last(), terms);
        if matches_terms(c.last().0, c.last().1, terms) {
            rest.push(c.last())
        } else {
            rest
        }
    }
}

/// The tools a listing shows: all of them without a filter; with one, the tools that
/// match its terms, an error when the trimmed filter is empty, has no alphanumeric
/// term, or matches nothing.
pub open spec fn select_tools_spec(filter: Option<Seq<char>>) -> Result<Seq<(Seq<char>, Seq<char>)>, Seq<char>> {
    match filter {
        None => Ok(catalog_spec()),
        Some(raw) => {
            let normalized = trim(raw);
            let terms = search_terms(normalized);
            if normalized.len() == 0 {
                Err("--tool-filter cannot be empty"@)
            } else if terms.len() == 0 {
                Err("--tool-filter must include at least one alphanumeric term"@)
            } else if select_spec(catalog_spec(), terms).len() == 0 {
                Err("No tools matched filter '"@ + normalized
                    + "'. Use --list-tools without --tool-filter to show all tools."@)
            } else {
                Ok(select_spec(catalog_spec(), terms))
            }
        },
    }
}

fn catalog_exec() -> (r: Vec<ToolSpec>)
    ensures
        catalog_of(r@) == catalog_spec(),
{
    default_tool_specs()
}

/// The tools a listing shows (see [`select_tools_spec`]).
pub fn select_tools(filter: Option<&str>) -> (r: Result<Vec<ToolSpec>, String>)
    ensures
        match select_tools_spec(match filter {
            Some(f) => Some(f@),
            None => None,
        }) {
            Ok(c) => r matches Ok(v) && catalog_of(v@) == c,
            Err(m) => r matches Err(e) && e@ == m,
        },
{
    let tools = catalog_exec();
    let raw = match filter {
        None => return Ok(tools),
        Some(raw) => raw,
    };
    let normalized = trim_str(raw);
    if normalized.len() == 0 {
        return Err(lit("--tool-filter cannot be empty"));
    }
    let ns = string_of(&normalized);
    let text = normalize_search_text(ns.as_str());
    let terms = split_words(&chars_of(text.as_str()));
    if terms.len() == 0 {
        return Err(lit("--tool-filter must include at least one alphanumeric term"));
    }
    let ghost c = catalog_of(tools@);
    let ghost ts = views(terms@);
    let mut kept: Vec<ToolSpec> = Vec::new();
    let mut rest = tools;
    let mut i: usize = 0;
    let n = rest.len();
    assert(c.take(0) =~= Seq::<(Seq<char>, Seq<char>)>::empty());
    assert(catalog_of(kept@) =~= Seq::<(Seq<char>, Seq<char>)>::empty());
    assert(catalog_of(rest@) =~= c.skip(0));
    while rest.len() > 0
        invariant
            i + rest@.len() == n,
            n == c.len(),
            ts == views(terms@),
            catalog_of(rest@) == c.skip(i as int),
            catalog_of(kept@) == select_spec(c.take(i as int), ts),
        decreases rest@.len(),
    {
        let ghost old_rest = rest@;
        let t = rest.remove(0);
        assert(c.take(i + 1).drop_last() =~= c.take(i as int));
        assert(catalog_of(old_rest)[0] == c.skip(i as int)[0]);
        assert(c.take(i + 1).last() == (t.name@, t.description@));
        assert(catalog_of(rest@) =~= c.skip(i + 1)) by {
            assert forall|k: int| 0 <= k < rest@.len() implies catalog_of(rest@)[k] == c.skip(i + 1)[k] by {
                assert(rest@[k] == old_rest[k + 1]);
                assert(catalog_of(old_rest)[k + 1] == c.skip(i as int)[k + 1]);
            }
        }
        if matches_terms_exec(&t, &terms) {
            let ghost before = kept@;
            kept.push(t);
            assert(catalog_of(kept@) =~= catalog_of(before).push(c.take(i + 1).last()));
        }
        i = i + 1;
    }
    assert(c.take(n as int) =~= c);
    if kept.len() == 0 {
        let mut msg = chars_of("No tools matched filter '");
        push_all(&mut msg, &normalized);
        push_str(&mut msg, "'. Use --list-tools without --tool-filter to show all tools.");
        return Err(string_of(&msg));
    }
    Ok(kept)
}

pub open spec fn tool_lines(v: Seq<ToolSpec>) -> Seq<char>
    decreases v.len(),
{
    if v.len() == 0 {
        seq![]
    } else {
        tool_lines(v.drop_last()) + "- "@ + v.last().name@ + ": "@ + v.last().description@
            + "\n"@ + "  args_schema: "@ + json_compact_text(v.last().args_schema) + "\n"@
    }
}

/// The text listing: a title line, then each tool's name and description and its
/// argument schema as compact JSON; trailing white space removed.
pub open spec fn tool_list_text(v: Seq<ToolSpec>) -> Seq<char> {
    trim_end("WraithRun Tools\n"@ + tool_lines(v))
}

fn trim_end_chars(v: &Vec<char>) -> (r: Vec<char>)
    ensures
        r@ == trim_end(v@),
{
    let mut j = v.len();
    assert(v@.subrange(0, j as int) =~= v@);
    while j > 0 && crate::text::is_whitespace(v[j - 1])
        invariant
            j <= v@.len(),
            trim_end(v@) == trim_end(v@.subrange(0, j as int)),
        decreases j,
    {
        assert(v@.subrange(0, j as int).drop_last() =~= v@.subrange(0, j - 1));
        j = j - 1;
    }
    slice_chars(v, 0, j)
}

/// Renders the text listing (see [`tool_list_text`]).
pub fn render_tool_list(tools: &Vec<ToolSpec>) -> (r: String)
    ensures
        r@ == tool_list_text(tools@),
{
    let mut out = chars_of("WraithRun Tools\n");
    let ghost head = out@;
    let mut i: usize = 0;
    assert(tools@.take(0) =~= Seq::<ToolSpec>::empty());
    while i < tools.len()
        invariant
            i <= tools@.len(),
            out@ == head + tool_lines(tools@.take(i as int)),
            head == "WraithRun Tools\n"@,
        decreases tools@.len() - i,
    {
        assert(tools@.take(i + 1).drop_last() =~= tools@.take(i as int));
        let t = &tools[i];
        push_str(&mut out, "- ");
        push_str(&mut out, t.name.as_str());
        push_str(&mut out, ": ");
        push_str(&mut out, t.description.as_str());
        push_str(&mut out, "\n");
        push_str(&mut out, "  args_schema: ");
        let j = compact_json(&t.args_schema);
        push_str(&mut out, j.as_str());
        push_str(&mut out, "\n");
        assert(out@ =~= head + tool_lines(tools@.take(i + 1)));
        i = i + 1;
    }
    assert(tools@.take(tools@.len() as int) =~= tools@);
    string_of(&trim_end_chars(&out))
}

/// The JSON listing document: the tools and the contract version.
pub open spec fn list_doc(d: JsonValue, v: Seq<ToolSpec>) -> bool {
    d matches JsonValue::Object(m) && m@.len() == 2 && m@[0].0@ == "tools"@ && (m@[0].1 matches JsonValue::Array(items)
        && items@.len() == v.len() && forall|i: int| 0 <= i < v.len() ==> spec_json(#[trigger] items@[i], v[i]))
        && is_str_member(m@[1], "contract_version"@, "1.0.0"@)
}

/// The JSON listing: the document of the tools with the contract version, pretty-printed.
pub fn render_tool_list_json(tools: Vec<ToolSpec>) -> (r: String)
    ensures
        exists|d: JsonValue| list_doc(d, tools@) && r@ == json_pretty_text(d),
{
    let ghost orig = tools@;
    let mut rest = tools;
    let mut items: Vec<JsonValue> = Vec::new();
    let n = rest.len();
    let mut i: usize = 0;
    while rest.len() > 0
        invariant
            i + rest@.len() == n,
            n == orig.len(),
            rest@ == orig.skip(i as int),
            items@.len() == i,
            forall|k: int| 0 <= k < i ==> spec_json(#[trigger] items@[k], orig[k]),
        decreases rest@.len(),
    {
        let ghost old_rest = rest@;
        let t = rest.remove(0);
        assert(t == orig[i as int]);
        assert(rest@ =~= orig.skip(i + 1));
        items.push(t.into_json());
        i = i + 1;
    }
    let mut m: Vec<(String, JsonValue)> = Vec::new();
    m.push(value_member("tools", JsonValue::Array(items)));
    m.push(str_member("contract_version", "1.0.0"));
    let d = JsonValue::Object(m);
    let r = pretty_json(&d);
    assert(list_doc(d, orig));
    r
}

/// The tools listing: the selected tools as text or as a JSON document, or the
/// selection's error (see [`select_tools_spec`]).
pub fn run_list_tools(format: IntrospectionFormat, filter: Option<&str>) -> (r: Result<String, String>)
    ensures
        match select_tools_spec(match filter {
            Some(f) => Some(f@),
            None => None,
        }) {
            Err(m) => r matches Err(e) && e@ == m,
            Ok(c) => r matches Ok(text) && exists|v: Seq<ToolSpec>| catalog_of(v) == c && match format {
                IntrospectionFormat::Text => text@ == tool_list_text(v),
                IntrospectionFormat::Json => exists|d: JsonValue| list_doc(d, v) && text@
                    == json_pretty_text(d),
            },
        },
{
    let tools = match select_tools(filter) {
        Ok(t) => t,
        Err(e) => return Err(e),
    };
    let ghost v = tools@;
    match format {
        IntrospectionFormat::Text => {
            let text = render_tool_list(&tools);
            assert(catalog_of(v) == catalog_of(tools@));
            Ok(text)
        },
        IntrospectionFormat::Json => Ok(render_tool_list_json(tools)),
    }
}

// ---------------------------------------------------------------------------
// Describing one tool
// ---------------------------------------------------------------------------

/// A tool query in normal form: trimmed, lower case, `-` and spaces read as `_`.
pub open spec fn tool_query_form(s: Seq<char>) -> Seq<char> {
    let t = ascii_lower(trim(s));
    Seq::new(t.len(), |i: int| if t[i] == '-' || t[i] == ' ' { '_' } else { t[i] })
}

/// Normalizes a tool query (see [`tool_query_form`]).
pub fn normalize_tool_query(value: &str) -> (r: Vec<char>)
    ensures
        r@ == tool_query_form(value@),
{
    let t = crate::text::to_ascii_lower(&trim_str(value));
    let mut out: Vec<char> = Vec::new();
    let mut i: usize = 0;
    while i < t.len()
        invariant
            i <= t@.len(),
            t@ == ascii_lower(trim(value@)),
            out@.len() == i,
            forall|k: int| 0 <= k < i ==> #[trigger] out@[k] == if t@[k] == '-' || t@[k] == ' ' {
                '_'
            } else {
                t@[k]
            },
        decreases t@.len() - i,
    {
        let c = t[i];
        out.push(if c == '-' || c == ' ' { '_' } else { c });
        i = i + 1;
    }
    assert(out@ =~= tool_query_form(value@));
    out
}

/// The positions of names equal to (`exact`) or containing the normalized query.
pub open spec fn query_matches(names: Seq<Seq<char>>, q: Seq<char>, exact: bool) -> Seq<int>
    decreases names.len(),
{
    if names.len() == 0 {
        seq![]
    } else {
        let rest = query_matches(names.drop_last(), q, exact);
        let f = tool_query_form(names.last());
        if (exact && f == q) || (!exact && contains_seq(f, q)) {
            rest.push(names.len() - 1)
        } else {
            rest
        }
    }
}

pub open spec fn first_ci(names: Seq<Seq<char>>, q: Seq<char>) -> Option<int>
    decreases names.len(),
{
    if names.len() == 0 {
        None
    } else {
        match first_ci(names.drop_last(), q) {
            Some(i) => Some(i),
            None => if ascii_lower(names.last()) == ascii_lower(q) {
                Some(names.len() - 1)
            } else {
                None
            },
        }
    }
}

pub open spec fn names_at(names: Seq<Seq<char>>, idx: Seq<int>) -> Seq<Seq<char>> {
    Seq::new(idx.len(), |i: int| names[idx[i]])
}

/// Which tool a query names: a case-insensitive exact name first; then a unique tool
/// whose normalized name equals the normalized query; then a unique one whose
/// normalized name contains it.  Several matches are ambiguous; none is unknown.
pub open spec fn resolve_query_spec(names: Seq<Seq<char>>, query: Seq<char>) -> Result<int, Seq<char>> {
    let q = tool_query_form(query);
    let eq = query_matches(names, q, true);
    let sub = query_matches(names, q, false);
    match first_ci(names, query) {
        Some(i) => Ok(i),
        None => if eq.len() == 1 {
            Ok(eq[0])
        } else if eq.len() >= 2 {
            Err("Ambiguous tool query '"@ + q + "'. Matches: "@ + join(names_at(names, eq), ", "@)
                + ". Use the full tool name."@)
        } else if sub.len() == 1 {
            Ok(sub[0])
        } else if sub.len() >= 2 {
            Err("Ambiguous tool query '"@ + q + "'. Matches: "@ + join(names_at(names, sub), ", "@)
                + ". Use the full tool name."@)
        } else {
            Err("Unknown tool '"@ + query + "'. Available tools: "@ + join(names, ", "@))
        },
    }
}

fn matching_positions(tools: &Vec<ToolSpec>, q: &Vec<char>, exact: bool) -> (r: Vec<usize>)
    ensures
        r@.len() == query_matches(spec_names(tools@), q@, exact).len(),
        forall|k: int| 0 <= k < r@.len() ==> #[trigger] r@[k] as int == query_matches(
            spec_names(tools@),
            q@,
            exact,
        )[k],
        forall|k: int| 0 <= k < r@.len() ==> #[trigger] r@[k] < tools@.len(),
{
    let ghost names = spec_names(tools@);
    let mut out: Vec<usize> = Vec::new();
    let mut i: usize = 0;
    assert(names.take(0) =~= Seq::<Seq<char>>::empty());
    while i < tools.len()
        invariant
            i <= tools@.len(),
            names == spec_names(tools@),
            out@.len() == query_matches(names.take(i as int), q@, exact).len(),
            forall|k: int| 0 <= k < out@.len() ==> #[trigger] out@[k] as int == query_matches(
                names.take(i as int),
                q@,
                exact,
            )[k],
            forall|k: int| 0 <= k < out@.len() ==> #[trigger] out@[k] < i,
        decreases tools@.len() - i,
    {
        assert(names.take(i + 1).drop_last() =~= names.take(i as int));
        assert(names.take(i + 1).last() == tools@[i as int].name@);
        let f = normalize_tool_query(tools[i].name.as_str());
        let hit = if exact { chars_eq(&f, q) } else { contains(&f, q) };
        if hit {
            out.push(i);
        }
        i = i + 1;
    }
    assert(names.take(tools@.len() as int) =~= names);
    out
}

fn ambiguous_message(tools: &Vec<ToolSpec>, q: &Vec<char>, pos: &Vec<usize>) -> (r: String)
    requires
        forall|k: int| 0 <= k < pos@.len() ==> #[trigger] pos@[k] < tools@.len(),
    ensures
        r@ == "Ambiguous tool query '"@ + q@ + "'. Matches: "@ + join(
            names_at(spec_names(tools@), Seq::new(pos@.len(), |i: int| pos@[i] as int)),
            ", "@,
        ) + ". Use the full tool name."@,
{
    let mut names: Vec<Vec<char>> = Vec::new();
    let mut i: usize = 0;
    while i < pos.len()
        invariant
            i <= pos@.len(),
            forall|k: int| 0 <= k < pos@.len() ==> #[trigger] pos@[k] < tools@.len(),
            names@.len() == i,
            forall|k: int| 0 <= k < i ==> (#[trigger] names@[k])@ == tools@[pos@[k] as int].name@,
        decreases pos@.len() - i,
    {
        names.push(chars_of(tools[pos[i]].name.as_str()));
        i = i + 1;
    }
    let sep = chars_of(", ");
    let j = join_chars(&names, &sep);
    assert(views(names@) =~= names_at(spec_names(tools@), Seq::new(pos@.len(), |i: int| pos@[i] as int)));
    let mut msg = chars_of("Ambiguous tool query '");
    push_all(&mut msg, q);
    push_str(&mut msg, "'. Matches: ");
    push_all(&mut msg, &j);
    push_str(&mut msg, ". Use the full tool name.");
    string_of(&msg)
}

/// Resolves a tool query to a position in `tools` (see [`resolve_query_spec`]).
pub fn resolve_tool_query(tools: &Vec<ToolSpec>, query: &str) -> (r: Result<usize, String>)
    ensures
        match resolve_query_spec(spec_names(tools@), query@) {
            Ok(i) => r matches Ok(k) && k as int == i && k < tools@.len(),
            Err(m) => r matches Err(e) && e@ == m,
        },
{
    let ghost names = spec_names(tools@);
    let qc = chars_of(query);
    let mut i: usize = 0;
    assert(names.take(0) =~= Seq::<Seq<char>>::empty());
    while i < tools.len()
        invariant
            i <= tools@.len(),
            names == spec_names(tools@),
            qc@ == query@,
            first_ci(names.take(i as int), query@) is None,
        decreases tools@.len() - i,
    {
        assert(names.take(i + 1).drop_last() =~= names.take(i as int));
        assert(names.take(i + 1).last() == tools@[i as int].name@);
        let n = chars_of(tools[i].name.as_str());
        if eq_ignore_ascii_case(&n, &qc) {
            proof {
                lemma_first_ci_prefix(names, query@, i as int);
            }
            return Ok(i);
        }
        i = i + 1;
    }
    assert(names.take(tools@.len() as int) =~= names);
    let q = normalize_tool_query(query);
    let eq = matching_positions(tools, &q, true);
    if eq.len() == 1 {
        return Ok(eq[0]);
    }
    if eq.len() >= 2 {
        let r = ambiguous_message(tools, &q, &eq);
        assert(Seq::new(eq@.len(), |i: int| eq@[i] as int) =~= query_matches(names, q@, true));
        return Err(r);
    }
    let sub = matching_positions(tools, &q, false);
    if sub.len() == 1 {
        return Ok(sub[0]);
    }
    if sub.len() >= 2 {
        let r = ambiguous_message(tools, &q, &sub);
        assert(Seq::new(sub@.len(), |i: int| sub@[i] as int) =~= query_matches(names, q@, false));
        return Err(r);
    }
    let mut all: Vec<Vec<char>> = Vec::new();
    let mut k: usize = 0;
    while k < tools.len()
        invariant
            k <= tools@.len(),
            names == spec_names(tools@),
            all@.len() == k,
            forall|m: int| 0 <= m < k ==> (#[trigger] all@[m])@ == names[m],
        decreases tools@.len() - k,
    {
        all.push(chars_of(tools[k].name.as_str()));
        k = k + 1;
    }
    assert(views(all@) =~= names);
    let sep = chars_of(", ");
    let j = join_chars(&all, &sep);
    let mut msg = chars_of("Unknown tool '");
    push_str(&mut msg, query);
    push_str(&mut msg, "'. Available tools: ");
    push_all(&mut msg, &j);
    Err(string_of(&msg))
}

proof fn lemma_first_ci_prefix(names: Seq<Seq<char>>, q: Seq<char>, i: int)
    requires
        0 <= i < names.len(),
        first_ci(names.take(i), q) is None,
        ascii_lower(names[i]) == ascii_lower(q),
    ensures
        first_ci(names, q) == Some(i),
    decreases names.len() - i,
{
    assert(names.take(i + 1).drop_last() =~= names.take(i));
    assert(first_ci(names.take(i + 1), q) == Some(i));
    lemma_first_ci_extend(names, q, i + 1, i);
}

proof fn lemma_first_ci_extend(names: Seq<Seq<char>>, q: Seq<char>, n: int, i: int)
    requires
        0 <= n <= names.len(),
        first_ci(names.take(n), q) == Some(i),
    ensures
        first_ci(names, q) == Some(i),
    decreases names.len() - n,
{
    if n == names.len() {
        assert(names.take(n) =~= names);
    } else {
        assert(names.take(n + 1).drop_last() =~= names.take(n));
        lemma_first_ci_extend(names, q, n + 1, i);
    }
}

pub open spec fn detail_lines(ls: Seq<Seq<char>>) -> Seq<char>
    decreases ls.len(),
{
    if ls.len() == 0 {
        seq![]
    } else {
        detail_lines(ls.drop_last()) + "  "@ + ls.last() + "\n"@
    }
}

/// The text description of a tool: name, description, and the argument schema as
/// indented JSON, two spaces before each line; trailing white space removed.
pub open spec fn tool_detail_text(t: ToolSpec) -> Seq<char> {
    trim_end(
        "WraithRun Tool\nname: "@ + t.name@ + "\ndescription: "@ + t.description@ + "\nargs_schema:\n"@
            + detail_lines(lines(json_pretty_text(t.args_schema))),
    )
}

/// Renders a tool's text description (see [`tool_detail_text`]).
pub fn render_tool_detail(tool: &ToolSpec) -> (r: String)
    ensures
        r@ == tool_detail_text(*tool),
{
    let mut out = chars_of("WraithRun Tool\nname: ");
    push_str(&mut out, tool.name.as_str());
    push_str(&mut out, "\ndescription: ");
    push_str(&mut out, tool.description.as_str());
    push_str(&mut out, "\nargs_schema:\n");
    let p = pretty_json(&tool.args_schema);
    let ls = lines_of(p.as_str());
    let ghost head = out@;
    let ghost lv = views(ls@);
    let mut i: usize = 0;
    assert(lv.take(0) =~= Seq::<Seq<char>>::empty());
    while i < ls.len()
        invariant
            i <= ls@.len(),
            lv == views(ls@),
            out@ == head + detail_lines(lv.take(i as int)),
        decreases ls@.len() - i,
    {
        assert(lv.take(i + 1).drop_last() =~= lv.take(i as int));
        assert(lv.take(i + 1).last() == ls@[i as int]@);
        push_str(&mut out, "  ");
        push_all(&mut out, &ls[i]);
        push_str(&mut out, "\n");
        assert(out@ =~= head + detail_lines(lv.take(i + 1)));
        i = i + 1;
    }
    assert(lv.take(ls@.len() as int) =~= lv);
    string_of(&trim_end_chars(&out))
}

/// The JSON description document: the tool and the contract version.
pub open spec fn detail_doc(d: JsonValue, t: ToolSpec) -> bool {
    d matches JsonValue::Object(m) && m@.len() == 2 && m@[0].0@ == "tool"@ && spec_json(m@[0].1, t)
        && is_str_member(m@[1], "contract_version"@, "1.0.0"@)
}

/// The JSON description of a tool: its document with the contract version,
/// pretty-printed.
pub fn render_tool_detail_json(tool: ToolSpec) -> (r: String)
    ensures
        exists|d: JsonValue| detail_doc(d, tool) && r@ == json_pretty_text(d),
{
    let ghost t = tool;
    let mut m: Vec<(String, JsonValue)> = Vec::new();
    m.push(value_member("tool", tool.into_json()));
    m.push(str_member("contract_version", "1.0.0"));
    let d = JsonValue::Object(m);
    let r = pretty_json(&d);
    assert(detail_doc(d, t));
    r
}

/// `text` describes tool `t`, the `i`-th built-in tool, in the given format.
pub open spec fn described(t: ToolSpec, text: Seq<char>, i: int, format: IntrospectionFormat) -> bool {
    t.name@ == default_tool_names()[i] && match format {
        IntrospectionFormat::Text => text == tool_detail_text(t),
        IntrospectionFormat::Json => exists|d: JsonValue| detail_doc(d, t) && text == json_pretty_text(d),
    }
}

/// What describing a tool gives: an error for a blank name, the query's error, or a
/// description of the tool the trimmed query resolves to.
pub open spec fn describe_outcome(r: Result<String, String>, tool_name: Seq<char>, format: IntrospectionFormat) -> bool {
    if trim(tool_name).len() == 0 {
        r matches Err(e) && e@ == "--describe-tool cannot be empty"@
    } else {
        match resolve_query_spec(default_tool_names(), trim(tool_name)) {
            Err(m) => r matches Err(e) && e@ == m,
            Ok(i) => r matches Ok(text) && exists|t: ToolSpec| #[trigger] described(t, text@, i, format),
        }
    }
}

/// Describes one built-in tool: an error for a blank name or an unresolvable query,
/// otherwise the tool's description as text or as a JSON document.
pub fn run_describe_tool(tool_name: &str, format: IntrospectionFormat) -> (r: Result<String, String>)
    ensures
        describe_outcome(r, tool_name@, format),
{
    let selected = trim_str(tool_name);
    if selected.len() == 0 {
        return Err(lit("--describe-tool cannot be empty"));
    }
    let sel = string_of(&selected);
    let mut tools = default_tool_specs();
    let idx = match resolve_tool_query(&tools, sel.as_str()) {
        Ok(i) => i,
        Err(e) => return Err(e),
    };
    let ghost before = tools@;
    let tool = tools.swap_remove(idx);
    assert(tool == before[idx as int]);
    assert(spec_names(before)[idx as int] == tool.name@);
    assert(tool.name@ == default_tool_names()[idx as int]);
    let ghost t = tool;
    let text = match format {
        IntrospectionFormat::Text => render_tool_detail(&tool),
        IntrospectionFormat::Json => render_tool_detail_json(tool),
    };
    assert(described(t, text@, idx as int, format));
    assert(resolve_query_spec(default_tool_names(), trim(tool_name@)) == Ok::<int, Seq<char>>(idx as int));
    assert(trim(tool_name@).len() > 0);
    assert(exists|tt: ToolSpec| #[trigger] described(tt, text@, idx as int, format));
    let out: Result<String, String> = Ok(text);
    assert(out matches Ok(x) && x@ == text@);
    assert(describe_outcome(out, tool_name@, format));
    out
}

} // verus!
