//! Character-level text handling: the string operations that the rest of the
//! library relies on, each stated over `Seq<char>`.
use vstd::prelude::*;

use crate::text_support::string_from_chars;

verus! {

// ---------------------------------------------------------------------------
// Character classes
// ---------------------------------------------------------------------------

/// ASCII upper-case letters map to lower case; every other character is kept.
pub open spec fn lower_char_spec(c: char) -> char {
    if 65 <= (c as u32) <= 90 {
        ((c as u32) + 32) as char
    } else {
        c
    }
}

/// ASCII lower-case letters map to upper case; every other character is kept.
pub open spec fn upper_char_spec(c: char) -> char {
    if 97 <= (c as u32) <= 122 {
        ((c as u32) - 32) as char
    } else {
        c
    }
}

/// ASCII lower-casing of a whole sequence.
pub open spec fn ascii_lower(s: Seq<char>) -> Seq<char> {
    Seq::new(s.len(), |i: int| lower_char_spec(s[i]))
}

/// ASCII upper-casing of a whole sequence.
pub open spec fn ascii_upper(s: Seq<char>) -> Seq<char> {
    Seq::new(s.len(), |i: int| upper_char_spec(s[i]))
}

/// Characters with the Unicode `White_Space` property.
pub open spec fn is_ws(c: char) -> bool {
    let u = c as u32;
    (9 <= u <= 13) || u == 32 || u == 0x85 || u == 0xA0 || u == 0x1680 || (0x2000 <= u
        <= 0x200A) || u == 0x2028 || u == 0x2029 || u == 0x202F || u == 0x205F || u == 0x3000
}

pub open spec fn is_digit_spec(c: char) -> bool {
    48 <= (c as u32) <= 57
}

pub open spec fn is_alnum_spec(c: char) -> bool {
    let u = c as u32;
    (48 <= u <= 57) || (65 <= u <= 90) || (97 <= u <= 122)
}

pub fn lower_char(c: char) -> (r: char)
    ensures
        r == lower_char_spec(c),
{
    if 'A' <= c && c <= 'Z' {
        ((c as u8) + 32) as char
    } else {
        c
    }
}

pub fn upper_char(c: char) -> (r: char)
    ensures
        r == upper_char_spec(c),
{
    if 'a' <= c && c <= 'z' {
        ((c as u8) - 32) as char
    } else {
        c
    }
}

pub fn is_whitespace(c: char) -> (r: bool)
    ensures
        r == is_ws(c),
{
    let u = c as u32;
    (9 <= u && u <= 13) || u == 32 || u == 0x85 || u == 0xA0 || u == 0x1680 || (0x2000 <= u && u
        <= 0x200A) || u == 0x2028 || u == 0x2029 || u == 0x202F || u == 0x205F || u == 0x3000
}

pub fn is_ascii_digit(c: char) -> (r: bool)
    ensures
        r == is_digit_spec(c),
{
    '0' <= c && c <= '9'
}

pub fn is_ascii_alphanumeric(c: char) -> (r: bool)
    ensures
        r == is_alnum_spec(c),
{
    ('0' <= c && c <= '9') || ('A' <= c && c <= 'Z') || ('a' <= c && c <= 'z')
}

// ---------------------------------------------------------------------------
// Conversions between `str`, `String` and `Vec<char>`
// ---------------------------------------------------------------------------

/// The characters of a string slice, in order.
pub fn chars_of(s: &str) -> (res: Vec<char>)
    ensures
        res@ == s@,
{
    let n = s.unicode_len();
    let mut out: Vec<char> = Vec::new();
    let mut i: usize = 0;
    while i < n
        invariant
            n == s@.len(),
            i <= n,
            out@ == s@.subrange(0, i as int),
        decreases n - i,
    {
        let c = s.get_char(i);
        out.push(c);
        i = i + 1;
    }
    out
}

/// A `String` holding exactly the given characters.
pub fn string_of(chars: &Vec<char>) -> (res: String)
    ensures
        res@ == chars@,
{
    string_from_chars(chars)
}

/// The characters `v[from..to]` as a new vector.
pub fn slice_chars(v: &Vec<char>, from: usize, to: usize) -> (res: Vec<char>)
    requires
        from <= to <= v@.len(),
    ensures
        res@ == v@.subrange(from as int, to as int),
{
    let mut out: Vec<char> = Vec::new();
    let mut i = from;
    while i < to
        invariant
            from <= i <= to,
            to <= v@.len(),
            out@ == v@.subrange(from as int, i as int),
        decreases to - i,
    {
        out.push(v[i]);
        i = i + 1;
    }
    out
}

/// A copy of a character vector.
pub fn copy_chars(v: &Vec<char>) -> (res: Vec<char>)
    ensures
        res@ == v@,
{
    let res = slice_chars(v, 0, v.len());
    assert(v@.subrange(0, v@.len() as int) =~= v@);
    res
}

/// Appends `more` to `out`.
pub fn push_all(out: &mut Vec<char>, more: &Vec<char>)
    ensures
        final(out)@ == old(out)@ + more@,
{
    let mut i: usize = 0;
    while i < more.len()
        invariant
            i <= more@.len(),
            out@ == old(out)@ + more@.subrange(0, i as int),
        decreases more@.len() - i,
    {
        out.push(more[i]);
        i = i + 1;
        assert(out@ =~= old(out)@ + more@.subrange(0, i as int));
    }
    assert(more@.subrange(0, more@.len() as int) =~= more@);
}

/// Appends the characters of a string slice to `out`.
pub fn push_str(out: &mut Vec<char>, s: &str)
    ensures
        final(out)@ == old(out)@ + s@,
{
    let cs = chars_of(s);
    push_all(out, &cs);
}

/// ASCII lower-casing.
pub fn to_ascii_lower(v: &Vec<char>) -> (res: Vec<char>)
    ensures
        res@ == ascii_lower(v@),
{
    let mut out: Vec<char> = Vec::new();
    let mut i: usize = 0;
    while i < v.len()
        invariant
            i <= v@.len(),
            out@ == ascii_lower(v@.subrange(0, i as int)),
        decreases v@.len() - i,
    {
        let c = lower_char(v[i]);
        out.push(c);
        i = i + 1;
        assert(out@ =~= ascii_lower(v@.subrange(0, i as int)));
    }
    assert(v@.subrange(0, v@.len() as int) =~= v@);
    out
}

/// ASCII upper-casing.
pub fn to_ascii_upper(v: &Vec<char>) -> (res: Vec<char>)
    ensures
        res@ == ascii_upper(v@),
{
    let mut out: Vec<char> = Vec::new();
    let mut i: usize = 0;
    while i < v.len()
        invariant
            i <= v@.len(),
            out@ == ascii_upper(v@.subrange(0, i as int)),
        decreases v@.len() - i,
    {
        let c = upper_char(v[i]);
        out.push(c);
        i = i + 1;
        assert(out@ =~= ascii_upper(v@.subrange(0, i as int)));
    }
    assert(v@.subrange(0, v@.len() as int) =~= v@);
    out
}

/// Equality of two character sequences.
pub fn chars_eq(a: &Vec<char>, b: &Vec<char>) -> (r: bool)
    ensures
        r == (a@ == b@),
{
    if a.len() != b.len() {
        return false;
    }
    let mut i: usize = 0;
    while i < a.len()
        invariant
            a@.len() == b@.len(),
            i <= a@.len(),
            forall|k: int| 0 <= k < i ==> a@[k] == b@[k],
        decreases a@.len() - i,
    {
        if a[i] != b[i] {
            return false;
        }
        i = i + 1;
    }
    assert(a@ =~= b@);
    true
}

/// Equality of a character vector with a string slice.
pub fn chars_eq_str(a: &Vec<char>, s: &str) -> (r: bool)
    ensures
        r == (a@ == s@),
{
    let b = chars_of(s);
    chars_eq(a, &b)
}

/// ASCII case-insensitive equality (`eq_ignore_ascii_case`).
pub fn eq_ignore_ascii_case(a: &Vec<char>, b: &Vec<char>) -> (r: bool)
    ensures
        r == (ascii_lower(a@) == ascii_lower(b@)),
{
    let la = to_ascii_lower(a);
    let lb = to_ascii_lower(b);
    chars_eq(&la, &lb)
}

// ---------------------------------------------------------------------------
// Trimming
// ---------------------------------------------------------------------------

pub open spec fn trim_start(s: Seq<char>) -> Seq<char>
    decreases s.len(),
{
    if s.len() > 0 && is_ws(s[0]) {
        trim_start(s.drop_first())
    } else {
        s
    }
}

pub open spec fn trim_end(s: Seq<char>) -> Seq<char>
    decreases s.len(),
{
    if s.len() > 0 && is_ws(s.last()) {
        trim_end(s.drop_last())
    } else {
        s
    }
}

/// Leading and trailing white space removed (`str::trim`).
pub open spec fn trim(s: Seq<char>) -> Seq<char> {
    trim_end(trim_start(s))
}

/// The bounds `(i, j)` with `trim(v) == v[i..j]`.
pub fn trim_bounds(v: &Vec<char>) -> (res: (usize, usize))
    ensures
        res.0 <= res.1 <= v@.len(),
        trim(v@) == v@.subrange(res.0 as int, res.1 as int),
        trim_start(v@) == v@.subrange(res.0 as int, v@.len() as int),
{
    let n = v.len();
    let mut i: usize = 0;
    assert(v@.subrange(0, n as int) =~= v@);
    while i < n && is_whitespace(v[i])
        invariant
            n == v@.len(),
            i <= n,
            trim_start(v@) == trim_start(v@.subrange(i as int, n as int)),
        decreases n - i,
    {
        assert(v@.subrange(i as int, n as int).drop_first() =~= v@.subrange(i + 1, n as int));
        i = i + 1;
    }
    let mut j: usize = n;
    while j > i && is_whitespace(v[j - 1])
        invariant
            n == v@.len(),
            i <= j <= n,
            trim_start(v@) == v@.subrange(i as int, n as int),
            trim(v@) == trim_end(v@.subrange(i as int, j as int)),
        decreases j - i,
    {
        assert(v@.subrange(i as int, j as int).drop_last() =~= v@.subrange(i as int, j - 1));
        j = j - 1;
    }
    (i, j)
}

/// `str::trim` on a character vector.
pub fn trim_chars(v: &Vec<char>) -> (res: Vec<char>)
    ensures
        res@ == trim(v@),
{
    let (i, j) = trim_bounds(v);
    slice_chars(v, i, j)
}

/// `str::trim` on a string slice, as characters.
pub fn trim_str(s: &str) -> (res: Vec<char>)
    ensures
        res@ == trim(s@),
{
    let v = chars_of(s);
    trim_chars(&v)
}

// ---------------------------------------------------------------------------
// Searching
// ---------------------------------------------------------------------------

/// `needle` occurs in `hay` at index `i`.
pub open spec fn occurs_at(hay: Seq<char>, needle: Seq<char>, i: int) -> bool {
    0 <= i && i + needle.len() <= hay.len() && hay.subrange(i, i + needle.len()) == needle
}

/// `str::contains` for a string needle.
pub open spec fn contains_seq(hay: Seq<char>, needle: Seq<char>) -> bool {
    exists|i: int| occurs_at(hay, needle, i)
}

pub open spec fn starts_with_seq(s: Seq<char>, prefix: Seq<char>) -> bool {
    prefix.len() <= s.len() && s.subrange(0, prefix.len() as int) == prefix
}

pub open spec fn ends_with_seq(s: Seq<char>, suffix: Seq<char>) -> bool {
    suffix.len() <= s.len() && s.subrange(s.len() - suffix.len(), s.len() as int) == suffix
}

/// `i` is the first index at or after `from` where `needle` occurs.
pub open spec fn first_occurrence_from(hay: Seq<char>, needle: Seq<char>, from: int, i: int) -> bool {
    from <= i && occurs_at(hay, needle, i) && forall|k: int|
        from <= k < i ==> !occurs_at(hay, needle, k)
}

/// Whether `needle` occurs in `hay` at index `i`.
pub fn matches_at(hay: &Vec<char>, needle: &Vec<char>, i: usize) -> (r: bool)
    ensures
        r == occurs_at(hay@, needle@, i as int),
{
    if i > hay.len() || needle.len() > hay.len() - i {
        return false;
    }
    let mut k: usize = 0;
    while k < needle.len()
        invariant
            i + needle@.len() <= hay@.len(),
            hay@.len() <= usize::MAX,
            k <= needle@.len(),
            forall|m: int| 0 <= m < k ==> hay@[i + m] == needle@[m],
        decreases needle@.len() - k,
    {
        if hay[i + k] != needle[k] {
            assert(hay@.subrange(i as int, i + needle@.len())[k as int] != needle@[k as int]);
            return false;
        }
        k = k + 1;
    }
    assert(hay@.subrange(i as int, i + needle@.len()) =~= needle@);
    true
}

/// The first index at or after `from` where `needle` occurs (`str::find` from an offset).
pub fn find_from(hay: &Vec<char>, needle: &Vec<char>, from: usize) -> (r: Option<usize>)
    ensures
        match r {
            Some(i) => first_occurrence_from(hay@, needle@, from as int, i as int),
            None => forall|k: int| from <= k ==> !occurs_at(hay@, needle@, k),
        },
{
    if from > hay.len() || needle.len() > hay.len() {
        return None;
    }
    let last = hay.len() - needle.len();
    if from > last {
        return None;
    }
    let mut i = from;
    while i < last
        invariant
            last + needle@.len() == hay@.len(),
            from <= i <= last,
            forall|k: int| from <= k < i ==> !occurs_at(hay@, needle@, k),
        decreases last - i,
    {
        if matches_at(hay, needle, i) {
            return Some(i);
        }
        i = i + 1;
    }
    if matches_at(hay, needle, last) {
        return Some(last);
    }
    None
}

/// `str::contains`.
pub fn contains(hay: &Vec<char>, needle: &Vec<char>) -> (r: bool)
    ensures
        r == contains_seq(hay@, needle@),
{
    match find_from(hay, needle, 0) {
        Some(i) => true,
        None => {
            assert forall|k: int| !occurs_at(hay@, needle@, k) by {
                if k < 0 {
                }
            }
            false
        },
    }
}

/// `str::contains` with a literal needle.
pub fn contains_str(hay: &Vec<char>, needle: &str) -> (r: bool)
    ensures
        r == contains_seq(hay@, needle@),
{
    let n = chars_of(needle);
    contains(hay, &n)
}

/// `str::starts_with`.
pub fn starts_with(s: &Vec<char>, prefix: &Vec<char>) -> (r: bool)
    ensures
        r == starts_with_seq(s@, prefix@),
{
    matches_at(s, prefix, 0)
}

/// `str::starts_with` with a literal prefix.
pub fn starts_with_str(s: &Vec<char>, prefix: &str) -> (r: bool)
    ensures
        r == starts_with_seq(s@, prefix@),
{
    let p = chars_of(prefix);
    starts_with(s, &p)
}

/// `str::ends_with`.
pub fn ends_with(s: &Vec<char>, suffix: &Vec<char>) -> (r: bool)
    ensures
        r == ends_with_seq(s@, suffix@),
{
    if suffix.len() > s.len() {
        return false;
    }
    matches_at(s, suffix, s.len() - suffix.len())
}

/// `str::ends_with` with a literal suffix.
pub fn ends_with_str(s: &Vec<char>, suffix: &str) -> (r: bool)
    ensures
        r == ends_with_seq(s@, suffix@),
{
    let p = chars_of(suffix);
    ends_with(s, &p)
}

// ---------------------------------------------------------------------------
// Splitting and joining
// ---------------------------------------------------------------------------

/// The character contents of a sequence of character vectors.
pub open spec fn views(v: Seq<Vec<char>>) -> Seq<Seq<char>> {
    Seq::new(v.len(), |i: int| v[i]@)
}

/// The contents of a sequence of strings.
pub open spec fn string_views(v: Seq<String>) -> Seq<Seq<char>> {
    Seq::new(v.len(), |i: int| v[i]@)
}

pub open spec fn split_acc(s: Seq<char>, sep: char, cur: Seq<char>) -> Seq<Seq<char>>
    decreases s.len(),
{
    if s.len() == 0 {
        seq![cur]
    } else if s[0] == sep {
        seq![cur] + split_acc(s.drop_first(), sep, seq![])
    } else {
        split_acc(s.drop_first(), sep, cur.push(s[0]))
    }
}

/// `str::split` on one character: always at least one piece.
pub open spec fn split_on(s: Seq<char>, sep: char) -> Seq<Seq<char>> {
    split_acc(s, sep, seq![])
}

pub open spec fn strip_cr(s: Seq<char>) -> Seq<char> {
    if s.len() > 0 && s.last() == '\r' {
        s.drop_last()
    } else {
        s
    }
}

pub open spec fn lines_acc(s: Seq<char>, cur: Seq<char>) -> Seq<Seq<char>>
    decreases s.len(),
{
    if s.len() == 0 {
        if cur.len() > 0 {
            seq![cur]
        } else {
            seq![]
        }
    } else if s[0] == '\n' {
        seq![strip_cr(cur)] + lines_acc(s.drop_first(), seq![])
    } else {
        lines_acc(s.drop_first(), cur.push(s[0]))
    }
}

/// `str::lines`: split at `\n`, a `\r` before it dropped, no piece after a final `\n`.
pub open spec fn lines(s: Seq<char>) -> Seq<Seq<char>> {
    lines_acc(s, seq![])
}

pub open spec fn words_acc(s: Seq<char>, cur: Seq<char>) -> Seq<Seq<char>>
    decreases s.len(),
{
    if s.len() == 0 {
        if cur.len() > 0 {
            seq![cur]
        } else {
            seq![]
        }
    } else if is_ws(s[0]) {
        if cur.len() > 0 {
            seq![cur] + words_acc(s.drop_first(), seq![])
        } else {
            words_acc(s.drop_first(), seq![])
        }
    } else {
        words_acc(s.drop_first(), cur.push(s[0]))
    }
}

/// `str::split_whitespace`: the maximal runs of non-white-space characters.
pub open spec fn words(s: Seq<char>) -> Seq<Seq<char>> {
    words_acc(s, seq![])
}

proof fn lemma_views_push(v: Seq<Vec<char>>, x: Vec<char>)
    ensures
        views(v.push(x)) == views(v) + seq![x@],
{
    assert(views(v.push(x)) =~= views(v) + seq![x@]);
}

/// `str::split(sep)`.
pub fn split_char(s: &Vec<char>, sep: char) -> (res: Vec<Vec<char>>)
    ensures
        views(res@) == split_on(s@, sep),
{
    let mut out: Vec<Vec<char>> = Vec::new();
    let mut cur: Vec<char> = Vec::new();
    let mut i: usize = 0;
    assert(s@.skip(0) =~= s@);
    while i < s.len()
        invariant
            i <= s@.len(),
            split_on(s@, sep) == views(out@) + split_acc(s@.skip(i as int), sep, cur@),
        decreases s@.len() - i,
    {
        let c = s[i];
        assert(s@.skip(i as int).drop_first() =~= s@.skip(i + 1));
        assert(s@.skip(i as int)[0] == c);
        if c == sep {
            proof {
                lemma_views_push(out@, cur);
            }
            let done = cur;
            out.push(done);
            cur = Vec::new();
            assert(views(out@) + split_acc(s@.skip(i + 1), sep, cur@) =~= views(out@.drop_last())
                + (seq![done@] + split_acc(s@.skip(i + 1), sep, seq![])));
        } else {
            cur.push(c);
        }
        i = i + 1;
    }
    assert(s@.skip(i as int) =~= Seq::<char>::empty());
    proof {
        lemma_views_push(out@, cur);
    }
    out.push(cur);
    out
}

/// `str::lines`.
pub fn split_lines(s: &Vec<char>) -> (res: Vec<Vec<char>>)
    ensures
        views(res@) == lines(s@),
{
    let mut out: Vec<Vec<char>> = Vec::new();
    let mut cur: Vec<char> = Vec::new();
    let mut i: usize = 0;
    assert(s@.skip(0) =~= s@);
    while i < s.len()
        invariant
            i <= s@.len(),
            lines(s@) == views(out@) + lines_acc(s@.skip(i as int), cur@),
        decreases s@.len() - i,
    {
        let c = s[i];
        assert(s@.skip(i as int).drop_first() =~= s@.skip(i + 1));
        assert(s@.skip(i as int)[0] == c);
        if c == '\n' {
            let n = cur.len();
            let done = if n > 0 && cur[n - 1] == '\r' {
                let d = slice_chars(&cur, 0, n - 1);
                assert(d@ =~= cur@.drop_last());
                d
            } else {
                cur
            };
            assert(done@ == strip_cr(cur@));
            proof {
                lemma_views_push(out@, done);
            }
            out.push(done);
            cur = Vec::new();
        } else {
            cur.push(c);
        }
        i = i + 1;
    }
    assert(s@.skip(i as int) =~= Seq::<char>::empty());
    if cur.len() > 0 {
        proof {
            lemma_views_push(out@, cur);
        }
        out.push(cur);
    } else {
        assert(views(out@) + Seq::<Seq<char>>::empty() =~= views(out@));
    }
    out
}

/// `str::lines` on a string slice.
pub fn lines_of(s: &str) -> (res: Vec<Vec<char>>)
    ensures
        views(res@) == lines(s@),
{
    let v = chars_of(s);
    split_lines(&v)
}

/// `str::split_whitespace`.
pub fn split_words(s: &Vec<char>) -> (res: Vec<Vec<char>>)
    ensures
        views(res@) == words(s@),
{
    let mut out: Vec<Vec<char>> = Vec::new();
    let mut cur: Vec<char> = Vec::new();
    let mut i: usize = 0;
    assert(s@.skip(0) =~= s@);
    while i < s.len()
        invariant
            i <= s@.len(),
            words(s@) == views(out@) + words_acc(s@.skip(i as int), cur@),
        decreases s@.len() - i,
    {
        let c = s[i];
        assert(s@.skip(i as int).drop_first() =~= s@.skip(i + 1));
        assert(s@.skip(i as int)[0] == c);
        if is_whitespace(c) {
            if cur.len() > 0 {
                let ghost rest = words_acc(s@.skip(i + 1), seq![]);
                let ghost old_out = views(out@);
                let ghost old_cur = cur@;
                proof {
                    lemma_views_push(out@, cur);
                }
                out.push(cur);
                cur = Vec::new();
                assert(views(out@) + rest =~= old_out + (seq![old_cur] + rest));
            } else {
                assert(cur@ =~= Seq::<char>::empty());
            }
        } else {
            cur.push(c);
        }
        i = i + 1;
    }
    assert(s@.skip(i as int) =~= Seq::<char>::empty());
    if cur.len() > 0 {
        proof {
            lemma_views_push(out@, cur);
        }
        out.push(cur);
    } else {
        assert(views(out@) + Seq::<Seq<char>>::empty() =~= views(out@));
    }
    out
}

/// Pieces joined with a separator between neighbours (`[&str]::join`).
pub open spec fn join(parts: Seq<Seq<char>>, sep: Seq<char>) -> Seq<char>
    decreases parts.len(),
{
    if parts.len() == 0 {
        seq![]
    } else if parts.len() == 1 {
        parts[0]
    } else {
        join(parts.drop_last(), sep) + sep + parts.last()
    }
}

/// `[&str]::join`.
pub fn join_chars(parts: &Vec<Vec<char>>, sep: &Vec<char>) -> (res: Vec<char>)
    ensures
        res@ == join(views(parts@), sep@),
{
    let mut out: Vec<char> = Vec::new();
    let mut i: usize = 0;
    while i < parts.len()
        invariant
            i <= parts@.len(),
            out@ == join(views(parts@).subrange(0, i as int), sep@),
        decreases parts@.len() - i,
    {
        let ghost before = views(parts@).subrange(0, i as int);
        let ghost after = views(parts@).subrange(0, i + 1);
        assert(after.drop_last() =~= before);
        if i > 0 {
            push_all(&mut out, sep);
        }
        push_all(&mut out, &parts[i]);
        i = i + 1;
    }
    assert(views(parts@).subrange(0, parts@.len() as int) =~= views(parts@));
    out
}

// ---------------------------------------------------------------------------
// Decimal numbers
// ---------------------------------------------------------------------------

pub open spec fn digit_char(d: nat) -> char {
    ((d + 48) as u32) as char
}

/// The decimal representation of a natural number, without leading zeros.
pub open spec fn dec(n: nat) -> Seq<char>
    decreases n,
{
    if n < 10 {
        seq![digit_char(n)]
    } else {
        dec(n / 10).push(digit_char(n % 10))
    }
}

/// The decimal representation of `n`, left-padded with zeros to `width` characters.
pub open spec fn dec_padded(n: nat, width: nat) -> Seq<char> {
    let d = dec(n);
    if d.len() >= width {
        d
    } else {
        Seq::new((width - d.len()) as nat, |i: int| '0') + d
    }
}

pub fn digit(d: u64) -> (r: char)
    requires
        d < 10,
    ensures
        r == digit_char(d as nat),
{
    ((d as u8) + 48) as char
}

/// `u64` formatted in decimal (`format!("{n}")`).
pub fn dec_chars(n: u64) -> (res: Vec<char>)
    ensures
        res@ == dec(n as nat),
    decreases n,
{
    if n < 10 {
        let mut v: Vec<char> = Vec::new();
        v.push(digit(n));
        assert(v@ =~= seq![digit_char(n as nat)]);
        v
    } else {
        let mut v = dec_chars(n / 10);
        v.push(digit(n % 10));
        v
    }
}

/// `u64` formatted in decimal, zero-padded to `width` (`format!("{n:0w$}")`).
pub fn dec_padded_chars(n: u64, width: usize) -> (res: Vec<char>)
    ensures
        res@ == dec_padded(n as nat, width as nat),
{
    let d = dec_chars(n);
    if d.len() >= width {
        d
    } else {
        let mut out: Vec<char> = Vec::new();
        let pad = width - d.len();
        let mut i: usize = 0;
        while i < pad
            invariant
                i <= pad,
                out@ == Seq::new(i as nat, |k: int| '0'),
            decreases pad - i,
        {
            out.push('0');
            i = i + 1;
            assert(out@ =~= Seq::new(i as nat, |k: int| '0'));
        }
        push_all(&mut out, &d);
        out
    }
}

/// `usize` formatted in decimal.
pub fn usize_dec(n: usize) -> (res: Vec<char>)
    ensures
        res@ == dec(n as nat),
{
    dec_chars(n as u64)
}

pub open spec fn digit_value(c: char) -> nat {
    ((c as u32) - 48) as nat
}

pub open spec fn all_digits(s: Seq<char>) -> bool {
    forall|i: int| 0 <= i < s.len() ==> is_digit_spec(s[i])
}

/// The value of a string of decimal digits.
pub open spec fn dec_value(s: Seq<char>) -> nat
    decreases s.len(),
{
    if s.len() == 0 {
        0
    } else {
        dec_value(s.drop_last()) * 10 + digit_value(s.last())
    }
}

/// The digits that `str::parse` reads for an unsigned integer: an optional `+` sign dropped.
pub open spec fn unsigned_digits(s: Seq<char>) -> Seq<char> {
    if s.len() > 0 && s[0] == '+' {
        s.drop_first()
    } else {
        s
    }
}

/// `str::parse::<u32>`: `Some` exactly when the text is an optional `+` and one or more
/// decimal digits whose value fits in `u32`.
pub open spec fn parse_u32_spec(s: Seq<char>) -> Option<u32> {
    let t = unsigned_digits(s);
    if t.len() > 0 && all_digits(t) && dec_value(t) <= u32::MAX {
        Some(dec_value(t) as u32)
    } else {
        None
    }
}

/// `str::parse::<u64>` on the same terms as [`parse_u32_spec`].
pub open spec fn parse_u64_spec(s: Seq<char>) -> Option<u64> {
    let t = unsigned_digits(s);
    if t.len() > 0 && all_digits(t) && dec_value(t) <= u64::MAX {
        Some(dec_value(t) as u64)
    } else {
        None
    }
}

pub open spec fn min_nat(a: nat, b: nat) -> nat {
    if a < b {
        a
    } else {
        b
    }
}

/// The value of the digits `t`, capped at `cap` (all characters must be digits for the
/// result to mean anything).
fn capped_digits_value(t: &Vec<char>, start: usize, cap: u64) -> (res: (bool, u64))
    requires
        start <= t@.len(),
        cap < u64::MAX / 16,
    ensures
        res.0 == all_digits(t@.subrange(start as int, t@.len() as int)),
        res.0 ==> res.1 == min_nat(dec_value(t@.subrange(start as int, t@.len() as int)), cap as nat),
{
    let mut acc: u64 = 0;
    let mut i = start;
    assert(t@.subrange(start as int, start as int) =~= Seq::<char>::empty());
    while i < t.len()
        invariant
            start <= i <= t@.len(),
            cap < u64::MAX / 16,
            all_digits(t@.subrange(start as int, i as int)),
            acc == min_nat(dec_value(t@.subrange(start as int, i as int)), cap as nat),
        decreases t@.len() - i,
    {
        let c = t[i];
        let ghost prev = t@.subrange(start as int, i as int);
        let ghost next = t@.subrange(start as int, i + 1);
        assert(next.drop_last() =~= prev);
        assert(next.last() == c);
        if !is_ascii_digit(c) {
            assert(!all_digits(t@.subrange(start as int, t@.len() as int))) by {
                assert(t@.subrange(start as int, t@.len() as int)[i - start] == c);
            }
            return (false, 0);
        }
        let d = (c as u32 - 48) as u64;
        let raw = acc * 10 + d;
        acc = if raw > cap {
            cap
        } else {
            raw
        };
        assert(dec_value(next) == dec_value(prev) * 10 + digit_value(c));
        i = i + 1;
        assert(all_digits(t@.subrange(start as int, i as int))) by {
            assert forall|k: int| 0 <= k < next.len() implies is_digit_spec(next[k]) by {
                if k < prev.len() {
                    assert(next[k] == prev[k]);
                }
            }
        }
    }
    (true, acc)
}

/// `str::parse::<u32>`.
pub fn parse_u32(s: &Vec<char>) -> (r: Option<u32>)
    ensures
        r == parse_u32_spec(s@),
{
    let start: usize = if s.len() > 0 && s[0] == '+' {
        1
    } else {
        0
    };
    assert(unsigned_digits(s@) =~= s@.subrange(start as int, s@.len() as int));
    if start >= s.len() {
        return None;
    }
    let cap: u64 = 4294967296;
    let (ok, v) = capped_digits_value(s, start, cap);
    if !ok || v > 4294967295 {
        None
    } else {
        Some(v as u32)
    }
}

/// `str::parse::<u64>`: the decimal digits of a 64-bit count.
pub fn parse_u64(s: &Vec<char>) -> (r: Option<u64>)
    ensures
        r == parse_u64_spec(s@),
{
    let start: usize = if s.len() > 0 && s[0] == '+' {
        1
    } else {
        0
    };
    assert(unsigned_digits(s@) =~= s@.subrange(start as int, s@.len() as int));
    if start >= s.len() {
        return None;
    }
    let t = slice_chars(s, start, s.len());
    let (ok, n) = exact_value_u64(&t);
    if !ok {
        None
    } else {
        Some(n)
    }
}

proof fn lemma_dec_value_mono(s: Seq<char>, extra: char)
    requires
        is_digit_spec(extra),
    ensures
        dec_value(s.push(extra)) >= dec_value(s) * 10,
{
    assert(s.push(extra).drop_last() =~= s);
}

/// `(true, value)` when `t` is all digits and its value fits in `u64`, else `(false, _)`.
fn exact_value_u64(t: &Vec<char>) -> (res: (bool, u64))
    ensures
        res.0 == (all_digits(t@) && dec_value(t@) <= u64::MAX),
        res.0 ==> res.1 == dec_value(t@),
{
    let mut acc: u64 = 0;
    let mut i: usize = 0;
    let mut fits = true;
    assert(t@.subrange(0, 0) =~= Seq::<char>::empty());
    while i < t.len()
        invariant
            i <= t@.len(),
            all_digits(t@.subrange(0, i as int)),
            fits ==> acc == dec_value(t@.subrange(0, i as int)),
            !fits ==> dec_value(t@.subrange(0, i as int)) > u64::MAX,
        decreases t@.len() - i,
    {
        let c = t[i];
        let ghost prev = t@.subrange(0, i as int);
        let ghost next = t@.subrange(0, i + 1);
        assert(next.drop_last() =~= prev);
        assert(next =~= prev.push(c));
        if !is_ascii_digit(c) {
            assert(!all_digits(t@)) by {
                assert(t@[i as int] == c);
            }
            return (false, 0);
        }
        proof {
            lemma_dec_value_mono(prev, c);
        }
        let d = (c as u32 - 48) as u64;
        if fits {
            if acc > (u64::MAX - d) / 10 {
                fits = false;
            } else {
                acc = acc * 10 + d;
            }
        }
        i = i + 1;
        assert(all_digits(t@.subrange(0, i as int))) by {
            assert forall|k: int| 0 <= k < next.len() implies is_digit_spec(next[k]) by {
                if k < prev.len() {
                    assert(next[k] == prev[k]);
                }
            }
        }
    }
    assert(t@.subrange(0, t@.len() as int) =~= t@);
    (fits, acc)
}

} // verus!
