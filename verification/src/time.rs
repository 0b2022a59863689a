//! UTC calendar rendering of UNIX timestamps (`YYYY-MM-DDTHH:MM:SSZ`).
use vstd::prelude::*;

use crate::text::{dec, dec_padded, digit_char, dec_padded_chars, push_all, string_of};
use crate::text_support::unix_now_secs;

verus! {

pub open spec fn is_leap_spec(y: nat) -> bool {
    (y % 4 == 0 && y % 100 != 0) || y % 400 == 0
}

pub open spec fn year_len(y: nat) -> nat {
    if is_leap_spec(y) {
        366
    } else {
        365
    }
}

/// Days of month `i` (0 = January) of year `y`.
pub open spec fn month_len(i: nat, y: nat) -> nat {
    if i == 1 && is_leap_spec(y) {
        29
    } else if i == 1 {
        28
    } else if i == 3 || i == 5 || i == 8 || i == 10 {
        30
    } else {
        31
    }
}

/// The year containing day `days` counted from 1 January of year `y`, and the day within it.
pub open spec fn year_and_day(days: nat, y: nat) -> (nat, nat)
    decreases days,
{
    if days < year_len(y) {
        (y, days)
    } else {
        year_and_day((days - year_len(y)) as nat, y + 1)
    }
}

/// The month number (1-based) and the day within it, for day `days` of year `y`,
/// scanning from month index `i`.
pub open spec fn month_and_day(days: nat, i: nat, y: nat) -> (nat, nat)
    decreases 12 - i,
{
    if i >= 12 {
        (i + 1, days)
    } else if days < month_len(i, y) {
        (i + 1, days)
    } else {
        month_and_day((days - month_len(i, y)) as nat, i + 1, y)
    }
}

/// The ISO-8601 rendering of `secs` seconds after the UNIX epoch.
pub open spec fn iso8601(secs: nat) -> Seq<char> {
    let s = secs % 60;
    let m = (secs / 60) % 60;
    let h = (secs / 3600) % 24;
    let (year, yday) = year_and_day(secs / 86400, 1970);
    let (month, mday) = month_and_day(yday, 0, year);
    dec_padded(year, 4) + seq!['-'] + dec_padded(month, 2) + seq!['-'] + dec_padded(mday + 1, 2)
        + seq!['T'] + dec_padded(h, 2) + seq![':'] + dec_padded(m, 2) + seq![':'] + dec_padded(
        s,
        2,
    ) + seq!['Z']
}

/// Gregorian leap-year rule.
pub fn is_leap_year(y: u64) -> (r: bool)
    ensures
        r == is_leap_spec(y as nat),
{
    (y % 4 == 0 && y % 100 != 0) || y % 400 == 0
}

fn year_len_exec(year: u64) -> (r: u64)
    ensures
        r == year_len(year as nat),
{
    if is_leap_year(year) {
        366
    } else {
        365
    }
}

fn month_len_exec(i: u64, year: u64) -> (r: u64)
    ensures
        r == month_len(i as nat, year as nat),
{
    if i == 1 && is_leap_year(year) {
        29
    } else if i == 1 {
        28
    } else if i == 3 || i == 5 || i == 8 || i == 10 {
        30
    } else {
        31
    }
}

/// Renders `secs` (seconds since the UNIX epoch) as `YYYY-MM-DDTHH:MM:SSZ` in UTC.
pub fn secs_to_iso8601(secs: u64) -> (res: String)
    ensures
        res@ == iso8601(secs as nat),
{
    let s = secs % 60;
    let m = (secs / 60) % 60;
    let h = (secs / 3600) % 24;
    let d0 = secs / 86400;
    let mut days = d0;
    let mut year: u64 = 1970;
    while days >= year_len_exec(year)
        invariant
            days <= d0,
            d0 == secs / 86400,
            year <= 1970 + (d0 - days),
            year_and_day(d0 as nat, 1970) == year_and_day(days as nat, year as nat),
        decreases days,
    {
        let len = year_len_exec(year);
        days = days - len;
        year = year + 1;
    }
    let ghost yday = days as nat;
    let mut month: u64 = 1;
    let mut i: u64 = 0;
    while i < 12 && days >= month_len_exec(i, year)
        invariant
            i <= 12,
            month == i + 1,
            days <= yday,
            month_and_day(yday, 0, year as nat) == month_and_day(days as nat, i as nat, year as nat),
        decreases 12 - i,
    {
        let ml = month_len_exec(i, year);
        days = days - ml;
        month = month + 1;
        i = i + 1;
    }
    let day = days + 1;
    let mut out: Vec<char> = Vec::new();
    let part = dec_padded_chars(year, 4);
    push_all(&mut out, &part);
    out.push('-');
    let part = dec_padded_chars(month, 2);
    push_all(&mut out, &part);
    out.push('-');
    let part = dec_padded_chars(day, 2);
    push_all(&mut out, &part);
    out.push('T');
    let part = dec_padded_chars(h, 2);
    push_all(&mut out, &part);
    out.push(':');
    let part = dec_padded_chars(m, 2);
    push_all(&mut out, &part);
    out.push(':');
    let part = dec_padded_chars(s, 2);
    push_all(&mut out, &part);
    out.push('Z');
    string_of(&out)
}

/// The current UTC time rendered by [`secs_to_iso8601`].
pub fn chrono_now() -> (res: String)
    ensures
        exists|secs: u64| res@ == iso8601(secs as nat),
{
    let secs = unix_now_secs();
    secs_to_iso8601(secs)
}

/// Days of months `i`..December of year `y`.
pub open spec fn months_from(i: nat, y: nat) -> nat
    decreases 12 - i,
{
    if i >= 12 {
        0
    } else {
        month_len(i, y) + months_from(i + 1, y)
    }
}

proof fn lemma_months_make_year(y: nat)
    ensures
        months_from(0, y) == year_len(y),
{
    reveal_with_fuel(months_from, 13);
}

proof fn lemma_month_and_day_range(days: nat, i: nat, y: nat)
    requires
        i <= 12,
        days < months_from(i, y),
    ensures
        i + 1 <= month_and_day(days, i, y).0 <= 12,
        month_and_day(days, i, y).1 < month_len((month_and_day(days, i, y).0 - 1) as nat, y),
    decreases 12 - i,
{
    if i < 12 && days >= month_len(i, y) {
        lemma_month_and_day_range((days - month_len(i, y)) as nat, i + 1, y);
    }
}

proof fn lemma_year_and_day_range(days: nat, y: nat)
    ensures
        year_and_day(days, y).0 >= y,
        year_and_day(days, y).1 < year_len(year_and_day(days, y).0),
    decreases days,
{
    if days >= year_len(y) {
        lemma_year_and_day_range((days - year_len(y)) as nat, y + 1);
    }
}

proof fn lemma_dec_len(n: nat)
    ensures
        n < 10 ==> dec(n).len() == 1,
        n < 100 ==> dec(n).len() <= 2,
        n < 1000 ==> dec(n).len() <= 3,
        n < 10000 ==> dec(n).len() <= 4,
    decreases n,
{
    if n >= 10 {
        lemma_dec_len(n / 10);
    }
}

proof fn lemma_padded_len(n: nat, w: nat)
    requires
        dec(n).len() <= w,
    ensures
        dec_padded(n, w).len() == w,
{
}

/// The fields of a rendered timestamp are in range: the year is 1970 or later, the
/// month 1 to 12, the day 1 to the length of that month in that year (29 for February
/// of a leap year), the hour below 24 and the minute and second below 60; up to year
/// 9999 the text is the 20 characters `YYYY-MM-DDTHH:MM:SSZ`.
#[verifier::spinoff_prover]
#[verifier::rlimit(60)]
pub proof fn lemma_iso8601_fields(secs: nat)
    ensures
        ({
            let (year, yday) = year_and_day(secs / 86400, 1970);
            let (month, mday) = month_and_day(yday, 0, year);
            &&& year >= 1970
            &&& 1 <= month <= 12
            &&& 1 <= mday + 1 <= month_len((month - 1) as nat, year)
            &&& (secs / 3600) % 24 < 24 && (secs / 60) % 60 < 60 && secs % 60 < 60
            &&& iso8601(secs) == dec_padded(year, 4) + seq!['-'] + dec_padded(month, 2) + seq!['-']
                + dec_padded(mday + 1, 2) + seq!['T'] + dec_padded((secs / 3600) % 24, 2) + seq![':']
                + dec_padded((secs / 60) % 60, 2) + seq![':'] + dec_padded(secs % 60, 2) + seq!['Z']
            &&& year < 10000 ==> iso8601(secs).len() == 20
        }),
{
    let (year, yday) = year_and_day(secs / 86400, 1970);
    lemma_year_and_day_range(secs / 86400, 1970);
    lemma_months_make_year(year);
    lemma_month_and_day_range(yday, 0, year);
    let (month, mday) = month_and_day(yday, 0, year);
    lemma_dec_len(year);
    lemma_dec_len(month);
    lemma_dec_len(mday + 1);
    lemma_dec_len((secs / 3600) % 24);
    lemma_dec_len((secs / 60) % 60);
    lemma_dec_len(secs % 60);
    if year < 10000 {
        lemma_padded_len(year, 4);
    }
    lemma_padded_len(month, 2);
    lemma_padded_len(mday + 1, 2);
    lemma_padded_len((secs / 3600) % 24, 2);
    lemma_padded_len((secs / 60) % 60, 2);
    lemma_padded_len(secs % 60, 2);
}


// ---------------------------------------------------------------------------
// Order of rendered timestamps
// ---------------------------------------------------------------------------

/// Lexicographic order of texts by character code (byte order for ASCII text).
pub open spec fn text_lt(a: Seq<char>, b: Seq<char>) -> bool
    decreases a.len(),
{
    if a.len() == 0 {
        b.len() > 0
    } else if b.len() == 0 {
        false
    } else {
        (a[0] as u32) < (b[0] as u32) || (a[0] == b[0] && text_lt(a.drop_first(), b.drop_first()))
    }
}

proof fn lemma_lt_same_prefix(p: Seq<char>, x: Seq<char>, y: Seq<char>)
    ensures
        text_lt(p + x, p + y) == text_lt(x, y),
    decreases p.len(),
{
    if p.len() > 0 {
        assert((p + x).drop_first() =~= p.drop_first() + x);
        assert((p + y).drop_first() =~= p.drop_first() + y);
        lemma_lt_same_prefix(p.drop_first(), x, y);
    } else {
        assert(p + x =~= x);
        assert(p + y =~= y);
    }
}

proof fn lemma_lt_prefix_decides(a: Seq<char>, b: Seq<char>, x: Seq<char>, y: Seq<char>)
    requires
        a.len() == b.len(),
        text_lt(a, b),
    ensures
        text_lt(a + x, b + y),
    decreases a.len(),
{
    assert((a + x)[0] == a[0]);
    assert((b + y)[0] == b[0]);
    if a[0] == b[0] {
        assert((a + x).drop_first() =~= a.drop_first() + x);
        assert((b + y).drop_first() =~= b.drop_first() + y);
        lemma_lt_prefix_decides(a.drop_first(), b.drop_first(), x, y);
    }
}

/// Two decimal digits of a number below 100.
pub open spec fn two_digits(n: nat) -> Seq<char> {
    seq![digit_char(n / 10), digit_char(n % 10)]
}

proof fn lemma_pad2(n: nat)
    requires
        n < 100,
    ensures
        dec_padded(n, 2) == two_digits(n),
{
    reveal_with_fuel(dec, 3);
    if n < 10 {
        assert(dec(n) == seq![digit_char(n)]);
        assert(digit_char(0) == '0');
        assert(dec_padded(n, 2) =~= seq!['0'] + seq![digit_char(n)]);
    } else {
        assert(dec(n / 10) == seq![digit_char(n / 10)]);
        assert(dec(n) =~= seq![digit_char(n / 10), digit_char(n % 10)]);
    }
}

#[verifier::spinoff_prover]
#[verifier::rlimit(60)]
proof fn lemma_pad4(n: nat)
    requires
        n < 10000,
    ensures
        dec_padded(n, 4) == two_digits(n / 100) + two_digits(n % 100),
{
    reveal_with_fuel(dec, 5);
    assert(digit_char(0) == '0');
    if n < 10 {
        assert(dec(n) == seq![digit_char(n)]);
        assert(dec_padded(n, 4) =~= two_digits(n / 100) + two_digits(n % 100));
    } else if n < 100 {
        assert(dec(n / 10) == seq![digit_char(n / 10)]);
        assert(dec(n) =~= seq![digit_char(n / 10), digit_char(n % 10)]);
        assert(dec_padded(n, 4) =~= two_digits(n / 100) + two_digits(n % 100));
    } else if n < 1000 {
        assert(dec(n / 100) == seq![digit_char(n / 100)]);
        assert(dec(n / 10) =~= seq![digit_char(n / 100), digit_char((n / 10) % 10)]);
        assert(dec(n) =~= seq![digit_char(n / 100), digit_char((n / 10) % 10), digit_char(n % 10)]);
        assert((n % 100) / 10 == (n / 10) % 10);
        assert(dec_padded(n, 4) =~= two_digits(n / 100) + two_digits(n % 100));
    } else {
        assert(dec(n / 1000) == seq![digit_char(n / 1000)]);
        assert(dec(n / 100) =~= seq![digit_char(n / 1000), digit_char((n / 100) % 10)]);
        assert(dec(n / 10) =~= seq![digit_char(n / 1000), digit_char((n / 100) % 10), digit_char((n / 10) % 10)]);
        assert(dec(n) =~= seq![
            digit_char(n / 1000),
            digit_char((n / 100) % 10),
            digit_char((n / 10) % 10),
            digit_char(n % 10),
        ]);
        assert((n / 100) / 10 == n / 1000);
        assert((n % 100) / 10 == (n / 10) % 10);
        assert(dec_padded(n, 4) =~= two_digits(n / 100) + two_digits(n % 100));
    }
}

proof fn lemma_two_digits_lt(a: nat, b: nat)
    requires
        a < b < 100,
    ensures
        text_lt(two_digits(a), two_digits(b)),
        two_digits(a).len() == 2,
{
    let x = two_digits(a);
    let y = two_digits(b);
    assert(x.drop_first() =~= seq![digit_char(a % 10)]);
    assert(y.drop_first() =~= seq![digit_char(b % 10)]);
    assert(x.drop_first().drop_first().len() == 0);
    assert((digit_char(a / 10) as u32) == a / 10 + 48);
    assert((digit_char(b / 10) as u32) == b / 10 + 48);
    assert((digit_char(a % 10) as u32) == a % 10 + 48);
    assert((digit_char(b % 10) as u32) == b % 10 + 48);
    reveal_with_fuel(text_lt, 3);
    if a / 10 == b / 10 {
        assert(a % 10 < b % 10);
        assert(x[0] == y[0]);
        assert(text_lt(x.drop_first(), y.drop_first()));
    } else {
        assert(a / 10 < b / 10);
    }
}

proof fn lemma_month_at_least(d: nat, i: nat, y: nat)
    ensures
        month_and_day(d, i, y).0 >= i + 1,
    decreases 12 - i,
{
    if i < 12 && d >= month_len(i, y) {
        lemma_month_at_least((d - month_len(i, y)) as nat, i + 1, y);
    }
}

proof fn lemma_month_and_day_mono(a: nat, b: nat, i: nat, y: nat)
    requires
        a < b,
    ensures
        month_and_day(a, i, y).0 < month_and_day(b, i, y).0 || (month_and_day(a, i, y).0 == month_and_day(b, i, y).0
            && month_and_day(a, i, y).1 < month_and_day(b, i, y).1),
    decreases 12 - i,
{
    if i < 12 {
        let ml = month_len(i, y);
        if b < ml {
        } else if a < ml {
            lemma_month_at_least((b - ml) as nat, i + 1, y);
        } else {
            lemma_month_and_day_mono((a - ml) as nat, (b - ml) as nat, i + 1, y);
        }
    }
}

proof fn lemma_year_and_day_mono(a: nat, b: nat, y: nat)
    requires
        a < b,
    ensures
        year_and_day(a, y).0 < year_and_day(b, y).0 || (year_and_day(a, y).0 == year_and_day(b, y).0
            && year_and_day(a, y).1 < year_and_day(b, y).1),
    decreases b,
{
    let yl = year_len(y);
    if b < yl {
    } else if a < yl {
        lemma_year_and_day_range((b - yl) as nat, y + 1);
    } else {
        lemma_year_and_day_mono((a - yl) as nat, (b - yl) as nat, y + 1);
    }
}

/// The year a timestamp falls in.
pub open spec fn year_of(secs: nat) -> nat {
    year_and_day(secs / 86400, 1970).0
}

pub open spec fn iso_tail6(sec: nat) -> Seq<char> {
    two_digits(sec) + seq!['Z']
}

pub open spec fn iso_tail5(mi: nat, sec: nat) -> Seq<char> {
    two_digits(mi) + (seq![':'] + iso_tail6(sec))
}

pub open spec fn iso_tail4(h: nat, mi: nat, sec: nat) -> Seq<char> {
    two_digits(h) + (seq![':'] + iso_tail5(mi, sec))
}

pub open spec fn iso_tail3(d: nat, h: nat, mi: nat, sec: nat) -> Seq<char> {
    two_digits(d) + (seq!['T'] + iso_tail4(h, mi, sec))
}

pub open spec fn iso_tail2(m: nat, d: nat, h: nat, mi: nat, sec: nat) -> Seq<char> {
    two_digits(m) + (seq!['-'] + iso_tail3(d, h, mi, sec))
}

pub open spec fn iso_tail1(y: nat, m: nat, d: nat, h: nat, mi: nat, sec: nat) -> Seq<char> {
    two_digits(y / 100) + (two_digits(y % 100) + (seq!['-'] + iso_tail2(m, d, h, mi, sec)))
}

#[verifier::spinoff_prover]
#[verifier::rlimit(60)]
proof fn lemma_iso_as_tails(secs: nat)
    requires
        year_of(secs) < 10000,
    ensures
        ({
            let (year, yday) = year_and_day(secs / 86400, 1970);
            let (month, mday) = month_and_day(yday, 0, year);
            iso8601(secs) == iso_tail1(year, month, mday + 1, (secs / 3600) % 24, (secs / 60) % 60, secs % 60)
        }),
{
    let (year, yday) = year_and_day(secs / 86400, 1970);
    let (month, mday) = month_and_day(yday, 0, year);
    lemma_iso8601_fields(secs);
    lemma_pad4(year);
    lemma_pad2(month);
    lemma_pad2(mday + 1);
    lemma_pad2((secs / 3600) % 24);
    lemma_pad2((secs / 60) % 60);
    lemma_pad2(secs % 60);
    assert(iso8601(secs) =~= iso_tail1(year, month, mday + 1, (secs / 3600) % 24, (secs / 60) % 60, secs % 60));
}

proof fn lemma_field_order(a: nat, b: nat, r1: Seq<char>, r2: Seq<char>)
    requires
        a < 100,
        b < 100,
        a < b || (a == b && text_lt(r1, r2)),
    ensures
        text_lt(two_digits(a) + r1, two_digits(b) + r2),
{
    if a < b {
        lemma_two_digits_lt(a, b);
        lemma_lt_prefix_decides(two_digits(a), two_digits(b), r1, r2);
    } else {
        lemma_lt_same_prefix(two_digits(a), r1, r2);
    }
}

proof fn lemma_sep_order(c: char, r1: Seq<char>, r2: Seq<char>)
    requires
        text_lt(r1, r2),
    ensures
        text_lt(seq![c] + r1, seq![c] + r2),
{
    lemma_lt_same_prefix(seq![c], r1, r2);
}

proof fn lemma_time_of_day(s: nat)
    ensures
        s == 86400 * (s / 86400) + 3600 * ((s / 3600) % 24) + 60 * ((s / 60) % 60) + s % 60,
        (s / 3600) % 24 < 24,
        (s / 60) % 60 < 60,
        s % 60 < 60,
{
    let x = s as int;
    vstd::arithmetic::div_mod::lemma_div_denominator(x, 60, 60);
    vstd::arithmetic::div_mod::lemma_div_denominator(x, 3600, 24);
    vstd::arithmetic::div_mod::lemma_fundamental_div_mod(x / 3600, 24);
    vstd::arithmetic::div_mod::lemma_fundamental_div_mod(x / 60, 60);
    vstd::arithmetic::div_mod::lemma_fundamental_div_mod(x, 60);
}

/// Up to year 9999, a later instant renders as a text that sorts after the earlier
/// one's, character by character.
#[verifier::spinoff_prover]
#[verifier::rlimit(60)]
pub proof fn lemma_iso8601_ordered(s1: nat, s2: nat)
    requires
        s1 < s2,
        year_of(s2) < 10000,
    ensures
        text_lt(iso8601(s1), iso8601(s2)),
        iso8601(s1).len() == 20,
        iso8601(s2).len() == 20,
{
    let d1 = s1 / 86400;
    let d2 = s2 / 86400;
    vstd::arithmetic::div_mod::lemma_div_is_ordered(s1 as int, s2 as int, 86400);
    if d1 < d2 {
        lemma_year_and_day_mono(d1, d2, 1970);
    }
    let (y1, yd1) = year_and_day(d1, 1970);
    let (y2, yd2) = year_and_day(d2, 1970);
    assert(y1 <= y2);
    lemma_iso_as_tails(s1);
    lemma_iso_as_tails(s2);
    lemma_iso8601_fields(s1);
    lemma_iso8601_fields(s2);
    let (m1, md1) = month_and_day(yd1, 0, y1);
    let (m2, md2) = month_and_day(yd2, 0, y2);
    let h1 = (s1 / 3600) % 24;
    let h2 = (s2 / 3600) % 24;
    let mi1 = (s1 / 60) % 60;
    let mi2 = (s2 / 60) % 60;
    let c1 = s1 % 60;
    let c2 = s2 % 60;
    lemma_time_of_day(s1);
    lemma_time_of_day(s2);
    if y1 == y2 && yd1 < yd2 {
        lemma_month_and_day_mono(yd1, yd2, 0, y1);
    }
    if d1 == d2 && h1 == h2 && mi1 == mi2 {
        lemma_field_order(c1, c2, seq!['Z'], seq!['Z']);
    }
    if d1 == d2 && h1 == h2 && (mi1 < mi2 || (mi1 == mi2 && text_lt(iso_tail6(c1), iso_tail6(c2)))) {
        if mi1 == mi2 {
            lemma_sep_order(':', iso_tail6(c1), iso_tail6(c2));
        }
        lemma_field_order(mi1, mi2, seq![':'] + iso_tail6(c1), seq![':'] + iso_tail6(c2));
    }
    if d1 == d2 {
        if h1 == h2 {
            lemma_sep_order(':', iso_tail5(mi1, c1), iso_tail5(mi2, c2));
        }
        lemma_field_order(h1, h2, seq![':'] + iso_tail5(mi1, c1), seq![':'] + iso_tail5(mi2, c2));
        lemma_sep_order('T', iso_tail4(h1, mi1, c1), iso_tail4(h2, mi2, c2));
        lemma_field_order(md1 + 1, md2 + 1, seq!['T'] + iso_tail4(h1, mi1, c1), seq!['T'] + iso_tail4(h2, mi2, c2));
        lemma_sep_order('-', iso_tail3(md1 + 1, h1, mi1, c1), iso_tail3(md2 + 1, h2, mi2, c2));
        lemma_field_order(m1, m2, seq!['-'] + iso_tail3(md1 + 1, h1, mi1, c1), seq!['-'] + iso_tail3(md2 + 1, h2, mi2, c2));
        lemma_sep_order('-', iso_tail2(m1, md1 + 1, h1, mi1, c1), iso_tail2(m2, md2 + 1, h2, mi2, c2));
        lemma_field_order(
            y1 % 100,
            y2 % 100,
            seq!['-'] + iso_tail2(m1, md1 + 1, h1, mi1, c1),
            seq!['-'] + iso_tail2(m2, md2 + 1, h2, mi2, c2),
        );
        lemma_field_order(
            y1 / 100,
            y2 / 100,
            two_digits(y1 % 100) + (seq!['-'] + iso_tail2(m1, md1 + 1, h1, mi1, c1)),
            two_digits(y2 % 100) + (seq!['-'] + iso_tail2(m2, md2 + 1, h2, mi2, c2)),
        );
    } else if y1 == y2 {
        if m1 == m2 {
            lemma_field_order(md1 + 1, md2 + 1, seq!['T'] + iso_tail4(h1, mi1, c1), seq!['T'] + iso_tail4(h2, mi2, c2));
            lemma_sep_order('-', iso_tail3(md1 + 1, h1, mi1, c1), iso_tail3(md2 + 1, h2, mi2, c2));
        }
        lemma_field_order(m1, m2, seq!['-'] + iso_tail3(md1 + 1, h1, mi1, c1), seq!['-'] + iso_tail3(md2 + 1, h2, mi2, c2));
        lemma_sep_order('-', iso_tail2(m1, md1 + 1, h1, mi1, c1), iso_tail2(m2, md2 + 1, h2, mi2, c2));
        lemma_field_order(
            y1 % 100,
            y2 % 100,
            seq!['-'] + iso_tail2(m1, md1 + 1, h1, mi1, c1),
            seq!['-'] + iso_tail2(m2, md2 + 1, h2, mi2, c2),
        );
        lemma_field_order(
            y1 / 100,
            y2 / 100,
            two_digits(y1 % 100) + (seq!['-'] + iso_tail2(m1, md1 + 1, h1, mi1, c1)),
            two_digits(y2 % 100) + (seq!['-'] + iso_tail2(m2, md2 + 1, h2, mi2, c2)),
        );
    } else {
        if y1 / 100 == y2 / 100 {
            lemma_field_order(
                y1 % 100,
                y2 % 100,
                seq!['-'] + iso_tail2(m1, md1 + 1, h1, mi1, c1),
                seq!['-'] + iso_tail2(m2, md2 + 1, h2, mi2, c2),
            );
        }
        lemma_field_order(
            y1 / 100,
            y2 / 100,
            two_digits(y1 % 100) + (seq!['-'] + iso_tail2(m1, md1 + 1, h1, mi1, c1)),
            two_digits(y2 % 100) + (seq!['-'] + iso_tail2(m2, md2 + 1, h2, mi2, c2)),
        );
    }
}

} // verus!
