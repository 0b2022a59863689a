use vstd::prelude::*;

verus! {

/// Builds a `String` from a vector of characters (std `FromIterator<char>` for `String`).
#[verifier::external_body]
pub(crate) fn string_from_chars(chars: &Vec<char>) -> (res: String)
    ensures
        res@ == chars@,
{
    chars.iter().collect::<String>()
}

/// Seconds elapsed since the UNIX epoch on the system clock (`SystemTime::now`), 0 when
/// the clock reads earlier than the epoch.  Nothing is stated of the value: it is the time.
#[verifier::external_body]
pub(crate) fn unix_now_secs() -> (secs: u64) {
    std::time::SystemTime::now().duration_since(std::time::UNIX_EPOCH).map(|d| d.as_secs()).unwrap_or(0)
}

/// The Unicode lower-case mapping of a text, as `str::to_lowercase` computes it.
pub uninterp spec fn unicode_lowercase(s: Seq<char>) -> Seq<char>;

/// An ASCII text: every character below 128.
pub open spec fn is_ascii_text(s: Seq<char>) -> bool {
    forall|i: int| 0 <= i < s.len() ==> (#[trigger] s[i] as u32) < 128
}

/// `str::to_lowercase`: the result is the Unicode lower-case mapping of the text, which
/// depends on the text alone; on ASCII text the mapping lowers `A`..`Z` and keeps every
/// other character, as the Unicode case tables give for those characters.
#[verifier::external_body]
pub(crate) fn str_to_lowercase(s: &str) -> (res: String)
    ensures
        res@ == unicode_lowercase(s@),
        is_ascii_text(s@) ==> res@ == crate::text::ascii_lower(s@),
{
    s.to_lowercase()
}

/// The Unicode upper-case mapping of a text, as `str::to_uppercase` computes it.
pub uninterp spec fn unicode_uppercase(s: Seq<char>) -> Seq<char>;

/// `str::to_uppercase`: the result is the Unicode upper-case mapping of the text, which
/// depends on the text alone; on ASCII text the mapping raises `a`..`z` and keeps every
/// other character.
#[verifier::external_body]
pub(crate) fn str_to_uppercase(s: &str) -> (res: String)
    ensures
        res@ == unicode_uppercase(s@),
        is_ascii_text(s@) ==> res@ == crate::text::ascii_upper(s@),
{
    s.to_uppercase()
}

} // verus!
