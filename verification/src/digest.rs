//! Digests and identifiers: SHA-256 of text in hex, and the stable identifiers that
//! exported findings carry.
use vstd::prelude::*;

use crate::text::{chars_of, push_str, string_of};

verus! {

// ---------------------------------------------------------------------------
// UTF-8
// ---------------------------------------------------------------------------

/// The UTF-8 encoding of one character.
pub open spec fn utf8_char(c: char) -> Seq<u8> {
    let u = c as u32;
    if u < 0x80 {
        seq![u as u8]
    } else if u < 0x800 {
        seq![(0xC0 + u / 64) as u8, (0x80 + u % 64) as u8]
    } else if u < 0x10000 {
        seq![(0xE0 + u / 4096) as u8, (0x80 + (u / 64) % 64) as u8, (0x80 + u % 64) as u8]
    } else {
        seq![
            (0xF0 + u / 262144) as u8,
            (0x80 + (u / 4096) % 64) as u8,
            (0x80 + (u / 64) % 64) as u8,
            (0x80 + u % 64) as u8,
        ]
    }
}

/// The UTF-8 encoding of a text (`str::as_bytes`).
pub open spec fn utf8(s: Seq<char>) -> Seq<u8>
    decreases s.len(),
{
    if s.len() == 0 {
        seq![]
    } else {
        utf8(s.drop_last()) + utf8_char(s.last())
    }
}

fn push_utf8_char(out: &mut Vec<u8>, c: char)
    ensures
        final(out)@ == old(out)@ + utf8_char(c),
{
    let u = c as u32;
    assert(u <= 0x10FFFF);
    if u < 0x80 {
        out.push(u as u8);
    } else if u < 0x800 {
        out.push((0xC0 + u / 64) as u8);
        out.push((0x80 + u % 64) as u8);
    } else if u < 0x10000 {
        out.push((0xE0 + u / 4096) as u8);
        out.push((0x80 + (u / 64) % 64) as u8);
        out.push((0x80 + u % 64) as u8);
    } else {
        out.push((0xF0 + u / 262144) as u8);
        out.push((0x80 + (u / 4096) % 64) as u8);
        out.push((0x80 + (u / 64) % 64) as u8);
        out.push((0x80 + u % 64) as u8);
    }
    assert(out@ =~= old(out)@ + utf8_char(c));
}

/// The UTF-8 bytes of a text.
pub fn utf8_bytes(s: &str) -> (r: Vec<u8>)
    ensures
        r@ == utf8(s@),
{
    let cs = chars_of(s);
    let mut out: Vec<u8> = Vec::new();
    let mut i: usize = 0;
    assert(cs@.take(0) =~= Seq::<char>::empty());
    while i < cs.len()
        invariant
            i <= cs@.len(),
            cs@ == s@,
            out@ == utf8(cs@.take(i as int)),
        decreases cs@.len() - i,
    {
        assert(cs@.take(i + 1).drop_last() =~= cs@.take(i as int));
        push_utf8_char(&mut out, cs[i]);
        i = i + 1;
    }
    assert(cs@.take(cs@.len() as int) =~= cs@);
    out
}

// ---------------------------------------------------------------------------
// Hex
// ---------------------------------------------------------------------------

pub open spec fn hex_digit(d: nat) -> char {
    if d < 10 {
        (48 + d) as char
    } else {
        (87 + d) as char
    }
}

/// Two lower-case hex digits per byte (`format!("{b:02x}")` for each).
pub open spec fn hex(bytes: Seq<u8>) -> Seq<char>
    decreases bytes.len(),
{
    if bytes.len() == 0 {
        seq![]
    } else {
        hex(bytes.drop_last()) + seq![
            hex_digit((bytes.last() / 16) as nat),
            hex_digit((bytes.last() % 16) as nat),
        ]
    }
}

fn hex_char(d: u8) -> (r: char)
    requires
        d < 16,
    ensures
        r == hex_digit(d as nat),
{
    if d < 10 {
        (48 + d) as char
    } else {
        (87 + d) as char
    }
}

/// Lower-case hex of bytes.
pub fn hex_lower(bytes: &Vec<u8>) -> (r: Vec<char>)
    ensures
        r@ == hex(bytes@),
{
    let mut out: Vec<char> = Vec::new();
    let mut i: usize = 0;
    assert(bytes@.take(0) =~= Seq::<u8>::empty());
    while i < bytes.len()
        invariant
            i <= bytes@.len(),
            out@ == hex(bytes@.take(i as int)),
        decreases bytes@.len() - i,
    {
        assert(bytes@.take(i + 1).drop_last() =~= bytes@.take(i as int));
        let b = bytes[i];
        out.push(hex_char(b / 16));
        out.push(hex_char(b % 16));
        assert(out@ =~= hex(bytes@.take(i + 1)));
        i = i + 1;
    }
    assert(bytes@.take(bytes@.len() as int) =~= bytes@);
    out
}

// ---------------------------------------------------------------------------
// SHA-256
// ---------------------------------------------------------------------------

/// The SHA-256 digest of a byte string.
pub uninterp spec fn sha256_of(data: Seq<u8>) -> Seq<u8>;

/// `Sha256::digest` from the `sha2` crate: the digest of the bytes, a function of the
/// bytes alone, 32 bytes long.  Which bytes it holds is not stated.
#[verifier::external_body]
fn sha256_digest(data: &Vec<u8>) -> (r: Vec<u8>)
    ensures
        r@ == sha256_of(data@),
        r@.len() == 32,
{
    <sha2::Sha256 as sha2::Digest>::digest(data.as_slice()).to_vec()
}

/// The SHA-256 digest of bytes as 64 lower-case hex digits.
pub fn sha256_hex(data: &Vec<u8>) -> (r: String)
    ensures
        r@ == hex(sha256_of(data@)),
        r@.len() == 64,
        forall|i: int| 0 <= i < r@.len() ==> (('0' <= #[trigger] r@[i] && r@[i] <= '9') || ('a' <= r@[i] && r@[i] <= 'f')),
{
    let d = sha256_digest(data);
    let h = hex_lower(&d);
    proof {
        lemma_hex_len(d@);
        lemma_hex_digits(d@);
    }
    string_of(&h)
}

proof fn lemma_hex_digits(b: Seq<u8>)
    ensures
        forall|i: int| 0 <= i < hex(b).len() ==> (('0' <= #[trigger] hex(b)[i] && hex(b)[i] <= '9') || ('a' <= hex(b)[i] && hex(b)[i] <= 'f')),
    decreases b.len(),
{
    if b.len() > 0 {
        lemma_hex_digits(b.drop_last());
        lemma_hex_len(b.drop_last());
        let x = b.last();
        assert((x / 16) < 16 && (x % 16) < 16) by (bit_vector);
        let prev = hex(b.drop_last());
        assert forall|i: int| 0 <= i < hex(b).len() implies (('0' <= #[trigger] hex(b)[i] && hex(b)[i] <= '9') || ('a' <= hex(b)[i] && hex(b)[i] <= 'f')) by {
            if i < prev.len() {
                assert(hex(b)[i] == prev[i]);
            }
        }
    }
}

proof fn lemma_hex_len(b: Seq<u8>)
    ensures
        hex(b).len() == 2 * b.len(),
    decreases b.len(),
{
    if b.len() > 0 {
        lemma_hex_len(b.drop_last());
    }
}

// ---------------------------------------------------------------------------
// Stable identifiers
// ---------------------------------------------------------------------------

/// The stable identifier of a finding: `wraithrun-` and the first 21 hex digits of the
/// SHA-256 of its title, `|` and its evidence field.
pub open spec fn stable_uid_spec(title: Seq<char>, field: Seq<char>) -> Seq<char> {
    "wraithrun-"@ + hex(sha256_of(utf8(title) + utf8("|"@) + utf8(field))).take(21)
}

/// The stable identifier of a finding (see [`stable_uid_spec`]).
pub fn stable_uid(title: &str, field: &str) -> (r: String)
    ensures
        r@ == stable_uid_spec(title@, field@),
{
    let mut bytes = utf8_bytes(title);
    let bar = utf8_bytes("|");
    let f = utf8_bytes(field);
    let mut i: usize = 0;
    let ghost t = bytes@;
    while i < bar.len()
        invariant
            i <= bar@.len(),
            bytes@ == t + bar@.take(i as int),
        decreases bar@.len() - i,
    {
        bytes.push(bar[i]);
        assert(bytes@ =~= t + bar@.take(i + 1));
        i = i + 1;
    }
    assert(bar@.take(bar@.len() as int) =~= bar@);
    let ghost tb = bytes@;
    let mut j: usize = 0;
    while j < f.len()
        invariant
            j <= f@.len(),
            bytes@ == tb + f@.take(j as int),
        decreases f@.len() - j,
    {
        bytes.push(f[j]);
        assert(bytes@ =~= tb + f@.take(j + 1));
        j = j + 1;
    }
    assert(f@.take(f@.len() as int) =~= f@);
    let h = sha256_hex(&bytes);
    let hc = chars_of(h.as_str());
    let mut out = chars_of("wraithrun-");
    let mut k: usize = 0;
    let ghost start = out@;
    while k < 21
        invariant
            k <= 21,
            hc@.len() == 64,
            out@ == start + hc@.take(k as int),
        decreases 21 - k,
    {
        out.push(hc[k]);
        assert(out@ =~= start + hc@.take(k + 1));
        k = k + 1;
    }
    string_of(&out)
}

/// The version-4 form of a digest prefix: the first 16 bytes with the version and
/// variant bits set.
pub open spec fn uuid_bytes_spec(d: Seq<u8>) -> Seq<u8> {
    d.take(16).update(6, (d[6] & 0x0f) | 0x40).update(8, (d[8] & 0x3f) | 0x80)
}

/// The identifier bytes carry the version-4 nibble and the RFC 4122 variant bits.
pub proof fn lemma_uuid_version_bits(d: Seq<u8>)
    requires
        d.len() >= 16,
    ensures
        uuid_bytes_spec(d).len() == 16,
        uuid_bytes_spec(d)[6] & 0xf0 == 0x40,
        uuid_bytes_spec(d)[8] & 0xc0 == 0x80,
{
    let b6 = d[6];
    let b8 = d[8];
    assert(((b6 & 0x0f) | 0x40) & 0xf0 == 0x40) by (bit_vector);
    assert(((b8 & 0x3f) | 0x80) & 0xc0 == 0x80) by (bit_vector);
}

/// The hyphenated lower-case text of 16 bytes: 8, 4, 4, 4 and 12 hex digits.
pub open spec fn uuid_text_spec(b: Seq<u8>) -> Seq<char> {
    hex(b.subrange(0, 4)) + "-"@ + hex(b.subrange(4, 6)) + "-"@ + hex(b.subrange(6, 8)) + "-"@
        + hex(b.subrange(8, 10)) + "-"@ + hex(b.subrange(10, 16))
}

/// A version-4 UUID in its hyphenated lower-case text: the text of 16 bytes whose
/// version nibble is 4 and whose variant bits are `10`.
pub open spec fn is_v4_uuid_text(s: Seq<char>) -> bool {
    exists|b: Seq<u8>|
        b.len() == 16 && b[6] & 0xf0 == 0x40 && b[8] & 0xc0 == 0x80 && s == #[trigger] uuid_text_spec(b)
}

/// The text of 16 bytes is 36 characters long: 32 hex digits and 4 hyphens.
pub proof fn lemma_uuid_text_len(b: Seq<u8>)
    requires
        b.len() == 16,
    ensures
        uuid_text_spec(b).len() == 36,
{
    lemma_hex_len(b.subrange(0, 4));
    lemma_hex_len(b.subrange(4, 6));
    lemma_hex_len(b.subrange(6, 8));
    lemma_hex_len(b.subrange(8, 10));
    lemma_hex_len(b.subrange(10, 16));
    reveal_strlit("-");
}

/// A version-4 UUID text is 36 characters long.
pub proof fn lemma_v4_uuid_text_len(s: Seq<char>)
    requires
        is_v4_uuid_text(s),
    ensures
        s.len() == 36,
{
    let b = choose|b: Seq<u8>|
        b.len() == 16 && b[6] & 0xf0 == 0x40 && b[8] & 0xc0 == 0x80 && s == #[trigger] uuid_text_spec(b);
    lemma_uuid_text_len(b);
}

/// `Uuid::from_bytes(..).to_string()` from the `uuid` crate: the hyphenated lower-case
/// hex text of the 16 bytes, as the crate documents its display form.
#[verifier::external_body]
fn uuid_text(bytes: &Vec<u8>) -> (r: String)
    requires
        bytes@.len() == 16,
    ensures
        r@ == uuid_text_spec(bytes@),
{
    let mut raw = [0u8; 16];
    raw.copy_from_slice(bytes.as_slice());
    uuid::Uuid::from_bytes(raw).to_string()
}

/// A deterministic version-4 UUID for a seed: the SHA-256 of the seed, cut to 16 bytes,
/// with the version and variant bits set.
pub fn deterministic_uuid(seed: &str) -> (r: String)
    ensures
        r@ == uuid_text_spec(uuid_bytes_spec(sha256_of(utf8(seed@)))),
{
    let data = utf8_bytes(seed);
    let d = sha256_digest(&data);
    let mut b: Vec<u8> = Vec::new();
    let mut i: usize = 0;
    while i < 16
        invariant
            i <= 16,
            d@.len() == 32,
            b@ == d@.take(i as int),
        decreases 16 - i,
    {
        b.push(d[i]);
        assert(b@ =~= d@.take(i + 1));
        i = i + 1;
    }
    let b6 = (b[6] & 0x0f) | 0x40;
    let b8 = (b[8] & 0x3f) | 0x80;
    b.set(6, b6);
    b.set(8, b8);
    assert(b@ =~= uuid_bytes_spec(d@));
    uuid_text(&b)
}

/// The seed of a finding's stable UUID: title, evidence field and tool, joined by `|`.
pub open spec fn uuid_seed(title: Seq<char>, field: Seq<char>, tool: Option<Seq<char>>) -> Seq<char> {
    title + "|"@ + field + "|"@ + match tool {
        Some(t) => t,
        None => seq![],
    }
}

/// The stable UUID of a finding (see [`uuid_seed`]).
pub fn stable_uuid(title: &str, field: &str, tool: &Option<String>) -> (r: String)
    ensures
        r@ == uuid_text_spec(uuid_bytes_spec(sha256_of(utf8(uuid_seed(title@, field@, match tool {
            Some(t) => Some(t@),
            None => None,
        }))))),
{
    let mut seed = chars_of(title);
    push_str(&mut seed, "|");
    push_str(&mut seed, field);
    push_str(&mut seed, "|");
    match tool {
        Some(t) => push_str(&mut seed, t.as_str()),
        None => {},
    }
    let s = string_of(&seed);
    deterministic_uuid(s.as_str())
}

} // verus!
