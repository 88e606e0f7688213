//! The textual forms of a UUID, with the UUID itself held as a `u128`.
//!
//! Parsing and formatting are done by the `uuid` crate; this module states
//! what both compute and proves that parsing undoes formatting.

use vstd::prelude::*;

verus! {

/// The value of one hexadecimal digit, in either case.
pub open spec fn hex_value(c: char) -> Option<int> {
    let n = c as int;
    if 0x30 <= n <= 0x39 {
        Some(n - 0x30)
    } else if 0x61 <= n <= 0x66 {
        Some(n - 0x61 + 10)
    } else if 0x41 <= n <= 0x46 {
        Some(n - 0x41 + 10)
    } else {
        None
    }
}

/// The number that a run of hexadecimal digits writes, most significant
/// digit first; `None` if a character is no such digit.
pub open spec fn hex_digits_value(s: Seq<char>) -> Option<int>
    decreases s.len(),
{
    if s.len() == 0 {
        Some(0)
    } else {
        match (hex_digits_value(s.drop_last()), hex_value(s.last())) {
            (Some(high), Some(low)) => Some(high * 16 + low),
            _ => None,
        }
    }
}

/// The lower-case hexadecimal digit of a value below 16.
pub open spec fn hex_char(d: int) -> char {
    if d < 10 {
        (0x30 + d) as char
    } else {
        (0x61 + d - 10) as char
    }
}

/// The `n` least significant hexadecimal digits of `v`, lower case, most
/// significant first.
pub open spec fn hex_text(v: int, n: nat) -> Seq<char>
    decreases n,
{
    if n == 0 {
        Seq::empty()
    } else {
        hex_text(v / 16, (n - 1) as nat).push(hex_char(v % 16))
    }
}

/// 16 to the power `n`.
pub open spec fn pow16(n: nat) -> int
    decreases n,
{
    if n == 0 {
        1
    } else {
        16 * pow16((n - 1) as nat)
    }
}

/// Breaks 32 digits into the groups 8-4-4-4-12, joined by hyphens.
pub open spec fn with_hyphens(h: Seq<char>) -> Seq<char> {
    h.subrange(0, 8) + seq!['-'] + h.subrange(8, 12) + seq!['-'] + h.subrange(12, 16) + seq!['-']
        + h.subrange(16, 20) + seq!['-'] + h.subrange(20, 32)
}

/// The 32 characters of a 36-character text that stand between the hyphen
/// positions.
pub open spec fn without_hyphens(s: Seq<char>) -> Seq<char> {
    s.subrange(0, 8) + s.subrange(9, 13) + s.subrange(14, 18) + s.subrange(19, 23) + s.subrange(
        24,
        36,
    )
}

/// The value of a 36-character hyphenated UUID text.
pub open spec fn hyphenated_value(s: Seq<char>) -> Option<int> {
    if s.len() == 36 && s[8] == '-' && s[13] == '-' && s[18] == '-' && s[23] == '-' {
        hex_digits_value(without_hyphens(s))
    } else {
        None
    }
}

/// Whether `p` is `urn:uuid:`, letters in either case.
pub open spec fn is_urn_prefix(p: Seq<char>) -> bool {
    &&& p.len() == 9
    &&& (p[0] == 'u' || p[0] == 'U')
    &&& (p[1] == 'r' || p[1] == 'R')
    &&& (p[2] == 'n' || p[2] == 'N')
    &&& p[3] == ':'
    &&& (p[4] == 'u' || p[4] == 'U')
    &&& (p[5] == 'u' || p[5] == 'U')
    &&& (p[6] == 'i' || p[6] == 'I')
    &&& (p[7] == 'd' || p[7] == 'D')
    &&& p[8] == ':'
}

/// The value that a UUID text writes, in any of the four accepted shapes:
/// 32 bare digits, the hyphenated form, the hyphenated form in braces, and
/// the hyphenated form behind `urn:uuid:`.
pub open spec fn uuid_text_value(s: Seq<char>) -> Option<int> {
    if s.len() == 32 {
        hex_digits_value(s)
    } else if s.len() == 36 {
        hyphenated_value(s)
    } else if s.len() == 38 && s[0] == '{' && s[37] == '}' {
        hyphenated_value(s.subrange(1, 37))
    } else if s.len() == 45 && is_urn_prefix(s.subrange(0, 9)) {
        hyphenated_value(s.subrange(9, 45))
    } else {
        None
    }
}

/// The UUID that a text writes, if it writes one.
pub open spec fn uuid_from_text(s: Seq<char>) -> Option<u128> {
    match uuid_text_value(s) {
        Some(v) => Some(v as u128),
        None => None,
    }
}

/// The canonical text of a UUID: hyphenated, lower case.
pub open spec fn uuid_text(u: u128) -> Seq<char> {
    with_hyphens(hex_text(u as int, 32))
}

/// Whether a UUID carries the marks of a random UUID: version 4 in the
/// thirteenth digit and the variant bits `10` at the top of the seventeenth.
pub open spec fn is_version4(u: u128) -> bool {
    u & 0xF000_C000_0000_0000_0000 == 0x4000_8000_0000_0000_0000
}

/// A digit's character is read back as the digit.
pub proof fn lemma_hex_char_value(d: int)
    requires
        0 <= d < 16,
    ensures
        hex_value(hex_char(d)) == Some(d),
        hex_char(d) != '_',
        hex_char(d) != '-',
{
}

/// `hex_text` yields `n` characters, each the digit of a value below 16.
pub proof fn lemma_hex_text_chars(v: int, n: nat)
    requires
        0 <= v,
    ensures
        hex_text(v, n).len() == n,
        forall|i: int| 0 <= i < n ==> hex_value(#[trigger] hex_text(v, n)[i]) is Some,
        forall|i: int| 0 <= i < n ==> #[trigger] hex_text(v, n)[i] != '_',
        forall|i: int| 0 <= i < n ==> #[trigger] hex_text(v, n)[i] != '-',
    decreases n,
{
    if n > 0 {
        lemma_hex_text_chars(v / 16, (n - 1) as nat);
        lemma_hex_char_value(v % 16);
    }
}

/// A run of digits writes a value below 16 to the power of its length.
pub proof fn lemma_hex_digits_value_bound(s: Seq<char>)
    ensures
        hex_digits_value(s) matches Some(v) ==> 0 <= v < pow16(s.len()),
    decreases s.len(),
{
    if s.len() > 0 {
        lemma_hex_digits_value_bound(s.drop_last());
    }
}

/// The value that a UUID text writes fits in 128 bits.
pub proof fn lemma_uuid_text_value_fits(s: Seq<char>)
    ensures
        uuid_text_value(s) matches Some(v) ==> 0 <= v <= u128::MAX,
{
    lemma_pow16_32();
    lemma_hex_digits_value_bound(s);
    if s.len() >= 36 {
        lemma_hex_digits_value_bound(without_hyphens(s));
        if s.len() == 38 {
            lemma_hex_digits_value_bound(without_hyphens(s.subrange(1, 37)));
        }
        if s.len() == 45 {
            lemma_hex_digits_value_bound(without_hyphens(s.subrange(9, 45)));
        }
    }
}

/// Reading the `n` digits of a value below 16 to the `n` gives the value.
pub proof fn lemma_hex_round_trip(v: int, n: nat)
    requires
        0 <= v < pow16(n),
    ensures
        hex_digits_value(hex_text(v, n)) == Some(v),
    decreases n,
{
    if n > 0 {
        let rest = hex_text(v / 16, (n - 1) as nat);
        lemma_hex_text_chars(v / 16, (n - 1) as nat);
        lemma_hex_round_trip(v / 16, (n - 1) as nat);
        lemma_hex_char_value(v % 16);
        assert(hex_text(v, n).drop_last() == rest);
        assert(hex_text(v, n).last() == hex_char(v % 16));
    }
}

/// 16 to the 32 is 2 to the 128.
pub proof fn lemma_pow16_32()
    ensures
        pow16(32) == 0x1_0000_0000_0000_0000_0000_0000_0000_0000,
{
    reveal_with_fuel(pow16, 33);
}

/// The canonical text has 36 characters, none of them an underscore, and
/// its first hyphen stands at position 8.
pub proof fn lemma_uuid_text_shape(u: u128)
    ensures
        uuid_text(u).len() == 36,
        forall|i: int| 0 <= i < 36 ==> #[trigger] uuid_text(u)[i] != '_',
        forall|i: int| 0 <= i < 8 ==> #[trigger] uuid_text(u)[i] != '-',
        uuid_text(u)[8] == '-',
        without_hyphens(uuid_text(u)) == hex_text(u as int, 32),
{
    let h = hex_text(u as int, 32);
    lemma_hex_text_chars(u as int, 32);
    assert(without_hyphens(with_hyphens(h)) =~= h);
    assert forall|i: int| 0 <= i < 36 implies #[trigger] uuid_text(u)[i] != '_' by {
        if i < 8 {
            assert(uuid_text(u)[i] == h[i]);
        } else if i == 8 {
        } else if i < 13 {
            assert(uuid_text(u)[i] == h[i - 1]);
        } else if i == 13 {
        } else if i < 18 {
            assert(uuid_text(u)[i] == h[i - 2]);
        } else if i == 18 {
        } else if i < 23 {
            assert(uuid_text(u)[i] == h[i - 3]);
        } else if i == 23 {
        } else {
            assert(uuid_text(u)[i] == h[i - 4]);
        }
    }
    assert forall|i: int| 0 <= i < 8 implies #[trigger] uuid_text(u)[i] != '-' by {
        assert(uuid_text(u)[i] == h[i]);
    }
}

/// Parsing the canonical text of a UUID gives that UUID back.
pub proof fn lemma_uuid_text_round_trip(u: u128)
    ensures
        uuid_from_text(uuid_text(u)) == Some(u),
{
    lemma_uuid_text_shape(u);
    lemma_pow16_32();
    lemma_hex_round_trip(u as int, 32);
    let s = uuid_text(u);
    assert(s[13] == '-' && s[18] == '-' && s[23] == '-');
}

/// Two texts that write the same UUID in canonical form are the same text.
pub proof fn lemma_uuid_text_injective(u: u128, v: u128)
    requires
        uuid_text(u) == uuid_text(v),
    ensures
        u == v,
{
    lemma_uuid_text_round_trip(u);
    lemma_uuid_text_round_trip(v);
}

/// Parses a UUID text with `uuid::Uuid::parse_str`. The contract says which
/// texts that function accepts and which value it reads from each: 32 bare
/// hexadecimal digits, the 8-4-4-4-12 hyphenated form, that form in braces or
/// behind `urn:uuid:`, digits and prefix letters in either case.
#[verifier::external_body]
pub(crate) fn parse_uuid(s: &str) -> (r: Option<u128>)
    ensures
        r == uuid_from_text(s@),
{
    match uuid::Uuid::parse_str(s) {
        Ok(u) => Some(u.as_u128()),
        Err(_) => None,
    }
}

/// Formats a UUID with the `Display` impl of `uuid::Uuid`, which writes the
/// hyphenated form in lower case.
#[verifier::external_body]
pub(crate) fn format_uuid(u: u128) -> (r: String)
    ensures
        r@ == uuid_text(u),
{
    uuid::Uuid::from_u128(u).to_string()
}

/// Draws a fresh UUID with `uuid::Uuid::new_v4`. The value is random; all
/// that is promised of it is that it carries the version and variant marks
/// that the function sets on every value.
#[verifier::external_body]
pub(crate) fn random_uuid() -> (r: u128)
    ensures
        is_version4(r),
{
    uuid::Uuid::new_v4().as_u128()
}

} // verus!
