//! UUID text forms: what `uuid::Uuid::parse_str` accepts, what
//! `Uuid::to_string` writes, and fresh random identifiers.
use vstd::prelude::*;
use crate::text::push_char;

verus! {

/// The value of a hexadecimal digit, in either case.
pub open spec fn hex_value(c: char) -> Option<int> {
    if '0' <= c && c <= '9' {
        Some(c as int - '0' as int)
    } else if 'a' <= c && c <= 'f' {
        Some(c as int - 'a' as int + 10)
    } else if 'A' <= c && c <= 'F' {
        Some(c as int - 'A' as int + 10)
    } else {
        None
    }
}

/// Thirty-two hex digits read as sixteen bytes, high nibble first.
pub open spec fn decode_hex32(h: Seq<char>) -> Option<Seq<u8>> {
    if h.len() == 32 && forall|i: int| 0 <= i < 32 ==> (#[trigger] hex_value(h[i])) is Some {
        Some(
            Seq::new(
                16,
                |j: int|
                    (hex_value(h[2 * j]).unwrap() * 16 + hex_value(h[2 * j + 1]).unwrap()) as u8,
            ),
        )
    } else {
        None
    }
}

/// The positions of the four hyphens in the 36-character form.
pub open spec fn is_hyphen_position(k: int) -> bool {
    k == 8 || k == 13 || k == 18 || k == 23
}

/// Where the `j`-th hex digit stands in the 36-character form.
pub open spec fn hex_position(j: int) -> int {
    if j < 8 {
        j
    } else if j < 12 {
        j + 1
    } else if j < 16 {
        j + 2
    } else if j < 20 {
        j + 3
    } else {
        j + 4
    }
}

/// How many hyphens precede position `k` of the 36-character form.
pub open spec fn hyphens_before(k: int) -> int {
    if k < 8 {
        0
    } else if k < 13 {
        1
    } else if k < 18 {
        2
    } else if k < 23 {
        3
    } else {
        4
    }
}

/// The 8-4-4-4-12 form: hyphens at 8, 13, 18 and 23, hex digits elsewhere.
pub open spec fn parse_hyphenated(s: Seq<char>) -> Option<Seq<u8>> {
    if s.len() == 36 && forall|k: int| #[trigger] is_hyphen_position(k) ==> s[k] == '-' {
        decode_hex32(Seq::new(32, |j: int| s[hex_position(j)]))
    } else {
        None
    }
}

/// ASCII lower-casing of one character.
pub open spec fn ascii_lower(c: char) -> char {
    if 'A' <= c && c <= 'Z' {
        (c as int + 32) as char
    } else {
        c
    }
}

pub open spec fn urn_prefix() -> Seq<char> {
    seq!['u', 'r', 'n', ':', 'u', 'u', 'i', 'd', ':']
}

/// The sixteen bytes that `Uuid::parse_str` reads from `s`, if it accepts
/// it: 32 hex digits; the hyphenated form; the hyphenated form in braces;
/// or `urn:uuid:` (in any case) followed by the hyphenated form.
pub open spec fn uuid_text_bytes(s: Seq<char>) -> Option<Seq<u8>> {
    if s.len() == 32 {
        decode_hex32(s)
    } else if s.len() == 36 {
        parse_hyphenated(s)
    } else if s.len() == 38 && s[0] == '{' && s[37] == '}' {
        parse_hyphenated(s.subrange(1, 37))
    } else if s.len() == 45 && forall|i: int|
        0 <= i < 9 ==> ascii_lower(#[trigger] s[i]) == urn_prefix()[i] {
        parse_hyphenated(s.skip(9))
    } else {
        None
    }
}

/// A lowercase hexadecimal digit for a value below sixteen.
pub open spec fn hex_lower_char(n: int) -> char {
    if n < 10 {
        ('0' as int + n) as char
    } else {
        ('a' as int + n - 10) as char
    }
}

/// The `j`-th nibble of a byte string, high nibble of each byte first.
pub open spec fn nibble(b: Seq<u8>, j: int) -> int {
    if j % 2 == 0 {
        b[j / 2] as int / 16
    } else {
        b[j / 2] as int % 16
    }
}

/// The text `Uuid::to_string` writes: lowercase hex in the 8-4-4-4-12 form.
pub open spec fn uuid_hyphenated(b: Seq<u8>) -> Seq<char> {
    Seq::new(
        36,
        |k: int|
            if is_hyphen_position(k) {
                '-'
            } else {
                hex_lower_char(nibble(b, k - hyphens_before(k)))
            },
    )
}

/// Whether sixteen bytes carry the version-4 and RFC 4122 variant bits.
pub open spec fn is_v4_bytes(b: Seq<u8>) -> bool {
    &&& b.len() == 16
    &&& b[6] / 16 == 4
    &&& b[8] / 64 == 2
}

#[verifier::external_type_specification]
#[verifier::external_body]
pub struct ExUuidError(uuid::Error);

/// `uuid::Uuid::parse_str`: accepts exactly the texts described by
/// `uuid_text_bytes` and yields those bytes.
#[verifier::external_body]
pub(crate) fn uuid_parse_str(s: &str) -> (r: Result<[u8; 16], uuid::Error>)
    ensures
        r is Ok <==> uuid_text_bytes(s@) is Some,
        r matches Ok(b) ==> uuid_text_bytes(s@) == Some(b@),
{
    match uuid::Uuid::parse_str(s) {
        Ok(u) => Ok(u.into_bytes()),
        Err(e) => Err(e),
    }
}

/// `uuid::Uuid::new_v4`: random bytes with the version-4 and variant bits
/// set; nothing else is known of them.
#[verifier::external_body]
pub(crate) fn uuid_new_v4() -> (r: [u8; 16])
    ensures
        is_v4_bytes(r@),
{
    uuid::Uuid::new_v4().into_bytes()
}

/// The lowercase hex digit for a value below sixteen.
fn hex_digit_char(n: u8) -> (c: char)
    requires
        n < 16,
    ensures
        c == hex_lower_char(n as int),
{
    if n < 10 {
        (48u8 + n) as char
    } else {
        (87u8 + n) as char
    }
}

/// The hyphenated lowercase text of sixteen bytes, as `Uuid::to_string`
/// writes it: two hex digits per byte, high nibble first, with a hyphen
/// before bytes 4, 6, 8 and 10.
pub fn uuid_to_string(b: &[u8; 16]) -> (r: String)
    ensures
        r@ == uuid_hyphenated(b@),
{
    let mut s = String::new();
    let mut i: usize = 0;
    while i < 16
        invariant
            i <= 16,
            s@.len() == written_before(i as int),
            forall|k: int| 0 <= k < s@.len() ==> s@[k] == #[trigger] uuid_hyphenated(b@)[k],
        decreases 16 - i,
    {
        if i == 4 || i == 6 || i == 8 || i == 10 {
            push_char(&mut s, '-');
        }
        let byte = b[i];
        let k0: Ghost<int> = Ghost(s@.len() as int);
        assert(k0@ - hyphens_before(k0@) == 2 * i);
        push_char(&mut s, hex_digit_char(byte / 16));
        assert(k0@ + 1 - hyphens_before(k0@ + 1) == 2 * i + 1);
        push_char(&mut s, hex_digit_char(byte % 16));
        i += 1;
    }
    assert(s@ =~= uuid_hyphenated(b@));
    s
}

/// How many characters are written before byte `i`'s digits.
pub open spec fn written_before(i: int) -> int {
    2 * i + (if i > 4 { 1int } else { 0 }) + (if i > 6 { 1int } else { 0 }) + (if i > 8 {
        1int
    } else {
        0
    }) + (if i > 10 { 1int } else { 0 })
}

proof fn lemma_hex_char_value(n: int)
    requires
        0 <= n < 16,
    ensures
        hex_value(hex_lower_char(n)) == Some(n),
{
}

/// Parsing the text that formatting writes gives back the same bytes.
pub proof fn lemma_uuid_text_round_trip(b: Seq<u8>)
    requires
        b.len() == 16,
    ensures
        uuid_text_bytes(uuid_hyphenated(b)) == Some(b),
{
    let s = uuid_hyphenated(b);
    let h = Seq::new(32, |j: int| s[hex_position(j)]);
    assert forall|j: int| 0 <= j < 32 implies h[j] == hex_lower_char(#[trigger] nibble(b, j)) by {
        assert(!is_hyphen_position(hex_position(j)));
        assert(hex_position(j) - hyphens_before(hex_position(j)) == j);
    }
    assert forall|i: int| 0 <= i < 32 implies (#[trigger] hex_value(h[i])) == Some(nibble(b, i)) by {
        assert(h[i] == hex_lower_char(nibble(b, i)));
        lemma_hex_char_value(nibble(b, i));
    }
    let d = decode_hex32(h);
    assert(d is Some);
    assert forall|j: int| 0 <= j < 16 implies #[trigger] d.unwrap()[j] == b[j] by {
        assert(hex_value(h[2 * j]) == Some(nibble(b, 2 * j)));
        assert(hex_value(h[2 * j + 1]) == Some(nibble(b, 2 * j + 1)));
        assert((2 * j) % 2 == 0 && (2 * j) / 2 == j);
        assert((2 * j + 1) % 2 == 1 && (2 * j + 1) / 2 == j);
    }
    assert(d.unwrap() =~= b);
}

} // verus!
