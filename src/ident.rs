use vstd::prelude::*;

use crate::error::{option_view, DictError};
use sqlx::types::uuid::Error as UuidError;
use sqlx::types::Uuid;

verus! {

#[verifier::external_type_specification]
#[verifier::external_body]
pub struct ExUuidError(UuidError);

/// Whether `c` is an ASCII hexadecimal digit, in either case.
pub open spec fn is_hex_digit(c: char) -> bool {
    ('0' <= c && c <= '9') || ('a' <= c && c <= 'f') || ('A' <= c && c <= 'F')
}

/// The value of a hexadecimal digit.
pub open spec fn hex_value(c: char) -> int {
    if '0' <= c && c <= '9' {
        c as int - '0' as int
    } else if 'a' <= c && c <= 'f' {
        c as int - 'a' as int + 10
    } else {
        c as int - 'A' as int + 10
    }
}

/// The lowercase hexadecimal digit for `n` in `0..16`.
pub open spec fn hex_char(n: int) -> char {
    if n < 10 {
        (n + '0' as int) as char
    } else {
        (n - 10 + 'a' as int) as char
    }
}

pub open spec fn all_hex(d: Seq<char>) -> bool {
    forall|i: int| 0 <= i < d.len() ==> is_hex_digit(#[trigger] d[i])
}

/// The sixteen bytes that thirty-two hex digits spell, two digits a byte, high first.
pub open spec fn bytes_of_digits(d: Seq<char>) -> Seq<u8> {
    Seq::new(16, |j: int| (hex_value(d[2 * j]) * 16 + hex_value(d[2 * j + 1])) as u8)
}

/// The lowercase hex digits of `b`, two a byte, high first.
pub open spec fn digits_of_bytes(b: Seq<u8>) -> Seq<char> {
    Seq::new(
        2 * b.len(),
        |i: int|
            if i % 2 == 0 {
                hex_char(b[i / 2] as int / 16)
            } else {
                hex_char(b[i / 2] as int % 16)
            },
    )
}

/// Thirty-two digits in groups of 8-4-4-4-12, joined by hyphens.
pub open spec fn hyphenate(d: Seq<char>) -> Seq<char> {
    d.subrange(0, 8) + seq!['-'] + d.subrange(8, 12) + seq!['-'] + d.subrange(12, 16) + seq!['-']
        + d.subrange(16, 20) + seq!['-'] + d.subrange(20, 32)
}

/// The digits of a 36-character hyphenated form, hyphens left out.
pub open spec fn dehyphenate(s: Seq<char>) -> Seq<char> {
    s.subrange(0, 8) + s.subrange(9, 13) + s.subrange(14, 18) + s.subrange(19, 23) + s.subrange(
        24,
        36,
    )
}

/// `s` is 8-4-4-4-12 hex digits joined by hyphens.
pub open spec fn is_hyphenated_form(s: Seq<char>) -> bool {
    &&& s.len() == 36
    &&& s[8] == '-' && s[13] == '-' && s[18] == '-' && s[23] == '-'
    &&& all_hex(dehyphenate(s))
}

pub open spec fn ascii_lower(c: char) -> char {
    if 'A' <= c && c <= 'Z' {
        (c as int + 32) as char
    } else {
        c
    }
}

/// `p` is `urn:uuid:`, letters in either case.
pub open spec fn is_urn_prefix(p: Seq<char>) -> bool {
    &&& p.len() == 9
    &&& ascii_lower(p[0]) == 'u' && ascii_lower(p[1]) == 'r' && ascii_lower(p[2]) == 'n'
    &&& p[3] == ':'
    &&& ascii_lower(p[4]) == 'u' && ascii_lower(p[5]) == 'u' && ascii_lower(p[6]) == 'i'
    &&& ascii_lower(p[7]) == 'd'
    &&& p[8] == ':'
}

/// The texts that the uuid parser accepts: 32 hex digits, the hyphenated
/// form, the hyphenated form in braces, or it behind a `urn:uuid:` prefix.
pub open spec fn is_id_text(s: Seq<char>) -> bool {
    ||| s.len() == 32 && all_hex(s)
    ||| is_hyphenated_form(s)
    ||| s.len() == 38 && s[0] == '{' && s[37] == '}' && is_hyphenated_form(s.subrange(1, 37))
    ||| s.len() == 45 && is_urn_prefix(s.subrange(0, 9)) && is_hyphenated_form(s.subrange(9, 45))
}

/// The thirty-two digits of an accepted text.
pub open spec fn id_text_digits(s: Seq<char>) -> Seq<char> {
    if s.len() == 32 {
        s
    } else if s.len() == 36 {
        dehyphenate(s)
    } else if s.len() == 38 {
        dehyphenate(s.subrange(1, 37))
    } else {
        dehyphenate(s.subrange(9, 45))
    }
}

/// The identifier bytes that an accepted text denotes.
pub open spec fn id_text_bytes(s: Seq<char>) -> Seq<u8> {
    bytes_of_digits(id_text_digits(s))
}

/// The canonical text of an identifier: lowercase, hyphenated.
pub open spec fn id_text(b: Seq<u8>) -> Seq<char> {
    hyphenate(digits_of_bytes(b))
}

/// Relies on `Uuid::as_hyphenated` and its `Display`: lowercase hex digits,
/// two a byte in order, in groups of 8-4-4-4-12 joined by hyphens.
#[verifier::external_body]
fn uuid_hyphenated(bytes: [u8; 16]) -> (r: String)
    ensures
        r@ == id_text(bytes@),
{
    Uuid::from_bytes(bytes).as_hyphenated().to_string()
}

/// Relies on `Uuid::parse_str`: it accepts the simple, hyphenated, braced and
/// URN forms with hex digits of either case, and rejects all other text. It
/// measures the UTF-8 bytes; every accepted form is ASCII, so measuring
/// characters accepts the same texts.
#[verifier::external_body]
fn uuid_parse(s: &str) -> (r: Result<[u8; 16], UuidError>)
    ensures
        r is Ok <==> is_id_text(s@),
        r matches Ok(b) ==> b@ == id_text_bytes(s@),
{
    match Uuid::parse_str(s) {
        Ok(u) => Ok(u.into_bytes()),
        Err(e) => Err(e),
    }
}

/// A 128-bit identifier in its canonical binary form.
#[derive(Clone, Copy, Debug, PartialEq, Eq, Hash, PartialOrd, Ord)]
pub struct Ident {
    bytes: [u8; 16],
}

impl View for Ident {
    type V = Seq<u8>;

    closed spec fn view(&self) -> Seq<u8> {
        self.bytes@
    }
}

/// The all-zero identifier.
pub open spec fn nil_bytes() -> Seq<u8> {
    Seq::new(16, |i: int| 0u8)
}

impl Ident {
    /// The all-zero placeholder: it marks "unset" and refers to nothing.
    pub fn nil() -> (r: Ident)
        ensures
            r@ == nil_bytes(),
    {
        let r = Ident { bytes: [0u8; 16] };
        assert(r@ =~= nil_bytes());
        r
    }

    pub fn from_bytes(bytes: [u8; 16]) -> (r: Ident)
        ensures
            r@ == bytes@,
    {
        Ident { bytes }
    }

    pub fn to_bytes(&self) -> (r: [u8; 16])
        ensures
            r@ == self@,
    {
        self.bytes
    }

    /// Whether this is the nil placeholder.
    pub fn is_nil(&self) -> (r: bool)
        ensures
            r == (self@ == nil_bytes()),
    {
        let mut i: usize = 0;
        while i < 16
            invariant
                i <= 16,
                self@.len() == 16,
                forall|k: int| 0 <= k < i ==> self@[k] == 0,
            decreases 16 - i,
        {
            if self.bytes[i] != 0 {
                assert(self@ != nil_bytes()) by {
                    assert(nil_bytes()[i as int] == 0);
                }
                return false;
            }
            i = i + 1;
        }
        assert(self@ =~= nil_bytes());
        true
    }

    /// The canonical text: lowercase hex in hyphenated groups, 36 characters.
    pub fn to_text(&self) -> (r: String)
        ensures
            r@ == id_text(self@),
            r@.len() == 36,
    {
        uuid_hyphenated(self.bytes)
    }

    /// Reads an identifier from text; any text that is not one of the
    /// accepted encodings is `MalformedIdentifier`.
    pub fn parse(s: &str) -> (r: Result<Ident, DictError>)
        ensures
            r is Ok <==> is_id_text(s@),
            r matches Ok(i) ==> i@ == id_text_bytes(s@),
            r matches Err(e) ==> e == DictError::MalformedIdentifier,
    {
        match uuid_parse(s) {
            Ok(bytes) => Ok(Ident { bytes }),
            Err(_) => Err(DictError::MalformedIdentifier),
        }
    }
}

/// An identifier is sixteen bytes.
pub proof fn lemma_ident_len(x: Ident)
    ensures
        x@.len() == 16,
{
}

/// Every identifier's canonical text is accepted by `parse`, and reading it
/// back gives the same identifier.
pub proof fn lemma_text_round_trip(x: Ident)
    ensures
        is_id_text(id_text(x@)),
        id_text_bytes(id_text(x@)) == x@,
{
    let b = x@;
    assert(b.len() == 16);
    let d = digits_of_bytes(b);
    let t = hyphenate(d);
    assert(t.len() == 36);
    assert(dehyphenate(t) =~= d);
    assert forall|i: int| 0 <= i < d.len() implies is_hex_digit(#[trigger] d[i]) by {
        let n = if i % 2 == 0 { b[i / 2] as int / 16 } else { b[i / 2] as int % 16 };
        assert(0 <= n < 16);
    }
    assert(is_hyphenated_form(t));
    assert forall|j: int| 0 <= j < 16 implies #[trigger] bytes_of_digits(d)[j] == b[j] by {
        let v = b[j] as int;
        assert(2 * j / 2 == j && (2 * j + 1) / 2 == j);
        assert((2 * j) % 2 == 0 && (2 * j + 1) % 2 == 1);
        assert(hex_value(d[2 * j]) == v / 16);
        assert(hex_value(d[2 * j + 1]) == v % 16);
    }
    assert(bytes_of_digits(d) =~= b);
}

/// The text of an optional identifier.
pub open spec fn opt_id_text(o: Option<Seq<u8>>) -> Option<Seq<char>> {
    match o {
        Some(b) => Some(id_text(b)),
        None => None,
    }
}

/// An absent identifier needs no parse; a present one must parse.
pub open spec fn opt_id_valid(o: Option<Seq<char>>) -> bool {
    match o {
        Some(t) => is_id_text(t),
        None => true,
    }
}

pub open spec fn opt_id_bytes(o: Option<Seq<char>>) -> Option<Seq<u8>> {
    match o {
        Some(t) => Some(id_text_bytes(t)),
        None => None,
    }
}

/// Projects an optional identifier, keeping absence.
pub fn text_of_opt(o: Option<Ident>) -> (r: Option<String>)
    ensures
        option_view(r) == opt_id_text(option_view(o)),
{
    match o {
        Some(i) => Some(i.to_text()),
        None => None,
    }
}

/// Lifts an optional identifier; absence passes through without a parse.
pub fn parse_opt(o: Option<String>) -> (r: Result<Option<Ident>, DictError>)
    ensures
        r is Ok <==> opt_id_valid(option_view(o)),
        r matches Ok(p) ==> option_view(p) == opt_id_bytes(option_view(o)),
        r matches Err(e) ==> e == DictError::MalformedIdentifier,
{
    match o {
        Some(t) => {
            let i = Ident::parse(t.as_str())?;
            Ok(Some(i))
        },
        None => Ok(None),
    }
}

/// The round trip of an optional identifier.
pub proof fn lemma_opt_text_round_trip(o: Option<Ident>)
    ensures
        opt_id_valid(opt_id_text(option_view(o))),
        opt_id_bytes(opt_id_text(option_view(o))) == option_view(o),
{
    if let Some(i) = o {
        lemma_text_round_trip(i);
    }
}

/// The characters that can stand in an accepted text: hex digits, hyphens,
/// braces, and the letters and colon of a `urn:uuid:` prefix.
pub open spec fn in_id_alphabet(c: char) -> bool {
    ||| is_hex_digit(c)
    ||| c == '-' || c == '{' || c == '}' || c == ':'
    ||| ascii_lower(c) == 'u' || ascii_lower(c) == 'r' || ascii_lower(c) == 'n' || ascii_lower(c)
        == 'i'
}

proof fn lemma_hyphenated_alphabet(t: Seq<char>)
    requires
        is_hyphenated_form(t),
    ensures
        forall|i: int| 0 <= i < t.len() ==> in_id_alphabet(#[trigger] t[i]),
{
    let d = dehyphenate(t);
    assert forall|i: int| 0 <= i < t.len() implies in_id_alphabet(#[trigger] t[i]) by {
        if i < 8 {
            assert(d[i] == t[i]);
        } else if 8 < i < 13 {
            assert(d[i - 1] == t[i]);
        } else if 13 < i < 18 {
            assert(d[i - 2] == t[i]);
        } else if 18 < i < 23 {
            assert(d[i - 3] == t[i]);
        } else if 23 < i {
            assert(d[i - 4] == t[i]);
        }
    }
}

/// Text of a length that no form has, or with a character that no form
/// uses, is not an identifier: `parse` rejects it.
pub proof fn lemma_malformed_rejected(s: Seq<char>)
    requires
        (s.len() != 32 && s.len() != 36 && s.len() != 38 && s.len() != 45) || exists|i: int|
            0 <= i < s.len() && !in_id_alphabet(#[trigger] s[i]),
    ensures
        !is_id_text(s),
{
    if is_id_text(s) {
        if s.len() == 32 {
            assert(forall|i: int| 0 <= i < s.len() ==> in_id_alphabet(#[trigger] s[i]));
        } else if s.len() == 36 {
            lemma_hyphenated_alphabet(s);
        } else if s.len() == 38 {
            let t = s.subrange(1, 37);
            lemma_hyphenated_alphabet(t);
            assert forall|i: int| 0 <= i < s.len() implies in_id_alphabet(#[trigger] s[i]) by {
                if 1 <= i < 37 {
                    assert(t[i - 1] == s[i]);
                }
            }
        } else {
            let p = s.subrange(0, 9);
            let t = s.subrange(9, 45);
            lemma_hyphenated_alphabet(t);
            assert forall|i: int| 0 <= i < s.len() implies in_id_alphabet(#[trigger] s[i]) by {
                if i < 9 {
                    assert(p[i] == s[i]);
                } else {
                    assert(t[i - 9] == s[i]);
                }
            }
        }
    }
}

} // verus!
