//! Character- and byte-level vocabulary of header extraction.
//!
//! Header *names* are compared ASCII-case-insensitively and are restricted to
//! the token characters HTTP allows in a field name; header *values* are raw
//! bytes that decode to text exactly when every byte is printable ASCII (or a
//! tab). The spec functions here say both precisely, so that the contracts of
//! lookup, decoding and parsing can be stated over plain sequences.

use vstd::prelude::*;

verus! {

/// ASCII lowercasing of a single character: the letters `A`..`Z` map to
/// `a`..`z`, everything else is unchanged.
pub open spec fn lower_char(c: char) -> char {
    if 'A' <= c && c <= 'Z' {
        (((c as u32) + 32) as u8) as char
    } else {
        c
    }
}

/// ASCII lowercasing of a whole name.
pub open spec fn lower(s: Seq<char>) -> Seq<char> {
    s.map_values(|c: char| lower_char(c))
}

/// Whether `c` may appear in an HTTP header field name: a letter (either
/// case), a digit, or one of the token punctuation characters.
pub open spec fn is_header_name_char(c: char) -> bool {
    ('a' <= c && c <= 'z') || ('A' <= c && c <= 'Z') || ('0' <= c && c <= '9') || c == '!'
        || c == '#' || c == '$' || c == '%' || c == '&' || c == '\'' || c == '*' || c == '+'
        || c == '-' || c == '.' || c == '^' || c == '_' || c == '`' || c == '|' || c == '~'
}

/// The longest header name a lookup accepts.
pub const MAX_HEADER_NAME_LEN: usize = 65535;

/// Whether `s` is a well-formed header name: non-empty, not over-long, and
/// made of token characters only. A lookup with any other string finds
/// nothing.
pub open spec fn valid_header_name(s: Seq<char>) -> bool {
    0 < s.len() <= MAX_HEADER_NAME_LEN && (forall|i: int| 0 <= i < s.len() ==> is_header_name_char(#[trigger] s[i]))
}

/// Two characters with the same lowercase form are either the same
/// character or the two cases of one letter — so lowercasing never turns a
/// well-formed name character into an ill-formed one, or the other way
/// round.
pub proof fn lemma_lower_char_same_validity(c1: char, c2: char)
    requires
        lower_char(c1) == lower_char(c2),
    ensures
        is_header_name_char(c1) <==> is_header_name_char(c2),
{
}

/// Names with the same lowercase form are well-formed together or not at
/// all.
pub proof fn lemma_lower_same_validity(n1: Seq<char>, n2: Seq<char>)
    requires
        lower(n1) == lower(n2),
    ensures
        valid_header_name(n1) <==> valid_header_name(n2),
{
    assert(lower(n1).len() == n1.len());
    assert(lower(n2).len() == n2.len());
    if valid_header_name(n1) {
        assert forall|i: int| 0 <= i < n2.len() implies is_header_name_char(#[trigger] n2[i]) by {
            assert(lower(n1)[i] == lower_char(n1[i]));
            assert(lower(n2)[i] == lower_char(n2[i]));
            assert(is_header_name_char(n1[i]));
            lemma_lower_char_same_validity(n1[i], n2[i]);
        }
    }
    if valid_header_name(n2) {
        assert forall|i: int| 0 <= i < n1.len() implies is_header_name_char(#[trigger] n1[i]) by {
            assert(lower(n1)[i] == lower_char(n1[i]));
            assert(lower(n2)[i] == lower_char(n2[i]));
            assert(is_header_name_char(n2[i]));
            lemma_lower_char_same_validity(n1[i], n2[i]);
        }
    }
}

/// Whether a raw header byte decodes as printable text: the visible ASCII
/// range, space, or tab.
pub open spec fn is_visible_ascii_byte(b: u8) -> bool {
    (32 <= b && b < 127) || b == 9
}

/// Whether a raw header value decodes as printable text at all.
pub open spec fn decodable(bs: Seq<u8>) -> bool {
    forall|i: int| 0 <= i < bs.len() ==> is_visible_ascii_byte(#[trigger] bs[i])
}

/// The text a decodable raw header value decodes to: each byte read as the
/// ASCII character it is.
pub open spec fn decode(bs: Seq<u8>) -> Seq<char> {
    bs.map_values(|b: u8| b as char)
}

} // verus!
