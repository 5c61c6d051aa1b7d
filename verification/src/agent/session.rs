//! Session identifiers.

use vstd::prelude::*;

verus! {

/// Makes and checks session identifiers, which are UUIDs in text form.
pub struct SessionManager;

/// A digit of lower-case hexadecimal notation.
pub open spec fn is_lower_hex(c: char) -> bool {
    ('0' <= c && c <= '9') || ('a' <= c && c <= 'f')
}

/// A digit of hexadecimal notation, in either case.
pub open spec fn is_hex(c: char) -> bool {
    is_lower_hex(c) || ('A' <= c && c <= 'F')
}

/// The places of the hyphens in the hyphenated form.
pub open spec fn is_hyphen_place(i: int) -> bool {
    i == 8 || i == 13 || i == 18 || i == 23
}

/// The simple form of a UUID: 32 hexadecimal digits.
pub open spec fn is_simple(text: Seq<char>) -> bool {
    &&& text.len() == 32
    &&& forall|i: int| 0 <= i < 32 ==> is_hex(#[trigger] text[i])
}

/// The hyphenated form of a UUID: 36 characters, hexadecimal digits in
/// groups of 8, 4, 4, 4 and 12 with a hyphen between each two groups.
pub open spec fn is_hyphenated(text: Seq<char>) -> bool {
    &&& text.len() == 36
    &&& forall|i: int|
        0 <= i < 36 ==> if is_hyphen_place(i) {
            #[trigger] text[i] == '-'
        } else {
            is_hex(text[i])
        }
}

/// The braced form of a UUID: the hyphenated form within `{` and `}`.
pub open spec fn is_braced(text: Seq<char>) -> bool {
    &&& text.len() == 38
    &&& text[0] == '{'
    &&& text[37] == '}'
    &&& is_hyphenated(text.subrange(1, 37))
}

/// The URN form of a UUID: `urn:uuid:`, in either case of its letters, and
/// the hyphenated form.
pub open spec fn is_urn(text: Seq<char>) -> bool {
    &&& text.len() == 45
    &&& (text[0] == 'u' || text[0] == 'U')
    &&& (text[1] == 'r' || text[1] == 'R')
    &&& (text[2] == 'n' || text[2] == 'N')
    &&& text[3] == ':'
    &&& (text[4] == 'u' || text[4] == 'U')
    &&& (text[5] == 'u' || text[5] == 'U')
    &&& (text[6] == 'i' || text[6] == 'I')
    &&& (text[7] == 'd' || text[7] == 'D')
    &&& text[8] == ':'
    &&& is_hyphenated(text.subrange(9, 45))
}

/// The texts that denote a UUID: its simple, hyphenated, braced and URN
/// forms.
pub open spec fn is_uuid_text(text: Seq<char>) -> bool {
    is_simple(text) || is_hyphenated(text) || is_braced(text) || is_urn(text)
}

/// The hyphenated lower-case form of a random (version 4) UUID: the version
/// digit is `4`, the variant digit one of `8` to `b`.
pub open spec fn is_random_uuid_text(text: Seq<char>) -> bool {
    &&& text.len() == 36
    &&& forall|i: int|
        0 <= i < 36 ==> if is_hyphen_place(i) {
            #[trigger] text[i] == '-'
        } else {
            is_lower_hex(text[i])
        }
    &&& text[14] == '4'
    &&& (text[19] == '8' || text[19] == '9' || text[19] == 'a' || text[19] == 'b')
}

/// Calls `uuid::Uuid::parse_str` and tells whether it accepted the text. It
/// accepts the four forms of [`is_uuid_text`] and nothing else.
#[verifier::external_body]
fn parses_as_uuid(text: &str) -> (accepted: bool)
    ensures
        accepted == is_uuid_text(text@),
{
    uuid::Uuid::parse_str(text).is_ok()
}

/// Calls `uuid::Uuid::new_v4` and renders the identifier with `Display`.
/// Which identifier comes out is left open; every one is shown in the
/// hyphenated lower-case form, with the digits of its version and variant.
#[verifier::external_body]
fn random_uuid_text() -> (text: String)
    ensures
        is_random_uuid_text(text@),
{
    uuid::Uuid::new_v4().to_string()
}

/// The text of a random UUID denotes a UUID.
pub proof fn lemma_random_uuid_text_is_valid(text: Seq<char>)
    requires
        is_random_uuid_text(text),
    ensures
        is_uuid_text(text),
{
    assert forall|i: int| 0 <= i < 36 implies if is_hyphen_place(i) {
        #[trigger] text[i] == '-'
    } else {
        is_hex(text[i])
    } by {
        if !is_hyphen_place(i) {
            assert(is_lower_hex(text[i]));
        }
    }
    assert(is_hyphenated(text));
}

impl SessionManager {
    /// A fresh session identifier: the text of a random UUID, which
    /// [`SessionManager::validate_session_id`] accepts.
    pub fn new_session() -> (session_id: String)
        ensures
            is_random_uuid_text(session_id@),
            is_uuid_text(session_id@),
    {
        let session_id = random_uuid_text();
        proof {
            lemma_random_uuid_text_is_valid(session_id@);
        }
        session_id
    }

    /// Whether a text is a session identifier.
    pub fn validate_session_id(session_id: &str) -> (valid: bool)
        ensures
            valid == is_uuid_text(session_id@),
    {
        parses_as_uuid(session_id)
    }
}

} // verus!
