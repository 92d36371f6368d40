//! Record identifiers: random, 128 bits wide, in the canonical hyphenated
//! text form.

use vstd::prelude::*;

verus! {

/// The length of an identifier in characters.
pub const IDENTIFIER_LEN: usize = 36;

/// A digit of lower-case hexadecimal.
pub open spec fn is_lower_hex(c: char) -> bool {
    ('0' <= c && c <= '9') || ('a' <= c && c <= 'f')
}

/// The four places at which an identifier holds a hyphen.
pub open spec fn is_hyphen_position(i: int) -> bool {
    i == 8 || i == 13 || i == 18 || i == 23
}

/// The canonical form of a random identifier: five groups of lower-case
/// hexadecimal digits, of 8, 4, 4, 4 and 12 digits, with a hyphen between
/// two groups. The third group begins with the version, `4`; the fourth
/// begins with `8`, `9`, `a` or `b`, the variant.
pub open spec fn is_identifier(s: Seq<char>) -> bool {
    &&& s.len() == IDENTIFIER_LEN
    &&& forall|i: int|
        0 <= i < s.len() ==> if is_hyphen_position(i) {
            #[trigger] s[i] == '-'
        } else {
            is_lower_hex(s[i])
        }
    &&& s[14] == '4'
    &&& (s[19] == '8' || s[19] == '9' || s[19] == 'a' || s[19] == 'b')
}

/// Draws a random identifier with `uuid::Uuid::new_v4` and writes it out with
/// `Uuid::to_hyphenated`.
///
/// Trusted: the text has the canonical form, whatever was drawn. Nothing is
/// claimed of which identifier comes back, so two calls may or may not agree.
/// The outside function stops the process if the operating system hands out
/// no random bytes.
#[verifier::external_body]
fn random_hyphenated() -> (text: String)
    ensures
        is_identifier(text@),
{
    uuid::Uuid::new_v4().to_hyphenated().to_string()
}

/// A fresh identifier. It has the canonical form, so it is never empty; that
/// it differs from every other identifier rests on the 122 random bits in it
/// and is not proved.
pub fn generate() -> (id: String)
    ensures
        is_identifier(id@),
        id@.len() > 0,
{
    random_hyphenated()
}

} // verus!
