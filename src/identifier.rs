use vstd::prelude::*;

verus! {

/// A lowercase hexadecimal digit.
pub open spec fn is_lower_hex_digit(c: char) -> bool {
    ('0' <= c && c <= '9') || ('a' <= c && c <= 'f')
}

/// The positions of the four hyphens in the hyphenated form.
pub open spec fn is_hyphen_position(i: int) -> bool {
    i == 8 || i == 13 || i == 18 || i == 23
}

/// The canonical text of a 128-bit identifier: 32 lowercase hexadecimal digits
/// grouped 8-4-4-4-12 and joined by hyphens.
pub open spec fn is_canonical_identifier(s: Seq<char>) -> bool {
    &&& s.len() == 36
    &&& forall|i: int|
        0 <= i < 36 ==> if is_hyphen_position(i) {
            s[i] == '-'
        } else {
            is_lower_hex_digit(#[trigger] s[i])
        }
}

/// A canonical identifier of a randomly generated value: version digit `4`
/// and a variant digit in `8`, `9`, `a`, `b`.
pub open spec fn is_random_identifier(s: Seq<char>) -> bool {
    &&& is_canonical_identifier(s)
    &&& s[14] == '4'
    &&& (s[19] == '8' || s[19] == '9' || s[19] == 'a' || s[19] == 'b')
}

/// Relies on `uuid::Uuid::new_v4`, which draws 128 random bits and fixes the
/// version nibble to 4 and the variant bits to `10`, and on the `Display` of
/// `uuid::Uuid`, which writes the lowercase hyphenated form.
#[verifier::external_body]
fn random_v4_text() -> (r: String)
    ensures
        is_random_identifier(r@),
{
    uuid::Uuid::new_v4().to_string()
}

/// A fresh randomly generated identifier in canonical form.
pub fn generate() -> (r: String)
    ensures
        is_random_identifier(r@),
{
    random_v4_text()
}

} // verus!
