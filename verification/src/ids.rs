//! Random identifiers.

use crate::text::has_prefix;
use vstd::prelude::*;

verus! {

/// A hexadecimal digit in lower case.
pub open spec fn is_hex_digit(c: char) -> bool {
    '0' <= c && c <= '9' || 'a' <= c && c <= 'f'
}

/// The text of a random identifier: groups of eight, four, four, four and twelve hexadecimal
/// digits with hyphens between them. The third group begins with the digit of the version,
/// the fourth with one that names the variant.
pub open spec fn is_random_id(s: Seq<char>) -> bool {
    &&& s.len() == 36
    &&& forall|i: int|
        0 <= i < 36 ==> if i == 8 || i == 13 || i == 18 || i == 23 {
            #[trigger] s[i] == '-'
        } else {
            is_hex_digit(s[i])
        }
    &&& s[14] == '4'
    &&& s[19] == '8' || s[19] == '9' || s[19] == 'a' || s[19] == 'b'
}

/// `uuid::Uuid::new_v4` and its text: a random identifier of version four, in lower case and
/// with hyphens. Two calls give different identifiers in practice; that is not claimed.
#[verifier::external_body]
pub(crate) fn random_id() -> (r: String)
    ensures
        is_random_id(r@),
{
    uuid::Uuid::new_v4().to_string()
}

/// The name of a session with an identifier.
pub fn session_name(id: &str) -> (r: String)
    ensures
        r@ == "lamco-rdp-"@ + id@,
{
    let mut r = "lamco-rdp-".to_owned();
    r.append(id);
    r
}

/// The name of a session with a random identifier.
pub fn random_session_name() -> (r: String)
    ensures
        has_prefix(r@, "lamco-rdp-"@),
        is_random_id(r@.skip("lamco-rdp-"@.len() as int)),
{
    let id = random_id();
    let r = session_name(id.as_str());
    assert(r@.take("lamco-rdp-"@.len() as int) =~= "lamco-rdp-"@);
    assert(r@.skip("lamco-rdp-"@.len() as int) =~= id@);
    r
}

} // verus!
