//! Authorization of the delete path: a bearer token compared
//! character-for-character.

use vstd::prelude::*;
use crate::strutil::str_eq;
use vstd::string::StrSliceExecFns;

verus! {

/// The expected shape of the Authorization header: the literal prefix
/// "Bearer " followed by exactly the configured token.
pub open spec fn bearer_matches(header: Seq<char>, token: Seq<char>) -> bool {
    &&& header.len() >= 7
    &&& header.subrange(0, 7) == "Bearer "@
    &&& header.subrange(7, header.len() as int) == token
}

/// Whether the Authorization header value authorizes a delete: it must be
/// the prefix "Bearer " followed by the configured token, compared
/// character-for-character. A missing header is passed as the empty string
/// and is rejected.
pub fn check_bearer(header: &str, token: &str) -> (r: bool)
    ensures
        r == bearer_matches(header@, token@),
{
    let n = header.unicode_len();
    if n < 7 {
        return false;
    }
    let prefix = header.substring_char(0, 7);
    if !str_eq(prefix, "Bearer ") {
        return false;
    }
    let rest = header.substring_char(7, n);
    str_eq(rest, token)
}

} // verus!
