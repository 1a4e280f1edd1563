use vstd::prelude::*;

verus! {

/// Relies on `chrono::Utc::now` and `DateTime::to_rfc3339`: the current UTC
/// time as an RFC 3339 string. The clock decides the value, so nothing is
/// promised of it.
#[verifier::external_body]
pub(crate) fn current_timestamp() -> (r: String) {
    chrono::Utc::now().to_rfc3339()
}

/// Lexicographic order on timestamp strings; for RFC 3339 strings written
/// in one offset and one precision this is the order of the instants.
pub open spec fn timestamp_le(a: Seq<char>, b: Seq<char>) -> bool
    decreases a.len(),
{
    if a.len() == 0 {
        true
    } else if b.len() == 0 {
        false
    } else if a[0] != b[0] {
        (a[0] as u32) < (b[0] as u32)
    } else {
        timestamp_le(a.drop_first(), b.drop_first())
    }
}

} // verus!
