use vstd::prelude::*;

verus! {

/// What parsing a string as an RFC3339 timestamp and reformatting it as
/// RFC2822 yields: nothing when the string is no valid RFC3339 timestamp.
pub uninterp spec fn rfc2822_of_rfc3339(s: Seq<char>) -> Option<Seq<char>>;

/// Relies on chrono's `DateTime::parse_from_rfc3339` and
/// `DateTime::to_rfc2822`: parses an RFC3339 timestamp and reformats the
/// same instant, with its offset, as RFC2822. The result is a function of
/// the input string alone.
#[verifier::external_body]
pub(crate) fn rfc3339_to_rfc2822(s: &str) -> (r: Option<String>)
    ensures
        (r is Some) == (rfc2822_of_rfc3339(s@) is Some),
        r matches Some(t) ==> Some(t@) == rfc2822_of_rfc3339(s@),
{
    match chrono::DateTime::parse_from_rfc3339(s) {
        Ok(d) => Some(d.to_rfc2822()),
        Err(_) => None,
    }
}

} // verus!
