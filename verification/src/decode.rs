use vstd::prelude::*;
use crate::errors::AppError;

verus! {

/// What URL-safe base64 decoding yields for a given input: nothing when the
/// input is not valid base64.
pub uninterp spec fn base64url_decoded(s: Seq<char>) -> Option<Seq<u8>>;

/// Relies on `base64_url::decode`: decodes URL-safe base64 without
/// padding (padded input is rejected). The result is a function of the
/// input alone.
#[verifier::external_body]
fn b64url_decode(s: &str) -> (r: Option<Vec<u8>>)
    ensures
        (r is Some) == (base64url_decoded(s@) is Some),
        r matches Some(b) ==> Some(b@) == base64url_decoded(s@),
{
    base64_url::decode(s).ok()
}

/// What lossy UTF-8 decoding yields for a given byte sequence: invalid
/// sequences are replaced, never rejected.
pub uninterp spec fn utf8_lossy(b: Seq<u8>) -> Seq<char>;

/// Relies on std's `String::from_utf8_lossy`: decodes bytes as UTF-8,
/// replacing invalid sequences with the replacement character.
#[verifier::external_body]
fn bytes_to_string_lossy(b: &Vec<u8>) -> (r: String)
    ensures
        r@ == utf8_lossy(b@),
{
    String::from_utf8_lossy(b).into_owned()
}

/// What decoding a feed request's base64 path segment into a URL string
/// yields: the lossy UTF-8 reading of the decoded bytes, or
/// `InvalidEncoding` when the segment is not valid base64.
pub open spec fn decoded_feed_url_spec(s: Seq<char>) -> Result<Seq<char>, AppError> {
    match base64url_decoded(s) {
        Option::None => Result::Err(AppError::InvalidEncoding),
        Option::Some(b) => Result::Ok(utf8_lossy(b)),
    }
}

/// Decodes the base64 path segment of a feed request into the base URL
/// string; a segment that is not valid base64 is rejected as
/// `InvalidEncoding`.
pub fn decode_feed_url(s: &str) -> (r: Result<String, AppError>)
    ensures
        (match r {
            Result::Ok(u) => decoded_feed_url_spec(s@) == Result::<Seq<char>, AppError>::Ok(u@),
            Result::Err(e) => decoded_feed_url_spec(s@) == Result::<Seq<char>, AppError>::Err(e),
        }),
{
    match b64url_decode(s) {
        Option::None => Result::Err(AppError::InvalidEncoding),
        Option::Some(b) => Result::Ok(bytes_to_string_lossy(&b)),
    }
}

} // verus!
