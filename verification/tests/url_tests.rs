use songfeed::decode::decode_feed_url;
use songfeed::errors::AppError;
use songfeed::urls::{fetch_url, prepare_request, raw_file_url};

#[test]
fn directory_url_is_rewritten_to_api() {
    let u = prepare_request("https://h/x/").unwrap();
    assert_eq!(fetch_url(&u, None), "https://h/x/api/?path=%2Fx%2F");
}

#[test]
fn directory_url_without_trailing_slash_gets_one() {
    let u = prepare_request("https://h/x").unwrap();
    assert_eq!(fetch_url(&u, None), "https://h/x/api/?path=%2Fx%2F");
}

#[test]
fn existing_query_is_kept_before_path_pair() {
    let u = prepare_request("https://h/x/?foo=1").unwrap();
    assert_eq!(fetch_url(&u, None), "https://h/x/api/?foo=1&path=%2Fx%2F");
}

#[test]
fn api_url_passes_through_without_path_pair() {
    let u = prepare_request("https://h/x/api/").unwrap();
    assert_eq!(fetch_url(&u, None), "https://h/x/api/");
    assert_eq!(fetch_url(&u, Some("T")), "https://h/x/api/?next=T");
}

#[test]
fn api_url_without_trailing_slash_passes_through() {
    let u = prepare_request("https://h/x/api").unwrap();
    assert_eq!(fetch_url(&u, None), "https://h/x/api");
}

#[test]
fn continuation_token_is_appended_and_encoded() {
    let u = prepare_request("https://h/x/").unwrap();
    assert_eq!(fetch_url(&u, Some("a b/c")), "https://h/x/api/?path=%2Fx%2F&next=a+b%2Fc");
}

#[test]
fn raw_file_url_appends_name_without_separator() {
    let u = prepare_request("https://h/x/").unwrap();
    let raw = raw_file_url(&u, "a.mp3");
    assert_eq!(raw, "https://h/x/api/raw/?path=%2Fx%2Fa.mp3");
    let path_part = raw.split('?').next().unwrap();
    assert!(path_part.ends_with("/x/api/raw/"));
    let query_part = raw.split('?').nth(1).unwrap();
    assert_eq!(query_part, "path=%2Fx%2Fa.mp3");
}

#[test]
fn raw_file_url_on_api_url_uses_its_own_query() {
    let u = prepare_request("https://h/x/api/?path=%2Fd%2F").unwrap();
    assert_eq!(raw_file_url(&u, "a.mp3"), "https://h/x/api/raw/?path=%2Fd%2Fa.mp3");
}

#[test]
fn invalid_url_is_rejected() {
    assert_eq!(prepare_request("not a url").unwrap_err(), AppError::InvalidUrl);
}

#[test]
fn decode_feed_url_round_trip() {
    let encoded = base64_url::encode("https://h/x/");
    let decoded = decode_feed_url(&encoded).unwrap();
    assert_eq!(decoded, "https://h/x/");
}

#[test]
fn decode_feed_url_rejects_bad_base64() {
    let e = decode_feed_url("!!!").unwrap_err();
    assert_eq!(e, AppError::InvalidEncoding);
    assert_eq!(e.status_code(), 400);
}
