use songfeed::errors::AppError;
use songfeed::feed::{process_page, read_page, transcode_entry, FeedAccumulator, RawEntry};
use songfeed::urls::prepare_request;

fn entry_json(name: &str, mime: &str) -> String {
    format!(
        "{{\"name\":\"{}\",\"lastModifiedDateTime\":\"2023-05-01T12:00:00Z\",\"size\":42,\"id\":\"id-{}\",\"file\":{{\"mimeType\":\"{}\"}}}}",
        name, name, mime
    )
}

fn page_json(entries: &[String], next: Option<&str>) -> String {
    let items = entries.join(",");
    match next {
        None => format!("{{\"folder\":{{\"value\":[{}]}}}}", items),
        Some(t) => format!("{{\"next\":\"{}\",\"folder\":{{\"value\":[{}]}}}}", t, items),
    }
}

#[test]
fn pagination_walks_all_pages_in_order() {
    let u = prepare_request("https://h/x/").unwrap();
    let bodies = [
        page_json(&[entry_json("a.mp3", "audio/mpeg")], Some("t1")),
        page_json(&[entry_json("b.mp3", "audio/mpeg"), entry_json("c.mp3", "audio/mpeg")], Some("t2")),
        page_json(&[entry_json("d.mp3", "audio/mpeg")], None),
    ];
    let mut acc = FeedAccumulator::new();
    let mut fetches: usize = 0;
    let mut done = false;
    while !done {
        let body = &bodies[fetches];
        fetches += 1;
        done = process_page(&mut acc, &u, body).unwrap().is_none();
    }
    assert_eq!(fetches, 3);
    let titles: Vec<&str> = acc.items.iter().map(|it| it.title.as_str()).collect();
    assert_eq!(titles, vec!["a.mp3", "b.mp3", "c.mp3", "d.mp3"]);
}

#[test]
fn continuation_tokens_are_handed_back() {
    let u = prepare_request("https://h/x/").unwrap();
    let mut acc = FeedAccumulator::new();
    let body = page_json(&[], Some("token-1"));
    assert_eq!(process_page(&mut acc, &u, &body).unwrap(), Some("token-1".to_string()));
}

#[test]
fn first_page_without_token_stops_at_once() {
    let u = prepare_request("https://h/x/").unwrap();
    let mut acc = FeedAccumulator::new();
    let body = page_json(&[entry_json("a.mp3", "audio/mpeg")], None);
    let next = process_page(&mut acc, &u, &body).unwrap();
    assert!(next.is_none());
    assert_eq!(acc.items.len(), 1);
}

#[test]
fn folder_entries_never_appear_in_output() {
    let u = prepare_request("https://h/x/").unwrap();
    let folder = "{\"name\":\"sub\",\"folder\":{}}".to_string();
    let body = page_json(
        &[entry_json("a.mp3", "audio/mpeg"), folder, entry_json("b.mp3", "audio/mpeg")],
        None,
    );
    let mut acc = FeedAccumulator::new();
    process_page(&mut acc, &u, &body).unwrap();
    let titles: Vec<&str> = acc.items.iter().map(|it| it.title.as_str()).collect();
    assert_eq!(titles, vec!["a.mp3", "b.mp3"]);
}

#[test]
fn flac_names_override_reported_mime_type() {
    let u = prepare_request("https://h/x/").unwrap();
    for name in ["song.flac", "TRACK.FLAC"] {
        let body = page_json(&[entry_json(name, "application/octet-stream")], None);
        let mut acc = FeedAccumulator::new();
        process_page(&mut acc, &u, &body).unwrap();
        assert_eq!(acc.items[0].enclosure_mime_type, "audio/flac");
    }
}

#[test]
fn other_names_keep_reported_mime_type() {
    let u = prepare_request("https://h/x/").unwrap();
    let body = page_json(&[entry_json("a.Flac", "application/octet-stream")], None);
    let mut acc = FeedAccumulator::new();
    process_page(&mut acc, &u, &body).unwrap();
    assert_eq!(acc.items[0].enclosure_mime_type, "application/octet-stream");
}

#[test]
fn transcoded_item_carries_all_fields() {
    let u = prepare_request("https://h/x/").unwrap();
    let body = page_json(&[entry_json("a.mp3", "audio/mpeg")], None);
    let mut acc = FeedAccumulator::new();
    process_page(&mut acc, &u, &body).unwrap();
    let it = &acc.items[0];
    assert_eq!(it.title, "a.mp3");
    assert_eq!(it.enclosure_url, "https://h/x/api/raw/?path=%2Fx%2Fa.mp3");
    assert_eq!(it.enclosure_length, "42");
    assert_eq!(it.guid, "id-a.mp3");
    assert!(!it.guid_is_permalink);
}

#[test]
fn pub_date_is_rfc2822_of_the_same_instant() {
    let u = prepare_request("https://h/x/").unwrap();
    let e = RawEntry {
        is_folder: false,
        name: Some("a.mp3".to_string()),
        last_modified: Some("2023-05-01T12:00:00Z".to_string()),
        size: Some(7),
        mime_type: Some("audio/mpeg".to_string()),
        id: Some("g1".to_string()),
    };
    let it = transcode_entry(&e, &u).unwrap().unwrap();
    let back = chrono::DateTime::parse_from_rfc2822(&it.pub_date).unwrap();
    let orig = chrono::DateTime::parse_from_rfc3339("2023-05-01T12:00:00Z").unwrap();
    assert_eq!(back, orig);
}

#[test]
fn large_size_is_stringified_in_decimal() {
    let u = prepare_request("https://h/x/").unwrap();
    let e = RawEntry {
        is_folder: false,
        name: Some("a.mp3".to_string()),
        last_modified: Some("2023-05-01T12:00:00Z".to_string()),
        size: Some(18446744073709551615),
        mime_type: Some("audio/mpeg".to_string()),
        id: Some("g1".to_string()),
    };
    let it = transcode_entry(&e, &u).unwrap().unwrap();
    assert_eq!(it.enclosure_length, "18446744073709551615");
}

#[test]
fn missing_folder_value_is_malformed_not_a_crash() {
    assert_eq!(read_page("{}").unwrap_err(), AppError::MalformedResponse);
    assert_eq!(read_page("{\"folder\":{}}").unwrap_err(), AppError::MalformedResponse);
    assert_eq!(
        read_page("{\"folder\":{\"value\":3}}").unwrap_err(),
        AppError::MalformedResponse
    );
}

#[test]
fn invalid_json_is_malformed() {
    let e = read_page("not json").unwrap_err();
    assert_eq!(e, AppError::MalformedResponse);
    assert_eq!(e.status_code(), 500);
}

#[test]
fn missing_entry_field_fails_the_page() {
    let u = prepare_request("https://h/x/").unwrap();
    let no_size = "{\"name\":\"a.mp3\",\"lastModifiedDateTime\":\"2023-05-01T12:00:00Z\",\
                   \"id\":\"g\",\"file\":{\"mimeType\":\"audio/mpeg\"}}"
        .to_string();
    let body = page_json(&[no_size], None);
    let mut acc = FeedAccumulator::new();
    let e = process_page(&mut acc, &u, &body).unwrap_err();
    assert_eq!(e, AppError::MalformedResponse);
    assert_eq!(acc.items.len(), 0);
}

#[test]
fn bad_timestamp_is_malformed() {
    let u = prepare_request("https://h/x/").unwrap();
    let bad = "{\"name\":\"a.mp3\",\"lastModifiedDateTime\":\"yesterday\",\"size\":1,\
               \"id\":\"g\",\"file\":{\"mimeType\":\"audio/mpeg\"}}"
        .to_string();
    let body = page_json(&[bad], None);
    let mut acc = FeedAccumulator::new();
    assert_eq!(process_page(&mut acc, &u, &body).unwrap_err(), AppError::MalformedResponse);
}

#[test]
fn flac_entry_without_mime_type_still_transcodes() {
    let u = prepare_request("https://h/x/").unwrap();
    let e = RawEntry {
        is_folder: false,
        name: Some("a.flac".to_string()),
        last_modified: Some("2023-05-01T12:00:00Z".to_string()),
        size: Some(1),
        mime_type: None,
        id: Some("g".to_string()),
    };
    let it = transcode_entry(&e, &u).unwrap().unwrap();
    assert_eq!(it.enclosure_mime_type, "audio/flac");
}

#[test]
fn non_flac_entry_without_mime_type_is_malformed() {
    let u = prepare_request("https://h/x/").unwrap();
    let e = RawEntry {
        is_folder: false,
        name: Some("a.mp3".to_string()),
        last_modified: Some("2023-05-01T12:00:00Z".to_string()),
        size: Some(1),
        mime_type: None,
        id: Some("g".to_string()),
    };
    assert_eq!(transcode_entry(&e, &u).unwrap_err(), AppError::MalformedResponse);
}

#[test]
fn empty_page_yields_no_items() {
    let u = prepare_request("https://h/x/").unwrap();
    let body = page_json(&[], None);
    let mut acc = FeedAccumulator::new();
    assert_eq!(process_page(&mut acc, &u, &body).unwrap(), None);
    assert_eq!(acc.items.len(), 0);
}

#[test]
fn non_string_next_is_ignored() {
    let u = prepare_request("https://h/x/").unwrap();
    let mut acc = FeedAccumulator::new();
    let body = "{\"next\":3,\"folder\":{\"value\":[]}}";
    assert_eq!(process_page(&mut acc, &u, body).unwrap(), None);
}

#[test]
fn fractional_size_is_malformed() {
    let u = prepare_request("https://h/x/").unwrap();
    let bad = "{\"name\":\"a.mp3\",\"lastModifiedDateTime\":\"2023-05-01T12:00:00Z\",\
               \"size\":1.5,\"id\":\"g\",\"file\":{\"mimeType\":\"audio/mpeg\"}}"
        .to_string();
    let body = page_json(&[bad], None);
    let mut acc = FeedAccumulator::new();
    assert_eq!(process_page(&mut acc, &u, &body).unwrap_err(), AppError::MalformedResponse);
}
