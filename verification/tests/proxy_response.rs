use ai_gateway::proxy::{classify_response, copy_response_headers, relay_headers, ResponseKind};
use http::{HeaderMap, HeaderName, HeaderValue};

fn headers(pairs: &[(&str, &[u8])]) -> HeaderMap {
    let mut map = HeaderMap::new();
    for (name, value) in pairs {
        map.append(
            HeaderName::from_bytes(name.as_bytes()).unwrap(),
            HeaderValue::from_bytes(value).unwrap(),
        );
    }
    map
}

fn octets(pairs: &[(&[u8], &[u8])]) -> Vec<(Vec<u8>, Vec<u8>)> {
    pairs.iter().map(|(n, v)| (n.to_vec(), v.to_vec())).collect()
}

#[test]
fn event_stream_content_type_means_streaming() {
    assert_eq!(classify_response(&headers(&[("content-type", b"text/event-stream")])), ResponseKind::Streaming);
    assert_eq!(
        classify_response(&headers(&[("x-a", b"b"), ("content-type", b"text/event-stream; charset=utf-8")])),
        ResponseKind::Streaming
    );
}

#[test]
fn any_other_content_type_means_buffered() {
    assert_eq!(classify_response(&HeaderMap::new()), ResponseKind::Buffered);
    assert_eq!(classify_response(&headers(&[("content-type", b"application/json")])), ResponseKind::Buffered);
    assert_eq!(classify_response(&headers(&[("content-type", b"TEXT/EVENT-STREAM")])), ResponseKind::Buffered);
    assert_eq!(classify_response(&headers(&[("accept", b"text/event-stream")])), ResponseKind::Buffered);
    assert_eq!(
        classify_response(&headers(&[("content-type", &[b't', 0x80]), ("content-type", b"text/event-stream")])),
        ResponseKind::Buffered
    );
}

#[test]
fn the_first_content_type_decides() {
    assert_eq!(
        classify_response(&headers(&[("content-type", b"application/json"), ("content-type", b"text/event-stream")])),
        ResponseKind::Buffered
    );
    assert_eq!(
        classify_response(&headers(&[("content-type", b"text/event-stream"), ("content-type", b"application/json")])),
        ResponseKind::Streaming
    );
}

#[test]
fn headers_that_convert_are_copied() {
    let out = copy_response_headers(&octets(&[
        (b"Content-Type", b"application/json"),
        (b"x-request-id", b"42"),
        (b"x-blob", &[0xff, 0x80]),
    ]))
    .unwrap();
    assert_eq!(out.len(), 3);
    assert_eq!(out.get("content-type").unwrap(), "application/json");
    assert_eq!(out.get("x-request-id").unwrap(), "42");
    assert_eq!(out.get("x-blob").unwrap().as_bytes(), &[0xff, 0x80]);
}

#[test]
fn headers_that_do_not_convert_are_dropped() {
    let out = copy_response_headers(&octets(&[
        (b"bad name", b"v"),
        (b"", b"v"),
        (b"x-bad-value", b"line\nbreak"),
        (b"x-bad-value2", &[0x7f]),
        (b"na\"me", b"v"),
        (b"x-ok", b"fine\tstill"),
    ]))
    .unwrap();
    assert_eq!(out.len(), 1);
    assert_eq!(out.get("x-ok").unwrap(), "fine\tstill");
}

#[test]
fn a_later_header_replaces_an_earlier_one_of_its_name() {
    let out = copy_response_headers(&octets(&[
        (b"Set-Cookie", b"a=1"),
        (b"x-other", b"o"),
        (b"set-cookie", b"b=2"),
        (b"SET-COOKIE", b"bad\nvalue"),
    ]))
    .unwrap();
    let cookies: Vec<&HeaderValue> = out.get_all("set-cookie").iter().collect();
    assert_eq!(cookies.len(), 1);
    assert_eq!(cookies[0], "b=2");
    assert_eq!(out.len(), 2);
}

#[test]
fn a_long_list_of_headers_is_copied_whole() {
    let mut upstream: Vec<(Vec<u8>, Vec<u8>)> = Vec::new();
    for i in 0..(ai_gateway::headers::HEADER_ROOM - 3) {
        upstream.push((format!("x-h{}", i).into_bytes(), b"v".to_vec()));
    }
    let out = copy_response_headers(&upstream).unwrap();
    assert_eq!(out.len(), upstream.len());
    let out = relay_headers(ResponseKind::Streaming, &upstream).unwrap();
    assert_eq!(out.len(), upstream.len() + 3);
    assert_eq!(out.get("connection").unwrap(), "keep-alive");
}

#[test]
fn nothing_to_copy_gives_no_headers() {
    assert!(copy_response_headers(&Vec::new()).unwrap().is_empty());
}

#[test]
fn buffered_answer_carries_the_copied_headers() {
    let upstream = octets(&[(b"content-type", b"application/json"), (b"x-request-id", b"7")]);
    let out = relay_headers(ResponseKind::Buffered, &upstream).unwrap();
    assert_eq!(out, copy_response_headers(&upstream).unwrap());
    assert_eq!(out.len(), 2);
    assert!(out.get("cache-control").is_none());
}

#[test]
fn streamed_answer_carries_the_event_stream_headers() {
    let upstream = octets(&[
        (b"content-type", b"text/event-stream; charset=utf-8"),
        (b"cache-control", b"max-age=60"),
        (b"x-request-id", b"7"),
    ]);
    let out = relay_headers(ResponseKind::Streaming, &upstream).unwrap();
    assert_eq!(out.len(), 4);
    assert_eq!(out.get("content-type").unwrap(), "text/event-stream");
    assert_eq!(out.get("cache-control").unwrap(), "no-cache");
    assert_eq!(out.get("connection").unwrap(), "keep-alive");
    assert_eq!(out.get("x-request-id").unwrap(), "7");
    let out = relay_headers(ResponseKind::Streaming, &Vec::new()).unwrap();
    assert_eq!(out.len(), 3);
}
