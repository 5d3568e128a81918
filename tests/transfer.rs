use piping_server::headers::{
    value_bytes, value_text, HeaderList, HeaderValuesBuilder, OptionHeaderBuilder,
};
use piping_server::tls::alpn_protocols;
use piping_server::transfer::{
    finish_message, receiver_response_headers, transfer_headers, transfer_source, visible_ascii,
    FinishLatch, TransferHeaders, TransferSource, ABORTED_MESSAGE, SUCCESS_MESSAGE,
};

fn headers(pairs: &[(&str, &str)]) -> HeaderList {
    let mut h = HeaderList::new();
    for (n, v) in pairs {
        h.push(n, v.to_string());
    }
    h
}

fn pairs(h: &HeaderList) -> Vec<(&str, &str)> {
    h.entries.iter().map(|(n, v)| (n.as_str(), v.as_str())).collect()
}

#[test]
fn receiver_headers_for_a_plain_text_body() {
    let sender = headers(&[("content-type", "text/plain"), ("content-length", "17")]);
    let t = transfer_headers(&sender);
    let h = receiver_response_headers(&t, &sender);
    assert_eq!(
        pairs(&h),
        vec![
            ("Content-Type", "text/plain"),
            ("Content-Length", "17"),
            ("Access-Control-Allow-Origin", "*"),
            ("X-Robots-Tag", "none"),
        ]
    );
}

#[test]
fn x_piping_passes_in_order() {
    let sender = headers(&[
        ("x-piping", "mymetadata1"),
        ("content-type", "text/plain"),
        ("x-piping", "mymetadata2"),
        ("x-piping", "mymetadata3"),
        ("x-other", "dropped"),
    ]);
    let t = transfer_headers(&sender);
    let h = receiver_response_headers(&t, &sender);
    assert_eq!(
        pairs(&h),
        vec![
            ("Content-Type", "text/plain"),
            ("X-Piping", "mymetadata1"),
            ("X-Piping", "mymetadata2"),
            ("X-Piping", "mymetadata3"),
            ("Access-Control-Allow-Origin", "*"),
            ("Access-Control-Expose-Headers", "X-Piping"),
            ("X-Robots-Tag", "none"),
        ]
    );
}

#[test]
fn transfer_headers_take_the_first_of_each() {
    let t = transfer_headers(&headers(&[
        ("content-disposition", "attachment"),
        ("content-type", "a/b"),
        ("content-type", "c/d"),
    ]));
    assert_eq!(t.content_type.as_deref(), Some("a/b"));
    assert_eq!(t.content_length, None);
    assert_eq!(t.content_disposition.as_deref(), Some("attachment"));
}

#[test]
fn plain_body_passes_as_it_is() {
    match transfer_source(&headers(&[("content-type", "text/plain"), ("content-length", "3")])) {
        TransferSource::Raw(t) => {
            assert_eq!(t.content_type.as_deref(), Some("text/plain"));
            assert_eq!(t.content_length.as_deref(), Some("3"));
        }
        _ => panic!("expected a raw body"),
    }
    assert!(matches!(transfer_source(&headers(&[])), TransferSource::Raw(_)));
    assert!(matches!(
        transfer_source(&headers(&[("content-type", "not a type")])),
        TransferSource::Raw(_)
    ));
    assert!(matches!(
        transfer_source(&headers(&[("content-type", "multipart/form-data\u{ff}")])),
        TransferSource::Raw(_)
    ));
}

#[test]
fn multipart_form_is_peeled() {
    match transfer_source(&headers(&[(
        "content-type",
        "multipart/form-data; boundary=----abc123",
    )])) {
        TransferSource::Multipart(b) => assert_eq!(b, "----abc123"),
        _ => panic!("expected a multipart body"),
    }
    match transfer_source(&headers(&[("content-type", "Multipart/Form-Data; boundary=xyz")])) {
        TransferSource::Multipart(b) => assert_eq!(b, "xyz"),
        _ => panic!("expected a multipart body"),
    }
    assert!(matches!(
        transfer_source(&headers(&[("content-type", "multipart/form-data")])),
        TransferSource::MissingBoundary
    ));
}

#[test]
fn visible_ascii_check() {
    assert!(visible_ascii("text/plain; a=b\t~"));
    assert!(visible_ascii(""));
    assert!(!visible_ascii("a\u{7f}"));
    assert!(!visible_ascii("é"));
    assert!(!visible_ascii("a\nb"));
}

#[test]
fn finish_signal_fires_once_at_the_end() {
    let mut l = FinishLatch::new();
    assert!(!l.observe(false));
    assert!(l.observe(true));
    assert!(!l.observe(true));
    assert!(!l.observe(false));
    assert_eq!(finish_message(true), SUCCESS_MESSAGE);
    assert_eq!(finish_message(false), ABORTED_MESSAGE);
    assert_eq!(finish_message(true), "[INFO] Sent successfully!\n");
}

#[test]
fn header_builders() {
    let h = HeaderList::new()
        .option_header("A", Some("1".to_string()))
        .option_header("B", None)
        .header_values("C", vec!["x".to_string(), "y".to_string()]);
    assert_eq!(pairs(&h), vec![("A", "1"), ("C", "x"), ("C", "y")]);
    assert_eq!(h.get("C"), Some("x".to_string()));
    assert_eq!(h.get_all("C"), vec!["x".to_string(), "y".to_string()]);
    assert!(h.contains("A"));
    assert!(!h.contains("B"));
    let t = TransferHeaders { content_type: None, content_length: None, content_disposition: None };
    assert_eq!(receiver_response_headers(&t, &HeaderList::new()).entries.len(), 2);
}

#[test]
fn alpn_offers_h2_then_http11() {
    assert_eq!(alpn_protocols(), vec![b"h2".to_vec(), b"http/1.1".to_vec()]);
}

#[test]
fn header_values_round_trip_through_text() {
    let raw: Vec<u8> = vec![b'a', 0x80, 0xff, b'\t', b' '];
    let text = value_text(&raw);
    assert_eq!(text.chars().count(), 5);
    assert_eq!(text.chars().nth(2), Some('\u{ff}'));
    assert_eq!(value_bytes(&text), Some(raw));
    assert_eq!(value_bytes("text/plain"), Some(b"text/plain".to_vec()));
    assert_eq!(value_bytes("\u{100}"), None);
}
