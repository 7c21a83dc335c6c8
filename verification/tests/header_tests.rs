use rusty_dl::headers::{HeaderField, Headers, ParseHeaders};

fn headers(fields: &[(&str, &[u8])]) -> Headers {
    Headers {
        fields: fields
            .iter()
            .map(|(n, v)| HeaderField { name: n.to_string(), value: v.to_vec() })
            .collect(),
    }
}

#[test]
fn content_length_read() {
    let h = headers(&[("content-type", b"text/plain"), ("content-length", b"1234")]);
    assert_eq!(h.content_length(), Some(1234));
}

#[test]
fn content_length_unreadable() {
    assert_eq!(headers(&[("content-length", b"12x")]).content_length(), None);
    assert_eq!(headers(&[("content-length", b"")]).content_length(), None);
    assert_eq!(headers(&[("content-length", b" 12")]).content_length(), None);
    assert_eq!(headers(&[("content-length", b"1\x802")]).content_length(), None);
    assert_eq!(headers(&[("server", b"x")]).content_length(), None);
    assert_eq!(
        headers(&[("content-length", b"99999999999999999999999")]).content_length(),
        None
    );
}

#[test]
fn first_header_of_a_name_wins() {
    let h = headers(&[("content-length", b"5"), ("content-length", b"7")]);
    assert_eq!(h.content_length(), Some(5));
    assert_eq!(h.get("content-length"), Some(&b"5".to_vec()));
    assert_eq!(h.get("etag"), None);
}

#[test]
fn accept_ranges_read() {
    assert_eq!(headers(&[("accept-ranges", b"bytes")]).accept_ranges(), Some(true));
    assert_eq!(headers(&[("accept-ranges", b" bytes\t")]).accept_ranges(), Some(true));
    assert_eq!(headers(&[("accept-ranges", b"none")]).accept_ranges(), Some(false));
    assert_eq!(headers(&[("accept-ranges", b"Bytes")]).accept_ranges(), Some(false));
    assert_eq!(headers(&[("accept-ranges", b"bytes\x81")]).accept_ranges(), Some(false));
    assert_eq!(headers(&[("server", b"x")]).accept_ranges(), None);
}

#[test]
fn content_disposition_read() {
    let h = headers(&[("content-disposition", b"attachment; filename=\"report 1.pdf\"")]);
    assert_eq!(h.content_dispo(), Some("report 1.pdf".to_string()));
    let h = headers(&[("content-disposition", b"inline")]);
    assert_eq!(h.content_dispo(), None);
    let h = headers(&[("content-type", b"text/html")]);
    assert_eq!(h.content_dispo(), None);
}
