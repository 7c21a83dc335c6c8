use rusty_dl::headers::{HeaderField, Headers};
use rusty_dl::errors::{File2DlError, UrlError};
use rusty_dl::url::{
    parse_name_from_url, range_reply_accepted, ProbeAction, ProbeEvent, ProbeStage, Url,
    UrlProbe,
};

fn headers(fields: &[(&str, &[u8])]) -> Headers {
    Headers {
        fields: fields
            .iter()
            .map(|(n, v)| HeaderField { name: n.to_string(), value: v.to_vec() })
            .collect(),
    }
}

#[test]
fn name_from_link() {
    assert_eq!(
        parse_name_from_url("https://example.com/dir/file.zip"),
        Some("file.zip".to_string())
    );
    assert_eq!(
        parse_name_from_url("https://example.com/a/ my file.tar.gz "),
        Some("my file.tar.gz".to_string())
    );
    assert_eq!(parse_name_from_url("https://example.com/"), None);
    assert_eq!(parse_name_from_url("https://example.com/page"), None);
    assert_eq!(parse_name_from_url("https://example.com/x.toolong"), None);
    assert_eq!(parse_name_from_url("plain.txt"), Some("plain.txt".to_string()));
}

#[test]
fn range_reply() {
    assert!(range_reply_accepted(Some(1)));
    assert!(!range_reply_accepted(Some(2)));
    assert!(!range_reply_accepted(None));
}

#[test]
fn url_from_reply_prefers_headers() {
    let h = headers(&[
        ("content-length", b"100"),
        ("content-disposition", b"attachment; filename=\"a.bin\""),
        ("accept-ranges", b"none"),
    ]);
    let u = Url::from_reply("https://x.org/b.zip", &h, true);
    assert_eq!(u.link, "https://x.org/b.zip");
    assert_eq!(u.filename, "a.bin");
    assert_eq!(u.content_length, 100);
    assert!(!u.range_support);
}

#[test]
fn url_from_reply_falls_back() {
    let h = headers(&[]);
    let u = Url::from_reply("https://x.org/b.zip", &h, true);
    assert_eq!(u.filename, "b.zip");
    assert_eq!(u.content_length, 0);
    assert!(u.range_support);
    let u = Url::from_reply("https://x.org/b", &h, false);
    assert_eq!(u.filename, "");
    assert!(!u.range_support);
}

#[test]
fn url_error_messages() {
    assert_eq!(UrlError::InvalidUrl.message(), "Invalid Url");
    assert_eq!(UrlError::RequestError("boom".to_string()).message(), "Request Error: boom");
    assert_eq!(UrlError::Generic("disk".to_string()).message(), "Io Error: disk");
    let d = Url::default();
    assert_eq!(d.link, "");
    assert_eq!(d.content_length, 0);
}

#[test]
fn invalid_link_refused_at_once() {
    let (p, a) = UrlProbe::start("not a url");
    assert!(p.stage == ProbeStage::Finished);
    assert!(matches!(a, ProbeAction::Finish(Err(UrlError::InvalidUrl))));
}

#[test]
fn probe_head_then_range_test() {
    let (mut p, a) = UrlProbe::start("https://example.com/f.iso");
    assert!(matches!(a, ProbeAction::BuildClient));
    assert!(matches!(p.advance(ProbeEvent::ClientReady), ProbeAction::SendHead));
    let h = headers(&[("content-length", b"42"), ("accept-ranges", b"bytes")]);
    assert!(matches!(p.advance(ProbeEvent::HeadReplied(h)), ProbeAction::SendRangeRequest));
    match p.advance(ProbeEvent::RangeReplied(Some(2))) {
        ProbeAction::Finish(Ok(u)) => {
            assert_eq!(u.filename, "f.iso");
            assert_eq!(u.content_length, 42);
            assert!(u.range_support);
        }
        _ => panic!("expected a finished probe"),
    }
    assert!(p.stage == ProbeStage::Finished);
}

#[test]
fn probe_falls_back_to_get() {
    let (mut p, _) = UrlProbe::start("https://example.com/f.iso");
    p.advance(ProbeEvent::ClientReady);
    assert!(matches!(p.advance(ProbeEvent::HeadFailed), ProbeAction::SendGet));
    assert!(p.stage == ProbeStage::Get);
    let h = headers(&[]);
    assert!(matches!(p.advance(ProbeEvent::GetReplied(h)), ProbeAction::SendRangeRequest));
    match p.advance(ProbeEvent::RangeReplied(Some(1))) {
        ProbeAction::Finish(Ok(u)) => assert!(u.range_support),
        _ => panic!("expected a finished probe"),
    }
}

#[test]
fn probe_request_errors() {
    let (mut p, _) = UrlProbe::start("https://example.com/f.iso");
    match p.advance(ProbeEvent::ClientFailed("tls".to_string())) {
        ProbeAction::Finish(Err(UrlError::RequestError(m))) => assert_eq!(m, "tls"),
        _ => panic!("expected a request error"),
    }
    let (mut p, _) = UrlProbe::start("https://example.com/f.iso");
    p.advance(ProbeEvent::ClientReady);
    p.advance(ProbeEvent::HeadFailed);
    match p.advance(ProbeEvent::GetFailed("refused".to_string())) {
        ProbeAction::Finish(Err(UrlError::RequestError(m))) => assert_eq!(m, "refused"),
        _ => panic!("expected a request error"),
    }
}

#[test]
fn download_error_messages() {
    assert_eq!(File2DlError::Generic("x".to_string()).message(), "Io Error: x");
    assert_eq!(File2DlError::RequestError("y".to_string()).message(), "Request Error: y");
    assert_eq!(
        File2DlError::ChannelRecvError("z".to_string()).message(),
        "Watch Channel Reception Failed: z"
    );
    assert_eq!(
        File2DlError::ChannelSendError("w".to_string()).message(),
        "Watch Channel Sending Failed: w"
    );
}
