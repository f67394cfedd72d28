use gemclient::payload::{Header, Request, Response, Status, StatusType, Url};

fn all_statuses() -> Vec<(Status, i32)> {
    vec![
        (Status::Input, 10),
        (Status::SensitiveInput, 11),
        (Status::Success, 20),
        (Status::RedirectTemporary, 30),
        (Status::RedirectPermanent, 31),
        (Status::TemporaryFailure, 40),
        (Status::ServerUnavailable, 41),
        (Status::CgiError, 42),
        (Status::ProxyError, 43),
        (Status::SlowDown, 44),
        (Status::PermanentFailure, 50),
        (Status::NotFound, 51),
        (Status::Gone, 52),
        (Status::ProxyRequestRefused, 53),
        (Status::BadRequest, 54),
        (Status::ClientCertificateRequired, 60),
        (Status::CertificateNotAuthorised, 61),
        (Status::CertificateNotValid, 62),
    ]
}

#[test]
fn status_codes_are_exact() {
    for (status, code) in all_statuses() {
        assert_eq!(status.code(), code);
    }
}

#[test]
fn status_try_from_accepts_exactly_the_closed_set() {
    let valid: Vec<i32> = all_statuses().iter().map(|p| p.1).collect();
    for code in -5..150 {
        let got = Status::try_from(code);
        if valid.contains(&code) {
            assert_eq!(got.unwrap().code(), code);
        } else {
            assert!(got.is_err());
        }
    }
}

#[test]
fn status_category_is_code_div_ten() {
    for (status, code) in all_statuses() {
        assert_eq!(status.status_type().code(), code / 10);
    }
}

#[test]
fn status_type_values() {
    assert_eq!(Status::Input.status_type(), StatusType::Input);
    assert_eq!(Status::SensitiveInput.status_type(), StatusType::Input);
    assert_eq!(Status::Success.status_type(), StatusType::Success);
    assert_eq!(Status::RedirectTemporary.status_type(), StatusType::Redirect);
    assert_eq!(Status::SlowDown.status_type(), StatusType::TemporaryFailure);
    assert_eq!(Status::NotFound.status_type(), StatusType::PermanentFailure);
    assert_eq!(
        Status::CertificateNotValid.status_type(),
        StatusType::CertificateRequired
    );
}

#[test]
fn status_type_try_from_accepts_exactly_the_six_buckets() {
    for code in -5..20 {
        let got = StatusType::try_from(code);
        if (1..=6).contains(&code) {
            assert_eq!(got.unwrap().code(), code);
        } else {
            assert!(got.is_err());
        }
    }
}

#[test]
fn request_new_defaults_missing_port() {
    let url = Url {
        scheme: "gemini".to_string(),
        host: Some("example.org".to_string()),
        port: None,
    };
    let req = Request::new(url);
    assert_eq!(req.url.scheme, "gemini");
    assert_eq!(req.url.host.as_deref(), Some("example.org"));
    assert_eq!(req.url.port, Some(1965));
}

#[test]
fn request_new_keeps_explicit_port() {
    let url = Url {
        scheme: "gemini".to_string(),
        host: Some("example.org".to_string()),
        port: Some(300),
    };
    let req = Request::new(url);
    assert_eq!(req.url.port, Some(300));
}

#[test]
fn response_new_parses_mime_for_success() {
    let header = Header {
        status: Status::Success,
        meta: "text/gemini".to_string(),
    };
    let resp = Response::new(header, b"body".to_vec()).unwrap();
    assert_eq!(resp.mime, Some("text/gemini".parse::<mime::Mime>().unwrap()));
    assert_eq!(resp.body, b"body".to_vec());
    assert_eq!(resp.header.status, Status::Success);
    assert_eq!(resp.header.meta, "text/gemini");
}

#[test]
fn response_new_leaves_mime_absent_for_other_categories() {
    let header = Header {
        status: Status::NotFound,
        meta: "this need not be a mime type".to_string(),
    };
    let resp = Response::new(header, Vec::new()).unwrap();
    assert!(resp.mime.is_none());
}

#[test]
fn response_new_rejects_bad_mime_on_success() {
    let header = Header {
        status: Status::Success,
        meta: "not a mime".to_string(),
    };
    assert!(Response::new(header, Vec::new()).is_err());
}
