//! Protocol payload model: the closed status-code enumeration, its coarse
//! category, and the header / request / response record types.

use vstd::prelude::*;

verus! {

/// Response status, a closed set of two-digit codes.
///
/// Every valid wire value maps to exactly one variant; unmapped two-digit
/// values are rejected by [`Status::try_from`], never coerced.
#[derive(Debug, Clone, Copy, PartialEq, Eq, Structural)]
pub enum Status {
    Input,
    SensitiveInput,
    Success,
    RedirectTemporary,
    RedirectPermanent,
    TemporaryFailure,
    ServerUnavailable,
    CgiError,
    ProxyError,
    SlowDown,
    PermanentFailure,
    NotFound,
    Gone,
    ProxyRequestRefused,
    BadRequest,
    ClientCertificateRequired,
    CertificateNotAuthorised,
    CertificateNotValid,
}

/// Coarse category of a [`Status`], determined by the tens digit of its code.
#[derive(Debug, Clone, Copy, PartialEq, Eq, Structural)]
pub enum StatusType {
    Input,
    Success,
    Redirect,
    TemporaryFailure,
    PermanentFailure,
    CertificateRequired,
}

impl Status {
    /// The numeric wire code of this status.
    pub open spec fn spec_code(self) -> int {
        match self {
            Status::Input => 10,
            Status::SensitiveInput => 11,
            Status::Success => 20,
            Status::RedirectTemporary => 30,
            Status::RedirectPermanent => 31,
            Status::TemporaryFailure => 40,
            Status::ServerUnavailable => 41,
            Status::CgiError => 42,
            Status::ProxyError => 43,
            Status::SlowDown => 44,
            Status::PermanentFailure => 50,
            Status::NotFound => 51,
            Status::Gone => 52,
            Status::ProxyRequestRefused => 53,
            Status::BadRequest => 54,
            Status::ClientCertificateRequired => 60,
            Status::CertificateNotAuthorised => 61,
            Status::CertificateNotValid => 62,
        }
    }

    /// The status, if any, whose wire code is `code`.
    pub open spec fn spec_from_code(code: int) -> Option<Status> {
        if code == 10 { Some(Status::Input) }
        else if code == 11 { Some(Status::SensitiveInput) }
        else if code == 20 { Some(Status::Success) }
        else if code == 30 { Some(Status::RedirectTemporary) }
        else if code == 31 { Some(Status::RedirectPermanent) }
        else if code == 40 { Some(Status::TemporaryFailure) }
        else if code == 41 { Some(Status::ServerUnavailable) }
        else if code == 42 { Some(Status::CgiError) }
        else if code == 43 { Some(Status::ProxyError) }
        else if code == 44 { Some(Status::SlowDown) }
        else if code == 50 { Some(Status::PermanentFailure) }
        else if code == 51 { Some(Status::NotFound) }
        else if code == 52 { Some(Status::Gone) }
        else if code == 53 { Some(Status::ProxyRequestRefused) }
        else if code == 54 { Some(Status::BadRequest) }
        else if code == 60 { Some(Status::ClientCertificateRequired) }
        else if code == 61 { Some(Status::CertificateNotAuthorised) }
        else if code == 62 { Some(Status::CertificateNotValid) }
        else { None }
    }

    /// The category this status belongs to.
    pub open spec fn spec_status_type(self) -> StatusType {
        match self {
            Status::Input | Status::SensitiveInput => StatusType::Input,
            Status::Success => StatusType::Success,
            Status::RedirectTemporary | Status::RedirectPermanent => StatusType::Redirect,
            Status::TemporaryFailure
            | Status::ServerUnavailable
            | Status::CgiError
            | Status::ProxyError
            | Status::SlowDown => StatusType::TemporaryFailure,
            Status::PermanentFailure
            | Status::NotFound
            | Status::Gone
            | Status::ProxyRequestRefused
            | Status::BadRequest => StatusType::PermanentFailure,
            Status::ClientCertificateRequired
            | Status::CertificateNotAuthorised
            | Status::CertificateNotValid => StatusType::CertificateRequired,
        }
    }

    /// The numeric wire code of this status.
    pub fn code(&self) -> (r: i32)
        ensures
            r == self.spec_code(),
    {
        match self {
            Status::Input => 10,
            Status::SensitiveInput => 11,
            Status::Success => 20,
            Status::RedirectTemporary => 30,
            Status::RedirectPermanent => 31,
            Status::TemporaryFailure => 40,
            Status::ServerUnavailable => 41,
            Status::CgiError => 42,
            Status::ProxyError => 43,
            Status::SlowDown => 44,
            Status::PermanentFailure => 50,
            Status::NotFound => 51,
            Status::Gone => 52,
            Status::ProxyRequestRefused => 53,
            Status::BadRequest => 54,
            Status::ClientCertificateRequired => 60,
            Status::CertificateNotAuthorised => 61,
            Status::CertificateNotValid => 62,
        }
    }

    /// The category of this status: its code's tens bucket.
    pub fn status_type(&self) -> (r: StatusType)
        ensures
            r == self.spec_status_type(),
            r.spec_code() == self.spec_code() / 10,
    {
        match self {
            Status::Input | Status::SensitiveInput => StatusType::Input,
            Status::Success => StatusType::Success,
            Status::RedirectTemporary | Status::RedirectPermanent => StatusType::Redirect,
            Status::TemporaryFailure
            | Status::ServerUnavailable
            | Status::CgiError
            | Status::ProxyError
            | Status::SlowDown => StatusType::TemporaryFailure,
            Status::PermanentFailure
            | Status::NotFound
            | Status::Gone
            | Status::ProxyRequestRefused
            | Status::BadRequest => StatusType::PermanentFailure,
            Status::ClientCertificateRequired
            | Status::CertificateNotAuthorised
            | Status::CertificateNotValid => StatusType::CertificateRequired,
        }
    }

    /// Maps a numeric code to its status; `Err` exactly on values outside the
    /// closed set.
    pub fn try_from(value: i32) -> (r: Result<Status, ()>)
        ensures
            r is Ok <==> Status::spec_from_code(value as int) is Some,
            r matches Ok(s) ==> Status::spec_from_code(value as int) == Some(s),
    {
        match value {
            10 => Ok(Status::Input),
            11 => Ok(Status::SensitiveInput),
            20 => Ok(Status::Success),
            30 => Ok(Status::RedirectTemporary),
            31 => Ok(Status::RedirectPermanent),
            40 => Ok(Status::TemporaryFailure),
            41 => Ok(Status::ServerUnavailable),
            42 => Ok(Status::CgiError),
            43 => Ok(Status::ProxyError),
            44 => Ok(Status::SlowDown),
            50 => Ok(Status::PermanentFailure),
            51 => Ok(Status::NotFound),
            52 => Ok(Status::Gone),
            53 => Ok(Status::ProxyRequestRefused),
            54 => Ok(Status::BadRequest),
            60 => Ok(Status::ClientCertificateRequired),
            61 => Ok(Status::CertificateNotAuthorised),
            62 => Ok(Status::CertificateNotValid),
            _ => Err(()),
        }
    }
}

impl StatusType {
    /// The numeric code of this category: the tens digit of its statuses.
    pub open spec fn spec_code(self) -> int {
        match self {
            StatusType::Input => 1,
            StatusType::Success => 2,
            StatusType::Redirect => 3,
            StatusType::TemporaryFailure => 4,
            StatusType::PermanentFailure => 5,
            StatusType::CertificateRequired => 6,
        }
    }

    /// The category, if any, whose numeric code is `code`.
    pub open spec fn spec_from_code(code: int) -> Option<StatusType> {
        if code == 1 { Some(StatusType::Input) }
        else if code == 2 { Some(StatusType::Success) }
        else if code == 3 { Some(StatusType::Redirect) }
        else if code == 4 { Some(StatusType::TemporaryFailure) }
        else if code == 5 { Some(StatusType::PermanentFailure) }
        else if code == 6 { Some(StatusType::CertificateRequired) }
        else { None }
    }

    /// The numeric code of this category.
    pub fn code(&self) -> (r: i32)
        ensures
            r == self.spec_code(),
    {
        match self {
            StatusType::Input => 1,
            StatusType::Success => 2,
            StatusType::Redirect => 3,
            StatusType::TemporaryFailure => 4,
            StatusType::PermanentFailure => 5,
            StatusType::CertificateRequired => 6,
        }
    }

    /// Maps a numeric code to its category; `Err` exactly on values outside
    /// the six defined buckets.
    pub fn try_from(value: i32) -> (r: Result<StatusType, ()>)
        ensures
            r is Ok <==> StatusType::spec_from_code(value as int) is Some,
            r matches Ok(t) ==> StatusType::spec_from_code(value as int) == Some(t),
    {
        match value {
            1 => Ok(StatusType::Input),
            2 => Ok(StatusType::Success),
            3 => Ok(StatusType::Redirect),
            4 => Ok(StatusType::TemporaryFailure),
            5 => Ok(StatusType::PermanentFailure),
            6 => Ok(StatusType::CertificateRequired),
            _ => Err(()),
        }
    }
}

/// The response header: a status and the raw metadata line that followed it.
///
/// The meaning of `meta` depends on the status category: an input prompt, a
/// MIME type string, a redirect target, or an error message.
#[derive(Debug)]
pub struct Header {
    pub status: Status,
    pub meta: String,
}

/// The parts of a request URL that the protocol logic reads: the scheme, the
/// host, and the port. Parsing a URL string into these parts is a
/// collaborator's job; this crate works on the parts as plain values.
#[derive(Debug, Clone)]
pub struct Url {
    pub scheme: String,
    pub host: Option<String>,
    pub port: Option<u16>,
}

/// A validated request: a URL with the protocol's scheme, a non-empty host,
/// and a port (defaulted if the caller gave none).
#[derive(Debug)]
pub struct Request {
    pub url: Url,
}

impl Request {
    /// Builds a request from a URL of the protocol's own scheme with a
    /// non-empty host. A missing port is defaulted to the protocol's standard
    /// port, 1965; everything else is kept as given.
    pub fn new(url: Url) -> (r: Request)
        requires
            url.scheme@ == "gemini"@,
            match url.host {
                Some(h) => h@.len() > 0,
                None => false,
            },
        ensures
            r.url.scheme == url.scheme,
            r.url.host == url.host,
            r.url.port == if url.port is Some { url.port } else { Some(1965u16) },
    {
        let mut url = url;
        if url.port.is_none() {
            url.port = Some(1965);
        }
        Request { url }
    }
}

#[verifier::external_type_specification]
#[verifier::external_body]
pub struct ExMime(mime::Mime);

#[verifier::external_type_specification]
#[verifier::external_body]
pub struct ExFromStrError(mime::FromStrError);

/// Whether a string parses as a MIME type.
pub uninterp spec fn mime_ok(s: Seq<char>) -> bool;

/// Relies on `<mime::Mime as FromStr>::from_str`: whether a string parses as
/// a MIME type, and which value comes back, depend on its characters alone.
#[verifier::external_body]
fn parse_mime(s: &str) -> (r: Result<mime::Mime, mime::FromStrError>)
    ensures
        r is Ok <==> mime_ok(s@),
{
    <mime::Mime as core::str::FromStr>::from_str(s)
}

/// A full response: the header, the MIME value parsed out of the metadata
/// when — and only when — the status category is Success, and the body bytes.
#[derive(Debug)]
pub struct Response {
    pub header: Header,
    pub mime: Option<mime::Mime>,
    pub body: Vec<u8>,
}

impl Response {
    /// Assembles a response from a decoded header and the remaining body
    /// bytes. For a Success status the metadata must parse as a MIME type,
    /// and the parsed value is kept; for every other category the metadata is
    /// left uninterpreted and `mime` is absent.
    pub fn new(header: Header, body: Vec<u8>) -> (r: Result<Response, mime::FromStrError>)
        ensures
            match r {
                Ok(resp) => {
                    &&& resp.header == header
                    &&& resp.body == body
                    &&& resp.mime is Some <==> header.status.spec_status_type()
                        == StatusType::Success
                    &&& header.status.spec_status_type() == StatusType::Success
                        ==> mime_ok(header.meta@)
                },
                Err(_) => header.status.spec_status_type() == StatusType::Success
                    && !mime_ok(header.meta@),
            },
    {
        let mut mime_val: Option<mime::Mime> = None;
        if header.status.status_type() == StatusType::Success {
            match parse_mime(header.meta.as_str()) {
                Ok(m) => {
                    mime_val = Some(m);
                },
                Err(e) => {
                    return Err(e);
                },
            }
        }
        Ok(Response { header, mime: mime_val, body })
    }
}

/// Law: the category of every status is its code divided by ten.
pub proof fn lemma_status_category(s: Status)
    ensures
        s.spec_status_type().spec_code() == s.spec_code() / 10,
{
}

/// Law: mapping a status's own code back through the closed case table yields
/// that status again; the table is a bijection on the valid wire values.
pub proof fn lemma_status_code_roundtrip(s: Status)
    ensures
        Status::spec_from_code(s.spec_code()) == Some(s),
{
}

} // verus!
