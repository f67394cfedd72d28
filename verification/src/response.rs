//! The response decoder: parses a two-digit status code and a bounded,
//! CR-LF-terminated metadata line out of a raw byte buffer with no prior
//! framing, and assembles a validated [`Response`] or a typed decode error.
//!
//! Reading the peer's byte stream to exhaustion is the transport's job; the
//! decoder starts from the accumulated bytes.

use vstd::prelude::*;

use crate::payload::{mime_ok, Header, Response, Status, StatusType};
use crate::scan::{find_crlf, spec_find_crlf};
use vstd::slice::{slice_subrange, slice_to_vec};

verus! {

#[verifier::external_type_specification]
#[verifier::external_body]
pub struct ExIoError(std::io::Error);

/// The characters a byte sequence decodes to as UTF-8, or `None` when it is
/// not valid UTF-8.
pub uninterp spec fn utf8_chars(b: Seq<u8>) -> Option<Seq<char>>;

/// Relies on `String::from_utf8`: it succeeds exactly on valid UTF-8 and
/// yields the decoded characters, a function of the bytes alone; on failure,
/// `into_bytes` on the error hands back the original bytes.
#[verifier::external_body]
fn bytes_to_utf8(v: Vec<u8>) -> (r: Result<String, Vec<u8>>)
    ensures
        match r {
            Ok(m) => utf8_chars(v@) == Some(m@),
            Err(w) => utf8_chars(v@) is None && w@ == v@,
        },
{
    match String::from_utf8(v) {
        Ok(m) => Ok(m),
        Err(e) => Err(e.into_bytes()),
    }
}

/// Why a decode failed. Each failure is terminal for the call: there is no
/// partial response.
#[derive(Debug)]
pub enum ResponseDecoderError {
    /// An I/O failure from the byte source, surfaced unchanged by the caller
    /// that read the stream; the decoder itself never produces it.
    Socket(std::io::Error),
    /// Fewer than three leading bytes, or a two-digit value outside the
    /// closed status set; carries the offending bytes.
    BadStatus(Vec<u8>),
    /// No CR-LF within the bounded scan, or metadata that is not valid
    /// UTF-8; carries the raw metadata bytes (empty when no CR-LF exists).
    BadMeta(Vec<u8>),
    /// Metadata of a Success response that does not parse as a MIME type.
    BadMime(mime::FromStrError),
}

/// The status encoded by the first two bytes: both must be ASCII digits and
/// the two-digit value must lie in the closed status set.
pub open spec fn spec_status_of(b0: u8, b1: u8) -> Option<Status> {
    if 48 <= b0 <= 57 && 48 <= b1 <= 57 {
        Status::spec_from_code((b0 - 48) * 10 + (b1 - 48))
    } else {
        None
    }
}

/// The end of the bounded metadata scan that starts at `from`: the protocol
/// caps the metadata line at 1024 bytes plus its two terminator bytes.
pub open spec fn spec_meta_bound(len: int, from: int) -> int {
    if len < from + 1026 {
        len
    } else {
        from + 1026
    }
}

/// Decodes responses of the wire format: a two-digit status, one separator
/// byte, a CR-LF-terminated metadata line, then the body until the stream
/// closed.
pub struct ResponseDecoder {}

impl ResponseDecoder {
    /// Parses the status from the first three bytes of `buf`: two decimal
    /// digits forming a value in the closed status set, plus one separator
    /// byte consumed with them. `Err` carries the offending bytes: the whole
    /// buffer when shorter than three bytes, its three-byte prefix otherwise.
    pub fn parse_status(&self, buf: &[u8]) -> (r: Result<Status, ResponseDecoderError>)
        ensures
            match r {
                Ok(st) => buf@.len() >= 3 && spec_status_of(buf@[0], buf@[1]) == Some(st),
                Err(e) => e matches ResponseDecoderError::BadStatus(raw) && ((buf@.len() < 3
                    && raw@ == buf@) || (buf@.len() >= 3 && spec_status_of(buf@[0], buf@[1])
                    is None && raw@ == buf@.take(3))),
            },
    {
        if buf.len() < 3 {
            let raw = slice_to_vec(buf);
            proof {
                assert(raw@ =~= buf@);
            }
            return Err(ResponseDecoderError::BadStatus(raw));
        }
        let b0 = buf[0];
        let b1 = buf[1];
        if 48 <= b0 && b0 <= 57 && 48 <= b1 && b1 <= 57 {
            let code = (b0 - 48) as i32 * 10 + (b1 - 48) as i32;
            match Status::try_from(code) {
                Ok(st) => {
                    return Ok(st);
                },
                Err(_) => {},
            }
        }
        let raw = slice_to_vec(slice_subrange(buf, 0, 3));
        proof {
            assert(raw@ =~= buf@.take(3));
        }
        Err(ResponseDecoderError::BadStatus(raw))
    }

    /// Scans `buf` from `from` for the first CR-LF terminator within the
    /// 1026-byte bound, and decodes the bytes before it as UTF-8 text. `Ok`
    /// returns the text and the offset just past the terminator; `Err` is
    /// always `BadMeta`, carrying nothing when no CR-LF lies in the bound
    /// and the raw line (terminator included) when it is not valid UTF-8.
    pub fn parse_meta(&self, buf: &[u8], from: usize) -> (r: Result<
        (String, usize),
        ResponseDecoderError,
    >)
        requires
            from <= buf@.len(),
        ensures
            ({
                let bound = spec_meta_bound(buf@.len() as int, from as int);
                match r {
                    Ok((m, end)) => spec_find_crlf(buf@, from + 1, bound) matches Some(j) && end
                        == j + 1 && end <= buf@.len() && utf8_chars(
                        buf@.subrange(from as int, j - 1),
                    ) == Some(m@),
                    Err(e) => e matches ResponseDecoderError::BadMeta(raw) && (match spec_find_crlf(
                        buf@,
                        from + 1,
                        bound,
                    ) {
                        None => raw@ == Seq::<u8>::empty(),
                        Some(j) => utf8_chars(buf@.subrange(from as int, j - 1)) is None && raw@
                            == buf@.subrange(from as int, j + 1),
                    }),
                }
            }),
    {
        let len = buf.len();
        if from >= len {
            return Err(ResponseDecoderError::BadMeta(Vec::new()));
        }
        let bound = if len - from < 1026 {
            len
        } else {
            from + 1026
        };
        match find_crlf(buf, from + 1, bound) {
            None => Err(ResponseDecoderError::BadMeta(Vec::new())),
            Some(j) => {
                let meta_bytes = slice_to_vec(slice_subrange(buf, from, j - 1));
                match bytes_to_utf8(meta_bytes) {
                    Ok(m) => Ok((m, j + 1)),
                    Err(mut w) => {
                        w.push(13);
                        w.push(10);
                        proof {
                            assert(w@ =~= buf@.subrange(from as int, j + 1));
                        }
                        Err(ResponseDecoderError::BadMeta(w))
                    },
                }
            },
        }
    }

    /// Decodes a whole response buffer: the status from the three-byte
    /// prefix, the metadata line up to its CR-LF terminator (within the
    /// 1026-byte bound), then everything remaining as the body. The MIME
    /// value is parsed out of the metadata exactly when the status category
    /// is Success; each failure surfaces as its own error variant, and the
    /// decoder itself never returns `Socket`.
    pub fn decode(&self, buf: Vec<u8>) -> (r: Result<Response, ResponseDecoderError>)
        ensures
            ({
                let bound = spec_meta_bound(buf@.len() as int, 3);
                match r {
                    Ok(resp) => {
                        &&& buf@.len() >= 3
                        &&& spec_status_of(buf@[0], buf@[1]) matches Some(st)
                            && resp.header.status == st && (resp.mime is Some
                            <==> st.spec_status_type() == StatusType::Success) && (
                        st.spec_status_type() == StatusType::Success ==> mime_ok(
                            resp.header.meta@,
                        ))
                        &&& spec_find_crlf(buf@, 4, bound) matches Some(j) && utf8_chars(
                            buf@.subrange(3, j - 1),
                        ) == Some(resp.header.meta@) && resp.body@ == buf@.skip(j + 1)
                    },
                    Err(e) => match e {
                        ResponseDecoderError::BadStatus(raw) => (buf@.len() < 3 && raw@ == buf@)
                            || (buf@.len() >= 3 && spec_status_of(buf@[0], buf@[1]) is None
                            && raw@ == buf@.take(3)),
                        ResponseDecoderError::BadMeta(raw) => buf@.len() >= 3 && spec_status_of(
                            buf@[0],
                            buf@[1],
                        ) is Some && (match spec_find_crlf(buf@, 4, bound) {
                            None => raw@ == Seq::<u8>::empty(),
                            Some(j) => utf8_chars(buf@.subrange(3, j - 1)) is None && raw@
                                == buf@.subrange(3, j + 1),
                        }),
                        ResponseDecoderError::BadMime(_) => match (
                            spec_status_of(buf@[0], buf@[1]),
                            spec_find_crlf(buf@, 4, bound),
                        ) {
                            (Some(st), Some(j)) => buf@.len() >= 3 && st.spec_status_type()
                                == StatusType::Success && (match utf8_chars(
                                buf@.subrange(3, j - 1),
                            ) {
                                Some(m) => !mime_ok(m),
                                None => false,
                            }),
                            _ => false,
                        },
                        ResponseDecoderError::Socket(_) => false,
                    },
                }
            }),
    {
        let status = match self.parse_status(buf.as_slice()) {
            Ok(st) => st,
            Err(e) => {
                return Err(e);
            },
        };
        let (meta, end) = match self.parse_meta(buf.as_slice(), 3) {
            Ok(v) => v,
            Err(e) => {
                return Err(e);
            },
        };
        let body = slice_to_vec(slice_subrange(buf.as_slice(), end, buf.len()));
        proof {
            assert(body@ =~= buf@.skip(end as int));
        }
        let header = Header { status, meta };
        match Response::new(header, body) {
            Ok(resp) => Ok(resp),
            Err(e) => Err(ResponseDecoderError::BadMime(e)),
        }
    }
}

} // verus!
