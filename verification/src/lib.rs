//! Client-side core of a line-oriented, TLS-wrapped request/response protocol
//! and of the markup document format carried in its response bodies.
//!
//! The crate holds the protocol payload model (`payload`), the byte-scanning
//! primitives shared by the parsers (`scan`), the document block parser
//! (`gemtext`), and the response decoder (`response`). Transport and TLS are
//! collaborators outside this crate: the decoder works on an already-received
//! byte buffer.

pub mod gemtext;
pub mod payload;
pub mod response;
pub mod scan;
