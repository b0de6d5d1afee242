//! A NetFlow v5 flow collector library.
//!
//! The library decodes raw NetFlow v5 export datagrams into structured flow
//! records and wraps each record in an envelope carrying collection metadata
//! (receive time, exporter address). Decoding is a pure, verified
//! transformation from bytes to records; the surrounding UDP transport is an
//! external concern.

pub mod bytes;
pub mod nfmsg;
pub mod nfv5;
pub mod handlers;
