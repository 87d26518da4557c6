//! Decoding and request planning for real-time transit feeds.
//!
//! The crate holds the parts of a transit client that compute: reading the
//! JSON shapes that the upstream services answer with, planning the digest
//! authentication handshake, and merging the answers of mirror hosts. It
//! performs no I/O; a caller sends what is planned here and hands back what
//! came.

pub mod text;
pub mod json;
pub mod fields;
pub mod error;
pub mod decode;
pub mod fanout;
pub mod request;
pub mod digest;
pub mod timestamp;
pub mod clients;
pub mod exchange;
