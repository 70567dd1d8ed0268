//! Syntax-layer front end of an AV1 bitstream decoder: a bit reader, the OBU
//! header and framer, and the sequence header with its nested structures.
//!
//! Every decoder reads from a [`BitReader`] and either returns the decoded
//! value or fails with an [`ObuError`]. What a decoder returns is stated over
//! the window as a sequence of bits (`bitstream`): each type has a function
//! `spec_decode` that gives, for a stream and a position, the value and the
//! position behind it, or the failure.

pub mod error;
pub mod bitstream;
pub mod reader;
pub mod context;
pub mod obu;

pub use context::DecodeContext;
pub use error::{ObuError, ObuUnknownError};
pub use obu::{DecoderSession, Obu, ObuDecodeRet};
pub use reader::BitReader;
