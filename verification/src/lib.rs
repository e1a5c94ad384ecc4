//! Verified core of a Vorbis decoding layer.
//!
//! The decoding engine and the byte stream stay outside: this crate holds the
//! decisions taken around them, each with a contract that Verus proves.
//!
//! - `error`: the kinds of failure, and what each result code of the engine
//!   means.
//! - `shim`: what the engine's read, seek and tell callbacks answer.
//! - `decoder`: the state of a decoding session, and what becomes of it when
//!   the stream or the engine has answered.
//! - `packet`: the request of a decode-read, and the packet made of what it
//!   produced.
//! - `headers`: the vendor text and the list of comments of a stream.
//! - `comment`: one comment, a `KEY=VALUE` tag in raw bytes.
//! - `text`: decoding of bytes as UTF-8 text.

pub mod comment;
pub mod decoder;
pub mod error;
pub mod headers;
pub mod packet;
pub mod shim;
pub mod text;

pub use crate::comment::Comment;
pub use crate::decoder::Decoder;
pub use crate::error::check_errors;
pub use crate::error::VorbisError;
pub use crate::headers::CommentsIter;
pub use crate::headers::Headers;
pub use crate::packet::Packet;
