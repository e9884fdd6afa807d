//! Decoder for one line of the IRC wire format.
//!
//! A raw, possibly CRLF-terminated protocol line is turned into a structured
//! [`message::Message`] — origin prefix, command or reply code, positional
//! arguments with an optional trailing free-text argument — or rejected with
//! a [`message::ParseError`] that says exactly why the line is malformed.

pub mod codes;
pub mod laws;
pub mod message;
pub mod text;

pub use codes::Code;
pub use message::parse_prefix;
pub use message::Message;
pub use message::ParseError;
pub use message::Prefix;
pub use message::PrefixUser;
