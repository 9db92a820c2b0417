//! The error taxonomy of the library: storage failure, the expected
//! duplicate-content condition, clipboard failure, configuration failure,
//! and the size/type rejections.

use vstd::prelude::*;
use vstd::string::StringExecFns;
use crate::strutil::{dec_str, u64_to_dec};

verus! {

/// Every failure a caller of the library can observe.
///
/// `DuplicateContent` is the expected, non-fatal outcome of inserting a
/// payload whose content hash is already stored; the other variants are
/// genuine failures.
#[derive(Debug)]
pub enum ClipManagerError {
    /// The persistence engine failed; carries its message.
    Database(String),
    /// Reading or writing the OS clipboard failed; carries the message.
    Clipboard(String),
    /// An input/output failure outside the store; carries the message.
    Io(String),
    /// A row with the same content hash is already stored.
    DuplicateContent,
    /// The configuration could not be resolved or parsed.
    Config { message: String },
    /// A payload larger than the configured maximum.
    ContentTooLarge { size: usize, max_size: usize },
    /// A clipboard payload of a kind the library does not store.
    UnsupportedContentType,
}

/// The description `message` returns for each variant.
pub open spec fn message_spec(e: ClipManagerError) -> Seq<char> {
    match e {
        ClipManagerError::Database(m) => "Database error: "@ + m@,
        ClipManagerError::Clipboard(m) => "Clipboard operation error: "@ + m@,
        ClipManagerError::Io(m) => "IO error: "@ + m@,
        ClipManagerError::DuplicateContent => "Content already exists"@,
        ClipManagerError::Config { message } => "Configuration error: "@ + message@,
        ClipManagerError::ContentTooLarge { size, max_size } => "Content too large: "@ + dec_str(
            size as u64,
        ) + " bytes, maximum allowed "@ + dec_str(max_size as u64) + " bytes"@,
        ClipManagerError::UnsupportedContentType => "Unsupported content type"@,
    }
}

impl ClipManagerError {
    /// A human-readable description of the error.
    pub fn message(&self) -> (r: String)
        ensures
            r@ == message_spec(*self),
    {
        match self {
            ClipManagerError::Database(m) => {
                let mut s = String::from_str("Database error: ");
                s.append(m.as_str());
                s
            },
            ClipManagerError::Clipboard(m) => {
                let mut s = String::from_str("Clipboard operation error: ");
                s.append(m.as_str());
                s
            },
            ClipManagerError::Io(m) => {
                let mut s = String::from_str("IO error: ");
                s.append(m.as_str());
                s
            },
            ClipManagerError::DuplicateContent => String::from_str("Content already exists"),
            ClipManagerError::Config { message } => {
                let mut s = String::from_str("Configuration error: ");
                s.append(message.as_str());
                s
            },
            ClipManagerError::ContentTooLarge { size, max_size } => {
                let mut s = String::from_str("Content too large: ");
                s.append(u64_to_dec(*size as u64).as_str());
                s.append(" bytes, maximum allowed ");
                s.append(u64_to_dec(*max_size as u64).as_str());
                s.append(" bytes");
                s
            },
            ClipManagerError::UnsupportedContentType => String::from_str(
                "Unsupported content type",
            ),
        }
    }

    /// Whether this is the expected duplicate-content condition rather than
    /// a genuine failure.
    pub fn is_duplicate(&self) -> (r: bool)
        ensures
            r == (*self is DuplicateContent),
    {
        match self {
            ClipManagerError::DuplicateContent => true,
            _ => false,
        }
    }
}

} // verus!
