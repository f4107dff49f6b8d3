//! The tag-value encoding of FIX messages.

use vstd::prelude::*;

pub mod config;
pub mod decoder;
pub mod encoder;
pub mod roundtrip;
pub mod taglookup;
pub mod utils;

pub use config::{Config, Configure};
pub use decoder::{decode, parse_header, Field, Header};
pub use encoder::encode;
pub use taglookup::{TagLookup, TagLookupSingleAppVersion};

pub use utils::{
    checksum_10, checksum_digits, encode_raw, parse_u8_from_decimal, verify_body_length,
    verify_checksum,
};

verus! {

/// Why a byte range was not accepted as a tag-value message.
#[derive(Debug, Copy, Clone, PartialEq, Eq, Structural)]
pub enum DecodeError {
    /// The message is shorter than any well-formed message can be.
    MessageTooShort,
    /// The message is longer than the configured maximum.
    MessageTooLarge,
    /// The digits of `CheckSum <10>` disagree with the checksum of the bytes
    /// that come before that field.
    ChecksumMismatch,
    /// The value of `BodyLength <9>` disagrees with the number of bytes
    /// between that field and `CheckSum <10>`, or the offsets do not fit the
    /// message.
    InvalidBodyLength,
    /// The message is not made of fields of the form `tag=value`, each
    /// followed by the separator, with `BeginString <8>` and `BodyLength <9>`
    /// first and `CheckSum <10>` last.
    Invalid,
    /// In strict mode: the tag lookup does not know the tag of some field of
    /// the body. `tag` is the first such tag.
    UnknownTag { tag: u32 },
}

/// Why a message could not be encoded.
#[derive(Debug, Copy, Clone, PartialEq, Eq, Structural)]
pub enum EncodeError {
    /// The body is longer than the six digits reserved for `BodyLength <9>`
    /// can say.
    BodyTooLong,
}

} // verus!
