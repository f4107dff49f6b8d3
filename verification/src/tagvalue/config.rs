//! The settings of the encoder and the decoder.

use crate::tagvalue::taglookup::{TagLookup, TagLookupSingleAppVersion};
use vstd::prelude::*;

verus! {

/// ASCII 0x1 (SOH), the separator of fields unless another is chosen.
pub const SOH: u8 = 0x1;

/// The largest message that is decoded unless another limit is chosen.
pub const DEFAULT_MAX_MESSAGE_SIZE: usize = 65536;

/// The settings that encoding and decoding depend on.
///
/// By convention the name of an implementor starts with `Config`.
pub trait Configure: Clone + Default {
    /// The [`TagLookup`] that decoding uses. It has no effect on encoding.
    type TagLookup: TagLookup;

    /// The byte that ends every field of a message.
    spec fn spec_separator(&self) -> u8;

    /// The largest number of bytes that a message may have, if there is a
    /// limit.
    spec fn spec_max_message_size(&self) -> Option<usize>;

    /// Whether decoding verifies `CheckSum <10>`.
    spec fn spec_verify_checksum(&self) -> bool;

    /// The delimiter character, which terminates every tag-value pair
    /// including the last one. It matters to both encoding and decoding.
    fn separator(&self) -> (separator: u8)
        ensures
            separator == self.spec_separator(),
    ;

    /// The maximum allowed size for any single FIX message. No restrictions
    /// are imposed when it is `None`.
    fn max_message_size(&self) -> (limit: Option<usize>)
        ensures
            limit == self.spec_max_message_size(),
    ;

    /// Determines whether or not `CheckSum <10>` should be verified. It has no
    /// effect on encoding.
    fn verify_checksum(&self) -> (verify: bool)
        ensures
            verify == self.spec_verify_checksum(),
    ;
}

/// The canonical implementor of [`Configure`]. Every setting can be changed.
#[derive(Debug, Copy, Clone)]
pub struct Config {
    separator: u8,
    verify_checksum: bool,
}

impl Config {
    /// Changes the field separator character. It is SOH (ASCII 0x1) by
    /// default.
    pub fn set_separator(&mut self, separator: u8)
        ensures
            final(self).spec_separator() == separator,
            final(self).spec_verify_checksum() == old(self).spec_verify_checksum(),
    {
        self.separator = separator;
    }

    /// Returns `self` with the field separator changed to `separator`.
    pub fn with_separator(self, separator: u8) -> (config: Self)
        ensures
            config.spec_separator() == separator,
            config.spec_verify_checksum() == self.spec_verify_checksum(),
    {
        let mut config = self;
        config.separator = separator;
        config
    }

    /// Turns on or off the verification of `CheckSum <10>`. It is on by
    /// default.
    pub fn set_verify_checksum(&mut self, verify: bool)
        ensures
            final(self).spec_verify_checksum() == verify,
            final(self).spec_separator() == old(self).spec_separator(),
    {
        self.verify_checksum = verify;
    }

    /// Returns `self` with the verification of `CheckSum <10>` turned on or
    /// off.
    pub fn with_checksum_verification(self, verify: bool) -> (config: Self)
        ensures
            config.spec_verify_checksum() == verify,
            config.spec_separator() == self.spec_separator(),
    {
        let mut config = self;
        config.verify_checksum = verify;
        config
    }
}

impl Configure for Config {
    type TagLookup = TagLookupSingleAppVersion;

    closed spec fn spec_separator(&self) -> u8 {
        self.separator
    }

    open spec fn spec_max_message_size(&self) -> Option<usize> {
        Some(DEFAULT_MAX_MESSAGE_SIZE)
    }

    closed spec fn spec_verify_checksum(&self) -> bool {
        self.verify_checksum
    }

    fn separator(&self) -> (separator: u8) {
        self.separator
    }

    fn max_message_size(&self) -> (limit: Option<usize>) {
        Some(DEFAULT_MAX_MESSAGE_SIZE)
    }

    fn verify_checksum(&self) -> (verify: bool) {
        self.verify_checksum
    }
}

impl Default for Config {
    fn default() -> (config: Self)
        ensures
            config.spec_separator() == SOH,
            config.spec_verify_checksum(),
    {
        Config { separator: SOH, verify_checksum: true }
    }
}

} // verus!
