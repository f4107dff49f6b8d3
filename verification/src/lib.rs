//! Wire-level codec for FIX tag-value messages: the datatype taxonomy, the
//! checksum and body-length rules, the encoder, the decoder and the framing
//! of messages on a byte stream.

pub mod dt;
pub mod fixs;
pub mod sofh;
pub mod tagvalue;

pub use dt::DataType;
