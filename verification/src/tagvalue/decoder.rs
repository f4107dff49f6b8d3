//! Decoding of tag-value messages: the checks on a message as a whole, and
//! the splitting of its body into fields.

use crate::dt::DataType;
use crate::tagvalue::config::Configure;
use crate::tagvalue::taglookup::TagLookup;
use crate::tagvalue::utils::{
    body_length_matches, checksum_matches, verify_body_length, verify_checksum, ASCII_EIGHT,
    ASCII_EQUALS, ASCII_NINE, ASCII_ONE, ASCII_ZERO, FIELD_CHECKSUM_LEN_IN_BYTES,
    MIN_FIX_MESSAGE_LEN_IN_BYTES,
};
use crate::tagvalue::DecodeError;
use vstd::prelude::*;

verus! {

/// Whether `byte` is one of the ASCII digits `0` to `9`.
pub open spec fn is_digit(byte: u8) -> bool {
    ASCII_ZERO <= byte <= ASCII_NINE
}

/// Whether `text` is made of ASCII digits alone.
pub open spec fn all_digits(text: Seq<u8>) -> bool {
    forall|i: int| 0 <= i < text.len() ==> is_digit(#[trigger] text[i])
}

/// The number that the ASCII digits `text` say in decimal. Leading zeros do
/// not count, and no digits at all say 0.
pub open spec fn decimal_value(text: Seq<u8>) -> nat
    decreases text.len(),
{
    if text.len() == 0 {
        0
    } else {
        decimal_value(text.drop_last()) * 10 + (text.last() - ASCII_ZERO) as nat
    }
}

/// The first place from `from` on, and before `to`, where `data` holds
/// `byte`; `to` if there is none.
pub open spec fn position(data: Seq<u8>, from: int, to: int, byte: u8) -> int
    decreases to - from,
{
    if from >= to {
        to
    } else if data[from] == byte {
        from
    } else {
        position(data, from + 1, to, byte)
    }
}

/// Returns the first place from `from` on, and before `to`, where `data`
/// holds `byte`; `to` if there is none.
fn find_byte(data: &[u8], from: usize, to: usize, byte: u8) -> (place: usize)
    requires
        from <= to <= data@.len(),
    ensures
        place == position(data@, from as int, to as int, byte),
        from <= place <= to,
{
    let mut i: usize = from;
    while i < to && data[i] != byte
        invariant
            from <= i <= to <= data@.len(),
            position(data@, from as int, to as int, byte) == position(
                data@,
                i as int,
                to as int,
                byte,
            ),
        decreases to - i,
    {
        i += 1;
    }
    i
}

/// With every digit that is read, the number read so far stays or grows.
pub proof fn lemma_decimal_value_grows(text: Seq<u8>, read: int)
    requires
        all_digits(text),
        0 <= read <= text.len(),
    ensures
        decimal_value(text.take(read)) <= decimal_value(text),
    decreases text.len() - read,
{
    if read == text.len() {
        assert(text.take(read) =~= text);
    } else {
        assert(text.take(read + 1).drop_last() =~= text.take(read));
        assert(is_digit(text[read]));
        lemma_decimal_value_grows(text, read + 1);
    }
}

/// Whether the bytes of `data` from `from` to `to` are ASCII digits, and at
/// least one.
fn is_number(data: &[u8], from: usize, to: usize) -> (number: bool)
    requires
        from <= to <= data@.len(),
    ensures
        number == (from < to && all_digits(data@.subrange(from as int, to as int))),
{
    if from == to {
        return false;
    }
    let ghost text = data@.subrange(from as int, to as int);
    let mut i: usize = from;
    while i < to
        invariant
            from <= i <= to <= data@.len(),
            text == data@.subrange(from as int, to as int),
            all_digits(text.take(i - from)),
        decreases to - i,
    {
        if data[i] < ASCII_ZERO || data[i] > ASCII_NINE {
            proof {
                assert(text[i - from] == data@[i as int]);
            }
            return false;
        }
        proof {
            assert forall|k: int| 0 <= k < i + 1 - from implies is_digit(
                #[trigger] text.take(i + 1 - from)[k],
            ) by {
                if k < i - from {
                    assert(text.take(i - from)[k] == text[k]);
                }
            }
        }
        i += 1;
    }
    proof {
        assert(text.take(i - from) =~= text);
    }
    true
}

/// Reads the ASCII digits of `data` from `from` to `to` as a decimal number.
/// Returns `None` if the number is greater than `limit`.
fn parse_decimal(data: &[u8], from: usize, to: usize, limit: u64) -> (number: Option<u64>)
    requires
        from <= to <= data@.len(),
        all_digits(data@.subrange(from as int, to as int)),
    ensures
        number == if decimal_value(data@.subrange(from as int, to as int)) <= limit {
            Some(decimal_value(data@.subrange(from as int, to as int)) as u64)
        } else {
            None
        },
{
    let ghost text = data@.subrange(from as int, to as int);
    let mut value: u128 = 0;
    let mut i: usize = from;
    proof {
        assert(text.take(0) =~= Seq::<u8>::empty());
    }
    while i < to
        invariant
            from <= i <= to <= data@.len(),
            text == data@.subrange(from as int, to as int),
            all_digits(text),
            value == decimal_value(text.take(i - from)),
            value <= limit,
        decreases to - i,
    {
        proof {
            assert(text.take(i + 1 - from).drop_last() =~= text.take(i - from));
            assert(text[i - from] == data@[i as int]);
            assert(is_digit(text[i - from]));
        }
        value = value * 10 + (data[i] - ASCII_ZERO) as u128;
        if value > limit as u128 {
            proof {
                lemma_decimal_value_grows(text, i + 1 - from);
            }
            return None;
        }
        i += 1;
    }
    proof {
        assert(text.take(i - from) =~= text);
    }
    Some(value as u64)
}

/// Where the two fields that open a message end, and what the second says.
#[derive(Debug, Copy, Clone, PartialEq, Eq, Structural)]
pub struct Header {
    /// The place of the separator that ends `BeginString <8>`. The value of
    /// that field starts at 2 and ends before this place.
    pub begin_string_end: usize,
    /// The value of `BodyLength <9>`.
    pub body_length: usize,
    /// The place right behind the separator that ends `BodyLength <9>`, where
    /// the body starts.
    pub start_of_body: usize,
}

/// The place of the first separator of `message` from 2 on, where
/// `BeginString <8>` ends; the length of `message` if there is none.
pub open spec fn begin_string_end(message: Seq<u8>, separator: u8) -> int {
    position(message, 2, message.len() as int, separator)
}

/// The place of the first separator of `message` behind the `9=` that
/// follows `BeginString <8>`; the length of `message` if there is none.
pub open spec fn body_length_end(message: Seq<u8>, separator: u8) -> int {
    position(message, begin_string_end(message, separator) + 3, message.len() as int, separator)
}

/// The bytes of `message` between the `9=` that follows `BeginString <8>`
/// and the next separator.
pub open spec fn body_length_text(message: Seq<u8>, separator: u8) -> Seq<u8> {
    message.subrange(
        begin_string_end(message, separator) + 3,
        body_length_end(message, separator),
    )
}

/// Whether `message` starts with `8=`, a value, the separator, `9=`, at least
/// one digit, and the separator.
pub open spec fn header_is_well_formed(message: Seq<u8>, separator: u8) -> bool {
    let b = begin_string_end(message, separator);
    let l = body_length_end(message, separator);
    &&& message.len() >= 2
    &&& message[0] == ASCII_EIGHT
    &&& message[1] == ASCII_EQUALS
    &&& b + 3 < l < message.len()
    &&& message[b + 1] == ASCII_NINE
    &&& message[b + 2] == ASCII_EQUALS
    &&& all_digits(body_length_text(message, separator))
}

/// The header of `message`, or why it has none: it is not well formed, or the
/// body length that it gives is too large for any message.
pub open spec fn spec_parse_header(message: Seq<u8>, separator: u8) -> Result<Header, DecodeError> {
    if !header_is_well_formed(message, separator) {
        Err(DecodeError::Invalid)
    } else if decimal_value(body_length_text(message, separator)) > usize::MAX {
        Err(DecodeError::InvalidBodyLength)
    } else {
        Ok(
            Header {
                begin_string_end: begin_string_end(message, separator) as usize,
                body_length: decimal_value(body_length_text(message, separator)) as usize,
                start_of_body: (body_length_end(message, separator) + 1) as usize,
            },
        )
    }
}

/// Reads `BeginString <8>` and `BodyLength <9>` at the start of `message`.
pub fn parse_header(message: &[u8], separator: u8) -> (result: Result<Header, DecodeError>)
    ensures
        result == spec_parse_header(message@, separator),
{
    let n: usize = message.len();
    if n < 2 || message[0] != ASCII_EIGHT || message[1] != ASCII_EQUALS {
        return Err(DecodeError::Invalid);
    }
    let b: usize = find_byte(message, 2, n, separator);
    if n - b < 4 {
        proof {
            assert(position(message@, b + 3, n as int, separator) == n);
        }
        return Err(DecodeError::Invalid);
    }
    if message[b + 1] != ASCII_NINE || message[b + 2] != ASCII_EQUALS {
        return Err(DecodeError::Invalid);
    }
    let l: usize = find_byte(message, b + 3, n, separator);
    if l >= n || l == b + 3 {
        return Err(DecodeError::Invalid);
    }
    if !is_number(message, b + 3, l) {
        return Err(DecodeError::Invalid);
    }
    match parse_decimal(message, b + 3, l, usize::MAX as u64) {
        None => Err(DecodeError::InvalidBodyLength),
        Some(body_length) => Ok(
            Header { begin_string_end: b, body_length: body_length as usize, start_of_body: l + 1 },
        ),
    }
}

/// One field of the body of a message: its tag, where its value lies in the
/// message, and the datatype that the tag lookup gives for the tag.
///
/// The value is not copied: a field says where it starts and where it ends.
#[derive(Debug, Copy, Clone, PartialEq, Eq, Structural)]
pub struct Field {
    /// The tag of the field. It is positive.
    pub tag: u32,
    /// The place of the first byte of the value.
    pub start: usize,
    /// The place right behind the last byte of the value, where the
    /// separator stands.
    pub end: usize,
    /// The datatype of the value, if the tag lookup knows the tag.
    pub datatype: Option<DataType>,
}

impl Field {
    /// The value of the field in `message`, the message that the field was
    /// decoded from.
    pub fn value<'a>(&self, message: &'a [u8]) -> (value: &'a [u8])
        requires
            self.start <= self.end <= message@.len(),
        ensures
            value@ == message@.subrange(self.start as int, self.end as int),
    {
        vstd::slice::slice_subrange(message, self.start, self.end)
    }
}

/// Whether `text` is a tag: at least one ASCII digit, and digits alone, which
/// say a positive number that fits in 32 bits. Leading zeros are accepted.
pub open spec fn is_tag(text: Seq<u8>) -> bool {
    &&& text.len() > 0
    &&& all_digits(text)
    &&& 1 <= decimal_value(text) <= u32::MAX
}

/// The fields that the bytes of `message` from `from` to `to` are made of,
/// in order, if they are made of fields: each a tag, `=`, a value without
/// the separator in it, and the separator.
pub open spec fn spec_split_fields<L: TagLookup>(
    message: Seq<u8>,
    from: int,
    to: int,
    separator: u8,
    lookup: &L,
) -> Option<Seq<Field>>
    decreases to - from,
{
    if from >= to {
        Some(Seq::empty())
    } else {
        let stop = position(message, from, to, separator);
        let equals = position(message, from, stop, ASCII_EQUALS);
        let tag_text = message.subrange(from, equals);
        if from <= equals < stop < to && is_tag(tag_text) {
            match spec_split_fields(message, stop + 1, to, separator, lookup) {
                Some(rest) => Some(
                    seq![
                        Field {
                            tag: decimal_value(tag_text) as u32,
                            start: (equals + 1) as usize,
                            end: stop as usize,
                            datatype: lookup.spec_lookup(decimal_value(tag_text) as u32),
                        },
                    ] + rest,
                ),
                None => None,
            }
        } else {
            None
        }
    }
}

/// Whether every one of `fields` has a positive tag and a value that lies
/// between `from` and `to`.
pub open spec fn fields_lie_within(fields: Seq<Field>, from: int, to: int) -> bool {
    forall|i: int|
        0 <= i < fields.len() ==> (#[trigger] fields[i]).tag >= 1 && from <= fields[i].start
            <= fields[i].end < to
}

/// The fields that a stretch of a message is split into have positive tags,
/// and their values lie in that stretch.
pub proof fn lemma_split_fields_lie_within<L: TagLookup>(
    message: Seq<u8>,
    from: int,
    to: int,
    separator: u8,
    lookup: &L,
)
    requires
        0 <= from,
        to <= usize::MAX,
        spec_split_fields(message, from, to, separator, lookup) is Some,
    ensures
        fields_lie_within(spec_split_fields(message, from, to, separator, lookup)->0, from, to),
    decreases to - from,
{
    if from < to {
        let stop = position(message, from, to, separator);
        let fields = spec_split_fields(message, from, to, separator, lookup)->0;
        let rest = spec_split_fields(message, stop + 1, to, separator, lookup)->0;
        lemma_split_fields_lie_within(message, stop + 1, to, separator, lookup);
        assert forall|i: int| 0 <= i < fields.len() implies (#[trigger] fields[i]).tag >= 1 && from
            <= fields[i].start <= fields[i].end < to by {
            if i > 0 {
                assert(fields[i] == rest[i - 1]);
            }
        }
    }
}

/// Splits the bytes of `message` from `from` to `to` into fields.
fn split_fields<L: TagLookup>(
    message: &[u8],
    from: usize,
    to: usize,
    separator: u8,
    lookup: &L,
) -> (fields: Option<Vec<Field>>)
    requires
        from <= to <= message@.len(),
    ensures
        match spec_split_fields(message@, from as int, to as int, separator, lookup) {
            Some(expected) => fields is Some && fields->0@ == expected,
            None => fields is None,
        },
{
    let mut fields: Vec<Field> = Vec::new();
    let mut at: usize = from;
    while at < to
        invariant
            from <= at <= to <= message@.len(),
            spec_split_fields(message@, from as int, to as int, separator, lookup) == match spec_split_fields(
                message@,
                at as int,
                to as int,
                separator,
                lookup,
            ) {
                Some(rest) => Some(fields@ + rest),
                None => None,
            },
        decreases to - at,
    {
        let stop: usize = find_byte(message, at, to, separator);
        if stop >= to {
            return None;
        }
        let equals: usize = find_byte(message, at, stop, ASCII_EQUALS);
        if equals >= stop || !is_number(message, at, equals) {
            return None;
        }
        let tag: u32 = match parse_decimal(message, at, equals, u32::MAX as u64) {
            Some(tag) => tag as u32,
            None => {
                return None;
            },
        };
        if tag == 0 {
            return None;
        }
        let field = Field { tag, start: equals + 1, end: stop, datatype: lookup.lookup(tag) };
        proof {
            match spec_split_fields(message@, stop + 1, to as int, separator, lookup) {
                Some(rest) => {
                    assert(fields@ + (seq![field] + rest) =~= fields@.push(field) + rest);
                },
                None => {},
            }
        }
        fields.push(field);
        at = stop + 1;
    }
    proof {
        assert(fields@ + Seq::<Field>::empty() =~= fields@);
    }
    Some(fields)
}

/// Whether the last seven bytes of `message` are `10=`, three ASCII digits
/// and the separator.
pub open spec fn trailer_is_well_formed(message: Seq<u8>, separator: u8) -> bool {
    let n = message.len() as int;
    &&& n >= FIELD_CHECKSUM_LEN_IN_BYTES
    &&& message[n - 7] == ASCII_ONE
    &&& message[n - 6] == ASCII_ZERO
    &&& message[n - 5] == ASCII_EQUALS
    &&& is_digit(message[n - 4])
    &&& is_digit(message[n - 3])
    &&& is_digit(message[n - 2])
    &&& message[n - 1] == separator
}

/// The tag of the first of `fields` that has no datatype, if there is one.
pub open spec fn first_unknown_tag(fields: Seq<Field>) -> Option<u32>
    decreases fields.len(),
{
    if fields.len() == 0 {
        None
    } else if fields[0].datatype is None {
        Some(fields[0].tag)
    } else {
        first_unknown_tag(fields.drop_first())
    }
}

/// The fields of the body of `message`, or the first reason why `message`
/// is not accepted. The checks come in this order:
///
/// 1. the message has at least [`MIN_FIX_MESSAGE_LEN_IN_BYTES`] bytes;
/// 2. if `verify` is set, `CheckSum <10>` is right;
/// 3. the message opens with `BeginString <8>` and `BodyLength <9>`, and
///    the body has the length that `BodyLength <9>` gives;
/// 4. the message is not longer than `max_size`, if that is set;
/// 5. the message ends with a `CheckSum <10>` field, and the body is made of
///    fields;
/// 6. if `strict` is set, `lookup` knows the tag of every field.
pub open spec fn spec_decode<L: TagLookup>(
    message: Seq<u8>,
    separator: u8,
    max_size: Option<usize>,
    verify: bool,
    lookup: &L,
    strict: bool,
) -> Result<Seq<Field>, DecodeError> {
    if message.len() < MIN_FIX_MESSAGE_LEN_IN_BYTES {
        Err(DecodeError::MessageTooShort)
    } else if verify && !checksum_matches(message) {
        Err(DecodeError::ChecksumMismatch)
    } else {
        match spec_parse_header(message, separator) {
            Err(e) => Err(e),
            Ok(header) => {
                if !body_length_matches(
                    message.len() as int,
                    header.start_of_body as int,
                    header.body_length as int,
                ) {
                    Err(DecodeError::InvalidBodyLength)
                } else if max_size is Some && message.len() > max_size->0 {
                    Err(DecodeError::MessageTooLarge)
                } else if !trailer_is_well_formed(message, separator) {
                    Err(DecodeError::Invalid)
                } else {
                    match spec_split_fields(
                        message,
                        header.start_of_body as int,
                        message.len() - FIELD_CHECKSUM_LEN_IN_BYTES,
                        separator,
                        lookup,
                    ) {
                        None => Err(DecodeError::Invalid),
                        Some(fields) => match first_unknown_tag(fields) {
                            Some(tag) if strict => Err(DecodeError::UnknownTag { tag }),
                            _ => Ok(fields),
                        },
                    }
                }
            },
        }
    }
}

/// Returns the tag of the first of `fields` that has no datatype, if there
/// is one.
fn find_unknown_tag(fields: &Vec<Field>) -> (tag: Option<u32>)
    ensures
        tag == first_unknown_tag(fields@),
{
    let mut i: usize = 0;
    proof {
        assert(fields@.skip(0) =~= fields@);
    }
    while i < fields.len()
        invariant
            i <= fields@.len(),
            first_unknown_tag(fields@) == first_unknown_tag(fields@.skip(i as int)),
        decreases fields@.len() - i,
    {
        if fields[i].datatype.is_none() {
            return Some(fields[i].tag);
        }
        proof {
            assert(fields@.skip(i as int).drop_first() =~= fields@.skip(i + 1));
        }
        i += 1;
    }
    None
}

/// Whether the last seven bytes of `message` are `10=`, three ASCII digits
/// and the separator.
fn check_trailer(message: &[u8], separator: u8) -> (well_formed: bool)
    ensures
        well_formed == trailer_is_well_formed(message@, separator),
{
    let n: usize = message.len();
    n >= FIELD_CHECKSUM_LEN_IN_BYTES && message[n - 7] == ASCII_ONE && message[n - 6] == ASCII_ZERO
        && message[n - 5] == ASCII_EQUALS && ASCII_ZERO <= message[n - 4] && message[n - 4]
        <= ASCII_NINE && ASCII_ZERO <= message[n - 3] && message[n - 3] <= ASCII_NINE && ASCII_ZERO
        <= message[n - 2] && message[n - 2] <= ASCII_NINE && message[n - 1] == separator
}

/// Decodes `message`, which is to hold exactly one tag-value message, into
/// the fields of its body.
///
/// The separator, the largest size of a message and whether `CheckSum <10>`
/// is verified are those of `config`. The datatype of each field is what
/// `tag_lookup` gives for its tag. A tag that `tag_lookup` does not know is
/// an error if `strict` is set; otherwise the field has no datatype.
///
/// No value is copied, and `message` is not changed: every field says where
/// its value lies in `message`, before the `CheckSum <10>` field.
pub fn decode<C: Configure>(
    message: &[u8],
    config: &C,
    tag_lookup: &C::TagLookup,
    strict: bool,
) -> (result: Result<Vec<Field>, DecodeError>)
    ensures
        match spec_decode(
            message@,
            config.spec_separator(),
            config.spec_max_message_size(),
            config.spec_verify_checksum(),
            tag_lookup,
            strict,
        ) {
            Ok(fields) => result is Ok && result->Ok_0@ == fields,
            Err(e) => result == Err::<Vec<Field>, DecodeError>(e),
        },
        result is Ok ==> fields_lie_within(
            result->Ok_0@,
            0,
            message@.len() - FIELD_CHECKSUM_LEN_IN_BYTES,
        ),
{
    let separator: u8 = config.separator();
    if message.len() < MIN_FIX_MESSAGE_LEN_IN_BYTES {
        return Err(DecodeError::MessageTooShort);
    }
    if config.verify_checksum() {
        match verify_checksum(message) {
            Err(e) => {
                return Err(e);
            },
            Ok(_) => {},
        }
    }
    let header: Header = match parse_header(message, separator) {
        Err(e) => {
            return Err(e);
        },
        Ok(header) => header,
    };
    match verify_body_length(message, header.start_of_body, header.body_length) {
        Err(e) => {
            return Err(e);
        },
        Ok(_) => {},
    }
    match config.max_message_size() {
        Some(limit) => {
            if message.len() > limit {
                return Err(DecodeError::MessageTooLarge);
            }
        },
        None => {},
    }
    if !check_trailer(message, separator) {
        return Err(DecodeError::Invalid);
    }
    let fields: Vec<Field> = match split_fields(
        message,
        header.start_of_body,
        message.len() - FIELD_CHECKSUM_LEN_IN_BYTES,
        separator,
        tag_lookup,
    ) {
        None => {
            return Err(DecodeError::Invalid);
        },
        Some(fields) => fields,
    };
    proof {
        lemma_split_fields_lie_within(
            message@,
            header.start_of_body as int,
            message@.len() - FIELD_CHECKSUM_LEN_IN_BYTES,
            separator,
            tag_lookup,
        );
    }
    if strict {
        match find_unknown_tag(&fields) {
            Some(tag) => {
                return Err(DecodeError::UnknownTag { tag });
            },
            None => {},
        }
    }
    Ok(fields)
}

} // verus!
