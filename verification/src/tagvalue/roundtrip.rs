//! What is encoded is decoded as it was.

use crate::tagvalue::decoder::{
    all_digits, begin_string_end, body_length_text, decimal_value, first_unknown_tag,
    header_is_well_formed, is_digit, is_tag, position,
    spec_decode, spec_parse_header, spec_split_fields, trailer_is_well_formed, Field, Header,
};
use crate::tagvalue::encoder::{spec_encode, spec_encode_field, spec_encode_fields, tag_digits};
use crate::tagvalue::taglookup::TagLookup;
use crate::tagvalue::utils::{
    body_length_digits, checksum_field_digits, lemma_encoded_message_is_valid, message_head,
    message_trailer, spec_checksum, spec_encode_raw, ASCII_EQUALS, ASCII_NINE, ASCII_ZERO,
    MAX_BODY_LEN, MIN_FIX_MESSAGE_LEN_IN_BYTES,
};
use crate::tagvalue::DecodeError;
use vstd::prelude::*;

verus! {

/// Whether `byte` occurs nowhere in `data`.
pub open spec fn is_free_of(data: Seq<u8>, byte: u8) -> bool {
    forall|i: int| 0 <= i < data.len() ==> #[trigger] data[i] != byte
}

/// Whether `separator` can part fields: it is neither a digit nor `=`.
pub open spec fn is_separator(separator: u8) -> bool {
    !is_digit(separator) && separator != ASCII_EQUALS
}

/// Where `data` holds `byte` at `place` and nowhere between `from` and
/// `place`, `place` is its first position from `from` on.
pub proof fn lemma_position_is(data: Seq<u8>, from: int, to: int, byte: u8, place: int)
    requires
        from <= place <= to,
        place < to ==> data[place] == byte,
        forall|i: int| from <= i < place ==> data[i] != byte,
    ensures
        position(data, from, to, byte) == place,
    decreases place - from,
{
    if from < place {
        lemma_position_is(data, from + 1, to, byte, place);
    }
}

/// The digits written for a tag are digits, at least one, and say the tag.
pub proof fn lemma_tag_digits(tag: nat)
    ensures
        tag_digits(tag).len() >= 1,
        all_digits(tag_digits(tag)),
        decimal_value(tag_digits(tag)) == tag,
    decreases tag,
{
    let digits = tag_digits(tag);
    if tag >= 10 {
        lemma_tag_digits(tag / 10);
        assert(digits.drop_last() =~= tag_digits(tag / 10));
        assert(digits.last() == (ASCII_ZERO + tag % 10) as u8);
        assert forall|i: int| 0 <= i < digits.len() implies is_digit(#[trigger] digits[i]) by {
            if i < digits.len() - 1 {
                assert(digits[i] == tag_digits(tag / 10)[i]);
            }
        }
    } else {
        assert(digits.drop_last() =~= Seq::<u8>::empty());
        assert(decimal_value(digits.drop_last()) == 0);
        assert(digits.last() == (ASCII_ZERO + tag) as u8);
    }
}

/// The six digits written for a body length are digits and say the length.
pub proof fn lemma_body_length_digits(n: int)
    requires
        0 <= n <= MAX_BODY_LEN,
    ensures
        all_digits(body_length_digits(n)),
        decimal_value(body_length_digits(n)) == n,
{
    let d = body_length_digits(n);
    let d5 = d.drop_last();
    let d4 = d5.drop_last();
    let d3 = d4.drop_last();
    let d2 = d3.drop_last();
    let d1 = d2.drop_last();
    assert(d1.drop_last() =~= Seq::<u8>::empty());
    assert(decimal_value(d1.drop_last()) == 0);
    assert(d1.last() == d[0] && d2.last() == d[1] && d3.last() == d[2] && d4.last() == d[3]
        && d5.last() == d[4] && d.last() == d[5]);
    assert(decimal_value(d1) == n / 100000);
    assert(decimal_value(d2) == n / 10000);
    assert(decimal_value(d3) == n / 1000);
    assert(decimal_value(d4) == n / 100);
    assert(decimal_value(d5) == n / 10);
}

/// Whether `fields` can be told apart again once they are written one behind
/// the other: every tag is positive, and no value holds the separator.
pub open spec fn fields_are_valid(fields: Seq<(u32, Seq<u8>)>, separator: u8) -> bool {
    forall|i: int|
        0 <= i < fields.len() ==> (#[trigger] fields[i]).0 >= 1 && is_free_of(
            fields[i].1,
            separator,
        )
}

/// Whether `decoded` are `fields` as found in `message`: as many, in the
/// same order, each with the tag of its field, with the place in `message`
/// where the value of its field stands, and with the datatype that `lookup`
/// gives for the tag.
pub open spec fn decoded_as<L: TagLookup>(
    message: Seq<u8>,
    decoded: Seq<Field>,
    fields: Seq<(u32, Seq<u8>)>,
    lookup: &L,
) -> bool {
    &&& decoded.len() == fields.len()
    &&& forall|i: int|
        0 <= i < decoded.len() ==> {
            &&& (#[trigger] decoded[i]).tag == fields[i].0
            &&& decoded[i].start <= decoded[i].end <= message.len()
            &&& message.subrange(decoded[i].start as int, decoded[i].end as int) == fields[i].1
            &&& decoded[i].datatype == lookup.spec_lookup(fields[i].0)
        }
}

/// Where a stretch of a message is what the encoder writes for `fields`,
/// splitting that stretch gives `fields` back.
pub proof fn lemma_split_encoded<L: TagLookup>(
    message: Seq<u8>,
    from: int,
    to: int,
    fields: Seq<(u32, Seq<u8>)>,
    separator: u8,
    lookup: &L,
)
    requires
        0 <= from <= to <= message.len() <= usize::MAX,
        message.subrange(from, to) == spec_encode_fields(fields, separator),
        fields_are_valid(fields, separator),
        is_separator(separator),
    ensures
        spec_split_fields(message, from, to, separator, lookup) is Some,
        decoded_as(
            message,
            spec_split_fields(message, from, to, separator, lookup)->0,
            fields,
            lookup,
        ),
    decreases fields.len(),
{
    let encoded = spec_encode_fields(fields, separator);
    if fields.len() == 0 {
        assert(message.subrange(from, to).len() == 0);
    } else {
        let tag = fields[0].0;
        let value = fields[0].1;
        let digits = tag_digits(tag as nat);
        let k = digits.len() as int;
        let one = spec_encode_field(tag, value, separator);
        let others = fields.drop_first();
        let rest = spec_encode_fields(others, separator);
        let equals = from + k;
        let stop = equals + 1 + value.len();
        lemma_tag_digits(tag as nat);
        assert(encoded == one + rest);
        assert(one.len() == k + value.len() + 2);
        assert(message.subrange(from, to).len() == to - from);
        assert forall|i: int| 0 <= i < encoded.len() implies message[from + i] == encoded[i] by {
            assert(message.subrange(from, to)[i] == message[from + i]);
        }
        assert forall|i: int| from <= i < equals implies message[i] != separator && message[i]
            != ASCII_EQUALS by {
            assert(message[i] == encoded[i - from]);
            assert(encoded[i - from] == digits[i - from]);
            assert(is_digit(digits[i - from]));
        }
        assert(message[equals] == ASCII_EQUALS) by {
            assert(message[equals] == encoded[k]);
        }
        assert forall|i: int| equals < i < stop implies message[i] != separator by {
            assert(message[i] == encoded[i - from]);
            assert(encoded[i - from] == value[i - equals - 1]);
        }
        assert(message[stop] == separator) by {
            assert(message[stop] == encoded[stop - from]);
        }
        lemma_position_is(message, from, to, separator, stop);
        lemma_position_is(message, from, stop, ASCII_EQUALS, equals);
        assert(message.subrange(from, equals) =~= digits);
        assert(is_tag(digits));
        assert(message.subrange(stop + 1, to) =~= rest) by {
            assert(rest.len() == to - stop - 1);
            assert forall|j: int| 0 <= j < rest.len() implies message.subrange(stop + 1, to)[j]
                == rest[j] by {
                assert(message[stop + 1 + j] == encoded[stop + 1 + j - from]);
                assert(encoded[one.len() + j] == rest[j]);
            }
        }
        assert(fields_are_valid(others, separator)) by {
            assert forall|i: int| 0 <= i < others.len() implies (#[trigger] others[i]).0 >= 1
                && is_free_of(others[i].1, separator) by {
                assert(others[i] == fields[i + 1]);
            }
        }
        lemma_split_encoded(message, stop + 1, to, others, separator, lookup);
        let tail = spec_split_fields(message, stop + 1, to, separator, lookup)->0;
        let first = Field {
            tag: decimal_value(digits) as u32,
            start: (equals + 1) as usize,
            end: stop as usize,
            datatype: lookup.spec_lookup(decimal_value(digits) as u32),
        };
        let decoded = spec_split_fields(message, from, to, separator, lookup)->0;
        assert(decoded == seq![first] + tail);
        assert(message.subrange(equals + 1, stop) =~= value) by {
            assert forall|j: int| 0 <= j < value.len() implies message.subrange(
                equals + 1,
                stop,
            )[j] == value[j] by {
                assert(message[equals + 1 + j] == encoded[equals + 1 + j - from]);
                assert(encoded[k + 1 + j] == value[j]);
            }
        }
        assert forall|i: int| 0 <= i < decoded.len() implies {
            &&& (#[trigger] decoded[i]).tag == fields[i].0
            &&& decoded[i].start <= decoded[i].end <= message.len()
            &&& message.subrange(decoded[i].start as int, decoded[i].end as int) == fields[i].1
            &&& decoded[i].datatype == lookup.spec_lookup(fields[i].0)
        } by {
            if i > 0 {
                assert(decoded[i] == tail[i - 1]);
                assert(others[i - 1] == fields[i]);
            }
        }
    }
}

/// Where every one of `fields` has a datatype, none is the first without.
pub proof fn lemma_no_unknown_tag(decoded: Seq<Field>)
    requires
        forall|i: int| 0 <= i < decoded.len() ==> (#[trigger] decoded[i]).datatype is Some,
    ensures
        first_unknown_tag(decoded) is None,
    decreases decoded.len(),
{
    if decoded.len() > 0 {
        assert forall|i: int| 0 <= i < decoded.drop_first().len() implies (
        #[trigger] decoded.drop_first()[i]).datatype is Some by {
            assert(decoded.drop_first()[i] == decoded[i + 1]);
        }
        lemma_no_unknown_tag(decoded.drop_first());
    }
}

/// The header of an encoded message is read back as it was written: the
/// begin string ends where the first separator stands, and the body length
/// is that of the body, which starts twelve bytes behind the begin string.
pub proof fn lemma_header_of_encoded(begin_string: Seq<u8>, body: Seq<u8>, separator: u8)
    requires
        is_separator(separator),
        is_free_of(begin_string, separator),
        body.len() <= MAX_BODY_LEN,
        begin_string.len() + body.len() + 19 <= usize::MAX,
    ensures
        spec_parse_header(spec_encode_raw(begin_string, body, separator), separator) == Ok::<
            Header,
            DecodeError,
        >(
            Header {
                begin_string_end: (begin_string.len() + 2) as usize,
                body_length: body.len() as usize,
                start_of_body: (begin_string.len() + 12) as usize,
            },
        ),
{
    let message = spec_encode_raw(begin_string, body, separator);
    let n = body.len() as int;
    let digits = body_length_digits(n);
    let head = message_head(begin_string, separator, n);
    let b: int = begin_string.len() as int + 2;
    lemma_body_length_digits(n);
    assert(head.len() == begin_string.len() + 12);
    assert forall|i: int| 0 <= i < head.len() implies message[i] == head[i] by {}
    assert forall|i: int| 2 <= i < b implies message[i] != separator by {
        assert(head[i] == begin_string[i - 2]);
    }
    assert(message[b] == separator) by {
        assert(head[b] == separator);
    }
    lemma_position_is(message, 2, message.len() as int, separator, b);
    assert forall|i: int| b + 3 <= i < b + 9 implies message[i] != separator by {
        assert(head[i] == digits[i - b - 3]);
        assert(is_digit(digits[i - b - 3]));
    }
    assert(message[b + 9] == separator) by {
        assert(head[b + 9] == separator);
    }
    lemma_position_is(message, b + 3, message.len() as int, separator, b + 9);
    assert(body_length_text(message, separator) =~= digits) by {
        assert forall|i: int| 0 <= i < 6 implies message.subrange(b + 3, b + 9)[i] == digits[i] by {
            assert(head[b + 3 + i] == digits[i]);
        }
    }
    assert(message[0] == head[0] && message[1] == head[1]);
    assert(message[b + 1] == ASCII_NINE) by {
        assert(head[b + 1] == ASCII_NINE);
    }
    assert(message[b + 2] == ASCII_EQUALS) by {
        assert(head[b + 2] == ASCII_EQUALS);
    }
    assert(header_is_well_formed(message, separator));
}

/// Decoding what the encoder wrote for `fields` gives `fields` back: as
/// many fields, in the same order, each with its tag and with the place
/// where its value stands in the message.
///
/// This holds where the separator is neither a digit nor `=`, the begin
/// string and the values are free of it, the tags are positive, the body
/// fits the six digits of `BodyLength <9>`, and the message is neither
/// shorter than [`MIN_FIX_MESSAGE_LEN_IN_BYTES`] nor longer than `max_size`;
/// in strict mode, where `lookup` knows every tag.
pub proof fn lemma_decode_encode<L: TagLookup>(
    begin_string: Seq<u8>,
    fields: Seq<(u32, Seq<u8>)>,
    separator: u8,
    max_size: Option<usize>,
    verify: bool,
    lookup: &L,
    strict: bool,
)
    requires
        is_separator(separator),
        is_free_of(begin_string, separator),
        fields_are_valid(fields, separator),
        spec_encode_fields(fields, separator).len() <= MAX_BODY_LEN,
        MIN_FIX_MESSAGE_LEN_IN_BYTES <= spec_encode(begin_string, fields, separator).len()
            <= usize::MAX,
        max_size is Some ==> spec_encode(begin_string, fields, separator).len() <= max_size->0,
        strict ==> forall|i: int|
            0 <= i < fields.len() ==> lookup.spec_lookup((#[trigger] fields[i]).0) is Some,
    ensures
        spec_decode(
            spec_encode(begin_string, fields, separator),
            separator,
            max_size,
            verify,
            lookup,
            strict,
        ) is Ok,
        decoded_as(
            spec_encode(begin_string, fields, separator),
            spec_decode(
                spec_encode(begin_string, fields, separator),
                separator,
                max_size,
                verify,
                lookup,
                strict,
            )->Ok_0,
            fields,
            lookup,
        ),
{
    let body = spec_encode_fields(fields, separator);
    let message = spec_encode(begin_string, fields, separator);
    let head = message_head(begin_string, separator, body.len() as int);
    let covered = head + body;
    let checksum = spec_checksum(covered);
    let trailer = message_trailer(checksum, separator);
    let start: int = begin_string.len() as int + 12;
    let end: int = message.len() - 7;
    lemma_encoded_message_is_valid(begin_string, body, separator);
    lemma_header_of_encoded(begin_string, body, separator);
    assert(message == covered + trailer);
    assert(head.len() == start);
    assert(trailer_is_well_formed(message, separator)) by {
        assert forall|i: int| 0 <= i < 7 implies message[end + i] == trailer[i] by {}
        assert(message[end] == trailer[0]);
        assert(message[end + 1] == trailer[1]);
        assert(message[end + 2] == trailer[2]);
        assert(message[end + 3] == trailer[3]);
        assert(message[end + 4] == trailer[4]);
        assert(message[end + 5] == trailer[5]);
        assert(message[end + 6] == trailer[6]);
        assert(trailer[3] == checksum_field_digits(checksum)[0]);
        assert(trailer[4] == checksum_field_digits(checksum)[1]);
        assert(trailer[5] == checksum_field_digits(checksum)[2]);
    }
    assert(message.subrange(start, end) =~= body);
    lemma_split_encoded(message, start, end, fields, separator, lookup);
    let decoded = spec_split_fields(message, start, end, separator, lookup)->0;
    if strict {
        assert forall|i: int| 0 <= i < decoded.len() implies (
        #[trigger] decoded[i]).datatype is Some by {
            assert(lookup.spec_lookup(fields[i].0) is Some);
        }
        lemma_no_unknown_tag(decoded);
    }
}

} // verus!
