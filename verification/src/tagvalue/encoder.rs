//! Encoding of fields into tag-value messages.

use crate::tagvalue::config::Configure;
use crate::tagvalue::utils::{
    encode_raw, message_head, spec_encode_raw, ASCII_EQUALS, ASCII_ZERO, MAX_BODY_LEN,
};
use crate::tagvalue::EncodeError;
use vstd::prelude::*;

verus! {

/// The ASCII digits of `tag` in decimal, without leading zeros.
pub open spec fn tag_digits(tag: nat) -> Seq<u8>
    decreases tag,
{
    if tag < 10 {
        seq![(ASCII_ZERO + tag) as u8]
    } else {
        tag_digits(tag / 10).push((ASCII_ZERO + tag % 10) as u8)
    }
}

/// One field on the wire: the tag, `=`, the value and the separator.
pub open spec fn spec_encode_field(tag: u32, value: Seq<u8>, separator: u8) -> Seq<u8> {
    tag_digits(tag as nat) + seq![ASCII_EQUALS] + value + seq![separator]
}

/// The fields on the wire, one behind the other in their order.
pub open spec fn spec_encode_fields(fields: Seq<(u32, Seq<u8>)>, separator: u8) -> Seq<u8>
    decreases fields.len(),
{
    if fields.len() == 0 {
        Seq::empty()
    } else {
        spec_encode_field(fields[0].0, fields[0].1, separator) + spec_encode_fields(
            fields.drop_first(),
            separator,
        )
    }
}

/// The tags and values of `fields`, the values as sequences of bytes.
pub open spec fn field_values(fields: Seq<(u32, Vec<u8>)>) -> Seq<(u32, Seq<u8>)> {
    Seq::new(fields.len(), |i: int| (fields[i].0, fields[i].1@))
}

/// Appends the decimal digits of `tag`.
fn write_tag(tag: u32, buffer: &mut Vec<u8>)
    ensures
        final(buffer)@ == old(buffer)@ + tag_digits(tag as nat),
    decreases tag,
{
    if tag >= 10 {
        write_tag(tag / 10, buffer);
    }
    buffer.push(ASCII_ZERO + (tag % 10) as u8);
    proof {
        assert(buffer@ =~= old(buffer)@ + tag_digits(tag as nat));
    }
}

/// Appends to `buffer` the field with tag `tag` and value `value`, and
/// returns the number of bytes that it takes.
pub fn write_field(tag: u32, value: &[u8], buffer: &mut Vec<u8>, separator: u8) -> (written: usize)
    ensures
        final(buffer)@ == old(buffer)@ + spec_encode_field(tag, value@, separator),
        written == spec_encode_field(tag, value@, separator).len(),
{
    let start: usize = buffer.len();
    write_tag(tag, buffer);
    buffer.push(ASCII_EQUALS);
    buffer.extend_from_slice(value);
    buffer.push(separator);
    proof {
        assert(buffer@ =~= old(buffer)@ + spec_encode_field(tag, value@, separator));
    }
    buffer.len() - start
}

/// Appends to `buffer` the fields `fields` in their order, and returns the
/// number of bytes that they take.
pub fn write_fields(fields: &[(u32, Vec<u8>)], buffer: &mut Vec<u8>, separator: u8) -> (written:
    usize)
    ensures
        final(buffer)@ == old(buffer)@ + spec_encode_fields(field_values(fields@), separator),
        written == spec_encode_fields(field_values(fields@), separator).len(),
{
    let start: usize = buffer.len();
    let ghost all = field_values(fields@);
    let mut i: usize = 0;
    proof {
        assert(all.skip(0) =~= all);
        assert(buffer@ + Seq::<u8>::empty() =~= buffer@);
    }
    while i < fields.len()
        invariant
            i <= fields@.len(),
            all == field_values(fields@),
            start == old(buffer)@.len(),
            old(buffer)@ + spec_encode_fields(all, separator) == buffer@ + spec_encode_fields(
                all.skip(i as int),
                separator,
            ),
        decreases fields@.len() - i,
    {
        let ghost before = buffer@;
        write_field(fields[i].0, fields[i].1.as_slice(), buffer, separator);
        proof {
            let rest = all.skip(i as int);
            assert(rest[0] == (fields@[i as int].0, fields@[i as int].1@));
            assert(rest.drop_first() =~= all.skip(i + 1));
            let one = spec_encode_field(rest[0].0, rest[0].1, separator);
            let others = spec_encode_fields(all.skip(i + 1), separator);
            assert(before + (one + others) =~= (before + one) + others);
        }
        i += 1;
    }
    proof {
        assert(all.skip(i as int) =~= Seq::<(u32, Seq<u8>)>::empty());
        assert(buffer@ + Seq::<u8>::empty() =~= buffer@);
        assert(buffer@.len() == old(buffer)@.len() + spec_encode_fields(all, separator).len());
        assert(buffer@ =~= old(buffer)@ + spec_encode_fields(all, separator));
    }
    buffer.len() - start
}

/// The complete message with the given `BeginString <8>` and the given
/// fields as its body.
pub open spec fn spec_encode(begin_string: Seq<u8>, fields: Seq<(u32, Seq<u8>)>, separator: u8) -> Seq<
    u8,
> {
    spec_encode_raw(begin_string, spec_encode_fields(fields, separator), separator)
}

/// Appends to `buffer` a complete message with the given `BeginString <8>`
/// and with `fields`, in their order, as its body. The separator is that of
/// `config`.
///
/// Returns the number of bytes that the message takes. Fails if the fields
/// take more than [`MAX_BODY_LEN`] bytes; `buffer` then holds, behind what it
/// held, the head with a body length of zero and the fields.
pub fn encode<C: Configure>(
    begin_string: &[u8],
    fields: &[(u32, Vec<u8>)],
    config: &C,
    buffer: &mut Vec<u8>,
) -> (result: Result<usize, EncodeError>)
    ensures
        match result {
            Ok(written) => {
                &&& spec_encode_fields(field_values(fields@), config.spec_separator()).len()
                    <= MAX_BODY_LEN
                &&& final(buffer)@ == old(buffer)@ + spec_encode(
                    begin_string@,
                    field_values(fields@),
                    config.spec_separator(),
                )
                &&& written == spec_encode(
                    begin_string@,
                    field_values(fields@),
                    config.spec_separator(),
                ).len()
            },
            Err(e) => {
                &&& spec_encode_fields(field_values(fields@), config.spec_separator()).len()
                    > MAX_BODY_LEN
                &&& e == EncodeError::BodyTooLong
                &&& final(buffer)@ == old(buffer)@ + message_head(
                    begin_string@,
                    config.spec_separator(),
                    0,
                ) + spec_encode_fields(field_values(fields@), config.spec_separator())
            },
        },
{
    let separator: u8 = config.separator();
    let ghost body = spec_encode_fields(field_values(fields@), separator);
    let body_writer = |b: &mut Vec<u8>| -> (written: usize)
        ensures
            final(b)@ == old(b)@ + spec_encode_fields(field_values(fields@), separator),
            written == spec_encode_fields(field_values(fields@), separator).len(),
        { write_fields(fields, b, separator) };
    let result = encode_raw(begin_string, body_writer, buffer, separator);
    proof {
        let (b, n): (&mut Vec<u8>, usize) = choose|b: &mut Vec<u8>, n: usize|
            {
                &&& b@ == old(buffer)@ + message_head(begin_string@, separator, 0)
                &&& #[trigger] call_ensures(body_writer, (b,), n)
                &&& match result {
                    Ok(written) => {
                        &&& n <= MAX_BODY_LEN
                        &&& final(buffer)@ == old(buffer)@ + spec_encode_raw(
                            begin_string@,
                            final(b)@.skip(b@.len() as int),
                            separator,
                        )
                        &&& written == final(buffer)@.len() - old(buffer)@.len()
                    },
                    Err(e) => {
                        &&& n > MAX_BODY_LEN
                        &&& e == EncodeError::BodyTooLong
                        &&& final(buffer)@ == final(b)@
                    },
                }
            };
        assert(final(b)@.skip(b@.len() as int) =~= body);
    }
    result
}

} // verus!
