//! Checksum and body-length arithmetic shared by the encoder and the decoder.

use crate::tagvalue::{DecodeError, EncodeError};
use vstd::prelude::*;

verus! {

/// No tag-value message is shorter than `8=?|9=?|35=?|10=???|`.
pub const MIN_FIX_MESSAGE_LEN_IN_BYTES: usize = 20;

/// The length of the `CheckSum <10>` field: `10=`, three digits and the
/// separator.
pub const FIELD_CHECKSUM_LEN_IN_BYTES: usize = 7;

/// The ASCII digit `0`.
pub const ASCII_ZERO: u8 = 0x30;

/// The ASCII digit `1`.
pub const ASCII_ONE: u8 = 0x31;

/// The ASCII digit `8`, the tag of `BeginString <8>`.
pub const ASCII_EIGHT: u8 = 0x38;

/// The ASCII digit `9`, the tag of `BodyLength <9>`.
pub const ASCII_NINE: u8 = 0x39;

/// The ASCII character `=`, which parts a tag from its value.
pub const ASCII_EQUALS: u8 = 0x3d;

/// The longest body whose length the six digits reserved for
/// `BodyLength <9>` can say.
pub const MAX_BODY_LEN: usize = 999_999;

/// The number that three zero-padded decimal digits stand for, reduced modulo
/// 256. Bytes that are no digits are taken for what they are: their distance
/// from `'0'`.
pub open spec fn spec_parse_u8_from_decimal(digits: Seq<u8>) -> int
    recommends
        digits.len() == 3,
{
    ((digits[0] - ASCII_ZERO) * 100 + (digits[1] - ASCII_ZERO) * 10 + (digits[2] - ASCII_ZERO))
        % 256
}

/// Parses an `u8` from `digits` and returns the result.
///
/// No error detection is performed. Values less than 100 must be zero-padded.
pub fn parse_u8_from_decimal(digits: [u8; 3]) -> (value: u8)
    ensures
        value as int == spec_parse_u8_from_decimal(digits@),
{
    let d0: u8 = digits[0];
    let d1: u8 = digits[1];
    let d2: u8 = digits[2];
    let a: u8 = d0.wrapping_sub(ASCII_ZERO);
    let b: u8 = d1.wrapping_sub(ASCII_ZERO);
    let c: u8 = d2.wrapping_sub(ASCII_ZERO);
    assert(a as int == (d0 - ASCII_ZERO) % 256);
    assert(b as int == (d1 - ASCII_ZERO) % 256);
    assert(c as int == (d2 - ASCII_ZERO) % 256);
    let hundreds: u8 = a.wrapping_mul(100);
    let tens: u8 = b.wrapping_mul(10);
    assert(hundreds as int == (a * 100) % 256);
    assert(tens as int == (b * 10) % 256);
    let partial: u8 = hundreds.wrapping_add(tens);
    assert(partial as int == (hundreds + tens) % 256);
    let value: u8 = partial.wrapping_add(c);
    assert(value as int == (partial + c) % 256);
    proof {
        lemma_wrapping_digits(d0 - ASCII_ZERO, d1 - ASCII_ZERO, d2 - ASCII_ZERO);
    }
    value
}

/// Reducing modulo 256 after every step of `a * 100 + b * 10 + c` gives the
/// same as reducing once at the end.
proof fn lemma_wrapping_digits(a: int, b: int, c: int)
    ensures
        ((((a % 256) * 100) % 256 + ((b % 256) * 10) % 256) % 256 + c % 256) % 256 == (a * 100 + b
            * 10 + c) % 256,
{
    let qa = a / 256;
    let qb = b / 256;
    let qc = c / 256;
    let ra = a % 256;
    let rb = b % 256;
    let rc = c % 256;
    assert(a == 256 * qa + ra);
    assert(b == 256 * qb + rb);
    assert(c == 256 * qc + rc);
    let h = (ra * 100) % 256;
    let t = (rb * 10) % 256;
    let qh = (ra * 100) / 256;
    let qt = (rb * 10) / 256;
    assert(ra * 100 == 256 * qh + h);
    assert(rb * 10 == 256 * qt + t);
    let s1 = (h + t) % 256;
    let q1 = (h + t) / 256;
    assert(h + t == 256 * q1 + s1);
    let s2 = (s1 + rc) % 256;
    let q2 = (s1 + rc) / 256;
    assert(s1 + rc == 256 * q2 + s2);
    let total = a * 100 + b * 10 + c;
    assert(total == 256 * (100 * qa + 10 * qb + qc + qh + qt + q1 + q2) + s2);
    assert(0 <= s2 < 256);
}

/// The sum of all the bytes of `data`, as a mathematical integer.
pub open spec fn byte_sum(data: Seq<u8>) -> int
    decreases data.len(),
{
    if data.len() == 0 {
        0
    } else {
        byte_sum(data.drop_last()) + data.last() as int
    }
}

/// The value of `CheckSum <10>` over `data`: the sum of its bytes modulo 256.
pub open spec fn spec_checksum(data: Seq<u8>) -> int {
    byte_sum(data) % 256
}

/// Returns the `CheckSum <10>` value of `data`.
pub fn checksum_10(data: &[u8]) -> (value: u8)
    ensures
        value as int == spec_checksum(data@),
{
    let mut value: u8 = 0;
    let mut i: usize = 0;
    while i < data.len()
        invariant
            i <= data.len(),
            value as int == spec_checksum(data@.take(i as int)),
        decreases data.len() - i,
    {
        proof {
            assert(data@.take(i + 1).drop_last() =~= data@.take(i as int));
        }
        value = value.wrapping_add(data[i]);
        i += 1;
    }
    proof {
        assert(data@.take(i as int) =~= data@);
    }
    value
}

/// The three bytes of `message` that stand where the digits of a trailing
/// `CheckSum <10>` field are: right before the last byte.
pub open spec fn spec_checksum_digits(message: Seq<u8>) -> Seq<u8>
    recommends
        message.len() >= 4,
{
    message.subrange(message.len() - 4, message.len() - 1)
}

/// Returns a copy of the `CheckSum <10>` digits of `message`.
pub fn checksum_digits(message: &[u8]) -> (digits: [u8; 3])
    requires
        message@.len() >= MIN_FIX_MESSAGE_LEN_IN_BYTES,
    ensures
        digits@ == spec_checksum_digits(message@),
{
    let n: usize = message.len();
    let digits: [u8; 3] = [message[n - 4], message[n - 3], message[n - 2]];
    proof {
        assert(digits@ =~= spec_checksum_digits(message@));
    }
    digits
}

/// Whether the digits of the trailing `CheckSum <10>` field of `message` give
/// the checksum of all the bytes that come before that field.
pub open spec fn checksum_matches(message: Seq<u8>) -> bool
    recommends
        message.len() >= FIELD_CHECKSUM_LEN_IN_BYTES,
{
    spec_parse_u8_from_decimal(spec_checksum_digits(message)) == spec_checksum(
        message.take(message.len() - FIELD_CHECKSUM_LEN_IN_BYTES),
    )
}

/// Verifies the `CheckSum <10>` field at the end of `message` against the
/// bytes that come before it.
pub fn verify_checksum(message: &[u8]) -> (result: Result<(), DecodeError>)
    requires
        message@.len() >= MIN_FIX_MESSAGE_LEN_IN_BYTES,
    ensures
        result is Ok <==> checksum_matches(message@),
        result is Err ==> result == Err::<(), DecodeError>(DecodeError::ChecksumMismatch),
{
    let nominal_checksum: u8 = parse_u8_from_decimal(checksum_digits(message));
    let covered = vstd::slice::slice_subrange(
        message,
        0,
        message.len() - FIELD_CHECKSUM_LEN_IN_BYTES,
    );
    proof {
        assert(covered@ =~= message@.take(message@.len() - FIELD_CHECKSUM_LEN_IN_BYTES));
    }
    let actual_checksum: u8 = checksum_10(covered);
    if nominal_checksum != actual_checksum {
        Err(DecodeError::ChecksumMismatch)
    } else {
        Ok(())
    }
}

/// Whether a body that starts at `start_of_body` and is `body_length` bytes
/// long ends exactly where the `CheckSum <10>` field of a message of
/// `total_length` bytes begins.
pub open spec fn body_length_matches(total_length: int, start_of_body: int, body_length: int) -> bool {
    start_of_body + body_length + FIELD_CHECKSUM_LEN_IN_BYTES == total_length
}

/// Verifies the `BodyLength(9)` field of the FIX message in `data`.
pub fn verify_body_length(data: &[u8], start_of_body: usize, nominal_body_length: usize) -> (result:
    Result<(), DecodeError>)
    ensures
        result is Ok <==> body_length_matches(
            data@.len() as int,
            start_of_body as int,
            nominal_body_length as int,
        ),
        result is Err ==> result == Err::<(), DecodeError>(DecodeError::InvalidBodyLength),
{
    if data.len() < FIELD_CHECKSUM_LEN_IN_BYTES {
        return Err(DecodeError::InvalidBodyLength);
    }
    let end_of_body: usize = data.len() - FIELD_CHECKSUM_LEN_IN_BYTES;
    if start_of_body > end_of_body || nominal_body_length != end_of_body - start_of_body {
        Err(DecodeError::InvalidBodyLength)
    } else {
        Ok(())
    }
}

/// The ASCII digit of `n` at the decimal place of weight `weight` (1, 10,
/// 100, ...).
pub open spec fn decimal_digit(n: int, weight: int) -> u8 {
    (ASCII_ZERO + (n / weight) % 10) as u8
}

/// The value of `BodyLength <9>` as the encoder writes it: six digits,
/// zero-padded.
pub open spec fn body_length_digits(n: int) -> Seq<u8> {
    seq![
        decimal_digit(n, 100000),
        decimal_digit(n, 10000),
        decimal_digit(n, 1000),
        decimal_digit(n, 100),
        decimal_digit(n, 10),
        decimal_digit(n, 1),
    ]
}

/// The value of `CheckSum <10>` as the encoder writes it: three digits,
/// zero-padded.
pub open spec fn checksum_field_digits(checksum: int) -> Seq<u8> {
    seq![decimal_digit(checksum, 100), decimal_digit(checksum, 10), decimal_digit(checksum, 1)]
}

/// The two fields that open a message, `BeginString <8>` and
/// `BodyLength <9>`, each followed by the separator.
pub open spec fn message_head(begin_string: Seq<u8>, separator: u8, body_length: int) -> Seq<u8> {
    seq![ASCII_EIGHT, ASCII_EQUALS] + begin_string + seq![separator, ASCII_NINE, ASCII_EQUALS]
        + body_length_digits(body_length) + seq![separator]
}

/// The field that closes a message: `CheckSum <10>` and the separator.
pub open spec fn message_trailer(checksum: int, separator: u8) -> Seq<u8> {
    seq![ASCII_ONE, ASCII_ZERO, ASCII_EQUALS] + checksum_field_digits(checksum) + seq![separator]
}

/// The complete message around `body`: the head with the length of `body`,
/// `body` itself, and the trailer with the checksum of all that comes before
/// it.
pub open spec fn spec_encode_raw(begin_string: Seq<u8>, body: Seq<u8>, separator: u8) -> Seq<u8> {
    let covered = message_head(begin_string, separator, body.len() as int) + body;
    covered + message_trailer(spec_checksum(covered), separator)
}

/// Appends to `buffer` a complete message with the given `BeginString <8>`
/// and the body that `body_writer` writes.
///
/// The message is written in one pass: `BodyLength <9>` is first written as
/// six zeros, `body_writer` then appends the body right behind it, and the
/// six digits are overwritten in place once the length of the body is known.
/// The writer must only append to the buffer it is given, and return the
/// number of bytes that it appended.
/// So a body can be at most [`MAX_BODY_LEN`] bytes long; with a longer one
/// the call fails, and leaves in `buffer`, behind what it held, the head and
/// the body as they were written. On success the result is the number of
/// bytes that the message takes.
pub fn encode_raw<F>(begin_string: &[u8], body_writer: F, buffer: &mut Vec<u8>, separator: u8) -> (result:
    Result<usize, EncodeError>) where F: Fn(&mut Vec<u8>) -> usize
    requires
        forall|b: &mut Vec<u8>|
            b@ == old(buffer)@ + message_head(begin_string@, separator, 0) ==> call_requires(
                body_writer,
                (b,),
            ),
        forall|b: &mut Vec<u8>, n: usize| #[trigger]
            call_ensures(body_writer, (b,), n) ==> b@.is_prefix_of(final(b)@) && n == final(b)@.len()
                - b@.len(),
    ensures
        exists|b: &mut Vec<u8>, n: usize|
            {
                &&& b@ == old(buffer)@ + message_head(begin_string@, separator, 0)
                &&& #[trigger] call_ensures(body_writer, (b,), n)
                &&& match result {
                    Ok(written) => {
                        &&& n <= MAX_BODY_LEN
                        &&& final(buffer)@ == old(buffer)@ + spec_encode_raw(
                            begin_string@,
                            final(b)@.skip(b@.len() as int),
                            separator,
                        )
                        &&& written == final(buffer)@.len() - old(buffer)@.len()
                    },
                    Err(e) => {
                        &&& n > MAX_BODY_LEN
                        &&& e == EncodeError::BodyTooLong
                        &&& final(buffer)@ == final(b)@
                    },
                }
            },
{
    let start_i: usize = buffer.len();
    write_head(begin_string, buffer, separator);
    let ghost head = buffer@;
    let digits_i: usize = buffer.len() - 7;
    let body_length: usize = body_writer(buffer);
    let end_of_body: usize = buffer.len();
    let ghost body = buffer@.skip(head.len() as int);
    proof {
        assert(head.is_prefix_of(buffer@));
        assert(buffer@ =~= head + body);
    }
    if body_length > MAX_BODY_LEN {
        return Err(EncodeError::BodyTooLong);
    }
    patch_body_length(buffer, digits_i, body_length);
    let ghost covered = message_head(begin_string@, separator, body_length as int) + body;
    proof {
        assert(buffer@ =~= old(buffer)@ + covered);
    }
    let message = vstd::slice::slice_subrange(buffer.as_slice(), start_i, end_of_body);
    proof {
        assert(message@ =~= covered);
    }
    let checksum: u8 = checksum_10(message);
    write_trailer(buffer, checksum, separator);
    proof {
        assert(buffer@ =~= old(buffer)@ + spec_encode_raw(begin_string@, body, separator));
    }
    Ok(buffer.len() - start_i)
}

/// Appends `BeginString <8>` and a `BodyLength <9>` of six zeros.
fn write_head(begin_string: &[u8], buffer: &mut Vec<u8>, separator: u8)
    ensures
        final(buffer)@ == old(buffer)@ + message_head(begin_string@, separator, 0),
{
    buffer.push(ASCII_EIGHT);
    buffer.push(ASCII_EQUALS);
    buffer.extend_from_slice(begin_string);
    buffer.push(separator);
    buffer.push(ASCII_NINE);
    buffer.push(ASCII_EQUALS);
    buffer.push(ASCII_ZERO);
    buffer.push(ASCII_ZERO);
    buffer.push(ASCII_ZERO);
    buffer.push(ASCII_ZERO);
    buffer.push(ASCII_ZERO);
    buffer.push(ASCII_ZERO);
    buffer.push(separator);
    proof {
        assert(buffer@ =~= old(buffer)@ + message_head(begin_string@, separator, 0));
    }
}

/// Overwrites the six bytes from `digits_i` on with the digits of
/// `body_length`.
fn patch_body_length(buffer: &mut Vec<u8>, digits_i: usize, body_length: usize)
    requires
        digits_i + 6 <= old(buffer)@.len(),
        body_length <= MAX_BODY_LEN,
    ensures
        final(buffer)@ == old(buffer)@.take(digits_i as int) + body_length_digits(
            body_length as int,
        ) + old(buffer)@.skip(digits_i + 6),
{
    let total: usize = buffer.len();
    buffer[digits_i] = (body_length / 100000) as u8 + ASCII_ZERO;
    buffer[digits_i + 1] = ((body_length / 10000) % 10) as u8 + ASCII_ZERO;
    buffer[digits_i + 2] = ((body_length / 1000) % 10) as u8 + ASCII_ZERO;
    buffer[digits_i + 3] = ((body_length / 100) % 10) as u8 + ASCII_ZERO;
    buffer[digits_i + 4] = ((body_length / 10) % 10) as u8 + ASCII_ZERO;
    buffer[digits_i + 5] = (body_length % 10) as u8 + ASCII_ZERO;
    proof {
        assert(buffer@ =~= old(buffer)@.take(digits_i as int) + body_length_digits(
            body_length as int,
        ) + old(buffer)@.skip(digits_i + 6));
    }
}

/// Appends `CheckSum <10>` with the three digits of `checksum`.
fn write_trailer(buffer: &mut Vec<u8>, checksum: u8, separator: u8)
    ensures
        final(buffer)@ == old(buffer)@ + message_trailer(checksum as int, separator),
{
    buffer.push(ASCII_ONE);
    buffer.push(ASCII_ZERO);
    buffer.push(ASCII_EQUALS);
    buffer.push((checksum / 100) + ASCII_ZERO);
    buffer.push(((checksum / 10) % 10) + ASCII_ZERO);
    buffer.push((checksum % 10) + ASCII_ZERO);
    buffer.push(separator);
    proof {
        assert(buffer@ =~= old(buffer)@ + message_trailer(checksum as int, separator));
    }
}

/// The checksum is a byte, and the checksum of no bytes at all is 0.
pub proof fn lemma_checksum_is_a_byte(data: Seq<u8>)
    ensures
        0 <= spec_checksum(data) < 256,
        spec_checksum(Seq::<u8>::empty()) == 0,
{
}

/// The sum of the bytes of two sequences, one behind the other, is the sum
/// of their sums.
pub proof fn lemma_byte_sum_concat(a: Seq<u8>, b: Seq<u8>)
    ensures
        byte_sum(a + b) == byte_sum(a) + byte_sum(b),
    decreases b.len(),
{
    if b.len() == 0 {
        assert(a + b =~= a);
    } else {
        assert((a + b).drop_last() =~= a + b.drop_last());
        lemma_byte_sum_concat(a, b.drop_last());
    }
}

/// The checksum of two sequences, one behind the other, is the sum of their
/// checksums modulo 256.
pub proof fn lemma_checksum_concat(a: Seq<u8>, b: Seq<u8>)
    ensures
        spec_checksum(a + b) == (spec_checksum(a) + spec_checksum(b)) % 256,
{
    lemma_byte_sum_concat(a, b);
    vstd::arithmetic::div_mod::lemma_add_mod_noop(byte_sum(a), byte_sum(b), 256);
}

/// The three digits that the encoder writes for a checksum are read back as
/// that checksum.
pub proof fn lemma_checksum_digits_round_trip(checksum: int)
    requires
        0 <= checksum < 256,
    ensures
        spec_parse_u8_from_decimal(checksum_field_digits(checksum)) == checksum,
{
}

/// Every message that the encoder writes passes both checks of the decoder:
/// its `CheckSum <10>` is the checksum of the bytes before that field, and
/// its body, which starts behind the head, has the length that it was
/// written with.
pub proof fn lemma_encoded_message_is_valid(begin_string: Seq<u8>, body: Seq<u8>, separator: u8)
    ensures
        spec_encode_raw(begin_string, body, separator).len() == begin_string.len() + body.len()
            + 19,
        checksum_matches(spec_encode_raw(begin_string, body, separator)),
        body_length_matches(
            spec_encode_raw(begin_string, body, separator).len() as int,
            begin_string.len() as int + 12,
            body.len() as int,
        ),
{
    let covered = message_head(begin_string, separator, body.len() as int) + body;
    let checksum = spec_checksum(covered);
    let message = spec_encode_raw(begin_string, body, separator);
    assert(message.take(message.len() - FIELD_CHECKSUM_LEN_IN_BYTES) =~= covered);
    assert(spec_checksum_digits(message) =~= checksum_field_digits(checksum));
    lemma_checksum_digits_round_trip(checksum);
}

} // verus!
