use fefix::tagvalue::utils::{
    checksum_10, checksum_digits, encode_raw, parse_u8_from_decimal, verify_body_length,
    verify_checksum,
};
use fefix::tagvalue::{DecodeError, EncodeError};

#[test]
fn edges_cases_of_checksum_calculation() {
    assert_eq!(checksum_10(&[]), 0);
    assert_eq!(checksum_10(&[1]), 1);
    assert_eq!(checksum_10(&[128, 127]), 255);
    assert_eq!(checksum_10(&[128, 128]), 0);
}

#[test]
fn correct_retrieval_of_checksum_digits() {
    assert_eq!(
        &checksum_digits(b"8=FIX.4.4|9=1337|35=?|...|10=000|"),
        b"000"
    );
    assert_eq!(
        &checksum_digits(b"8=FIX.4.4|9=1337|35=?|...|10=ABC|"),
        b"ABC"
    );
}

#[test]
fn checksum_of_a_word() {
    assert_eq!(checksum_10(b""), 0x0);
    assert_eq!(checksum_10(b"hunter2"), 0xc8);
}

#[test]
fn checksum_is_the_sum_modulo_256() {
    let data: Vec<u8> = (0..1000u32).map(|i| (i * 7 % 251) as u8).collect();
    let sum: u64 = data.iter().map(|b| *b as u64).sum();
    assert_eq!(checksum_10(&data) as u64, sum % 256);
}

#[test]
fn three_digits_are_parsed_as_a_byte() {
    assert_eq!(parse_u8_from_decimal(*b"000"), 0);
    assert_eq!(parse_u8_from_decimal(*b"007"), 7);
    assert_eq!(parse_u8_from_decimal(*b"163"), 163);
    assert_eq!(parse_u8_from_decimal(*b"255"), 255);
}

#[test]
fn three_digits_wrap_around() {
    assert_eq!(parse_u8_from_decimal(*b"256"), 0);
    assert_eq!(parse_u8_from_decimal(*b"999"), (999 % 256) as u8);
    // Bytes that are no digits count for their distance from '0'.
    let expected = ((b'A' as i32 - 48) * 100 + (b'B' as i32 - 48) * 10 + (b'C' as i32 - 48))
        .rem_euclid(256) as u8;
    assert_eq!(parse_u8_from_decimal(*b"ABC"), expected);
    assert_eq!(parse_u8_from_decimal([0, 0, 0]), ((-48 * 111i32).rem_euclid(256)) as u8);
}

#[test]
fn heartbeat_passes_both_checks() {
    let message = b"8=FIX.4.4\x019=5\x0135=0\x0110=163\x01";
    let covered = &message[..message.len() - 7];
    let sum: u32 = covered.iter().map(|b| *b as u32).sum();
    assert_eq!(sum % 256, 163);
    assert_eq!(checksum_10(covered), 163);
    assert_eq!(parse_u8_from_decimal(checksum_digits(message)), 163);
    assert_eq!(verify_checksum(message), Ok(()));
    let start_of_body = b"8=FIX.4.4\x019=5\x01".len();
    assert_eq!(verify_body_length(message, start_of_body, 5), Ok(()));
}

#[test]
fn wrong_checksum_is_reported() {
    let message = b"8=FIX.4.4\x019=5\x0135=0\x0110=164\x01";
    assert_eq!(verify_checksum(message), Err(DecodeError::ChecksumMismatch));
}

#[test]
fn wrong_body_length_is_reported() {
    let message = b"8=FIX.4.4|9=5|35=0|10=163|";
    let start_of_body = b"8=FIX.4.4|9=5|".len();
    assert_eq!(
        verify_body_length(message, start_of_body, 4),
        Err(DecodeError::InvalidBodyLength)
    );
    assert_eq!(
        verify_body_length(message, start_of_body, 6),
        Err(DecodeError::InvalidBodyLength)
    );
    assert_eq!(
        verify_body_length(message, message.len() - 6, 0),
        Err(DecodeError::InvalidBodyLength)
    );
    assert_eq!(verify_body_length(message, message.len() - 7, 0), Ok(()));
    assert_eq!(
        verify_body_length(b"10=1|", 0, 0),
        Err(DecodeError::InvalidBodyLength)
    );
}

#[test]
fn raw_encoding_of_a_heartbeat() {
    let mut buffer: Vec<u8> = Vec::new();
    let written = encode_raw(
        b"FIX.4.4",
        |b: &mut Vec<u8>| {
            b.extend_from_slice(b"35=0|");
            5
        },
        &mut buffer,
        b'|',
    );
    assert_eq!(buffer, b"8=FIX.4.4|9=000005|35=0|10=004|".to_vec());
    assert_eq!(written, Ok(buffer.len()));
    assert_eq!(verify_checksum(&buffer), Ok(()));
    assert_eq!(verify_body_length(&buffer, 19, 5), Ok(()));
}

#[test]
fn raw_encoding_appends_to_what_the_buffer_holds() {
    let mut buffer: Vec<u8> = b"xyz".to_vec();
    let written = encode_raw(
        b"FIX.4.2",
        |b: &mut Vec<u8>| {
            b.extend_from_slice(b"35=A\x0149=ME\x01");
            11
        },
        &mut buffer,
        0x1,
    );
    assert_eq!(&buffer[..3], b"xyz");
    let message = &buffer[3..];
    assert_eq!(written, Ok(message.len()));
    assert_eq!(&message[..19], b"8=FIX.4.2\x019=000011\x01");
    assert_eq!(&message[19..30], b"35=A\x0149=ME\x01");
    assert_eq!(verify_checksum(message), Ok(()));
    assert_eq!(verify_body_length(message, 19, 11), Ok(()));
}

#[test]
fn raw_encoding_refuses_a_body_of_a_million_bytes() {
    let mut buffer: Vec<u8> = Vec::new();
    let result = encode_raw(
        b"FIX.4.4",
        |b: &mut Vec<u8>| {
            b.resize(b.len() + 1_000_000, b'x');
            1_000_000
        },
        &mut buffer,
        b'|',
    );
    assert_eq!(result, Err(EncodeError::BodyTooLong));
    assert_eq!(&buffer[..19], b"8=FIX.4.4|9=000000|");
    assert_eq!(buffer.len(), 19 + 1_000_000);
}

#[test]
fn raw_encoding_takes_a_body_of_six_nines() {
    let mut buffer: Vec<u8> = Vec::new();
    let result = encode_raw(
        b"FIX.4.4",
        |b: &mut Vec<u8>| {
            b.resize(b.len() + 999_999, b'x');
            999_999
        },
        &mut buffer,
        b'|',
    );
    assert_eq!(result, Ok(19 + 999_999 + 7));
    assert_eq!(&buffer[..19], b"8=FIX.4.4|9=999999|");
    assert_eq!(verify_checksum(&buffer), Ok(()));
}
