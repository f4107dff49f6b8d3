use fefix::tagvalue::encoder::{encode, write_field, write_fields};
use fefix::tagvalue::utils::{verify_body_length, verify_checksum};
use fefix::tagvalue::{Config, EncodeError};

fn field(tag: u32, value: &[u8]) -> (u32, Vec<u8>) {
    (tag, value.to_vec())
}

#[test]
fn one_field_is_tag_equals_value_separator() {
    let mut buffer: Vec<u8> = Vec::new();
    assert_eq!(write_field(35, b"0", &mut buffer, b'|'), 5);
    assert_eq!(buffer, b"35=0|".to_vec());
    assert_eq!(write_field(4294967295, b"", &mut buffer, 0x1), 12);
    assert_eq!(buffer, b"35=0|4294967295=\x01".to_vec());
    assert_eq!(write_field(0, b"x=y", &mut buffer, b'^'), 6);
    assert_eq!(buffer, b"35=0|4294967295=\x010=x=y^".to_vec());
}

#[test]
fn tags_are_written_without_leading_zeros() {
    for (tag, text) in [
        (1u32, "1="),
        (9, "9="),
        (10, "10="),
        (99, "99="),
        (100, "100="),
        (1009, "1009="),
        (20000, "20000="),
    ] {
        let mut buffer: Vec<u8> = Vec::new();
        write_field(tag, b"", &mut buffer, b'|');
        assert_eq!(buffer, format!("{}|", text).into_bytes());
    }
}

#[test]
fn fields_are_written_in_their_order() {
    let fields = vec![field(35, b"0"), field(49, b"A"), field(56, b"B"), field(34, b"12")];
    let mut buffer: Vec<u8> = b"..".to_vec();
    assert_eq!(write_fields(&fields, &mut buffer, b'|'), 21);
    assert_eq!(buffer, b"..35=0|49=A|56=B|34=12|".to_vec());
    assert_eq!(write_fields(&[], &mut buffer, b'|'), 0);
    assert_eq!(buffer, b"..35=0|49=A|56=B|34=12|".to_vec());
}

#[test]
fn message_of_four_fields() {
    let fields = vec![field(35, b"0"), field(49, b"A"), field(56, b"B"), field(34, b"12")];
    let config = Config::default().with_separator(b'|');
    let mut buffer: Vec<u8> = Vec::new();
    let written = encode(b"FIX.4.4", &fields, &config, &mut buffer);
    assert_eq!(
        buffer,
        b"8=FIX.4.4|9=000021|35=0|49=A|56=B|34=12|10=082|".to_vec()
    );
    assert_eq!(written, Ok(buffer.len()));
}

#[test]
fn message_with_the_default_separator() {
    let fields = vec![
        field(35, b"D"),
        field(11, b"ORDER"),
        field(55, b"EUR/USD"),
        field(38, b"1000000"),
    ];
    let mut buffer: Vec<u8> = Vec::new();
    let written = encode(b"FIX.4.2", &fields, &Config::default(), &mut buffer);
    assert_eq!(
        buffer,
        b"8=FIX.4.2\x019=000036\x0135=D\x0111=ORDER\x0155=EUR/USD\x0138=1000000\x0110=110\x01"
            .to_vec()
    );
    assert_eq!(written, Ok(buffer.len()));
}

#[test]
fn message_without_fields() {
    let config = Config::default().with_separator(b'|');
    let mut buffer: Vec<u8> = Vec::new();
    let written = encode(b"FIX.4.4", &[], &config, &mut buffer);
    assert_eq!(buffer, b"8=FIX.4.4|9=000000|10=174|".to_vec());
    assert_eq!(written, Ok(26));
}

#[test]
fn second_message_comes_behind_the_first() {
    let config = Config::default().with_separator(b'|');
    let mut buffer: Vec<u8> = Vec::new();
    let first = encode(b"FIX.4.4", &[], &config, &mut buffer);
    let second = encode(b"FIX.4.4", &[field(35, b"0")], &config, &mut buffer);
    assert_eq!(first, Ok(26));
    assert_eq!(second, Ok(31));
    assert_eq!(&buffer[..26], b"8=FIX.4.4|9=000000|10=174|");
    assert_eq!(&buffer[26..], b"8=FIX.4.4|9=000005|35=0|10=004|");
}

#[test]
fn encoded_messages_pass_both_checks() {
    let bodies: Vec<Vec<(u32, Vec<u8>)>> = vec![
        vec![],
        vec![field(35, b"0")],
        vec![field(35, b"A"), field(98, b"0"), field(108, b"30")],
        vec![field(1, &[0xff; 300]), field(2, &[0x80; 77])],
    ];
    for separator in [0x1u8, b'|', b'^'] {
        let config = Config::default().with_separator(separator);
        for fields in bodies.iter() {
            let mut buffer: Vec<u8> = Vec::new();
            let written = encode(b"FIXT.1.1", fields, &config, &mut buffer).unwrap();
            assert_eq!(written, buffer.len());
            assert_eq!(verify_checksum(&buffer), Ok(()));
            let body_length = written - 8 - 12 - 7;
            assert_eq!(verify_body_length(&buffer, 8 + 12, body_length), Ok(()));
            let digits = format!("{:06}", body_length).into_bytes();
            assert_eq!(&buffer[13..19], &digits[..]);
        }
    }
}

#[test]
fn body_of_more_than_six_digits_is_refused() {
    let fields = vec![field(1, &vec![b'x'; 500_000]), field(2, &vec![b'y'; 499_994])];
    let config = Config::default().with_separator(b'|');
    let mut buffer: Vec<u8> = b"kept".to_vec();
    let result = encode(b"FIX.4.4", &fields, &config, &mut buffer);
    assert_eq!(result, Err(EncodeError::BodyTooLong));
    assert_eq!(&buffer[..4], b"kept");
    assert_eq!(&buffer[4..23], b"8=FIX.4.4|9=000000|");
    assert_eq!(buffer.len(), 4 + 19 + 1_000_000);
    assert_eq!(&buffer[23..26], b"1=x");
    assert_eq!(buffer[buffer.len() - 1], b'|');

    let fields = vec![field(1, &vec![b'x'; 500_000]), field(2, &vec![b'y'; 499_993])];
    let mut buffer: Vec<u8> = Vec::new();
    let result = encode(b"FIX.4.4", &fields, &config, &mut buffer);
    assert_eq!(result, Ok(19 + 999_999 + 7));
    assert_eq!(&buffer[..19], b"8=FIX.4.4|9=999999|");
}
