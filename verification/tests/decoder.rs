use fefix::dt::DataType;
use fefix::tagvalue::decoder::{decode, parse_header, Field, Header};
use fefix::tagvalue::encoder::encode;
use fefix::tagvalue::{
    Config, Configure, DecodeError, TagLookup, TagLookupSingleAppVersion,
};

fn lookup() -> TagLookupSingleAppVersion {
    let mut table = TagLookupSingleAppVersion::new();
    table.insert(35, DataType::String);
    table.insert(34, DataType::SeqNum);
    table.insert(49, DataType::String);
    table.insert(56, DataType::String);
    table.insert(44, DataType::Price);
    table
}

fn pipes() -> Config {
    Config::default().with_separator(b'|')
}

fn with_checksum(covered: &[u8], separator: u8) -> Vec<u8> {
    let sum: u32 = covered.iter().map(|b| *b as u32).sum();
    let mut message = covered.to_vec();
    message.extend_from_slice(format!("10={:03}", sum % 256).as_bytes());
    message.push(separator);
    message
}

#[test]
fn heartbeat_is_decoded() {
    let message = b"8=FIX.4.4\x019=5\x0135=0\x0110=163\x01";
    let fields = decode(message, &Config::default(), &lookup(), false).unwrap();
    assert_eq!(
        fields,
        vec![Field {
            tag: 35,
            start: 17,
            end: 18,
            datatype: Some(DataType::String)
        }]
    );
    assert_eq!(fields[0].value(message), b"0");
}

#[test]
fn header_of_a_heartbeat() {
    let message = b"8=FIX.4.4|9=5|35=0|10=020|";
    assert_eq!(
        parse_header(message, b'|'),
        Ok(Header {
            begin_string_end: 9,
            body_length: 5,
            start_of_body: 14
        })
    );
    assert_eq!(&message[2..9], b"FIX.4.4");
    let padded = b"8=FIX.4.4|9=000005|35=0|10=004|";
    assert_eq!(
        parse_header(padded, b'|'),
        Ok(Header {
            begin_string_end: 9,
            body_length: 5,
            start_of_body: 19
        })
    );
    assert_eq!(
        parse_header(b"8=|9=0|", b'|'),
        Ok(Header {
            begin_string_end: 2,
            body_length: 0,
            start_of_body: 7
        })
    );
}

#[test]
fn malformed_headers_are_invalid() {
    for message in [
        &b""[..],
        b"8",
        b"8=",
        b"9=5|8=FIX.4.4|",
        b"8:FIX.4.4|9=5|",
        b"8=FIX.4.4",
        b"8=FIX.4.4|",
        b"8=FIX.4.4|9=",
        b"8=FIX.4.4|9=5",
        b"8=FIX.4.4|9=|",
        b"8=FIX.4.4|35=0|9=5|",
        b"8=FIX.4.4|9=5x|",
        b"8=FIX.4.4|9=-5|",
        b"8=FIX.4.4|9= 5|",
        b"8=FIX.4.4|9:5|",
    ] {
        assert_eq!(parse_header(message, b'|'), Err(DecodeError::Invalid));
    }
}

#[test]
fn body_length_beyond_any_message_is_an_invalid_body_length() {
    assert_eq!(
        parse_header(b"8=FIX.4.4|9=99999999999999999999999999|", b'|'),
        Err(DecodeError::InvalidBodyLength)
    );
    assert_eq!(
        parse_header(b"8=FIX.4.4|9=00000000000000000000000012|", b'|'),
        Ok(Header {
            begin_string_end: 9,
            body_length: 12,
            start_of_body: 39
        })
    );
}

#[test]
fn fields_keep_their_order_and_their_places() {
    let message = with_checksum(b"8=FIX.4.4|9=26|35=0|49=A|56=BCD|34=12|1=|", b'|');
    let fields = decode(&message, &pipes(), &lookup(), false).unwrap();
    let tags: Vec<u32> = fields.iter().map(|f| f.tag).collect();
    assert_eq!(tags, vec![35, 49, 56, 34, 1]);
    let values: Vec<&[u8]> = fields.iter().map(|f| f.value(&message)).collect();
    assert_eq!(
        values,
        vec![&b"0"[..], &b"A"[..], &b"BCD"[..], &b"12"[..], &b""[..]]
    );
    let datatypes: Vec<Option<DataType>> = fields.iter().map(|f| f.datatype).collect();
    assert_eq!(
        datatypes,
        vec![
            Some(DataType::String),
            Some(DataType::String),
            Some(DataType::String),
            Some(DataType::SeqNum),
            None
        ]
    );
    assert_eq!((fields[0].start, fields[0].end), (18, 19));
    assert_eq!((fields[4].start, fields[4].end), (40, 40));
}

#[test]
fn leading_zeros_of_a_tag_and_equals_in_a_value_are_accepted() {
    let message = with_checksum(b"8=FIX.4.4|9=19|35=0|0049=A|58=a=b|", b'|');
    let fields = decode(&message, &pipes(), &lookup(), false).unwrap();
    assert_eq!(fields.len(), 3);
    assert_eq!(fields[1].tag, 49);
    assert_eq!(fields[1].value(&message), b"A");
    assert_eq!(fields[2].tag, 58);
    assert_eq!(fields[2].value(&message), b"a=b");
}

#[test]
fn message_of_19_bytes_is_too_short() {
    let message = b"8=|9=000000|10=000|";
    assert_eq!(message.len(), 19);
    assert_eq!(
        decode(message, &pipes(), &lookup(), false),
        Err(DecodeError::MessageTooShort)
    );
    assert_eq!(
        decode(b"", &pipes(), &lookup(), false),
        Err(DecodeError::MessageTooShort)
    );
    let message = with_checksum(b"8=F|9=000000|", b'|');
    assert_eq!(message.len(), 20);
    assert_eq!(decode(&message, &pipes(), &lookup(), false), Ok(vec![]));
}

#[test]
fn wrong_checksum_is_a_mismatch_unless_verification_is_off() {
    let message = b"8=FIX.4.4|9=5|35=0|10=021|";
    assert_eq!(
        decode(message, &pipes(), &lookup(), false),
        Err(DecodeError::ChecksumMismatch)
    );
    let lenient = pipes().with_checksum_verification(false);
    let fields = decode(message, &lenient, &lookup(), false).unwrap();
    assert_eq!(fields.len(), 1);
    let right = b"8=FIX.4.4|9=5|35=0|10=020|";
    assert_eq!(decode(right, &pipes(), &lookup(), false).unwrap(), fields);
}

#[test]
fn checksum_comes_before_body_length() {
    // Both are wrong: the checksum is reported.
    let message = b"8=FIX.4.4|9=6|35=0|10=000|";
    assert_eq!(
        decode(message, &pipes(), &lookup(), false),
        Err(DecodeError::ChecksumMismatch)
    );
    let lenient = pipes().with_checksum_verification(false);
    assert_eq!(
        decode(message, &lenient, &lookup(), false),
        Err(DecodeError::InvalidBodyLength)
    );
}

#[test]
fn wrong_body_length_stops_the_decoder() {
    for covered in [
        &b"8=FIX.4.4|9=4|35=0|"[..],
        b"8=FIX.4.4|9=6|35=0|",
        b"8=FIX.4.4|9=0|35=0|",
        b"8=FIX.4.4|9=99999999999999999999999999|35=0|",
    ] {
        let message = with_checksum(covered, b'|');
        assert_eq!(
            decode(&message, &pipes(), &lookup(), false),
            Err(DecodeError::InvalidBodyLength)
        );
    }
}

#[test]
fn malformed_fields_are_invalid() {
    for covered in [
        &b"8=FIX.4.4|9=5|35:0|"[..],
        b"8=FIX.4.4|9=5|3a=0|",
        b"8=FIX.4.4|9=5|=350|",
        b"8=FIX.4.4|9=5|35=0;",
        b"8=FIX.4.4|9=5|00=0|",
        b"8=FIX.4.4|9=4|0=0|",
        b"8=FIX.4.4|9=13|4294967296=0|",
        b"8=FIX.4.4|9=6|35=0||",
        b"8=FIX.4.4|9=5|-5=0|",
    ] {
        let message = with_checksum(covered, b'|');
        assert_eq!(
            decode(&message, &pipes(), &lookup(), false),
            Err(DecodeError::Invalid)
        );
    }
    let message = with_checksum(b"8=FIX.4.4|9=13|4294967295=0|", b'|');
    let fields = decode(&message, &pipes(), &lookup(), false).unwrap();
    assert_eq!(fields[0].tag, 4294967295);
}

#[test]
fn malformed_trailer_is_invalid() {
    let lenient = pipes().with_checksum_verification(false);
    for message in [
        &b"8=FIX.4.4|9=5|35=0|10=02a|"[..],
        b"8=FIX.4.4|9=5|35=0|11=020|",
        b"8=FIX.4.4|9=5|35=0|10:020|",
        b"8=FIX.4.4|9=5|35=0|10=020;",
        b"8=FIX.4.4|9=5|35=0|10= 20|",
    ] {
        assert_eq!(
            decode(message, &lenient, &lookup(), false),
            Err(DecodeError::Invalid)
        );
    }
}

#[test]
fn message_beyond_64k_is_too_large() {
    let value = vec![b'x'; 65536];
    let mut buffer: Vec<u8> = Vec::new();
    encode(b"FIX.4.4", &[(58, value)], &pipes(), &mut buffer).unwrap();
    assert!(buffer.len() > 65536);
    assert_eq!(Config::default().max_message_size(), Some(65536));
    assert_eq!(
        decode(&buffer, &pipes(), &lookup(), false),
        Err(DecodeError::MessageTooLarge)
    );
}

#[test]
fn message_of_exactly_64k_is_decoded() {
    let value = vec![b'x'; 65536 - 19 - 4 - 7];
    let mut buffer: Vec<u8> = Vec::new();
    encode(b"FIX.4.4", &[(58, value.clone())], &pipes(), &mut buffer).unwrap();
    assert_eq!(buffer.len(), 65536);
    let fields = decode(&buffer, &pipes(), &lookup(), false).unwrap();
    assert_eq!(fields.len(), 1);
    assert_eq!(fields[0].value(&buffer), &value[..]);
}

#[test]
fn unknown_tag_is_kept_unless_strict() {
    let message = with_checksum(b"8=FIX.4.4|9=21|35=0|9999=x|34=1|7=y|", b'|');
    let fields = decode(&message, &pipes(), &lookup(), false).unwrap();
    assert_eq!(fields.len(), 4);
    assert_eq!(fields[1].tag, 9999);
    assert_eq!(fields[1].datatype, None);
    assert_eq!(fields[1].value(&message), b"x");
    assert_eq!(fields[2].datatype, Some(DataType::SeqNum));
    assert_eq!(
        decode(&message, &pipes(), &lookup(), true),
        Err(DecodeError::UnknownTag { tag: 9999 })
    );
    let known = with_checksum(b"8=FIX.4.4|9=10|35=0|34=1|", b'|');
    assert_eq!(
        decode(&known, &pipes(), &lookup(), true),
        decode(&known, &pipes(), &lookup(), false)
    );
}

#[test]
fn malformed_field_comes_before_unknown_tag() {
    let message = with_checksum(b"8=FIX.4.4|9=12|9999=x|34:1|", b'|');
    assert_eq!(
        decode(&message, &pipes(), &lookup(), true),
        Err(DecodeError::Invalid)
    );
}

#[test]
fn tag_lookup_gives_the_last_datatype_set() {
    let mut table = TagLookupSingleAppVersion::new();
    assert_eq!(table.lookup(44), None);
    table.insert(44, DataType::Float);
    assert_eq!(table.lookup(44), Some(DataType::Float));
    table.insert(44, DataType::Price);
    assert_eq!(table.lookup(44), Some(DataType::Price));
    assert_eq!(table.lookup(45), None);
}

#[test]
fn what_is_encoded_is_decoded_as_it_was() {
    let sets: Vec<Vec<(u32, Vec<u8>)>> = vec![
        vec![(35, b"0".to_vec())],
        vec![
            (35, b"D".to_vec()),
            (11, b"ORDER-1".to_vec()),
            (44, b"12.50".to_vec()),
            (58, b"".to_vec()),
            (58, b"a=b=c".to_vec()),
            (4294967295, vec![0, 2, 3, 0xff]),
        ],
        (1..200u32).map(|i| (i, vec![b'v'; i as usize])).collect(),
    ];
    for separator in [0x1u8, b'|', b'^', 0xfe] {
        let config = Config::default().with_separator(separator);
        for fields in sets.iter() {
            let mut buffer: Vec<u8> = Vec::new();
            encode(b"FIX.4.4", fields, &config, &mut buffer).unwrap();
            let decoded = decode(&buffer, &config, &lookup(), false).unwrap();
            assert_eq!(decoded.len(), fields.len());
            for (d, f) in decoded.iter().zip(fields.iter()) {
                assert_eq!(d.tag, f.0);
                assert_eq!(d.value(&buffer), &f.1[..]);
                assert_eq!(d.datatype, lookup().lookup(f.0));
            }
        }
    }
}
