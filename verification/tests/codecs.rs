use apple_events::codec::{
    build_desc, plan, EventEnum, EventPropertyType, Float64, ReadPlan,
};
use apple_events::error::TypeName;
use apple_events::events::PropertyDescriptor;
use apple_events::sys::{
    ResType, TYPE_BOOLEAN, TYPE_CHAR, TYPE_ENUMERATED, TYPE_IEEE_64_BIT_FLOATING_POINT,
    TYPE_NULL, TYPE_S_INT_16, TYPE_S_INT_32, TYPE_S_INT_64, TYPE_UNICODE_TEXT, TYPE_VERSION,
};
use apple_events::text::{decode_ascii, decode_utf16le, encode_utf16le};
use apple_events::wire::{decode_int, decode_uint, encode_int, encode_uint, power_of_256};
use apple_events::{EventError, State};

fn described(tag: u32, size: usize) -> PropertyDescriptor {
    PropertyDescriptor::new(0, ResType(tag), size).unwrap()
}

fn mismatch(expected: TypeName) -> EventError {
    EventError::DecodeMismatch { expected }
}

fn round_trip<T: EventPropertyType>(value: &T) -> T {
    let written = value.to_desc().unwrap();
    let wanted = T::wanted(written.type_tag).expect("a codec accepts what it writes");
    assert_eq!(wanted, written.type_tag);
    T::read(wanted, &written.data).unwrap()
}

#[test]
fn integer_42_round_trips_as_32_bit_signed() {
    let written = 42i32.to_desc().unwrap();
    assert_eq!(written.type_tag, ResType(TYPE_S_INT_32));
    assert_eq!(written.data, vec![42, 0, 0, 0]);
    assert_eq!(written.format, "'long'(@)");
    assert_eq!(i32::read(ResType(TYPE_S_INT_32), &written.data), Ok(42));
    assert_eq!(Some(round_trip(&42i32)), Some(42));
}

#[test]
fn legacy_single_byte_text_reads_as_text() {
    let encoded = String::from("Test Track").to_desc().unwrap();
    assert_eq!(encoded.type_tag, ResType(TYPE_UNICODE_TEXT));
    let wanted = String::wanted(ResType(TYPE_CHAR)).unwrap();
    assert_eq!(wanted, ResType(TYPE_CHAR));
    assert_eq!(String::read(wanted, b"Test Track"), Ok(String::from("Test Track")));
}

#[test]
fn text_is_written_in_16_bit_units() {
    let written = String::from("Test Track").to_desc().unwrap();
    assert_eq!(written.format, "'utxt'(@)");
    assert_eq!(
        written.data,
        vec![
            b'T', 0, b'e', 0, b's', 0, b't', 0, b' ', 0, b'T', 0, b'r', 0, b'a', 0, b'c', 0, b'k',
            0
        ]
    );
}

#[test]
fn text_round_trips() {
    for text in ["", "Test Track", "caf\u{e9}", "\u{10000}", "a\u{1F3B5}b", "\u{ffff}\u{e000}\u{d7ff}", "\u{0}x\u{10ffff}"] {
        assert_eq!(round_trip(&String::from(text)), text);
    }
}

#[test]
fn utf16_forms() {
    assert_eq!(encode_utf16le("A"), Ok(vec![0x41, 0x00]));
    assert_eq!(encode_utf16le("\u{20ac}"), Ok(vec![0xac, 0x20]));
    assert_eq!(encode_utf16le("\u{1F3B5}"), Ok(vec![0x3c, 0xd8, 0xb5, 0xdf]));
    assert_eq!(encode_utf16le("\u{10000}"), Ok(vec![0x00, 0xd8, 0x00, 0xdc]));
    assert_eq!(encode_utf16le("\u{10ffff}"), Ok(vec![0xff, 0xdb, 0xff, 0xdf]));
    assert_eq!(decode_utf16le(&[0x3c, 0xd8, 0xb5, 0xdf]), Ok(String::from("\u{1F3B5}")));
    assert_eq!(decode_utf16le(&[]), Ok(String::new()));
}

#[test]
fn ill_formed_utf16_is_a_decode_failure() {
    let failure = Err(mismatch(TypeName::String));
    assert_eq!(decode_utf16le(&[0x41]), failure);
    assert_eq!(decode_utf16le(&[0x41, 0x00, 0x42]), failure);
    assert_eq!(decode_utf16le(&[0x00, 0xd8]), failure);
    assert_eq!(decode_utf16le(&[0x00, 0xdc]), failure);
    assert_eq!(decode_utf16le(&[0x00, 0xd8, 0x41, 0x00]), failure);
    assert_eq!(decode_utf16le(&[0x00, 0xdc, 0x00, 0xd8]), failure);
    assert_eq!(String::read(ResType(TYPE_UNICODE_TEXT), &[0x00, 0xd8]), failure);
}

#[test]
fn single_byte_text_must_be_ascii() {
    assert_eq!(decode_ascii(b"plain"), Ok(String::from("plain")));
    assert_eq!(decode_ascii(&[]), Ok(String::new()));
    assert_eq!(decode_ascii(&[0x7f, 0x00]), Ok(String::from("\u{7f}\u{0}")));
    assert_eq!(decode_ascii(&[b'a', 0x80]), Err(mismatch(TypeName::String)));
    assert_eq!(String::read(ResType(TYPE_CHAR), &[0xff]), Err(mismatch(TypeName::String)));
}

#[test]
fn text_accepts_three_reply_types() {
    assert_eq!(String::wanted(ResType(TYPE_UNICODE_TEXT)), Some(ResType(TYPE_UNICODE_TEXT)));
    assert_eq!(String::wanted(ResType(TYPE_VERSION)), Some(ResType(TYPE_UNICODE_TEXT)));
    assert_eq!(String::wanted(ResType(TYPE_CHAR)), Some(ResType(TYPE_CHAR)));
    assert_eq!(String::wanted(ResType(TYPE_S_INT_32)), None);
    assert_eq!(String::read(ResType(TYPE_S_INT_32), b"x"), Err(mismatch(TypeName::String)));
}

#[test]
fn version_string_reads_as_16_bit_text() {
    let wanted = String::wanted(ResType(TYPE_VERSION)).unwrap();
    assert_eq!(String::read(wanted, &[b'1', 0, b'.', 0, b'2', 0]), Ok(String::from("1.2")));
}

#[test]
fn booleans_round_trip() {
    assert_eq!(true.to_desc().unwrap().data, vec![1]);
    assert_eq!(false.to_desc().unwrap().data, vec![0]);
    assert_eq!(true.to_desc().unwrap().format, "'bool'(@)");
    assert!(round_trip(&true));
    assert!(!round_trip(&false));
    assert_eq!(bool::read(ResType(TYPE_BOOLEAN), &[2]), Ok(true));
    assert_eq!(bool::read(ResType(TYPE_BOOLEAN), &[]), Ok(false));
    assert_eq!(bool::read(ResType(TYPE_BOOLEAN), &[1, 0]), Err(mismatch(TypeName::Bool)));
}

#[test]
fn floats_round_trip_by_their_bits() {
    for value in [0.0f64, -0.0, 1.5, -273.15, f64::MAX, f64::MIN_POSITIVE, f64::INFINITY] {
        let bits = Float64 { bits: value.to_bits() };
        assert_eq!(f64::from_bits(round_trip(&bits).bits), value);
    }
    let nan = Float64 { bits: f64::NAN.to_bits() };
    assert_eq!(round_trip(&nan), nan);
    let written = Float64 { bits: 1.5f64.to_bits() }.to_desc().unwrap();
    assert_eq!(written.type_tag, ResType(TYPE_IEEE_64_BIT_FLOATING_POINT));
    assert_eq!(written.format, "'doub'(@)");
    assert_eq!(written.data, 1.5f64.to_le_bytes().to_vec());
    assert_eq!(
        Float64::read(ResType(TYPE_IEEE_64_BIT_FLOATING_POINT), &[0; 9]),
        Err(mismatch(TypeName::F64))
    );
}

#[test]
fn sixteen_bit_integers_round_trip() {
    for value in [0i16, 1, -1, 258, i16::MAX, i16::MIN] {
        assert_eq!(round_trip(&value), value);
        assert_eq!(value.to_desc().unwrap().data, value.to_le_bytes().to_vec());
    }
    assert_eq!((-2i16).to_desc().unwrap().format, "'shor'(@)");
    assert_eq!(i16::read(ResType(TYPE_S_INT_16), &[0xff]), Ok(255));
    assert_eq!(i16::read(ResType(TYPE_S_INT_16), &[0, 0, 0]), Err(mismatch(TypeName::I16)));
}

#[test]
fn thirty_two_bit_integers_round_trip() {
    for value in [0i32, 42, -42, 0x0102_0304, i32::MAX, i32::MIN] {
        assert_eq!(round_trip(&value), value);
        assert_eq!(value.to_desc().unwrap().data, value.to_le_bytes().to_vec());
    }
    assert_eq!(i32::read(ResType(TYPE_S_INT_32), &[0xff, 0xff]), Ok(65535));
    assert_eq!(i32::read(ResType(TYPE_S_INT_32), &[0xff, 0xff, 0xff, 0xff]), Ok(-1));
    assert_eq!(i32::read(ResType(TYPE_S_INT_32), &[]), Ok(0));
    assert_eq!(i32::read(ResType(TYPE_S_INT_32), &[0; 5]), Err(mismatch(TypeName::I32)));
}

#[test]
fn sixty_four_bit_integers_round_trip() {
    for value in [0i64, 42, -42, 0x0102_0304_0506_0708, i64::MAX, i64::MIN] {
        assert_eq!(round_trip(&value), value);
        assert_eq!(value.to_desc().unwrap().data, value.to_le_bytes().to_vec());
    }
    assert_eq!(5i64.to_desc().unwrap().format, "'comp'(@)");
    assert_eq!(i64::read(ResType(TYPE_S_INT_64), &[0; 9]), Err(mismatch(TypeName::I64)));
}

#[test]
fn enumeration_symbols_round_trip() {
    for state in [State::STOPPED, State::PLAYING, State::PAUSED] {
        assert_eq!(round_trip(&state), state);
    }
    let written = <State as EventPropertyType>::to_desc(&State::PLAYING).unwrap();
    assert_eq!(written.type_tag, ResType(TYPE_ENUMERATED));
    assert_eq!(written.format, "'enum'(@)");
    assert_eq!(written.data, vec![0x50, 0x53, 0x50, 0x6b]);
}

#[test]
fn unknown_enumeration_code_is_a_decode_failure() {
    assert_eq!(
        <State as EventPropertyType>::read(ResType(TYPE_ENUMERATED), &[1, 2, 3, 4]),
        Err(mismatch(TypeName::Enum))
    );
    assert_eq!(
        <State as EventPropertyType>::read(ResType(TYPE_ENUMERATED), &[0; 5]),
        Err(mismatch(TypeName::Enum))
    );
    assert_eq!(State::from_int(7), None);
}

#[test]
fn enumeration_codes() {
    assert_eq!(State::STOPPED.to_int(), 0x6b505353);
    assert_eq!(State::PLAYING.to_int(), 0x6b505350);
    assert_eq!(State::PAUSED.to_int(), 0x6b505370);
    assert_eq!(State::from_int(0x6b505370), Some(State::PAUSED));
    assert_eq!(State::from_res_type(ResType(0x6b505353)), Some(State::STOPPED));
    assert_eq!(State::PLAYING.to_res_type(), ResType(0x6b505350));
    assert_eq!(State::PLAYING.to_res_type().to_string(), "kPSP");
}

#[test]
fn null_reply_is_absent_for_every_codec() {
    let reply = described(TYPE_NULL, 0);
    assert_eq!(plan::<String>(&reply), ReadPlan::Absent);
    assert_eq!(plan::<bool>(&reply), ReadPlan::Absent);
    assert_eq!(plan::<Float64>(&reply), ReadPlan::Absent);
    assert_eq!(plan::<i16>(&reply), ReadPlan::Absent);
    assert_eq!(plan::<i32>(&reply), ReadPlan::Absent);
    assert_eq!(plan::<i64>(&reply), ReadPlan::Absent);
    assert_eq!(plan::<State>(&reply), ReadPlan::Absent);
    assert_eq!(plan::<i32>(&described(TYPE_NULL, 4)), ReadPlan::Absent);
}

#[test]
fn foreign_reply_is_a_mismatch_that_names_the_type() {
    let reply = described(TYPE_IEEE_64_BIT_FLOATING_POINT, 8);
    assert_eq!(plan::<String>(&reply), ReadPlan::Mismatch { expected: TypeName::String });
    assert_eq!(plan::<bool>(&reply), ReadPlan::Mismatch { expected: TypeName::Bool });
    assert_eq!(plan::<i16>(&reply), ReadPlan::Mismatch { expected: TypeName::I16 });
    assert_eq!(plan::<i32>(&reply), ReadPlan::Mismatch { expected: TypeName::I32 });
    assert_eq!(plan::<i64>(&reply), ReadPlan::Mismatch { expected: TypeName::I64 });
    assert_eq!(plan::<State>(&reply), ReadPlan::Mismatch { expected: TypeName::Enum });
    assert_eq!(
        plan::<Float64>(&described(TYPE_S_INT_32, 4)),
        ReadPlan::Mismatch { expected: TypeName::F64 }
    );
}

#[test]
fn accepted_reply_is_fetched_in_its_size() {
    assert_eq!(
        plan::<i32>(&described(TYPE_S_INT_32, 4)),
        ReadPlan::Fetch { wanted: ResType(TYPE_S_INT_32), capacity: 4 }
    );
    assert_eq!(
        plan::<String>(&described(TYPE_VERSION, 10)),
        ReadPlan::Fetch { wanted: ResType(TYPE_UNICODE_TEXT), capacity: 10 }
    );
    assert_eq!(
        plan::<String>(&described(TYPE_CHAR, 3)),
        ReadPlan::Fetch { wanted: ResType(TYPE_CHAR), capacity: 3 }
    );
}

#[test]
fn codec_names() {
    assert_eq!(<String as EventPropertyType>::name(), TypeName::String);
    assert_eq!(<bool as EventPropertyType>::name(), TypeName::Bool);
    assert_eq!(<Float64 as EventPropertyType>::name(), TypeName::F64);
    assert_eq!(<i16 as EventPropertyType>::name(), TypeName::I16);
    assert_eq!(<i32 as EventPropertyType>::name(), TypeName::I32);
    assert_eq!(<i64 as EventPropertyType>::name(), TypeName::I64);
    assert_eq!(<State as EventPropertyType>::name(), TypeName::Enum);
}

#[test]
fn descriptor_of_a_type_that_cannot_stand_in_a_query_is_refused() {
    assert_eq!(build_desc(ResType(0x0000_0041), vec![1]).unwrap_err(), EventError::InvalidGrammar);
    let built = build_desc(ResType(TYPE_S_INT_32), vec![1, 2]).unwrap();
    assert_eq!(built.format, "'long'(@)");
    assert_eq!(built.type_tag, ResType(TYPE_S_INT_32));
    assert_eq!(built.data, vec![1, 2]);
}

#[test]
fn little_endian_numbers() {
    assert_eq!(decode_uint(&[0x01, 0x02], 4), Some(0x0201));
    assert_eq!(decode_uint(&[], 8), Some(0));
    assert_eq!(decode_uint(&[0xff; 8], 8), Some(u64::MAX));
    assert_eq!(decode_uint(&[0; 3], 2), None);
    assert_eq!(encode_uint(0x0102_0304, 4), vec![4, 3, 2, 1]);
    assert_eq!(encode_uint(0x0102_0304, 2), vec![4, 3]);
    assert_eq!(encode_uint(7, 0), Vec::<u8>::new());
    assert_eq!(decode_int(&[0xfe, 0xff], 2), Some(-2));
    assert_eq!(decode_int(&[0xfe], 2), Some(254));
    assert_eq!(decode_int(&[0x80], 1), Some(-128));
    assert_eq!(decode_int(&[0; 9], 8), None);
    assert_eq!(encode_int(-2, 2), vec![0xfe, 0xff]);
    assert_eq!(encode_int(i64::MIN, 8), i64::MIN.to_le_bytes().to_vec());
    assert_eq!(power_of_256(0), 1);
    assert_eq!(power_of_256(2), 65536);
    assert_eq!(power_of_256(8), 1u128 << 64);
}
