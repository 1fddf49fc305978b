use ots_core::error::{Error, OpType};
use ots_core::flags::{ActionFeature, DirFlag, ListFeature, Property, WriteMode};
use ots_core::le::{push_u16, push_u32, push_u48, read_u16, read_u32, read_u48};
use ots_core::types::{
    decode_name, uuid_from_raw, uuid_from_u16, uuid_from_u32, DateTime, Sizes, Ule48, Uuid,
};

#[test]
fn ule48_round_trip_of_small_value() {
    let id = Ule48::from_u64(0xAB);
    assert_eq!(id.raw, [0xAB, 0, 0, 0, 0, 0]);
    assert_eq!(id.to_u64(), 0xAB);
}

#[test]
fn ule48_round_trip_below_two_to_the_48() {
    for v in [0u64, 1, 0xFF, 0x100, 0x0123_4567_89AB, 0xFFFF_FFFF_FFFF] {
        let bytes = Ule48::from_u64(v).raw;
        let back = Ule48::try_from(&bytes[..]).unwrap();
        assert_eq!(back.to_u64(), v);
    }
}

#[test]
fn ule48_encoder_truncates_to_48_bits() {
    let id = Ule48::from_u64(0xAABB_0102_0304_0506);
    assert_eq!(id.raw, [0x06, 0x05, 0x04, 0x03, 0x02, 0x01]);
    assert_eq!(id.to_u64(), 0x0102_0304_0506);
}

#[test]
fn ule48_accepts_exactly_six_bytes() {
    assert_eq!(
        Ule48::try_from(&[1, 2, 3, 4, 5][..]),
        Err(Error::NotEnoughData { actual: 5, needed: 6 })
    );
    assert_eq!(
        Ule48::try_from(&[1, 2, 3, 4, 5, 6, 7][..]),
        Err(Error::TooManyData { actual: 7, needed: 6 })
    );
    assert_eq!(
        Ule48::try_from(&[1, 2, 3, 4, 5, 6][..]).unwrap().to_u64(),
        0x0605_0403_0201
    );
}

#[test]
fn little_endian_reads_at_offsets() {
    let raw = [0xFF, 0x34, 0x12, 0x78, 0x56, 0x34, 0x12, 0xAA, 0xBB];
    assert_eq!(read_u16(&raw, 1), 0x1234);
    assert_eq!(read_u32(&raw, 3), 0x1234_5678);
    assert_eq!(read_u48(&raw, 3), 0xBBAA_1234_5678);
}

#[test]
fn little_endian_writes_keep_low_bytes() {
    let mut out = Vec::new();
    push_u16(&mut out, 0x1234);
    push_u32(&mut out, 0x1_1234_5678);
    push_u48(&mut out, 0xFFFF_0000_0000_0001);
    assert_eq!(
        out,
        vec![0x34, 0x12, 0x78, 0x56, 0x34, 0x12, 0x01, 0, 0, 0, 0, 0]
    );
}

#[test]
fn check_len_and_check_len_exact() {
    assert_eq!(Error::check_len(4, 4), Ok(()));
    assert_eq!(Error::check_len(5, 4), Ok(()));
    assert_eq!(
        Error::check_len(3, 4),
        Err(Error::NotEnoughData { actual: 3, needed: 4 })
    );
    assert_eq!(Error::check_len_exact(4, 4), Ok(()));
    assert_eq!(
        Error::check_len_exact(3, 4),
        Err(Error::NotEnoughData { actual: 3, needed: 4 })
    );
    assert_eq!(
        Error::check_len_exact(5, 4),
        Err(Error::TooManyData { actual: 5, needed: 4 })
    );
}

#[test]
fn check_size_goes_by_the_size_of_the_type() {
    assert_eq!(Error::check_size::<u32>(4), Ok(()));
    assert_eq!(
        Error::check_size::<u64>(4),
        Err(Error::NotEnoughData { actual: 4, needed: 8 })
    );
    assert_eq!(
        Error::check_size_exact::<u16>(4),
        Err(Error::TooManyData { actual: 4, needed: 2 })
    );
    assert_eq!(Error::check_size_exact::<[u8; 7]>(7), Ok(()));
}

#[test]
fn op_type_names() {
    assert_eq!(OpType::SortOrder.name(), "SortOrder");
    assert_eq!(OpType::ListOp.name(), "ListOp");
    assert_eq!(OpType::ListRc.name(), "ListRc");
    assert_eq!(OpType::ActionOp.name(), "ActionOp");
    assert_eq!(OpType::ActionRc.name(), "ActionRc");
}

#[test]
fn sizes_decode_exactly_eight_bytes() {
    let raw = [0x10, 0, 0, 0, 0x00, 0x01, 0, 0];
    assert_eq!(
        Sizes::try_from(&raw[..]),
        Ok(Sizes { current: 16, allocated: 256 })
    );
    assert_eq!(
        Sizes::try_from(&raw[..7]),
        Err(Error::NotEnoughData { actual: 7, needed: 8 })
    );
    assert_eq!(
        Sizes::try_from(&[0u8; 9][..]),
        Err(Error::TooManyData { actual: 9, needed: 8 })
    );
}

#[test]
fn sizes_round_trip_and_validity() {
    let s = Sizes { current: 0x0102_0304, allocated: 0xFFFF_FFFF };
    assert_eq!(s.to_bytes(), vec![4, 3, 2, 1, 0xFF, 0xFF, 0xFF, 0xFF]);
    assert_eq!(Sizes::try_from(&s.to_bytes()[..]), Ok(s));
    assert!(s.check());
    assert!(!Sizes { current: 2, allocated: 1 }.check());
    assert_eq!(Sizes::read(&[9, 1, 0, 0, 0, 2, 0, 0, 0], 1), Sizes { current: 1, allocated: 2 });
}

#[test]
fn date_time_decodes_seven_bytes() {
    let raw = [0xE8, 0x07, 2, 29, 23, 59, 58];
    let dt = DateTime { year: 2024, month: 2, day: 29, hour: 23, minute: 59, second: 58 };
    assert_eq!(DateTime::try_from(&raw[..]), Ok(dt));
    assert_eq!(DateTime::from_bytes(&raw), dt);
    assert_eq!(dt.to_bytes(), raw.to_vec());
    assert_eq!(
        DateTime::try_from(&raw[..6]),
        Err(Error::NotEnoughData { actual: 6, needed: 7 })
    );
    assert_eq!(DateTime::try_from(&[0xE8, 0x07, 2, 29, 23, 59, 58, 0xFF][..]), Ok(dt));
    assert_eq!(
        DateTime::try_from(&[0xE8, 0x07, 2, 29, 23, 59, 58, 1, 2, 3, 4, 5, 6, 7][..]),
        Ok(dt)
    );
    assert_eq!(
        DateTime::try_from(&[][..]),
        Err(Error::NotEnoughData { actual: 0, needed: 7 })
    );
}

#[test]
fn date_time_zero_is_a_value_but_not_a_valid_date() {
    let zero = DateTime::try_from(&[0u8; 7][..]).unwrap();
    assert_eq!(
        zero,
        DateTime { year: 0, month: 0, day: 0, hour: 0, minute: 0, second: 0 }
    );
    assert!(!zero.check());
    let ok = DateTime { year: 1999, month: 12, day: 31, hour: 23, minute: 59, second: 59 };
    assert!(ok.check());
    assert!(!DateTime { month: 13, ..ok }.check());
    assert!(!DateTime { day: 32, ..ok }.check());
    assert!(!DateTime { day: 0, ..ok }.check());
    assert!(!DateTime { hour: 24, ..ok }.check());
    assert!(!DateTime { minute: 60, ..ok }.check());
    assert!(!DateTime { second: 60, ..ok }.check());
}

#[test]
fn short_uuids_sit_on_the_bluetooth_base() {
    let expect16 = uuid::Uuid::from_u128(0x0000_2524_0000_1000_8000_0080_5f9b_34fb);
    assert_eq!(uuid_from_u16(0x2524).bytes, expect16.into_bytes());
    let expect32 = uuid::Uuid::from_u128(0x1122_3344_0000_1000_8000_0080_5f9b_34fb);
    assert_eq!(uuid_from_u32(0x1122_3344).bytes, expect32.into_bytes());
    assert_eq!(
        uuid::Uuid::from_bytes(uuid_from_u16(0x1825).into_bytes()).to_string(),
        "00001825-0000-1000-8000-00805f9b34fb"
    );
}

#[test]
fn raw_uuid_of_two_four_and_sixteen_bytes() {
    assert_eq!(uuid_from_raw(&[0x24, 0x25]), Ok(uuid_from_u16(0x2524)));
    assert_eq!(
        uuid_from_raw(&[0x44, 0x33, 0x22, 0x11]),
        Ok(uuid_from_u32(0x1122_3344))
    );
    let long: [u8; 16] = [
        0xa1, 0xa2, 0xa3, 0xa4, 0xb1, 0xb2, 0xc1, 0xc2, 0xd1, 0xd2, 0xd3, 0xd4, 0xd5, 0xd6, 0xd7,
        0xd8,
    ];
    let got = uuid_from_raw(&long).unwrap();
    assert_eq!(got, Uuid::from_bytes(long));
    assert_eq!(
        uuid::Uuid::from_bytes(*got.as_bytes()).to_string(),
        "a1a2a3a4-b1b2-c1c2-d1d2-d3d4d5d6d7d8"
    );
}

#[test]
fn raw_uuid_of_another_length_is_refused() {
    assert_eq!(uuid_from_raw(&[]), Err(Error::BadUuidSize(0)));
    assert_eq!(uuid_from_raw(&[1, 2, 3]), Err(Error::BadUuidSize(3)));
    assert_eq!(uuid_from_raw(&[0u8; 15]), Err(Error::BadUuidSize(15)));
    assert_eq!(uuid_from_raw(&[0u8; 17]), Err(Error::BadUuidSize(17)));
    assert_eq!(Uuid::from_slice(&[1, 2]), Err(Error::BadUuidSize(2)));
    assert_eq!(Uuid::from_slice(&[7u8; 16]), Ok(Uuid { bytes: [7u8; 16] }));
}

#[test]
fn names_are_utf8() {
    assert_eq!(decode_name(b"hello"), Ok(String::from("hello")));
    assert_eq!(decode_name(&[]), Ok(String::new()));
    assert_eq!(
        decode_name(&[0xC3, 0xA9, 0x74, 0xC3, 0xA9]),
        Ok(String::from("\u{e9}t\u{e9}"))
    );
    assert_eq!(decode_name(&[0xFF, 0xFE]), Err(Error::BadUtf8));
    assert_eq!(decode_name(&[0x61, 0xC3]), Err(Error::BadUtf8));
}

#[test]
fn action_features_decode_and_reencode() {
    for bits in [0u32, 1, 0x20, 0x155, 0x3FF] {
        let raw = bits.to_le_bytes();
        let f = ActionFeature::try_from(&raw[..]).unwrap();
        assert_eq!(f.bits(), bits);
        assert_eq!(f.to_bytes(), raw.to_vec());
    }
    assert_eq!(
        ActionFeature::try_from(&0x400u32.to_le_bytes()[..]),
        Err(Error::BadActionFeatures(0x400))
    );
    assert_eq!(
        ActionFeature::try_from(&[1, 0, 0][..]),
        Err(Error::NotEnoughData { actual: 3, needed: 4 })
    );
    assert_eq!(
        ActionFeature::try_from(&[1, 0, 0, 0, 0][..]),
        Err(Error::TooManyData { actual: 5, needed: 4 })
    );
}

#[test]
fn list_features_decode_and_reencode() {
    for bits in [0u32, 1, 2, 4, 8, 0xF] {
        let raw = bits.to_le_bytes();
        let f = ListFeature::try_from(&raw[..]).unwrap();
        assert_eq!(f.bits(), bits);
        assert_eq!(f.to_bytes(), raw.to_vec());
    }
    assert_eq!(
        ListFeature::try_from(&0x10u32.to_le_bytes()[..]),
        Err(Error::BadListFeatures(0x10))
    );
}

#[test]
fn properties_decode_and_reencode() {
    for bits in [0u32, 0x01, 0x80, 0xFF] {
        let raw = bits.to_le_bytes();
        let f = Property::try_from(&raw[..]).unwrap();
        assert_eq!(f.bits(), bits);
        assert_eq!(f.to_bytes(), raw.to_vec());
    }
    assert_eq!(
        Property::try_from(&0x8000_0000u32.to_le_bytes()[..]),
        Err(Error::BadProperties(0x8000_0000))
    );
    assert_eq!(
        Property::try_from(&0x100u32.to_le_bytes()[..]),
        Err(Error::BadProperties(0x100))
    );
}

#[test]
fn directory_flags_reject_bit_six() {
    for bits in [0u8, 0x01, 0x3F, 0x80, 0xBF] {
        assert_eq!(DirFlag::try_from(bits).unwrap().bits(), bits);
    }
    assert_eq!(DirFlag::try_from(0x40), Err(Error::BadDirFlags(0x40)));
    assert_eq!(DirFlag::try_from(0xFF), Err(Error::BadDirFlags(0xFF)));
}

#[test]
fn flag_sets_answer_for_their_bits() {
    let f = ActionFeature::from_bits(ActionFeature::READ | ActionFeature::ABORT).unwrap();
    assert!(f.contains(ActionFeature::READ));
    assert!(f.contains(ActionFeature::READ | ActionFeature::ABORT));
    assert!(!f.contains(ActionFeature::WRITE));
    assert!(!f.is_empty());
    assert!(ActionFeature::empty().is_empty());
    assert_eq!(ActionFeature::all().bits(), 0x3FF);
    assert_eq!(ListFeature::all().bits(), 0x0F);
    assert_eq!(Property::all().bits(), 0xFF);
    assert_eq!(DirFlag::all().bits(), 0xBF);
    assert_eq!(WriteMode::all().bits(), 0x02);
    assert_eq!(WriteMode::TRUNCATE, 0x02);
    assert_eq!(ActionFeature::from_bits(0x400), None);
    assert_eq!(WriteMode::from_bits(0x01), None);
    assert_eq!(ActionFeature::WRITE, 1 << 5);
    assert_eq!(ListFeature::CLEAR_MARK, 1 << 3);
    assert_eq!(Property::MARK, 1 << 7);
    assert_eq!(DirFlag::HAS_EXTENDED_FLAGS, 1 << 7);
}

#[test]
fn flag_reads_at_an_offset() {
    let raw = [0xEE, 0x21, 0x00, 0x00, 0x00, 0x10, 0x00, 0x00, 0x00];
    assert_eq!(ActionFeature::read(&raw, 1).unwrap().bits(), 0x21);
    assert_eq!(
        ListFeature::read(&raw, 5),
        Err(Error::BadListFeatures(0x10))
    );
}

#[test]
fn date_time_text() {
    let dt = DateTime { year: 2024, month: 2, day: 9, hour: 3, minute: 4, second: 5 };
    assert_eq!(dt.to_text(), "2024-02-09 03:04:05");
    assert_eq!(dt.to_text(), format!("{:04}-{:02}-{:02} {:02}:{:02}:{:02}", 2024, 2, 9, 3, 4, 5));
    let zero = DateTime { year: 0, month: 0, day: 0, hour: 0, minute: 0, second: 0 };
    assert_eq!(zero.to_text(), "0000-00-00 00:00:00");
    let big = DateTime { year: 65535, month: 255, day: 100, hour: 23, minute: 59, second: 10 };
    assert_eq!(big.to_text(), "65535-255-100 23:59:10");
}

#[test]
fn decimal_text() {
    let mut s = String::from("x");
    ots_core::types::append_decimal(&mut s, 0, 0);
    assert_eq!(s, "x0");
    ots_core::types::append_decimal(&mut s, 7, 3);
    assert_eq!(s, "x0007");
    ots_core::types::append_decimal(&mut s, 4_294_967_295, 1);
    assert_eq!(s, "x00074294967295");
}

#[test]
fn flag_texts() {
    assert_eq!(ActionFeature::empty().to_text(), "");
    assert_eq!(
        ActionFeature::all().to_text(),
        "create delete checksum execute read write append truncate patch abort"
    );
    assert_eq!(
        ActionFeature::from_bits(ActionFeature::READ | ActionFeature::ABORT).unwrap().to_text(),
        "read abort"
    );
    assert_eq!(ListFeature::all().to_text(), "goto order numberof clearmark");
    assert_eq!(ListFeature::from_bits(ListFeature::ORDER).unwrap().to_text(), "order");
    assert_eq!(
        Property::all().to_text(),
        "delete execute read write append truncate patch mark"
    );
    let mut s = String::new();
    ots_core::flags::add_word(&mut s, false, "a");
    assert_eq!(s, "");
    ots_core::flags::add_word(&mut s, true, "a");
    ots_core::flags::add_word(&mut s, true, "b");
    assert_eq!(s, "a b");
}

#[test]
fn identifiers_through_from() {
    for v in [0u64, 0xAB, 0x0123_4567_89AB, 0xFFFF_FFFF_FFFF] {
        assert_eq!(u64::from(Ule48::from(v)), v);
        assert_eq!(<[u8; 6]>::from(Ule48::from(v)), v.to_le_bytes()[..6]);
    }
    assert_eq!(u64::from(Ule48::from(0xAABB_0000_0000_0001u64)), 1);
    assert_eq!(Ule48::from([1u8, 2, 3, 4, 5, 6]).to_u64(), 0x0605_0403_0201);
    assert_eq!(
        Sizes::from(&[1u8, 0, 0, 0, 2, 0, 0, 0]),
        Sizes { current: 1, allocated: 2 }
    );
    assert_eq!(
        DateTime::from(&[0xE8u8, 0x07, 2, 29, 23, 59, 58]),
        DateTime { year: 2024, month: 2, day: 29, hour: 23, minute: 59, second: 58 }
    );
}
