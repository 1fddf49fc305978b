use ots_core::directory::{DirEntries, Layout, Metadata, MIN_BODY_LEN, MIN_RECORD_LEN};
use ots_core::error::Error;
use ots_core::flags::{DirFlag, Property};
use ots_core::types::{uuid_from_u16, DateTime, Uuid};

fn record(body: &[u8]) -> Vec<u8> {
    let len = (body.len() + 2) as u16;
    let mut out = len.to_le_bytes().to_vec();
    out.extend_from_slice(body);
    out
}

fn full_body() -> Vec<u8> {
    let mut body = vec![0x06, 0x05, 0x04, 0x03, 0x02, 0x01];
    body.push(4);
    body.extend_from_slice(b"file");
    body.push(0x3F);
    body.extend_from_slice(&[
        0xa1, 0xa2, 0xa3, 0xa4, 0xb1, 0xb2, 0xc1, 0xc2, 0xd1, 0xd2, 0xd3, 0xd4, 0xd5, 0xd6, 0xd7,
        0xd8,
    ]);
    body.extend_from_slice(&100u32.to_le_bytes());
    body.extend_from_slice(&4096u32.to_le_bytes());
    body.extend_from_slice(&[0xE8, 0x07, 1, 2, 3, 4, 5]);
    body.extend_from_slice(&[0xE9, 0x07, 6, 7, 8, 9, 10]);
    body.extend_from_slice(&0x85u32.to_le_bytes());
    body
}

#[test]
fn directory_entry_of_twelve_bytes_is_too_short() {
    let raw = [0x0D, 0x00, 0x01, 0, 0, 0, 0, 0, 0x00, 0x00, 0x24, 0x25];
    let mut entries = DirEntries::from(&raw[..]);
    assert_eq!(
        entries.next(),
        Some(Err(Error::NotEnoughData { actual: 12, needed: 13 }))
    );
    assert_eq!(entries.next(), None);
}

#[test]
fn directory_entry_of_thirteen_bytes_decodes() {
    let raw = [0x0D, 0x00, 0x01, 0, 0, 0, 0, 0, 0x00, 0x00, 0x24, 0x25, 0x00];
    let mut entries = DirEntries::from(&raw[..]);
    let expected = Metadata {
        id: Some(1),
        name: String::new(),
        type_: uuid_from_u16(0x2524),
        current_size: None,
        allocated_size: None,
        first_created: None,
        last_modified: None,
        properties: Property::empty(),
    };
    assert_eq!(entries.next(), Some(Ok(expected)));
    assert_eq!(entries.next(), None);
    assert_eq!(entries.next(), None);
    assert_eq!(
        uuid::Uuid::from_bytes(uuid_from_u16(0x2524).into_bytes()).to_string(),
        "00002524-0000-1000-8000-00805f9b34fb"
    );
}

#[test]
fn record_body_with_every_field() {
    let body = full_body();
    let meta = Metadata::try_from(&body).unwrap();
    assert_eq!(meta.id, Some(0x0102_0304_0506));
    assert_eq!(meta.name, "file");
    assert_eq!(
        meta.type_,
        Uuid::from_bytes([
            0xa1, 0xa2, 0xa3, 0xa4, 0xb1, 0xb2, 0xc1, 0xc2, 0xd1, 0xd2, 0xd3, 0xd4, 0xd5, 0xd6,
            0xd7, 0xd8
        ])
    );
    assert_eq!(meta.current_size, Some(100));
    assert_eq!(meta.allocated_size, Some(4096));
    assert_eq!(
        meta.first_created,
        Some(DateTime { year: 2024, month: 1, day: 2, hour: 3, minute: 4, second: 5 })
    );
    assert_eq!(
        meta.last_modified,
        Some(DateTime { year: 2025, month: 6, day: 7, hour: 8, minute: 9, second: 10 })
    );
    assert_eq!(meta.properties.bits(), 0x85);
}

#[test]
fn last_modified_goes_by_its_own_flag() {
    let mut body = vec![1, 0, 0, 0, 0, 0, 0];
    body.push(DirFlag::HAS_LAST_MODIFIED);
    body.extend_from_slice(&[0x24, 0x25]);
    body.extend_from_slice(&[0xE9, 0x07, 6, 7, 8, 9, 10]);
    let meta = Metadata::try_from(&body).unwrap();
    assert_eq!(meta.first_created, None);
    assert_eq!(
        meta.last_modified,
        Some(DateTime { year: 2025, month: 6, day: 7, hour: 8, minute: 9, second: 10 })
    );
    let mut body = vec![1, 0, 0, 0, 0, 0, 0];
    body.push(DirFlag::HAS_FIRST_CREATED);
    body.extend_from_slice(&[0x24, 0x25]);
    body.extend_from_slice(&[0xE8, 0x07, 1, 2, 3, 4, 5]);
    let meta = Metadata::try_from(&body).unwrap();
    assert_eq!(
        meta.first_created,
        Some(DateTime { year: 2024, month: 1, day: 2, hour: 3, minute: 4, second: 5 })
    );
    assert_eq!(meta.last_modified, None);
}

#[test]
fn record_body_errors() {
    assert_eq!(MIN_BODY_LEN, 11);
    assert_eq!(MIN_RECORD_LEN, 13);
    assert_eq!(
        Metadata::try_from(&[0u8; 10]),
        Err(Error::NotEnoughData { actual: 10, needed: 11 })
    );
    // a name of five bytes announced, four bytes left behind the length of the name
    let body = [1, 0, 0, 0, 0, 0, 5, b'a', b'b', b'c', b'd'];
    assert_eq!(
        Metadata::try_from(&body),
        Err(Error::NotEnoughData { actual: 4, needed: 8 })
    );
    // a name that is no UTF-8
    let body = [1, 0, 0, 0, 0, 0, 2, 0xFF, 0xFE, 0x00, 0x24, 0x25];
    assert_eq!(Metadata::try_from(&body), Err(Error::BadUtf8));
    // flags with bit 6
    let body = [1, 0, 0, 0, 0, 0, 0, 0x40, 0x24, 0x25, 0];
    assert_eq!(Metadata::try_from(&body), Err(Error::BadDirFlags(0x40)));
    // a long type announced, three bytes there
    let body = [1, 0, 0, 0, 0, 0, 0, 0x01, 0x24, 0x25, 0];
    assert_eq!(
        Metadata::try_from(&body),
        Err(Error::NotEnoughData { actual: 3, needed: 16 })
    );
    // a current size announced, one byte there
    let body = [1, 0, 0, 0, 0, 0, 0, 0x02, 0x24, 0x25, 0];
    assert_eq!(
        Metadata::try_from(&body),
        Err(Error::NotEnoughData { actual: 1, needed: 4 })
    );
    // an allocated size announced, none there
    let body = [1, 0, 0, 0, 0, 0, 0, 0x06, 0x24, 0x25, 1, 0, 0, 0];
    assert_eq!(
        Metadata::try_from(&body),
        Err(Error::NotEnoughData { actual: 0, needed: 4 })
    );
    // a creation time announced, six bytes there
    let body = [1, 0, 0, 0, 0, 0, 0, 0x08, 0x24, 0x25, 1, 2, 3, 4, 5, 6];
    assert_eq!(
        Metadata::try_from(&body),
        Err(Error::NotEnoughData { actual: 6, needed: 7 })
    );
    // a modification time announced, two bytes there
    let body = [1, 0, 0, 0, 0, 0, 0, 0x10, 0x24, 0x25, 1, 2];
    assert_eq!(
        Metadata::try_from(&body),
        Err(Error::NotEnoughData { actual: 2, needed: 7 })
    );
    // properties announced, three bytes there
    let body = [1, 0, 0, 0, 0, 0, 0, 0x20, 0x24, 0x25, 1, 2, 3];
    assert_eq!(
        Metadata::try_from(&body),
        Err(Error::NotEnoughData { actual: 3, needed: 4 })
    );
    // properties with an undefined bit
    let body = [1, 0, 0, 0, 0, 0, 0, 0x20, 0x24, 0x25, 0, 1, 0, 0];
    assert_eq!(Metadata::try_from(&body), Err(Error::BadProperties(0x100)));
}

#[test]
fn bytes_behind_the_last_field_are_not_read() {
    let body = full_body();
    let meta = Metadata::try_from(&body).unwrap();
    let mut longer = body.clone();
    longer.extend_from_slice(&[0xFF, 0xFF, 0xFF]);
    assert_eq!(Metadata::try_from(&longer), Ok(meta));
}

#[test]
fn layout_of_the_optional_fields() {
    let body = full_body();
    let flags = DirFlag::from_bits(0x3F).unwrap();
    assert_eq!(
        Layout::of(&body, 12, &flags),
        Ok(Layout {
            type_at: 12,
            current_at: 28,
            allocated_at: 32,
            created_at: 36,
            modified_at: 43,
            properties_at: 50,
            end: 54,
        })
    );
    let flags = DirFlag::from_bits(DirFlag::HAS_PROPERTIES).unwrap();
    assert_eq!(
        Layout::of(&body, 12, &flags),
        Ok(Layout {
            type_at: 12,
            current_at: 14,
            allocated_at: 14,
            created_at: 14,
            modified_at: 14,
            properties_at: 14,
            end: 18,
        })
    );
    assert_eq!(
        Layout::of(&body[..13], 12, &flags),
        Err(Error::NotEnoughData { actual: 1, needed: 2 })
    );
}

#[test]
fn split_dir_entry_cases() {
    assert_eq!(DirEntries::split_dir_entry(&[]), Ok(None));
    assert_eq!(
        DirEntries::split_dir_entry(&[0x0D, 0x00, 1]),
        Err(Error::NotEnoughData { actual: 3, needed: 13 })
    );
    let raw = [0x10, 0x00, 1, 2, 3, 4, 5, 6, 7, 8, 9, 10, 11];
    assert_eq!(
        DirEntries::split_dir_entry(&raw),
        Err(Error::NotEnoughData { actual: 13, needed: 16 })
    );
    let raw = [0x0D, 0x00, 1, 2, 3, 4, 5, 6, 7, 8, 9, 10, 11, 0xAA, 0xBB];
    let (body, rest) = DirEntries::split_dir_entry(&raw).unwrap().unwrap();
    assert_eq!(body, &[1, 2, 3, 4, 5, 6, 7, 8, 9, 10, 11]);
    assert_eq!(rest, &[0xAA, 0xBB]);
    let raw = [0x01, 0x00, 1, 2, 3, 4, 5, 6, 7, 8, 9, 10, 11];
    assert_eq!(
        DirEntries::split_dir_entry(&raw),
        Err(Error::NotEnoughData { actual: 1, needed: 2 })
    );
    let raw = [0x00, 0x00, 1, 2, 3, 4, 5, 6, 7, 8, 9, 10, 11];
    assert_eq!(
        DirEntries::split_dir_entry(&raw),
        Err(Error::NotEnoughData { actual: 0, needed: 2 })
    );
    let raw = [0x02, 0x00, 1, 2, 3, 4, 5, 6, 7, 8, 9, 10, 11];
    let (body, rest) = DirEntries::split_dir_entry(&raw).unwrap().unwrap();
    assert_eq!(body.len(), 0);
    assert_eq!(rest.len(), 11);
}

#[test]
fn a_listing_of_several_records() {
    let mut raw = record(&full_body());
    raw.extend_from_slice(&record(&[2, 0, 0, 0, 0, 0, 1, b'b', 0x00, 0x01, 0x02]));
    raw.extend_from_slice(&record(&[3, 0, 0, 0, 0, 0, 1, b'c', 0x00, 0x03, 0x04]));
    let items = DirEntries::collect(&raw);
    assert_eq!(items.len(), 3);
    assert_eq!(items[0].as_ref().unwrap().name, "file");
    assert_eq!(items[1].as_ref().unwrap().id, Some(2));
    assert_eq!(items[1].as_ref().unwrap().type_, uuid_from_u16(0x0201));
    assert_eq!(items[2].as_ref().unwrap().name, "c");
    let mut walk = DirEntries::from(&raw[..]);
    let mut n = 0;
    while let Some(item) = walk.next() {
        assert_eq!(item, items[n]);
        n += 1;
    }
    assert_eq!(n, 3);
    assert_eq!(walk.next(), None);
    assert_eq!(walk.into_inner().len(), 0);
}

#[test]
fn a_listing_ends_at_its_first_error() {
    let mut raw = record(&[2, 0, 0, 0, 0, 0, 1, b'b', 0x00, 0x01, 0x02]);
    raw.extend_from_slice(&record(&[3, 0, 0, 0, 0, 0, 1, b'c', 0x40, 0x03, 0x04]));
    raw.extend_from_slice(&record(&[4, 0, 0, 0, 0, 0, 1, b'd', 0x00, 0x03, 0x04]));
    let items = DirEntries::collect(&raw);
    assert_eq!(items.len(), 2);
    assert!(items[0].is_ok());
    assert_eq!(items[1], Err(Error::BadDirFlags(0x40)));
    let mut raw = record(&[2, 0, 0, 0, 0, 0, 1, b'b', 0x00, 0x01, 0x02]);
    raw.extend_from_slice(&[0x0D, 0x00, 0x01]);
    let items = DirEntries::collect(&raw);
    assert_eq!(items.len(), 2);
    assert_eq!(items[1], Err(Error::NotEnoughData { actual: 3, needed: 13 }));
    assert_eq!(DirEntries::collect(&[]).len(), 0);
}

#[test]
fn a_walk_keeps_its_place() {
    let mut raw = record(&[2, 0, 0, 0, 0, 0, 1, b'b', 0x00, 0x01, 0x02]);
    raw.extend_from_slice(&record(&[3, 0, 0, 0, 0, 0, 1, b'c', 0x00, 0x03, 0x04]));
    let mut walk = DirEntries::from(&raw[..]);
    assert!(!walk.done);
    assert_eq!(walk.raw.len(), 26);
    assert!(walk.next().unwrap().is_ok());
    assert!(!walk.done);
    assert_eq!(walk.raw, &raw[13..]);
    assert!(walk.next().unwrap().is_ok());
    assert!(walk.done);
    assert_eq!(walk.raw.len(), 0);
    assert_eq!(walk.next(), None);
    let bad = [0x0D, 0x00, 0x01];
    let mut walk = DirEntries::from(&bad[..]);
    assert!(walk.next().unwrap().is_err());
    assert!(walk.done);
    assert_eq!(walk.raw, &bad[..]);
}
