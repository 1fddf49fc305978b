//! The primitive values of the service: 48-bit identifiers, object sizes, date-time
//! stamps, UUIDs and names.

use vstd::prelude::*;
use vstd::std_specs::convert::{FromSpec, FromSpecImpl};
use vstd::string::StringExecFns;
use vstd::utf8::{decode_utf8, encode_utf8, valid_utf8};

use crate::error::Error;
use crate::le::{
    byte_of, push_u16, push_u32, read_u16, read_u32, read_u48, u16_from_le, u16_to_le,
    u32_from_le, u32_to_le, u48_from_le, u48_to_le,
};

verus! {

/// An object identifier: 48 bits, held as the six bytes that travel, low byte first.
#[derive(Debug, Clone, Copy, PartialEq, Eq, Hash)]
pub struct Ule48 {
    /// The six bytes, low byte first.
    pub raw: [u8; 6],
}

/// An object identifier of 48 bits.
pub type U48 = Ule48;

impl Ule48 {
    /// The number that the six bytes hold.
    pub open spec fn spec_value(self) -> int {
        u48_from_le(self.raw@)
    }

    /// What a value of exactly six bytes decodes to.
    pub open spec fn spec_decode(raw: Seq<u8>) -> Result<Self, Error> {
        if raw.len() < 6 {
            Err(Error::NotEnoughData { actual: raw.len() as usize, needed: 6 })
        } else if raw.len() > 6 {
            Err(Error::TooManyData { actual: raw.len() as usize, needed: 6 })
        } else {
            Ok(Ule48 { raw: [raw[0], raw[1], raw[2], raw[3], raw[4], raw[5]] })
        }
    }

    /// The six bytes that stand for the low 48 bits of `v`.
    pub open spec fn spec_encode(v: u64) -> Seq<u8> {
        u48_to_le(v as int)
    }

    /// The identifier that holds the low 48 bits of `v`.
    pub open spec fn spec_from_u64(v: u64) -> Self {
        Ule48 {
            raw: [
                byte_of(v as int, 0),
                byte_of(v as int, 1),
                byte_of(v as int, 2),
                byte_of(v as int, 3),
                byte_of(v as int, 4),
                byte_of(v as int, 5),
            ],
        }
    }

    /// The identifier that holds the low 48 bits of `val`.
    pub fn from_u64(val: u64) -> (r: Self)
        ensures
            r.raw@ == u48_to_le(val as int),
            val < 0x1_0000_0000_0000 ==> r.spec_value() == val,
    {
        let v1: u64 = val / 0x100;
        let v2: u64 = v1 / 0x100;
        let v3: u64 = v2 / 0x100;
        let v4: u64 = v3 / 0x100;
        let v5: u64 = v4 / 0x100;
        let raw: [u8; 6] = [
            (val % 0x100) as u8,
            (v1 % 0x100) as u8,
            (v2 % 0x100) as u8,
            (v3 % 0x100) as u8,
            (v4 % 0x100) as u8,
            (v5 % 0x100) as u8,
        ];
        proof {
            assert(raw@ =~= u48_to_le(val as int));
            if val < 0x1_0000_0000_0000 {
                crate::le::lemma_u48_round_trip(val as int);
            }
        }
        Ule48 { raw }
    }

    /// The number that the identifier holds.
    pub fn to_u64(&self) -> (r: u64)
        ensures
            r == self.spec_value(),
            r < 0x1_0000_0000_0000,
    {
        let s: &[u8] = self.raw.as_slice();
        assert(s@.subrange(0, 6) =~= self.raw@);
        read_u48(s, 0)
    }

    /// The identifier held in six bytes.
    pub fn from_bytes(raw: [u8; 6]) -> (r: Self)
        ensures
            r.raw == raw,
    {
        Ule48 { raw }
    }

    /// Decodes a value of exactly six bytes.
    pub fn try_from(raw: &[u8]) -> (r: Result<Self, Error>)
        ensures
            r == Self::spec_decode(raw@),
            r matches Ok(v) ==> v.raw@ == raw@,
    {
        match Error::check_len_exact(raw.len(), 6) {
            Err(e) => Err(e),
            Ok(()) => {
                let bytes: [u8; 6] = [raw[0], raw[1], raw[2], raw[3], raw[4], raw[5]];
                assert(bytes@ =~= raw@);
                assert(bytes == [raw@[0], raw@[1], raw@[2], raw@[3], raw@[4], raw@[5]]);
                Ok(Ule48 { raw: bytes })
            },
        }
    }

    /// An identifier below 2^48 that is encoded and decoded again is unchanged.
    pub proof fn lemma_round_trip(v: u64)
        requires
            v < 0x1_0000_0000_0000,
        ensures
            Self::spec_decode(Self::spec_encode(v)) matches Ok(id) && id.spec_value() == v,
    {
        crate::le::lemma_u48_round_trip(v as int);
        let raw = Self::spec_encode(v);
        let id = Ule48 { raw: [raw[0], raw[1], raw[2], raw[3], raw[4], raw[5]] };
        assert(id.raw@ =~= raw);
    }
}

impl From<u64> for Ule48 {
    /// The identifier that holds the low 48 bits of `val`.
    fn from(val: u64) -> (r: Self)
        ensures
            r.raw@ == u48_to_le(val as int),
            val < 0x1_0000_0000_0000 ==> r.spec_value() == val,
    {
        let r: Ule48 = Ule48::from_u64(val);
        assert(r.raw =~= Ule48::spec_from_u64(val).raw);
        r
    }
}

impl FromSpecImpl<u64> for Ule48 {
    open spec fn obeys_from_spec() -> bool {
        true
    }

    open spec fn from_spec(val: u64) -> Self {
        Ule48::spec_from_u64(val)
    }
}

impl From<[u8; 6]> for Ule48 {
    /// The identifier held in six bytes.
    fn from(raw: [u8; 6]) -> (r: Self) {
        Ule48 { raw }
    }
}

impl FromSpecImpl<[u8; 6]> for Ule48 {
    open spec fn obeys_from_spec() -> bool {
        true
    }

    open spec fn from_spec(raw: [u8; 6]) -> Self {
        Ule48 { raw }
    }
}

impl From<Ule48> for [u8; 6] {
    /// The six bytes of the identifier, low byte first.
    fn from(id: Ule48) -> (r: Self)
        ensures
            r@ == id.raw@,
    {
        id.raw
    }
}

impl FromSpecImpl<Ule48> for [u8; 6] {
    open spec fn obeys_from_spec() -> bool {
        true
    }

    open spec fn from_spec(id: Ule48) -> Self {
        id.raw
    }
}

impl From<Ule48> for u64 {
    /// The number that the identifier holds.
    fn from(id: Ule48) -> (r: Self) {
        id.to_u64()
    }
}

impl FromSpecImpl<Ule48> for u64 {
    open spec fn obeys_from_spec() -> bool {
        true
    }

    open spec fn from_spec(id: Ule48) -> Self {
        id.spec_value() as u64
    }
}

/// An identifier below 2^48 that is made into an `Ule48` and back is unchanged, and the
/// six bytes in between are its low bytes, low byte first.
pub proof fn lemma_ule48_from(v: u64)
    requires
        v < 0x1_0000_0000_0000,
    ensures
        <u64 as FromSpec<Ule48>>::from_spec(<Ule48 as FromSpec<u64>>::from_spec(v)) == v,
        <[u8; 6] as FromSpec<Ule48>>::from_spec(<Ule48 as FromSpec<u64>>::from_spec(v))@
            == u48_to_le(v as int),
{
    crate::le::lemma_u48_round_trip(v as int);
    let id = <Ule48 as FromSpec<u64>>::from_spec(v);
    assert(id.raw@ =~= u48_to_le(v as int));
}

/// The sizes of one object, in bytes.
///
/// On the wire each size is a 32-bit number; here both have the width of the platform.
#[derive(Debug, Clone, Copy, PartialEq, Eq, PartialOrd, Ord, Hash, Structural)]
pub struct Sizes {
    /// How many bytes the object holds.
    pub current: usize,
    /// How many bytes the object can hold.
    pub allocated: usize,
}

impl Sizes {
    /// The object holds no more than it can.
    pub open spec fn is_valid(self) -> bool {
        self.current <= self.allocated
    }

    /// The sizes that the first eight bytes of `raw` hold.
    pub open spec fn spec_read(raw: Seq<u8>) -> Self
        recommends
            raw.len() >= 8,
    {
        Sizes {
            current: u32_from_le(raw.subrange(0, 4)) as usize,
            allocated: u32_from_le(raw.subrange(4, 8)) as usize,
        }
    }

    /// What a value of exactly eight bytes decodes to.
    pub open spec fn spec_decode(raw: Seq<u8>) -> Result<Self, Error> {
        if raw.len() < 8 {
            Err(Error::NotEnoughData { actual: raw.len() as usize, needed: 8 })
        } else if raw.len() > 8 {
            Err(Error::TooManyData { actual: raw.len() as usize, needed: 8 })
        } else {
            Ok(Self::spec_read(raw))
        }
    }

    /// The eight bytes that stand for the sizes, each cut to its low 32 bits.
    pub open spec fn spec_encode(self) -> Seq<u8> {
        u32_to_le(self.current as int) + u32_to_le(self.allocated as int)
    }

    /// Whether the object holds no more than it can.
    pub fn check(&self) -> (r: bool)
        ensures
            r == self.is_valid(),
    {
        self.current <= self.allocated
    }

    /// The sizes held in eight bytes.
    pub fn from_bytes(raw: &[u8; 8]) -> (r: Self)
        ensures
            r == Self::spec_read(raw@),
    {
        let s: &[u8] = raw.as_slice();
        assert(s@.subrange(0, 8) =~= raw@);
        Self::read(s, 0)
    }

    /// Decodes the eight bytes of `raw` that start at `at`.
    pub fn read(raw: &[u8], at: usize) -> (r: Self)
        requires
            at + 8 <= raw.len(),
        ensures
            r == Self::spec_read(raw@.subrange(at as int, at + 8)),
    {
        proof {
            let part = raw@.subrange(at as int, at + 8);
            assert(part.subrange(0, 4) =~= raw@.subrange(at as int, at + 4));
            assert(part.subrange(4, 8) =~= raw@.subrange(at + 4, at + 8));
        }
        let current: u32 = read_u32(raw, at);
        let allocated: u32 = read_u32(raw, at + 4);
        Sizes { current: current as usize, allocated: allocated as usize }
    }

    /// Decodes a value of exactly eight bytes.
    pub fn try_from(raw: &[u8]) -> (r: Result<Self, Error>)
        ensures
            r == Self::spec_decode(raw@),
    {
        match Error::check_len_exact(raw.len(), 8) {
            Err(e) => Err(e),
            Ok(()) => {
                assert(raw@.subrange(0, 8) =~= raw@);
                Ok(Self::read(raw, 0))
            },
        }
    }

    /// The eight bytes that stand for the sizes.
    pub fn to_bytes(&self) -> (r: Vec<u8>)
        ensures
            r@ == self.spec_encode(),
    {
        let mut out: Vec<u8> = Vec::new();
        push_u32(&mut out, self.current as u64);
        push_u32(&mut out, self.allocated as u64);
        out
    }

    /// Sizes that fit in 32 bits are unchanged by encoding and decoding.
    pub proof fn lemma_round_trip(self)
        requires
            self.current < 0x1_0000_0000,
            self.allocated < 0x1_0000_0000,
        ensures
            Self::spec_decode(self.spec_encode()) == Ok::<Self, Error>(self),
    {
        crate::le::lemma_u32_round_trip(self.current as int);
        crate::le::lemma_u32_round_trip(self.allocated as int);
        let raw = self.spec_encode();
        assert(raw.subrange(0, 4) =~= u32_to_le(self.current as int));
        assert(raw.subrange(4, 8) =~= u32_to_le(self.allocated as int));
    }
}

impl<'a> From<&'a [u8; 8]> for Sizes {
    /// The sizes held in eight bytes.
    fn from(raw: &'a [u8; 8]) -> (r: Self) {
        Sizes::from_bytes(raw)
    }
}

impl<'a> FromSpecImpl<&'a [u8; 8]> for Sizes {
    open spec fn obeys_from_spec() -> bool {
        true
    }

    open spec fn from_spec(raw: &'a [u8; 8]) -> Self {
        Sizes::spec_read(raw@)
    }
}

/// A date and a time of day, without a time zone.
#[derive(Debug, Clone, Copy, PartialEq, Eq, PartialOrd, Ord, Hash, Structural)]
pub struct DateTime {
    /// The year.
    pub year: u16,
    /// The month of the year, from 1.
    pub month: u8,
    /// The day of the month, from 1.
    pub day: u8,
    /// The hour of the day.
    pub hour: u8,
    /// The minute of the hour.
    pub minute: u8,
    /// The second of the minute.
    pub second: u8,
}

impl DateTime {
    /// Every field lies in its range: months 1 to 12, days 1 to 31, hours to 23,
    /// minutes and seconds to 59.
    pub open spec fn is_valid(self) -> bool {
        &&& 1 <= self.month <= 12
        &&& 1 <= self.day <= 31
        &&& self.hour <= 23
        &&& self.minute <= 59
        &&& self.second <= 59
    }

    /// The stamp that the first seven bytes of `raw` hold.
    pub open spec fn spec_read(raw: Seq<u8>) -> Self
        recommends
            raw.len() >= 7,
    {
        DateTime {
            year: u16_from_le(raw) as u16,
            month: raw[2],
            day: raw[3],
            hour: raw[4],
            minute: raw[5],
            second: raw[6],
        }
    }

    /// What a value decodes to: the stamp in its first seven bytes, or `NotEnoughData` where
    /// it has fewer.  What follows the seventh byte is not read.
    pub open spec fn spec_decode(raw: Seq<u8>) -> Result<Self, Error> {
        if raw.len() < 7 {
            Err(Error::NotEnoughData { actual: raw.len() as usize, needed: 7 })
        } else {
            Ok(Self::spec_read(raw))
        }
    }

    /// The seven bytes that stand for the stamp.
    pub open spec fn spec_encode(self) -> Seq<u8> {
        u16_to_le(self.year as int) + seq![
            self.month,
            self.day,
            self.hour,
            self.minute,
            self.second,
        ]
    }

    /// Whether every field lies in its range.
    pub fn check(&self) -> (r: bool)
        ensures
            r == self.is_valid(),
    {
        1 <= self.month && self.month <= 12 && 1 <= self.day && self.day <= 31 && self.hour <= 23
            && self.minute <= 59 && self.second <= 59
    }

    /// The stamp held in seven bytes.
    pub fn from_bytes(raw: &[u8; 7]) -> (r: Self)
        ensures
            r == Self::spec_read(raw@),
    {
        let s: &[u8] = raw.as_slice();
        assert(s@.subrange(0, 7) =~= raw@);
        Self::read(s, 0)
    }

    /// Decodes the seven bytes of `raw` that start at `at`.
    pub fn read(raw: &[u8], at: usize) -> (r: Self)
        requires
            at + 7 <= raw.len(),
        ensures
            r == Self::spec_read(raw@.subrange(at as int, at + 7)),
    {
        proof {
            let part = raw@.subrange(at as int, at + 7);
            assert(part.subrange(0, 2) =~= raw@.subrange(at as int, at + 2));
        }
        DateTime {
            year: read_u16(raw, at),
            month: raw[at + 2],
            day: raw[at + 3],
            hour: raw[at + 4],
            minute: raw[at + 5],
            second: raw[at + 6],
        }
    }

    /// Decodes a value of seven bytes or more.
    pub fn try_from(raw: &[u8]) -> (r: Result<Self, Error>)
        ensures
            r == Self::spec_decode(raw@),
    {
        match Error::check_len(raw.len(), 7) {
            Err(e) => Err(e),
            Ok(()) => {
                assert(raw@.subrange(0, 7).subrange(0, 2) =~= raw@.subrange(0, 2));
                Ok(Self::read(raw, 0))
            },
        }
    }

    /// The seven bytes that stand for the stamp.
    pub fn to_bytes(&self) -> (r: Vec<u8>)
        ensures
            r@ == self.spec_encode(),
    {
        let mut out: Vec<u8> = Vec::new();
        push_u16(&mut out, self.year);
        out.push(self.month);
        out.push(self.day);
        out.push(self.hour);
        out.push(self.minute);
        out.push(self.second);
        assert(out@ =~= self.spec_encode());
        out
    }

    /// A stamp is unchanged by encoding and decoding.
    pub proof fn lemma_round_trip(self)
        ensures
            Self::spec_decode(self.spec_encode()) == Ok::<Self, Error>(self),
    {
        crate::le::lemma_u16_round_trip(self.year as int);
    }
}

impl<'a> From<&'a [u8; 7]> for DateTime {
    /// The stamp held in seven bytes.
    fn from(raw: &'a [u8; 7]) -> (r: Self) {
        DateTime::from_bytes(raw)
    }
}

impl<'a> FromSpecImpl<&'a [u8; 7]> for DateTime {
    open spec fn obeys_from_spec() -> bool {
        true
    }

    open spec fn from_spec(raw: &'a [u8; 7]) -> Self {
        DateTime::spec_read(raw@)
    }
}

/// A 128-bit UUID, held as its sixteen bytes in network order.
#[derive(Debug, Clone, Copy, PartialEq, Eq, PartialOrd, Ord, Hash)]
pub struct Uuid {
    /// The sixteen bytes, as they are printed from left to right.
    pub bytes: [u8; 16],
}

impl View for Uuid {
    type V = Seq<u8>;

    open spec fn view(&self) -> Seq<u8> {
        self.bytes@
    }
}

impl Uuid {
    /// The UUID held in sixteen bytes.
    pub fn from_bytes(bytes: [u8; 16]) -> (r: Self)
        ensures
            r@ == bytes@,
    {
        Uuid { bytes }
    }

    /// The sixteen bytes of the UUID.
    pub fn as_bytes(&self) -> (r: &[u8; 16])
        ensures
            r@ == self@,
    {
        &self.bytes
    }

    /// The sixteen bytes of the UUID.
    pub fn into_bytes(self) -> (r: [u8; 16])
        ensures
            r@ == self@,
    {
        self.bytes
    }

    /// The UUID held in a slice of exactly sixteen bytes; any other length is `BadUuidSize`.
    pub fn from_slice(raw: &[u8]) -> (r: Result<Self, Error>)
        ensures
            match r {
                Ok(u) => raw@.len() == 16 && u@ == raw@,
                Err(e) => raw@.len() != 16 && e == Error::BadUuidSize(raw@.len() as usize),
            },
    {
        match uuid_bytes_from_slice(raw) {
            Some(bytes) => Ok(Uuid { bytes }),
            None => Err(Error::BadUuidSize(raw.len())),
        }
    }
}

/// The sixteen bytes of the Bluetooth UUID that a 32-bit short form stands for: the short
/// form in the first four bytes, high byte first, and the base UUID
/// `00000000-0000-1000-8000-00805F9B34FB` in the other twelve.
pub open spec fn spec_uuid_from_u32(short: u32) -> Seq<u8> {
    seq![
        byte_of(short as int, 3),
        byte_of(short as int, 2),
        byte_of(short as int, 1),
        byte_of(short as int, 0),
        0x00u8,
        0x00u8,
        0x10u8,
        0x00u8,
        0x80u8,
        0x00u8,
        0x00u8,
        0x80u8,
        0x5fu8,
        0x9bu8,
        0x34u8,
        0xfbu8,
    ]
}

/// What a raw UUID of two, four or sixteen bytes decodes to.  The short forms are
/// little-endian numbers; the long form is taken as it stands.
pub open spec fn spec_uuid_from_raw(raw: Seq<u8>) -> Result<Seq<u8>, Error> {
    if raw.len() == 2 {
        Ok(spec_uuid_from_u32(u16_from_le(raw) as u32))
    } else if raw.len() == 4 {
        Ok(spec_uuid_from_u32(u32_from_le(raw) as u32))
    } else if raw.len() == 16 {
        Ok(raw)
    } else {
        Err(Error::BadUuidSize(raw.len() as usize))
    }
}

/// The bytes of a decoded UUID, or the error that came in its place.
pub open spec fn uuid_result_view(r: Result<Uuid, Error>) -> Result<Seq<u8>, Error> {
    match r {
        Ok(u) => Ok(u@),
        Err(e) => Err(e),
    }
}

/// The Bluetooth UUID that a 32-bit short form stands for.
pub fn uuid_from_u32(short: u32) -> (r: Uuid)
    ensures
        r@ == spec_uuid_from_u32(short),
{
    let v1: u32 = short / 0x100;
    let v2: u32 = v1 / 0x100;
    let v3: u32 = v2 / 0x100;
    let bytes: [u8; 16] = [
        (v3 % 0x100) as u8,
        (v2 % 0x100) as u8,
        (v1 % 0x100) as u8,
        (short % 0x100) as u8,
        0x00,
        0x00,
        0x10,
        0x00,
        0x80,
        0x00,
        0x00,
        0x80,
        0x5f,
        0x9b,
        0x34,
        0xfb,
    ];
    assert(bytes@ =~= spec_uuid_from_u32(short));
    Uuid { bytes }
}

/// The Bluetooth UUID that a 16-bit short form stands for.
pub fn uuid_from_u16(short: u16) -> (r: Uuid)
    ensures
        r@ == spec_uuid_from_u32(short as u32),
{
    uuid_from_u32(short as u32)
}

/// `uuid::Uuid::from_slice` followed by `Uuid::into_bytes`: the first takes a slice of
/// exactly sixteen bytes and fails on any other length, the second hands the same
/// sixteen bytes back.
#[verifier::external_body]
fn uuid_bytes_from_slice(raw: &[u8]) -> (r: Option<[u8; 16]>)
    ensures
        r is Some <==> raw@.len() == 16,
        r matches Some(bytes) ==> bytes@ == raw@,
{
    match uuid::Uuid::from_slice(raw) {
        Ok(u) => Some(u.into_bytes()),
        Err(_) => None,
    }
}

/// Decodes a raw UUID of two, four or sixteen bytes; any other length is `BadUuidSize`.
pub fn uuid_from_raw(raw: &[u8]) -> (r: Result<Uuid, Error>)
    ensures
        uuid_result_view(r) == spec_uuid_from_raw(raw@),
{
    let len: usize = raw.len();
    if len == 2 {
        assert(raw@.subrange(0, 2) =~= raw@);
        Ok(uuid_from_u16(read_u16(raw, 0)))
    } else if len == 4 {
        assert(raw@.subrange(0, 4) =~= raw@);
        Ok(uuid_from_u32(read_u32(raw, 0)))
    } else {
        Uuid::from_slice(raw)
    }
}

/// What the bytes of a name decode to: the text they spell in UTF-8, or `BadUtf8`.
pub open spec fn spec_decode_name(raw: Seq<u8>) -> Result<Seq<char>, Error> {
    if valid_utf8(raw) {
        Ok(decode_utf8(raw))
    } else {
        Err(Error::BadUtf8)
    }
}

/// The text of a decoded name, or the error that came in its place.
pub open spec fn name_result_view(r: Result<String, Error>) -> Result<Seq<char>, Error> {
    match r {
        Ok(s) => Ok(s@),
        Err(e) => Err(e),
    }
}

/// The error of `core::str::from_utf8`; nothing is read from it.
#[verifier::external_type_specification]
#[verifier::external_body]
pub struct ExUtf8Error(core::str::Utf8Error);

/// `core::str::from_utf8` succeeds exactly on valid UTF-8, and the string it gives is
/// spelled by the very bytes it was given.
pub assume_specification[ core::str::from_utf8 ](v: &[u8]) -> (r: Result<
    &str,
    core::str::Utf8Error,
>)
    ensures
        r is Ok <==> valid_utf8(v@),
        r matches Ok(s) ==> encode_utf8(s@) == v@,
;

/// Decodes the bytes of a name.
pub fn decode_name(raw: &[u8]) -> (r: Result<String, Error>)
    ensures
        name_result_view(r) == spec_decode_name(raw@),
{
    match core::str::from_utf8(raw) {
        Ok(s) => {
            proof {
                vstd::utf8::encode_utf8_decode_utf8(s@);
            }
            Ok(s.to_owned())
        },
        Err(_) => Err(Error::BadUtf8),
    }
}

/// An identifier and a pair of sizes decode from a buffer of exactly their size.  A
/// shorter buffer is `NotEnoughData` with the length it has and the greater length it
/// needs; a longer one is `TooManyData`.
pub proof fn lemma_fixed_size(raw: Seq<u8>)
    requires
        raw.len() <= usize::MAX,
    ensures
        Ule48::spec_decode(raw) is Ok <==> raw.len() == 6,
        Sizes::spec_decode(raw) is Ok <==> raw.len() == 8,
        raw.len() < 6 ==> Ule48::spec_decode(raw) == Err::<Ule48, Error>(
            Error::NotEnoughData { actual: raw.len() as usize, needed: 6 },
        ),
        raw.len() < 8 ==> Sizes::spec_decode(raw) == Err::<Sizes, Error>(
            Error::NotEnoughData { actual: raw.len() as usize, needed: 8 },
        ),
        raw.len() > 6 ==> Ule48::spec_decode(raw) == Err::<Ule48, Error>(
            Error::TooManyData { actual: raw.len() as usize, needed: 6 },
        ),
        raw.len() > 8 ==> Sizes::spec_decode(raw) == Err::<Sizes, Error>(
            Error::TooManyData { actual: raw.len() as usize, needed: 8 },
        ),
{
}

/// A stamp decodes from seven bytes or more, and to the same whatever follows the seven:
/// the decoder takes its seven bytes or asks for them, and nothing else.
pub proof fn lemma_stamp_prefix(raw: Seq<u8>, extra: Seq<u8>)
    requires
        raw.len() + extra.len() <= usize::MAX,
    ensures
        DateTime::spec_decode(raw) is Ok <==> raw.len() >= 7,
        raw.len() < 7 ==> DateTime::spec_decode(raw) == Err::<DateTime, Error>(
            Error::NotEnoughData { actual: raw.len() as usize, needed: 7 },
        ),
        raw.len() >= 7 ==> DateTime::spec_decode(raw + extra) == DateTime::spec_decode(raw),
        raw.len() >= 7 ==> DateTime::spec_decode(raw) == DateTime::spec_decode(
            raw.subrange(0, 7),
        ),
{
}

/// The character of a decimal digit.
pub open spec fn spec_digit(d: nat) -> char
    recommends
        d < 10,
{
    ((0x30 + d) as u8) as char
}

/// The decimal digits of `v`, with zeros in front until there are `width` of them.
pub open spec fn spec_decimal(v: nat, width: nat) -> Seq<char>
    decreases v, width,
{
    if v < 10 && width <= 1 {
        seq![spec_digit(v)]
    } else {
        spec_decimal(
            v / 10,
            if width > 0 {
                (width - 1) as nat
            } else {
                0
            },
        ).push(spec_digit(v % 10))
    }
}

/// The text of a decimal digit.
fn digit_str(d: u8) -> (r: &'static str)
    requires
        d < 10,
    ensures
        r@ == seq![spec_digit(d as nat)],
{
    proof {
        reveal_strlit("0");
        reveal_strlit("1");
        reveal_strlit("2");
        reveal_strlit("3");
        reveal_strlit("4");
        reveal_strlit("5");
        reveal_strlit("6");
        reveal_strlit("7");
        reveal_strlit("8");
        reveal_strlit("9");
    }
    let r: &'static str = match d {
        0 => "0",
        1 => "1",
        2 => "2",
        3 => "3",
        4 => "4",
        5 => "5",
        6 => "6",
        7 => "7",
        8 => "8",
        _ => "9",
    };
    assert(r@ =~= seq![spec_digit(d as nat)]);
    r
}

/// Appends the decimal digits of `v` to a text, with zeros in front until there are
/// `width` of them.
pub fn append_decimal(text: &mut String, v: u32, width: u32)
    ensures
        final(text)@ == old(text)@ + spec_decimal(v as nat, width as nat),
    decreases v, width,
{
    if v >= 10 || width > 1 {
        append_decimal(
            text,
            v / 10,
            if width > 0 {
                width - 1
            } else {
                0
            },
        );
    }
    text.append(digit_str((v % 10) as u8));
    assert(text@ =~= old(text)@ + spec_decimal(v as nat, width as nat));
}

impl DateTime {
    /// The stamp as it is printed: year, month and day with hyphens between them, a blank,
    /// and hour, minute and second with colons between them; the year in four digits at
    /// the least and each other number in two.
    pub open spec fn spec_text(self) -> Seq<char> {
        spec_decimal(self.year as nat, 4) + "-"@ + spec_decimal(self.month as nat, 2) + "-"@
            + spec_decimal(self.day as nat, 2) + " "@ + spec_decimal(self.hour as nat, 2) + ":"@
            + spec_decimal(self.minute as nat, 2) + ":"@ + spec_decimal(self.second as nat, 2)
    }

    /// The stamp as it is printed.
    pub fn to_text(&self) -> (r: String)
        ensures
            r@ == self.spec_text(),
    {
        let mut out: String = String::new();
        append_decimal(&mut out, self.year as u32, 4);
        out.append("-");
        append_decimal(&mut out, self.month as u32, 2);
        out.append("-");
        append_decimal(&mut out, self.day as u32, 2);
        out.append(" ");
        append_decimal(&mut out, self.hour as u32, 2);
        out.append(":");
        append_decimal(&mut out, self.minute as u32, 2);
        out.append(":");
        append_decimal(&mut out, self.second as u32, 2);
        assert(out@ =~= self.spec_text());
        out
    }
}

} // verus!
