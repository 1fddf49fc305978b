//! The bit sets of the service: feature flags, object properties, write mode and
//! directory flags.
//!
//! A set is valid when no bit outside its defined ones is set.  Decoders refuse any
//! other pattern; `from_bits` is the only way from a number to a set that checks it.

use vstd::prelude::*;
use vstd::string::StringExecFns;

use crate::error::Error;
use crate::le::{push_u32, read_u32, u32_from_le, u32_to_le};

verus! {

/// The actions that a server offers on its objects.
#[derive(Debug, Clone, Copy, PartialEq, Eq, PartialOrd, Ord, Hash, Structural)]
pub struct ActionFeature {
    /// The bits of the set.
    pub bits: u32,
}

impl ActionFeature {
    /// Objects can be created.
    pub const CREATE: u32 = 0x00000001;

    /// Objects can be deleted.
    pub const DELETE: u32 = 0x00000002;

    /// Checksums can be computed.
    pub const CHECK_SUM: u32 = 0x00000004;

    /// Objects can be executed.
    pub const EXECUTE: u32 = 0x00000008;

    /// Objects can be read.
    pub const READ: u32 = 0x00000010;

    /// Objects can be written.
    pub const WRITE: u32 = 0x00000020;

    /// Data can be appended to objects.
    pub const APPEND: u32 = 0x00000040;

    /// Objects can be truncated.
    pub const TRUNCATE: u32 = 0x00000080;

    /// Objects can be patched.
    pub const PATCH: u32 = 0x00000100;

    /// A read in progress can be aborted.
    pub const ABORT: u32 = 0x00000200;

    /// Every defined bit.
    pub const ALL: u32 = 0x000003ff;

    /// No bit outside the defined ones is set.
    pub open spec fn is_valid(self) -> bool {
        self.bits & !Self::ALL == 0
    }

    /// Every bit of `mask` is set.
    pub open spec fn spec_contains(self, mask: u32) -> bool {
        self.bits & mask == mask
    }

    /// The set with the given bits, where they are all defined.
    pub open spec fn spec_from_bits(bits: u32) -> Option<Self> {
        if bits & !Self::ALL == 0 {
            Some(ActionFeature { bits })
        } else {
            None
        }
    }

    /// The empty set.
    pub fn empty() -> (r: Self)
        ensures
            r.bits == 0,
            r.is_valid(),
    {
        assert(0u32 & !0x000003ffu32 == 0) by (bit_vector);
        ActionFeature { bits: 0 }
    }

    /// The set of every defined bit.
    pub fn all() -> (r: Self)
        ensures
            r.bits == Self::ALL,
            r.is_valid(),
    {
        assert(0x000003ffu32 & !0x000003ffu32 == 0) by (bit_vector);
        ActionFeature { bits: Self::ALL }
    }

    /// The set with the given bits; `None` where an undefined bit is among them.
    pub fn from_bits(bits: u32) -> (r: Option<Self>)
        ensures
            r == Self::spec_from_bits(bits),
            r matches Some(f) ==> f.is_valid() && f.bits == bits,
    {
        if bits & !Self::ALL == 0 {
            Some(ActionFeature { bits })
        } else {
            None
        }
    }

    /// The bits of the set.
    pub fn bits(&self) -> (r: u32)
        ensures
            r == self.bits,
    {
        self.bits
    }

    /// Whether no bit is set.
    pub fn is_empty(&self) -> (r: bool)
        ensures
            r == (self.bits == 0),
    {
        self.bits == 0
    }

    /// Whether every bit of `mask` is set.
    pub fn contains(&self, mask: u32) -> (r: bool)
        ensures
            r == self.spec_contains(mask),
    {
        self.bits & mask == mask
    }

    /// What four bytes at the start of `raw` decode to: the set with the little-endian
    /// number they hold as bits, or `BadActionFeatures` with that number.
    pub open spec fn spec_read(raw: Seq<u8>) -> Result<Self, Error>
        recommends
            raw.len() >= 4,
    {
        let bits = u32_from_le(raw) as u32;
        match Self::spec_from_bits(bits) {
            Some(f) => Ok(f),
            None => Err(Error::BadActionFeatures(bits)),
        }
    }

    /// What a value of exactly four bytes decodes to.
    pub open spec fn spec_decode(raw: Seq<u8>) -> Result<Self, Error> {
        if raw.len() < 4 {
            Err(Error::NotEnoughData { actual: raw.len() as usize, needed: 4 })
        } else if raw.len() > 4 {
            Err(Error::TooManyData { actual: raw.len() as usize, needed: 4 })
        } else {
            Self::spec_read(raw)
        }
    }

    /// The four bytes that stand for the set.
    pub open spec fn spec_encode(self) -> Seq<u8> {
        u32_to_le(self.bits as int)
    }

    /// Decodes the four bytes of `raw` that start at `at`.
    pub fn read(raw: &[u8], at: usize) -> (r: Result<Self, Error>)
        requires
            at + 4 <= raw.len(),
        ensures
            r == Self::spec_read(raw@.subrange(at as int, at + 4)),
            r matches Ok(f) ==> f.is_valid(),
    {
        let bits: u32 = read_u32(raw, at);
        match Self::from_bits(bits) {
            Some(f) => Ok(f),
            None => Err(Error::BadActionFeatures(bits)),
        }
    }

    /// Decodes a value of exactly four bytes.
    pub fn try_from(raw: &[u8]) -> (r: Result<Self, Error>)
        ensures
            r == Self::spec_decode(raw@),
            r matches Ok(f) ==> f.is_valid(),
    {
        match Error::check_len_exact(raw.len(), 4) {
            Err(e) => Err(e),
            Ok(()) => {
                assert(raw@.subrange(0, 4) =~= raw@);
                Self::read(raw, 0)
            },
        }
    }

    /// The four bytes that stand for the set.
    pub fn to_bytes(&self) -> (r: Vec<u8>)
        ensures
            r@ == self.spec_encode(),
    {
        let mut out: Vec<u8> = Vec::new();
        push_u32(&mut out, self.bits as u64);
        out
    }

    /// Decoding then encoding a value of four bytes gives the four bytes back, and a
    /// value with an undefined bit decodes to `BadActionFeatures` and nothing else.
    pub proof fn lemma_decode_encode(raw: Seq<u8>)
        requires
            raw.len() == 4,
        ensures
            match Self::spec_decode(raw) {
                Ok(f) => f.is_valid() && f.spec_encode() == raw,
                Err(e) => e == Error::BadActionFeatures(u32_from_le(raw) as u32) && (u32_from_le(
                    raw,
                ) as u32) & !Self::ALL != 0,
            },
    {
        crate::le::lemma_u32_bytes_round_trip(raw);
    }

    /// Encoding then decoding a valid set gives the set back.
    pub proof fn lemma_encode_decode(self)
        requires
            self.is_valid(),
        ensures
            Self::spec_decode(self.spec_encode()) == Ok::<Self, Error>(self),
    {
        crate::le::lemma_u32_round_trip(self.bits as int);
    }
}

/// The list operations that a server offers beyond moving the selection step by step.
#[derive(Debug, Clone, Copy, PartialEq, Eq, PartialOrd, Ord, Hash, Structural)]
pub struct ListFeature {
    /// The bits of the set.
    pub bits: u32,
}

impl ListFeature {
    /// An object can be selected by its identifier.
    pub const GO_TO: u32 = 0x00000001;

    /// The list order can be changed.
    pub const ORDER: u32 = 0x00000002;

    /// The objects can be counted.
    pub const NUMBER_OF: u32 = 0x00000004;

    /// The marks can be cleared.
    pub const CLEAR_MARK: u32 = 0x00000008;

    /// Every defined bit.
    pub const ALL: u32 = 0x0000000f;

    /// No bit outside the defined ones is set.
    pub open spec fn is_valid(self) -> bool {
        self.bits & !Self::ALL == 0
    }

    /// Every bit of `mask` is set.
    pub open spec fn spec_contains(self, mask: u32) -> bool {
        self.bits & mask == mask
    }

    /// The set with the given bits, where they are all defined.
    pub open spec fn spec_from_bits(bits: u32) -> Option<Self> {
        if bits & !Self::ALL == 0 {
            Some(ListFeature { bits })
        } else {
            None
        }
    }

    /// The empty set.
    pub fn empty() -> (r: Self)
        ensures
            r.bits == 0,
            r.is_valid(),
    {
        assert(0u32 & !0x0000000fu32 == 0) by (bit_vector);
        ListFeature { bits: 0 }
    }

    /// The set of every defined bit.
    pub fn all() -> (r: Self)
        ensures
            r.bits == Self::ALL,
            r.is_valid(),
    {
        assert(0x0000000fu32 & !0x0000000fu32 == 0) by (bit_vector);
        ListFeature { bits: Self::ALL }
    }

    /// The set with the given bits; `None` where an undefined bit is among them.
    pub fn from_bits(bits: u32) -> (r: Option<Self>)
        ensures
            r == Self::spec_from_bits(bits),
            r matches Some(f) ==> f.is_valid() && f.bits == bits,
    {
        if bits & !Self::ALL == 0 {
            Some(ListFeature { bits })
        } else {
            None
        }
    }

    /// The bits of the set.
    pub fn bits(&self) -> (r: u32)
        ensures
            r == self.bits,
    {
        self.bits
    }

    /// Whether no bit is set.
    pub fn is_empty(&self) -> (r: bool)
        ensures
            r == (self.bits == 0),
    {
        self.bits == 0
    }

    /// Whether every bit of `mask` is set.
    pub fn contains(&self, mask: u32) -> (r: bool)
        ensures
            r == self.spec_contains(mask),
    {
        self.bits & mask == mask
    }

    /// What four bytes at the start of `raw` decode to: the set with the little-endian
    /// number they hold as bits, or `BadListFeatures` with that number.
    pub open spec fn spec_read(raw: Seq<u8>) -> Result<Self, Error>
        recommends
            raw.len() >= 4,
    {
        let bits = u32_from_le(raw) as u32;
        match Self::spec_from_bits(bits) {
            Some(f) => Ok(f),
            None => Err(Error::BadListFeatures(bits)),
        }
    }

    /// What a value of exactly four bytes decodes to.
    pub open spec fn spec_decode(raw: Seq<u8>) -> Result<Self, Error> {
        if raw.len() < 4 {
            Err(Error::NotEnoughData { actual: raw.len() as usize, needed: 4 })
        } else if raw.len() > 4 {
            Err(Error::TooManyData { actual: raw.len() as usize, needed: 4 })
        } else {
            Self::spec_read(raw)
        }
    }

    /// The four bytes that stand for the set.
    pub open spec fn spec_encode(self) -> Seq<u8> {
        u32_to_le(self.bits as int)
    }

    /// Decodes the four bytes of `raw` that start at `at`.
    pub fn read(raw: &[u8], at: usize) -> (r: Result<Self, Error>)
        requires
            at + 4 <= raw.len(),
        ensures
            r == Self::spec_read(raw@.subrange(at as int, at + 4)),
            r matches Ok(f) ==> f.is_valid(),
    {
        let bits: u32 = read_u32(raw, at);
        match Self::from_bits(bits) {
            Some(f) => Ok(f),
            None => Err(Error::BadListFeatures(bits)),
        }
    }

    /// Decodes a value of exactly four bytes.
    pub fn try_from(raw: &[u8]) -> (r: Result<Self, Error>)
        ensures
            r == Self::spec_decode(raw@),
            r matches Ok(f) ==> f.is_valid(),
    {
        match Error::check_len_exact(raw.len(), 4) {
            Err(e) => Err(e),
            Ok(()) => {
                assert(raw@.subrange(0, 4) =~= raw@);
                Self::read(raw, 0)
            },
        }
    }

    /// The four bytes that stand for the set.
    pub fn to_bytes(&self) -> (r: Vec<u8>)
        ensures
            r@ == self.spec_encode(),
    {
        let mut out: Vec<u8> = Vec::new();
        push_u32(&mut out, self.bits as u64);
        out
    }

    /// Decoding then encoding a value of four bytes gives the four bytes back, and a
    /// value with an undefined bit decodes to `BadListFeatures` and nothing else.
    pub proof fn lemma_decode_encode(raw: Seq<u8>)
        requires
            raw.len() == 4,
        ensures
            match Self::spec_decode(raw) {
                Ok(f) => f.is_valid() && f.spec_encode() == raw,
                Err(e) => e == Error::BadListFeatures(u32_from_le(raw) as u32) && (u32_from_le(
                    raw,
                ) as u32) & !Self::ALL != 0,
            },
    {
        crate::le::lemma_u32_bytes_round_trip(raw);
    }

    /// Encoding then decoding a valid set gives the set back.
    pub proof fn lemma_encode_decode(self)
        requires
            self.is_valid(),
        ensures
            Self::spec_decode(self.spec_encode()) == Ok::<Self, Error>(self),
    {
        crate::le::lemma_u32_round_trip(self.bits as int);
    }
}

/// What may be done with one object.
#[derive(Debug, Clone, Copy, PartialEq, Eq, PartialOrd, Ord, Hash, Structural)]
pub struct Property {
    /// The bits of the set.
    pub bits: u32,
}

impl Property {
    /// The object may be deleted.
    pub const DELETE: u32 = 0x00000001;

    /// The object may be executed.
    pub const EXECUTE: u32 = 0x00000002;

    /// The object may be read.
    pub const READ: u32 = 0x00000004;

    /// The object may be written.
    pub const WRITE: u32 = 0x00000008;

    /// Data may be appended to the object.
    pub const APPEND: u32 = 0x00000010;

    /// The object may be truncated.
    pub const TRUNCATE: u32 = 0x00000020;

    /// The object may be patched.
    pub const PATCH: u32 = 0x00000040;

    /// The object may be marked.
    pub const MARK: u32 = 0x00000080;

    /// Every defined bit.
    pub const ALL: u32 = 0x000000ff;

    /// No bit outside the defined ones is set.
    pub open spec fn is_valid(self) -> bool {
        self.bits & !Self::ALL == 0
    }

    /// Every bit of `mask` is set.
    pub open spec fn spec_contains(self, mask: u32) -> bool {
        self.bits & mask == mask
    }

    /// The set with the given bits, where they are all defined.
    pub open spec fn spec_from_bits(bits: u32) -> Option<Self> {
        if bits & !Self::ALL == 0 {
            Some(Property { bits })
        } else {
            None
        }
    }

    /// The empty set.
    pub fn empty() -> (r: Self)
        ensures
            r.bits == 0,
            r.is_valid(),
    {
        assert(0u32 & !0x000000ffu32 == 0) by (bit_vector);
        Property { bits: 0 }
    }

    /// The set of every defined bit.
    pub fn all() -> (r: Self)
        ensures
            r.bits == Self::ALL,
            r.is_valid(),
    {
        assert(0x000000ffu32 & !0x000000ffu32 == 0) by (bit_vector);
        Property { bits: Self::ALL }
    }

    /// The set with the given bits; `None` where an undefined bit is among them.
    pub fn from_bits(bits: u32) -> (r: Option<Self>)
        ensures
            r == Self::spec_from_bits(bits),
            r matches Some(f) ==> f.is_valid() && f.bits == bits,
    {
        if bits & !Self::ALL == 0 {
            Some(Property { bits })
        } else {
            None
        }
    }

    /// The bits of the set.
    pub fn bits(&self) -> (r: u32)
        ensures
            r == self.bits,
    {
        self.bits
    }

    /// Whether no bit is set.
    pub fn is_empty(&self) -> (r: bool)
        ensures
            r == (self.bits == 0),
    {
        self.bits == 0
    }

    /// Whether every bit of `mask` is set.
    pub fn contains(&self, mask: u32) -> (r: bool)
        ensures
            r == self.spec_contains(mask),
    {
        self.bits & mask == mask
    }

    /// What four bytes at the start of `raw` decode to: the set with the little-endian
    /// number they hold as bits, or `BadProperties` with that number.
    pub open spec fn spec_read(raw: Seq<u8>) -> Result<Self, Error>
        recommends
            raw.len() >= 4,
    {
        let bits = u32_from_le(raw) as u32;
        match Self::spec_from_bits(bits) {
            Some(f) => Ok(f),
            None => Err(Error::BadProperties(bits)),
        }
    }

    /// What a value of exactly four bytes decodes to.
    pub open spec fn spec_decode(raw: Seq<u8>) -> Result<Self, Error> {
        if raw.len() < 4 {
            Err(Error::NotEnoughData { actual: raw.len() as usize, needed: 4 })
        } else if raw.len() > 4 {
            Err(Error::TooManyData { actual: raw.len() as usize, needed: 4 })
        } else {
            Self::spec_read(raw)
        }
    }

    /// The four bytes that stand for the set.
    pub open spec fn spec_encode(self) -> Seq<u8> {
        u32_to_le(self.bits as int)
    }

    /// Decodes the four bytes of `raw` that start at `at`.
    pub fn read(raw: &[u8], at: usize) -> (r: Result<Self, Error>)
        requires
            at + 4 <= raw.len(),
        ensures
            r == Self::spec_read(raw@.subrange(at as int, at + 4)),
            r matches Ok(f) ==> f.is_valid(),
    {
        let bits: u32 = read_u32(raw, at);
        match Self::from_bits(bits) {
            Some(f) => Ok(f),
            None => Err(Error::BadProperties(bits)),
        }
    }

    /// Decodes a value of exactly four bytes.
    pub fn try_from(raw: &[u8]) -> (r: Result<Self, Error>)
        ensures
            r == Self::spec_decode(raw@),
            r matches Ok(f) ==> f.is_valid(),
    {
        match Error::check_len_exact(raw.len(), 4) {
            Err(e) => Err(e),
            Ok(()) => {
                assert(raw@.subrange(0, 4) =~= raw@);
                Self::read(raw, 0)
            },
        }
    }

    /// The four bytes that stand for the set.
    pub fn to_bytes(&self) -> (r: Vec<u8>)
        ensures
            r@ == self.spec_encode(),
    {
        let mut out: Vec<u8> = Vec::new();
        push_u32(&mut out, self.bits as u64);
        out
    }

    /// Decoding then encoding a value of four bytes gives the four bytes back, and a
    /// value with an undefined bit decodes to `BadProperties` and nothing else.
    pub proof fn lemma_decode_encode(raw: Seq<u8>)
        requires
            raw.len() == 4,
        ensures
            match Self::spec_decode(raw) {
                Ok(f) => f.is_valid() && f.spec_encode() == raw,
                Err(e) => e == Error::BadProperties(u32_from_le(raw) as u32) && (u32_from_le(
                    raw,
                ) as u32) & !Self::ALL != 0,
            },
    {
        crate::le::lemma_u32_bytes_round_trip(raw);
    }

    /// Encoding then decoding a valid set gives the set back.
    pub proof fn lemma_encode_decode(self)
        requires
            self.is_valid(),
        ensures
            Self::spec_decode(self.spec_encode()) == Ok::<Self, Error>(self),
    {
        crate::le::lemma_u32_round_trip(self.bits as int);
    }
}

/// How a write treats what lies behind the written range.
#[derive(Debug, Clone, Copy, PartialEq, Eq, PartialOrd, Ord, Hash, Structural)]
pub struct WriteMode {
    /// The bits of the set.
    pub bits: u8,
}

impl WriteMode {
    /// The object ends where the written range ends.
    pub const TRUNCATE: u8 = 0x02;

    /// Every defined bit.
    pub const ALL: u8 = 0x02;

    /// No bit outside the defined ones is set.
    pub open spec fn is_valid(self) -> bool {
        self.bits & !Self::ALL == 0
    }

    /// Every bit of `mask` is set.
    pub open spec fn spec_contains(self, mask: u8) -> bool {
        self.bits & mask == mask
    }

    /// The set with the given bits, where they are all defined.
    pub open spec fn spec_from_bits(bits: u8) -> Option<Self> {
        if bits & !Self::ALL == 0 {
            Some(WriteMode { bits })
        } else {
            None
        }
    }

    /// The empty set.
    pub fn empty() -> (r: Self)
        ensures
            r.bits == 0,
            r.is_valid(),
    {
        assert(0u8 & !0x02u8 == 0) by (bit_vector);
        WriteMode { bits: 0 }
    }

    /// The set of every defined bit.
    pub fn all() -> (r: Self)
        ensures
            r.bits == Self::ALL,
            r.is_valid(),
    {
        assert(0x02u8 & !0x02u8 == 0) by (bit_vector);
        WriteMode { bits: Self::ALL }
    }

    /// The set with the given bits; `None` where an undefined bit is among them.
    pub fn from_bits(bits: u8) -> (r: Option<Self>)
        ensures
            r == Self::spec_from_bits(bits),
            r matches Some(f) ==> f.is_valid() && f.bits == bits,
    {
        if bits & !Self::ALL == 0 {
            Some(WriteMode { bits })
        } else {
            None
        }
    }

    /// The bits of the set.
    pub fn bits(&self) -> (r: u8)
        ensures
            r == self.bits,
    {
        self.bits
    }

    /// Whether no bit is set.
    pub fn is_empty(&self) -> (r: bool)
        ensures
            r == (self.bits == 0),
    {
        self.bits == 0
    }

    /// Whether every bit of `mask` is set.
    pub fn contains(&self, mask: u8) -> (r: bool)
        ensures
            r == self.spec_contains(mask),
    {
        self.bits & mask == mask
    }
}

/// Which optional fields a directory entry holds.
#[derive(Debug, Clone, Copy, PartialEq, Eq, PartialOrd, Ord, Hash, Structural)]
pub struct DirFlag {
    /// The bits of the set.
    pub bits: u8,
}

impl DirFlag {
    /// The type is a full 128-bit UUID.
    pub const TYPE_UUID128: u8 = 0x01;

    /// The current size follows.
    pub const HAS_CURRENT_SIZE: u8 = 0x02;

    /// The allocated size follows.
    pub const HAS_ALLOCATED_SIZE: u8 = 0x04;

    /// The creation time follows.
    pub const HAS_FIRST_CREATED: u8 = 0x08;

    /// The modification time follows.
    pub const HAS_LAST_MODIFIED: u8 = 0x10;

    /// The properties follow.
    pub const HAS_PROPERTIES: u8 = 0x20;

    /// Extended flags follow.
    pub const HAS_EXTENDED_FLAGS: u8 = 0x80;

    /// Every defined bit.
    pub const ALL: u8 = 0xbf;

    /// No bit outside the defined ones is set.
    pub open spec fn is_valid(self) -> bool {
        self.bits & !Self::ALL == 0
    }

    /// Every bit of `mask` is set.
    pub open spec fn spec_contains(self, mask: u8) -> bool {
        self.bits & mask == mask
    }

    /// The set with the given bits, where they are all defined.
    pub open spec fn spec_from_bits(bits: u8) -> Option<Self> {
        if bits & !Self::ALL == 0 {
            Some(DirFlag { bits })
        } else {
            None
        }
    }

    /// The empty set.
    pub fn empty() -> (r: Self)
        ensures
            r.bits == 0,
            r.is_valid(),
    {
        assert(0u8 & !0xbfu8 == 0) by (bit_vector);
        DirFlag { bits: 0 }
    }

    /// The set of every defined bit.
    pub fn all() -> (r: Self)
        ensures
            r.bits == Self::ALL,
            r.is_valid(),
    {
        assert(0xbfu8 & !0xbfu8 == 0) by (bit_vector);
        DirFlag { bits: Self::ALL }
    }

    /// The set with the given bits; `None` where an undefined bit is among them.
    pub fn from_bits(bits: u8) -> (r: Option<Self>)
        ensures
            r == Self::spec_from_bits(bits),
            r matches Some(f) ==> f.is_valid() && f.bits == bits,
    {
        if bits & !Self::ALL == 0 {
            Some(DirFlag { bits })
        } else {
            None
        }
    }

    /// The bits of the set.
    pub fn bits(&self) -> (r: u8)
        ensures
            r == self.bits,
    {
        self.bits
    }

    /// Whether no bit is set.
    pub fn is_empty(&self) -> (r: bool)
        ensures
            r == (self.bits == 0),
    {
        self.bits == 0
    }

    /// Whether every bit of `mask` is set.
    pub fn contains(&self, mask: u8) -> (r: bool)
        ensures
            r == self.spec_contains(mask),
    {
        self.bits & mask == mask
    }

    /// What one byte decodes to: the set with the byte as bits, or `BadDirFlags` with the byte.
    pub open spec fn spec_decode(raw: u8) -> Result<Self, Error> {
        match Self::spec_from_bits(raw) {
            Some(f) => Ok(f),
            None => Err(Error::BadDirFlags(raw)),
        }
    }

    /// Decodes one byte.
    pub fn try_from(raw: u8) -> (r: Result<Self, Error>)
        ensures
            r == Self::spec_decode(raw),
            r matches Ok(f) ==> f.is_valid(),
    {
        match Self::from_bits(raw) {
            Some(f) => Ok(f),
            None => Err(Error::BadDirFlags(raw)),
        }
    }

    /// Decoding a byte gives a set whose bits are the byte, or `BadDirFlags` with the byte
    /// where an undefined bit is set.
    pub proof fn lemma_decode_encode(raw: u8)
        ensures
            match Self::spec_decode(raw) {
                Ok(f) => f.is_valid() && f.bits == raw,
                Err(e) => e == Error::BadDirFlags(raw) && raw & !Self::ALL != 0,
            },
    {
    }
}

/// A text with one more word behind it, parted from what stands there by a blank; the
/// text itself where the word is not wanted.
pub open spec fn spec_add_word(text: Seq<char>, wanted: bool, word: Seq<char>) -> Seq<char> {
    if !wanted {
        text
    } else if text.len() == 0 {
        word
    } else {
        text + " "@ + word
    }
}

/// Puts one more word behind a text, parted from what stands there by a blank.
pub fn add_word(text: &mut String, wanted: bool, word: &str)
    ensures
        final(text)@ == spec_add_word(old(text)@, wanted, word@),
{
    if wanted {
        if !text.as_str().is_empty() {
            text.append(" ");
        } else {
            assert(text@ + word@ =~= word@);
        }
        text.append(word);
    }
}

impl ActionFeature {
    /// The names of the bits that are set, in the order of the bits, with a blank between
    /// each two.
    pub open spec fn spec_text(self) -> Seq<char> {
        let t = Seq::<char>::empty();
        let t = spec_add_word(t, self.spec_contains(Self::CREATE), "create"@);
        let t = spec_add_word(t, self.spec_contains(Self::DELETE), "delete"@);
        let t = spec_add_word(t, self.spec_contains(Self::CHECK_SUM), "checksum"@);
        let t = spec_add_word(t, self.spec_contains(Self::EXECUTE), "execute"@);
        let t = spec_add_word(t, self.spec_contains(Self::READ), "read"@);
        let t = spec_add_word(t, self.spec_contains(Self::WRITE), "write"@);
        let t = spec_add_word(t, self.spec_contains(Self::APPEND), "append"@);
        let t = spec_add_word(t, self.spec_contains(Self::TRUNCATE), "truncate"@);
        let t = spec_add_word(t, self.spec_contains(Self::PATCH), "patch"@);
        let t = spec_add_word(t, self.spec_contains(Self::ABORT), "abort"@);
        t
    }

    /// The names of the bits that are set, with a blank between each two.
    pub fn to_text(&self) -> (r: String)
        ensures
            r@ == self.spec_text(),
    {
        let mut out: String = String::new();
        add_word(&mut out, self.contains(Self::CREATE), "create");
        add_word(&mut out, self.contains(Self::DELETE), "delete");
        add_word(&mut out, self.contains(Self::CHECK_SUM), "checksum");
        add_word(&mut out, self.contains(Self::EXECUTE), "execute");
        add_word(&mut out, self.contains(Self::READ), "read");
        add_word(&mut out, self.contains(Self::WRITE), "write");
        add_word(&mut out, self.contains(Self::APPEND), "append");
        add_word(&mut out, self.contains(Self::TRUNCATE), "truncate");
        add_word(&mut out, self.contains(Self::PATCH), "patch");
        add_word(&mut out, self.contains(Self::ABORT), "abort");
        out
    }
}

impl ListFeature {
    /// The names of the bits that are set, in the order of the bits, with a blank between
    /// each two.
    pub open spec fn spec_text(self) -> Seq<char> {
        let t = Seq::<char>::empty();
        let t = spec_add_word(t, self.spec_contains(Self::GO_TO), "goto"@);
        let t = spec_add_word(t, self.spec_contains(Self::ORDER), "order"@);
        let t = spec_add_word(t, self.spec_contains(Self::NUMBER_OF), "numberof"@);
        let t = spec_add_word(t, self.spec_contains(Self::CLEAR_MARK), "clearmark"@);
        t
    }

    /// The names of the bits that are set, with a blank between each two.
    pub fn to_text(&self) -> (r: String)
        ensures
            r@ == self.spec_text(),
    {
        let mut out: String = String::new();
        add_word(&mut out, self.contains(Self::GO_TO), "goto");
        add_word(&mut out, self.contains(Self::ORDER), "order");
        add_word(&mut out, self.contains(Self::NUMBER_OF), "numberof");
        add_word(&mut out, self.contains(Self::CLEAR_MARK), "clearmark");
        out
    }
}

impl Property {
    /// The names of the bits that are set, in the order of the bits, with a blank between
    /// each two.
    pub open spec fn spec_text(self) -> Seq<char> {
        let t = Seq::<char>::empty();
        let t = spec_add_word(t, self.spec_contains(Self::DELETE), "delete"@);
        let t = spec_add_word(t, self.spec_contains(Self::EXECUTE), "execute"@);
        let t = spec_add_word(t, self.spec_contains(Self::READ), "read"@);
        let t = spec_add_word(t, self.spec_contains(Self::WRITE), "write"@);
        let t = spec_add_word(t, self.spec_contains(Self::APPEND), "append"@);
        let t = spec_add_word(t, self.spec_contains(Self::TRUNCATE), "truncate"@);
        let t = spec_add_word(t, self.spec_contains(Self::PATCH), "patch"@);
        let t = spec_add_word(t, self.spec_contains(Self::MARK), "mark"@);
        t
    }

    /// The names of the bits that are set, with a blank between each two.
    pub fn to_text(&self) -> (r: String)
        ensures
            r@ == self.spec_text(),
    {
        let mut out: String = String::new();
        add_word(&mut out, self.contains(Self::DELETE), "delete");
        add_word(&mut out, self.contains(Self::EXECUTE), "execute");
        add_word(&mut out, self.contains(Self::READ), "read");
        add_word(&mut out, self.contains(Self::WRITE), "write");
        add_word(&mut out, self.contains(Self::APPEND), "append");
        add_word(&mut out, self.contains(Self::TRUNCATE), "truncate");
        add_word(&mut out, self.contains(Self::PATCH), "patch");
        add_word(&mut out, self.contains(Self::MARK), "mark");
        out
    }
}

} // verus!
